use alipan::bridge::{RangeBudget, CHUNK_SIZE};
use alipan::common::CheckNameMode;
use alipan::session::{
    upload_complete_request, upload_create_request, upload_url_request, UploadAction, UploadEvent,
    UploadFailure, UploadSession, UploadState,
};
use alipan::upload::{part_count, part_info_list, part_range};

const GIB: i64 = 1 << 30;

#[test]
fn part_count_rounds_up() {
    assert_eq!(part_count(13, 5), 3);
    assert_eq!(part_count(10, 5), 2);
    assert_eq!(part_count(0, 5), 0);
    assert_eq!(part_count(1, GIB), 1);
    assert_eq!(part_count(3 * GIB + 7, GIB), 4);
    assert_eq!(part_count(i64::MAX, 1), i64::MAX);
}

#[test]
fn part_list_numbers_parts_from_one() {
    let parts = part_info_list(13, 5);
    let numbers: Vec<i64> = parts.iter().map(|p| p.part_number).collect();
    assert_eq!(numbers, vec![1, 2, 3]);
    assert!(part_info_list(0, 5).is_empty());
}

#[test]
fn part_ranges_tile_the_file() {
    let size = 13;
    let part_size = 5;
    let count = part_count(size, part_size);
    let ranges: Vec<(i64, i64)> = (1..=count).map(|n| part_range(n, size, part_size)).collect();
    assert_eq!(ranges, vec![(0, 5), (5, 5), (10, 3)]);
    let mut next = 0;
    for (skip, len) in ranges {
        assert_eq!(skip, next);
        assert!(len > 0);
        next = skip + len;
    }
    assert_eq!(next, size);
}

#[test]
fn last_part_of_large_file_holds_the_rest() {
    let size = 3 * GIB + 7;
    assert_eq!(part_range(1, size, GIB), (0, GIB));
    assert_eq!(part_range(3, size, GIB), (2 * GIB, GIB));
    assert_eq!(part_range(4, size, GIB), (3 * GIB, 7));
    assert_eq!(part_range(2, 2 * GIB, GIB), (GIB, GIB));
}

#[test]
fn hello_world_is_one_part() {
    let request = upload_create_request(
        "https://openapi.alipan.com",
        "drive",
        "root",
        "test.txt",
        13,
        GIB,
        "0a0a9f2a6772942557ab5355d76af442f8f65e01",
        "sha1",
        CheckNameMode::Refuse,
    );
    let post = request.post().unwrap();
    assert_eq!(post.size, Some(13));
    assert_eq!(post.content_hash_name.as_deref(), Some("sha1"));
    assert_eq!(post.content_hash.as_deref(), Some("0a0a9f2a6772942557ab5355d76af442f8f65e01"));
    let parts = post.part_info_list.unwrap();
    assert_eq!(parts.len(), 1);
    assert_eq!(parts[0].part_number, 1);
    assert_eq!(part_range(1, 13, GIB), (0, 13));

    let mut session = UploadSession::new(13, GIB, true);
    let action = session.step(UploadEvent::FileCreated {
        exist: false,
        rapid_upload: false,
        upload_id: Some("up".to_string()),
    });
    assert!(matches!(action, UploadAction::RequestUploadUrl(1)));
    let action = session.step(UploadEvent::UploadUrlReceived("https://put/1".to_string()));
    match action {
        UploadAction::PutPart { part_number, upload_url, skip, read_len } => {
            assert_eq!((part_number, skip, read_len), (1, 0, 13));
            assert_eq!(upload_url, "https://put/1");
        }
        _ => panic!("expected a part upload"),
    }
}

#[test]
fn rapid_upload_sends_nothing() {
    let mut session = UploadSession::new(13, GIB, true);
    let action = session.step(UploadEvent::FileCreated {
        exist: false,
        rapid_upload: true,
        upload_id: Some("up".to_string()),
    });
    assert!(matches!(action, UploadAction::Stop));
    assert!(matches!(session.state, UploadState::RapidUploaded));
    assert!(session.is_finished());
    for event in [
        UploadEvent::UploadUrlReceived("u".to_string()),
        UploadEvent::PartUploaded(true),
        UploadEvent::CompleteFinished(true),
    ] {
        assert!(matches!(session.step(event), UploadAction::Stop));
        assert!(matches!(session.state, UploadState::RapidUploaded));
    }
}

#[test]
fn existing_file_is_refused() {
    let mut session = UploadSession::new(13, GIB, true);
    let action = session.step(UploadEvent::FileCreated { exist: true, rapid_upload: true, upload_id: None });
    assert!(matches!(action, UploadAction::Stop));
    assert!(matches!(session.state, UploadState::Failed(UploadFailure::AlreadyExists)));

    let mut lenient = UploadSession::new(13, GIB, false);
    let action = lenient.step(UploadEvent::FileCreated { exist: true, rapid_upload: true, upload_id: None });
    assert!(matches!(action, UploadAction::Stop));
    assert!(matches!(lenient.state, UploadState::RapidUploaded));
}

#[test]
fn missing_upload_id_fails() {
    let mut session = UploadSession::new(13, 5, false);
    session.step(UploadEvent::FileCreated { exist: false, rapid_upload: false, upload_id: None });
    assert!(matches!(session.state, UploadState::Failed(UploadFailure::MissingUploadId)));
}

#[test]
fn three_parts_then_complete() {
    let mut session = UploadSession::new(13, 5, true);
    let mut action = session.step(UploadEvent::FileCreated {
        exist: false,
        rapid_upload: false,
        upload_id: Some("up".to_string()),
    });
    let mut puts = Vec::new();
    for n in 1..=3 {
        assert!(matches!(action, UploadAction::RequestUploadUrl(k) if k == n));
        match session.step(UploadEvent::UploadUrlReceived(format!("url{}", n))) {
            UploadAction::PutPart { part_number, upload_url, skip, read_len } => {
                assert_eq!(upload_url, format!("url{}", n));
                puts.push((part_number, skip, read_len));
            }
            _ => panic!("expected a part upload"),
        }
        action = session.step(UploadEvent::PartUploaded(true));
    }
    assert_eq!(puts, vec![(1, 0, 5), (2, 5, 5), (3, 10, 3)]);
    match action {
        UploadAction::Complete(id) => assert_eq!(id, "up"),
        _ => panic!("expected complete"),
    }
    assert!(matches!(session.step(UploadEvent::CompleteFinished(true)), UploadAction::Stop));
    assert!(matches!(session.state, UploadState::Completed));
}

#[test]
fn rejected_part_fails_with_its_number() {
    let mut session = UploadSession::new(13, 5, true);
    session.step(UploadEvent::FileCreated { exist: false, rapid_upload: false, upload_id: Some("up".to_string()) });
    session.step(UploadEvent::UploadUrlReceived("a".to_string()));
    session.step(UploadEvent::PartUploaded(true));
    session.step(UploadEvent::UploadUrlReceived("b".to_string()));
    let action = session.step(UploadEvent::PartUploaded(false));
    assert!(matches!(action, UploadAction::Stop));
    assert!(matches!(session.state, UploadState::Failed(UploadFailure::PartRejected(2))));
}

#[test]
fn rejected_complete_and_unexpected_events_fail() {
    let mut empty = UploadSession::new(0, 5, true);
    let action = empty.step(UploadEvent::FileCreated { exist: false, rapid_upload: false, upload_id: Some("e".to_string()) });
    assert!(matches!(action, UploadAction::Complete(ref id) if id == "e"));
    empty.step(UploadEvent::CompleteFinished(false));
    assert!(matches!(empty.state, UploadState::Failed(UploadFailure::CompleteRejected)));

    let mut session = UploadSession::new(13, 5, true);
    session.step(UploadEvent::PartUploaded(true));
    assert!(matches!(session.state, UploadState::Failed(UploadFailure::UnexpectedEvent)));
}

#[test]
fn upload_url_and_complete_requests() {
    let request = upload_url_request("https://h", "d", "f", "u", 4);
    let post = request.post().unwrap();
    assert_eq!(post.drive_id.as_deref(), Some("d"));
    assert_eq!(post.upload_id.as_deref(), Some("u"));
    let parts = post.part_info_list.unwrap();
    assert_eq!(parts.len(), 1);
    assert_eq!(parts[0].part_number, 4);
    assert_eq!(request.url(), "https://h/adrive/v1.0/openFile/getUploadUrl");

    let complete = upload_complete_request("https://h", "d", "f", "u").post().unwrap();
    assert_eq!((complete.drive_id.as_str(), complete.file_id.as_str(), complete.upload_id.as_str()), ("d", "f", "u"));
}

#[test]
fn range_budget_truncates_the_last_chunk() {
    let mut budget = RangeBudget::new(2500);
    assert_eq!(budget.take(CHUNK_SIZE), 1024);
    assert_eq!(budget.take(CHUNK_SIZE), 1024);
    assert!(!budget.is_done());
    assert_eq!(budget.take(CHUNK_SIZE), 452);
    assert!(budget.is_done());
    assert_eq!(budget.take(CHUNK_SIZE), 0);
    let mut short = RangeBudget::new(100);
    assert_eq!(short.take(30), 30);
    assert_eq!(short.remaining, 70);
}
