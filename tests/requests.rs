use alipan::common::{AdriveOpenFilePartInfo, AdriveOpenFileStreamInfo, AdriveOpenFileType, CheckNameMode, OptionParam};
use alipan::error::ErrorInfo;
use alipan::requests::{
    AdriveOpenFileBatchGetRequest, AdriveOpenFileBatchGetRequestFileList, AdriveOpenFileCompleteRequest,
    AdriveOpenFileCopyRequest, AdriveOpenFileCreateRequest, AdriveOpenFileListRequest, AdriveOpenFileMoveRequest,
    AdriveUserGetDriveInfoRequest,
};
use alipan::responses::{next_marker_of, AdriveOpenFileCreate, AdriveOpenFileGetUploadUrl, AdriveOpenFilePartInfoUpload};
use alipan::session::UploadEvent;

fn missing(e: &ErrorInfo) -> &str {
    match e {
        ErrorInfo::MissingParameter(name) => name.as_str(),
        _ => panic!("expected a missing parameter"),
    }
}

#[test]
fn complete_requires_its_ids() {
    let r = AdriveOpenFileCompleteRequest::new("https://h");
    assert_eq!(missing(&r.post().unwrap_err().inner), "drive_id");
    let r = r.drive_id("d").file_id("f");
    assert_eq!(missing(&r.post().unwrap_err().inner), "upload_id");
    let post = r.upload_id("u").post().unwrap();
    assert_eq!(post.upload_id, "u");
    assert_eq!(
        AdriveOpenFileCompleteRequest::new("https://h").url(),
        "https://h/adrive/v1.0/openFile/complete"
    );
}

#[test]
fn list_defaults_to_root() {
    let r = AdriveOpenFileListRequest::new("https://h");
    assert_eq!(r.parent_file_id, "root");
    assert_eq!(missing(&r.post().unwrap_err().inner), "drive_id");
    let post = r.drive_id("d").limit(100).file_type(AdriveOpenFileType::Folder).post().unwrap();
    assert_eq!(post.parent_file_id, "root");
    assert_eq!(post.limit, Some(100));
    assert_eq!(post.file_type, Some(AdriveOpenFileType::Folder));
    assert_eq!(post.marker, None);
    let r = AdriveOpenFileListRequest::new("https://h").drive_id("d").parent_file_id("");
    assert_eq!(missing(&r.post().unwrap_err().inner), "parent_file_id");
}

#[test]
fn copy_and_move_need_a_target() {
    let r = AdriveOpenFileCopyRequest::new("h").drive_id("d").file_id("f");
    assert_eq!(missing(&r.post().unwrap_err().inner), "to_parent_file_id");
    let post = r.to_parent_file_id("p").auto_rename(true).post().unwrap();
    assert_eq!(post.auto_rename, Some(true));
    assert_eq!(post.to_drive_id, None);
    let r = AdriveOpenFileMoveRequest::new("h").drive_id("d").file_id("f").to_parent_file_id("p").new_name("n");
    let post = r.check_name_mode(CheckNameMode::AutoRename).post().unwrap();
    assert_eq!(post.new_name.as_deref(), Some("n"));
    assert_eq!(post.check_name_mode, Some(CheckNameMode::AutoRename));
}

#[test]
fn create_checks_fields_in_order() {
    let r = AdriveOpenFileCreateRequest::new("h").drive_id("d").parent_file_id("root");
    assert_eq!(missing(&r.post().unwrap_err().inner), "name");
    let r = r.name("folder").file_type(AdriveOpenFileType::Folder);
    assert_eq!(missing(&r.post().unwrap_err().inner), "check_name_mode");
    let stream = AdriveOpenFileStreamInfo {
        content_hash: String::new(),
        content_hash_name: String::new(),
        proof_version: String::new(),
        proof_code: String::new(),
        content_md5: String::new(),
        pre_hash: String::new(),
        size: 0,
        part_info_list: Vec::new(),
    }
    .content_hash("h1")
    .size(3)
    .part_info_list(vec![AdriveOpenFilePartInfo { part_number: 0 }.part_number(1)]);
    let post = r.check_name_mode(CheckNameMode::Ignore).streams_info(vec![stream]).post().unwrap();
    assert_eq!(post.name, "folder");
    let streams = post.streams_info.unwrap();
    assert_eq!(streams[0].content_hash, "h1");
    assert_eq!(streams[0].part_info_list[0].part_number, 1);
    assert!(post.part_info_list.is_none());
}

#[test]
fn batch_get_copies_the_list() {
    let files = vec![
        AdriveOpenFileBatchGetRequestFileList::new("d1", "f1"),
        AdriveOpenFileBatchGetRequestFileList::new("d", "x").drive_id("d2").file_id("f2"),
    ];
    let post = AdriveOpenFileBatchGetRequest::new("h").file_list(files).video_thumbnail_time(5).post().unwrap();
    assert_eq!(post.file_list.len(), 2);
    assert_eq!(post.file_list[1].drive_id, "d2");
    assert_eq!(post.file_list[1].file_id, "f2");
    assert_eq!(post.video_thumbnail_time, Some(5));
}

#[test]
fn endpoint_urls() {
    assert_eq!(AdriveUserGetDriveInfoRequest::new("https://h").url(), "https://h/adrive/v1.0/user/getDriveInfo");
}

#[test]
fn option_param_flags() {
    assert!(OptionParam(Some(1)).is_some());
    assert!(OptionParam::<i64>(None).is_none());
}

#[test]
fn create_answer_becomes_an_event() {
    let answer = AdriveOpenFileCreate {
        drive_id: "d".into(),
        file_id: "f".into(),
        status: None,
        parent_file_id: "root".into(),
        upload_id: Some("u".into()),
        file_name: "n".into(),
        available: true,
        exist: false,
        rapid_upload: true,
        part_info_list: vec![],
    };
    match answer.upload_event() {
        UploadEvent::FileCreated { exist, rapid_upload, upload_id } => {
            assert!(!exist);
            assert!(rapid_upload);
            assert_eq!(upload_id.as_deref(), Some("u"));
        }
        _ => panic!("expected a create event"),
    }
}

#[test]
fn upload_url_is_found_by_part_number() {
    let part = |n: i64, url: &str| AdriveOpenFilePartInfoUpload { part_number: n, part_size: 5, upload_url: url.into() };
    let answer = AdriveOpenFileGetUploadUrl {
        drive_id: "d".into(),
        file_id: "f".into(),
        upload_id: "u".into(),
        created_at: None,
        part_info_list: vec![part(2, "two"), part(3, "three"), part(3, "again")],
    };
    assert_eq!(answer.url_of_part(3).as_deref(), Some("three"));
    assert_eq!(answer.url_of_part(2).as_deref(), Some("two"));
    assert_eq!(answer.url_of_part(1), None);
}

#[test]
fn blank_marker_means_last_page() {
    assert_eq!(next_marker_of(Some(String::new())), None);
    assert_eq!(next_marker_of(None), None);
    assert_eq!(next_marker_of(Some("m".to_string())).as_deref(), Some("m"));
}
