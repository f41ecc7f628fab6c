use crate::common::{AdriveOpenFilePartInfo, AdriveOpenFileType, CheckNameMode};
use crate::requests::{AdriveOpenFileCompleteRequest, AdriveOpenFileCreateRequest, AdriveOpenFileGetUploadUrlRequest};
use crate::upload::{
    lemma_parts_needed_bounds, part_count, part_info_list, part_length, part_offset, part_range, parts_needed,
};
use vstd::prelude::*;

verus! {

/// Why an upload session stopped without completing.
#[derive(Debug)]
pub enum UploadFailure {
    /// The server already holds a file of that name and the session refuses duplicates.
    AlreadyExists,
    /// The server asked for a part upload but gave no upload id.
    MissingUploadId,
    /// The PUT of this part was rejected.
    PartRejected(i64),
    /// The final "complete" call was rejected.
    CompleteRejected,
    /// An event arrived that the current state does not expect.
    UnexpectedEvent,
}

/// Where an upload session stands.
#[derive(Debug)]
pub enum UploadState {
    /// The "create file" call has been issued; its answer is awaited.
    Created,
    /// A fresh upload URL for this part has been requested.
    AwaitingUploadUrl(i64),
    /// This part is being sent to its upload URL.
    UploadingPart(i64),
    /// Every part is sent; the "complete" call has been issued.
    Completing,
    /// The server had the content already: nothing was transferred.
    RapidUploaded,
    Completed,
    Failed(UploadFailure),
}

/// What the outside world reports back to the session.
#[derive(Debug)]
pub enum UploadEvent {
    /// The answer to "create file".
    FileCreated { exist: bool, rapid_upload: bool, upload_id: Option<String> },
    /// The signed URL for the part that was asked for.
    UploadUrlReceived(String),
    /// Whether the PUT of the current part succeeded.
    PartUploaded(bool),
    /// Whether the "complete" call succeeded.
    CompleteFinished(bool),
}

/// What the session asks the outside world to do next.
#[derive(Debug)]
pub enum UploadAction {
    /// Fetch a fresh upload URL for this part.
    RequestUploadUrl(i64),
    /// Send bytes `[skip, skip + read_len)` of the file to `upload_url`.
    PutPart { part_number: i64, upload_url: String, skip: i64, read_len: i64 },
    /// Issue "complete" for this upload id.
    Complete(String),
    /// Nothing more to do: the state says how the session ended.
    Stop,
}

/// One chunked upload: create, then per part a fresh URL and a PUT, then complete.
#[derive(Debug)]
pub struct UploadSession {
    pub size: i64,
    pub part_size: i64,
    pub part_count: i64,
    /// Whether an existing file of the same name fails the session (check-name-mode "refuse").
    pub refuse_existing: bool,
    pub upload_id: Option<String>,
    pub state: UploadState,
}

pub open spec fn is_terminal(s: UploadState) -> bool {
    s is RapidUploaded || s is Completed || s is Failed
}

impl UploadSession {
    pub open spec fn wf(&self) -> bool {
        &&& self.size >= 0
        &&& self.part_size > 0
        &&& self.part_count == parts_needed(self.size as int, self.part_size as int)
        &&& match self.state {
            UploadState::AwaitingUploadUrl(n) => 1 <= n <= self.part_count && self.upload_id is Some,
            UploadState::UploadingPart(n) => 1 <= n <= self.part_count && self.upload_id is Some,
            UploadState::Completing => self.upload_id is Some,
            _ => true,
        }
    }

    pub open spec fn with_state(self, state: UploadState) -> UploadSession {
        UploadSession { state, ..self }
    }

    /// The transition table of the upload protocol.
    pub open spec fn next(self, e: UploadEvent) -> (UploadSession, UploadAction) {
        match (self.state, e) {
            (UploadState::Created, UploadEvent::FileCreated { exist, rapid_upload, upload_id }) => {
                if exist && self.refuse_existing {
                    (self.with_state(UploadState::Failed(UploadFailure::AlreadyExists)), UploadAction::Stop)
                } else if rapid_upload {
                    (self.with_state(UploadState::RapidUploaded), UploadAction::Stop)
                } else if upload_id is None {
                    (self.with_state(UploadState::Failed(UploadFailure::MissingUploadId)), UploadAction::Stop)
                } else if self.part_count == 0 {
                    (
                        UploadSession { upload_id, state: UploadState::Completing, ..self },
                        UploadAction::Complete(upload_id->0),
                    )
                } else {
                    (
                        UploadSession { upload_id, state: UploadState::AwaitingUploadUrl(1), ..self },
                        UploadAction::RequestUploadUrl(1),
                    )
                }
            },
            (UploadState::AwaitingUploadUrl(n), UploadEvent::UploadUrlReceived(url)) => (
                self.with_state(UploadState::UploadingPart(n)),
                UploadAction::PutPart {
                    part_number: n,
                    upload_url: url,
                    skip: part_offset(n as int, self.part_size as int) as i64,
                    read_len: part_length(n as int, self.size as int, self.part_size as int) as i64,
                },
            ),
            (UploadState::UploadingPart(n), UploadEvent::PartUploaded(ok)) => {
                if !ok {
                    (self.with_state(UploadState::Failed(UploadFailure::PartRejected(n))), UploadAction::Stop)
                } else if n < self.part_count {
                    (
                        self.with_state(UploadState::AwaitingUploadUrl((n + 1) as i64)),
                        UploadAction::RequestUploadUrl((n + 1) as i64),
                    )
                } else {
                    (self.with_state(UploadState::Completing), UploadAction::Complete(self.upload_id->0))
                }
            },
            (UploadState::Completing, UploadEvent::CompleteFinished(ok)) => {
                if ok {
                    (self.with_state(UploadState::Completed), UploadAction::Stop)
                } else {
                    (self.with_state(UploadState::Failed(UploadFailure::CompleteRejected)), UploadAction::Stop)
                }
            },
            _ => {
                if is_terminal(self.state) {
                    (self, UploadAction::Stop)
                } else {
                    (self.with_state(UploadState::Failed(UploadFailure::UnexpectedEvent)), UploadAction::Stop)
                }
            },
        }
    }

    /// A session for a file of `size` bytes cut into parts of `part_size` bytes, whose
    /// "create file" call is about to be issued.
    pub fn new(size: i64, part_size: i64, refuse_existing: bool) -> (r: Self)
        requires
            size >= 0,
            part_size > 0,
        ensures
            r.wf(),
            r.size == size,
            r.part_size == part_size,
            r.refuse_existing == refuse_existing,
            r.upload_id is None,
            r.state is Created,
    {
        UploadSession {
            size,
            part_size,
            part_count: part_count(size, part_size),
            refuse_existing,
            upload_id: None,
            state: UploadState::Created,
        }
    }

    pub fn is_finished(&self) -> (r: bool)
        ensures
            r == is_terminal(self.state),
    {
        match self.state {
            UploadState::RapidUploaded | UploadState::Completed | UploadState::Failed(_) => true,
            _ => false,
        }
    }

    fn current_upload_id(&self) -> (r: String)
        requires
            self.upload_id is Some,
        ensures
            r == self.upload_id->0,
    {
        match &self.upload_id {
            Some(id) => id.clone(),
            None => String::new(),
        }
    }

    /// Feeds one event to the session and returns the next action to perform.
    pub fn step(&mut self, e: UploadEvent) -> (action: UploadAction)
        requires
            old(self).wf(),
        ensures
            final(self).wf(),
            (*final(self), action) == old(self).next(e),
    {
        let terminal = self.is_finished();
        match (&self.state, e) {
            (UploadState::Created, UploadEvent::FileCreated { exist, rapid_upload, upload_id }) => {
                if exist && self.refuse_existing {
                    self.state = UploadState::Failed(UploadFailure::AlreadyExists);
                    UploadAction::Stop
                } else if rapid_upload {
                    self.state = UploadState::RapidUploaded;
                    UploadAction::Stop
                } else {
                    match upload_id {
                        None => {
                            self.state = UploadState::Failed(UploadFailure::MissingUploadId);
                            UploadAction::Stop
                        },
                        Some(id) => {
                            let action = if self.part_count == 0 {
                                self.state = UploadState::Completing;
                                UploadAction::Complete(id.clone())
                            } else {
                                self.state = UploadState::AwaitingUploadUrl(1);
                                UploadAction::RequestUploadUrl(1)
                            };
                            self.upload_id = Some(id);
                            action
                        },
                    }
                }
            },
            (UploadState::AwaitingUploadUrl(n), UploadEvent::UploadUrlReceived(url)) => {
                let n = *n;
                let (skip, read_len) = part_range(n, self.size, self.part_size);
                self.state = UploadState::UploadingPart(n);
                UploadAction::PutPart { part_number: n, upload_url: url, skip, read_len }
            },
            (UploadState::UploadingPart(n), UploadEvent::PartUploaded(ok)) => {
                let n = *n;
                if !ok {
                    self.state = UploadState::Failed(UploadFailure::PartRejected(n));
                    UploadAction::Stop
                } else if n < self.part_count {
                    self.state = UploadState::AwaitingUploadUrl(n + 1);
                    UploadAction::RequestUploadUrl(n + 1)
                } else {
                    self.state = UploadState::Completing;
                    UploadAction::Complete(self.current_upload_id())
                }
            },
            (UploadState::Completing, UploadEvent::CompleteFinished(ok)) => {
                if ok {
                    self.state = UploadState::Completed;
                } else {
                    self.state = UploadState::Failed(UploadFailure::CompleteRejected);
                }
                UploadAction::Stop
            },
            _ => {
                if !terminal {
                    self.state = UploadState::Failed(UploadFailure::UnexpectedEvent);
                }
                UploadAction::Stop
            },
        }
    }
}

/// The "create file" request that opens a chunked upload of `size` bytes in parts of
/// `part_size` bytes, announcing every part and the content hash.
pub fn upload_create_request(
    api_host: &str,
    drive_id: &str,
    parent_file_id: &str,
    name: &str,
    size: i64,
    part_size: i64,
    content_hash: &str,
    content_hash_name: &str,
    check_name_mode: CheckNameMode,
) -> (r: AdriveOpenFileCreateRequest)
    requires
        size >= 0,
        part_size > 0,
    ensures
        r.missing_param() is None,
        r.api_host@ == api_host@,
        r.drive_id.0->0@ == drive_id@,
        r.parent_file_id.0->0@ == parent_file_id@,
        r.name.0->0@ == name@,
        r.file_type.0 == Some(AdriveOpenFileType::File),
        r.check_name_mode.0 == Some(check_name_mode),
        r.size.0 == Some(size),
        r.content_hash.0 is Some && r.content_hash.0->0@ == content_hash@,
        r.content_hash_name.0 is Some && r.content_hash_name.0->0@ == content_hash_name@,
        r.part_info_list.0 is Some,
        r.part_info_list.0->0@.len() == parts_needed(size as int, part_size as int),
        forall|i: int| 0 <= i < r.part_info_list.0->0@.len() ==> #[trigger] r.part_info_list.0->0@[i].part_number == i + 1,
{
    AdriveOpenFileCreateRequest::new(api_host)
        .drive_id(drive_id)
        .parent_file_id(parent_file_id)
        .name(name)
        .file_type(AdriveOpenFileType::File)
        .check_name_mode(check_name_mode)
        .part_info_list(part_info_list(size, part_size))
        .size(size)
        .content_hash(content_hash)
        .content_hash_name(content_hash_name)
}

/// The request for a fresh upload URL of part `part_number` of an open upload.
pub fn upload_url_request(api_host: &str, drive_id: &str, file_id: &str, upload_id: &str, part_number: i64) -> (r:
    AdriveOpenFileGetUploadUrlRequest)
    ensures
        r.api_host@ == api_host@,
        r.drive_id.0 is Some && r.drive_id.0->0@ == drive_id@,
        r.file_id.0 is Some && r.file_id.0->0@ == file_id@,
        r.upload_id.0 is Some && r.upload_id.0->0@ == upload_id@,
        r.part_info_list.0 is Some,
        r.part_info_list.0->0@ == seq![AdriveOpenFilePartInfo { part_number }],
{
    let parts = vec![AdriveOpenFilePartInfo { part_number }];
    AdriveOpenFileGetUploadUrlRequest::new(api_host)
        .drive_id(drive_id)
        .file_id(file_id)
        .upload_id(upload_id)
        .part_info_list(parts)
}

/// The "complete" request that closes an upload.
pub fn upload_complete_request(api_host: &str, drive_id: &str, file_id: &str, upload_id: &str) -> (r:
    AdriveOpenFileCompleteRequest)
    ensures
        r.missing_param() is None,
        r.api_host@ == api_host@,
        r.drive_id.0->0@ == drive_id@,
        r.file_id.0->0@ == file_id@,
        r.upload_id.0->0@ == upload_id@,
{
    AdriveOpenFileCompleteRequest::new(api_host).drive_id(drive_id).file_id(file_id).upload_id(upload_id)
}

/// The actions that a session emits when it is fed `events` in order.
pub open spec fn actions_of(s: UploadSession, events: Seq<UploadEvent>) -> Seq<UploadAction>
    decreases events.len(),
{
    if events.len() == 0 {
        Seq::empty()
    } else {
        let (t, a) = s.next(events[0]);
        seq![a] + actions_of(t, events.drop_first())
    }
}

/// Whether `a` sends part `n` of a `size`-byte file cut into `part_size`-byte parts with
/// exactly that part's byte range.
pub open spec fn puts_layout_range(a: UploadAction, size: i64, part_size: i64) -> bool {
    a is PutPart ==> {
        &&& 1 <= a->part_number <= parts_needed(size as int, part_size as int)
        &&& a->skip == part_offset(a->part_number as int, part_size as int)
        &&& a->read_len == part_length(a->part_number as int, size as int, part_size as int)
    }
}

/// Whatever events a session is fed, every part it sends is a part of the file's layout,
/// with that part's exact byte range.
pub proof fn lemma_puts_follow_layout(s: UploadSession, events: Seq<UploadEvent>)
    requires
        s.wf(),
    ensures
        forall|i: int| 0 <= i < actions_of(s, events).len() ==> puts_layout_range(
            #[trigger] actions_of(s, events)[i],
            s.size,
            s.part_size,
        ),
        actions_of(s, events).len() == events.len(),
    decreases events.len(),
{
    if events.len() > 0 {
        let (t, a) = s.next(events[0]);
        let rest = events.drop_first();
        assert(t.wf() && t.size == s.size && t.part_size == s.part_size);
        lemma_puts_follow_layout(t, rest);
        let acts = actions_of(s, events);
        assert(acts == seq![a] + actions_of(t, rest));
        assert forall|i: int| 0 <= i < acts.len() implies puts_layout_range(#[trigger] acts[i], s.size, s.part_size) by {
            if i > 0 {
                assert(acts[i] == actions_of(t, rest)[i - 1]);
            } else if a is PutPart {
                let n = a->part_number as int;
                let c = parts_needed(s.size as int, s.part_size as int);
                lemma_parts_needed_bounds(s.size as int, s.part_size as int);
                assert(0 <= (n - 1) * s.part_size <= (c - 1) * s.part_size) by (nonlinear_arith)
                    requires 1 <= n <= c, s.part_size > 0;
            }
        }
    }
}

/// A finished session stays where it is and asks for nothing more, whatever it is fed.
pub proof fn lemma_finished_session_is_inert(s: UploadSession, events: Seq<UploadEvent>)
    requires
        is_terminal(s.state),
    ensures
        forall|i: int| 0 <= i < events.len() ==> #[trigger] actions_of(s, events)[i] is Stop,
        actions_of(s, events).len() == events.len(),
    decreases events.len(),
{
    if events.len() > 0 {
        let rest = events.drop_first();
        assert(s.next(events[0]) == (s, UploadAction::Stop));
        lemma_finished_session_is_inert(s, rest);
        let acts = actions_of(s, events);
        assert(acts == seq![UploadAction::Stop] + actions_of(s, rest));
        assert forall|i: int| 0 <= i < events.len() implies #[trigger] acts[i] is Stop by {
            if i > 0 {
                assert(acts[i] == actions_of(s, rest)[i - 1]);
            }
        }
    }
}

/// When "create file" reports that the server already holds the content (and the name
/// does not clash with a refused existing file), the session ends as rapid-uploaded and,
/// whatever events follow, never asks for a part upload or for "complete".
pub proof fn lemma_rapid_upload_transfers_nothing(
    s: UploadSession,
    exist: bool,
    upload_id: Option<String>,
    later: Seq<UploadEvent>,
)
    requires
        s.wf(),
        s.state is Created,
        !(exist && s.refuse_existing),
    ensures
        ({
            let events = seq![UploadEvent::FileCreated { exist, rapid_upload: true, upload_id }] + later;
            let acts = actions_of(s, events);
            &&& s.next(events[0]).0.state is RapidUploaded
            &&& acts.len() == events.len()
            &&& forall|i: int| 0 <= i < acts.len() ==> !(#[trigger] acts[i] is PutPart) && !(acts[i] is Complete)
        }),
{
    let e0 = UploadEvent::FileCreated { exist, rapid_upload: true, upload_id };
    let events = seq![e0] + later;
    let (t, a) = s.next(e0);
    assert(events[0] == e0);
    assert(events.drop_first() == later);
    lemma_finished_session_is_inert(t, later);
    let acts = actions_of(s, events);
    assert(acts == seq![a] + actions_of(t, later));
    assert forall|i: int| 0 <= i < acts.len() implies !(#[trigger] acts[i] is PutPart) && !(acts[i] is Complete) by {
        if i > 0 {
            assert(acts[i] == actions_of(t, later)[i - 1]);
        }
    }
}

} // verus!
