use crate::common::{AdriveAsyncTaskState, AdriveOpenFilePartInfo, AdriveOpenFileType, copy_opt_string};
use crate::session::UploadEvent;
use vstd::prelude::*;

verus! {

// Answers of the vendor endpoints, as plain values. Times are RFC 3339 text and
// free-form JSON members are kept as their JSON text.

#[derive(Debug)]
pub struct OauthUsersInfo {
    pub id: String,
    pub name: String,
    pub avatar: String,
    pub phone: Option<String>,
}

#[derive(Debug)]
pub struct OauthUsersScope {
    pub scope: String,
}

#[derive(Debug)]
pub struct OauthUsersScopes {
    pub id: String,
    pub scopes: Vec<OauthUsersScope>,
}

#[derive(Debug)]
pub struct AdriveUserGetDriveInfo {
    pub user_id: String,
    pub name: String,
    pub avatar: String,
    pub default_drive_id: String,
    pub resource_drive_id: Option<String>,
    pub backup_drive_id: Option<String>,
}

#[derive(Debug)]
pub struct UserGetVipInfo {
    pub identity: String,
    pub level: Option<String>,
    pub expire: i64,
    pub third_party_vip: Option<bool>,
    pub third_party_vip_expire: Option<i64>,
}

/// One entry of a folder listing.
#[derive(Debug)]
pub struct AdriveOpenFile {
    pub drive_id: String,
    pub file_id: String,
    pub parent_file_id: String,
    pub name: String,
    pub size: i64,
    pub file_extension: String,
    pub content_hash: String,
    pub category: String,
    pub file_type: AdriveOpenFileType,
    pub thumbnail: Option<String>,
    pub url: Option<String>,
    pub created_at: String,
    pub updated_at: String,
    pub play_cursor: Option<String>,
    pub video_media_metadata: Option<String>,
    pub video_preview_metadata: Option<String>,
}

/// One page of a folder listing; `next_marker` is `None` on the last page.
#[derive(Debug)]
pub struct AdriveOpenFileList {
    pub items: Vec<AdriveOpenFile>,
    pub next_marker: Option<String>,
}

/// A page marker as the server sends it: an empty marker means there is no next page.
pub fn next_marker_of(raw: Option<String>) -> (r: Option<String>)
    ensures
        r is Some <==> (raw is Some && raw->0@.len() > 0),
        r is Some ==> r == raw,
{
    match raw {
        Some(s) => if s.as_str().is_empty() {
            None
        } else {
            Some(s)
        },
        None => None,
    }
}

#[derive(Debug)]
pub struct AdriveOpenFileGet {
    pub drive_id: String,
    pub file_id: String,
    pub parent_file_id: String,
    pub name: String,
    pub size: i64,
    pub file_extension: String,
    pub content_hash: String,
    pub category: String,
    pub file_type: AdriveOpenFileType,
    pub thumbnail: Option<String>,
    pub url: Option<String>,
    pub created_at: String,
    pub updated_at: String,
    pub id_path: Option<String>,
    pub name_path: Option<String>,
}

/// The answer to "create file".
#[derive(Debug)]
pub struct AdriveOpenFileCreate {
    pub drive_id: String,
    pub file_id: String,
    pub status: Option<String>,
    pub parent_file_id: String,
    pub upload_id: Option<String>,
    pub file_name: String,
    pub available: bool,
    /// A file of that name was already there.
    pub exist: bool,
    /// The server already holds this content: nothing needs to be sent.
    pub rapid_upload: bool,
    pub part_info_list: Vec<AdriveOpenFilePartInfo>,
}

impl AdriveOpenFileCreate {
    /// The event this answer is to an upload session.
    pub fn upload_event(&self) -> (r: UploadEvent)
        ensures
            r == (UploadEvent::FileCreated {
                exist: self.exist,
                rapid_upload: self.rapid_upload,
                upload_id: self.upload_id,
            }),
    {
        UploadEvent::FileCreated {
            exist: self.exist,
            rapid_upload: self.rapid_upload,
            upload_id: copy_opt_string(&self.upload_id),
        }
    }
}

/// A signed URL for one part.
#[derive(Debug)]
pub struct AdriveOpenFilePartInfoUpload {
    pub part_number: i64,
    pub part_size: i64,
    pub upload_url: String,
}

#[derive(Debug)]
pub struct AdriveOpenFileGetUploadUrl {
    pub drive_id: String,
    pub file_id: String,
    pub upload_id: String,
    pub created_at: Option<String>,
    pub part_info_list: Vec<AdriveOpenFilePartInfoUpload>,
}

impl AdriveOpenFileGetUploadUrl {
    /// The upload URL given for `part_number`, the first one if several are.
    pub fn url_of_part(&self, part_number: i64) -> (r: Option<String>)
        ensures
            r is Some <==> exists|i: int|
                0 <= i < self.part_info_list@.len() && #[trigger] self.part_info_list@[i].part_number == part_number,
            r is Some ==> exists|i: int|
                0 <= i < self.part_info_list@.len() && #[trigger] self.part_info_list@[i].part_number == part_number
                    && self.part_info_list@[i].upload_url == r->0
                    && forall|j: int| 0 <= j < i ==> #[trigger] self.part_info_list@[j].part_number != part_number,
    {
        let mut i: usize = 0;
        while i < self.part_info_list.len()
            invariant
                i <= self.part_info_list@.len(),
                forall|j: int| 0 <= j < i ==> #[trigger] self.part_info_list@[j].part_number != part_number,
            decreases self.part_info_list@.len() - i,
        {
            if self.part_info_list[i].part_number == part_number {
                return Some(self.part_info_list[i].upload_url.clone());
            }
            i = i + 1;
        }
        None
    }
}

#[derive(Debug)]
pub struct AdriveOpenFileListUploadedParts {
    pub drive_id: String,
    pub upload_id: String,
    pub parallel_upload: bool,
    /// Each uploaded part as JSON text.
    pub uploaded_parts: Vec<String>,
    pub next_part_number_marker: Option<String>,
}

#[derive(Debug)]
pub struct AdriveOpenFileComplete {
    pub drive_id: String,
    pub file_id: String,
    pub name: String,
    pub size: i64,
    pub file_extension: String,
    pub content_hash: String,
    pub category: String,
    pub file_type: String,
    pub thumbnail: Option<String>,
    pub url: Option<String>,
    pub download_url: Option<String>,
    pub created_at: String,
    pub updated_at: String,
}

#[derive(Debug)]
pub struct AdriveOpenFileCopy {
    pub drive_id: String,
    pub file_id: String,
    pub async_task_id: Option<String>,
}

#[derive(Debug)]
pub struct AdriveOpenFileMove {
    pub drive_id: String,
    pub file_id: String,
    pub async_task_id: Option<String>,
    pub exist: bool,
}

#[derive(Debug)]
pub struct AdriveOpenFileDelete {
    pub drive_id: String,
    pub file_id: String,
    pub async_task_id: Option<String>,
}

#[derive(Debug)]
pub struct AdriveOpenFileRecyclebinTrash {
    pub drive_id: String,
    pub file_id: String,
    pub async_task_id: Option<String>,
}

#[derive(Debug)]
pub struct AdriveOpenFileUpdate {
    pub drive_id: String,
    pub file_id: String,
    pub name: String,
    pub size: i64,
    pub file_extension: String,
    pub content_hash: String,
    pub category: String,
    pub file_type: AdriveOpenFileType,
    pub created_at: String,
    pub updated_at: String,
}

#[derive(Debug)]
pub struct AdriveOpenFileAsyncTaskGet {
    pub state: AdriveAsyncTaskState,
    pub async_task_id: String,
}

#[derive(Debug)]
pub struct AdriveOpenFileGetDownloadUrl {
    pub url: String,
    pub expiration: String,
    pub method: String,
    pub description: Option<String>,
}

#[derive(Debug)]
pub struct AdriveOpenFileBatchGetResponseItem {
    pub drive_id: String,
    pub file_id: String,
    pub parent_file_id: String,
    pub name: String,
    pub size: i64,
    pub file_extension: String,
    pub content_hash: String,
    pub category: String,
    pub file_type: String,
    pub thumbnail: Option<String>,
    pub url: Option<String>,
    pub created_at: String,
    pub updated_at: String,
}

#[derive(Debug)]
pub struct AdriveOpenFileBatchGetResponse {
    pub items: Vec<AdriveOpenFileBatchGetResponseItem>,
}

} // verus!
