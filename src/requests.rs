use crate::common::{
    copy_opt_string, copy_parts, joined, AdriveOpenFilePartInfo, AdriveOpenFileStreamInfo,
    AdriveOpenFileType, CheckNameMode, OptionParam,
};
use crate::common::{copy_streams, same_streams};
use crate::error::{is_missing, AlipanError};
use vstd::prelude::*;

verus! {

/// One file of a batch lookup.
#[derive(Debug)]
pub struct AdriveOpenFileBatchGetRequestFileList {
    pub drive_id: String,
    pub file_id: String,
}

impl AdriveOpenFileBatchGetRequestFileList {
    pub fn new(drive_id: &str, file_id: &str) -> (r: Self)
        ensures
            r.drive_id@ == drive_id@,
            r.file_id@ == file_id@,
    {
        AdriveOpenFileBatchGetRequestFileList { drive_id: String::from_str(drive_id), file_id: String::from_str(file_id) }
    }

    pub fn drive_id(self, drive_id: &str) -> (r: Self)
        ensures
            r.drive_id@ == drive_id@,
            r.file_id == self.file_id,
    {
        AdriveOpenFileBatchGetRequestFileList { drive_id: String::from_str(drive_id), ..self }
    }

    pub fn file_id(self, file_id: &str) -> (r: Self)
        ensures
            r.file_id@ == file_id@,
            r.drive_id == self.drive_id,
    {
        AdriveOpenFileBatchGetRequestFileList { file_id: String::from_str(file_id), ..self }
    }
}

pub open spec fn same_file_lists(a: Seq<AdriveOpenFileBatchGetRequestFileList>, b: Seq<AdriveOpenFileBatchGetRequestFileList>) -> bool {
    &&& a.len() == b.len()
    &&& forall|i: int| 0 <= i < a.len() ==> #[trigger] a[i] == b[i]
}

/// A copy of a batch file list.
pub fn copy_file_list(v: &Vec<AdriveOpenFileBatchGetRequestFileList>) -> (r: Vec<AdriveOpenFileBatchGetRequestFileList>)
    ensures
        same_file_lists(r@, v@),
{
    let mut out: Vec<AdriveOpenFileBatchGetRequestFileList> = Vec::new();
    let mut i: usize = 0;
    while i < v.len()
        invariant
            i <= v@.len(),
            out@.len() == i,
            forall|j: int| 0 <= j < i ==> #[trigger] out@[j] == v@[j],
        decreases v@.len() - i,
    {
        out.push(AdriveOpenFileBatchGetRequestFileList { drive_id: v[i].drive_id.clone(), file_id: v[i].file_id.clone() });
        i = i + 1;
    }
    out
}

/// Body of [`AdriveOpenFileListRequest`].
#[derive(Debug)]
pub struct AdriveOpenFileListRequestPost {
    pub drive_id: String,
    pub limit: Option<i64>,
    pub marker: Option<String>,
    pub order_by: Option<String>,
    pub order_direction: Option<String>,
    pub parent_file_id: String,
    pub category: Option<String>,
    pub file_type: Option<AdriveOpenFileType>,
    pub video_thumbnail_time: Option<i64>,
    pub video_thumbnail_width: Option<i64>,
    pub image_thumbnail_width: Option<i64>,
    pub fields: Option<String>,
}

/// Lists the children of a folder, one page at a time.
#[derive(Debug)]
pub struct AdriveOpenFileListRequest {
    pub api_host: String,
    pub drive_id: String,
    /// Page size (default 50, at most 100).
    pub limit: OptionParam<i64>,
    /// Where the previous page ended.
    pub marker: OptionParam<String>,
    /// created_at, updated_at, name, size or name_enhanced.
    pub order_by: OptionParam<String>,
    /// DESC or ASC.
    pub order_direction: OptionParam<String>,
    /// The folder; "root" for the top.
    pub parent_file_id: String,
    /// Comma separated: video, doc, audio, zip, others, image.
    pub category: OptionParam<String>,
    /// Only files or only folders.
    pub file_type: OptionParam<AdriveOpenFileType>,
    pub video_thumbnail_time: OptionParam<i64>,
    pub video_thumbnail_width: OptionParam<i64>,
    pub image_thumbnail_width: OptionParam<i64>,
    /// "*" for every field, or a comma separated list.
    pub fields: OptionParam<String>,
}

impl AdriveOpenFileListRequestPost {
    /// Whether this body carries the parameters of `req`.
    pub open spec fn carries(self, req: AdriveOpenFileListRequest) -> bool {
        &&& self.drive_id == req.drive_id
        &&& self.limit == req.limit.0
        &&& self.marker == req.marker.0
        &&& self.order_by == req.order_by.0
        &&& self.order_direction == req.order_direction.0
        &&& self.parent_file_id == req.parent_file_id
        &&& self.category == req.category.0
        &&& self.file_type == req.file_type.0
        &&& self.video_thumbnail_time == req.video_thumbnail_time.0
        &&& self.video_thumbnail_width == req.video_thumbnail_width.0
        &&& self.image_thumbnail_width == req.image_thumbnail_width.0
        &&& self.fields == req.fields.0
    }
}

impl AdriveOpenFileListRequest {
    /// The first required parameter that is not set, if any.
    pub open spec fn missing_param(self) -> Option<Seq<char>> {
        if self.drive_id@.len() == 0 {
            Some("drive_id"@)
        } else if self.parent_file_id@.len() == 0 {
            Some("parent_file_id"@)
        } else {
            None
        }
    }

    /// A request with no optional parameter set.
    pub fn new(api_host: &str) -> (r: Self)
        ensures
            r.api_host@ == api_host@,
            r.drive_id@.len() == 0,
            r.limit.0 is None,
            r.marker.0 is None,
            r.order_by.0 is None,
            r.order_direction.0 is None,
            r.parent_file_id@ == "root"@,
            r.category.0 is None,
            r.file_type.0 is None,
            r.video_thumbnail_time.0 is None,
            r.video_thumbnail_width.0 is None,
            r.image_thumbnail_width.0 is None,
            r.fields.0 is None,
    {
        AdriveOpenFileListRequest {
            api_host: String::from_str(api_host),
            drive_id: String::new(),
            limit: OptionParam(None),
            marker: OptionParam(None),
            order_by: OptionParam(None),
            order_direction: OptionParam(None),
            parent_file_id: String::from_str("root"),
            category: OptionParam(None),
            file_type: OptionParam(None),
            video_thumbnail_time: OptionParam(None),
            video_thumbnail_width: OptionParam(None),
            image_thumbnail_width: OptionParam(None),
            fields: OptionParam(None),
        }
    }

    pub fn api_host(self, api_host: &str) -> (r: Self)
        ensures
            r.api_host@ == api_host@,
            r == (AdriveOpenFileListRequest { api_host: r.api_host, ..self }),
    {
        AdriveOpenFileListRequest { api_host: String::from_str(api_host), ..self }
    }

    pub fn drive_id(self, drive_id: &str) -> (r: Self)
        ensures
            r.drive_id@ == drive_id@,
            r == (AdriveOpenFileListRequest { drive_id: r.drive_id, ..self }),
    {
        AdriveOpenFileListRequest { drive_id: String::from_str(drive_id), ..self }
    }

    pub fn limit(self, limit: i64) -> (r: Self)
        ensures
            r == (AdriveOpenFileListRequest { limit: OptionParam(Some(limit)), ..self }),
    {
        AdriveOpenFileListRequest { limit: OptionParam(Some(limit)), ..self }
    }

    pub fn marker(self, marker: &str) -> (r: Self)
        ensures
            r.marker.0 is Some && r.marker.0->0@ == marker@,
            r == (AdriveOpenFileListRequest { marker: r.marker, ..self }),
    {
        AdriveOpenFileListRequest { marker: OptionParam(Some(String::from_str(marker))), ..self }
    }

    pub fn order_by(self, order_by: &str) -> (r: Self)
        ensures
            r.order_by.0 is Some && r.order_by.0->0@ == order_by@,
            r == (AdriveOpenFileListRequest { order_by: r.order_by, ..self }),
    {
        AdriveOpenFileListRequest { order_by: OptionParam(Some(String::from_str(order_by))), ..self }
    }

    pub fn order_direction(self, order_direction: &str) -> (r: Self)
        ensures
            r.order_direction.0 is Some && r.order_direction.0->0@ == order_direction@,
            r == (AdriveOpenFileListRequest { order_direction: r.order_direction, ..self }),
    {
        AdriveOpenFileListRequest { order_direction: OptionParam(Some(String::from_str(order_direction))), ..self }
    }

    pub fn parent_file_id(self, parent_file_id: &str) -> (r: Self)
        ensures
            r.parent_file_id@ == parent_file_id@,
            r == (AdriveOpenFileListRequest { parent_file_id: r.parent_file_id, ..self }),
    {
        AdriveOpenFileListRequest { parent_file_id: String::from_str(parent_file_id), ..self }
    }

    pub fn category(self, category: &str) -> (r: Self)
        ensures
            r.category.0 is Some && r.category.0->0@ == category@,
            r == (AdriveOpenFileListRequest { category: r.category, ..self }),
    {
        AdriveOpenFileListRequest { category: OptionParam(Some(String::from_str(category))), ..self }
    }

    pub fn file_type(self, file_type: AdriveOpenFileType) -> (r: Self)
        ensures
            r == (AdriveOpenFileListRequest { file_type: OptionParam(Some(file_type)), ..self }),
    {
        AdriveOpenFileListRequest { file_type: OptionParam(Some(file_type)), ..self }
    }

    pub fn video_thumbnail_time(self, video_thumbnail_time: i64) -> (r: Self)
        ensures
            r == (AdriveOpenFileListRequest { video_thumbnail_time: OptionParam(Some(video_thumbnail_time)), ..self }),
    {
        AdriveOpenFileListRequest { video_thumbnail_time: OptionParam(Some(video_thumbnail_time)), ..self }
    }

    pub fn video_thumbnail_width(self, video_thumbnail_width: i64) -> (r: Self)
        ensures
            r == (AdriveOpenFileListRequest { video_thumbnail_width: OptionParam(Some(video_thumbnail_width)), ..self }),
    {
        AdriveOpenFileListRequest { video_thumbnail_width: OptionParam(Some(video_thumbnail_width)), ..self }
    }

    pub fn image_thumbnail_width(self, image_thumbnail_width: i64) -> (r: Self)
        ensures
            r == (AdriveOpenFileListRequest { image_thumbnail_width: OptionParam(Some(image_thumbnail_width)), ..self }),
    {
        AdriveOpenFileListRequest { image_thumbnail_width: OptionParam(Some(image_thumbnail_width)), ..self }
    }

    pub fn fields(self, fields: &str) -> (r: Self)
        ensures
            r.fields.0 is Some && r.fields.0->0@ == fields@,
            r == (AdriveOpenFileListRequest { fields: r.fields, ..self }),
    {
        AdriveOpenFileListRequest { fields: OptionParam(Some(String::from_str(fields))), ..self }
    }

    /// The endpoint of this request.
    pub fn url(&self) -> (r: String)
        ensures
            r@ == self.api_host@ + "/adrive/v1.0/openFile/list"@,
    {
        joined(self.api_host.as_str(), "/adrive/v1.0/openFile/list")
    }

    /// The body to send; fails, before any network call, on the first missing required parameter.
    pub fn post(&self) -> (r: Result<AdriveOpenFileListRequestPost, AlipanError>)
        ensures
            match self.missing_param() {
                Some(name) => r is Err && is_missing(r->Err_0.inner, name),
                None => r is Ok && r->Ok_0.carries(*self),
            },
    {
        if self.drive_id.as_str().is_empty() {
            return Err(AlipanError::require_param_missing("drive_id"));
        }
        let drive_id = self.drive_id.clone();
        let limit = self.limit.0;
        let marker = copy_opt_string(&self.marker.0);
        let order_by = copy_opt_string(&self.order_by.0);
        let order_direction = copy_opt_string(&self.order_direction.0);
        if self.parent_file_id.as_str().is_empty() {
            return Err(AlipanError::require_param_missing("parent_file_id"));
        }
        let parent_file_id = self.parent_file_id.clone();
        let category = copy_opt_string(&self.category.0);
        let file_type = self.file_type.0;
        let video_thumbnail_time = self.video_thumbnail_time.0;
        let video_thumbnail_width = self.video_thumbnail_width.0;
        let image_thumbnail_width = self.image_thumbnail_width.0;
        let fields = copy_opt_string(&self.fields.0);
        Ok(AdriveOpenFileListRequestPost {
            drive_id,
            limit,
            marker,
            order_by,
            order_direction,
            parent_file_id,
            category,
            file_type,
            video_thumbnail_time,
            video_thumbnail_width,
            image_thumbnail_width,
            fields,
        })
    }
}

/// Body of [`AdriveOpenFileCreateRequest`].
#[derive(Debug)]
pub struct AdriveOpenFileCreatePost {
    pub drive_id: String,
    pub parent_file_id: String,
    pub name: String,
    pub file_type: AdriveOpenFileType,
    pub check_name_mode: CheckNameMode,
    pub part_info_list: Option<Vec<AdriveOpenFilePartInfo>>,
    pub streams_info: Option<Vec<AdriveOpenFileStreamInfo>>,
    pub pre_hash: Option<String>,
    pub size: Option<i64>,
    pub content_hash: Option<String>,
    pub content_hash_name: Option<String>,
    pub proof_code: Option<String>,
    pub proof_version: Option<String>,
    pub local_created_at: Option<String>,
    pub local_modified_at: Option<String>,
}

/// Creates a file or folder; for a file, opens an upload and may finish it at once (rapid upload).
#[derive(Debug)]
pub struct AdriveOpenFileCreateRequest {
    pub api_host: String,
    pub drive_id: OptionParam<String>,
    pub parent_file_id: OptionParam<String>,
    pub name: OptionParam<String>,
    pub file_type: OptionParam<AdriveOpenFileType>,
    pub check_name_mode: OptionParam<CheckNameMode>,
    /// The parts the content will be sent in.
    pub part_info_list: OptionParam<Vec<AdriveOpenFilePartInfo>>,
    pub streams_info: OptionParam<Vec<AdriveOpenFileStreamInfo>>,
    pub pre_hash: OptionParam<String>,
    /// Declared size in bytes.
    pub size: OptionParam<i64>,
    /// Hash of the whole content, for rapid upload.
    pub content_hash: OptionParam<String>,
    /// Name of the hash algorithm ("sha1").
    pub content_hash_name: OptionParam<String>,
    pub proof_code: OptionParam<String>,
    pub proof_version: OptionParam<String>,
    /// RFC 3339 time.
    pub local_created_at: OptionParam<String>,
    /// RFC 3339 time.
    pub local_modified_at: OptionParam<String>,
}

impl AdriveOpenFileCreatePost {
    /// Whether this body carries the parameters of `req`.
    pub open spec fn carries(self, req: AdriveOpenFileCreateRequest) -> bool {
        &&& self.drive_id == req.drive_id.0->0
        &&& self.parent_file_id == req.parent_file_id.0->0
        &&& self.name == req.name.0->0
        &&& self.file_type == req.file_type.0->0
        &&& self.check_name_mode == req.check_name_mode.0->0
        &&& (self.part_info_list is Some <==> req.part_info_list.0 is Some)
        &&& (self.part_info_list is Some ==> self.part_info_list->0@ == req.part_info_list.0->0@)
        &&& (self.streams_info is Some <==> req.streams_info.0 is Some)
        &&& (self.streams_info is Some ==> same_streams(self.streams_info->0@, req.streams_info.0->0@))
        &&& self.pre_hash == req.pre_hash.0
        &&& self.size == req.size.0
        &&& self.content_hash == req.content_hash.0
        &&& self.content_hash_name == req.content_hash_name.0
        &&& self.proof_code == req.proof_code.0
        &&& self.proof_version == req.proof_version.0
        &&& self.local_created_at == req.local_created_at.0
        &&& self.local_modified_at == req.local_modified_at.0
    }
}

impl AdriveOpenFileCreateRequest {
    /// The first required parameter that is not set, if any.
    pub open spec fn missing_param(self) -> Option<Seq<char>> {
        if self.drive_id.0 is None {
            Some("drive_id"@)
        } else if self.parent_file_id.0 is None {
            Some("parent_file_id"@)
        } else if self.name.0 is None {
            Some("name"@)
        } else if self.file_type.0 is None {
            Some("file_type"@)
        } else if self.check_name_mode.0 is None {
            Some("check_name_mode"@)
        } else {
            None
        }
    }

    /// A request with no parameter set.
    pub fn new(api_host: &str) -> (r: Self)
        ensures
            r.api_host@ == api_host@,
            r.drive_id.0 is None,
            r.parent_file_id.0 is None,
            r.name.0 is None,
            r.file_type.0 is None,
            r.check_name_mode.0 is None,
            r.part_info_list.0 is None,
            r.streams_info.0 is None,
            r.pre_hash.0 is None,
            r.size.0 is None,
            r.content_hash.0 is None,
            r.content_hash_name.0 is None,
            r.proof_code.0 is None,
            r.proof_version.0 is None,
            r.local_created_at.0 is None,
            r.local_modified_at.0 is None,
    {
        AdriveOpenFileCreateRequest {
            api_host: String::from_str(api_host),
            drive_id: OptionParam(None),
            parent_file_id: OptionParam(None),
            name: OptionParam(None),
            file_type: OptionParam(None),
            check_name_mode: OptionParam(None),
            part_info_list: OptionParam(None),
            streams_info: OptionParam(None),
            pre_hash: OptionParam(None),
            size: OptionParam(None),
            content_hash: OptionParam(None),
            content_hash_name: OptionParam(None),
            proof_code: OptionParam(None),
            proof_version: OptionParam(None),
            local_created_at: OptionParam(None),
            local_modified_at: OptionParam(None),
        }
    }

    pub fn api_host(self, api_host: &str) -> (r: Self)
        ensures
            r.api_host@ == api_host@,
            r == (AdriveOpenFileCreateRequest { api_host: r.api_host, ..self }),
    {
        AdriveOpenFileCreateRequest { api_host: String::from_str(api_host), ..self }
    }

    pub fn drive_id(self, drive_id: &str) -> (r: Self)
        ensures
            r.drive_id.0 is Some && r.drive_id.0->0@ == drive_id@,
            r == (AdriveOpenFileCreateRequest { drive_id: r.drive_id, ..self }),
    {
        AdriveOpenFileCreateRequest { drive_id: OptionParam(Some(String::from_str(drive_id))), ..self }
    }

    pub fn parent_file_id(self, parent_file_id: &str) -> (r: Self)
        ensures
            r.parent_file_id.0 is Some && r.parent_file_id.0->0@ == parent_file_id@,
            r == (AdriveOpenFileCreateRequest { parent_file_id: r.parent_file_id, ..self }),
    {
        AdriveOpenFileCreateRequest { parent_file_id: OptionParam(Some(String::from_str(parent_file_id))), ..self }
    }

    pub fn name(self, name: &str) -> (r: Self)
        ensures
            r.name.0 is Some && r.name.0->0@ == name@,
            r == (AdriveOpenFileCreateRequest { name: r.name, ..self }),
    {
        AdriveOpenFileCreateRequest { name: OptionParam(Some(String::from_str(name))), ..self }
    }

    pub fn file_type(self, file_type: AdriveOpenFileType) -> (r: Self)
        ensures
            r == (AdriveOpenFileCreateRequest { file_type: OptionParam(Some(file_type)), ..self }),
    {
        AdriveOpenFileCreateRequest { file_type: OptionParam(Some(file_type)), ..self }
    }

    pub fn check_name_mode(self, check_name_mode: CheckNameMode) -> (r: Self)
        ensures
            r == (AdriveOpenFileCreateRequest { check_name_mode: OptionParam(Some(check_name_mode)), ..self }),
    {
        AdriveOpenFileCreateRequest { check_name_mode: OptionParam(Some(check_name_mode)), ..self }
    }

    pub fn part_info_list(self, part_info_list: Vec<AdriveOpenFilePartInfo>) -> (r: Self)
        ensures
            r == (AdriveOpenFileCreateRequest { part_info_list: OptionParam(Some(part_info_list)), ..self }),
    {
        AdriveOpenFileCreateRequest { part_info_list: OptionParam(Some(part_info_list)), ..self }
    }

    pub fn streams_info(self, streams_info: Vec<AdriveOpenFileStreamInfo>) -> (r: Self)
        ensures
            r == (AdriveOpenFileCreateRequest { streams_info: OptionParam(Some(streams_info)), ..self }),
    {
        AdriveOpenFileCreateRequest { streams_info: OptionParam(Some(streams_info)), ..self }
    }

    pub fn pre_hash(self, pre_hash: &str) -> (r: Self)
        ensures
            r.pre_hash.0 is Some && r.pre_hash.0->0@ == pre_hash@,
            r == (AdriveOpenFileCreateRequest { pre_hash: r.pre_hash, ..self }),
    {
        AdriveOpenFileCreateRequest { pre_hash: OptionParam(Some(String::from_str(pre_hash))), ..self }
    }

    pub fn size(self, size: i64) -> (r: Self)
        ensures
            r == (AdriveOpenFileCreateRequest { size: OptionParam(Some(size)), ..self }),
    {
        AdriveOpenFileCreateRequest { size: OptionParam(Some(size)), ..self }
    }

    pub fn content_hash(self, content_hash: &str) -> (r: Self)
        ensures
            r.content_hash.0 is Some && r.content_hash.0->0@ == content_hash@,
            r == (AdriveOpenFileCreateRequest { content_hash: r.content_hash, ..self }),
    {
        AdriveOpenFileCreateRequest { content_hash: OptionParam(Some(String::from_str(content_hash))), ..self }
    }

    pub fn content_hash_name(self, content_hash_name: &str) -> (r: Self)
        ensures
            r.content_hash_name.0 is Some && r.content_hash_name.0->0@ == content_hash_name@,
            r == (AdriveOpenFileCreateRequest { content_hash_name: r.content_hash_name, ..self }),
    {
        AdriveOpenFileCreateRequest { content_hash_name: OptionParam(Some(String::from_str(content_hash_name))), ..self }
    }

    pub fn proof_code(self, proof_code: &str) -> (r: Self)
        ensures
            r.proof_code.0 is Some && r.proof_code.0->0@ == proof_code@,
            r == (AdriveOpenFileCreateRequest { proof_code: r.proof_code, ..self }),
    {
        AdriveOpenFileCreateRequest { proof_code: OptionParam(Some(String::from_str(proof_code))), ..self }
    }

    pub fn proof_version(self, proof_version: &str) -> (r: Self)
        ensures
            r.proof_version.0 is Some && r.proof_version.0->0@ == proof_version@,
            r == (AdriveOpenFileCreateRequest { proof_version: r.proof_version, ..self }),
    {
        AdriveOpenFileCreateRequest { proof_version: OptionParam(Some(String::from_str(proof_version))), ..self }
    }

    pub fn local_created_at(self, local_created_at: &str) -> (r: Self)
        ensures
            r.local_created_at.0 is Some && r.local_created_at.0->0@ == local_created_at@,
            r == (AdriveOpenFileCreateRequest { local_created_at: r.local_created_at, ..self }),
    {
        AdriveOpenFileCreateRequest { local_created_at: OptionParam(Some(String::from_str(local_created_at))), ..self }
    }

    pub fn local_modified_at(self, local_modified_at: &str) -> (r: Self)
        ensures
            r.local_modified_at.0 is Some && r.local_modified_at.0->0@ == local_modified_at@,
            r == (AdriveOpenFileCreateRequest { local_modified_at: r.local_modified_at, ..self }),
    {
        AdriveOpenFileCreateRequest { local_modified_at: OptionParam(Some(String::from_str(local_modified_at))), ..self }
    }

    /// The endpoint of this request.
    pub fn url(&self) -> (r: String)
        ensures
            r@ == self.api_host@ + "/adrive/v1.0/openFile/create"@,
    {
        joined(self.api_host.as_str(), "/adrive/v1.0/openFile/create")
    }

    /// The body to send; fails, before any network call, on the first missing required parameter.
    pub fn post(&self) -> (r: Result<AdriveOpenFileCreatePost, AlipanError>)
        ensures
            match self.missing_param() {
                Some(name) => r is Err && is_missing(r->Err_0.inner, name),
                None => r is Ok && r->Ok_0.carries(*self),
            },
    {
        let drive_id = match &self.drive_id.0 {
            Some(v) => v.clone(),
            None => {
                return Err(AlipanError::require_param_missing("drive_id"));
            },
        };
        let parent_file_id = match &self.parent_file_id.0 {
            Some(v) => v.clone(),
            None => {
                return Err(AlipanError::require_param_missing("parent_file_id"));
            },
        };
        let name = match &self.name.0 {
            Some(v) => v.clone(),
            None => {
                return Err(AlipanError::require_param_missing("name"));
            },
        };
        let file_type = match self.file_type.0 {
            Some(v) => v,
            None => {
                return Err(AlipanError::require_param_missing("file_type"));
            },
        };
        let check_name_mode = match self.check_name_mode.0 {
            Some(v) => v,
            None => {
                return Err(AlipanError::require_param_missing("check_name_mode"));
            },
        };
        let part_info_list = match &self.part_info_list.0 {
            Some(v) => Some(copy_parts(v)),
            None => None,
        };
        let streams_info = match &self.streams_info.0 {
            Some(v) => Some(copy_streams(v)),
            None => None,
        };
        let pre_hash = copy_opt_string(&self.pre_hash.0);
        let size = self.size.0;
        let content_hash = copy_opt_string(&self.content_hash.0);
        let content_hash_name = copy_opt_string(&self.content_hash_name.0);
        let proof_code = copy_opt_string(&self.proof_code.0);
        let proof_version = copy_opt_string(&self.proof_version.0);
        let local_created_at = copy_opt_string(&self.local_created_at.0);
        let local_modified_at = copy_opt_string(&self.local_modified_at.0);
        Ok(AdriveOpenFileCreatePost {
            drive_id,
            parent_file_id,
            name,
            file_type,
            check_name_mode,
            part_info_list,
            streams_info,
            pre_hash,
            size,
            content_hash,
            content_hash_name,
            proof_code,
            proof_version,
            local_created_at,
            local_modified_at,
        })
    }
}

/// Body of [`AdriveOpenFileListUploadedPartsRequest`].
#[derive(Debug)]
pub struct AdriveOpenFileListUploadedPartsRequestPost {
    pub drive_id: Option<String>,
    pub file_id: Option<String>,
    pub upload_id: Option<String>,
    pub part_number_marker: Option<String>,
}

/// Lists the parts of an open upload that the server has received.
#[derive(Debug)]
pub struct AdriveOpenFileListUploadedPartsRequest {
    pub api_host: String,
    pub drive_id: OptionParam<String>,
    pub file_id: OptionParam<String>,
    pub upload_id: OptionParam<String>,
    pub part_number_marker: OptionParam<String>,
}

impl AdriveOpenFileListUploadedPartsRequestPost {
    /// Whether this body carries the parameters of `req`.
    pub open spec fn carries(self, req: AdriveOpenFileListUploadedPartsRequest) -> bool {
        &&& self.drive_id == req.drive_id.0
        &&& self.file_id == req.file_id.0
        &&& self.upload_id == req.upload_id.0
        &&& self.part_number_marker == req.part_number_marker.0
    }
}

impl AdriveOpenFileListUploadedPartsRequest {
    /// The first required parameter that is not set, if any.
    pub open spec fn missing_param(self) -> Option<Seq<char>> {
        if self.drive_id.0 is None {
            Some("drive_id"@)
        } else if self.file_id.0 is None {
            Some("file_id"@)
        } else {
            None
        }
    }

    /// A request with no parameter set.
    pub fn new(api_host: &str) -> (r: Self)
        ensures
            r.api_host@ == api_host@,
            r.drive_id.0 is None,
            r.file_id.0 is None,
            r.upload_id.0 is None,
            r.part_number_marker.0 is None,
    {
        AdriveOpenFileListUploadedPartsRequest {
            api_host: String::from_str(api_host),
            drive_id: OptionParam(None),
            file_id: OptionParam(None),
            upload_id: OptionParam(None),
            part_number_marker: OptionParam(None),
        }
    }

    pub fn api_host(self, api_host: &str) -> (r: Self)
        ensures
            r.api_host@ == api_host@,
            r == (AdriveOpenFileListUploadedPartsRequest { api_host: r.api_host, ..self }),
    {
        AdriveOpenFileListUploadedPartsRequest { api_host: String::from_str(api_host), ..self }
    }

    pub fn drive_id(self, drive_id: &str) -> (r: Self)
        ensures
            r.drive_id.0 is Some && r.drive_id.0->0@ == drive_id@,
            r == (AdriveOpenFileListUploadedPartsRequest { drive_id: r.drive_id, ..self }),
    {
        AdriveOpenFileListUploadedPartsRequest { drive_id: OptionParam(Some(String::from_str(drive_id))), ..self }
    }

    pub fn file_id(self, file_id: &str) -> (r: Self)
        ensures
            r.file_id.0 is Some && r.file_id.0->0@ == file_id@,
            r == (AdriveOpenFileListUploadedPartsRequest { file_id: r.file_id, ..self }),
    {
        AdriveOpenFileListUploadedPartsRequest { file_id: OptionParam(Some(String::from_str(file_id))), ..self }
    }

    pub fn upload_id(self, upload_id: &str) -> (r: Self)
        ensures
            r.upload_id.0 is Some && r.upload_id.0->0@ == upload_id@,
            r == (AdriveOpenFileListUploadedPartsRequest { upload_id: r.upload_id, ..self }),
    {
        AdriveOpenFileListUploadedPartsRequest { upload_id: OptionParam(Some(String::from_str(upload_id))), ..self }
    }

    pub fn part_number_marker(self, part_number_marker: &str) -> (r: Self)
        ensures
            r.part_number_marker.0 is Some && r.part_number_marker.0->0@ == part_number_marker@,
            r == (AdriveOpenFileListUploadedPartsRequest { part_number_marker: r.part_number_marker, ..self }),
    {
        AdriveOpenFileListUploadedPartsRequest { part_number_marker: OptionParam(Some(String::from_str(part_number_marker))), ..self }
    }

    /// The endpoint of this request.
    pub fn url(&self) -> (r: String)
        ensures
            r@ == self.api_host@ + "/adrive/v1.0/openFile/listUploadedParts"@,
    {
        joined(self.api_host.as_str(), "/adrive/v1.0/openFile/listUploadedParts")
    }

    /// The body to send; fails, before any network call, on the first missing required parameter.
    pub fn post(&self) -> (r: Result<AdriveOpenFileListUploadedPartsRequestPost, AlipanError>)
        ensures
            match self.missing_param() {
                Some(name) => r is Err && is_missing(r->Err_0.inner, name),
                None => r is Ok && r->Ok_0.carries(*self),
            },
    {
        let drive_id = match &self.drive_id.0 {
            Some(v) => Some(v.clone()),
            None => {
                return Err(AlipanError::require_param_missing("drive_id"));
            },
        };
        let file_id = match &self.file_id.0 {
            Some(v) => Some(v.clone()),
            None => {
                return Err(AlipanError::require_param_missing("file_id"));
            },
        };
        let upload_id = copy_opt_string(&self.upload_id.0);
        let part_number_marker = copy_opt_string(&self.part_number_marker.0);
        Ok(AdriveOpenFileListUploadedPartsRequestPost {
            drive_id,
            file_id,
            upload_id,
            part_number_marker,
        })
    }
}

/// Body of [`AdriveOpenFileCopyRequest`].
#[derive(Debug)]
pub struct AdriveOpenFileCopyRequestPost {
    pub drive_id: String,
    pub file_id: String,
    pub to_drive_id: Option<String>,
    pub to_parent_file_id: String,
    pub auto_rename: Option<bool>,
}

/// Copies a file or folder.
#[derive(Debug)]
pub struct AdriveOpenFileCopyRequest {
    pub api_host: String,
    pub drive_id: OptionParam<String>,
    pub file_id: OptionParam<String>,
    pub to_drive_id: OptionParam<String>,
    pub to_parent_file_id: OptionParam<String>,
    pub auto_rename: OptionParam<bool>,
}

impl AdriveOpenFileCopyRequestPost {
    /// Whether this body carries the parameters of `req`.
    pub open spec fn carries(self, req: AdriveOpenFileCopyRequest) -> bool {
        &&& self.drive_id == req.drive_id.0->0
        &&& self.file_id == req.file_id.0->0
        &&& self.to_drive_id == req.to_drive_id.0
        &&& self.to_parent_file_id == req.to_parent_file_id.0->0
        &&& self.auto_rename == req.auto_rename.0
    }
}

impl AdriveOpenFileCopyRequest {
    /// The first required parameter that is not set, if any.
    pub open spec fn missing_param(self) -> Option<Seq<char>> {
        if self.drive_id.0 is None {
            Some("drive_id"@)
        } else if self.file_id.0 is None {
            Some("file_id"@)
        } else if self.to_parent_file_id.0 is None {
            Some("to_parent_file_id"@)
        } else {
            None
        }
    }

    /// A request with no parameter set.
    pub fn new(api_host: &str) -> (r: Self)
        ensures
            r.api_host@ == api_host@,
            r.drive_id.0 is None,
            r.file_id.0 is None,
            r.to_drive_id.0 is None,
            r.to_parent_file_id.0 is None,
            r.auto_rename.0 is None,
    {
        AdriveOpenFileCopyRequest {
            api_host: String::from_str(api_host),
            drive_id: OptionParam(None),
            file_id: OptionParam(None),
            to_drive_id: OptionParam(None),
            to_parent_file_id: OptionParam(None),
            auto_rename: OptionParam(None),
        }
    }

    pub fn api_host(self, api_host: &str) -> (r: Self)
        ensures
            r.api_host@ == api_host@,
            r == (AdriveOpenFileCopyRequest { api_host: r.api_host, ..self }),
    {
        AdriveOpenFileCopyRequest { api_host: String::from_str(api_host), ..self }
    }

    pub fn drive_id(self, drive_id: &str) -> (r: Self)
        ensures
            r.drive_id.0 is Some && r.drive_id.0->0@ == drive_id@,
            r == (AdriveOpenFileCopyRequest { drive_id: r.drive_id, ..self }),
    {
        AdriveOpenFileCopyRequest { drive_id: OptionParam(Some(String::from_str(drive_id))), ..self }
    }

    pub fn file_id(self, file_id: &str) -> (r: Self)
        ensures
            r.file_id.0 is Some && r.file_id.0->0@ == file_id@,
            r == (AdriveOpenFileCopyRequest { file_id: r.file_id, ..self }),
    {
        AdriveOpenFileCopyRequest { file_id: OptionParam(Some(String::from_str(file_id))), ..self }
    }

    pub fn to_drive_id(self, to_drive_id: &str) -> (r: Self)
        ensures
            r.to_drive_id.0 is Some && r.to_drive_id.0->0@ == to_drive_id@,
            r == (AdriveOpenFileCopyRequest { to_drive_id: r.to_drive_id, ..self }),
    {
        AdriveOpenFileCopyRequest { to_drive_id: OptionParam(Some(String::from_str(to_drive_id))), ..self }
    }

    pub fn to_parent_file_id(self, to_parent_file_id: &str) -> (r: Self)
        ensures
            r.to_parent_file_id.0 is Some && r.to_parent_file_id.0->0@ == to_parent_file_id@,
            r == (AdriveOpenFileCopyRequest { to_parent_file_id: r.to_parent_file_id, ..self }),
    {
        AdriveOpenFileCopyRequest { to_parent_file_id: OptionParam(Some(String::from_str(to_parent_file_id))), ..self }
    }

    pub fn auto_rename(self, auto_rename: bool) -> (r: Self)
        ensures
            r == (AdriveOpenFileCopyRequest { auto_rename: OptionParam(Some(auto_rename)), ..self }),
    {
        AdriveOpenFileCopyRequest { auto_rename: OptionParam(Some(auto_rename)), ..self }
    }

    /// The endpoint of this request.
    pub fn url(&self) -> (r: String)
        ensures
            r@ == self.api_host@ + "/adrive/v1.0/openFile/copy"@,
    {
        joined(self.api_host.as_str(), "/adrive/v1.0/openFile/copy")
    }

    /// The body to send; fails, before any network call, on the first missing required parameter.
    pub fn post(&self) -> (r: Result<AdriveOpenFileCopyRequestPost, AlipanError>)
        ensures
            match self.missing_param() {
                Some(name) => r is Err && is_missing(r->Err_0.inner, name),
                None => r is Ok && r->Ok_0.carries(*self),
            },
    {
        let drive_id = match &self.drive_id.0 {
            Some(v) => v.clone(),
            None => {
                return Err(AlipanError::require_param_missing("drive_id"));
            },
        };
        let file_id = match &self.file_id.0 {
            Some(v) => v.clone(),
            None => {
                return Err(AlipanError::require_param_missing("file_id"));
            },
        };
        let to_drive_id = copy_opt_string(&self.to_drive_id.0);
        let to_parent_file_id = match &self.to_parent_file_id.0 {
            Some(v) => v.clone(),
            None => {
                return Err(AlipanError::require_param_missing("to_parent_file_id"));
            },
        };
        let auto_rename = self.auto_rename.0;
        Ok(AdriveOpenFileCopyRequestPost {
            drive_id,
            file_id,
            to_drive_id,
            to_parent_file_id,
            auto_rename,
        })
    }
}

/// Body of [`AdriveOpenFileMoveRequest`].
#[derive(Debug)]
pub struct AdriveOpenFileMoveRequestPost {
    pub drive_id: String,
    pub file_id: String,
    pub to_parent_file_id: String,
    pub check_name_mode: Option<CheckNameMode>,
    pub new_name: Option<String>,
}

/// Moves a file or folder, optionally renaming it.
#[derive(Debug)]
pub struct AdriveOpenFileMoveRequest {
    pub api_host: String,
    pub drive_id: OptionParam<String>,
    pub file_id: OptionParam<String>,
    pub to_parent_file_id: OptionParam<String>,
    pub check_name_mode: OptionParam<CheckNameMode>,
    pub new_name: OptionParam<String>,
}

impl AdriveOpenFileMoveRequestPost {
    /// Whether this body carries the parameters of `req`.
    pub open spec fn carries(self, req: AdriveOpenFileMoveRequest) -> bool {
        &&& self.drive_id == req.drive_id.0->0
        &&& self.file_id == req.file_id.0->0
        &&& self.to_parent_file_id == req.to_parent_file_id.0->0
        &&& self.check_name_mode == req.check_name_mode.0
        &&& self.new_name == req.new_name.0
    }
}

impl AdriveOpenFileMoveRequest {
    /// The first required parameter that is not set, if any.
    pub open spec fn missing_param(self) -> Option<Seq<char>> {
        if self.drive_id.0 is None {
            Some("drive_id"@)
        } else if self.file_id.0 is None {
            Some("file_id"@)
        } else if self.to_parent_file_id.0 is None {
            Some("to_parent_file_id"@)
        } else {
            None
        }
    }

    /// A request with no parameter set.
    pub fn new(api_host: &str) -> (r: Self)
        ensures
            r.api_host@ == api_host@,
            r.drive_id.0 is None,
            r.file_id.0 is None,
            r.to_parent_file_id.0 is None,
            r.check_name_mode.0 is None,
            r.new_name.0 is None,
    {
        AdriveOpenFileMoveRequest {
            api_host: String::from_str(api_host),
            drive_id: OptionParam(None),
            file_id: OptionParam(None),
            to_parent_file_id: OptionParam(None),
            check_name_mode: OptionParam(None),
            new_name: OptionParam(None),
        }
    }

    pub fn api_host(self, api_host: &str) -> (r: Self)
        ensures
            r.api_host@ == api_host@,
            r == (AdriveOpenFileMoveRequest { api_host: r.api_host, ..self }),
    {
        AdriveOpenFileMoveRequest { api_host: String::from_str(api_host), ..self }
    }

    pub fn drive_id(self, drive_id: &str) -> (r: Self)
        ensures
            r.drive_id.0 is Some && r.drive_id.0->0@ == drive_id@,
            r == (AdriveOpenFileMoveRequest { drive_id: r.drive_id, ..self }),
    {
        AdriveOpenFileMoveRequest { drive_id: OptionParam(Some(String::from_str(drive_id))), ..self }
    }

    pub fn file_id(self, file_id: &str) -> (r: Self)
        ensures
            r.file_id.0 is Some && r.file_id.0->0@ == file_id@,
            r == (AdriveOpenFileMoveRequest { file_id: r.file_id, ..self }),
    {
        AdriveOpenFileMoveRequest { file_id: OptionParam(Some(String::from_str(file_id))), ..self }
    }

    pub fn to_parent_file_id(self, to_parent_file_id: &str) -> (r: Self)
        ensures
            r.to_parent_file_id.0 is Some && r.to_parent_file_id.0->0@ == to_parent_file_id@,
            r == (AdriveOpenFileMoveRequest { to_parent_file_id: r.to_parent_file_id, ..self }),
    {
        AdriveOpenFileMoveRequest { to_parent_file_id: OptionParam(Some(String::from_str(to_parent_file_id))), ..self }
    }

    pub fn check_name_mode(self, check_name_mode: CheckNameMode) -> (r: Self)
        ensures
            r == (AdriveOpenFileMoveRequest { check_name_mode: OptionParam(Some(check_name_mode)), ..self }),
    {
        AdriveOpenFileMoveRequest { check_name_mode: OptionParam(Some(check_name_mode)), ..self }
    }

    pub fn new_name(self, new_name: &str) -> (r: Self)
        ensures
            r.new_name.0 is Some && r.new_name.0->0@ == new_name@,
            r == (AdriveOpenFileMoveRequest { new_name: r.new_name, ..self }),
    {
        AdriveOpenFileMoveRequest { new_name: OptionParam(Some(String::from_str(new_name))), ..self }
    }

    /// The endpoint of this request.
    pub fn url(&self) -> (r: String)
        ensures
            r@ == self.api_host@ + "/adrive/v1.0/openFile/move"@,
    {
        joined(self.api_host.as_str(), "/adrive/v1.0/openFile/move")
    }

    /// The body to send; fails, before any network call, on the first missing required parameter.
    pub fn post(&self) -> (r: Result<AdriveOpenFileMoveRequestPost, AlipanError>)
        ensures
            match self.missing_param() {
                Some(name) => r is Err && is_missing(r->Err_0.inner, name),
                None => r is Ok && r->Ok_0.carries(*self),
            },
    {
        let drive_id = match &self.drive_id.0 {
            Some(v) => v.clone(),
            None => {
                return Err(AlipanError::require_param_missing("drive_id"));
            },
        };
        let file_id = match &self.file_id.0 {
            Some(v) => v.clone(),
            None => {
                return Err(AlipanError::require_param_missing("file_id"));
            },
        };
        let to_parent_file_id = match &self.to_parent_file_id.0 {
            Some(v) => v.clone(),
            None => {
                return Err(AlipanError::require_param_missing("to_parent_file_id"));
            },
        };
        let check_name_mode = self.check_name_mode.0;
        let new_name = copy_opt_string(&self.new_name.0);
        Ok(AdriveOpenFileMoveRequestPost {
            drive_id,
            file_id,
            to_parent_file_id,
            check_name_mode,
            new_name,
        })
    }
}

/// Body of [`AdriveOpenFileGetByPathRequest`].
#[derive(Debug)]
pub struct AdriveOpenFileGetByPathRequestPost {
    pub drive_id: String,
    pub file_path: String,
}

/// Looks a file up by its path.
#[derive(Debug)]
pub struct AdriveOpenFileGetByPathRequest {
    pub api_host: String,
    pub drive_id: OptionParam<String>,
    pub file_path: OptionParam<String>,
}

impl AdriveOpenFileGetByPathRequestPost {
    /// Whether this body carries the parameters of `req`.
    pub open spec fn carries(self, req: AdriveOpenFileGetByPathRequest) -> bool {
        &&& self.drive_id == req.drive_id.0->0
        &&& self.file_path == req.file_path.0->0
    }
}

impl AdriveOpenFileGetByPathRequest {
    /// The first required parameter that is not set, if any.
    pub open spec fn missing_param(self) -> Option<Seq<char>> {
        if self.drive_id.0 is None {
            Some("drive_id"@)
        } else if self.file_path.0 is None {
            Some("file_path"@)
        } else {
            None
        }
    }

    /// A request with no parameter set.
    pub fn new(api_host: &str) -> (r: Self)
        ensures
            r.api_host@ == api_host@,
            r.drive_id.0 is None,
            r.file_path.0 is None,
    {
        AdriveOpenFileGetByPathRequest {
            api_host: String::from_str(api_host),
            drive_id: OptionParam(None),
            file_path: OptionParam(None),
        }
    }

    pub fn api_host(self, api_host: &str) -> (r: Self)
        ensures
            r.api_host@ == api_host@,
            r == (AdriveOpenFileGetByPathRequest { api_host: r.api_host, ..self }),
    {
        AdriveOpenFileGetByPathRequest { api_host: String::from_str(api_host), ..self }
    }

    pub fn drive_id(self, drive_id: &str) -> (r: Self)
        ensures
            r.drive_id.0 is Some && r.drive_id.0->0@ == drive_id@,
            r == (AdriveOpenFileGetByPathRequest { drive_id: r.drive_id, ..self }),
    {
        AdriveOpenFileGetByPathRequest { drive_id: OptionParam(Some(String::from_str(drive_id))), ..self }
    }

    pub fn file_path(self, file_path: &str) -> (r: Self)
        ensures
            r.file_path.0 is Some && r.file_path.0->0@ == file_path@,
            r == (AdriveOpenFileGetByPathRequest { file_path: r.file_path, ..self }),
    {
        AdriveOpenFileGetByPathRequest { file_path: OptionParam(Some(String::from_str(file_path))), ..self }
    }

    /// The endpoint of this request.
    pub fn url(&self) -> (r: String)
        ensures
            r@ == self.api_host@ + "/adrive/v1.0/openFile/get_by_path"@,
    {
        joined(self.api_host.as_str(), "/adrive/v1.0/openFile/get_by_path")
    }

    /// The body to send; fails, before any network call, on the first missing required parameter.
    pub fn post(&self) -> (r: Result<AdriveOpenFileGetByPathRequestPost, AlipanError>)
        ensures
            match self.missing_param() {
                Some(name) => r is Err && is_missing(r->Err_0.inner, name),
                None => r is Ok && r->Ok_0.carries(*self),
            },
    {
        let drive_id = match &self.drive_id.0 {
            Some(v) => v.clone(),
            None => {
                return Err(AlipanError::require_param_missing("drive_id"));
            },
        };
        let file_path = match &self.file_path.0 {
            Some(v) => v.clone(),
            None => {
                return Err(AlipanError::require_param_missing("file_path"));
            },
        };
        Ok(AdriveOpenFileGetByPathRequestPost {
            drive_id,
            file_path,
        })
    }
}

/// Body of [`AdriveOpenFileCompleteRequest`].
#[derive(Debug)]
pub struct AdriveOpenFileCompleteRequestPost {
    pub drive_id: String,
    pub file_id: String,
    pub upload_id: String,
}

/// Closes an upload once every part is sent.
#[derive(Debug)]
pub struct AdriveOpenFileCompleteRequest {
    pub api_host: String,
    pub drive_id: OptionParam<String>,
    pub file_id: OptionParam<String>,
    pub upload_id: OptionParam<String>,
}

impl AdriveOpenFileCompleteRequestPost {
    /// Whether this body carries the parameters of `req`.
    pub open spec fn carries(self, req: AdriveOpenFileCompleteRequest) -> bool {
        &&& self.drive_id == req.drive_id.0->0
        &&& self.file_id == req.file_id.0->0
        &&& self.upload_id == req.upload_id.0->0
    }
}

impl AdriveOpenFileCompleteRequest {
    /// The first required parameter that is not set, if any.
    pub open spec fn missing_param(self) -> Option<Seq<char>> {
        if self.drive_id.0 is None {
            Some("drive_id"@)
        } else if self.file_id.0 is None {
            Some("file_id"@)
        } else if self.upload_id.0 is None {
            Some("upload_id"@)
        } else {
            None
        }
    }

    /// A request with no parameter set.
    pub fn new(api_host: &str) -> (r: Self)
        ensures
            r.api_host@ == api_host@,
            r.drive_id.0 is None,
            r.file_id.0 is None,
            r.upload_id.0 is None,
    {
        AdriveOpenFileCompleteRequest {
            api_host: String::from_str(api_host),
            drive_id: OptionParam(None),
            file_id: OptionParam(None),
            upload_id: OptionParam(None),
        }
    }

    pub fn api_host(self, api_host: &str) -> (r: Self)
        ensures
            r.api_host@ == api_host@,
            r == (AdriveOpenFileCompleteRequest { api_host: r.api_host, ..self }),
    {
        AdriveOpenFileCompleteRequest { api_host: String::from_str(api_host), ..self }
    }

    pub fn drive_id(self, drive_id: &str) -> (r: Self)
        ensures
            r.drive_id.0 is Some && r.drive_id.0->0@ == drive_id@,
            r == (AdriveOpenFileCompleteRequest { drive_id: r.drive_id, ..self }),
    {
        AdriveOpenFileCompleteRequest { drive_id: OptionParam(Some(String::from_str(drive_id))), ..self }
    }

    pub fn file_id(self, file_id: &str) -> (r: Self)
        ensures
            r.file_id.0 is Some && r.file_id.0->0@ == file_id@,
            r == (AdriveOpenFileCompleteRequest { file_id: r.file_id, ..self }),
    {
        AdriveOpenFileCompleteRequest { file_id: OptionParam(Some(String::from_str(file_id))), ..self }
    }

    pub fn upload_id(self, upload_id: &str) -> (r: Self)
        ensures
            r.upload_id.0 is Some && r.upload_id.0->0@ == upload_id@,
            r == (AdriveOpenFileCompleteRequest { upload_id: r.upload_id, ..self }),
    {
        AdriveOpenFileCompleteRequest { upload_id: OptionParam(Some(String::from_str(upload_id))), ..self }
    }

    /// The endpoint of this request.
    pub fn url(&self) -> (r: String)
        ensures
            r@ == self.api_host@ + "/adrive/v1.0/openFile/complete"@,
    {
        joined(self.api_host.as_str(), "/adrive/v1.0/openFile/complete")
    }

    /// The body to send; fails, before any network call, on the first missing required parameter.
    pub fn post(&self) -> (r: Result<AdriveOpenFileCompleteRequestPost, AlipanError>)
        ensures
            match self.missing_param() {
                Some(name) => r is Err && is_missing(r->Err_0.inner, name),
                None => r is Ok && r->Ok_0.carries(*self),
            },
    {
        let drive_id = match &self.drive_id.0 {
            Some(v) => v.clone(),
            None => {
                return Err(AlipanError::require_param_missing("drive_id"));
            },
        };
        let file_id = match &self.file_id.0 {
            Some(v) => v.clone(),
            None => {
                return Err(AlipanError::require_param_missing("file_id"));
            },
        };
        let upload_id = match &self.upload_id.0 {
            Some(v) => v.clone(),
            None => {
                return Err(AlipanError::require_param_missing("upload_id"));
            },
        };
        Ok(AdriveOpenFileCompleteRequestPost {
            drive_id,
            file_id,
            upload_id,
        })
    }
}

/// Body of [`AdriveOpenFileGetRequest`].
#[derive(Debug)]
pub struct AdriveOpenFileGetRequestPost {
    pub drive_id: String,
    pub file_id: String,
    pub video_thumbnail_time: Option<i64>,
    pub video_thumbnail_width: Option<i64>,
    pub image_thumbnail_width: Option<i64>,
    pub fields: Option<String>,
}

/// Fetches the details of a file.
#[derive(Debug)]
pub struct AdriveOpenFileGetRequest {
    pub api_host: String,
    pub drive_id: OptionParam<String>,
    pub file_id: OptionParam<String>,
    pub video_thumbnail_time: OptionParam<i64>,
    pub video_thumbnail_width: OptionParam<i64>,
    pub image_thumbnail_width: OptionParam<i64>,
    pub fields: OptionParam<String>,
}

impl AdriveOpenFileGetRequestPost {
    /// Whether this body carries the parameters of `req`.
    pub open spec fn carries(self, req: AdriveOpenFileGetRequest) -> bool {
        &&& self.drive_id == req.drive_id.0->0
        &&& self.file_id == req.file_id.0->0
        &&& self.video_thumbnail_time == req.video_thumbnail_time.0
        &&& self.video_thumbnail_width == req.video_thumbnail_width.0
        &&& self.image_thumbnail_width == req.image_thumbnail_width.0
        &&& self.fields == req.fields.0
    }
}

impl AdriveOpenFileGetRequest {
    /// The first required parameter that is not set, if any.
    pub open spec fn missing_param(self) -> Option<Seq<char>> {
        if self.drive_id.0 is None {
            Some("drive_id"@)
        } else if self.file_id.0 is None {
            Some("file_id"@)
        } else {
            None
        }
    }

    /// A request with no parameter set.
    pub fn new(api_host: &str) -> (r: Self)
        ensures
            r.api_host@ == api_host@,
            r.drive_id.0 is None,
            r.file_id.0 is None,
            r.video_thumbnail_time.0 is None,
            r.video_thumbnail_width.0 is None,
            r.image_thumbnail_width.0 is None,
            r.fields.0 is None,
    {
        AdriveOpenFileGetRequest {
            api_host: String::from_str(api_host),
            drive_id: OptionParam(None),
            file_id: OptionParam(None),
            video_thumbnail_time: OptionParam(None),
            video_thumbnail_width: OptionParam(None),
            image_thumbnail_width: OptionParam(None),
            fields: OptionParam(None),
        }
    }

    pub fn api_host(self, api_host: &str) -> (r: Self)
        ensures
            r.api_host@ == api_host@,
            r == (AdriveOpenFileGetRequest { api_host: r.api_host, ..self }),
    {
        AdriveOpenFileGetRequest { api_host: String::from_str(api_host), ..self }
    }

    pub fn drive_id(self, drive_id: &str) -> (r: Self)
        ensures
            r.drive_id.0 is Some && r.drive_id.0->0@ == drive_id@,
            r == (AdriveOpenFileGetRequest { drive_id: r.drive_id, ..self }),
    {
        AdriveOpenFileGetRequest { drive_id: OptionParam(Some(String::from_str(drive_id))), ..self }
    }

    pub fn file_id(self, file_id: &str) -> (r: Self)
        ensures
            r.file_id.0 is Some && r.file_id.0->0@ == file_id@,
            r == (AdriveOpenFileGetRequest { file_id: r.file_id, ..self }),
    {
        AdriveOpenFileGetRequest { file_id: OptionParam(Some(String::from_str(file_id))), ..self }
    }

    pub fn video_thumbnail_time(self, video_thumbnail_time: i64) -> (r: Self)
        ensures
            r == (AdriveOpenFileGetRequest { video_thumbnail_time: OptionParam(Some(video_thumbnail_time)), ..self }),
    {
        AdriveOpenFileGetRequest { video_thumbnail_time: OptionParam(Some(video_thumbnail_time)), ..self }
    }

    pub fn video_thumbnail_width(self, video_thumbnail_width: i64) -> (r: Self)
        ensures
            r == (AdriveOpenFileGetRequest { video_thumbnail_width: OptionParam(Some(video_thumbnail_width)), ..self }),
    {
        AdriveOpenFileGetRequest { video_thumbnail_width: OptionParam(Some(video_thumbnail_width)), ..self }
    }

    pub fn image_thumbnail_width(self, image_thumbnail_width: i64) -> (r: Self)
        ensures
            r == (AdriveOpenFileGetRequest { image_thumbnail_width: OptionParam(Some(image_thumbnail_width)), ..self }),
    {
        AdriveOpenFileGetRequest { image_thumbnail_width: OptionParam(Some(image_thumbnail_width)), ..self }
    }

    pub fn fields(self, fields: &str) -> (r: Self)
        ensures
            r.fields.0 is Some && r.fields.0->0@ == fields@,
            r == (AdriveOpenFileGetRequest { fields: r.fields, ..self }),
    {
        AdriveOpenFileGetRequest { fields: OptionParam(Some(String::from_str(fields))), ..self }
    }

    /// The endpoint of this request.
    pub fn url(&self) -> (r: String)
        ensures
            r@ == self.api_host@ + "/adrive/v1.0/openFile/get"@,
    {
        joined(self.api_host.as_str(), "/adrive/v1.0/openFile/get")
    }

    /// The body to send; fails, before any network call, on the first missing required parameter.
    pub fn post(&self) -> (r: Result<AdriveOpenFileGetRequestPost, AlipanError>)
        ensures
            match self.missing_param() {
                Some(name) => r is Err && is_missing(r->Err_0.inner, name),
                None => r is Ok && r->Ok_0.carries(*self),
            },
    {
        let drive_id = match &self.drive_id.0 {
            Some(v) => v.clone(),
            None => {
                return Err(AlipanError::require_param_missing("drive_id"));
            },
        };
        let file_id = match &self.file_id.0 {
            Some(v) => v.clone(),
            None => {
                return Err(AlipanError::require_param_missing("file_id"));
            },
        };
        let video_thumbnail_time = self.video_thumbnail_time.0;
        let video_thumbnail_width = self.video_thumbnail_width.0;
        let image_thumbnail_width = self.image_thumbnail_width.0;
        let fields = copy_opt_string(&self.fields.0);
        Ok(AdriveOpenFileGetRequestPost {
            drive_id,
            file_id,
            video_thumbnail_time,
            video_thumbnail_width,
            image_thumbnail_width,
            fields,
        })
    }
}

/// Body of [`AdriveOpenFileGetDownloadUrlRequest`].
#[derive(Debug)]
pub struct AdriveOpenFileGetDownloadUrlRequestPost {
    pub drive_id: String,
    pub file_id: String,
    pub expire_sec: Option<i64>,
}

/// Asks for a download URL of a file.
#[derive(Debug)]
pub struct AdriveOpenFileGetDownloadUrlRequest {
    pub api_host: String,
    pub drive_id: OptionParam<String>,
    pub file_id: OptionParam<String>,
    /// Lifetime of the URL in seconds.
    pub expire_sec: OptionParam<i64>,
}

impl AdriveOpenFileGetDownloadUrlRequestPost {
    /// Whether this body carries the parameters of `req`.
    pub open spec fn carries(self, req: AdriveOpenFileGetDownloadUrlRequest) -> bool {
        &&& self.drive_id == req.drive_id.0->0
        &&& self.file_id == req.file_id.0->0
        &&& self.expire_sec == req.expire_sec.0
    }
}

impl AdriveOpenFileGetDownloadUrlRequest {
    /// The first required parameter that is not set, if any.
    pub open spec fn missing_param(self) -> Option<Seq<char>> {
        if self.drive_id.0 is None {
            Some("drive_id"@)
        } else if self.file_id.0 is None {
            Some("file_id"@)
        } else {
            None
        }
    }

    /// A request with no parameter set.
    pub fn new(api_host: &str) -> (r: Self)
        ensures
            r.api_host@ == api_host@,
            r.drive_id.0 is None,
            r.file_id.0 is None,
            r.expire_sec.0 is None,
    {
        AdriveOpenFileGetDownloadUrlRequest {
            api_host: String::from_str(api_host),
            drive_id: OptionParam(None),
            file_id: OptionParam(None),
            expire_sec: OptionParam(None),
        }
    }

    pub fn api_host(self, api_host: &str) -> (r: Self)
        ensures
            r.api_host@ == api_host@,
            r == (AdriveOpenFileGetDownloadUrlRequest { api_host: r.api_host, ..self }),
    {
        AdriveOpenFileGetDownloadUrlRequest { api_host: String::from_str(api_host), ..self }
    }

    pub fn drive_id(self, drive_id: &str) -> (r: Self)
        ensures
            r.drive_id.0 is Some && r.drive_id.0->0@ == drive_id@,
            r == (AdriveOpenFileGetDownloadUrlRequest { drive_id: r.drive_id, ..self }),
    {
        AdriveOpenFileGetDownloadUrlRequest { drive_id: OptionParam(Some(String::from_str(drive_id))), ..self }
    }

    pub fn file_id(self, file_id: &str) -> (r: Self)
        ensures
            r.file_id.0 is Some && r.file_id.0->0@ == file_id@,
            r == (AdriveOpenFileGetDownloadUrlRequest { file_id: r.file_id, ..self }),
    {
        AdriveOpenFileGetDownloadUrlRequest { file_id: OptionParam(Some(String::from_str(file_id))), ..self }
    }

    pub fn expire_sec(self, expire_sec: i64) -> (r: Self)
        ensures
            r == (AdriveOpenFileGetDownloadUrlRequest { expire_sec: OptionParam(Some(expire_sec)), ..self }),
    {
        AdriveOpenFileGetDownloadUrlRequest { expire_sec: OptionParam(Some(expire_sec)), ..self }
    }

    /// The endpoint of this request.
    pub fn url(&self) -> (r: String)
        ensures
            r@ == self.api_host@ + "/adrive/v1.0/openFile/getDownloadUrl"@,
    {
        joined(self.api_host.as_str(), "/adrive/v1.0/openFile/getDownloadUrl")
    }

    /// The body to send; fails, before any network call, on the first missing required parameter.
    pub fn post(&self) -> (r: Result<AdriveOpenFileGetDownloadUrlRequestPost, AlipanError>)
        ensures
            match self.missing_param() {
                Some(name) => r is Err && is_missing(r->Err_0.inner, name),
                None => r is Ok && r->Ok_0.carries(*self),
            },
    {
        let drive_id = match &self.drive_id.0 {
            Some(v) => v.clone(),
            None => {
                return Err(AlipanError::require_param_missing("drive_id"));
            },
        };
        let file_id = match &self.file_id.0 {
            Some(v) => v.clone(),
            None => {
                return Err(AlipanError::require_param_missing("file_id"));
            },
        };
        let expire_sec = self.expire_sec.0;
        Ok(AdriveOpenFileGetDownloadUrlRequestPost {
            drive_id,
            file_id,
            expire_sec,
        })
    }
}

/// Body of [`AdriveOpenFileUpdateRequest`].
#[derive(Debug)]
pub struct AdriveOpenFileUpdateRequestPost {
    pub drive_id: String,
    pub file_id: String,
    pub name: Option<String>,
    pub check_name_mode: Option<CheckNameMode>,
    pub starred: Option<bool>,
}

/// Renames or stars a file.
#[derive(Debug)]
pub struct AdriveOpenFileUpdateRequest {
    pub api_host: String,
    pub drive_id: OptionParam<String>,
    pub file_id: OptionParam<String>,
    pub name: OptionParam<String>,
    pub check_name_mode: OptionParam<CheckNameMode>,
    pub starred: OptionParam<bool>,
}

impl AdriveOpenFileUpdateRequestPost {
    /// Whether this body carries the parameters of `req`.
    pub open spec fn carries(self, req: AdriveOpenFileUpdateRequest) -> bool {
        &&& self.drive_id == req.drive_id.0->0
        &&& self.file_id == req.file_id.0->0
        &&& self.name == req.name.0
        &&& self.check_name_mode == req.check_name_mode.0
        &&& self.starred == req.starred.0
    }
}

impl AdriveOpenFileUpdateRequest {
    /// The first required parameter that is not set, if any.
    pub open spec fn missing_param(self) -> Option<Seq<char>> {
        if self.drive_id.0 is None {
            Some("drive_id"@)
        } else if self.file_id.0 is None {
            Some("file_id"@)
        } else {
            None
        }
    }

    /// A request with no parameter set.
    pub fn new(api_host: &str) -> (r: Self)
        ensures
            r.api_host@ == api_host@,
            r.drive_id.0 is None,
            r.file_id.0 is None,
            r.name.0 is None,
            r.check_name_mode.0 is None,
            r.starred.0 is None,
    {
        AdriveOpenFileUpdateRequest {
            api_host: String::from_str(api_host),
            drive_id: OptionParam(None),
            file_id: OptionParam(None),
            name: OptionParam(None),
            check_name_mode: OptionParam(None),
            starred: OptionParam(None),
        }
    }

    pub fn api_host(self, api_host: &str) -> (r: Self)
        ensures
            r.api_host@ == api_host@,
            r == (AdriveOpenFileUpdateRequest { api_host: r.api_host, ..self }),
    {
        AdriveOpenFileUpdateRequest { api_host: String::from_str(api_host), ..self }
    }

    pub fn drive_id(self, drive_id: &str) -> (r: Self)
        ensures
            r.drive_id.0 is Some && r.drive_id.0->0@ == drive_id@,
            r == (AdriveOpenFileUpdateRequest { drive_id: r.drive_id, ..self }),
    {
        AdriveOpenFileUpdateRequest { drive_id: OptionParam(Some(String::from_str(drive_id))), ..self }
    }

    pub fn file_id(self, file_id: &str) -> (r: Self)
        ensures
            r.file_id.0 is Some && r.file_id.0->0@ == file_id@,
            r == (AdriveOpenFileUpdateRequest { file_id: r.file_id, ..self }),
    {
        AdriveOpenFileUpdateRequest { file_id: OptionParam(Some(String::from_str(file_id))), ..self }
    }

    pub fn name(self, name: &str) -> (r: Self)
        ensures
            r.name.0 is Some && r.name.0->0@ == name@,
            r == (AdriveOpenFileUpdateRequest { name: r.name, ..self }),
    {
        AdriveOpenFileUpdateRequest { name: OptionParam(Some(String::from_str(name))), ..self }
    }

    pub fn check_name_mode(self, check_name_mode: CheckNameMode) -> (r: Self)
        ensures
            r == (AdriveOpenFileUpdateRequest { check_name_mode: OptionParam(Some(check_name_mode)), ..self }),
    {
        AdriveOpenFileUpdateRequest { check_name_mode: OptionParam(Some(check_name_mode)), ..self }
    }

    pub fn starred(self, starred: bool) -> (r: Self)
        ensures
            r == (AdriveOpenFileUpdateRequest { starred: OptionParam(Some(starred)), ..self }),
    {
        AdriveOpenFileUpdateRequest { starred: OptionParam(Some(starred)), ..self }
    }

    /// The endpoint of this request.
    pub fn url(&self) -> (r: String)
        ensures
            r@ == self.api_host@ + "/adrive/v1.0/openFile/update"@,
    {
        joined(self.api_host.as_str(), "/adrive/v1.0/openFile/update")
    }

    /// The body to send; fails, before any network call, on the first missing required parameter.
    pub fn post(&self) -> (r: Result<AdriveOpenFileUpdateRequestPost, AlipanError>)
        ensures
            match self.missing_param() {
                Some(name) => r is Err && is_missing(r->Err_0.inner, name),
                None => r is Ok && r->Ok_0.carries(*self),
            },
    {
        let drive_id = match &self.drive_id.0 {
            Some(v) => v.clone(),
            None => {
                return Err(AlipanError::require_param_missing("drive_id"));
            },
        };
        let file_id = match &self.file_id.0 {
            Some(v) => v.clone(),
            None => {
                return Err(AlipanError::require_param_missing("file_id"));
            },
        };
        let name = copy_opt_string(&self.name.0);
        let check_name_mode = self.check_name_mode.0;
        let starred = self.starred.0;
        Ok(AdriveOpenFileUpdateRequestPost {
            drive_id,
            file_id,
            name,
            check_name_mode,
            starred,
        })
    }
}

/// Body of [`AdriveOpenFileDeleteRequest`].
#[derive(Debug)]
pub struct AdriveOpenFileDeletePost {
    pub drive_id: String,
    pub file_id: String,
}

/// Deletes a file for good.
#[derive(Debug)]
pub struct AdriveOpenFileDeleteRequest {
    pub api_host: String,
    pub drive_id: OptionParam<String>,
    pub file_id: OptionParam<String>,
}

impl AdriveOpenFileDeletePost {
    /// Whether this body carries the parameters of `req`.
    pub open spec fn carries(self, req: AdriveOpenFileDeleteRequest) -> bool {
        &&& self.drive_id == req.drive_id.0->0
        &&& self.file_id == req.file_id.0->0
    }
}

impl AdriveOpenFileDeleteRequest {
    /// The first required parameter that is not set, if any.
    pub open spec fn missing_param(self) -> Option<Seq<char>> {
        if self.drive_id.0 is None {
            Some("drive_id"@)
        } else if self.file_id.0 is None {
            Some("file_id"@)
        } else {
            None
        }
    }

    /// A request with no parameter set.
    pub fn new(api_host: &str) -> (r: Self)
        ensures
            r.api_host@ == api_host@,
            r.drive_id.0 is None,
            r.file_id.0 is None,
    {
        AdriveOpenFileDeleteRequest {
            api_host: String::from_str(api_host),
            drive_id: OptionParam(None),
            file_id: OptionParam(None),
        }
    }

    pub fn api_host(self, api_host: &str) -> (r: Self)
        ensures
            r.api_host@ == api_host@,
            r == (AdriveOpenFileDeleteRequest { api_host: r.api_host, ..self }),
    {
        AdriveOpenFileDeleteRequest { api_host: String::from_str(api_host), ..self }
    }

    pub fn drive_id(self, drive_id: &str) -> (r: Self)
        ensures
            r.drive_id.0 is Some && r.drive_id.0->0@ == drive_id@,
            r == (AdriveOpenFileDeleteRequest { drive_id: r.drive_id, ..self }),
    {
        AdriveOpenFileDeleteRequest { drive_id: OptionParam(Some(String::from_str(drive_id))), ..self }
    }

    pub fn file_id(self, file_id: &str) -> (r: Self)
        ensures
            r.file_id.0 is Some && r.file_id.0->0@ == file_id@,
            r == (AdriveOpenFileDeleteRequest { file_id: r.file_id, ..self }),
    {
        AdriveOpenFileDeleteRequest { file_id: OptionParam(Some(String::from_str(file_id))), ..self }
    }

    /// The endpoint of this request.
    pub fn url(&self) -> (r: String)
        ensures
            r@ == self.api_host@ + "/adrive/v1.0/openFile/delete"@,
    {
        joined(self.api_host.as_str(), "/adrive/v1.0/openFile/delete")
    }

    /// The body to send; fails, before any network call, on the first missing required parameter.
    pub fn post(&self) -> (r: Result<AdriveOpenFileDeletePost, AlipanError>)
        ensures
            match self.missing_param() {
                Some(name) => r is Err && is_missing(r->Err_0.inner, name),
                None => r is Ok && r->Ok_0.carries(*self),
            },
    {
        let drive_id = match &self.drive_id.0 {
            Some(v) => v.clone(),
            None => {
                return Err(AlipanError::require_param_missing("drive_id"));
            },
        };
        let file_id = match &self.file_id.0 {
            Some(v) => v.clone(),
            None => {
                return Err(AlipanError::require_param_missing("file_id"));
            },
        };
        Ok(AdriveOpenFileDeletePost {
            drive_id,
            file_id,
        })
    }
}

/// Body of [`AdriveOpenFileRecyclebinTrashRequest`].
#[derive(Debug)]
pub struct AdriveOpenFileRecyclebinTrashPost {
    pub drive_id: String,
    pub file_id: String,
}

/// Moves a file to the recycle bin.
#[derive(Debug)]
pub struct AdriveOpenFileRecyclebinTrashRequest {
    pub api_host: String,
    pub drive_id: OptionParam<String>,
    pub file_id: OptionParam<String>,
}

impl AdriveOpenFileRecyclebinTrashPost {
    /// Whether this body carries the parameters of `req`.
    pub open spec fn carries(self, req: AdriveOpenFileRecyclebinTrashRequest) -> bool {
        &&& self.drive_id == req.drive_id.0->0
        &&& self.file_id == req.file_id.0->0
    }
}

impl AdriveOpenFileRecyclebinTrashRequest {
    /// The first required parameter that is not set, if any.
    pub open spec fn missing_param(self) -> Option<Seq<char>> {
        if self.drive_id.0 is None {
            Some("drive_id"@)
        } else if self.file_id.0 is None {
            Some("file_id"@)
        } else {
            None
        }
    }

    /// A request with no parameter set.
    pub fn new(api_host: &str) -> (r: Self)
        ensures
            r.api_host@ == api_host@,
            r.drive_id.0 is None,
            r.file_id.0 is None,
    {
        AdriveOpenFileRecyclebinTrashRequest {
            api_host: String::from_str(api_host),
            drive_id: OptionParam(None),
            file_id: OptionParam(None),
        }
    }

    pub fn api_host(self, api_host: &str) -> (r: Self)
        ensures
            r.api_host@ == api_host@,
            r == (AdriveOpenFileRecyclebinTrashRequest { api_host: r.api_host, ..self }),
    {
        AdriveOpenFileRecyclebinTrashRequest { api_host: String::from_str(api_host), ..self }
    }

    pub fn drive_id(self, drive_id: &str) -> (r: Self)
        ensures
            r.drive_id.0 is Some && r.drive_id.0->0@ == drive_id@,
            r == (AdriveOpenFileRecyclebinTrashRequest { drive_id: r.drive_id, ..self }),
    {
        AdriveOpenFileRecyclebinTrashRequest { drive_id: OptionParam(Some(String::from_str(drive_id))), ..self }
    }

    pub fn file_id(self, file_id: &str) -> (r: Self)
        ensures
            r.file_id.0 is Some && r.file_id.0->0@ == file_id@,
            r == (AdriveOpenFileRecyclebinTrashRequest { file_id: r.file_id, ..self }),
    {
        AdriveOpenFileRecyclebinTrashRequest { file_id: OptionParam(Some(String::from_str(file_id))), ..self }
    }

    /// The endpoint of this request.
    pub fn url(&self) -> (r: String)
        ensures
            r@ == self.api_host@ + "/adrive/v1.0/openFile/recyclebin/trash"@,
    {
        joined(self.api_host.as_str(), "/adrive/v1.0/openFile/recyclebin/trash")
    }

    /// The body to send; fails, before any network call, on the first missing required parameter.
    pub fn post(&self) -> (r: Result<AdriveOpenFileRecyclebinTrashPost, AlipanError>)
        ensures
            match self.missing_param() {
                Some(name) => r is Err && is_missing(r->Err_0.inner, name),
                None => r is Ok && r->Ok_0.carries(*self),
            },
    {
        let drive_id = match &self.drive_id.0 {
            Some(v) => v.clone(),
            None => {
                return Err(AlipanError::require_param_missing("drive_id"));
            },
        };
        let file_id = match &self.file_id.0 {
            Some(v) => v.clone(),
            None => {
                return Err(AlipanError::require_param_missing("file_id"));
            },
        };
        Ok(AdriveOpenFileRecyclebinTrashPost {
            drive_id,
            file_id,
        })
    }
}

/// Body of [`AdriveOpenFileAsyncTaskGetRequest`].
#[derive(Debug)]
pub struct AdriveOpenFileAsyncTaskGetPost {
    pub async_task_id: String,
}

/// Polls a server-side task (a copy or a delete of a folder).
#[derive(Debug)]
pub struct AdriveOpenFileAsyncTaskGetRequest {
    pub api_host: String,
    pub async_task_id: OptionParam<String>,
}

impl AdriveOpenFileAsyncTaskGetPost {
    /// Whether this body carries the parameters of `req`.
    pub open spec fn carries(self, req: AdriveOpenFileAsyncTaskGetRequest) -> bool {
        &&& self.async_task_id == req.async_task_id.0->0
    }
}

impl AdriveOpenFileAsyncTaskGetRequest {
    /// The first required parameter that is not set, if any.
    pub open spec fn missing_param(self) -> Option<Seq<char>> {
        if self.async_task_id.0 is None {
            Some("async_task_id"@)
        } else {
            None
        }
    }

    /// A request with no parameter set.
    pub fn new(api_host: &str) -> (r: Self)
        ensures
            r.api_host@ == api_host@,
            r.async_task_id.0 is None,
    {
        AdriveOpenFileAsyncTaskGetRequest {
            api_host: String::from_str(api_host),
            async_task_id: OptionParam(None),
        }
    }

    pub fn api_host(self, api_host: &str) -> (r: Self)
        ensures
            r.api_host@ == api_host@,
            r == (AdriveOpenFileAsyncTaskGetRequest { api_host: r.api_host, ..self }),
    {
        AdriveOpenFileAsyncTaskGetRequest { api_host: String::from_str(api_host), ..self }
    }

    pub fn async_task_id(self, async_task_id: &str) -> (r: Self)
        ensures
            r.async_task_id.0 is Some && r.async_task_id.0->0@ == async_task_id@,
            r == (AdriveOpenFileAsyncTaskGetRequest { async_task_id: r.async_task_id, ..self }),
    {
        AdriveOpenFileAsyncTaskGetRequest { async_task_id: OptionParam(Some(String::from_str(async_task_id))), ..self }
    }

    /// The endpoint of this request.
    pub fn url(&self) -> (r: String)
        ensures
            r@ == self.api_host@ + "/adrive/v1.0/openFile/async_task/get"@,
    {
        joined(self.api_host.as_str(), "/adrive/v1.0/openFile/async_task/get")
    }

    /// The body to send; fails, before any network call, on the first missing required parameter.
    pub fn post(&self) -> (r: Result<AdriveOpenFileAsyncTaskGetPost, AlipanError>)
        ensures
            match self.missing_param() {
                Some(name) => r is Err && is_missing(r->Err_0.inner, name),
                None => r is Ok && r->Ok_0.carries(*self),
            },
    {
        let async_task_id = match &self.async_task_id.0 {
            Some(v) => v.clone(),
            None => {
                return Err(AlipanError::require_param_missing("async_task_id"));
            },
        };
        Ok(AdriveOpenFileAsyncTaskGetPost {
            async_task_id,
        })
    }
}

/// Body of [`AdriveOpenFileGetUploadUrlRequest`].
#[derive(Debug)]
pub struct AdriveOpenFileGetUploadUrlRequestPost {
    pub drive_id: Option<String>,
    pub file_id: Option<String>,
    pub upload_id: Option<String>,
    pub part_info_list: Option<Vec<AdriveOpenFilePartInfo>>,
}

/// Asks for fresh signed upload URLs of parts of an open upload.
#[derive(Debug)]
pub struct AdriveOpenFileGetUploadUrlRequest {
    pub api_host: String,
    pub drive_id: OptionParam<String>,
    pub file_id: OptionParam<String>,
    pub upload_id: OptionParam<String>,
    pub part_info_list: OptionParam<Vec<AdriveOpenFilePartInfo>>,
}

impl AdriveOpenFileGetUploadUrlRequestPost {
    /// Whether this body carries the parameters of `req`.
    pub open spec fn carries(self, req: AdriveOpenFileGetUploadUrlRequest) -> bool {
        &&& self.drive_id == req.drive_id.0
        &&& self.file_id == req.file_id.0
        &&& self.upload_id == req.upload_id.0
        &&& (self.part_info_list is Some <==> req.part_info_list.0 is Some)
        &&& (self.part_info_list is Some ==> self.part_info_list->0@ == req.part_info_list.0->0@)
    }
}

impl AdriveOpenFileGetUploadUrlRequest {
    /// The first required parameter that is not set, if any.
    pub open spec fn missing_param(self) -> Option<Seq<char>> {
        None
    }

    /// A request with no parameter set.
    pub fn new(api_host: &str) -> (r: Self)
        ensures
            r.api_host@ == api_host@,
            r.drive_id.0 is None,
            r.file_id.0 is None,
            r.upload_id.0 is None,
            r.part_info_list.0 is None,
    {
        AdriveOpenFileGetUploadUrlRequest {
            api_host: String::from_str(api_host),
            drive_id: OptionParam(None),
            file_id: OptionParam(None),
            upload_id: OptionParam(None),
            part_info_list: OptionParam(None),
        }
    }

    pub fn api_host(self, api_host: &str) -> (r: Self)
        ensures
            r.api_host@ == api_host@,
            r == (AdriveOpenFileGetUploadUrlRequest { api_host: r.api_host, ..self }),
    {
        AdriveOpenFileGetUploadUrlRequest { api_host: String::from_str(api_host), ..self }
    }

    pub fn drive_id(self, drive_id: &str) -> (r: Self)
        ensures
            r.drive_id.0 is Some && r.drive_id.0->0@ == drive_id@,
            r == (AdriveOpenFileGetUploadUrlRequest { drive_id: r.drive_id, ..self }),
    {
        AdriveOpenFileGetUploadUrlRequest { drive_id: OptionParam(Some(String::from_str(drive_id))), ..self }
    }

    pub fn file_id(self, file_id: &str) -> (r: Self)
        ensures
            r.file_id.0 is Some && r.file_id.0->0@ == file_id@,
            r == (AdriveOpenFileGetUploadUrlRequest { file_id: r.file_id, ..self }),
    {
        AdriveOpenFileGetUploadUrlRequest { file_id: OptionParam(Some(String::from_str(file_id))), ..self }
    }

    pub fn upload_id(self, upload_id: &str) -> (r: Self)
        ensures
            r.upload_id.0 is Some && r.upload_id.0->0@ == upload_id@,
            r == (AdriveOpenFileGetUploadUrlRequest { upload_id: r.upload_id, ..self }),
    {
        AdriveOpenFileGetUploadUrlRequest { upload_id: OptionParam(Some(String::from_str(upload_id))), ..self }
    }

    pub fn part_info_list(self, part_info_list: Vec<AdriveOpenFilePartInfo>) -> (r: Self)
        ensures
            r == (AdriveOpenFileGetUploadUrlRequest { part_info_list: OptionParam(Some(part_info_list)), ..self }),
    {
        AdriveOpenFileGetUploadUrlRequest { part_info_list: OptionParam(Some(part_info_list)), ..self }
    }

    /// The endpoint of this request.
    pub fn url(&self) -> (r: String)
        ensures
            r@ == self.api_host@ + "/adrive/v1.0/openFile/getUploadUrl"@,
    {
        joined(self.api_host.as_str(), "/adrive/v1.0/openFile/getUploadUrl")
    }

    /// The body to send; fails, before any network call, on the first missing required parameter.
    pub fn post(&self) -> (r: Result<AdriveOpenFileGetUploadUrlRequestPost, AlipanError>)
        ensures
            match self.missing_param() {
                Some(name) => r is Err && is_missing(r->Err_0.inner, name),
                None => r is Ok && r->Ok_0.carries(*self),
            },
    {
        let drive_id = copy_opt_string(&self.drive_id.0);
        let file_id = copy_opt_string(&self.file_id.0);
        let upload_id = copy_opt_string(&self.upload_id.0);
        let part_info_list = match &self.part_info_list.0 {
            Some(v) => Some(copy_parts(v)),
            None => None,
        };
        Ok(AdriveOpenFileGetUploadUrlRequestPost {
            drive_id,
            file_id,
            upload_id,
            part_info_list,
        })
    }
}

/// Body of [`AdriveOpenFileBatchGetRequest`].
#[derive(Debug)]
pub struct AdriveOpenFileBatchGetRequestPost {
    pub file_list: Vec<AdriveOpenFileBatchGetRequestFileList>,
    pub video_thumbnail_time: Option<i64>,
    pub video_thumbnail_width: Option<i64>,
    pub image_thumbnail_width: Option<i64>,
}

/// Fetches the details of several files at once.
#[derive(Debug)]
pub struct AdriveOpenFileBatchGetRequest {
    pub api_host: String,
    pub file_list: Vec<AdriveOpenFileBatchGetRequestFileList>,
    pub video_thumbnail_time: OptionParam<i64>,
    pub video_thumbnail_width: OptionParam<i64>,
    pub image_thumbnail_width: OptionParam<i64>,
}

impl AdriveOpenFileBatchGetRequestPost {
    /// Whether this body carries the parameters of `req`.
    pub open spec fn carries(self, req: AdriveOpenFileBatchGetRequest) -> bool {
        &&& same_file_lists(self.file_list@, req.file_list@)
        &&& self.video_thumbnail_time == req.video_thumbnail_time.0
        &&& self.video_thumbnail_width == req.video_thumbnail_width.0
        &&& self.image_thumbnail_width == req.image_thumbnail_width.0
    }
}

impl AdriveOpenFileBatchGetRequest {
    /// The first required parameter that is not set, if any.
    pub open spec fn missing_param(self) -> Option<Seq<char>> {
        None
    }

    /// A request with no parameter set.
    pub fn new(api_host: &str) -> (r: Self)
        ensures
            r.api_host@ == api_host@,
            r.file_list@.len() == 0,
            r.video_thumbnail_time.0 is None,
            r.video_thumbnail_width.0 is None,
            r.image_thumbnail_width.0 is None,
    {
        AdriveOpenFileBatchGetRequest {
            api_host: String::from_str(api_host),
            file_list: Vec::new(),
            video_thumbnail_time: OptionParam(None),
            video_thumbnail_width: OptionParam(None),
            image_thumbnail_width: OptionParam(None),
        }
    }

    pub fn api_host(self, api_host: &str) -> (r: Self)
        ensures
            r.api_host@ == api_host@,
            r == (AdriveOpenFileBatchGetRequest { api_host: r.api_host, ..self }),
    {
        AdriveOpenFileBatchGetRequest { api_host: String::from_str(api_host), ..self }
    }

    pub fn file_list(self, file_list: Vec<AdriveOpenFileBatchGetRequestFileList>) -> (r: Self)
        ensures
            r == (AdriveOpenFileBatchGetRequest { file_list, ..self }),
    {
        AdriveOpenFileBatchGetRequest { file_list: file_list, ..self }
    }

    pub fn video_thumbnail_time(self, video_thumbnail_time: i64) -> (r: Self)
        ensures
            r == (AdriveOpenFileBatchGetRequest { video_thumbnail_time: OptionParam(Some(video_thumbnail_time)), ..self }),
    {
        AdriveOpenFileBatchGetRequest { video_thumbnail_time: OptionParam(Some(video_thumbnail_time)), ..self }
    }

    pub fn video_thumbnail_width(self, video_thumbnail_width: i64) -> (r: Self)
        ensures
            r == (AdriveOpenFileBatchGetRequest { video_thumbnail_width: OptionParam(Some(video_thumbnail_width)), ..self }),
    {
        AdriveOpenFileBatchGetRequest { video_thumbnail_width: OptionParam(Some(video_thumbnail_width)), ..self }
    }

    pub fn image_thumbnail_width(self, image_thumbnail_width: i64) -> (r: Self)
        ensures
            r == (AdriveOpenFileBatchGetRequest { image_thumbnail_width: OptionParam(Some(image_thumbnail_width)), ..self }),
    {
        AdriveOpenFileBatchGetRequest { image_thumbnail_width: OptionParam(Some(image_thumbnail_width)), ..self }
    }

    /// The endpoint of this request.
    pub fn url(&self) -> (r: String)
        ensures
            r@ == self.api_host@ + "/adrive/v1.0/openFile/batch/get"@,
    {
        joined(self.api_host.as_str(), "/adrive/v1.0/openFile/batch/get")
    }

    /// The body to send; fails, before any network call, on the first missing required parameter.
    pub fn post(&self) -> (r: Result<AdriveOpenFileBatchGetRequestPost, AlipanError>)
        ensures
            match self.missing_param() {
                Some(name) => r is Err && is_missing(r->Err_0.inner, name),
                None => r is Ok && r->Ok_0.carries(*self),
            },
    {
        let file_list = copy_file_list(&self.file_list);
        let video_thumbnail_time = self.video_thumbnail_time.0;
        let video_thumbnail_width = self.video_thumbnail_width.0;
        let image_thumbnail_width = self.image_thumbnail_width.0;
        Ok(AdriveOpenFileBatchGetRequestPost {
            file_list,
            video_thumbnail_time,
            video_thumbnail_width,
            image_thumbnail_width,
        })
    }
}

/// Fetches the drives of the user.
#[derive(Debug)]
pub struct AdriveUserGetDriveInfoRequest {
    pub api_host: String,
}

impl AdriveUserGetDriveInfoRequest {
    pub fn new(api_host: &str) -> (r: Self)
        ensures
            r.api_host@ == api_host@,
    {
        AdriveUserGetDriveInfoRequest { api_host: String::from_str(api_host) }
    }

    pub fn api_host(self, api_host: &str) -> (r: Self)
        ensures
            r.api_host@ == api_host@,
    {
        AdriveUserGetDriveInfoRequest { api_host: String::from_str(api_host) }
    }

    /// The endpoint of this request.
    pub fn url(&self) -> (r: String)
        ensures
            r@ == self.api_host@ + "/adrive/v1.0/user/getDriveInfo"@,
    {
        joined(self.api_host.as_str(), "/adrive/v1.0/user/getDriveInfo")
    }
}

/// Fetches the used and total space.
#[derive(Debug)]
pub struct AdriveUserGetSpaceInfoRequest {
    pub api_host: String,
}

impl AdriveUserGetSpaceInfoRequest {
    pub fn new(api_host: &str) -> (r: Self)
        ensures
            r.api_host@ == api_host@,
    {
        AdriveUserGetSpaceInfoRequest { api_host: String::from_str(api_host) }
    }

    pub fn api_host(self, api_host: &str) -> (r: Self)
        ensures
            r.api_host@ == api_host@,
    {
        AdriveUserGetSpaceInfoRequest { api_host: String::from_str(api_host) }
    }

    /// The endpoint of this request.
    pub fn url(&self) -> (r: String)
        ensures
            r@ == self.api_host@ + "/adrive/v1.0/user/getSpaceInfo"@,
    {
        joined(self.api_host.as_str(), "/adrive/v1.0/user/getSpaceInfo")
    }
}

/// Fetches the membership of the user.
#[derive(Debug)]
pub struct UserGetVipInfoRequest {
    pub api_host: String,
}

impl UserGetVipInfoRequest {
    pub fn new(api_host: &str) -> (r: Self)
        ensures
            r.api_host@ == api_host@,
    {
        UserGetVipInfoRequest { api_host: String::from_str(api_host) }
    }

    pub fn api_host(self, api_host: &str) -> (r: Self)
        ensures
            r.api_host@ == api_host@,
    {
        UserGetVipInfoRequest { api_host: String::from_str(api_host) }
    }

    /// The endpoint of this request.
    pub fn url(&self) -> (r: String)
        ensures
            r@ == self.api_host@ + "/v1.0/user/getVipInfo"@,
    {
        joined(self.api_host.as_str(), "/v1.0/user/getVipInfo")
    }
}

/// Fetches the profile of the user.
#[derive(Debug)]
pub struct OauthUsersInfoRequest {
    pub api_host: String,
}

impl OauthUsersInfoRequest {
    pub fn new(api_host: &str) -> (r: Self)
        ensures
            r.api_host@ == api_host@,
    {
        OauthUsersInfoRequest { api_host: String::from_str(api_host) }
    }

    pub fn api_host(self, api_host: &str) -> (r: Self)
        ensures
            r.api_host@ == api_host@,
    {
        OauthUsersInfoRequest { api_host: String::from_str(api_host) }
    }

    /// The endpoint of this request.
    pub fn url(&self) -> (r: String)
        ensures
            r@ == self.api_host@ + "/oauth/users/info"@,
    {
        joined(self.api_host.as_str(), "/oauth/users/info")
    }
}

/// Fetches the scopes the user granted.
#[derive(Debug)]
pub struct OauthUsersScopesRequest {
    pub api_host: String,
}

impl OauthUsersScopesRequest {
    pub fn new(api_host: &str) -> (r: Self)
        ensures
            r.api_host@ == api_host@,
    {
        OauthUsersScopesRequest { api_host: String::from_str(api_host) }
    }

    pub fn api_host(self, api_host: &str) -> (r: Self)
        ensures
            r.api_host@ == api_host@,
    {
        OauthUsersScopesRequest { api_host: String::from_str(api_host) }
    }

    /// The endpoint of this request.
    pub fn url(&self) -> (r: String)
        ensures
            r@ == self.api_host@ + "/oauth/users/scopes"@,
    {
        joined(self.api_host.as_str(), "/oauth/users/scopes")
    }
}

/// Body of [`UserGetVipInfoRequest`]: empty.
#[derive(Debug)]
pub struct UserGetVipInfoPost {}

} // verus!
