use vstd::prelude::*;

verus! {

/// OAuth grant used to obtain a token.
#[derive(Clone, Copy, Debug, PartialEq, Eq, Structural)]
pub enum GrantType {
    AuthorizationCode,
    RefreshToken,
}

pub open spec fn grant_type_text(g: GrantType) -> Seq<char> {
    match g {
        GrantType::AuthorizationCode => "authorization_code"@,
        GrantType::RefreshToken => "refresh_token"@,
    }
}

impl GrantType {
    pub fn as_str(&self) -> (r: &'static str)
        ensures
            r@ == grant_type_text(*self),
    {
        match self {
            GrantType::AuthorizationCode => "authorization_code",
            GrantType::RefreshToken => "refresh_token",
        }
    }
}

#[derive(Clone, Copy, Debug, PartialEq, Eq, Structural)]
pub enum AdriveOpenFileType {
    File,
    Folder,
}

pub open spec fn file_type_text(t: AdriveOpenFileType) -> Seq<char> {
    match t {
        AdriveOpenFileType::File => "file"@,
        AdriveOpenFileType::Folder => "folder"@,
    }
}

impl AdriveOpenFileType {
    pub fn as_str(&self) -> (r: &'static str)
        ensures
            r@ == file_type_text(*self),
    {
        match self {
            AdriveOpenFileType::File => "file",
            AdriveOpenFileType::Folder => "folder",
        }
    }
}

/// What the server does when the target name is taken.
#[derive(Clone, Copy, Debug, PartialEq, Eq, Structural)]
pub enum CheckNameMode {
    AutoRename,
    Refuse,
    Ignore,
}

pub open spec fn check_name_mode_text(m: CheckNameMode) -> Seq<char> {
    match m {
        CheckNameMode::AutoRename => "auto_rename"@,
        CheckNameMode::Refuse => "refuse"@,
        CheckNameMode::Ignore => "ignore"@,
    }
}

impl CheckNameMode {
    pub fn as_str(&self) -> (r: &'static str)
        ensures
            r@ == check_name_mode_text(*self),
    {
        match self {
            CheckNameMode::AutoRename => "auto_rename",
            CheckNameMode::Refuse => "refuse",
            CheckNameMode::Ignore => "ignore",
        }
    }
}

#[derive(Clone, Copy, Debug, PartialEq, Eq, Structural)]
pub enum AdriveAsyncTaskState {
    Succeed,
    Running,
    Failed,
}

pub open spec fn async_task_state_text(s: AdriveAsyncTaskState) -> Seq<char> {
    match s {
        AdriveAsyncTaskState::Succeed => "Succeed"@,
        AdriveAsyncTaskState::Running => "Running"@,
        AdriveAsyncTaskState::Failed => "Failed"@,
    }
}

impl AdriveAsyncTaskState {
    pub fn as_str(&self) -> (r: &'static str)
        ensures
            r@ == async_task_state_text(*self),
    {
        match self {
            AdriveAsyncTaskState::Succeed => "Succeed",
            AdriveAsyncTaskState::Running => "Running",
            AdriveAsyncTaskState::Failed => "Failed",
        }
    }
}

/// A request parameter that the caller may leave unset.
#[derive(Debug)]
pub struct OptionParam<T>(pub Option<T>);

impl<T> OptionParam<T> {
    pub fn is_some(&self) -> (r: bool)
        ensures
            r == self.0 is Some,
    {
        self.0.is_some()
    }

    pub fn is_none(&self) -> (r: bool)
        ensures
            r == self.0 is None,
    {
        self.0.is_none()
    }
}

/// The text of each pair of a list of key/value pairs.
pub open spec fn pairs_view(v: Seq<(String, String)>) -> Seq<(Seq<char>, Seq<char>)> {
    v.map_values(|p: (String, String)| (p.0@, p.1@))
}

/// Appends the pair `(key, value)` to a list of key/value pairs.
pub fn push_pair(pairs: &mut Vec<(String, String)>, key: &str, value: &str)
    ensures
        pairs_view(final(pairs)@) == pairs_view(old(pairs)@).push((key@, value@)),
{
    pairs.push((String::from_str(key), String::from_str(value)));
    assert(pairs_view(pairs@) =~= pairs_view(old(pairs)@).push((key@, value@)));
}

/// `base` followed by `suffix`.
pub fn joined(base: &str, suffix: &str) -> (r: String)
    ensures
        r@ == base@ + suffix@,
{
    String::from_str(base).concat(suffix)
}

/// A copy of an optional string.
pub fn copy_opt_string(o: &Option<String>) -> (r: Option<String>)
    ensures
        r == *o,
{
    match o {
        Some(s) => Some(s.clone()),
        None => None,
    }
}

/// One entry of the part list sent when a file is created: parts are numbered from 1.
#[derive(Clone, Copy, Debug)]
pub struct AdriveOpenFilePartInfo {
    pub part_number: i64,
}

impl AdriveOpenFilePartInfo {
    pub fn part_number(self, part_number: i64) -> (r: Self)
        ensures
            r.part_number == part_number,
    {
        AdriveOpenFilePartInfo { part_number }
    }
}

/// A copy of a part list.
pub fn copy_parts(parts: &Vec<AdriveOpenFilePartInfo>) -> (r: Vec<AdriveOpenFilePartInfo>)
    ensures
        r@ == parts@,
{
    let mut out: Vec<AdriveOpenFilePartInfo> = Vec::new();
    let mut i: usize = 0;
    while i < parts.len()
        invariant
            i <= parts@.len(),
            out@ == parts@.subrange(0, i as int),
        decreases parts@.len() - i,
    {
        out.push(AdriveOpenFilePartInfo { part_number: parts[i].part_number });
        i = i + 1;
        assert(out@ == parts@.subrange(0, i as int));
    }
    assert(parts@.subrange(0, parts@.len() as int) == parts@);
    out
}

/// Description of one stream of a file (content and hash data), sent when creating it.
#[derive(Debug)]
pub struct AdriveOpenFileStreamInfo {
    pub content_hash: String,
    pub content_hash_name: String,
    pub proof_version: String,
    pub proof_code: String,
    pub content_md5: String,
    pub pre_hash: String,
    pub size: i64,
    pub part_info_list: Vec<AdriveOpenFilePartInfo>,
}

impl AdriveOpenFileStreamInfo {
    pub fn content_hash(self, content_hash: &str) -> (r: Self)
        ensures
            r.content_hash@ == content_hash@,
            r == (AdriveOpenFileStreamInfo { content_hash: r.content_hash, ..self }),
    {
        AdriveOpenFileStreamInfo { content_hash: String::from_str(content_hash), ..self }
    }

    pub fn content_hash_name(self, content_hash_name: &str) -> (r: Self)
        ensures
            r.content_hash_name@ == content_hash_name@,
            r == (AdriveOpenFileStreamInfo { content_hash_name: r.content_hash_name, ..self }),
    {
        AdriveOpenFileStreamInfo { content_hash_name: String::from_str(content_hash_name), ..self }
    }

    pub fn proof_version(self, proof_version: &str) -> (r: Self)
        ensures
            r.proof_version@ == proof_version@,
            r == (AdriveOpenFileStreamInfo { proof_version: r.proof_version, ..self }),
    {
        AdriveOpenFileStreamInfo { proof_version: String::from_str(proof_version), ..self }
    }

    pub fn proof_code(self, proof_code: &str) -> (r: Self)
        ensures
            r.proof_code@ == proof_code@,
            r == (AdriveOpenFileStreamInfo { proof_code: r.proof_code, ..self }),
    {
        AdriveOpenFileStreamInfo { proof_code: String::from_str(proof_code), ..self }
    }

    pub fn content_md5(self, content_md5: &str) -> (r: Self)
        ensures
            r.content_md5@ == content_md5@,
            r == (AdriveOpenFileStreamInfo { content_md5: r.content_md5, ..self }),
    {
        AdriveOpenFileStreamInfo { content_md5: String::from_str(content_md5), ..self }
    }

    pub fn pre_hash(self, pre_hash: &str) -> (r: Self)
        ensures
            r.pre_hash@ == pre_hash@,
            r == (AdriveOpenFileStreamInfo { pre_hash: r.pre_hash, ..self }),
    {
        AdriveOpenFileStreamInfo { pre_hash: String::from_str(pre_hash), ..self }
    }

    pub fn size(self, size: i64) -> (r: Self)
        ensures
            r == (AdriveOpenFileStreamInfo { size, ..self }),
    {
        AdriveOpenFileStreamInfo { size, ..self }
    }

    pub fn part_info_list(self, part_info_list: Vec<AdriveOpenFilePartInfo>) -> (r: Self)
        ensures
            r == (AdriveOpenFileStreamInfo { part_info_list, ..self }),
    {
        AdriveOpenFileStreamInfo { part_info_list, ..self }
    }
}

pub open spec fn same_stream(a: AdriveOpenFileStreamInfo, b: AdriveOpenFileStreamInfo) -> bool {
    &&& a.content_hash == b.content_hash
    &&& a.content_hash_name == b.content_hash_name
    &&& a.proof_version == b.proof_version
    &&& a.proof_code == b.proof_code
    &&& a.content_md5 == b.content_md5
    &&& a.pre_hash == b.pre_hash
    &&& a.size == b.size
    &&& a.part_info_list@ == b.part_info_list@
}

pub open spec fn same_streams(a: Seq<AdriveOpenFileStreamInfo>, b: Seq<AdriveOpenFileStreamInfo>) -> bool {
    &&& a.len() == b.len()
    &&& forall|i: int| 0 <= i < a.len() ==> same_stream(#[trigger] a[i], b[i])
}

impl AdriveOpenFileStreamInfo {
    pub fn duplicate(&self) -> (r: Self)
        ensures
            same_stream(r, *self),
    {
        AdriveOpenFileStreamInfo {
            content_hash: self.content_hash.clone(),
            content_hash_name: self.content_hash_name.clone(),
            proof_version: self.proof_version.clone(),
            proof_code: self.proof_code.clone(),
            content_md5: self.content_md5.clone(),
            pre_hash: self.pre_hash.clone(),
            size: self.size,
            part_info_list: copy_parts(&self.part_info_list),
        }
    }
}

/// A copy of a list of stream descriptions.
pub fn copy_streams(v: &Vec<AdriveOpenFileStreamInfo>) -> (r: Vec<AdriveOpenFileStreamInfo>)
    ensures
        same_streams(r@, v@),
{
    let mut out: Vec<AdriveOpenFileStreamInfo> = Vec::new();
    let mut i: usize = 0;
    while i < v.len()
        invariant
            i <= v@.len(),
            out@.len() == i,
            forall|j: int| 0 <= j < i ==> same_stream(#[trigger] out@[j], v@[j]),
        decreases v@.len() - i,
    {
        out.push(v[i].duplicate());
        i = i + 1;
    }
    out
}

} // verus!
