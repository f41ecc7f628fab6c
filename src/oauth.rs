use crate::common::{copy_opt_string, joined, pairs_view, push_pair, grant_type_text, GrantType, OptionParam};
use crate::error::{is_missing, AlipanError, ErrorInfo};
use crate::token::OauthAccessToken;
use vstd::prelude::*;

verus! {

/// Whether `text` parses as an absolute URL.
pub uninterp spec fn url_parses(text: Seq<char>) -> bool;

/// The text of the URL made from `base` by setting its path to `path` and appending the
/// `pairs`, form-encoded, to its query.
pub uninterp spec fn url_with_query(base: Seq<char>, path: Seq<char>, pairs: Seq<(Seq<char>, Seq<char>)>) -> Seq<char>;

/// Characters of the pairs, counting a separator and an `=` for each.
pub open spec fn pairs_text_len(pairs: Seq<(Seq<char>, Seq<char>)>) -> int
    decreases pairs.len(),
{
    if pairs.len() == 0 {
        0
    } else {
        pairs_text_len(pairs.drop_last()) + pairs.last().0.len() + pairs.last().1.len() + 2
    }
}

/// Most characters a URL built here may hold: the url crate keeps byte offsets as `u32`,
/// and a character becomes at most 12 bytes once UTF-8 and percent-encoded.
pub const URL_CHAR_LIMIT: u64 = 357913939;

/// Whether the URL made from these parts stays within the url crate's `u32` offsets.
pub open spec fn url_text_fits(base: Seq<char>, path: Seq<char>, pairs: Seq<(Seq<char>, Seq<char>)>) -> bool {
    base.len() + path.len() + pairs_text_len(pairs) <= URL_CHAR_LIMIT
}

/// Relies on url::Url::parse, url::Url::set_path, Serializer::extend_pairs (reached
/// through url::Url::query_pairs_mut) and the Display impl of url::Url: parses `base`,
/// replaces its path, appends the pairs to its query and serializes the result. Fails
/// only where `base` does not parse; panics only past `u32::MAX` bytes of text, which
/// the `requires` leaves out.
#[verifier::external_body]
fn url_with_query_text(base: &str, path: &str, pairs: &Vec<(String, String)>) -> (r: Result<String, url::ParseError>)
    requires
        url_text_fits(base@, path@, pairs_view(pairs@)),
    ensures
        r is Ok <==> url_parses(base@),
        r is Ok ==> r->Ok_0@ == url_with_query(base@, path@, pairs_view(pairs@)),
{
    let mut url = url::Url::parse(base)?;
    url.set_path(path);
    url.query_pairs_mut().extend_pairs(pairs.iter());
    Ok(url.to_string())
}

proof fn lemma_pairs_text_len_grows(pairs: Seq<(Seq<char>, Seq<char>)>, i: int)
    requires
        0 <= i <= pairs.len(),
    ensures
        0 <= pairs_text_len(pairs.subrange(0, i)) <= pairs_text_len(pairs),
    decreases pairs.len(),
{
    if i < pairs.len() {
        assert(pairs.drop_last().subrange(0, i) =~= pairs.subrange(0, i));
        lemma_pairs_text_len_grows(pairs.drop_last(), i);
    } else {
        assert(pairs.subrange(0, i) =~= pairs);
        if pairs.len() > 0 {
            lemma_pairs_text_len_grows(pairs.drop_last(), i - 1);
            assert(pairs.drop_last().subrange(0, i - 1) =~= pairs.drop_last());
        }
    }
}

/// Whether the URL made from these parts stays within the url crate's limits.
fn url_fits(base: &str, path: &str, pairs: &Vec<(String, String)>) -> (r: bool)
    ensures
        r == url_text_fits(base@, path@, pairs_view(pairs@)),
{
    let ghost view = pairs_view(pairs@);
    let base_len = base.unicode_len() as u64;
    let path_len = path.unicode_len() as u64;
    if base_len > URL_CHAR_LIMIT || path_len > URL_CHAR_LIMIT - base_len {
        proof {
            lemma_pairs_text_len_grows(view, 0);
            assert(view.subrange(0, 0).len() == 0);
        }
        return false;
    }
    let mut total: u64 = base_len + path_len;
    let mut i: usize = 0;
    proof {
        assert(view.subrange(0, 0) =~= Seq::<(Seq<char>, Seq<char>)>::empty());
    }
    while i < pairs.len()
        invariant
            i <= pairs@.len(),
            view == pairs_view(pairs@),
            view.len() == pairs@.len(),
            total <= URL_CHAR_LIMIT,
            total == base@.len() + path@.len() + pairs_text_len(view.subrange(0, i as int)),
        decreases pairs@.len() - i,
    {
        let k = pairs[i].0.as_str().unicode_len() as u64;
        let v = pairs[i].1.as_str().unicode_len() as u64;
        proof {
            assert(view[i as int] == (pairs@[i as int].0@, pairs@[i as int].1@));
            let next = view.subrange(0, i + 1);
            assert(next.drop_last() =~= view.subrange(0, i as int));
            assert(next.last() == view[i as int]);
            lemma_pairs_text_len_grows(view, i + 1);
        }
        if k > URL_CHAR_LIMIT || v > URL_CHAR_LIMIT || k + v + 2 > URL_CHAR_LIMIT - total {
            return false;
        }
        total = total + k + v + 2;
        i = i + 1;
    }
    proof {
        assert(view.subrange(0, i as int) =~= view);
    }
    true
}

/// The pair `(key, value)` when the value is set, else nothing.
pub open spec fn opt_pair(key: Seq<char>, value: Option<String>) -> Seq<(Seq<char>, Seq<char>)> {
    match value {
        Some(v) => seq![(key, v@)],
        None => Seq::empty(),
    }
}

/// Form body of a token exchange, or the name of the missing field.
pub open spec fn access_token_form(r: OauthAccessTokenRequest) -> Result<Seq<(Seq<char>, Seq<char>)>, Seq<char>> {
    let credentials = seq![("client_id"@, r.client_id@), ("client_secret"@, r.client_secret@)];
    match r.grant_type.0 {
        None => Err("grant_type"@),
        Some(GrantType::AuthorizationCode) => match r.code.0 {
            None => Err("code"@),
            Some(code) => Ok(
                credentials.push(("code"@, code@)) + opt_pair("code_verifier"@, r.code_verifier.0) + seq![("grant_type"@, "authorization_code"@)],
            ),
        },
        Some(GrantType::RefreshToken) => match r.refresh_token.0 {
            None => Err("refresh_token"@),
            Some(t) => Ok(credentials.push(("refresh_token"@, t@)).push(("grant_type"@, "refresh_token"@))),
        },
    }
}

/// An OAuth token exchange: authorization code or refresh token for a token.
#[derive(Debug)]
pub struct OauthAccessTokenRequest {
    pub api_host: String,
    /// The application id.
    pub client_id: String,
    /// The application secret.
    pub client_secret: String,
    pub grant_type: OptionParam<GrantType>,
    pub code: OptionParam<String>,
    pub refresh_token: OptionParam<String>,
    pub code_verifier: OptionParam<String>,
}

impl OauthAccessTokenRequest {
    /// An exchange with the given credentials and no grant chosen yet.
    pub fn new(api_host: &str, client_id: &str, client_secret: &str) -> (r: Self)
        ensures
            r.api_host@ == api_host@,
            r.client_id@ == client_id@,
            r.client_secret@ == client_secret@,
            r.grant_type.0 is None,
            r.code.0 is None,
            r.refresh_token.0 is None,
            r.code_verifier.0 is None,
    {
        OauthAccessTokenRequest {
            api_host: String::from_str(api_host),
            client_id: String::from_str(client_id),
            client_secret: String::from_str(client_secret),
            grant_type: OptionParam(None),
            code: OptionParam(None),
            refresh_token: OptionParam(None),
            code_verifier: OptionParam(None),
        }
    }

    /// The refresh-token exchange that the refresh engine issues for a stale token.
    pub fn for_refresh(api_host: &str, client_id: &str, client_secret: &str, refresh_token: &str) -> (r: Self)
        ensures
            access_token_form(r) == Ok::<Seq<(Seq<char>, Seq<char>)>, Seq<char>>(seq![
                ("client_id"@, client_id@),
                ("client_secret"@, client_secret@),
                ("refresh_token"@, refresh_token@),
                ("grant_type"@, "refresh_token"@),
            ]),
            r.api_host@ == api_host@,
    {
        let r = OauthAccessTokenRequest::new(api_host, client_id, client_secret).grant_type(
            GrantType::RefreshToken,
        ).refresh_token(refresh_token);
        assert(access_token_form(r)->Ok_0 =~= seq![
            ("client_id"@, client_id@),
            ("client_secret"@, client_secret@),
            ("refresh_token"@, refresh_token@),
            ("grant_type"@, "refresh_token"@),
        ]);
        r
    }

    pub fn api_host(self, api_host: &str) -> (r: Self)
        ensures
            r.api_host@ == api_host@,
            r == (OauthAccessTokenRequest { api_host: r.api_host, ..self }),
    {
        OauthAccessTokenRequest { api_host: String::from_str(api_host), ..self }
    }

    pub fn client_id(self, client_id: &str) -> (r: Self)
        ensures
            r.client_id@ == client_id@,
            r == (OauthAccessTokenRequest { client_id: r.client_id, ..self }),
    {
        OauthAccessTokenRequest { client_id: String::from_str(client_id), ..self }
    }

    pub fn client_secret(self, client_secret: &str) -> (r: Self)
        ensures
            r.client_secret@ == client_secret@,
            r == (OauthAccessTokenRequest { client_secret: r.client_secret, ..self }),
    {
        OauthAccessTokenRequest { client_secret: String::from_str(client_secret), ..self }
    }

    pub fn grant_type(self, grant_type: GrantType) -> (r: Self)
        ensures
            r == (OauthAccessTokenRequest { grant_type: OptionParam(Some(grant_type)), ..self }),
    {
        OauthAccessTokenRequest { grant_type: OptionParam(Some(grant_type)), ..self }
    }

    pub fn code(self, code: &str) -> (r: Self)
        ensures
            r.code.0 is Some && r.code.0->0@ == code@,
            r == (OauthAccessTokenRequest { code: r.code, ..self }),
    {
        OauthAccessTokenRequest { code: OptionParam(Some(String::from_str(code))), ..self }
    }

    pub fn refresh_token(self, refresh_token: &str) -> (r: Self)
        ensures
            r.refresh_token.0 is Some && r.refresh_token.0->0@ == refresh_token@,
            r == (OauthAccessTokenRequest { refresh_token: r.refresh_token, ..self }),
    {
        OauthAccessTokenRequest { refresh_token: OptionParam(Some(String::from_str(refresh_token))), ..self }
    }

    pub fn code_verifier(self, code_verifier: &str) -> (r: Self)
        ensures
            r.code_verifier.0 is Some && r.code_verifier.0->0@ == code_verifier@,
            r == (OauthAccessTokenRequest { code_verifier: r.code_verifier, ..self }),
    {
        OauthAccessTokenRequest { code_verifier: OptionParam(Some(String::from_str(code_verifier))), ..self }
    }

    /// The token endpoint.
    pub fn url(&self) -> (r: String)
        ensures
            r@ == self.api_host@ + "/oauth/access_token"@,
    {
        joined(self.api_host.as_str(), "/oauth/access_token")
    }

    /// The form body of the exchange; fails, before any network call, when the chosen
    /// grant lacks its field.
    pub fn form(&self) -> (r: Result<Vec<(String, String)>, AlipanError>)
        ensures
            match access_token_form(*self) {
                Ok(pairs) => r is Ok && pairs_view(r->Ok_0@) == pairs,
                Err(name) => r is Err && is_missing(r->Err_0.inner, name),
            },
    {
        let mut form: Vec<(String, String)> = Vec::new();
        push_pair(&mut form, "client_id", self.client_id.as_str());
        push_pair(&mut form, "client_secret", self.client_secret.as_str());
        let grant = match self.grant_type.0 {
            Some(g) => g,
            None => {
                return Err(AlipanError::require_param_missing("grant_type"));
            },
        };
        match grant {
            GrantType::AuthorizationCode => {
                match &self.code.0 {
                    Some(code) => push_pair(&mut form, "code", code.as_str()),
                    None => {
                        return Err(AlipanError::require_param_missing("code"));
                    },
                }
                let ghost before_verifier = pairs_view(form@);
                match &self.code_verifier.0 {
                    Some(v) => push_pair(&mut form, "code_verifier", v.as_str()),
                    None => {},
                }
                push_pair(&mut form, "grant_type", grant.as_str());
                assert(pairs_view(form@) =~= before_verifier + opt_pair("code_verifier"@, self.code_verifier.0)
                    + seq![("grant_type"@, grant_type_text(grant))]);
            },
            GrantType::RefreshToken => {
                match &self.refresh_token.0 {
                    Some(t) => push_pair(&mut form, "refresh_token", t.as_str()),
                    None => {
                        return Err(AlipanError::require_param_missing("refresh_token"));
                    },
                }
                push_pair(&mut form, "grant_type", grant.as_str());
            },
        }
        Ok(form)
    }
}

/// Text of a boolean query value.
pub open spec fn bool_text(b: bool) -> Seq<char> {
    if b { "true"@ } else { "false"@ }
}

pub fn bool_str(b: bool) -> (r: &'static str)
    ensures
        r@ == bool_text(b),
{
    if b { "true" } else { "false" }
}

/// The first required field of an authorize URL that is empty, if any.
pub open spec fn authorize_missing(u: OauthAuthorizeUrl) -> Option<Seq<char>> {
    if u.client_id@.len() == 0 {
        Some("client_id"@)
    } else if u.redirect_uri@.len() == 0 {
        Some("redirect_uri"@)
    } else if u.scope@.len() == 0 {
        Some("scope"@)
    } else {
        None
    }
}

/// The query of an authorize URL, in order; the optional fields only where set.
pub open spec fn authorize_query(u: OauthAuthorizeUrl) -> Seq<(Seq<char>, Seq<char>)> {
    seq![
        ("client_id"@, u.client_id@),
        ("redirect_uri"@, u.redirect_uri@),
        ("scope"@, u.scope@),
        ("response_type"@, u.response_type@),
    ] + opt_pair("state"@, u.state) + match u.relogin {
        Some(b) => seq![("relogin"@, bool_text(b))],
        None => Seq::empty(),
    } + opt_pair("drive"@, u.drive)
}

/// The browser URL where a user grants the application access.
#[derive(Debug)]
pub struct OauthAuthorizeUrl {
    pub api_host: String,
    /// The application id.
    pub client_id: String,
    /// Where the browser is sent back with the authorization code.
    pub redirect_uri: String,
    /// Requested scopes, comma separated.
    pub scope: String,
    /// Only "code" is supported.
    pub response_type: String,
    /// Echoed back on the redirect, against request forgery.
    pub state: Option<String>,
    /// Forces a fresh login.
    pub relogin: Option<bool>,
    /// Required drives, comma separated ("backup", "resource").
    pub drive: Option<String>,
}

impl OauthAuthorizeUrl {
    /// An authorize URL for the application, with response type "code" and nothing else set.
    pub fn new(api_host: &str, client_id: &str) -> (r: Self)
        ensures
            r.api_host@ == api_host@,
            r.client_id@ == client_id@,
            r.redirect_uri@.len() == 0,
            r.scope@.len() == 0,
            r.response_type@ == "code"@,
            r.state is None,
            r.relogin is None,
            r.drive is None,
    {
        OauthAuthorizeUrl {
            api_host: String::from_str(api_host),
            client_id: String::from_str(client_id),
            redirect_uri: String::new(),
            scope: String::new(),
            response_type: String::from_str("code"),
            state: None,
            relogin: None,
            drive: None,
        }
    }

    pub fn api_host(self, api_host: &str) -> (r: Self)
        ensures
            r.api_host@ == api_host@,
            r == (OauthAuthorizeUrl { api_host: r.api_host, ..self }),
    {
        OauthAuthorizeUrl { api_host: String::from_str(api_host), ..self }
    }

    pub fn client_id(self, client_id: &str) -> (r: Self)
        ensures
            r.client_id@ == client_id@,
            r == (OauthAuthorizeUrl { client_id: r.client_id, ..self }),
    {
        OauthAuthorizeUrl { client_id: String::from_str(client_id), ..self }
    }

    pub fn redirect_uri(self, redirect_uri: &str) -> (r: Self)
        ensures
            r.redirect_uri@ == redirect_uri@,
            r == (OauthAuthorizeUrl { redirect_uri: r.redirect_uri, ..self }),
    {
        OauthAuthorizeUrl { redirect_uri: String::from_str(redirect_uri), ..self }
    }

    pub fn scope(self, scope: &str) -> (r: Self)
        ensures
            r.scope@ == scope@,
            r == (OauthAuthorizeUrl { scope: r.scope, ..self }),
    {
        OauthAuthorizeUrl { scope: String::from_str(scope), ..self }
    }

    pub fn response_type(self, response_type: &str) -> (r: Self)
        ensures
            r.response_type@ == response_type@,
            r == (OauthAuthorizeUrl { response_type: r.response_type, ..self }),
    {
        OauthAuthorizeUrl { response_type: String::from_str(response_type), ..self }
    }

    pub fn state(self, state: &str) -> (r: Self)
        ensures
            r.state is Some && r.state->0@ == state@,
            r == (OauthAuthorizeUrl { state: r.state, ..self }),
    {
        OauthAuthorizeUrl { state: Some(String::from_str(state)), ..self }
    }

    pub fn relogin(self, relogin: bool) -> (r: Self)
        ensures
            r == (OauthAuthorizeUrl { relogin: Some(relogin), ..self }),
    {
        OauthAuthorizeUrl { relogin: Some(relogin), ..self }
    }

    pub fn drive(self, drive: &str) -> (r: Self)
        ensures
            r.drive is Some && r.drive->0@ == drive@,
            r == (OauthAuthorizeUrl { drive: r.drive, ..self }),
    {
        OauthAuthorizeUrl { drive: Some(String::from_str(drive)), ..self }
    }

    /// The query pairs of the URL, in the order they are appended.
    pub fn query_pairs(&self) -> (r: Vec<(String, String)>)
        ensures
            pairs_view(r@) == authorize_query(*self),
    {
        let mut pairs: Vec<(String, String)> = Vec::new();
        push_pair(&mut pairs, "client_id", self.client_id.as_str());
        push_pair(&mut pairs, "redirect_uri", self.redirect_uri.as_str());
        push_pair(&mut pairs, "scope", self.scope.as_str());
        push_pair(&mut pairs, "response_type", self.response_type.as_str());
        let ghost fixed = pairs_view(pairs@);
        match &self.state {
            Some(s) => push_pair(&mut pairs, "state", s.as_str()),
            None => {},
        }
        let ghost with_state = pairs_view(pairs@);
        match self.relogin {
            Some(b) => push_pair(&mut pairs, "relogin", bool_str(b)),
            None => {},
        }
        let ghost with_relogin = pairs_view(pairs@);
        match &self.drive {
            Some(d) => push_pair(&mut pairs, "drive", d.as_str()),
            None => {},
        }
        proof {
            let s1 = opt_pair("state"@, self.state);
            let s2 = match self.relogin {
                Some(b) => seq![("relogin"@, bool_text(b))],
                None => Seq::<(Seq<char>, Seq<char>)>::empty(),
            };
            let s3 = opt_pair("drive"@, self.drive);
            assert(with_state =~= fixed + s1);
            assert(with_relogin =~= fixed + s1 + s2);
            assert(pairs_view(pairs@) =~= fixed + s1 + s2 + s3);
        }
        pairs
    }

    /// The authorize URL: the host with path `/oauth/authorize` and the query pairs
    /// form-encoded. Fails with the first missing required field, when the URL would pass
    /// the url crate's size limit, or when the host does not parse as a URL.
    pub fn build(&self) -> (r: Result<String, AlipanError>)
        ensures
            authorize_missing(*self) is Some ==> r is Err && is_missing(
                r->Err_0.inner,
                authorize_missing(*self)->0,
            ),
            authorize_missing(*self) is None && !url_text_fits(
                self.api_host@,
                "/oauth/authorize"@,
                authorize_query(*self),
            ) ==> r is Err && r->Err_0.inner is Msg,
            authorize_missing(*self) is None && url_text_fits(
                self.api_host@,
                "/oauth/authorize"@,
                authorize_query(*self),
            ) ==> (r is Err <==> !url_parses(self.api_host@)) && (r is Err ==> r->Err_0.inner is UrlParseError)
                && (r is Ok ==> r->Ok_0@ == url_with_query(
                self.api_host@,
                "/oauth/authorize"@,
                authorize_query(*self),
            )),
    {
        if self.client_id.as_str().is_empty() {
            return Err(AlipanError::require_param_missing("client_id"));
        }
        if self.redirect_uri.as_str().is_empty() {
            return Err(AlipanError::require_param_missing("redirect_uri"));
        }
        if self.scope.as_str().is_empty() {
            return Err(AlipanError::require_param_missing("scope"));
        }
        let pairs = self.query_pairs();
        if !url_fits(self.api_host.as_str(), "/oauth/authorize", &pairs) {
            return Err(AlipanError::msg(String::from_str("authorize URL too long")));
        }
        match url_with_query_text(self.api_host.as_str(), "/oauth/authorize", &pairs) {
            Ok(text) => Ok(text),
            Err(e) => Err(AlipanError::new(ErrorInfo::UrlParseError(e))),
        }
    }
}

} // verus!
