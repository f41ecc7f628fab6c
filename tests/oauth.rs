use alipan::common::GrantType;
use alipan::error::ErrorInfo;
use alipan::oauth::{OauthAccessTokenRequest, OauthAuthorizeUrl};

fn missing(e: &ErrorInfo) -> &str {
    match e {
        ErrorInfo::MissingParameter(name) => name.as_str(),
        _ => panic!("expected a missing parameter"),
    }
}

#[test]
fn authorization_code_form() {
    let request = OauthAccessTokenRequest::new("https://h", "cid", "secret")
        .grant_type(GrantType::AuthorizationCode)
        .code("the-code")
        .code_verifier("v");
    let form = request.form().unwrap();
    let pairs: Vec<(&str, &str)> = form.iter().map(|(k, v)| (k.as_str(), v.as_str())).collect();
    assert_eq!(
        pairs,
        vec![
            ("client_id", "cid"),
            ("client_secret", "secret"),
            ("code", "the-code"),
            ("code_verifier", "v"),
            ("grant_type", "authorization_code"),
        ]
    );
}

#[test]
fn token_exchange_missing_fields() {
    let base = || OauthAccessTokenRequest::new("https://h", "cid", "secret");
    assert_eq!(missing(&base().form().unwrap_err().inner), "grant_type");
    assert_eq!(missing(&base().grant_type(GrantType::AuthorizationCode).form().unwrap_err().inner), "code");
    assert_eq!(missing(&base().grant_type(GrantType::RefreshToken).code("c").form().unwrap_err().inner), "refresh_token");
}

#[test]
fn authorize_url_is_encoded() {
    let url = OauthAuthorizeUrl::new("https://openapi.alipan.com", "cid")
        .redirect_uri("http://localhost:58443/oauth_authorize")
        .scope("user:base,file:all:read,file:all:write,album:shared:read")
        .build()
        .unwrap();
    assert_eq!(
        url,
        "https://openapi.alipan.com/oauth/authorize?client_id=cid\
         &redirect_uri=http%3A%2F%2Flocalhost%3A58443%2Foauth_authorize\
         &scope=user%3Abase%2Cfile%3Aall%3Aread%2Cfile%3Aall%3Awrite%2Calbum%3Ashared%3Aread\
         &response_type=code"
    );
}

#[test]
fn authorize_url_optional_fields() {
    let u = OauthAuthorizeUrl::new("https://h.example", "cid")
        .redirect_uri("r")
        .scope("s")
        .state("st")
        .relogin(true)
        .drive("backup,resource");
    let pairs: Vec<(String, String)> = u.query_pairs();
    let keys: Vec<&str> = pairs.iter().map(|(k, _)| k.as_str()).collect();
    assert_eq!(keys, vec!["client_id", "redirect_uri", "scope", "response_type", "state", "relogin", "drive"]);
    assert_eq!(pairs[5].1, "true");
    assert_eq!(
        u.build().unwrap(),
        "https://h.example/oauth/authorize?client_id=cid&redirect_uri=r&scope=s&response_type=code&state=st&relogin=true&drive=backup%2Cresource"
    );
}

#[test]
fn authorize_url_required_fields() {
    let e = OauthAuthorizeUrl::new("https://h", "").redirect_uri("r").scope("s").build().unwrap_err();
    assert_eq!(missing(&e.inner), "client_id");
    let e = OauthAuthorizeUrl::new("https://h", "c").scope("s").build().unwrap_err();
    assert_eq!(missing(&e.inner), "redirect_uri");
    let e = OauthAuthorizeUrl::new("https://h", "c").redirect_uri("r").build().unwrap_err();
    assert_eq!(missing(&e.inner), "scope");
}

#[test]
fn authorize_url_bad_host() {
    let e = OauthAuthorizeUrl::new("not a url", "c").redirect_uri("r").scope("s").build().unwrap_err();
    assert!(matches!(e.inner, ErrorInfo::UrlParseError(_)));
}

#[test]
fn grant_type_text() {
    assert_eq!(GrantType::AuthorizationCode.as_str(), "authorization_code");
    assert_eq!(GrantType::RefreshToken.as_str(), "refresh_token");
}
