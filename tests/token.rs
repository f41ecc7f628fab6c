use alipan::oauth::OauthAccessTokenRequest;
use alipan::token::{
    complete_refresh, decide_token, AccessToken, AccessTokenStore, InMemoryAccessTokenStore, OauthAccessToken, TokenDecision,
    UninitializedAccessTokenLoader,
};

fn token(created_at: i64, expires_in: i64) -> AccessToken {
    AccessToken {
        access_token: "at".to_string(),
        token_type: "Bearer".to_string(),
        expires_in,
        refresh_token: "rt".to_string(),
        created_at,
    }
}

fn exchanged() -> OauthAccessToken {
    OauthAccessToken {
        token_type: "Bearer".to_string(),
        access_token: "at2".to_string(),
        refresh_token: "rt2".to_string(),
        expires_in: 7200,
    }
}

#[test]
fn young_token_is_used_as_is() {
    let t = token(1000, 7200);
    assert!(t.is_fresh(1000 + 5399));
    match decide_token(Some(t.clone()), 1000 + 5399) {
        TokenDecision::Fresh(kept) => {
            assert_eq!(kept.access_token, "at");
            assert_eq!(kept.created_at, 1000);
            assert_eq!(kept.expires_in, 7200);
            assert_eq!(kept.refresh_token, "rt");
        }
        _ => panic!("expected the stored token"),
    }
}

#[test]
fn old_token_is_refreshed_and_newer() {
    let t = token(1000, 7200);
    assert!(!t.is_fresh(1000 + 5400));
    match decide_token(Some(t), 1000 + 5400) {
        TokenDecision::Refresh(refresh) => assert_eq!(refresh, "rt"),
        _ => panic!("expected a refresh"),
    }
    let minted = AccessToken::wrap_oauth_token_at(exchanged(), 1000 + 5400);
    assert_eq!(minted.created_at, 6400);
    assert_eq!(minted.access_token, "at2");
    assert_eq!(minted.refresh_token, "rt2");
    assert_eq!(minted.expires_in, 7200);
    assert!(minted.created_at > 1000);
}

#[test]
fn threshold_rounds_toward_zero() {
    // 3/4 of 10 seconds is 7 (7.5 rounded toward zero).
    assert!(token(0, 10).is_fresh(6));
    assert!(!token(0, 10).is_fresh(7));
    // A negative lifetime gives a negative threshold: -6 for -8.
    assert!(token(0, -8).is_fresh(-7));
    assert!(!token(0, -8).is_fresh(-6));
    assert!(!token(0, 0).is_fresh(0));
    assert!(token(i64::MIN, i64::MAX).is_fresh(i64::MIN));
    assert!(!token(i64::MIN, i64::MAX).is_fresh(i64::MAX));
}

#[test]
fn empty_store_gives_no_token() {
    assert!(matches!(decide_token(None, 5), TokenDecision::NoToken));
    let store = InMemoryAccessTokenStore::new();
    assert!(store.get_access_token().unwrap().is_none());
}

#[test]
fn in_memory_store_overwrites() {
    let mut store = InMemoryAccessTokenStore::default();
    store.set_access_token(token(1, 2)).unwrap();
    store.set_access_token(token(3, 4)).unwrap();
    let held = store.get_access_token().unwrap().unwrap();
    assert_eq!((held.created_at, held.expires_in), (3, 4));
}

#[test]
fn wrap_uses_the_clock() {
    let minted = AccessToken::wrap_oauth_token(exchanged());
    assert!(minted.created_at > 1_600_000_000);
    assert_eq!(minted.access_token, "at2");
}

#[test]
fn uninitialized_loader_fails() {
    assert!(UninitializedAccessTokenLoader.get_access_token().is_err());
}

#[test]
fn refresh_exchange_form() {
    let request = OauthAccessTokenRequest::for_refresh("https://h", "cid", "secret", "rt");
    let form = request.form().unwrap();
    let pairs: Vec<(&str, &str)> = form.iter().map(|(k, v)| (k.as_str(), v.as_str())).collect();
    assert_eq!(
        pairs,
        vec![("client_id", "cid"), ("client_secret", "secret"), ("refresh_token", "rt"), ("grant_type", "refresh_token")]
    );
    assert_eq!(request.url(), "https://h/oauth/access_token");
}

#[test]
fn refresh_writes_the_new_record_back() {
    let mut store = InMemoryAccessTokenStore::new();
    store.set_access_token(token(1000, 7200)).unwrap();
    let minted = complete_refresh(&mut store, exchanged(), 6400).unwrap();
    assert_eq!((minted.access_token.as_str(), minted.created_at), ("at2", 6400));
    let held = store.get_access_token().unwrap().unwrap();
    assert_eq!((held.access_token.as_str(), held.refresh_token.as_str(), held.created_at), ("at2", "rt2", 6400));
}
