use zellij_web_client::auth::{
    authenticate, get_auth_cache, grant, refuse_unless_valid, Access, Admission, AuthCache,
    IsReadOnly, Refusal, SessionTokenHash, ValidToken, UNAUTHORIZED,
};
use zellij_web_client::cookies::{clear_session_cookies, find_session_token};

const SECOND: u64 = 1_000_000_000;

fn cookies(pairs: &[(&str, &str)]) -> Vec<(String, String)> {
    pairs
        .iter()
        .map(|(name, value)| (name.to_string(), value.to_string()))
        .collect()
}

fn access(is_read_only: bool, hash: &str) -> Access {
    Access {
        is_read_only: IsReadOnly(is_read_only),
        session_token_hash: SessionTokenHash(hash.to_string()),
    }
}

fn valid(cache: &mut AuthCache, token: &str) -> ValidToken {
    let validation: Result<bool, String> = Ok(true);
    refuse_unless_valid(cache, token.to_string(), validation).unwrap()
}

fn granted(cache: &mut AuthCache, token: &str, read_only: bool, hash: &str, now: u64) {
    let token = valid(cache, token);
    let rights: Result<bool, String> = Ok(read_only);
    grant(cache, token, rights, hash.to_string(), now);
}

#[test]
fn both_forms_of_the_session_cookie_are_cleared() {
    assert_eq!(
        clear_session_cookies(),
        vec![
            "session_token=; HttpOnly; SameSite=Strict; Path=/; Max-Age=0",
            "session_token=; HttpOnly; SameSite=Strict; Secure; Path=/; Max-Age=0",
        ]
    );
}

#[test]
fn session_token_is_found_among_other_cookies() {
    assert_eq!(find_session_token(&cookies(&[])), None);
    assert_eq!(find_session_token(&cookies(&[("theme", "dark")])), None);
    assert_eq!(
        find_session_token(&cookies(&[("theme", "dark"), ("session_token", "abc"), ("x", "")])),
        Some("abc".to_string())
    );
    assert_eq!(
        find_session_token(&cookies(&[("session_token", "old"), ("session_token", "new")])),
        Some("new".to_string())
    );
    assert_eq!(
        find_session_token(&cookies(&[("Session_Token", "abc"), ("session_token ", "abc")])),
        None
    );
}

#[test]
fn request_without_token_is_unauthorized() {
    assert_eq!(
        authenticate(&cookies(&[("theme", "dark")]), &AuthCache::new(), 5),
        Admission::Refused(Refusal {
            status: 401,
            set_cookies: vec![],
        })
    );
}

#[test]
fn unknown_token_is_to_be_validated() {
    let mut cache = AuthCache::new();
    granted(&mut cache, "other", false, "hash", 0);
    assert_eq!(
        authenticate(&cookies(&[("session_token", "abc")]), &cache, 5),
        Admission::Validate {
            session_token: "abc".to_string()
        }
    );
}

#[test]
fn granted_token_gets_in_by_the_cache_until_its_time_is_up() {
    let mut cache = AuthCache::new();
    let token = valid(&mut cache, "abc");
    let rights: Result<bool, String> = Ok(false);
    let start = 7 * SECOND;
    let first = grant(&mut cache, token, rights, "h1".to_string(), start);
    assert_eq!(first, access(false, "h1"));
    let request = cookies(&[("session_token", "abc")]);
    for now in [start, start + 59 * SECOND, start + 60 * SECOND - 1, start - 1] {
        assert_eq!(
            authenticate(&request, &cache, now),
            Admission::Granted(access(false, "h1"))
        );
    }
    for now in [start + 60 * SECOND, start + 61 * SECOND] {
        assert_eq!(
            authenticate(&request, &cache, now),
            Admission::Validate {
                session_token: "abc".to_string()
            }
        );
    }
}

#[test]
fn later_grant_takes_the_place_of_an_earlier_one() {
    let mut cache = AuthCache::new();
    granted(&mut cache, "abc", false, "h1", 0);
    granted(&mut cache, "abc", true, "h2", 50 * SECOND);
    assert_eq!(cache.lookup("abc", 100 * SECOND), Some(access(true, "h2")));
    assert_eq!(cache.lookup("abc", 110 * SECOND), None);
}

#[test]
fn token_of_unknown_rights_may_only_read() {
    let mut cache = AuthCache::new();
    let token = valid(&mut cache, "abc");
    let unknown: Result<bool, String> = Err("database is locked".to_string());
    assert_eq!(
        grant(&mut cache, token, unknown, "h1".to_string(), 0),
        access(true, "h1")
    );
    assert_eq!(cache.lookup("abc", 1), Some(access(true, "h1")));
    let token = valid(&mut cache, "def");
    let read_only: Result<bool, String> = Ok(true);
    assert_eq!(
        grant(&mut cache, token, read_only, "h2".to_string(), 0),
        access(true, "h2")
    );
}

#[test]
fn invalid_token_is_forgotten_and_its_cookie_cleared() {
    let invalid: Result<bool, String> = Ok(false);
    let failed: Result<bool, String> = Err("database is locked".to_string());
    for validation in [invalid, failed] {
        let mut cache = AuthCache::new();
        granted(&mut cache, "abc", false, "h1", 0);
        granted(&mut cache, "def", false, "h2", 0);
        assert_eq!(
            refuse_unless_valid(&mut cache, "abc".to_string(), validation),
            Err(Refusal {
                status: UNAUTHORIZED,
                set_cookies: clear_session_cookies(),
            })
        );
        assert_eq!(cache.lookup("abc", 1), None);
        assert_eq!(cache.lookup("def", 1), Some(access(false, "h2")));
    }
}

#[test]
fn valid_token_is_not_refused() {
    let mut cache = AuthCache::new();
    granted(&mut cache, "abc", false, "h1", 0);
    assert_eq!(valid(&mut cache, "abc").as_str(), "abc");
    assert_eq!(cache.lookup("abc", 1), Some(access(false, "h1")));
}

#[test]
fn there_is_one_cache_and_it_starts_empty() {
    let mut slot = None;
    assert_eq!(get_auth_cache(&mut slot).lookup("abc", 0), None);
    granted(get_auth_cache(&mut slot), "abc", false, "h1", 0);
    assert_eq!(
        get_auth_cache(&mut slot).lookup("abc", 0),
        Some(access(false, "h1"))
    );
}
