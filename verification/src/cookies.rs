//! The session cookie.

use axum_extra::extract::cookie::{Cookie, SameSite};
use vstd::prelude::*;

use crate::text::decimal;

verus! {

/// The cookie that carries a client's session token.
pub const SESSION_COOKIE: &'static str = "session_token";

pub const ROOT_PATH: &'static str = "/";

/// Which requests of other sites a cookie goes along with.
#[derive(Debug, PartialEq, Eq, Clone, Copy)]
pub enum CookieReach {
    Strict,
    Lax,
    Unrestricted,
}

/// The name of a reach in a `Set-Cookie` header.
pub open spec fn reach_text(reach: CookieReach) -> Seq<char> {
    match reach {
        CookieReach::Strict => "Strict"@,
        CookieReach::Lax => "Lax"@,
        CookieReach::Unrestricted => "None"@,
    }
}

/// The value of the `Set-Cookie` header for a cookie with these attributes.
pub open spec fn set_cookie_text(
    name: Seq<char>,
    value: Seq<char>,
    http_only: bool,
    secure: bool,
    reach: CookieReach,
    path: Seq<char>,
    max_age_secs: i64,
) -> Seq<char> {
    name + "="@ + value + (if http_only {
        "; HttpOnly"@
    } else {
        Seq::empty()
    }) + "; SameSite="@ + reach_text(reach) + (if secure {
        "; Secure"@
    } else {
        Seq::empty()
    }) + "; Path="@ + path + "; Max-Age="@ + decimal(max_age_secs as int)
}

/// Builds a cookie with `Cookie::build` and the methods of `CookieBuilder`, and
/// writes it out with the `Display` of `Cookie`: the name and the value as they
/// are, then each attribute that is set, in this order: `HttpOnly`, `SameSite`,
/// `Secure`, `Path`, and `Max-Age` in whole seconds.
#[verifier::external_body]
fn set_cookie(
    name: &str,
    value: &str,
    http_only: bool,
    secure: bool,
    reach: CookieReach,
    path: &str,
    max_age_secs: i64,
) -> (r: String)
    ensures
        r@ == set_cookie_text(name@, value@, http_only, secure, reach, path@, max_age_secs),
{
    let same_site = match reach {
        CookieReach::Strict => SameSite::Strict,
        CookieReach::Lax => SameSite::Lax,
        CookieReach::Unrestricted => SameSite::None,
    };
    let builder = Cookie::build((name, value)).http_only(http_only).secure(secure);
    let builder = builder.same_site(same_site).path(path);
    builder.max_age(time::Duration::seconds(max_age_secs)).build().to_string()
}

/// The header that makes a browser forget the session cookie, in its secure or
/// its other form.
pub open spec fn clear_session_cookie_text(secure: bool) -> Seq<char> {
    set_cookie_text(
        SESSION_COOKIE@,
        Seq::empty(),
        true,
        secure,
        CookieReach::Strict,
        ROOT_PATH@,
        0,
    )
}

/// The headers that make a browser forget the session cookie: both its forms, in
/// case the user was on http before and is now on https, or vice versa.
pub fn clear_session_cookies() -> (r: Vec<String>)
    ensures
        r@.len() == 2,
        r@[0]@ == clear_session_cookie_text(false),
        r@[1]@ == clear_session_cookie_text(true),
{
    proof {
        reveal_strlit("");
        assert(""@ =~= Seq::<char>::empty());
    }
    let plain = set_cookie(SESSION_COOKIE, "", true, false, CookieReach::Strict, ROOT_PATH, 0);
    let secure = set_cookie(SESSION_COOKIE, "", true, true, CookieReach::Strict, ROOT_PATH, 0);
    vec![plain, secure]
}

/// The session token among the name and value pairs of a request's cookies: the
/// value of the last pair of that name.
pub open spec fn session_token_of(cookies: Seq<(String, String)>) -> Option<Seq<char>>
    decreases cookies.len(),
{
    if cookies.len() == 0 {
        None
    } else if cookies.last().0@ == SESSION_COOKIE@ {
        Some(cookies.last().1@)
    } else {
        session_token_of(cookies.drop_last())
    }
}

/// Finds the session token among the name and value pairs of a request's cookies.
pub fn find_session_token(cookies: &Vec<(String, String)>) -> (r: Option<String>)
    ensures
        r is Some <==> session_token_of(cookies@) is Some,
        r matches Some(token) ==> session_token_of(cookies@) == Some(token@),
{
    let wanted = SESSION_COOKIE.to_owned();
    let mut i: usize = cookies.len();
    assert(cookies@.take(i as int) =~= cookies@);
    while i > 0
        invariant
            i <= cookies@.len(),
            wanted@ == SESSION_COOKIE@,
            session_token_of(cookies@) == session_token_of(cookies@.take(i as int)),
        decreases i,
    {
        let ghost rest = cookies@.take(i as int);
        i -= 1;
        assert(rest.last() == cookies@[i as int]);
        assert(rest.drop_last() =~= cookies@.take(i as int));
        if cookies[i].0 == wanted {
            return Some(cookies[i].1.clone());
        }
    }
    None
}

/// Both headers hold nothing but visible characters and blanks, as a header's
/// value must.
pub proof fn law_clear_session_cookie_is_a_header_value(secure: bool)
    ensures
        forall|i: int|
            0 <= i < clear_session_cookie_text(secure).len() ==> 32 <= #[trigger] (
            clear_session_cookie_text(secure)[i] as int) < 127,
{
    reveal_strlit("session_token");
    reveal_strlit("=");
    reveal_strlit("; HttpOnly");
    reveal_strlit("; SameSite=");
    reveal_strlit("Strict");
    reveal_strlit("; Secure");
    reveal_strlit("; Path=");
    reveal_strlit("/");
    reveal_strlit("; Max-Age=");
    assert(decimal(0) =~= seq!['0']);
}

/// The pair at `i` is the last one of the session cookie's name.
pub open spec fn last_session_cookie(cookies: Seq<(String, String)>, i: int) -> bool {
    &&& 0 <= i < cookies.len()
    &&& cookies[i].0@ == "session_token"@
    &&& forall|j: int| i < j < cookies.len() ==> (#[trigger] cookies[j]).0@ != "session_token"@
}

/// A request has a session token exactly if one of its cookies has that name, and
/// the token is the value of the last one that has, whatever other cookies there
/// are.
pub proof fn law_session_token_is_found_by_its_name(cookies: Seq<(String, String)>)
    ensures
        session_token_of(cookies) is Some <==> exists|i: int|
            0 <= i < cookies.len() && (#[trigger] cookies[i]).0@ == "session_token"@,
        forall|i: int| #[trigger]
            last_session_cookie(cookies, i) ==> session_token_of(cookies) == Some(cookies[i].1@),
    decreases cookies.len(),
{
    if cookies.len() > 0 {
        let earlier = cookies.drop_last();
        let n = cookies.len() - 1;
        law_session_token_is_found_by_its_name(earlier);
        assert(cookies.last() == cookies[n]);
        if cookies[n].0@ != "session_token"@ {
            if session_token_of(earlier) is Some {
                let i = choose|i: int|
                    0 <= i < earlier.len() && (#[trigger] earlier[i]).0@ == "session_token"@;
                assert(cookies[i] == earlier[i]);
            }
            assert forall|i: int| #[trigger] last_session_cookie(cookies, i) implies session_token_of(
                cookies,
            ) == Some(cookies[i].1@) by {
                assert(earlier[i] == cookies[i]);
                assert forall|j: int| i < j < earlier.len() implies (#[trigger] earlier[j]).0@
                    != "session_token"@ by {
                    assert(earlier[j] == cookies[j]);
                }
                assert(last_session_cookie(earlier, i));
            }
            assert forall|i: int|
                0 <= i < cookies.len() && (#[trigger] cookies[i]).0@
                    == "session_token"@ implies session_token_of(cookies) is Some by {
                assert(earlier[i] == cookies[i]);
            }
        } else {
            assert forall|i: int| #[trigger] last_session_cookie(cookies, i) implies i == n by {
                if i < n {
                    assert(cookies[n].0@ != "session_token"@);
                }
            }
        }
    }
}

/// A cookie of another name, wherever it stands, makes no difference.
pub proof fn law_other_cookies_make_no_difference(
    cookies: Seq<(String, String)>,
    i: int,
    other: (String, String),
)
    requires
        0 <= i <= cookies.len(),
        other.0@ != "session_token"@,
    ensures
        session_token_of(cookies.insert(i, other)) == session_token_of(cookies),
    decreases cookies.len(),
{
    let more = cookies.insert(i, other);
    if i == cookies.len() {
        assert(more.drop_last() =~= cookies);
        assert(more.last() == other);
    } else {
        assert(more.drop_last() =~= cookies.drop_last().insert(i, other));
        assert(more.last() == cookies.last());
        law_other_cookies_make_no_difference(cookies.drop_last(), i, other);
    }
}

/// A later session cookie takes the place of every earlier one.
pub proof fn law_later_session_cookie_wins(
    cookies: Seq<(String, String)>,
    later: (String, String),
)
    requires
        later.0@ == "session_token"@,
    ensures
        session_token_of(cookies.push(later)) == Some(later.1@),
{
}

/// The headers that make a browser forget the session cookie, in full.
pub proof fn law_what_clears_the_session_cookie()
    ensures
        clear_session_cookie_text(false)
            == "session_token=; HttpOnly; SameSite=Strict; Path=/; Max-Age=0"@,
        clear_session_cookie_text(true)
            == "session_token=; HttpOnly; SameSite=Strict; Secure; Path=/; Max-Age=0"@,
{
    reveal_strlit("session_token");
    reveal_strlit("=");
    reveal_strlit("; HttpOnly");
    reveal_strlit("; SameSite=");
    reveal_strlit("Strict");
    reveal_strlit("; Secure");
    reveal_strlit("; Path=");
    reveal_strlit("/");
    reveal_strlit("; Max-Age=");
    reveal_strlit("session_token=; HttpOnly; SameSite=Strict; Path=/; Max-Age=0");
    reveal_strlit("session_token=; HttpOnly; SameSite=Strict; Secure; Path=/; Max-Age=0");
    assert(decimal(0) =~= seq!['0']);
}

/// What is found is the value of the last session cookie, if there is one.
pub proof fn law_what_is_found(cookies: &Vec<(String, String)>, found: Option<String>, i: int)
    requires
        call_ensures(find_session_token, (cookies,), found),
    ensures
        last_session_cookie(cookies@, i) ==> found is Some && found->0@ == cookies@[i].1@,
        (forall|j: int|
            0 <= j < cookies@.len() ==> (#[trigger] cookies@[j]).0@ != "session_token"@)
            ==> found is None,
{
    law_session_token_is_found_by_its_name(cookies@);
}

} // verus!
