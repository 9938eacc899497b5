//! Letting requests in by their session token, and remembering for a while which
//! tokens were found valid.

use vstd::hash_map::StringHashMap;
use vstd::prelude::*;

use crate::cookies::{
    clear_session_cookie_text, clear_session_cookies, find_session_token, last_session_cookie,
    law_session_token_is_found_by_its_name, law_what_clears_the_session_cookie, session_token_of,
};

verus! {

/// The hash of the session token that a request came with.
#[derive(Clone, Debug, PartialEq, Eq)]
pub struct SessionTokenHash(pub String);

/// Whether a request may only read.
#[derive(Clone, Copy, Debug, PartialEq, Eq)]
pub struct IsReadOnly(pub bool);

/// How long a cached validation result is considered fresh.
pub const AUTH_CACHE_TTL_SECS: u64 = 60;

pub const NANOS_PER_SEC: u64 = 1_000_000_000;

/// The status of a response to a request that is not let in.
pub const UNAUTHORIZED: u16 = 401;

/// Cached result of a successful token validation. Avoids hashing and looking up
/// the same session token over and over.
#[derive(Debug, PartialEq, Eq)]
pub struct CachedAuth {
    pub is_read_only: bool,
    pub session_token_hash: String,
    /// In nanoseconds of a clock that does not go back.
    pub validated_at: u64,
}

/// The mathematical counterpart of [`CachedAuth`].
pub struct CachedAuthView {
    pub is_read_only: bool,
    pub session_token_hash: Seq<char>,
    pub validated_at: u64,
}

impl View for CachedAuth {
    type V = CachedAuthView;

    open spec fn view(&self) -> CachedAuthView {
        CachedAuthView {
            is_read_only: self.is_read_only,
            session_token_hash: self.session_token_hash@,
            validated_at: self.validated_at,
        }
    }
}

/// The whole seconds from `then` to `now`, both in nanoseconds.
pub open spec fn elapsed_secs(now: u64, then: u64) -> int {
    if now >= then {
        (now - then) / NANOS_PER_SEC as int
    } else {
        0
    }
}

impl CachedAuthView {
    /// The result may still be used at `now`.
    pub open spec fn fresh(self, now: u64) -> bool {
        elapsed_secs(now, self.validated_at) < AUTH_CACHE_TTL_SECS
    }
}

/// The session tokens that were found valid.
pub struct AuthCache {
    entries: StringHashMap<CachedAuth>,
}

impl View for AuthCache {
    type V = Map<Seq<char>, CachedAuthView>;

    closed spec fn view(&self) -> Map<Seq<char>, CachedAuthView> {
        self.entries@.map_values(|c: CachedAuth| c@)
    }
}

impl AuthCache {
    /// A cache that knows no token.
    pub fn new() -> (r: Self)
        ensures
            r@ == Map::<Seq<char>, CachedAuthView>::empty(),
    {
        let r = AuthCache { entries: StringHashMap::new() };
        assert(r@ =~= Map::<Seq<char>, CachedAuthView>::empty());
        r
    }

    /// What is known of a token, if it is fresh at `now`.
    pub fn lookup(&self, session_token: &str, now: u64) -> (r: Option<Access>)
        ensures
            r is Some <==> cached_access(self@, session_token@, now) is Some,
            r matches Some(access) ==> Some(access@) == cached_access(
                self@,
                session_token@,
                now,
            ),
    {
        match self.entries.get(session_token) {
            Some(cached) => {
                let elapsed: u64 = now.saturating_sub(cached.validated_at) / NANOS_PER_SEC;
                if elapsed < AUTH_CACHE_TTL_SECS {
                    Some(
                        Access {
                            is_read_only: IsReadOnly(cached.is_read_only),
                            session_token_hash: SessionTokenHash(cached.session_token_hash.clone()),
                        },
                    )
                } else {
                    None
                }
            },
            None => None,
        }
    }

    fn insert(&mut self, session_token: String, auth: CachedAuth)
        ensures
            final(self)@ == old(self)@.insert(session_token@, auth@),
    {
        let ghost before = self@;
        self.entries.insert(session_token, auth);
        assert(self@ =~= before.insert(session_token@, auth@));
    }

    fn remove(&mut self, session_token: &str)
        ensures
            final(self)@ == old(self)@.remove(session_token@),
    {
        let ghost before = self@;
        self.entries.remove(session_token);
        assert(self@ =~= before.remove(session_token@));
    }
}

/// The cache in `slot`, which starts out empty the first time it is asked for.
pub fn get_auth_cache(slot: &mut Option<AuthCache>) -> (cache: &mut AuthCache)
    ensures
        *old(slot) matches Some(c) ==> *cache == c,
        *old(slot) is None ==> cache@ == Map::<Seq<char>, CachedAuthView>::empty(),
        *final(slot) == Some(*final(cache)),
{
    slot.get_or_insert(AuthCache::new())
}

/// What a request that is let in may do, and whom it belongs to.
#[derive(Debug, PartialEq, Eq)]
pub struct Access {
    pub is_read_only: IsReadOnly,
    pub session_token_hash: SessionTokenHash,
}

/// The mathematical counterpart of [`Access`].
pub struct AccessView {
    pub is_read_only: bool,
    pub session_token_hash: Seq<char>,
}

impl View for Access {
    type V = AccessView;

    open spec fn view(&self) -> AccessView {
        AccessView {
            is_read_only: self.is_read_only.0,
            session_token_hash: self.session_token_hash.0@,
        }
    }
}

/// The access that the cache grants to a token at `now`.
pub open spec fn cached_access(
    cache: Map<Seq<char>, CachedAuthView>,
    session_token: Seq<char>,
    now: u64,
) -> Option<AccessView> {
    if cache.contains_key(session_token) && cache[session_token].fresh(now) {
        Some(
            AccessView {
                is_read_only: cache[session_token].is_read_only,
                session_token_hash: cache[session_token].session_token_hash,
            },
        )
    } else {
        None
    }
}

/// The response to a request that is not let in.
#[derive(Debug, PartialEq, Eq)]
pub struct Refusal {
    pub status: u16,
    pub set_cookies: Vec<String>,
}

/// The mathematical counterpart of [`Refusal`].
pub struct RefusalView {
    pub status: u16,
    pub set_cookies: Seq<Seq<char>>,
}

impl View for Refusal {
    type V = RefusalView;

    open spec fn view(&self) -> RefusalView {
        RefusalView {
            status: self.status,
            set_cookies: self.set_cookies@.map_values(|s: String| s@),
        }
    }
}

/// The response to a request without a session token.
pub open spec fn unauthenticated() -> RefusalView {
    RefusalView { status: UNAUTHORIZED, set_cookies: Seq::empty() }
}

/// The response to a request whose session token is not, or no longer, valid: it
/// also makes the browser forget the token.
pub open spec fn revoked() -> RefusalView {
    RefusalView {
        status: UNAUTHORIZED,
        set_cookies: seq![
            clear_session_cookie_text(false),
            clear_session_cookie_text(true),
        ],
    }
}

/// How far a request gets by its cookies alone.
#[derive(Debug, PartialEq, Eq)]
pub enum Admission {
    /// It is not let in.
    Refused(Refusal),
    /// It is let in.
    Granted(Access),
    /// Its session token is to be validated.
    Validate { session_token: String },
}

/// A request gets in by a token that the cache knows, is turned away without a
/// token, and otherwise has its token validated.
pub fn authenticate(cookies: &Vec<(String, String)>, cache: &AuthCache, now: u64) -> (r: Admission)
    ensures
        match session_token_of(cookies@) {
            None => r matches Admission::Refused(refusal) && refusal@ == unauthenticated(),
            Some(token) => match cached_access(cache@, token, now) {
                Some(access) => r matches Admission::Granted(a) && a@ == access,
                None => r matches Admission::Validate { session_token } && session_token@ == token,
            },
        },
{
    match find_session_token(cookies) {
        None => {
            let refusal = Refusal { status: UNAUTHORIZED, set_cookies: Vec::new() };
            assert(refusal@.set_cookies =~= unauthenticated().set_cookies);
            Admission::Refused(refusal)
        },
        Some(session_token) => match cache.lookup(session_token.as_str(), now) {
            Some(access) => Admission::Granted(access),
            None => Admission::Validate { session_token },
        },
    }
}

/// A session token that was found valid.
#[derive(Debug, PartialEq, Eq)]
pub struct ValidToken {
    session_token: String,
}

impl View for ValidToken {
    type V = Seq<char>;

    closed spec fn view(&self) -> Seq<char> {
        self.session_token@
    }
}

impl ValidToken {
    pub fn as_str(&self) -> (r: &str)
        ensures
            r@ == self@,
    {
        self.session_token.as_str()
    }
}

/// Takes in whether a token is valid, if that could be found out. A token that is
/// not known to be valid is forgotten, and the request is refused.
pub fn refuse_unless_valid<E>(
    cache: &mut AuthCache,
    session_token: String,
    validation: Result<bool, E>,
) -> (r: Result<ValidToken, Refusal>)
    ensures
        r is Ok <==> validation matches Ok(true),
        r matches Ok(token) ==> token@ == session_token@ && final(cache)@ == old(cache)@,
        r matches Err(refusal) ==> refusal@ == revoked() && final(cache)@ == old(cache)@.remove(
            session_token@,
        ),
{
    match validation {
        Ok(true) => Ok(ValidToken { session_token }),
        Ok(false) | Err(_) => {
            cache.remove(session_token.as_str());
            let refusal = Refusal { status: UNAUTHORIZED, set_cookies: clear_session_cookies() };
            assert(refusal@.set_cookies =~= revoked().set_cookies);
            Err(refusal)
        },
    }
}

/// The access of a valid token. Where it cannot be found out whether the token is
/// read-only, it is taken to be.
pub open spec fn access_of<E>(read_only: Result<bool, E>, token_hash: Seq<char>) -> AccessView {
    AccessView {
        is_read_only: match read_only {
            Ok(b) => b,
            Err(_) => true,
        },
        session_token_hash: token_hash,
    }
}

/// Lets in the request of a valid token, and remembers the token.
pub fn grant<E>(
    cache: &mut AuthCache,
    token: ValidToken,
    read_only: Result<bool, E>,
    token_hash: String,
    now: u64,
) -> (r: Access)
    ensures
        r@ == access_of(read_only, token_hash@),
        final(cache)@ == old(cache)@.insert(
            token@,
            CachedAuthView {
                is_read_only: r@.is_read_only,
                session_token_hash: r@.session_token_hash,
                validated_at: now,
            },
        ),
{
    let is_read_only = match read_only {
        Ok(b) => b,
        Err(_) => true,
    };
    cache.insert(
        token.session_token,
        CachedAuth { is_read_only, session_token_hash: token_hash.clone(), validated_at: now },
    );
    Access {
        is_read_only: IsReadOnly(is_read_only),
        session_token_hash: SessionTokenHash(token_hash),
    }
}

/// One change of the cache.
pub enum CacheChange {
    /// A token was found valid.
    Granted { session_token: Seq<char>, auth: CachedAuthView },
    /// A token was not found valid.
    Revoked { session_token: Seq<char> },
}

impl CacheChange {
    /// The token that the change is about.
    pub open spec fn token(self) -> Seq<char> {
        match self {
            CacheChange::Granted { session_token, .. } => session_token,
            CacheChange::Revoked { session_token } => session_token,
        }
    }
}

/// The cache after a history of changes, from an empty one on.
pub open spec fn cache_after(history: Seq<CacheChange>) -> Map<Seq<char>, CachedAuthView>
    decreases history.len(),
{
    if history.len() == 0 {
        Map::empty()
    } else {
        let before = cache_after(history.drop_last());
        match history.last() {
            CacheChange::Granted { session_token, auth } => before.insert(session_token, auth),
            CacheChange::Revoked { session_token } => before.remove(session_token),
        }
    }
}

/// The change at `i` is the last one that is about its token.
pub open spec fn last_word(history: Seq<CacheChange>, i: int) -> bool {
    0 <= i < history.len() && forall|j: int|
        i < j < history.len() ==> (#[trigger] history[j]).token() != history[i].token()
}

/// Nobody gets in by the cache but with a token that was found valid less than
/// the time to live ago and has not been found invalid since, and then with the
/// access that was granted last.
pub proof fn law_cache_grants_only_what_was_validated(
    history: Seq<CacheChange>,
    session_token: Seq<char>,
    now: u64,
)
    ensures
        cached_access(cache_after(history), session_token, now) matches Some(access) ==> exists|
            i: int,
            auth: CachedAuthView,
        |
            #![trigger last_word(history, i), auth.fresh(now)]
            last_word(history, i) && history[i] == (CacheChange::Granted { session_token, auth })
                && auth.fresh(now) && access == (AccessView {
                is_read_only: auth.is_read_only,
                session_token_hash: auth.session_token_hash,
            }),
{
    let cache = cache_after(history);
    if cache.contains_key(session_token) {
        lemma_entry_was_granted(history, session_token);
        let i = choose|i: int|
            #[trigger] last_word(history, i) && history[i] == (CacheChange::Granted {
                session_token,
                auth: cache[session_token],
            });
        assert(last_word(history, i));
        assert(cache[session_token].fresh(now) ==> last_word(history, i));
    }
}

proof fn lemma_entry_was_granted(history: Seq<CacheChange>, session_token: Seq<char>)
    requires
        cache_after(history).contains_key(session_token),
    ensures
        exists|i: int|
            #[trigger] last_word(history, i) && history[i] == (CacheChange::Granted {
                session_token,
                auth: cache_after(history)[session_token],
            }),
    decreases history.len(),
{
    let n = history.len() - 1;
    if history.last().token() == session_token {
        assert(last_word(history, n));
    } else {
        let before = history.drop_last();
        lemma_entry_was_granted(before, session_token);
        let i = choose|i: int|
            #[trigger] last_word(before, i) && history[i] == (CacheChange::Granted {
                session_token,
                auth: cache_after(before)[session_token],
            });
        assert forall|j: int| i < j < history.len() implies (#[trigger] history[j]).token()
            != history[i].token() by {
            if j < n {
                assert(before[j] == history[j]);
            }
        }
        assert(last_word(history, i));
    }
}

/// A token that was found valid gets in by the cache, with the access granted
/// then, until the time to live is over and not longer, unless it is found
/// invalid or granted anew in between.
pub proof fn law_cache_remembers_what_was_granted(
    history: Seq<CacheChange>,
    i: int,
    session_token: Seq<char>,
    auth: CachedAuthView,
    now: u64,
)
    requires
        last_word(history, i),
        history[i] == (CacheChange::Granted { session_token, auth }),
    ensures
        cached_access(cache_after(history), session_token, now) == (if elapsed_secs(
            now,
            auth.validated_at,
        ) < AUTH_CACHE_TTL_SECS {
            Some(
                AccessView {
                    is_read_only: auth.is_read_only,
                    session_token_hash: auth.session_token_hash,
                },
            )
        } else {
            None
        }),
    decreases history.len(),
{
    if i < history.len() - 1 {
        let before = history.drop_last();
        assert(history[history.len() - 1].token() != history[i].token());
        assert forall|j: int| i < j < before.len() implies (#[trigger] before[j]).token()
            != before[i].token() by {
            assert(before[j] == history[j]);
        }
        law_cache_remembers_what_was_granted(before, i, session_token, auth, now);
    }
}

/// A token whose last validation failed does not get in by the cache.
pub proof fn law_revoked_token_is_not_remembered(
    history: Seq<CacheChange>,
    i: int,
    session_token: Seq<char>,
    now: u64,
)
    requires
        last_word(history, i),
        history[i] == (CacheChange::Revoked { session_token }),
    ensures
        cached_access(cache_after(history), session_token, now) is None,
    decreases history.len(),
{
    if i < history.len() - 1 {
        let before = history.drop_last();
        assert(history[history.len() - 1].token() != history[i].token());
        assert forall|j: int| i < j < before.len() implies (#[trigger] before[j]).token()
            != before[i].token() by {
            assert(before[j] == history[j]);
        }
        law_revoked_token_is_not_remembered(before, i, session_token, now);
    }
}

/// A token gets in by the cache exactly if it is there and less than the time to
/// live has gone by since it was found valid, and then with the rights and the hash
/// that it was found to have.
pub proof fn law_when_the_cache_lets_in(
    cache: Map<Seq<char>, CachedAuthView>,
    session_token: Seq<char>,
    now: u64,
)
    ensures
        ({
            let access = cached_access(cache, session_token, now);
            let known = cache[session_token];
            &&& access is Some <==> cache.contains_key(session_token) && now - known.validated_at
                < AUTH_CACHE_TTL_SECS * NANOS_PER_SEC
            &&& access is Some ==> access->0.is_read_only == known.is_read_only
                && access->0.session_token_hash == known.session_token_hash
        }),
{
}

/// What is remembered or forgotten of one token makes no difference to another.
pub proof fn law_tokens_do_not_touch_each_other(
    cache: Map<Seq<char>, CachedAuthView>,
    session_token: Seq<char>,
    auth: CachedAuthView,
    other: Seq<char>,
    now: u64,
)
    requires
        other != session_token,
    ensures
        cached_access(cache.insert(session_token, auth), other, now) == cached_access(
            cache,
            other,
            now,
        ),
        cached_access(cache.remove(session_token), other, now) == cached_access(
            cache,
            other,
            now,
        ),
        cached_access(cache.remove(session_token), session_token, now) is None,
{
}

/// A token whose rights are known has those rights, one whose rights are not may
/// only read, and each keeps its hash.
pub proof fn law_rights_of_a_valid_token<E>(read_only: bool, error: E, token_hash: Seq<char>)
    ensures
        access_of(Ok::<bool, E>(read_only), token_hash) == (AccessView {
            is_read_only: read_only,
            session_token_hash: token_hash,
        }),
        access_of(Err::<bool, E>(error), token_hash) == (AccessView {
            is_read_only: true,
            session_token_hash: token_hash,
        }),
{
}

/// Requests are refused as unauthorized. One whose token is not valid also has both
/// forms of its cookie cleared, one without a token has none.
pub proof fn law_how_requests_are_refused()
    ensures
        unauthenticated().status == 401,
        unauthenticated().set_cookies.len() == 0,
        revoked().status == 401,
        revoked().set_cookies == seq![
            "session_token=; HttpOnly; SameSite=Strict; Path=/; Max-Age=0"@,
            "session_token=; HttpOnly; SameSite=Strict; Secure; Path=/; Max-Age=0"@,
        ],
{
    law_what_clears_the_session_cookie();
}

/// Views hold all of what they are views of.
pub proof fn law_auth_views_hold_everything(auth: CachedAuth, access: Access, refusal: Refusal)
    ensures
        auth@.is_read_only == auth.is_read_only,
        auth@.session_token_hash == auth.session_token_hash@,
        auth@.validated_at == auth.validated_at,
        access@.is_read_only == access.is_read_only.0,
        access@.session_token_hash == access.session_token_hash.0@,
        refusal@.status == refusal.status,
        refusal@.set_cookies.len() == refusal.set_cookies@.len(),
        forall|i: int|
            0 <= i < refusal.set_cookies@.len() ==> #[trigger] refusal@.set_cookies[i]
                == refusal.set_cookies@[i]@,
{
}

/// A token that was granted gets its next requests in with the very access that it
/// was granted, without being validated again, until the time to live is over.
/// Then it is validated again.
pub proof fn law_granted_token_gets_in_again<E>(
    token: ValidToken,
    read_only: Result<bool, E>,
    token_hash: String,
    now: u64,
    access: Access,
    cookies: &Vec<(String, String)>,
    later: u64,
    admission: Admission,
)
    requires
        session_token_of(cookies@) == Some(token@),
    ensures
        forall|cache: &mut AuthCache|
            #![trigger call_ensures(grant::<E>, (cache, token, read_only, token_hash, now), access)]
            call_ensures(grant::<E>, (cache, token, read_only, token_hash, now), access)
                && call_ensures(authenticate, (cookies, final(cache), later), admission) ==> if later
                - now < AUTH_CACHE_TTL_SECS * NANOS_PER_SEC {
                admission matches Admission::Granted(again) && again.is_read_only
                    == access.is_read_only && again.session_token_hash.0@
                    == access.session_token_hash.0@
            } else {
                admission matches Admission::Validate { session_token } && session_token@ == token@
            },
{
}

/// What a token is granted: the rights that it was found to have, or to read only
/// if they could not be found out, under its own hash. No other token is touched.
pub proof fn law_what_is_granted<E>(
    token: ValidToken,
    read_only: Result<bool, E>,
    token_hash: String,
    now: u64,
    access: Access,
)
    ensures
        forall|cache: &mut AuthCache| #[trigger]
            call_ensures(grant::<E>, (cache, token, read_only, token_hash, now), access) ==> {
                &&& access.session_token_hash.0@ == token_hash@
                &&& access.is_read_only.0 <==> !(read_only matches Ok(false))
                &&& final(cache)@.remove(token@) == (*cache)@.remove(token@)
            },
{
    assert forall|cache: &mut AuthCache| #[trigger]
        call_ensures(
            grant::<E>,
            (cache, token, read_only, token_hash, now),
            access,
        ) implies final(cache)@.remove(token@) == (*cache)@.remove(token@) by {
        assert(final(cache)@.remove(token@) =~= (*cache)@.remove(token@));
    }
}

/// A token passes validation exactly if it was found valid. One that does not is
/// answered as unauthorized with its cookies cleared, and its next request is
/// validated again, whatever the cache knew of it. No other token is touched.
pub proof fn law_invalid_token_is_refused_and_forgotten<E>(
    session_token: String,
    validation: Result<bool, E>,
    outcome: Result<ValidToken, Refusal>,
    cookies: &Vec<(String, String)>,
    later: u64,
    admission: Admission,
)
    requires
        session_token_of(cookies@) == Some(session_token@),
    ensures
        forall|cache: &mut AuthCache|
            #![trigger call_ensures(refuse_unless_valid::<E>, (cache, session_token, validation), outcome)]
            call_ensures(refuse_unless_valid::<E>, (cache, session_token, validation), outcome)
                && call_ensures(authenticate, (cookies, final(cache), later), admission) ==> {
                &&& outcome is Ok <==> (validation matches Ok(valid) && valid)
                &&& outcome matches Ok(token) ==> token@ == session_token@ && final(cache)@
                    == (*cache)@
                &&& outcome matches Err(refusal) ==> refusal.status == 401
                    && refusal.set_cookies@.len() == 2 && (admission matches Admission::Validate {
                    session_token: again,
                } && again@ == session_token@)
                &&& final(cache)@.remove(session_token@) == (*cache)@.remove(session_token@)
            },
{
    assert forall|cache: &mut AuthCache|
        #![trigger call_ensures(refuse_unless_valid::<E>, (cache, session_token, validation), outcome)]
        call_ensures(
            refuse_unless_valid::<E>,
            (cache, session_token, validation),
            outcome,
        ) implies final(cache)@.remove(session_token@) == (*cache)@.remove(session_token@)
        && (outcome matches Err(refusal) ==> refusal.set_cookies@.len() == 2) by {
        assert(final(cache)@.remove(session_token@) =~= (*cache)@.remove(session_token@));
        if let Err(refusal) = outcome {
            assert(refusal@.set_cookies.len() == refusal.set_cookies@.len());
        }
    }
}

/// How far a request gets. Without a session cookie it is refused as unauthorized;
/// a cached token that is still fresh gets in with what the cache knows of it; any
/// other token, and no other request, is validated.
pub proof fn law_how_far_a_request_gets(
    cookies: &Vec<(String, String)>,
    cache: &AuthCache,
    now: u64,
    admission: Admission,
    i: int,
)
    requires
        call_ensures(authenticate, (cookies, cache, now), admission),
        last_session_cookie(cookies@, i),
    ensures
        ({
            let token = cookies@[i].1@;
            let known = cache@[token];
            if cache@.contains_key(token) && now - known.validated_at < AUTH_CACHE_TTL_SECS
                * NANOS_PER_SEC {
                admission matches Admission::Granted(access) && access.is_read_only.0
                    == known.is_read_only && access.session_token_hash.0@
                    == known.session_token_hash
            } else {
                admission matches Admission::Validate { session_token } && session_token@ == token
            }
        }),
{
    law_session_token_is_found_by_its_name(cookies@);
}

/// A request without a session cookie is refused as unauthorized, and nothing is
/// cleared.
pub proof fn law_request_without_token_is_refused(
    cookies: &Vec<(String, String)>,
    cache: &AuthCache,
    now: u64,
    admission: Admission,
)
    requires
        call_ensures(authenticate, (cookies, cache, now), admission),
        forall|i: int|
            0 <= i < cookies@.len() ==> (#[trigger] cookies@[i]).0@ != "session_token"@,
    ensures
        admission matches Admission::Refused(refusal) && refusal.status == 401
            && refusal.set_cookies@.len() == 0,
{
    law_session_token_is_found_by_its_name(cookies@);
    if let Admission::Refused(refusal) = admission {
        assert(refusal@.set_cookies.len() == refusal.set_cookies@.len());
    }
}

} // verus!
