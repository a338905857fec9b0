//! Sign-in: the client's settings, the check of the browser's redirect to
//! the login page, and the order of steps that obtains an access token.

use vstd::prelude::*;
use crate::scopes::{parse_scopes, views, distinct_spec, split_spec};

verus! {

/// The application's client id.
pub const CLIENT_ID: &'static str = "69ae761c99634e4395fb20ae42104971";

/// Where the browser is sent back to after signing in.
pub const REDIRECT_URL: &'static str = "http://127.0.0.1:8891/login";

/// The address that the login listener binds.
pub const REDIRECT_HOST: &'static str = "127.0.0.1:8891";

/// The scopes asked for, comma-separated.
pub const SCOPES: &'static str = "user-read-private,playlist-read-private,playlist-read-collaborative,user-library-read,user-library-modify,user-top-read,user-read-recently-played,user-read-playback-state,playlist-modify-public,playlist-modify-private,user-modify-playback-state,streaming,playlist-modify-public";

/// The page shown after a successful sign-in.
pub const LOGIN_SUCCESS_PAGE: &'static str = "<html><body><h1>Login Successful!</h1><p>You can close this window.</p></body></html>";

/// The page shown when the redirect could not be accepted.
pub const LOGIN_FAILURE_PAGE: &'static str = "something went wrong";

/// The scopes of `SCOPES`, each once, in order.
pub fn default_scopes() -> (res: Vec<String>)
    ensures
        views(res@) == distinct_spec(split_spec(SCOPES@, ',')),
{
    parse_scopes(SCOPES)
}

/// Why the redirect to the login page was not accepted.
#[derive(Debug, PartialEq, Eq)]
pub enum OAuthError {
    /// The redirect carries no `state` parameter.
    CsrfTokenNotFound,
    /// The `state` parameter is not the one this sign-in sent.
    InvalidState,
    /// The redirect carries no `code` parameter.
    AuthCodeNotFound,
    /// The login listener could not bind its address.
    AuthCodeListenerBind { addr: String, message: String },
}

/// The value of the first query parameter named `key`, if any.
pub open spec fn query_value(pairs: Seq<(String, String)>, key: Seq<char>) -> Option<Seq<char>>
    decreases pairs.len(),
{
    if pairs.len() == 0 {
        None
    } else if pairs[0].0@ == key {
        Some(pairs[0].1@)
    } else {
        query_value(pairs.drop_first(), key)
    }
}

/// The value of the first query parameter named `key`, if any.
pub fn query_get(pairs: &Vec<(String, String)>, key: &str) -> (res: Option<String>)
    ensures
        match query_value(pairs@, key@) {
            Some(v) => res matches Some(r) && r@ == v,
            None => res is None,
        },
{
    let wanted = String::from_str(key);
    let n = pairs.len();
    let mut i: usize = 0;
    proof {
        assert(pairs@.skip(0) =~= pairs@);
    }
    while i < n
        invariant
            n == pairs@.len(),
            i <= n,
            wanted@ == key@,
            query_value(pairs@, key@) == query_value(pairs@.skip(i as int), key@),
        decreases n - i,
    {
        proof {
            assert(pairs@.skip(i as int)[0] == pairs@[i as int]);
            assert(pairs@.skip(i as int).drop_first() =~= pairs@.skip(i + 1));
        }
        if pairs[i].0 == wanted {
            return Some(pairs[i].1.clone());
        }
        i = i + 1;
    }
    None
}

/// What the login page concludes from the redirect's query parameters.
pub open spec fn auth_reply_spec(pairs: Seq<(String, String)>, expected_state: Seq<char>) -> Result<Seq<char>, OAuthError> {
    match query_value(pairs, "state"@) {
        None => Err(OAuthError::CsrfTokenNotFound),
        Some(state) => if state != expected_state {
            Err(OAuthError::InvalidState)
        } else {
            match query_value(pairs, "code"@) {
                None => Err(OAuthError::AuthCodeNotFound),
                Some(code) => Ok(code),
            }
        },
    }
}

/// Checks the redirect to the login page: its `state` must be present and
/// equal to the one sent, and its `code`, which is returned, present.
pub fn auth_code_from_query(pairs: &Vec<(String, String)>, expected_state: &str) -> (res: Result<String, OAuthError>)
    ensures
        match auth_reply_spec(pairs@, expected_state@) {
            Ok(code) => res matches Ok(c) && c@ == code,
            Err(e) => res == Err::<String, OAuthError>(e),
        },
{
    let state = match query_get(pairs, "state") {
        Some(s) => s,
        None => return Err(OAuthError::CsrfTokenNotFound),
    };
    let expected = String::from_str(expected_state);
    if state != expected {
        return Err(OAuthError::InvalidState);
    }
    match query_get(pairs, "code") {
        Some(code) => Ok(code),
        None => Err(OAuthError::AuthCodeNotFound),
    }
}

/// The page answered to the browser: the success page exactly when the
/// redirect was accepted.
pub fn login_page(accepted: bool) -> (res: &'static str)
    ensures
        res@ == (if accepted { LOGIN_SUCCESS_PAGE@ } else { LOGIN_FAILURE_PAGE@ }),
{
    if accepted {
        LOGIN_SUCCESS_PAGE
    } else {
        LOGIN_FAILURE_PAGE
    }
}

/// Index `i` holds the first query parameter named `key`.
pub open spec fn first_param(pairs: Seq<(String, String)>, key: Seq<char>, i: int) -> bool {
    &&& 0 <= i < pairs.len()
    &&& pairs[i].0@ == key
    &&& forall|j: int| 0 <= j < i ==> (#[trigger] pairs[j]).0@ != key
}

/// Some query parameter is named `key`.
pub open spec fn has_param(pairs: Seq<(String, String)>, key: Seq<char>) -> bool {
    exists|i: int| 0 <= i < pairs.len() && (#[trigger] pairs[i]).0@ == key
}

/// Some query parameter is named `key` and has the value `value`.
pub open spec fn has_pair(pairs: Seq<(String, String)>, key: Seq<char>, value: Seq<char>) -> bool {
    exists|i: int| 0 <= i < pairs.len() && (#[trigger] pairs[i]).0@ == key && pairs[i].1@ == value
}

/// No two query parameters share a name (as in a query read into a map).
pub open spec fn distinct_names(pairs: Seq<(String, String)>) -> bool {
    forall|i: int, j: int| 0 <= i < j < pairs.len() ==> (#[trigger] pairs[i]).0@ != (#[trigger] pairs[j]).0@
}

/// A parameter's value is found exactly when some parameter has that name,
/// and it is the value of the first one.
pub proof fn lemma_query_value_first(pairs: Seq<(String, String)>, key: Seq<char>)
    ensures
        query_value(pairs, key) is None <==> !has_param(pairs, key),
        forall|i: int| #[trigger] first_param(pairs, key, i) ==> query_value(pairs, key) == Some(pairs[i].1@),
    decreases pairs.len(),
{
    if pairs.len() > 0 {
        let rest = pairs.drop_first();
        lemma_query_value_first(rest, key);
        if pairs[0].0@ == key {
            assert(has_param(pairs, key)) by {
                assert(pairs[0].0@ == key);
            }
            assert forall|i: int| #[trigger] first_param(pairs, key, i) implies query_value(pairs, key) == Some(pairs[i].1@) by {
                if i > 0 {
                    assert(pairs[0].0@ != key);
                }
            }
        } else {
            if has_param(pairs, key) {
                let i = choose|i: int| 0 <= i < pairs.len() && (#[trigger] pairs[i]).0@ == key;
                assert(rest[i - 1] == pairs[i]);
                assert(has_param(rest, key));
            }
            if has_param(rest, key) {
                let i = choose|i: int| 0 <= i < rest.len() && (#[trigger] rest[i]).0@ == key;
                assert(pairs[i + 1] == rest[i]);
                assert(has_param(pairs, key));
            }
            assert forall|i: int| #[trigger] first_param(pairs, key, i) implies query_value(pairs, key) == Some(pairs[i].1@) by {
                assert(i > 0);
                assert(rest[i - 1] == pairs[i]);
                assert forall|j: int| 0 <= j < i - 1 implies (#[trigger] rest[j]).0@ != key by {
                    assert(rest[j] == pairs[j + 1]);
                }
                assert(first_param(rest, key, i - 1));
            }
        }
    }
}

/// The redirect is accepted exactly when its first `state` parameter is the
/// one sent and it has a `code` parameter, wherever that stands; the code
/// handed back is the value of the first `code` parameter. Otherwise the
/// error says what is missing or wrong.
pub proof fn lemma_auth_reply(pairs: Seq<(String, String)>, expected_state: Seq<char>)
    ensures
        !has_param(pairs, "state"@) ==> auth_reply_spec(pairs, expected_state) == Err::<Seq<char>, OAuthError>(
            OAuthError::CsrfTokenNotFound,
        ),
        forall|i: int| #[trigger] first_param(pairs, "state"@, i) && pairs[i].1@ != expected_state
            ==> auth_reply_spec(pairs, expected_state) == Err::<Seq<char>, OAuthError>(OAuthError::InvalidState),
        forall|i: int| #[trigger] first_param(pairs, "state"@, i) && pairs[i].1@ == expected_state && !has_param(
            pairs,
            "code"@,
        ) ==> auth_reply_spec(pairs, expected_state) == Err::<Seq<char>, OAuthError>(OAuthError::AuthCodeNotFound),
        forall|i: int, j: int| #[trigger] first_param(pairs, "state"@, i) && pairs[i].1@ == expected_state
            && #[trigger] first_param(pairs, "code"@, j) ==> auth_reply_spec(pairs, expected_state) == Ok::<
            Seq<char>,
            OAuthError,
        >(pairs[j].1@),
{
    lemma_query_value_first(pairs, "state"@);
    lemma_query_value_first(pairs, "code"@);
}

proof fn lemma_query_value_same_pairs(p1: Seq<(String, String)>, p2: Seq<(String, String)>, key: Seq<char>)
    requires
        distinct_names(p1),
        distinct_names(p2),
        forall|k: Seq<char>, v: Seq<char>| has_pair(p1, k, v) <==> has_pair(p2, k, v),
    ensures
        query_value(p1, key) == query_value(p2, key),
{
    lemma_query_value_first(p1, key);
    lemma_query_value_first(p2, key);
    if has_param(p1, key) {
        let i = choose|i: int| 0 <= i < p1.len() && (#[trigger] p1[i]).0@ == key;
        assert(first_param(p1, key, i));
        assert(has_pair(p1, key, p1[i].1@));
        assert(has_pair(p2, key, p1[i].1@));
        let i2 = choose|i2: int| 0 <= i2 < p2.len() && (#[trigger] p2[i2]).0@ == key && p2[i2].1@ == p1[i].1@;
        assert(first_param(p2, key, i2));
    } else if has_param(p2, key) {
        let i2 = choose|i2: int| 0 <= i2 < p2.len() && (#[trigger] p2[i2]).0@ == key;
        assert(has_pair(p2, key, p2[i2].1@));
        assert(has_pair(p1, key, p2[i2].1@));
        let i = choose|i: int| 0 <= i < p1.len() && (#[trigger] p1[i]).0@ == key && p1[i].1@ == p2[i2].1@;
        assert(has_param(p1, key));
    }
}

/// For queries whose parameters have distinct names, the answer does not
/// depend on the order of the parameters: two queries with the same
/// name-value pairs get the same answer.
pub proof fn lemma_auth_reply_order_independent(
    p1: Seq<(String, String)>,
    p2: Seq<(String, String)>,
    expected_state: Seq<char>,
)
    requires
        distinct_names(p1),
        distinct_names(p2),
        forall|k: Seq<char>, v: Seq<char>| has_pair(p1, k, v) <==> has_pair(p2, k, v),
    ensures
        auth_reply_spec(p1, expected_state) == auth_reply_spec(p2, expected_state),
{
    lemma_query_value_same_pairs(p1, p2, "state"@);
    lemma_query_value_same_pairs(p1, p2, "code"@);
}

/// What the token cache held.
#[derive(Clone, Copy, Debug, PartialEq, Eq, Structural)]
pub enum CachedToken {
    /// A token that has not expired.
    Fresh,
    /// A token that has expired.
    Expired,
    /// No token, or the cache could not be read.
    Absent,
}

/// How refreshing an expired token went.
#[derive(Clone, Copy, Debug, PartialEq, Eq, Structural)]
pub enum RefetchOutcome {
    /// A new token came back.
    Refreshed,
    /// The refresh gave no token.
    NoToken,
    /// The refresh failed.
    Failed,
}

/// Where the sign-in stands.
#[derive(Clone, Copy, Debug, PartialEq, Eq, Structural)]
pub enum AuthPhase {
    ReadingCache,
    Refreshing,
    SigningIn,
    Saving,
    Finished,
}

/// What the sign-in learned from the last step it took.
#[derive(Clone, Copy, Debug, PartialEq, Eq, Structural)]
pub enum AuthEvent {
    CacheRead(CachedToken),
    Refetched(RefetchOutcome),
    /// A code was obtained and exchanged for a token.
    SignedIn,
    /// The token was written to the cache.
    Saved,
}

/// The next step of the sign-in.
#[derive(Clone, Copy, Debug, PartialEq, Eq, Structural)]
pub enum AuthAction {
    /// Read the token cache.
    ReadCache,
    /// Use the cached token, then write the cache.
    InstallCachedAndSave,
    /// Use the cached token, then ask for a fresh one.
    InstallCachedAndRefetch,
    /// Use the refreshed token, then write the cache.
    InstallRefreshedAndSave,
    /// Ask the user for the redirect and exchange its code for a token.
    PromptForCode,
    /// Show the sign-in URL, wait for the redirect and exchange its code for a token.
    ListenForCode,
    /// Write the token cache.
    Save,
    /// Hand out the client's token.
    ReturnToken,
}

/// The phase and step that follow an event, or `None` for an event that
/// cannot occur in that phase.
pub open spec fn auth_transition(phase: AuthPhase, event: AuthEvent) -> Option<(AuthPhase, AuthAction)> {
    match (phase, event) {
        (AuthPhase::ReadingCache, AuthEvent::CacheRead(CachedToken::Fresh)) => Some((AuthPhase::Saving, AuthAction::InstallCachedAndSave)),
        (AuthPhase::ReadingCache, AuthEvent::CacheRead(CachedToken::Expired)) => Some((AuthPhase::Refreshing, AuthAction::InstallCachedAndRefetch)),
        (AuthPhase::ReadingCache, AuthEvent::CacheRead(CachedToken::Absent)) => Some((AuthPhase::SigningIn, AuthAction::ListenForCode)),
        (AuthPhase::Refreshing, AuthEvent::Refetched(RefetchOutcome::Refreshed)) => Some((AuthPhase::Saving, AuthAction::InstallRefreshedAndSave)),
        (AuthPhase::Refreshing, AuthEvent::Refetched(_)) => Some((AuthPhase::SigningIn, AuthAction::PromptForCode)),
        (AuthPhase::SigningIn, AuthEvent::SignedIn) => Some((AuthPhase::Saving, AuthAction::Save)),
        (AuthPhase::Saving, AuthEvent::Saved) => Some((AuthPhase::Finished, AuthAction::ReturnToken)),
        _ => None,
    }
}

/// How far a phase is along the sign-in.
pub open spec fn phase_rank(phase: AuthPhase) -> int {
    match phase {
        AuthPhase::ReadingCache => 0,
        AuthPhase::Refreshing => 1,
        AuthPhase::SigningIn => 2,
        AuthPhase::Saving => 3,
        AuthPhase::Finished => 4,
    }
}

/// The sign-in: reads the token cache, refreshes an expired token, falls
/// back to asking for a code, and always ends by writing the cache.
pub struct AuthFlow {
    phase: AuthPhase,
}

impl AuthFlow {
    pub closed spec fn current(&self) -> AuthPhase {
        self.phase
    }

    /// A sign-in about to read the token cache, with that as its first step.
    pub fn start() -> (res: (AuthFlow, AuthAction))
        ensures
            res.0.current() == AuthPhase::ReadingCache,
            res.1 == AuthAction::ReadCache,
    {
        (AuthFlow { phase: AuthPhase::ReadingCache }, AuthAction::ReadCache)
    }

    /// The phase the sign-in is in.
    pub fn phase(&self) -> (res: AuthPhase)
        ensures
            res == self.current(),
    {
        self.phase
    }

    /// Takes in the outcome of the last step and gives the next one; an
    /// event that cannot occur in the current phase gives `None` and leaves
    /// the phase as it was.
    pub fn step(&mut self, event: AuthEvent) -> (res: Option<AuthAction>)
        ensures
            match auth_transition(old(self).current(), event) {
                Some((p, a)) => final(self).current() == p && res == Some(a),
                None => final(self).current() == old(self).current() && res is None,
            },
    {
        let next = match (self.phase, event) {
            (AuthPhase::ReadingCache, AuthEvent::CacheRead(CachedToken::Fresh)) => Some((AuthPhase::Saving, AuthAction::InstallCachedAndSave)),
            (AuthPhase::ReadingCache, AuthEvent::CacheRead(CachedToken::Expired)) => Some((AuthPhase::Refreshing, AuthAction::InstallCachedAndRefetch)),
            (AuthPhase::ReadingCache, AuthEvent::CacheRead(CachedToken::Absent)) => Some((AuthPhase::SigningIn, AuthAction::ListenForCode)),
            (AuthPhase::Refreshing, AuthEvent::Refetched(RefetchOutcome::Refreshed)) => Some((AuthPhase::Saving, AuthAction::InstallRefreshedAndSave)),
            (AuthPhase::Refreshing, AuthEvent::Refetched(_)) => Some((AuthPhase::SigningIn, AuthAction::PromptForCode)),
            (AuthPhase::SigningIn, AuthEvent::SignedIn) => Some((AuthPhase::Saving, AuthAction::Save)),
            (AuthPhase::Saving, AuthEvent::Saved) => Some((AuthPhase::Finished, AuthAction::ReturnToken)),
            _ => None,
        };
        match next {
            Some((p, a)) => {
                self.phase = p;
                Some(a)
            },
            None => None,
        }
    }
}

/// Every accepted event moves the sign-in strictly forward, so it takes at
/// most four events to finish.
pub proof fn lemma_auth_progress(phase: AuthPhase, event: AuthEvent)
    ensures
        auth_transition(phase, event) matches Some((p, _)) ==> phase_rank(phase) < phase_rank(p),
{
}

/// The sign-in finishes only right after the token cache was written.
pub proof fn lemma_auth_finishes_after_save(phase: AuthPhase, event: AuthEvent)
    ensures
        auth_transition(phase, event) matches Some((p, _)) && p == AuthPhase::Finished ==> phase
            == AuthPhase::Saving && event == AuthEvent::Saved,
{
}

/// The user is asked for a code only when the cache held no token, or an
/// expired one that could not be refreshed.
pub proof fn lemma_code_only_without_usable_token(phase: AuthPhase, event: AuthEvent)
    ensures
        auth_transition(phase, event) matches Some((_, a)) && (a == AuthAction::PromptForCode
            || a == AuthAction::ListenForCode) ==> event == AuthEvent::CacheRead(CachedToken::Absent)
            || event == AuthEvent::Refetched(RefetchOutcome::NoToken) || event
            == AuthEvent::Refetched(RefetchOutcome::Failed),
{
}

} // verus!
