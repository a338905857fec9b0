use spotify_remote::auth::{
    auth_code_from_query, default_scopes, login_page, query_get, AuthAction, AuthEvent, AuthFlow, AuthPhase,
    CachedToken, OAuthError, RefetchOutcome, LOGIN_FAILURE_PAGE, LOGIN_SUCCESS_PAGE, SCOPES,
};
use spotify_remote::scopes::{distinct, parse_scopes, split_on};
use spotify_remote::routes::{list_target, load_request};
use spotify_remote::{Add, Error, IdError, ListTarget, PlaylistId, TrackId, PlaylistInfo};
use spotify_remote::cache::{find_playlist, make_key, ReadThrough, ReadThroughAction, ReadThroughEvent, ReadThroughPhase};

fn pairs(items: &[(&str, &str)]) -> Vec<(String, String)> {
    items.iter().map(|(k, v)| (k.to_string(), v.to_string())).collect()
}

#[test]
fn split_like_std() {
    for s in ["a,b,,c", "", ",", "abc", "x,"] {
        let expected: Vec<String> = s.split(',').map(|p| p.to_string()).collect();
        let pieces = split_on(s, ',');
        assert_eq!(pieces, expected);
        assert!(pieces.iter().all(|p| !p.contains(',')));
    }
}

#[test]
fn split_then_join_gives_back_input() {
    let s = "user-read-private,,streaming,";
    assert_eq!(split_on(s, ',').join(","), s);
}

#[test]
fn distinct_keeps_first_occurrences() {
    let v = vec!["b".to_string(), "a".to_string(), "b".to_string(), "c".to_string(), "a".to_string()];
    assert_eq!(distinct(v), vec!["b".to_string(), "a".to_string(), "c".to_string()]);
}

#[test]
fn scopes_are_each_listed_once() {
    let scopes = default_scopes();
    assert_eq!(scopes.len(), 12);
    assert_eq!(scopes[0], "user-read-private");
    assert_eq!(scopes[11], "streaming");
    assert_eq!(parse_scopes(SCOPES), scopes);
    let set: std::collections::HashSet<&str> = SCOPES.split(',').collect();
    assert_eq!(set.len(), scopes.len());
}

#[test]
fn query_lookup() {
    let q = pairs(&[("code", "c1"), ("state", "s1")]);
    assert_eq!(query_get(&q, "state"), Some("s1".to_string()));
    assert_eq!(query_get(&q, "missing"), None);
}

#[test]
fn auth_reply_accepted() {
    let q = pairs(&[("state", "xyz"), ("code", "the-code")]);
    assert_eq!(auth_code_from_query(&q, "xyz"), Ok("the-code".to_string()));
}

#[test]
fn auth_reply_without_state() {
    let q = pairs(&[("code", "the-code")]);
    assert_eq!(auth_code_from_query(&q, "xyz"), Err(OAuthError::CsrfTokenNotFound));
}

#[test]
fn auth_reply_with_wrong_state() {
    let q = pairs(&[("state", "abc"), ("code", "the-code")]);
    assert_eq!(auth_code_from_query(&q, "xyz"), Err(OAuthError::InvalidState));
}

#[test]
fn auth_reply_without_code() {
    let q = pairs(&[("state", "xyz")]);
    assert_eq!(auth_code_from_query(&q, "xyz"), Err(OAuthError::AuthCodeNotFound));
}

#[test]
fn login_pages() {
    assert_eq!(login_page(true), LOGIN_SUCCESS_PAGE);
    assert_eq!(login_page(false), "something went wrong");
    assert_eq!(login_page(false), LOGIN_FAILURE_PAGE);
}

#[test]
fn auth_with_fresh_cached_token() {
    let (mut flow, first) = AuthFlow::start();
    assert_eq!(first, AuthAction::ReadCache);
    assert_eq!(flow.step(AuthEvent::CacheRead(CachedToken::Fresh)), Some(AuthAction::InstallCachedAndSave));
    assert_eq!(flow.step(AuthEvent::Saved), Some(AuthAction::ReturnToken));
    assert_eq!(flow.phase(), AuthPhase::Finished);
}

#[test]
fn auth_with_expired_token_that_refreshes() {
    let (mut flow, _) = AuthFlow::start();
    assert_eq!(flow.step(AuthEvent::CacheRead(CachedToken::Expired)), Some(AuthAction::InstallCachedAndRefetch));
    assert_eq!(flow.step(AuthEvent::Refetched(RefetchOutcome::Refreshed)), Some(AuthAction::InstallRefreshedAndSave));
    assert_eq!(flow.phase(), AuthPhase::Saving);
}

#[test]
fn auth_with_expired_token_that_fails_to_refresh() {
    for outcome in [RefetchOutcome::NoToken, RefetchOutcome::Failed] {
        let (mut flow, _) = AuthFlow::start();
        flow.step(AuthEvent::CacheRead(CachedToken::Expired));
        assert_eq!(flow.step(AuthEvent::Refetched(outcome)), Some(AuthAction::PromptForCode));
        assert_eq!(flow.step(AuthEvent::SignedIn), Some(AuthAction::Save));
    }
}

#[test]
fn auth_without_cached_token() {
    let (mut flow, _) = AuthFlow::start();
    assert_eq!(flow.step(AuthEvent::CacheRead(CachedToken::Absent)), Some(AuthAction::ListenForCode));
    assert_eq!(flow.step(AuthEvent::Saved), None);
    assert_eq!(flow.phase(), AuthPhase::SigningIn);
    assert_eq!(flow.step(AuthEvent::SignedIn), Some(AuthAction::Save));
    assert_eq!(flow.step(AuthEvent::Saved), Some(AuthAction::ReturnToken));
}

#[test]
fn list_targets() {
    assert!(matches!(list_target(None), Ok(ListTarget::Playlists)));
    match list_target(Some("abc123".to_string())) {
        Ok(ListTarget::PlaylistSongs(p)) => assert_eq!(p.id(), "abc123"),
        _ => panic!("expected a playlist"),
    }
    assert!(matches!(list_target(Some("not/valid".to_string())), Err(IdError::InvalidId)));
}

#[test]
fn adding_a_track_loads_it() {
    let req = load_request(&Add::Track(TrackId::track("4iV5W9uYEdYUVa79Axb7Rh").unwrap()));
    assert_eq!(req.uri, "spotify:track:4iV5W9uYEdYUVa79Axb7Rh");
    assert!(req.start_playing);
    assert_eq!(req.position_ms, 0);
}

#[test]
fn cache_keys() {
    assert_eq!(make_key("alloc::vec::Vec<Track>", "abc"), "alloc::vec::Vec<Track>-abc");
    assert_ne!(make_key("T", "a"), make_key("T", "b"));
}

#[test]
fn find_first_matching_playlist() {
    let id = PlaylistId::from_id("p2").unwrap();
    let lists = vec![
        PlaylistInfo { id: PlaylistId::from_id("p1").unwrap(), name: "one".to_string() },
        PlaylistInfo { id: PlaylistId::from_id("p2").unwrap(), name: "two".to_string() },
        PlaylistInfo { id: PlaylistId::from_id("p2").unwrap(), name: "three".to_string() },
    ];
    assert_eq!(find_playlist(lists, &id).unwrap().name, "two");
    assert!(find_playlist(vec![], &id).is_none());
}

#[test]
fn error_responses_are_bad_requests() {
    let e = Error::new("outer".to_string(), vec!["outer".to_string(), "inner".to_string()]);
    assert_eq!(e.message(), "outer");
    assert_eq!(e.causes().len(), 2);
    let (status, body) = e.into_response();
    assert_eq!(status, 400);
    assert_eq!(body.message, "outer");
    assert_eq!(body.causes, vec!["outer".to_string(), "inner".to_string()]);
}

#[test]
fn read_through_hit() {
    let (mut read, first) = ReadThrough::start();
    assert_eq!(first, ReadThroughAction::Lookup);
    assert_eq!(read.step(ReadThroughEvent::Hit), Some(ReadThroughAction::ReturnCached));
    assert_eq!(read.phase(), ReadThroughPhase::Done);
    assert_eq!(read.step(ReadThroughEvent::Fetched), None);
}

#[test]
fn read_through_miss() {
    let (mut read, _) = ReadThrough::start();
    assert_eq!(read.step(ReadThroughEvent::Miss), Some(ReadThroughAction::Fetch));
    assert_eq!(read.step(ReadThroughEvent::Stored), None);
    assert_eq!(read.step(ReadThroughEvent::Fetched), Some(ReadThroughAction::Store));
    assert_eq!(read.step(ReadThroughEvent::Stored), Some(ReadThroughAction::ReturnFetched));
    assert_eq!(read.phase(), ReadThroughPhase::Done);
}
