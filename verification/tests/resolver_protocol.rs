//! The session-identity resolution protocol: branch coverage and the
//! revert/close discipline on failure paths.

use cua::next_action;
use cua::resolve_step;
use cua::ResolveAction;
use cua::ResolveError;
use cua::ResolveEvent;
use cua::ResolveState;
use cua::SessionConnectState;

fn ok(s: &str) -> Result<String, String> {
    Ok(s.to_string())
}

fn fail(s: &str) -> Result<String, String> {
    Err(s.to_string())
}

#[test]
fn happy_path_resolves_cloud_identity() {
    let mut st = ResolveState::Start;
    assert_eq!(next_action(&st), ResolveAction::QuerySessionId);
    st = resolve_step(st, ResolveEvent::SessionId { id: 1 });
    assert_eq!(next_action(&st), ResolveAction::QueryConnectState);
    st = resolve_step(
        st,
        ResolveEvent::ConnectState { result: Ok(SessionConnectState::Active) },
    );
    assert_eq!(next_action(&st), ResolveAction::QueryUserToken);
    st = resolve_step(st, ResolveEvent::Token { result: Ok(()) });
    assert_eq!(next_action(&st), ResolveAction::ReadSid);
    st = resolve_step(st, ResolveEvent::Sid { result: ok("S-1-12-1-1-2-3-4") });
    assert_eq!(next_action(&st), ResolveAction::Impersonate);
    st = resolve_step(st, ResolveEvent::Impersonated { result: Ok(()) });
    // Cloud SID: the principal-style name form is requested.
    assert_eq!(next_action(&st), ResolveAction::QueryUsername { azure: true });
    st = resolve_step(st, ResolveEvent::Username { result: ok("alice@contoso.com") });
    assert_eq!(next_action(&st), ResolveAction::Revert);
    st = resolve_step(st, ResolveEvent::Reverted { result: Ok(()) });
    assert_eq!(next_action(&st), ResolveAction::CloseToken);
    st = resolve_step(st, ResolveEvent::Closed { result: Ok(()) });
    assert_eq!(next_action(&st), ResolveAction::Finish);
    match st {
        ResolveState::Done { result: Ok(Some(info)) } => {
            assert_eq!(info.sid, "S-1-12-1-1-2-3-4");
            assert_eq!(info.username, "alice@contoso.com");
            assert_eq!(info.user_type, "AzureAD");
            assert_eq!(
                info.azure_ad_object_id.as_deref(),
                Some("01000000-0200-0000-0300-000004000000")
            );
        }
        _ => panic!("expected a resolved cloud identity"),
    }
}

#[test]
fn domain_identity_requests_legacy_name_form_and_no_object_id() {
    let mut st = ResolveState::Start;
    st = resolve_step(st, ResolveEvent::SessionId { id: 2 });
    st = resolve_step(
        st,
        ResolveEvent::ConnectState { result: Ok(SessionConnectState::Disconnected) },
    );
    st = resolve_step(st, ResolveEvent::Token { result: Ok(()) });
    st = resolve_step(st, ResolveEvent::Sid { result: ok("S-1-5-21-1111-2222-3333-1001") });
    st = resolve_step(st, ResolveEvent::Impersonated { result: Ok(()) });
    assert_eq!(next_action(&st), ResolveAction::QueryUsername { azure: false });
    st = resolve_step(st, ResolveEvent::Username { result: ok("CONTOSO\\bob") });
    st = resolve_step(st, ResolveEvent::Reverted { result: Ok(()) });
    st = resolve_step(st, ResolveEvent::Closed { result: Ok(()) });
    match st {
        ResolveState::Done { result: Ok(Some(info)) } => {
            assert_eq!(info.user_type, "DomainOrLocal");
            assert_eq!(info.username, "CONTOSO\\bob");
            assert_eq!(info.azure_ad_object_id, None);
        }
        _ => panic!("expected a resolved domain identity"),
    }
}

#[test]
fn no_session_sentinel_resolves_to_no_identity() {
    let st = resolve_step(ResolveState::Start, ResolveEvent::SessionId { id: 0xFFFF_FFFF });
    assert!(matches!(st, ResolveState::Done { result: Ok(None) }));
}

#[test]
fn unusable_connect_state_resolves_to_no_identity() {
    let mut st = resolve_step(ResolveState::Start, ResolveEvent::SessionId { id: 1 });
    st = resolve_step(
        st,
        ResolveEvent::ConnectState { result: Ok(SessionConnectState::Other) },
    );
    assert!(matches!(st, ResolveState::Done { result: Ok(None) }));
}

#[test]
fn connect_state_query_failure_is_hard() {
    let mut st = resolve_step(ResolveState::Start, ResolveEvent::SessionId { id: 1 });
    st = resolve_step(
        st,
        ResolveEvent::ConnectState { result: Err("bad buffer".to_string()) },
    );
    match st {
        ResolveState::Done { result: Err(ResolveError::ConnectStateQuery { message }) } => {
            assert_eq!(message, "bad buffer");
        }
        _ => panic!("expected a connect-state failure"),
    }
}

#[test]
fn token_query_failure_is_hard() {
    let mut st = resolve_step(ResolveState::Start, ResolveEvent::SessionId { id: 1 });
    st = resolve_step(
        st,
        ResolveEvent::ConnectState { result: Ok(SessionConnectState::Active) },
    );
    st = resolve_step(st, ResolveEvent::Token { result: Err("denied".to_string()) });
    assert!(matches!(
        st,
        ResolveState::Done { result: Err(ResolveError::TokenQuery { .. }) }
    ));
}

#[test]
fn sid_read_failure_still_closes_the_token() {
    let mut st = resolve_step(ResolveState::Start, ResolveEvent::SessionId { id: 1 });
    st = resolve_step(
        st,
        ResolveEvent::ConnectState { result: Ok(SessionConnectState::Active) },
    );
    st = resolve_step(st, ResolveEvent::Token { result: Ok(()) });
    st = resolve_step(st, ResolveEvent::Sid { result: fail("no sid") });
    // The error is reported only after the token is closed.
    assert_eq!(next_action(&st), ResolveAction::CloseToken);
    st = resolve_step(st, ResolveEvent::Closed { result: Ok(()) });
    match st {
        ResolveState::Done { result: Err(ResolveError::SidRead { message }) } => {
            assert_eq!(message, "no sid");
        }
        _ => panic!("expected the sid-read failure after the close"),
    }
}

#[test]
fn username_failure_reverts_and_closes_before_reporting() {
    let mut st = resolve_step(ResolveState::Start, ResolveEvent::SessionId { id: 1 });
    st = resolve_step(
        st,
        ResolveEvent::ConnectState { result: Ok(SessionConnectState::Active) },
    );
    st = resolve_step(st, ResolveEvent::Token { result: Ok(()) });
    st = resolve_step(st, ResolveEvent::Sid { result: ok("S-1-5-21-1-2-3-4") });
    st = resolve_step(st, ResolveEvent::Impersonated { result: Ok(()) });
    st = resolve_step(st, ResolveEvent::Username { result: fail("lookup failed") });
    // Revert comes first, unconditionally.
    assert_eq!(next_action(&st), ResolveAction::Revert);
    st = resolve_step(st, ResolveEvent::Reverted { result: Ok(()) });
    assert_eq!(next_action(&st), ResolveAction::CloseToken);
    st = resolve_step(st, ResolveEvent::Closed { result: Ok(()) });
    assert!(matches!(
        st,
        ResolveState::Done { result: Err(ResolveError::UsernameLookup { .. }) }
    ));
}

#[test]
fn impersonation_failure_closes_the_token_before_reporting() {
    let mut st = resolve_step(ResolveState::Start, ResolveEvent::SessionId { id: 1 });
    st = resolve_step(
        st,
        ResolveEvent::ConnectState { result: Ok(SessionConnectState::Active) },
    );
    st = resolve_step(st, ResolveEvent::Token { result: Ok(()) });
    st = resolve_step(st, ResolveEvent::Sid { result: ok("S-1-5-21-1-2-3-4") });
    st = resolve_step(st, ResolveEvent::Impersonated { result: Err("denied".to_string()) });
    assert_eq!(next_action(&st), ResolveAction::CloseToken);
    st = resolve_step(st, ResolveEvent::Closed { result: Ok(()) });
    assert!(matches!(
        st,
        ResolveState::Done { result: Err(ResolveError::Impersonate { .. }) }
    ));
}
