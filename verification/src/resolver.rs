//! Resolution of the active console session's user identity.
//!
//! The resolution is a fixed protocol of privileged OS calls: query the
//! active console session, check its connect state, acquire the session
//! user's token, read the token's SID, impersonate the user, resolve the
//! display username, then unconditionally revert the impersonation and close
//! the token — on every path, including failures. The decisions of that
//! protocol live here as a state machine: [`next_action`] says which call to
//! make, the caller performs it and feeds the outcome back through
//! [`resolve_step`]. The machine owns every branch; the caller owns only the
//! calls themselves.

use vstd::prelude::*;

use crate::sid::convert_azure_ad_sid_to_object_id;
use crate::sid::spec_is_azure_ad_sid;
use crate::sid::spec_object_id;
use crate::sid::spec_user_type_name;
use crate::sid::user_type_for_sid;
use crate::strutil::str_starts_with;

verus! {

/// The signed-in user's resolved identity.
#[derive(Debug)]
pub struct CurrentUserInfo {
    pub sid: String,
    pub username: String,
    pub user_type: String,
    pub azure_ad_object_id: Option<String>,
}

/// Abstract value of a [`CurrentUserInfo`].
pub struct CurrentUserInfoV {
    pub sid: Seq<char>,
    pub username: Seq<char>,
    pub user_type: Seq<char>,
    pub object_id: Option<Seq<char>>,
}

impl View for CurrentUserInfo {
    type V = CurrentUserInfoV;

    open spec fn view(&self) -> CurrentUserInfoV {
        CurrentUserInfoV {
            sid: self.sid@,
            username: self.username@,
            user_type: self.user_type@,
            object_id: match self.azure_ad_object_id {
                Some(ref s) => Some(s@),
                None => None,
            },
        }
    }
}

/// The record a resolved identity abstracts to: the user type follows the
/// SID's cloud prefix, and the object identifier is present exactly when the
/// identity is a cloud identity whose SID decodes.
pub open spec fn spec_user_info(sid: Seq<char>, username: Seq<char>) -> CurrentUserInfoV {
    CurrentUserInfoV {
        sid: sid,
        username: username,
        user_type: spec_user_type_name(spec_is_azure_ad_sid(sid)),
        object_id: if spec_is_azure_ad_sid(sid) {
            spec_object_id(sid)
        } else {
            None
        },
    }
}

/// Build the identity record for a resolved SID and username.
pub fn build_current_user_info(sid: String, username: String) -> (info: CurrentUserInfo)
    ensures
        info@ == spec_user_info(sid@, username@),
{
    let user_type = user_type_for_sid(sid.as_str());
    let azure = str_starts_with(sid.as_str(), "S-1-12-1");
    let azure_ad_object_id = if azure {
        convert_azure_ad_sid_to_object_id(sid.as_str())
    } else {
        None
    };
    let info = CurrentUserInfo { sid, username, user_type, azure_ad_object_id };
    proof {
        assert(info@.object_id == spec_user_info(info.sid@, info.username@).object_id);
    }
    info
}

/// A console session's connect state, as the protocol reads it: active,
/// disconnected, or anything else (not interactively usable).
#[derive(Debug, Clone, Copy, PartialEq, Eq, Structural)]
pub enum SessionConnectState {
    Active,
    Disconnected,
    Other,
}

/// A hard failure of one resolution pass, carrying the failing call's own
/// message.
#[derive(Debug)]
pub enum ResolveError {
    ConnectStateQuery { message: String },
    TokenQuery { message: String },
    SidRead { message: String },
    Impersonate { message: String },
    UsernameLookup { message: String },
    Revert { message: String },
    CloseToken { message: String },
}

/// Abstract value of a [`ResolveError`].
pub enum ResolveErrorV {
    ConnectStateQuery { message: Seq<char> },
    TokenQuery { message: Seq<char> },
    SidRead { message: Seq<char> },
    Impersonate { message: Seq<char> },
    UsernameLookup { message: Seq<char> },
    Revert { message: Seq<char> },
    CloseToken { message: Seq<char> },
}

impl View for ResolveError {
    type V = ResolveErrorV;

    open spec fn view(&self) -> ResolveErrorV {
        match self {
            ResolveError::ConnectStateQuery { message } => ResolveErrorV::ConnectStateQuery {
                message: message@,
            },
            ResolveError::TokenQuery { message } => ResolveErrorV::TokenQuery {
                message: message@,
            },
            ResolveError::SidRead { message } => ResolveErrorV::SidRead { message: message@ },
            ResolveError::Impersonate { message } => ResolveErrorV::Impersonate {
                message: message@,
            },
            ResolveError::UsernameLookup { message } => ResolveErrorV::UsernameLookup {
                message: message@,
            },
            ResolveError::Revert { message } => ResolveErrorV::Revert { message: message@ },
            ResolveError::CloseToken { message } => ResolveErrorV::CloseToken {
                message: message@,
            },
        }
    }
}

impl ResolveError {
    /// The failing call's message, for the emitted record.
    pub fn detail(&self) -> (m: &String)
        ensures
            m@ == spec_error_detail(self@),
    {
        match self {
            ResolveError::ConnectStateQuery { message } => message,
            ResolveError::TokenQuery { message } => message,
            ResolveError::SidRead { message } => message,
            ResolveError::Impersonate { message } => message,
            ResolveError::UsernameLookup { message } => message,
            ResolveError::Revert { message } => message,
            ResolveError::CloseToken { message } => message,
        }
    }
}

/// The message a [`ResolveError`] carries.
pub open spec fn spec_error_detail(e: ResolveErrorV) -> Seq<char> {
    match e {
        ResolveErrorV::ConnectStateQuery { message } => message,
        ResolveErrorV::TokenQuery { message } => message,
        ResolveErrorV::SidRead { message } => message,
        ResolveErrorV::Impersonate { message } => message,
        ResolveErrorV::UsernameLookup { message } => message,
        ResolveErrorV::Revert { message } => message,
        ResolveErrorV::CloseToken { message } => message,
    }
}

/// What the machine still owes once the token is closed: report a failure,
/// or finish building the identity from the resolved SID and username.
#[derive(Debug)]
pub enum ClosePending {
    Failed { error: ResolveError },
    Resolved { sid: String, username: Result<String, String> },
}

/// Abstract value of a [`ClosePending`].
pub enum ClosePendingV {
    Failed { error: ResolveErrorV },
    Resolved { sid: Seq<char>, username: Result<Seq<char>, Seq<char>> },
}

impl View for ClosePending {
    type V = ClosePendingV;

    open spec fn view(&self) -> ClosePendingV {
        match self {
            ClosePending::Failed { error } => ClosePendingV::Failed { error: error@ },
            ClosePending::Resolved { sid, username } => ClosePendingV::Resolved {
                sid: sid@,
                username: match username {
                    Ok(u) => Ok(u@),
                    Err(m) => Err(m@),
                },
            },
        }
    }
}

/// The resolver's state: which call it awaits, and what it carries. The
/// token is open from `AwaitSid` through `AwaitClose`; the thread is
/// impersonating in `AwaitUsername` and `AwaitRevert`.
#[derive(Debug)]
pub enum ResolveState {
    Start,
    AwaitConnectState,
    AwaitToken,
    AwaitSid,
    AwaitImpersonation { sid: String },
    AwaitUsername { sid: String },
    AwaitRevert { sid: String, username: Result<String, String> },
    AwaitClose { pending: ClosePending },
    Done { result: Result<Option<CurrentUserInfo>, ResolveError> },
}

/// Abstract value of a [`ResolveState`].
pub enum ResolveStateV {
    Start,
    AwaitConnectState,
    AwaitToken,
    AwaitSid,
    AwaitImpersonation { sid: Seq<char> },
    AwaitUsername { sid: Seq<char> },
    AwaitRevert { sid: Seq<char>, username: Result<Seq<char>, Seq<char>> },
    AwaitClose { pending: ClosePendingV },
    Done { result: Result<Option<CurrentUserInfoV>, ResolveErrorV> },
}

impl View for ResolveState {
    type V = ResolveStateV;

    open spec fn view(&self) -> ResolveStateV {
        match self {
            ResolveState::Start => ResolveStateV::Start,
            ResolveState::AwaitConnectState => ResolveStateV::AwaitConnectState,
            ResolveState::AwaitToken => ResolveStateV::AwaitToken,
            ResolveState::AwaitSid => ResolveStateV::AwaitSid,
            ResolveState::AwaitImpersonation { sid } => ResolveStateV::AwaitImpersonation {
                sid: sid@,
            },
            ResolveState::AwaitUsername { sid } => ResolveStateV::AwaitUsername { sid: sid@ },
            ResolveState::AwaitRevert { sid, username } => ResolveStateV::AwaitRevert {
                sid: sid@,
                username: match username {
                    Ok(u) => Ok(u@),
                    Err(m) => Err(m@),
                },
            },
            ResolveState::AwaitClose { pending } => ResolveStateV::AwaitClose {
                pending: pending@,
            },
            ResolveState::Done { result } => ResolveStateV::Done {
                result: match result {
                    Ok(None) => Ok(None),
                    Ok(Some(info)) => Ok(Some(info@)),
                    Err(e) => Err(e@),
                },
            },
        }
    }
}

/// The outcome of one OS call, fed back into the machine.
#[derive(Debug)]
#[allow(inconsistent_fields)]
pub enum ResolveEvent {
    SessionId { id: u32 },
    ConnectState { result: Result<SessionConnectState, String> },
    Token { result: Result<(), String> },
    Sid { result: Result<String, String> },
    Impersonated { result: Result<(), String> },
    Username { result: Result<String, String> },
    Reverted { result: Result<(), String> },
    Closed { result: Result<(), String> },
}

/// Abstract value of a [`ResolveEvent`].
#[allow(inconsistent_fields)]
pub enum ResolveEventV {
    SessionId { id: u32 },
    ConnectState { result: Result<SessionConnectState, Seq<char>> },
    Token { result: Result<(), Seq<char>> },
    Sid { result: Result<Seq<char>, Seq<char>> },
    Impersonated { result: Result<(), Seq<char>> },
    Username { result: Result<Seq<char>, Seq<char>> },
    Reverted { result: Result<(), Seq<char>> },
    Closed { result: Result<(), Seq<char>> },
}

impl View for ResolveEvent {
    type V = ResolveEventV;

    open spec fn view(&self) -> ResolveEventV {
        match self {
            ResolveEvent::SessionId { id } => ResolveEventV::SessionId { id: *id },
            ResolveEvent::ConnectState { result } => ResolveEventV::ConnectState {
                result: match result {
                    Ok(s) => Ok(*s),
                    Err(m) => Err(m@),
                },
            },
            ResolveEvent::Token { result } => ResolveEventV::Token {
                result: match result {
                    Ok(_) => Ok(()),
                    Err(m) => Err(m@),
                },
            },
            ResolveEvent::Sid { result } => ResolveEventV::Sid {
                result: match result {
                    Ok(s) => Ok(s@),
                    Err(m) => Err(m@),
                },
            },
            ResolveEvent::Impersonated { result } => ResolveEventV::Impersonated {
                result: match result {
                    Ok(_) => Ok(()),
                    Err(m) => Err(m@),
                },
            },
            ResolveEvent::Username { result } => ResolveEventV::Username {
                result: match result {
                    Ok(u) => Ok(u@),
                    Err(m) => Err(m@),
                },
            },
            ResolveEvent::Reverted { result } => ResolveEventV::Reverted {
                result: match result {
                    Ok(_) => Ok(()),
                    Err(m) => Err(m@),
                },
            },
            ResolveEvent::Closed { result } => ResolveEventV::Closed {
                result: match result {
                    Ok(_) => Ok(()),
                    Err(m) => Err(m@),
                },
            },
        }
    }
}

/// The OS call the machine asks its caller to perform next.
#[derive(Debug, Clone, Copy, PartialEq, Eq, Structural)]
pub enum ResolveAction {
    QuerySessionId,
    QueryConnectState,
    QueryUserToken,
    ReadSid,
    Impersonate,
    QueryUsername { azure: bool },
    Revert,
    CloseToken,
    Finish,
}

/// The sentinel session identifier that means no active console session.
pub open spec fn spec_no_session_id() -> u32 {
    0xFFFF_FFFFu32
}

/// Which call each state awaits. `QueryUsername` carries the name form:
/// principal-style for a cloud identity, legacy-compatible otherwise.
pub open spec fn spec_next_action(s: ResolveStateV) -> ResolveAction {
    match s {
        ResolveStateV::Start => ResolveAction::QuerySessionId,
        ResolveStateV::AwaitConnectState => ResolveAction::QueryConnectState,
        ResolveStateV::AwaitToken => ResolveAction::QueryUserToken,
        ResolveStateV::AwaitSid => ResolveAction::ReadSid,
        ResolveStateV::AwaitImpersonation { .. } => ResolveAction::Impersonate,
        ResolveStateV::AwaitUsername { sid } => ResolveAction::QueryUsername {
            azure: spec_is_azure_ad_sid(sid),
        },
        ResolveStateV::AwaitRevert { .. } => ResolveAction::Revert,
        ResolveStateV::AwaitClose { .. } => ResolveAction::CloseToken,
        ResolveStateV::Done { .. } => ResolveAction::Finish,
    }
}

/// The machine's transition: every branch of the resolution protocol.
///
/// No active session and a session in a state other than active or
/// disconnected resolve to "no identity", not an error. A failed session,
/// token or revert call is a hard failure. A failure after the token is
/// open still closes the token first; a failure while impersonating still
/// reverts first. An event that does not answer the awaited call leaves the
/// machine unchanged.
pub open spec fn spec_step(s: ResolveStateV, e: ResolveEventV) -> ResolveStateV {
    match (s, e) {
        (ResolveStateV::Start, ResolveEventV::SessionId { id }) => {
            if id == spec_no_session_id() {
                ResolveStateV::Done { result: Ok(None) }
            } else {
                ResolveStateV::AwaitConnectState
            }
        },
        (ResolveStateV::AwaitConnectState, ResolveEventV::ConnectState { result }) => {
            match result {
                Err(m) => ResolveStateV::Done {
                    result: Err(ResolveErrorV::ConnectStateQuery { message: m }),
                },
                Ok(SessionConnectState::Active) => ResolveStateV::AwaitToken,
                Ok(SessionConnectState::Disconnected) => ResolveStateV::AwaitToken,
                Ok(SessionConnectState::Other) => ResolveStateV::Done { result: Ok(None) },
            }
        },
        (ResolveStateV::AwaitToken, ResolveEventV::Token { result }) => {
            match result {
                Err(m) => ResolveStateV::Done {
                    result: Err(ResolveErrorV::TokenQuery { message: m }),
                },
                Ok(_) => ResolveStateV::AwaitSid,
            }
        },
        (ResolveStateV::AwaitSid, ResolveEventV::Sid { result }) => {
            match result {
                Err(m) => ResolveStateV::AwaitClose {
                    pending: ClosePendingV::Failed {
                        error: ResolveErrorV::SidRead { message: m },
                    },
                },
                Ok(sid) => ResolveStateV::AwaitImpersonation { sid },
            }
        },
        (ResolveStateV::AwaitImpersonation { sid }, ResolveEventV::Impersonated { result }) => {
            match result {
                Err(m) => ResolveStateV::AwaitClose {
                    pending: ClosePendingV::Failed {
                        error: ResolveErrorV::Impersonate { message: m },
                    },
                },
                Ok(_) => ResolveStateV::AwaitUsername { sid },
            }
        },
        (ResolveStateV::AwaitUsername { sid }, ResolveEventV::Username { result }) => {
            ResolveStateV::AwaitRevert { sid, username: result }
        },
        (ResolveStateV::AwaitRevert { sid, username }, ResolveEventV::Reverted { result }) => {
            match result {
                Err(m) => ResolveStateV::Done {
                    result: Err(ResolveErrorV::Revert { message: m }),
                },
                Ok(_) => ResolveStateV::AwaitClose {
                    pending: ClosePendingV::Resolved { sid, username },
                },
            }
        },
        (ResolveStateV::AwaitClose { pending }, ResolveEventV::Closed { result }) => {
            match result {
                Err(m) => ResolveStateV::Done {
                    result: Err(ResolveErrorV::CloseToken { message: m }),
                },
                Ok(_) => match pending {
                    ClosePendingV::Failed { error } => ResolveStateV::Done {
                        result: Err(error),
                    },
                    ClosePendingV::Resolved { sid, username } => match username {
                        Err(m) => ResolveStateV::Done {
                            result: Err(ResolveErrorV::UsernameLookup { message: m }),
                        },
                        Ok(u) => ResolveStateV::Done {
                            result: Ok(Some(spec_user_info(sid, u))),
                        },
                    },
                },
            }
        },
        (other, _) => other,
    }
}

/// Which call the machine asks for next.
pub fn next_action(state: &ResolveState) -> (a: ResolveAction)
    ensures
        a == spec_next_action(state@),
{
    match state {
        ResolveState::Start => ResolveAction::QuerySessionId,
        ResolveState::AwaitConnectState => ResolveAction::QueryConnectState,
        ResolveState::AwaitToken => ResolveAction::QueryUserToken,
        ResolveState::AwaitSid => ResolveAction::ReadSid,
        ResolveState::AwaitImpersonation { .. } => ResolveAction::Impersonate,
        ResolveState::AwaitUsername { sid } => ResolveAction::QueryUsername {
            azure: str_starts_with(sid.as_str(), "S-1-12-1"),
        },
        ResolveState::AwaitRevert { .. } => ResolveAction::Revert,
        ResolveState::AwaitClose { .. } => ResolveAction::CloseToken,
        ResolveState::Done { .. } => ResolveAction::Finish,
    }
}

/// Feed one call's outcome into the machine.
pub fn resolve_step(state: ResolveState, event: ResolveEvent) -> (r: ResolveState)
    ensures
        r@ == spec_step(state@, event@),
{
    match (state, event) {
        (ResolveState::Start, ResolveEvent::SessionId { id }) => {
            if id == 0xFFFF_FFFFu32 {
                ResolveState::Done { result: Ok(None) }
            } else {
                ResolveState::AwaitConnectState
            }
        },
        (ResolveState::AwaitConnectState, ResolveEvent::ConnectState { result }) => {
            match result {
                Err(m) => ResolveState::Done {
                    result: Err(ResolveError::ConnectStateQuery { message: m }),
                },
                Ok(SessionConnectState::Active) => ResolveState::AwaitToken,
                Ok(SessionConnectState::Disconnected) => ResolveState::AwaitToken,
                Ok(SessionConnectState::Other) => ResolveState::Done { result: Ok(None) },
            }
        },
        (ResolveState::AwaitToken, ResolveEvent::Token { result }) => {
            match result {
                Err(m) => ResolveState::Done {
                    result: Err(ResolveError::TokenQuery { message: m }),
                },
                Ok(_) => ResolveState::AwaitSid,
            }
        },
        (ResolveState::AwaitSid, ResolveEvent::Sid { result }) => {
            match result {
                Err(m) => ResolveState::AwaitClose {
                    pending: ClosePending::Failed {
                        error: ResolveError::SidRead { message: m },
                    },
                },
                Ok(sid) => ResolveState::AwaitImpersonation { sid },
            }
        },
        (ResolveState::AwaitImpersonation { sid }, ResolveEvent::Impersonated { result }) => {
            match result {
                Err(m) => ResolveState::AwaitClose {
                    pending: ClosePending::Failed {
                        error: ResolveError::Impersonate { message: m },
                    },
                },
                Ok(_) => ResolveState::AwaitUsername { sid },
            }
        },
        (ResolveState::AwaitUsername { sid }, ResolveEvent::Username { result }) => {
            ResolveState::AwaitRevert { sid, username: result }
        },
        (ResolveState::AwaitRevert { sid, username }, ResolveEvent::Reverted { result }) => {
            match result {
                Err(m) => ResolveState::Done {
                    result: Err(ResolveError::Revert { message: m }),
                },
                Ok(_) => ResolveState::AwaitClose {
                    pending: ClosePending::Resolved { sid, username },
                },
            }
        },
        (ResolveState::AwaitClose { pending }, ResolveEvent::Closed { result }) => {
            match result {
                Err(m) => ResolveState::Done {
                    result: Err(ResolveError::CloseToken { message: m }),
                },
                Ok(_) => match pending {
                    ClosePending::Failed { error } => ResolveState::Done {
                        result: Err(error),
                    },
                    ClosePending::Resolved { sid, username } => match username {
                        Err(m) => ResolveState::Done {
                            result: Err(ResolveError::UsernameLookup { message: m }),
                        },
                        Ok(u) => {
                            let info = build_current_user_info(sid, u);
                            ResolveState::Done { result: Ok(Some(info)) }
                        },
                    },
                },
            }
        },
        (other, _) => other,
    }
}

/// The machine believes the thread holds an impersonated identity in these
/// states: after a successful impersonate call and before the revert.
pub open spec fn spec_impersonating(s: ResolveStateV) -> bool {
    match s {
        ResolveStateV::AwaitUsername { .. } => true,
        ResolveStateV::AwaitRevert { .. } => true,
        _ => false,
    }
}

/// The machine believes the session user's token is open in these states:
/// after a successful token query and before the close.
pub open spec fn spec_token_open(s: ResolveStateV) -> bool {
    match s {
        ResolveStateV::AwaitSid => true,
        ResolveStateV::AwaitImpersonation { .. } => true,
        ResolveStateV::AwaitUsername { .. } => true,
        ResolveStateV::AwaitRevert { .. } => true,
        ResolveStateV::AwaitClose { .. } => true,
        _ => false,
    }
}

/// `e` answers the call that `s` awaits.
pub open spec fn event_answers(s: ResolveStateV, e: ResolveEventV) -> bool {
    match (s, e) {
        (ResolveStateV::Start, ResolveEventV::SessionId { .. }) => true,
        (ResolveStateV::AwaitConnectState, ResolveEventV::ConnectState { .. }) => true,
        (ResolveStateV::AwaitToken, ResolveEventV::Token { .. }) => true,
        (ResolveStateV::AwaitSid, ResolveEventV::Sid { .. }) => true,
        (ResolveStateV::AwaitImpersonation { .. }, ResolveEventV::Impersonated { .. }) => true,
        (ResolveStateV::AwaitUsername { .. }, ResolveEventV::Username { .. }) => true,
        (ResolveStateV::AwaitRevert { .. }, ResolveEventV::Reverted { .. }) => true,
        (ResolveStateV::AwaitClose { .. }, ResolveEventV::Closed { .. }) => true,
        _ => false,
    }
}

/// The state after feeding the events of `evs` in order.
pub open spec fn spec_run(s: ResolveStateV, evs: Seq<ResolveEventV>) -> ResolveStateV
    decreases evs.len(),
{
    if evs.len() == 0 {
        s
    } else {
        spec_run(spec_step(s, evs[0]), evs.drop_first())
    }
}

/// Every event of `evs` answers the call awaited when it arrives.
pub open spec fn spec_conformant(s: ResolveStateV, evs: Seq<ResolveEventV>) -> bool
    decreases evs.len(),
{
    evs.len() == 0 || (event_answers(s, evs[0]) && spec_conformant(
        spec_step(s, evs[0]),
        evs.drop_first(),
    ))
}

/// The thread's OS-level impersonation after the calls reported in `evs`:
/// a successful impersonate call raises it, a successful revert clears it,
/// nothing else touches it.
pub open spec fn spec_os_impersonation(start: bool, evs: Seq<ResolveEventV>) -> bool
    decreases evs.len(),
{
    if evs.len() == 0 {
        start
    } else {
        spec_os_impersonation(
            match evs[0] {
                ResolveEventV::Impersonated { result: Ok(_) } => true,
                ResolveEventV::Reverted { result: Ok(_) } => false,
                _ => start,
            },
            evs.drop_first(),
        )
    }
}

/// Whether a token acquired by a successful token query is still open after
/// the calls reported in `evs`.
pub open spec fn spec_os_token(start: bool, evs: Seq<ResolveEventV>) -> bool
    decreases evs.len(),
{
    if evs.len() == 0 {
        start
    } else {
        spec_os_token(
            match evs[0] {
                ResolveEventV::Token { result: Ok(_) } => true,
                ResolveEventV::Closed { result: Ok(_) } => false,
                _ => start,
            },
            evs.drop_first(),
        )
    }
}

/// No revert call in `evs` failed.
pub open spec fn no_failed_revert(evs: Seq<ResolveEventV>) -> bool {
    forall|i: int|
        0 <= i < evs.len() ==> !((#[trigger] evs[i]) matches ResolveEventV::Reverted {
            result: Err(_),
        })
}

/// No close call in `evs` failed.
pub open spec fn no_failed_close(evs: Seq<ResolveEventV>) -> bool {
    forall|i: int|
        0 <= i < evs.len() ==> !((#[trigger] evs[i]) matches ResolveEventV::Closed {
            result: Err(_),
        })
}

/// One conformant step keeps the machine's belief about the thread's
/// impersonation and the token in step with the OS-level state.
proof fn lemma_step_resources(s: ResolveStateV, e: ResolveEventV)
    requires
        event_answers(s, e),
        !(e matches ResolveEventV::Reverted { result: Err(_) }),
        !(e matches ResolveEventV::Closed { result: Err(_) }),
    ensures
        spec_impersonating(spec_step(s, e)) == (match e {
            ResolveEventV::Impersonated { result: Ok(_) } => true,
            ResolveEventV::Reverted { result: Ok(_) } => false,
            _ => spec_impersonating(s),
        }),
        spec_token_open(spec_step(s, e)) == (match e {
            ResolveEventV::Token { result: Ok(_) } => true,
            ResolveEventV::Closed { result: Ok(_) } => false,
            _ => spec_token_open(s),
        }),
{
}

/// Along any conformant run without a failed revert or close, the OS-level
/// impersonation and token state equal what the machine's state says.
pub proof fn lemma_resources_track_state(s: ResolveStateV, evs: Seq<ResolveEventV>)
    requires
        spec_conformant(s, evs),
        no_failed_revert(evs),
        no_failed_close(evs),
    ensures
        spec_os_impersonation(spec_impersonating(s), evs) == spec_impersonating(spec_run(s, evs)),
        spec_os_token(spec_token_open(s), evs) == spec_token_open(spec_run(s, evs)),
    decreases evs.len(),
{
    if evs.len() > 0 {
        assert(no_failed_revert(evs.drop_first()) && no_failed_close(evs.drop_first())) by {
            assert(forall|i: int|
                0 <= i < evs.drop_first().len() ==> evs.drop_first()[i] == evs[i + 1]);
        }
        lemma_step_resources(s, evs[0]);
        lemma_resources_track_state(spec_step(s, evs[0]), evs.drop_first());
    }
}

/// Impersonation scope: in every conformant run of the protocol from its
/// start in which the revert and close calls themselves do not fail, once
/// the machine is done — whether it resolved an identity or reported a
/// failure — the thread's effective identity is the one held before the run
/// began, and the session token is closed.
pub proof fn lemma_impersonation_scoped(evs: Seq<ResolveEventV>)
    requires
        spec_conformant(ResolveStateV::Start, evs),
        no_failed_revert(evs),
        no_failed_close(evs),
        spec_run(ResolveStateV::Start, evs) is Done,
    ensures
        !spec_os_impersonation(false, evs),
        !spec_os_token(false, evs),
{
    lemma_resources_track_state(ResolveStateV::Start, evs);
}

} // verus!
