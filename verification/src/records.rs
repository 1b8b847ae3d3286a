//! The structured records the service emits, and the decisions that shape
//! them: the whitelist filter applied to each qualifying logon/logoff event,
//! and the assembly of one emission batch from a collection pass.

use vstd::prelude::*;

use crate::device::EntraJoinInfo;
use crate::device::RegistryError;
use crate::events::Event;
use crate::events::spec_category_name;
use crate::events::spec_classify;
use crate::events::spec_lookup;
use crate::resolver::CurrentUserInfo;
use crate::resolver::CurrentUserInfoV;
use crate::resolver::ResolveError;
use crate::resolver::ResolveErrorV;
use crate::resolver::spec_error_detail;
use crate::sid::is_whitelisted_sid;
use crate::sid::spec_is_whitelisted;

verus! {

/// One logon/logoff detection record.
#[derive(Debug)]
pub struct LogonLogoffRecord {
    pub event_type: String,
    pub user_sid: String,
    pub username: Option<String>,
    pub logon_type: Option<String>,
}

/// Abstract value of a [`LogonLogoffRecord`].
pub struct LogonLogoffRecordV {
    pub event_type: Seq<char>,
    pub user_sid: Seq<char>,
    pub username: Option<Seq<char>>,
    pub logon_type: Option<Seq<char>>,
}

impl View for LogonLogoffRecord {
    type V = LogonLogoffRecordV;

    open spec fn view(&self) -> LogonLogoffRecordV {
        LogonLogoffRecordV {
            event_type: self.event_type@,
            user_sid: self.user_sid@,
            username: match self.username {
                Some(ref u) => Some(u@),
                None => None,
            },
            logon_type: match self.logon_type {
                Some(ref t) => Some(t@),
                None => None,
            },
        }
    }
}

/// What one gated event leads to.
#[derive(Debug)]
pub enum LogonEventOutcome {
    /// The event carries no data section: warned about, nothing emitted.
    NoEventData,
    /// The event names no target user SID: nothing emitted.
    NoTargetSid,
    /// The target user SID is a whitelisted non-interactive account:
    /// filtered out, collection is not triggered.
    Whitelisted,
    /// A detection record to emit; identity collection follows.
    Report(LogonLogoffRecord),
}

/// Abstract value of a [`LogonEventOutcome`].
pub enum LogonEventOutcomeV {
    NoEventData,
    NoTargetSid,
    Whitelisted,
    Report(LogonLogoffRecordV),
}

impl View for LogonEventOutcome {
    type V = LogonEventOutcomeV;

    open spec fn view(&self) -> LogonEventOutcomeV {
        match self {
            LogonEventOutcome::NoEventData => LogonEventOutcomeV::NoEventData,
            LogonEventOutcome::NoTargetSid => LogonEventOutcomeV::NoTargetSid,
            LogonEventOutcome::Whitelisted => LogonEventOutcomeV::Whitelisted,
            LogonEventOutcome::Report(r) => LogonEventOutcomeV::Report(r@),
        }
    }
}

/// The outcome one event decides: events without a data section or a
/// `TargetUserSid` field emit nothing; a whitelisted SID never triggers
/// collection; every other SID yields a detection record whose category
/// names the event identifier's class and whose username and logon type are
/// the event's fields, when present.
pub open spec fn spec_process_logon_event(
    event_id: u32,
    data: Option<Seq<(Seq<char>, Seq<char>)>>,
) -> LogonEventOutcomeV {
    match data {
        None => LogonEventOutcomeV::NoEventData,
        Some(fields) => match spec_lookup(fields, "TargetUserSid"@) {
            None => LogonEventOutcomeV::NoTargetSid,
            Some(sid) => if spec_is_whitelisted(sid) {
                LogonEventOutcomeV::Whitelisted
            } else {
                LogonEventOutcomeV::Report(
                    LogonLogoffRecordV {
                        event_type: spec_category_name(spec_classify(event_id)),
                        user_sid: sid,
                        username: spec_lookup(fields, "TargetUserName"@),
                        logon_type: spec_lookup(fields, "LogonType"@),
                    },
                )
            },
        },
    }
}

/// Whitelist law: an event whose `TargetUserSid` starts with one of the
/// whitelisted prefixes never triggers collection, whatever its category;
/// every other SID does, whenever a qualifying event names it.
pub proof fn lemma_whitelist_filters_collection(
    event_id: u32,
    fields: Seq<(Seq<char>, Seq<char>)>,
    sid: Seq<char>,
)
    requires
        spec_lookup(fields, "TargetUserSid"@) == Some(sid),
    ensures
        spec_is_whitelisted(sid) ==> spec_process_logon_event(event_id, Some(fields))
            == LogonEventOutcomeV::Whitelisted,
        !spec_is_whitelisted(sid) ==> (spec_process_logon_event(event_id, Some(fields))
            matches LogonEventOutcomeV::Report(rec) && rec.user_sid == sid),
{
}

/// Decide what one gated logon/logoff event leads to.
pub fn process_logon_event(event: &Event) -> (r: LogonEventOutcome)
    ensures
        r@ == spec_process_logon_event(event.system.event_id, event.data_fields()),
{
    match &event.event_data {
        None => LogonEventOutcome::NoEventData,
        Some(data) => {
            match data.get_value("TargetUserSid") {
                None => LogonEventOutcome::NoTargetSid,
                Some(sid) => {
                    if is_whitelisted_sid(sid.as_str()) {
                        LogonEventOutcome::Whitelisted
                    } else {
                        let event_type = event.system.get_event_id_type().name();
                        let username = data.get_value("TargetUserName");
                        let logon_type = data.get_value("LogonType");
                        LogonEventOutcome::Report(
                            LogonLogoffRecord { event_type, user_sid: sid, username, logon_type },
                        )
                    }
                },
            }
        },
    }
}

/// One record of an emission batch.
#[derive(Debug)]
pub enum EmittedRecord {
    /// One device identity record.
    TenantInfo { tenant_id: String, device_id: String, registered_user: String },
    /// The whole device identity pass failed.
    TenantInfoError { message: String },
    /// The signed-in user's identity.
    CurrentUser {
        user_sid: String,
        username: String,
        user_type: String,
        azure_ad_object_id: Option<String>,
    },
    /// No user is signed in on the console: not an error.
    NoCurrentUser,
    /// The identity resolution pass failed.
    CurrentUserError { message: String },
}

/// Abstract value of an [`EmittedRecord`].
pub enum EmittedRecordV {
    TenantInfo { tenant_id: Seq<char>, device_id: Seq<char>, registered_user: Seq<char> },
    TenantInfoError { message: Seq<char> },
    CurrentUser {
        user_sid: Seq<char>,
        username: Seq<char>,
        user_type: Seq<char>,
        azure_ad_object_id: Option<Seq<char>>,
    },
    NoCurrentUser,
    CurrentUserError { message: Seq<char> },
}

impl View for EmittedRecord {
    type V = EmittedRecordV;

    open spec fn view(&self) -> EmittedRecordV {
        match self {
            EmittedRecord::TenantInfo { tenant_id, device_id, registered_user } => {
                EmittedRecordV::TenantInfo {
                    tenant_id: tenant_id@,
                    device_id: device_id@,
                    registered_user: registered_user@,
                }
            },
            EmittedRecord::TenantInfoError { message } => EmittedRecordV::TenantInfoError {
                message: message@,
            },
            EmittedRecord::CurrentUser { user_sid, username, user_type, azure_ad_object_id } => {
                EmittedRecordV::CurrentUser {
                    user_sid: user_sid@,
                    username: username@,
                    user_type: user_type@,
                    azure_ad_object_id: match azure_ad_object_id {
                        Some(ref s) => Some(s@),
                        None => None,
                    },
                }
            },
            EmittedRecord::NoCurrentUser => EmittedRecordV::NoCurrentUser,
            EmittedRecord::CurrentUserError { message } => EmittedRecordV::CurrentUserError {
                message: message@,
            },
        }
    }
}

/// The record a user identity pass emits.
pub open spec fn spec_user_record(
    user: Result<Option<CurrentUserInfoV>, ResolveErrorV>,
) -> EmittedRecordV {
    match user {
        Ok(Some(info)) => EmittedRecordV::CurrentUser {
            user_sid: info.sid,
            username: info.username,
            user_type: info.user_type,
            azure_ad_object_id: info.object_id,
        },
        Ok(None) => EmittedRecordV::NoCurrentUser,
        Err(e) => EmittedRecordV::CurrentUserError { message: spec_error_detail(e) },
    }
}

/// The view of one identity pass result.
pub open spec fn spec_user_result_view(
    user: Result<Option<CurrentUserInfo>, ResolveError>,
) -> Result<Option<CurrentUserInfoV>, ResolveErrorV> {
    match user {
        Ok(Some(info)) => Ok(Some(info@)),
        Ok(None) => Ok(None),
        Err(e) => Err(e@),
    }
}

/// Assemble one emission batch from a collection pass: one device identity
/// record per tenant-join entry — or a single error record when that pass
/// failed — followed by exactly one record for the signed-in user's
/// identity: the identity, "no user", or the failure.
pub fn collect_logs(
    device: Result<Vec<EntraJoinInfo>, RegistryError>,
    user: Result<Option<CurrentUserInfo>, ResolveError>,
) -> (out: Vec<EmittedRecord>)
    ensures
        ({
            let base: int = match device {
                Ok(v) => v@.len() as int,
                Err(_) => 1,
            };
            &&& out@.len() == base + 1
            &&& (device matches Ok(v) ==> forall|i: int|
                0 <= i < v@.len() ==> out@[i]@ == (EmittedRecordV::TenantInfo {
                    tenant_id: v@[i]@.tenant_id,
                    device_id: v@[i]@.device_id,
                    registered_user: v@[i]@.registered_user,
                }))
            &&& (device matches Err(e) ==> out@[0]@ == (EmittedRecordV::TenantInfoError {
                message: e.message@,
            }))
            &&& out@[base]@ == spec_user_record(spec_user_result_view(user))
        }),
{
    let mut out: Vec<EmittedRecord> = Vec::new();
    match device {
        Err(e) => {
            out.push(EmittedRecord::TenantInfoError { message: e.message });
        },
        Ok(v) => {
            let n = v.len();
            let mut i: usize = 0;
            while i < n
                invariant
                    n == v@.len(),
                    i <= n,
                    out@.len() == i,
                    forall|j: int|
                        0 <= j < i ==> out@[j]@ == (EmittedRecordV::TenantInfo {
                            tenant_id: v@[j]@.tenant_id,
                            device_id: v@[j]@.device_id,
                            registered_user: v@[j]@.registered_user,
                        }),
                decreases n - i,
            {
                out.push(
                    EmittedRecord::TenantInfo {
                        tenant_id: v[i].tenant_id.clone(),
                        device_id: v[i].device_id.clone(),
                        registered_user: v[i].registered_user.clone(),
                    },
                );
                i = i + 1;
            }
        },
    }
    match user {
        Ok(Some(info)) => {
            out.push(
                EmittedRecord::CurrentUser {
                    user_sid: info.sid,
                    username: info.username,
                    user_type: info.user_type,
                    azure_ad_object_id: info.azure_ad_object_id,
                },
            );
        },
        Ok(None) => {
            out.push(EmittedRecord::NoCurrentUser);
        },
        Err(e) => {
            let message = e.detail().clone();
            out.push(EmittedRecord::CurrentUserError { message });
        },
    }
    out
}

} // verus!
