//! Host-resident audit library: classifies interactive-session lifecycle
//! events, parses rendered event payloads, rate-limits their dispatch,
//! correlates device cloud-join identity with the signed-in user's identity,
//! and shapes the structured records a service emits.
//!
//! The service process around this library owns the OS calls — the audit
//! channel subscription, the registry reads, the session and token queries —
//! and hands their plain results in; every decision and every record is made
//! here.

pub mod debounce;
pub mod device;
pub mod events;
pub mod records;
pub mod resolver;
pub mod search;
pub mod sid;
pub mod strutil;
pub mod xml;

pub use debounce::DebounceGate;
pub use device::get_entra_join_info;
pub use device::EntraJoinInfo;
pub use device::RegistryError;
pub use device::TenantJoinEntry;
pub use events::Event;
pub use events::EventData;
pub use events::EventDataField;
pub use events::EventIdType;
pub use events::System;
pub use records::collect_logs;
pub use records::process_logon_event;
pub use records::EmittedRecord;
pub use records::LogonEventOutcome;
pub use records::LogonLogoffRecord;
pub use resolver::next_action;
pub use resolver::resolve_step;
pub use resolver::ClosePending;
pub use resolver::CurrentUserInfo;
pub use resolver::ResolveAction;
pub use resolver::ResolveError;
pub use resolver::ResolveEvent;
pub use resolver::ResolveState;
pub use resolver::SessionConnectState;
pub use sid::convert_azure_ad_sid_to_object_id;
pub use sid::is_whitelisted_sid;
pub use sid::user_type_for_sid;
pub use xml::dispatch_event;
pub use xml::parse_event_xml;
