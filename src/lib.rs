//! Runs a command each time a login session is unlocked.
//!
//! The library holds the decisions: validating the session identifier,
//! picking the session's object out of the bus's session list, and the
//! state machine that turns `LockedHint` changes into process starts and
//! reconciliations. Talking to the bus and launching processes is left to
//! the caller, which feeds the outcomes back in.

mod manager;
mod monitor;
mod session_id;
mod supervisor;

pub use manager::{names_session, session_path_from_id, SessionRecord};
pub use monitor::{
    decide, directive_at, in_flight_after, lemma_inactive_is_ignored, lemma_no_start_without_reconcile,
    lemma_starts_iff_active_unlock, lemma_step_in_flight, reconciles, Directive, LockStateMonitor,
};
pub use session_id::{lemma_parse_display_round_trip, parsed, SessionId, SessionIdParseError};
pub use supervisor::{reconcile, reconciliation_for, PollOutcome, ProcessSupervisor, Reconciliation};
