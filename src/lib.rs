//! A scheduler of time-delayed device commands: high-level commands expand
//! into primitive commands with absolute fire times, held in a time-ordered
//! schedule and emitted one per pass of the dispatch loop once due.

mod command;
mod dispatch;
mod laws;

pub use command::{expansion, fire_time, BPCommand, ScriptCommand};
pub use dispatch::{
    has_due, ingested, insert_entries, is_min_key, min_key, pass_spec, phase_of, DispatchState,
    Dispatcher, Phase,
};
pub use laws::{
    is_idle, lemma_close_after_vibrate_ends, lemma_close_when_idle,
    lemma_coincident_stops_collapse, lemma_emits_earliest_due, lemma_stop_when_idle,
    lemma_terminated_is_final, lemma_vibrate_for_emits_vibrate_then_stop,
    lemma_zero_duration_keeps_stop,
};
