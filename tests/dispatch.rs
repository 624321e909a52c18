use script_timer::{BPCommand, Dispatcher, Phase, ScriptCommand};

const SECOND: u64 = 1_000_000_000;

fn bits(x: f64) -> u64 {
    x.to_bits()
}

#[test]
fn expand_vibrate_for() {
    let c = ScriptCommand::VibrateFor(bits(0.5), 2 * SECOND);
    assert_eq!(
        c.expand(1000),
        vec![
            (1000u128, BPCommand::Vibrate(bits(0.5))),
            (1000u128 + 2_000_000_000, BPCommand::Stop)
        ]
    );
}

#[test]
fn expand_vibrate_for_with_index() {
    let c = ScriptCommand::VibrateForWithIndex(bits(0.75), 300, 4);
    assert_eq!(
        c.expand(7),
        vec![
            (7u128, BPCommand::VibrateIndex(bits(0.75), 4)),
            (307u128, BPCommand::VibrateIndex(bits(0.0), 4))
        ]
    );
}

#[test]
fn expand_linear_stop_close() {
    assert_eq!(
        ScriptCommand::Linear(250, bits(40.0)).expand(9),
        vec![(9u128, BPCommand::Linear(250, bits(40.0)))]
    );
    assert_eq!(ScriptCommand::Stop.expand(9), vec![(9u128, BPCommand::Stop)]);
    assert_eq!(ScriptCommand::Close.expand(9), vec![]);
    assert!(ScriptCommand::Close.is_close());
    assert!(!ScriptCommand::Stop.is_close());
}

#[test]
fn expand_largest_times_do_not_overflow() {
    let c = ScriptCommand::VibrateFor(bits(1.0), u64::MAX);
    let r = c.expand(u64::MAX);
    assert_eq!(r[1], (2 * (u64::MAX as u128), BPCommand::Stop));
}

#[test]
fn vibrate_for_emits_vibrate_then_stop() {
    let mut d = Dispatcher::new();
    assert_eq!(d.phase(), Phase::Waiting);
    let at = 100;
    let r = d.pass(Some(ScriptCommand::VibrateFor(bits(1.0), 5 * SECOND)), at, at);
    assert_eq!(r, Some(BPCommand::Vibrate(bits(1.0))));
    assert_eq!(d.phase(), Phase::Armed);
    assert_eq!(d.pending_len(), 1);
    assert_eq!(d.pass(None, 0, at + 5 * SECOND - 1), None);
    assert_eq!(d.pass(None, 0, at + 5 * SECOND), Some(BPCommand::Stop));
    assert_eq!(d.phase(), Phase::Waiting);
    assert_eq!(d.pass(None, 0, u64::MAX), None);
}

#[test]
fn vibrate_for_with_index_ends_at_zero_strength() {
    let mut d = Dispatcher::new();
    assert_eq!(
        d.pass(Some(ScriptCommand::VibrateForWithIndex(bits(0.3), 10, 2)), 50, 50),
        Some(BPCommand::VibrateIndex(bits(0.3), 2))
    );
    assert_eq!(d.pass(None, 0, 59), None);
    assert_eq!(d.pass(None, 0, 60), Some(BPCommand::VibrateIndex(0, 2)));
    assert_eq!(d.phase(), Phase::Waiting);
}

#[test]
fn stop_alone_emits_one_stop() {
    let mut d = Dispatcher::new();
    assert_eq!(d.pass(Some(ScriptCommand::Stop), 10, 10), Some(BPCommand::Stop));
    assert_eq!(d.phase(), Phase::Waiting);
    assert_eq!(d.pending_len(), 0);
}

#[test]
fn close_when_idle_ends_without_emission() {
    let mut d = Dispatcher::new();
    assert_eq!(d.pass(Some(ScriptCommand::Close), 10, 10), None);
    assert_eq!(d.phase(), Phase::Terminated);
}

#[test]
fn close_after_vibrate_abandons_pending() {
    let mut d = Dispatcher::new();
    let r1 = d.pass(Some(ScriptCommand::VibrateFor(bits(1.0), 5 * SECOND)), 10, 10);
    assert_eq!(r1, Some(BPCommand::Vibrate(bits(1.0))));
    let r2 = d.pass(Some(ScriptCommand::Close), 11, 11);
    assert_eq!(r2, None);
    assert_eq!(d.phase(), Phase::Terminated);
    assert_eq!(d.pending_len(), 1);
    assert_eq!(d.pass(None, 0, u64::MAX), None);
    assert_eq!(d.pass(Some(ScriptCommand::Stop), 20, 20), None);
}

#[test]
fn close_in_pass_with_due_entry_still_emits_it() {
    let mut d = Dispatcher::new();
    d.pass(Some(ScriptCommand::Linear(100, bits(20.0))), 30, 0);
    assert_eq!(d.phase(), Phase::Armed);
    let r = d.pass(Some(ScriptCommand::Close), 31, 31);
    assert_eq!(r, Some(BPCommand::Linear(100, bits(20.0))));
    assert_eq!(d.phase(), Phase::Terminated);
}

#[test]
fn coincident_stops_collapse() {
    let mut d = Dispatcher::new();
    assert_eq!(d.pass(Some(ScriptCommand::Stop), 40, 0), None);
    assert_eq!(d.pass(Some(ScriptCommand::Stop), 40, 0), None);
    assert_eq!(d.pending_len(), 1);
    assert_eq!(d.pass(None, 0, 40), Some(BPCommand::Stop));
    assert_eq!(d.pass(None, 0, 40), None);
    assert_eq!(d.phase(), Phase::Waiting);
}

#[test]
fn zero_duration_keeps_only_stop() {
    let mut d = Dispatcher::new();
    assert_eq!(
        d.pass(Some(ScriptCommand::VibrateFor(bits(1.0), 0)), 5, 5),
        Some(BPCommand::Stop)
    );
    assert_eq!(d.phase(), Phase::Waiting);
}

#[test]
fn undelivered_emission_ends_loop() {
    let mut d = Dispatcher::new();
    d.pass(Some(ScriptCommand::VibrateFor(bits(1.0), 100)), 0, 0);
    d.report_undelivered();
    assert_eq!(d.phase(), Phase::Terminated);
    assert_eq!(d.pass(Some(ScriptCommand::Stop), 200, 200), None);
    assert_eq!(d.pass(None, 0, 200), None);
    assert_eq!(d.pending_len(), 1);
}

#[test]
fn repeated_stops_each_emit_once() {
    let mut d = Dispatcher::new();
    for i in 0..5u64 {
        assert_eq!(d.pass(Some(ScriptCommand::Stop), i, i), Some(BPCommand::Stop));
        assert_eq!(d.phase(), Phase::Waiting);
    }
}

#[test]
fn earliest_entry_is_emitted_first() {
    let mut d = Dispatcher::new();
    d.pass(Some(ScriptCommand::VibrateFor(bits(0.2), 100)), 50, 0);
    d.pass(Some(ScriptCommand::Linear(10, bits(5.0))), 20, 0);
    assert_eq!(d.pending_len(), 3);
    assert_eq!(d.pass(None, 0, 1000), Some(BPCommand::Linear(10, bits(5.0))));
    assert_eq!(d.pass(None, 0, 1000), Some(BPCommand::Vibrate(bits(0.2))));
    assert_eq!(d.pass(None, 0, 1000), Some(BPCommand::Stop));
    assert_eq!(d.pass(None, 0, 1000), None);
}

#[test]
fn one_emission_per_pass() {
    let mut d = Dispatcher::new();
    d.pass(Some(ScriptCommand::Stop), 1, 0);
    d.pass(Some(ScriptCommand::Linear(1, bits(1.0))), 2, 0);
    assert_eq!(d.pass(None, 0, 10), Some(BPCommand::Stop));
    assert_eq!(d.pending_len(), 1);
    assert_eq!(d.phase(), Phase::Armed);
}
