use vstd::prelude::*;

verus! {

/// A primitive command of the device bus.
///
/// Strengths and positions are carried as the bit patterns of `f64` values
/// (`f64::to_bits`); this scheduler never computes with them.
#[derive(Copy, Clone, Debug, PartialEq, Eq, Structural)]
pub enum BPCommand {
    /// Vibrate every device at the given strength.
    Vibrate(u64),
    /// Vibrate the device with the given index at the given strength.
    VibrateIndex(u64, u32),
    /// Move over the given milliseconds to the given position (a percentage).
    Linear(u32, u64),
    /// Stop every device.
    Stop,
}

/// A high-level command submitted to the scheduler.
///
/// Durations are whole nanoseconds; strengths and positions are `f64` bit
/// patterns, as in [`BPCommand`].
#[derive(Copy, Clone, Debug, PartialEq, Eq, Structural)]
pub enum ScriptCommand {
    /// Vibrate at a strength for a duration, then stop.
    VibrateFor(u64, u64),
    /// Vibrate one device at a strength for a duration, then set it to zero.
    VibrateForWithIndex(u64, u64, u32),
    /// Move over the given milliseconds to the given position.
    Linear(u32, u64),
    /// Stop every device now.
    Stop,
    /// Ask the dispatch loop to end.
    Close,
}

/// The fire time of an entry at `offset` nanoseconds after `now`.
pub open spec fn fire_time(now: u64, offset: u64) -> u128 {
    (now + offset) as u128
}

/// The schedule entries that `cmd`, received at `now`, expands into, in order
/// of insertion.
pub open spec fn expansion(cmd: ScriptCommand, now: u64) -> Seq<(u128, BPCommand)> {
    match cmd {
        ScriptCommand::VibrateFor(strength, duration) => seq![
            (now as u128, BPCommand::Vibrate(strength)),
            (fire_time(now, duration), BPCommand::Stop),
        ],
        ScriptCommand::VibrateForWithIndex(strength, duration, index) => seq![
            (now as u128, BPCommand::VibrateIndex(strength, index)),
            (fire_time(now, duration), BPCommand::VibrateIndex(0, index)),
        ],
        ScriptCommand::Linear(millis, position) => seq![
            (now as u128, BPCommand::Linear(millis, position)),
        ],
        ScriptCommand::Stop => seq![(now as u128, BPCommand::Stop)],
        ScriptCommand::Close => seq![],
    }
}

impl ScriptCommand {
    /// Whether this command asks the dispatch loop to end.
    pub open spec fn requests_close(self) -> bool {
        self is Close
    }

    /// The schedule entries this command expands into when received at `now`
    /// (nanoseconds): each fire time is `now` plus the entry's offset.
    pub fn expand(self, now: u64) -> (r: Vec<(u128, BPCommand)>)
        ensures
            r@ == expansion(self, now),
    {
        let at: u128 = now as u128;
        let r = match self {
            ScriptCommand::VibrateFor(strength, duration) => vec![
                (at, BPCommand::Vibrate(strength)),
                (at + duration as u128, BPCommand::Stop),
            ],
            ScriptCommand::VibrateForWithIndex(strength, duration, index) => vec![
                (at, BPCommand::VibrateIndex(strength, index)),
                (at + duration as u128, BPCommand::VibrateIndex(0, index)),
            ],
            ScriptCommand::Linear(millis, position) => vec![
                (at, BPCommand::Linear(millis, position)),
            ],
            ScriptCommand::Stop => vec![(at, BPCommand::Stop)],
            ScriptCommand::Close => Vec::new(),
        };
        assert(r@ =~= expansion(self, now));
        r
    }

    /// Whether this command asks the dispatch loop to end.
    pub fn is_close(&self) -> (r: bool)
        ensures
            r == self.requests_close(),
    {
        matches!(self, ScriptCommand::Close)
    }
}

} // verus!
