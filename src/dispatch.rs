use std::collections::BTreeMap;

use vstd::prelude::*;

use crate::command::{expansion, BPCommand, ScriptCommand};

verus! {

/// The abstract state of a [`Dispatcher`].
pub struct DispatchState {
    /// Pending primitive commands, keyed by fire time in nanoseconds.
    pub pending: Map<u128, BPCommand>,
    /// Set once a `Close` has been received.
    pub closing: bool,
    /// Set once the loop must end.
    pub terminated: bool,
}

/// Where the dispatch loop stands.
#[derive(Copy, Clone, Debug, PartialEq, Eq, Structural)]
pub enum Phase {
    /// Nothing is pending: block until a command arrives.
    Waiting,
    /// Something is pending: poll for commands without blocking.
    Armed,
    /// The loop is over.
    Terminated,
}

/// `entries` inserted into `m` one after another; a later entry replaces an
/// earlier one with the same fire time.
pub open spec fn insert_entries(m: Map<u128, BPCommand>, entries: Seq<(u128, BPCommand)>) -> Map<
    u128,
    BPCommand,
>
    decreases entries.len(),
{
    if entries.len() == 0 {
        m
    } else {
        insert_entries(m, entries.drop_last()).insert(entries.last().0, entries.last().1)
    }
}

/// The schedule `m` after receiving `msg` (if any) at `at`.
pub open spec fn ingested(m: Map<u128, BPCommand>, msg: Option<ScriptCommand>, at: u64) -> Map<
    u128,
    BPCommand,
> {
    match msg {
        Some(cmd) => insert_entries(m, expansion(cmd, at)),
        None => m,
    }
}

/// `k` is the earliest fire time in `m`.
pub open spec fn is_min_key(m: Map<u128, BPCommand>, k: u128) -> bool {
    &&& m.contains_key(k)
    &&& forall|j: u128| #[trigger] m.contains_key(j) ==> k <= j
}

/// The earliest fire time in a non-empty `m`.
pub open spec fn min_key(m: Map<u128, BPCommand>) -> u128 {
    choose|k: u128| is_min_key(m, k)
}

/// The earliest entry of `m` is due at `now`.
pub open spec fn has_due(m: Map<u128, BPCommand>, now: u64) -> bool {
    (exists|k: u128| is_min_key(m, k)) && min_key(m) <= now as u128
}

/// One pass of the dispatch loop from state `s`: receive `msg` (if any) at
/// `at`, emit the earliest entry if it is due at `now`, then end the loop if a
/// `Close` has been received. Returns the next state and what to emit.
pub open spec fn pass_spec(s: DispatchState, msg: Option<ScriptCommand>, at: u64, now: u64) -> (
    DispatchState,
    Option<BPCommand>,
) {
    if s.terminated {
        (s, None)
    } else {
        let m = ingested(s.pending, msg, at);
        let closing = s.closing || (msg matches Some(c) && c.requests_close());
        if has_due(m, now) {
            let k = min_key(m);
            (DispatchState { pending: m.remove(k), closing, terminated: closing }, Some(m[k]))
        } else {
            (DispatchState { pending: m, closing, terminated: closing }, None)
        }
    }
}

/// The phase of state `s`.
pub open spec fn phase_of(s: DispatchState) -> Phase {
    if s.terminated {
        Phase::Terminated
    } else if s.pending.is_empty() {
        Phase::Waiting
    } else {
        Phase::Armed
    }
}

/// Relies on `BTreeMap::first_key_value`: the entry with the least key, or
/// `None` when the map is empty.
#[verifier::external_body]
fn first_entry(m: &BTreeMap<u128, BPCommand>) -> (r: Option<(u128, BPCommand)>)
    ensures
        r is None <==> m@.is_empty(),
        r matches Some(e) ==> is_min_key(m@, e.0) && m@[e.0] == e.1,
{
    m.first_key_value().map(|(k, v)| (*k, *v))
}

/// The scheduler's state: a time-ordered schedule of primitive commands and
/// the loop's close flags.
pub struct Dispatcher {
    pending: BTreeMap<u128, BPCommand>,
    closing: bool,
    terminated: bool,
}

impl View for Dispatcher {
    type V = DispatchState;

    closed spec fn view(&self) -> DispatchState {
        DispatchState {
            pending: self.pending@,
            closing: self.closing,
            terminated: self.terminated,
        }
    }
}

impl Dispatcher {
    /// A dispatcher with an empty schedule, waiting for commands.
    pub fn new() -> (r: Dispatcher)
        ensures
            r@.pending.is_empty(),
            !r@.closing,
            !r@.terminated,
    {
        Dispatcher { pending: BTreeMap::new(), closing: false, terminated: false }
    }

    /// Where the loop stands: waiting, armed or terminated.
    pub fn phase(&self) -> (r: Phase)
        ensures
            r == phase_of(self@),
    {
        if self.terminated {
            Phase::Terminated
        } else if self.pending.is_empty() {
            Phase::Waiting
        } else {
            Phase::Armed
        }
    }

    /// The number of pending entries.
    pub fn pending_len(&self) -> (r: usize)
        ensures
            r == self@.pending.len(),
    {
        self.pending.len()
    }

    /// Inserts the expansion of `cmd`, received at `at`, into the schedule and
    /// records a `Close`.
    fn ingest(&mut self, cmd: ScriptCommand, at: u64)
        ensures
            final(self)@.pending == insert_entries(old(self)@.pending, expansion(cmd, at)),
            final(self).closing == (old(self).closing || cmd.requests_close()),
            final(self).terminated == old(self).terminated,
    {
        let entries = cmd.expand(at);
        let ghost start = self.pending@;
        let mut i: usize = 0;
        while i < entries.len()
            invariant
                i <= entries@.len(),
                entries@ == expansion(cmd, at),
                self.pending@ == insert_entries(start, entries@.take(i as int)),
                self.closing == old(self).closing,
                self.terminated == old(self).terminated,
            decreases entries@.len() - i,
        {
            let (k, v) = entries[i];
            self.pending.insert(k, v);
            assert(entries@.take(i + 1).drop_last() =~= entries@.take(i as int));
            i = i + 1;
        }
        assert(entries@.take(i as int) =~= entries@);
        if cmd.is_close() {
            self.closing = true;
        }
    }

    /// Removes and returns the earliest entry if its fire time is at most
    /// `now`.
    fn take_due(&mut self, now: u64) -> (r: Option<BPCommand>)
        ensures
            has_due(old(self)@.pending, now) ==> {
                let k = min_key(old(self)@.pending);
                &&& r == Some(old(self)@.pending[k])
                &&& final(self)@.pending == old(self)@.pending.remove(k)
            },
            !has_due(old(self)@.pending, now) ==> r is None && final(self)@.pending == old(
                self,
            )@.pending,
            final(self).closing == old(self).closing,
            final(self).terminated == old(self).terminated,
    {
        match first_entry(&self.pending) {
            Some((k, v)) => {
                let ghost m = self.pending@;
                assert(min_key(m) == k) by {
                    assert(is_min_key(m, min_key(m)));
                    assert(m.contains_key(k));
                    assert(m.contains_key(min_key(m)));
                }
                if k <= now as u128 {
                    self.pending.remove(&k);
                    Some(v)
                } else {
                    None
                }
            },
            None => {
                None
            },
        }
    }

    /// One pass of the dispatch loop: receive `msg` (if one arrived) at `at`,
    /// emit the earliest pending entry if it is due at `now`, and end the loop
    /// if a `Close` has been received. Returns the command to emit. Once the
    /// loop has ended a pass does nothing.
    pub fn pass(&mut self, msg: Option<ScriptCommand>, at: u64, now: u64) -> (r: Option<BPCommand>)
        ensures
            (final(self)@, r) == pass_spec(old(self)@, msg, at, now),
    {
        if self.terminated {
            return None;
        }
        match msg {
            Some(cmd) => self.ingest(cmd, at),
            None => {},
        }
        let r = self.take_due(now);
        if self.closing {
            self.terminated = true;
        }
        r
    }

    /// Records that an emission found no receiver: the loop ends.
    pub fn report_undelivered(&mut self)
        ensures
            final(self)@ == (DispatchState { terminated: true, ..old(self)@ }),
    {
        self.terminated = true;
    }
}

} // verus!
