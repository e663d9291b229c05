use vstd::prelude::*;
use crate::fault::{Fault, Outcome};

verus! {

/// Period of the sequencer's clock, in seconds. Ticks are the boundaries of
/// a periodic clock, so the work done between two of them adds no drift.
pub const TICK_SECONDS: u64 = 1;

/// Logical level of an output pin.
#[derive(Clone, Copy, Debug, PartialEq, Eq, Structural)]
pub enum Level {
    Low,
    High,
}

/// The two indicator lines.
#[derive(Clone, Copy, Debug, PartialEq, Eq, Structural)]
pub enum Pin {
    A,
    B,
}

/// One phase of the indicator pattern.
#[derive(Clone, Copy, Debug, PartialEq, Eq, Structural)]
pub enum Phase {
    RedOn,
    GreenOn,
    BothSettled,
}

/// A single pin write.
#[derive(Clone, Copy, Debug, PartialEq, Eq)]
pub struct PinWrite {
    pub pin: Pin,
    pub level: Level,
}

/// What is known of the two pins: `None` until the pin was first written.
#[derive(Clone, Copy, Debug, PartialEq, Eq)]
pub struct PinLevels {
    pub a: Option<Level>,
    pub b: Option<Level>,
}

/// What the host has to do next for the sequencer.
#[derive(Clone, Copy, Debug, PartialEq, Eq)]
pub enum SequencerOp {
    /// Write one pin, now.
    Write(PinWrite),
    /// Wait for the next boundary of the periodic clock.
    AwaitTick,
}

/// The phase that is active after `n` ticks.
pub open spec fn phase_at(n: nat) -> Phase {
    if n % 3 == 0 {
        Phase::RedOn
    } else if n % 3 == 1 {
        Phase::GreenOn
    } else {
        Phase::BothSettled
    }
}

impl Phase {
    /// The phase that follows after one tick. The cycle has no end.
    pub open spec fn successor(self) -> Phase {
        match self {
            Phase::RedOn => Phase::GreenOn,
            Phase::GreenOn => Phase::BothSettled,
            Phase::BothSettled => Phase::RedOn,
        }
    }

    /// The pin writes made on entry to the phase, in order.
    pub open spec fn entry_writes(self) -> Seq<PinWrite> {
        match self {
            Phase::RedOn => seq![
                PinWrite { pin: Pin::A, level: Level::Low },
                PinWrite { pin: Pin::B, level: Level::High },
            ],
            Phase::GreenOn => seq![
                PinWrite { pin: Pin::A, level: Level::High },
                PinWrite { pin: Pin::B, level: Level::Low },
            ],
            Phase::BothSettled => seq![PinWrite { pin: Pin::B, level: Level::High }],
        }
    }

    /// The levels that both pins show while the phase is held.
    pub open spec fn held_levels(self) -> PinLevels {
        match self {
            Phase::RedOn => PinLevels { a: Some(Level::Low), b: Some(Level::High) },
            Phase::GreenOn => PinLevels { a: Some(Level::High), b: Some(Level::Low) },
            Phase::BothSettled => PinLevels { a: Some(Level::High), b: Some(Level::High) },
        }
    }

    pub fn next(self) -> (p: Phase)
        ensures
            p == self.successor(),
    {
        match self {
            Phase::RedOn => Phase::GreenOn,
            Phase::GreenOn => Phase::BothSettled,
            Phase::BothSettled => Phase::RedOn,
        }
    }

    /// Number of pin writes made on entry to the phase.
    pub fn write_count(self) -> (n: u8)
        ensures
            n as int == self.entry_writes().len(),
            1 <= n <= 2,
    {
        match self {
            Phase::RedOn => 2,
            Phase::GreenOn => 2,
            Phase::BothSettled => 1,
        }
    }

    /// The `index`-th write on entry to the phase, if there is one.
    pub fn write(self, index: u8) -> (w: Option<PinWrite>)
        ensures
            w == (if (index as int) < self.entry_writes().len() {
                Some(self.entry_writes()[index as int])
            } else {
                None
            }),
    {
        match (self, index) {
            (Phase::RedOn, 0) => Some(PinWrite { pin: Pin::A, level: Level::Low }),
            (Phase::RedOn, 1) => Some(PinWrite { pin: Pin::B, level: Level::High }),
            (Phase::GreenOn, 0) => Some(PinWrite { pin: Pin::A, level: Level::High }),
            (Phase::GreenOn, 1) => Some(PinWrite { pin: Pin::B, level: Level::Low }),
            (Phase::BothSettled, 0) => Some(PinWrite { pin: Pin::B, level: Level::High }),
            _ => None,
        }
    }
}

impl PinLevels {
    /// The levels after one more write.
    pub open spec fn with_write(self, w: PinWrite) -> PinLevels {
        match w.pin {
            Pin::A => PinLevels { a: Some(w.level), b: self.b },
            Pin::B => PinLevels { a: self.a, b: Some(w.level) },
        }
    }

    pub fn apply(self, w: PinWrite) -> (p: PinLevels)
        ensures
            p == self.with_write(w),
    {
        match w.pin {
            Pin::A => PinLevels { a: Some(w.level), b: self.b },
            Pin::B => PinLevels { a: self.a, b: Some(w.level) },
        }
    }
}

/// The indicator state machine.
///
/// `written` counts the entry writes of `phase` that the host has confirmed;
/// once all are made the sequencer waits for a tick. `halted` is set by the
/// first failure and never cleared.
#[derive(Clone, Copy, Debug, PartialEq, Eq)]
pub struct Sequencer {
    pub phase: Phase,
    pub written: u8,
    pub halted: bool,
    pub pins: PinLevels,
}

impl Sequencer {
    /// The state at power-up: `RedOn` is being entered, nothing is written yet.
    pub open spec fn initial() -> Sequencer {
        Sequencer {
            phase: Phase::RedOn,
            written: 0,
            halted: false,
            pins: PinLevels { a: None, b: None },
        }
    }

    /// The operation the host has to perform in this state; `None` once halted.
    pub open spec fn pending_op(self) -> Option<SequencerOp> {
        if self.halted {
            None
        } else if (self.written as int) < self.phase.entry_writes().len() {
            Some(SequencerOp::Write(self.phase.entry_writes()[self.written as int]))
        } else {
            Some(SequencerOp::AwaitTick)
        }
    }

    /// The state after the host reported `outcome` for the pending operation.
    pub open spec fn after(self, outcome: Outcome) -> Sequencer {
        if self.halted {
            self
        } else if outcome == Outcome::Failed {
            Sequencer { halted: true, ..self }
        } else if (self.written as int) < self.phase.entry_writes().len() {
            Sequencer {
                written: (self.written + 1) as u8,
                pins: self.pins.with_write(self.phase.entry_writes()[self.written as int]),
                ..self
            }
        } else {
            Sequencer { phase: self.phase.successor(), written: 0, ..self }
        }
    }

    /// The state after `n` operations in a row were reported done.
    pub open spec fn run(self, n: nat) -> Sequencer
        decreases n,
    {
        if n == 0 {
            self
        } else {
            self.after(Outcome::Done).run((n - 1) as nat)
        }
    }

    /// The state once the entry writes of a phase just entered are all made.
    pub open spec fn entered(self) -> Sequencer {
        self.run(self.phase.entry_writes().len())
    }

    /// The state in which the sequencer waits for tick `n + 1`: the phase
    /// entered after `n` ticks is held.
    pub open spec fn settled(n: nat) -> Sequencer
        decreases n,
    {
        if n == 0 {
            Sequencer::initial().entered()
        } else {
            Sequencer::settled((n - 1) as nat).after(Outcome::Done).entered()
        }
    }

    pub fn new() -> (s: Sequencer)
        ensures
            s == Sequencer::initial(),
    {
        Sequencer {
            phase: Phase::RedOn,
            written: 0,
            halted: false,
            pins: PinLevels { a: None, b: None },
        }
    }

    pub fn pending(&self) -> (op: Option<SequencerOp>)
        ensures
            op == self.pending_op(),
    {
        if self.halted {
            None
        } else {
            match self.phase.write(self.written) {
                Some(w) => Some(SequencerOp::Write(w)),
                None => Some(SequencerOp::AwaitTick),
            }
        }
    }

    /// Takes the outcome of the pending operation and answers with the next
    /// one. A failure halts the sequencer: it answers `HardwareIOFailure`, now
    /// and on every later call, and asks for no further operation.
    pub fn advance(&mut self, outcome: Outcome) -> (next: Result<SequencerOp, Fault>)
        ensures
            *final(self) == old(self).after(outcome),
            next == (match final(self).pending_op() {
                Some(op) => Ok::<SequencerOp, Fault>(op),
                None => Err(Fault::HardwareIOFailure),
            }),
            next.is_err() <==> (old(self).halted || outcome == Outcome::Failed),
    {
        if !self.halted {
            match outcome {
                Outcome::Failed => {
                    self.halted = true;
                },
                Outcome::Done => {
                    match self.phase.write(self.written) {
                        Some(w) => {
                            self.pins = self.pins.apply(w);
                            self.written = self.written + 1;
                        },
                        None => {
                            self.phase = self.phase.next();
                            self.written = 0;
                        },
                    }
                },
            }
        }
        match self.pending() {
            Some(op) => Ok(op),
            None => Err(Fault::HardwareIOFailure),
        }
    }
}

/// After any number of ticks the sequencer is in the phase that the cycle
/// `RedOn`, `GreenOn`, `BothSettled` gives for that count, both pins show the
/// levels of that phase, and the sequencer waits for the next tick.
pub proof fn lemma_phase_follows_ticks(n: nat)
    ensures
        Sequencer::settled(n).phase == phase_at(n),
        Sequencer::settled(n).pins == phase_at(n).held_levels(),
        Sequencer::settled(n).pending_op() == Some(SequencerOp::AwaitTick),
        !Sequencer::settled(n).halted,
    decreases n,
{
    reveal_with_fuel(Sequencer::run, 3);
    if n > 0 {
        lemma_phase_follows_ticks((n - 1) as nat);
    }
}

/// A failure is final: the halted sequencer asks for nothing, and no report
/// changes it.
pub proof fn lemma_halt_is_final(s: Sequencer, first: Outcome, later: Outcome)
    requires
        !s.halted,
    ensures
        s.after(Outcome::Failed).halted,
        s.after(Outcome::Failed).pending_op().is_none(),
        s.after(Outcome::Failed).pins == s.pins,
        s.after(Outcome::Failed).after(later) == s.after(Outcome::Failed),
        s.after(first).halted <==> first == Outcome::Failed,
{
}

/// The phase cycle closes after three ticks and never ends.
pub proof fn lemma_phase_cycle(n: nat)
    ensures
        phase_at(n + 1) == phase_at(n).successor(),
        phase_at(n + 3) == phase_at(n),
{
}

} // verus!
