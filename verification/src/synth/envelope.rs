//! The envelope of a voice as a machine of eight states. What moves it from
//! one state to the next is decided here; the level itself is kept by
//! whoever drives the machine.

use vstd::prelude::*;

verus! {

/// How the decay time and the release time are meant.
#[derive(PartialEq, Eq, Structural, Clone, Copy, Debug)]
pub enum EnvelopeMode {
    /// The decay runs from full level to the sustain level, the release
    /// from the sustain level to silence.
    Normal,
    /// Decay and release both run from full level to silence.
    DLS,
}

/// The state of an envelope.
#[derive(PartialEq, Eq, Structural, Clone, Copy, Debug)]
pub enum EnvelopeStatus {
    /// Not started.
    Waiting,
    /// Started; the attack has not begun.
    Delay,
    Attack,
    Hold,
    Decay,
    Sustain,
    Released,
    /// Silent after a release.
    Finished,
}

/// What the comparisons of one tick have found, after the slope was added
/// to the level.
#[derive(PartialEq, Eq, Structural, Clone, Copy, Debug)]
pub struct TickFacts {
    /// The tick is at zero or behind it.
    pub delay_over: bool,
    /// The level is at one or above.
    pub peak_reached: bool,
    /// The tick is at the start of the decay or behind it.
    pub hold_over: bool,
    /// The level is at the sustain level or below.
    pub sustain_reached: bool,
    /// The level is at zero or below.
    pub silent: bool,
}

/// What a change of state asks of the level and the slope.
#[derive(PartialEq, Eq, Structural, Clone, Copy, Debug)]
pub enum Adjust {
    /// Level and slope stay.
    Keep,
    /// The slope becomes one over the attack ticks.
    Rise,
    /// The level becomes one and the slope zero.
    HoldPeak,
    /// The slope becomes that of the decay, which depends on the mode.
    Fall,
    /// The level becomes the sustain level and the slope zero.
    HoldSustain,
    /// The level and the slope become zero.
    Silence,
}

impl EnvelopeStatus {
    /// The place of a state in the order in which an envelope runs through
    /// them.
    pub open spec fn rank(self) -> int {
        match self {
            EnvelopeStatus::Waiting => 0,
            EnvelopeStatus::Delay => 1,
            EnvelopeStatus::Attack => 2,
            EnvelopeStatus::Hold => 3,
            EnvelopeStatus::Decay => 4,
            EnvelopeStatus::Sustain => 5,
            EnvelopeStatus::Released => 6,
            EnvelopeStatus::Finished => 7,
        }
    }

    /// Whether time stands still in a state.
    pub open spec fn parked(self) -> bool {
        self == EnvelopeStatus::Waiting || self == EnvelopeStatus::Finished
    }

    /// The state after one tick, and what the change asks for. There is at
    /// most one change a tick: the delay ends when its time is over, the
    /// attack when the peak is reached, the hold when its time is over, the
    /// decay when the sustain level is reached, the release when the level
    /// is at zero.
    pub open spec fn after_tick(self, facts: TickFacts) -> (EnvelopeStatus, Adjust) {
        if self == EnvelopeStatus::Delay && facts.delay_over {
            (EnvelopeStatus::Attack, Adjust::Rise)
        } else if self == EnvelopeStatus::Attack && facts.peak_reached {
            (EnvelopeStatus::Hold, Adjust::HoldPeak)
        } else if self == EnvelopeStatus::Hold && facts.hold_over {
            (EnvelopeStatus::Decay, Adjust::Fall)
        } else if self == EnvelopeStatus::Decay && facts.sustain_reached {
            (EnvelopeStatus::Sustain, Adjust::HoldSustain)
        } else if self == EnvelopeStatus::Released && facts.silent {
            (EnvelopeStatus::Finished, Adjust::Silence)
        } else {
            (self, Adjust::Keep)
        }
    }

    /// Whether time stands still in this state: nothing is to be done for a
    /// tick then.
    pub fn is_parked(self) -> (res: bool)
        ensures
            res == self.parked(),
    {
        match self {
            EnvelopeStatus::Waiting => true,
            EnvelopeStatus::Finished => true,
            _ => false,
        }
    }

    /// Decides what one tick does to the state.
    pub fn tick(self, facts: &TickFacts) -> (res: (EnvelopeStatus, Adjust))
        ensures
            res == self.after_tick(*facts),
    {
        match self {
            EnvelopeStatus::Delay => if facts.delay_over {
                (EnvelopeStatus::Attack, Adjust::Rise)
            } else {
                (self, Adjust::Keep)
            },
            EnvelopeStatus::Attack => if facts.peak_reached {
                (EnvelopeStatus::Hold, Adjust::HoldPeak)
            } else {
                (self, Adjust::Keep)
            },
            EnvelopeStatus::Hold => if facts.hold_over {
                (EnvelopeStatus::Decay, Adjust::Fall)
            } else {
                (self, Adjust::Keep)
            },
            EnvelopeStatus::Decay => if facts.sustain_reached {
                (EnvelopeStatus::Sustain, Adjust::HoldSustain)
            } else {
                (self, Adjust::Keep)
            },
            EnvelopeStatus::Released => if facts.silent {
                (EnvelopeStatus::Finished, Adjust::Silence)
            } else {
                (self, Adjust::Keep)
            },
            _ => (self, Adjust::Keep),
        }
    }

    /// The state after an attack: the delay, whatever the state was.
    pub fn attack(self) -> (res: EnvelopeStatus)
        ensures
            res == EnvelopeStatus::Delay,
    {
        EnvelopeStatus::Delay
    }

    /// The state after a release: the release, whatever the state was.
    pub fn release(self) -> (res: EnvelopeStatus)
        ensures
            res == EnvelopeStatus::Released,
    {
        EnvelopeStatus::Released
    }

    /// The state after a reset: not started.
    pub fn reset(self) -> (res: EnvelopeStatus)
        ensures
            res == EnvelopeStatus::Waiting,
    {
        EnvelopeStatus::Waiting
    }
}

/// The state after a run of ticks.
pub open spec fn after_ticks(status: EnvelopeStatus, facts: Seq<TickFacts>) -> EnvelopeStatus
    decreases facts.len(),
{
    if facts.len() == 0 {
        status
    } else {
        after_ticks(status, facts.drop_last()).after_tick(facts.last()).0
    }
}

/// A tick moves an envelope at most one state on, never back, and it
/// leaves level and slope alone unless the state changes.
pub proof fn lemma_tick_moves_forward(status: EnvelopeStatus, facts: TickFacts)
    ensures
        status.rank() <= status.after_tick(facts).0.rank() <= status.rank() + 1,
        status.after_tick(facts).0 == status <==> status.after_tick(facts).1 == Adjust::Keep,
{
}

/// Time stands still in the two parked states: no tick leaves them.
pub proof fn lemma_parked_stays(status: EnvelopeStatus, facts: TickFacts)
    requires
        status.parked(),
    ensures
        status.after_tick(facts) == (status, Adjust::Keep),
{
}

/// No tick takes an envelope from its sustain into a release, and none
/// takes it into the delay or out of waiting: only a release, an attack or
/// a reset does.
pub proof fn lemma_tick_needs_a_trigger(status: EnvelopeStatus, facts: TickFacts)
    ensures
        status != EnvelopeStatus::Released ==> status.after_tick(facts).0
            != EnvelopeStatus::Released,
        status != EnvelopeStatus::Delay ==> status.after_tick(facts).0 != EnvelopeStatus::Delay,
        status != EnvelopeStatus::Waiting ==> status.after_tick(facts).0
            != EnvelopeStatus::Waiting,
        status == EnvelopeStatus::Sustain ==> status.after_tick(facts).0
            == EnvelopeStatus::Sustain,
{
}

/// Whatever the ticks find, a run of them never moves an envelope back,
/// and a finished envelope stays finished.
pub proof fn lemma_ticks_move_forward(status: EnvelopeStatus, facts: Seq<TickFacts>)
    ensures
        status.rank() <= after_ticks(status, facts).rank(),
        status == EnvelopeStatus::Finished ==> after_ticks(status, facts)
            == EnvelopeStatus::Finished,
        status == EnvelopeStatus::Waiting ==> after_ticks(status, facts)
            == EnvelopeStatus::Waiting,
    decreases facts.len(),
{
    if facts.len() > 0 {
        lemma_ticks_move_forward(status, facts.drop_last());
        lemma_tick_moves_forward(after_ticks(status, facts.drop_last()), facts.last());
    }
}

} // verus!
