//! The envelope of an effect, recomputed from the time at every sample:
//! which rule gives the level, and what an attack and a release do to the
//! latch. The level itself is kept by whoever drives the envelope.

use vstd::prelude::*;

verus! {

/// The rule that gives the level while the latch is open.
#[derive(PartialEq, Eq, Structural, Clone, Copy, Debug)]
pub enum LevelRule {
    /// A line from the start level to one, over the attack time.
    AttackRamp,
    /// One.
    Peak,
    /// A line from one to the sustain level, over the decay time.
    DecayRamp,
    /// The sustain level.
    Sustain,
}

/// What the comparisons of one sample have found.
#[derive(PartialEq, Eq, Structural, Clone, Copy, Debug)]
pub struct StageFacts {
    /// The attack time is zero.
    pub no_attack: bool,
    /// The decay time is zero.
    pub no_decay: bool,
    /// The time is at the end of the attack or before it.
    pub within_attack: bool,
    /// The time is at the end of the attack or behind it.
    pub past_attack: bool,
    /// The time is at the end of the hold or before it.
    pub within_hold: bool,
    /// The time is at the end of the hold or behind it.
    pub past_hold: bool,
    /// The time is at the end of the decay or before it.
    pub within_decay: bool,
}

/// The rule that gives the level. An attack of no length is passed over.
/// With a decay of no length there is no hold and no decay either, and the
/// level is one in place of the sustain level.
pub open spec fn rule_of(facts: StageFacts) -> LevelRule {
    if !facts.no_attack && facts.within_attack {
        LevelRule::AttackRamp
    } else if !facts.no_decay && facts.past_attack && facts.within_hold {
        LevelRule::Peak
    } else if !facts.no_decay && facts.past_hold && facts.within_decay {
        LevelRule::DecayRamp
    } else if facts.no_decay {
        LevelRule::Peak
    } else {
        LevelRule::Sustain
    }
}

/// Decides which rule gives the level.
pub fn level_rule(facts: &StageFacts) -> (res: LevelRule)
    ensures
        res == rule_of(*facts),
{
    if !facts.no_attack && facts.within_attack {
        LevelRule::AttackRamp
    } else if !facts.no_decay && facts.past_attack && facts.within_hold {
        LevelRule::Peak
    } else if !facts.no_decay && facts.past_hold && facts.within_decay {
        LevelRule::DecayRamp
    } else if facts.no_decay {
        LevelRule::Peak
    } else {
        LevelRule::Sustain
    }
}

/// The latch of an envelope: whether it was released, and whether the
/// release has run out.
#[derive(PartialEq, Eq, Structural, Clone, Copy, Debug)]
pub struct Latch {
    pub released: bool,
    pub ended: bool,
}

impl Latch {
    /// The latch of a new envelope: released, and not run out.
    pub fn new() -> (res: Self)
        ensures
            res == (Latch { released: true, ended: false }),
    {
        Latch { released: true, ended: false }
    }

    /// An attack. It opens a released latch, and the envelope then starts
    /// again from the level that it has; it does nothing to an open latch.
    /// The result says whether the envelope starts again.
    pub fn attack(&mut self) -> (restarted: bool)
        ensures
            restarted == old(self).released,
            restarted ==> *final(self) == (Latch { released: false, ended: false }),
            !restarted ==> *final(self) == *old(self),
    {
        if self.released {
            self.released = false;
            self.ended = false;
            true
        } else {
            false
        }
    }

    /// A release. It closes an open latch, and the envelope then falls from
    /// the level that it has; it does nothing to a released latch. The
    /// result says whether the envelope starts to fall.
    pub fn release(&mut self) -> (captured: bool)
        ensures
            captured == !old(self).released,
            final(self).released,
            final(self).ended == old(self).ended,
    {
        if !self.released {
            self.released = true;
            true
        } else {
            false
        }
    }

    /// The release has run out: the level has come to zero.
    pub fn end(&mut self)
        ensures
            final(self).ended,
            final(self).released == old(self).released,
    {
        self.ended = true;
    }
}

/// A stage of no length gives no rule: without an attack time the level is
/// never on the attack ramp, and without a decay time it is never on the
/// decay ramp nor at the sustain level.
pub proof fn lemma_empty_stages_are_skipped(facts: StageFacts)
    ensures
        facts.no_attack ==> rule_of(facts) != LevelRule::AttackRamp,
        facts.no_decay ==> rule_of(facts) != LevelRule::DecayRamp && rule_of(facts)
            != LevelRule::Sustain,
        facts.no_attack && facts.no_decay ==> rule_of(facts) == LevelRule::Peak,
{
}

} // verus!
