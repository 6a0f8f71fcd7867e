//! Volume levels, and how a level is raised, lowered and muted.

use vstd::prelude::*;
use crate::acceleration::UNIT;

verus! {

/// A volume level between silence and full volume, counted in millionths.
#[derive(Clone, Copy, Debug)]
pub struct VolumeLevel {
    micros: u32,
}

/// The level reached from `level` by going up by `delta`: their sum, held at
/// full volume.
pub open spec fn raised(level: int, delta: int) -> int {
    if level + delta > UNIT { UNIT as int } else { level + delta }
}

/// The level reached from `level` by going down by `delta`: their difference,
/// held at silence.
pub open spec fn lowered(level: int, delta: int) -> int {
    if level - delta < 0 { 0 } else { level - delta }
}

impl View for VolumeLevel {
    type V = int;

    closed spec fn view(&self) -> int {
        self.micros as int
    }
}

impl VolumeLevel {
    #[verifier::type_invariant]
    spec fn inv(self) -> bool {
        self.micros <= UNIT
    }

    /// The level of `micros` millionths, if that is no more than full volume.
    pub fn new(micros: u32) -> (level: Option<VolumeLevel>)
        ensures
            level is Some <==> micros <= UNIT,
            level is Some ==> level->0@ == micros,
    {
        if micros <= UNIT {
            Some(VolumeLevel { micros })
        } else {
            None
        }
    }

    /// The level nearest to `micros` millionths: anything above full volume
    /// is full volume.
    pub fn clamped(micros: u64) -> (level: VolumeLevel)
        ensures
            level@ == raised(0, micros as int),
    {
        if micros >= UNIT as u64 {
            VolumeLevel { micros: UNIT }
        } else {
            VolumeLevel { micros: micros as u32 }
        }
    }

    /// The level in millionths.
    pub fn micros(&self) -> (micros: u32)
        ensures
            micros == self@,
            micros <= UNIT,
    {
        proof {
            use_type_invariant(self);
        }
        self.micros
    }

    /// The level after going up by `delta` millionths.
    pub fn increment(&self, delta: u64) -> (level: VolumeLevel)
        ensures
            level@ == raised(self@, delta as int),
    {
        proof {
            use_type_invariant(self);
        }
        if delta >= (UNIT - self.micros) as u64 {
            VolumeLevel { micros: UNIT }
        } else {
            VolumeLevel { micros: self.micros + delta as u32 }
        }
    }

    /// The level after going down by `delta` millionths.
    pub fn decrement(&self, delta: u64) -> (level: VolumeLevel)
        ensures
            level@ == lowered(self@, delta as int),
    {
        proof {
            use_type_invariant(self);
        }
        if delta >= self.micros as u64 {
            VolumeLevel { micros: 0 }
        } else {
            VolumeLevel { micros: self.micros - delta as u32 }
        }
    }
}

/// The mute state opposite to `muted`.
pub open spec fn toggled(muted: bool) -> bool {
    !muted
}

/// The mute state to write for a session that reads `muted`: the other one.
pub fn toggle_mute(muted: bool) -> (next: bool)
    ensures
        next == toggled(muted),
{
    !muted
}

/// Every level lies between silence and full volume, and so does every level
/// reached from one by going up or down.
pub proof fn lemma_levels_stay_in_range(level: int, delta: int)
    requires
        0 <= level <= UNIT,
        0 <= delta,
    ensures
        0 <= raised(level, delta) <= UNIT,
        0 <= lowered(level, delta) <= UNIT,
        level <= raised(level, delta),
        lowered(level, delta) <= level,
{
}

/// Toggling the mute state twice, with nothing in between, restores it.
pub proof fn lemma_toggle_twice_restores(muted: bool)
    ensures
        toggled(toggled(muted)) == muted,
{
}

} // verus!
