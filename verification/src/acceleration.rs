//! The acceleration engine: turns the spacing of consecutive key presses into
//! a volume step that grows while a key is held.

use vstd::prelude::*;
use crate::error::VolumeError;

verus! {

/// One whole in the fixed-point scale shared by levels, multipliers and rates.
pub const UNIT: u32 = 1_000_000;

/// Number of inter-press intervals that the engine remembers.
pub const HISTORY: usize = 5;

/// Interval, in milliseconds, that a press without a predecessor is given.
pub const IDLE_GAP_MS: u64 = 1000;

/// Mathematical content of a [`VolumeKeyState`].
pub ghost struct EngineModel {
    pub last_pressed: Option<u64>,
    pub intervals: Seq<u64>,
    pub next: nat,
    pub filled: nat,
    pub base_increment: u32,
    pub max_acceleration: u32,
    pub min_acceleration: u32,
    pub decay_rate: u32,
}

/// Milliseconds between the previous press and `now`; a clock that stepped
/// back counts as no time at all, a missing predecessor as a long pause.
pub open spec fn elapsed_since(last: Option<u64>, now: u64) -> u64 {
    match last {
        Some(t) => if now >= t { (now - t) as u64 } else { 0 },
        None => IDLE_GAP_MS,
    }
}

/// Sum of the first `n` entries of `s`.
pub open spec fn sum_first(s: Seq<u64>, n: nat) -> int
    decreases n,
{
    if n == 0 {
        0
    } else {
        sum_first(s, (n - 1) as nat) + s[n - 1]
    }
}

/// `value` limited from below by `lo` and then from above by `hi`; where the
/// bounds are crossed the upper one wins.
pub open spec fn clamp_between(value: int, lo: int, hi: int) -> int {
    let raised = if value < lo { lo } else { value };
    if raised > hi { hi } else { raised }
}

impl EngineModel {
    /// The history has its fixed capacity, the write position lies within it
    /// and no more slots count as filled than there are; until the history is
    /// full, the write position is the first slot not yet filled.
    pub open spec fn wf(self) -> bool {
        &&& self.intervals.len() == HISTORY
        &&& self.next < HISTORY
        &&& self.filled <= HISTORY
        &&& self.filled < HISTORY ==> self.next == self.filled
    }

    /// The engine as it is created: no press seen, every slot at the idle gap.
    pub open spec fn initial() -> EngineModel {
        EngineModel {
            last_pressed: None,
            intervals: Seq::new(HISTORY as nat, |i: int| IDLE_GAP_MS),
            next: 0,
            filled: 0,
            base_increment: 10_000,
            max_acceleration: 15_000_000,
            min_acceleration: 1_000_000,
            decay_rate: 16_000,
        }
    }

    /// The engine after a press at time `now`.
    pub open spec fn press(self, now: u64) -> EngineModel {
        EngineModel {
            last_pressed: Some(now),
            intervals: self.intervals.update(
                self.next as int,
                elapsed_since(self.last_pressed, now),
            ),
            next: (self.next + 1) % (HISTORY as nat),
            filled: if self.filled < HISTORY { self.filled + 1 } else { self.filled },
            ..self
        }
    }

    /// Mean, rounded down, of the slots that hold real data.
    pub open spec fn average(self) -> int {
        if self.filled == 0 {
            0
        } else {
            sum_first(self.intervals, self.filled) / (self.filled as int)
        }
    }

    /// Decay rate times an average interval: the exponent, in millionths, of
    /// the decay curve, held at the largest `u64` where the product is greater.
    pub open spec fn exponent(self, avg_ms: u64) -> int {
        if self.decay_rate * avg_ms <= u64::MAX {
            self.decay_rate * avg_ms
        } else {
            u64::MAX as int
        }
    }

    /// The exponent for the average interval as it stands.
    pub open spec fn current_exponent(self) -> int {
        self.exponent(self.average() as u64)
    }

    /// The engine after five presses, the first `spacing` after `start` and
    /// each of the others `spacing` after the one before.
    pub open spec fn steady_burst(self, start: u64, spacing: u64) -> EngineModel {
        self.press((start + spacing) as u64).press((start + 2 * spacing) as u64).press(
            (start + 3 * spacing) as u64,
        ).press((start + 4 * spacing) as u64).press((start + 5 * spacing) as u64)
    }

    /// The multiplier that a decay curve gives the engine as it stands.
    pub open spec fn current_multiplier(self, curve: spec_fn(int) -> u32) -> int {
        self.multiplier(curve(self.current_exponent()))
    }

    /// Multiplier, in millionths, for a decay factor in millionths.
    pub open spec fn multiplier(self, decay_factor: u32) -> int {
        clamp_between(
            (self.max_acceleration * decay_factor) / (UNIT as int),
            self.min_acceleration as int,
            self.max_acceleration as int,
        )
    }

    /// Volume step, in millionths, for a decay factor in millionths.
    pub open spec fn adjustment(self, decay_factor: u32) -> int {
        (self.base_increment * self.multiplier(decay_factor)) / (UNIT as int)
    }
}

/// Timing history and tuning of the acceleration engine.
pub struct VolumeKeyState {
    last_pressed: Option<u64>,
    base_increment: u32,
    time_deltas: [u64; 5],
    current_index: usize,
    history_size: usize,
    max_acceleration: u32,
    min_acceleration: u32,
    decay_rate: u32,
}

impl View for VolumeKeyState {
    type V = EngineModel;

    closed spec fn view(&self) -> EngineModel {
        EngineModel {
            last_pressed: self.last_pressed,
            intervals: self.time_deltas@,
            next: self.current_index as nat,
            filled: self.history_size as nat,
            base_increment: self.base_increment,
            max_acceleration: self.max_acceleration,
            min_acceleration: self.min_acceleration,
            decay_rate: self.decay_rate,
        }
    }
}

impl VolumeKeyState {
    #[verifier::type_invariant]
    spec fn inv(self) -> bool {
        &&& self.current_index < HISTORY
        &&& self.history_size <= HISTORY
        &&& self.history_size < HISTORY ==> self.current_index == self.history_size
    }

    /// A fresh engine with the default tuning.
    pub fn new() -> (state: VolumeKeyState)
        ensures
            state@ == EngineModel::initial(),
            state@.wf(),
    {
        let state = VolumeKeyState {
            last_pressed: None,
            base_increment: 10_000,
            time_deltas: [1000, 1000, 1000, 1000, 1000],
            current_index: 0,
            history_size: 0,
            max_acceleration: 15_000_000,
            min_acceleration: 1_000_000,
            decay_rate: 16_000,
        };
        assert(state@.intervals =~= EngineModel::initial().intervals);
        state
    }

    /// Records a press at `now_ms` and returns the average interval, in
    /// milliseconds, over the remembered presses.
    pub fn record_press(&mut self, now_ms: u64) -> (avg: u64)
        ensures
            final(self)@ == old(self)@.press(now_ms),
            final(self)@.wf(),
            final(self)@.filled >= 1,
            avg == final(self)@.average(),
    {
        proof {
            use_type_invariant(&*self);
        }
        let elapsed_ms: u64 = match self.last_pressed {
            Some(last) => if now_ms >= last { now_ms - last } else { 0 },
            None => IDLE_GAP_MS,
        };
        let current_idx: usize = self.current_index;
        let mut time_deltas: [u64; 5] = self.time_deltas;
        time_deltas[current_idx] = elapsed_ms;
        let filled: usize = if self.history_size < HISTORY {
            self.history_size + 1
        } else {
            self.history_size
        };
        *self = VolumeKeyState {
            last_pressed: Some(now_ms),
            time_deltas,
            current_index: (current_idx + 1) % HISTORY,
            history_size: filled,
            base_increment: self.base_increment,
            max_acceleration: self.max_acceleration,
            min_acceleration: self.min_acceleration,
            decay_rate: self.decay_rate,
        };
        let mut sum: u128 = 0;
        let mut i: usize = 0;
        while i < filled
            invariant
                i <= filled <= HISTORY,
                filled == self.history_size,
                sum == sum_first(self.time_deltas@, i as nat),
                sum <= i * 0xFFFF_FFFF_FFFF_FFFF,
            decreases filled - i,
        {
            sum = sum + self.time_deltas[i] as u128;
            i = i + 1;
        }
        assert(sum / (filled as u128) <= 0xFFFF_FFFF_FFFF_FFFF) by (nonlinear_arith)
            requires
                0 < filled,
                sum <= filled * 0xFFFF_FFFF_FFFF_FFFF,
        ;
        (sum / (filled as u128)) as u64
    }

    /// The base increment, in millionths of full volume.
    pub fn base_increment(&self) -> (value: u32)
        ensures
            value == self@.base_increment,
    {
        self.base_increment
    }

    /// The upper bound of the multiplier, in millionths.
    pub fn max_acceleration(&self) -> (value: u32)
        ensures
            value == self@.max_acceleration,
    {
        self.max_acceleration
    }

    /// The lower bound of the multiplier, in millionths.
    pub fn min_acceleration(&self) -> (value: u32)
        ensures
            value == self@.min_acceleration,
    {
        self.min_acceleration
    }

    /// The decay rate, in millionths per millisecond.
    pub fn decay_rate(&self) -> (value: u32)
        ensures
            value == self@.decay_rate,
    {
        self.decay_rate
    }

    /// The time of the last press, if there was one.
    pub fn last_pressed(&self) -> (time: Option<u64>)
        ensures
            time == self@.last_pressed,
    {
        self.last_pressed
    }

    /// How many slots of the history hold real data.
    pub fn history_size(&self) -> (filled: usize)
        ensures
            filled == self@.filled,
            filled <= HISTORY,
    {
        proof {
            use_type_invariant(self);
        }
        self.history_size
    }

    /// Exponent of the decay curve for an average interval: the decay rate
    /// times the interval, in millionths, held at the largest `u64` where the
    /// product is greater.
    pub fn decay_exponent(&self, avg_ms: u64) -> (exponent: u64)
        ensures
            exponent == self@.exponent(avg_ms),
    {
        assert(self.decay_rate * avg_ms <= 0xFFFF_FFFF * 0xFFFF_FFFF_FFFF_FFFF)
            by (nonlinear_arith)
            requires
                self.decay_rate <= 0xFFFF_FFFF,
                avg_ms <= 0xFFFF_FFFF_FFFF_FFFF,
        ;
        let product: u128 = (self.decay_rate as u128) * (avg_ms as u128);
        if product > 0xFFFF_FFFF_FFFF_FFFF {
            u64::MAX
        } else {
            product as u64
        }
    }

    /// Multiplier for the value `decay_factor` of the decay curve: the largest
    /// multiplier scaled by the factor, kept within the tuned bounds.
    pub fn multiplier(&self, decay_factor: u32) -> (m: u32)
        ensures
            m == self@.multiplier(decay_factor),
    {
        assert(self.max_acceleration * decay_factor <= 0xFFFF_FFFF * 0xFFFF_FFFF)
            by (nonlinear_arith)
            requires
                self.max_acceleration <= 0xFFFF_FFFF,
                decay_factor <= 0xFFFF_FFFF,
        ;
        let raw: u64 = (self.max_acceleration as u64) * (decay_factor as u64) / (UNIT as u64);
        let raised: u64 = if raw < self.min_acceleration as u64 {
            self.min_acceleration as u64
        } else {
            raw
        };
        if raised > self.max_acceleration as u64 {
            self.max_acceleration
        } else {
            raised as u32
        }
    }

    /// Volume step for the value `decay_factor` of the decay curve: the base
    /// increment times the multiplier.
    pub fn adjustment_for(&self, decay_factor: u32) -> (delta: u64)
        ensures
            delta == self@.adjustment(decay_factor),
    {
        let m: u32 = self.multiplier(decay_factor);
        assert(self.base_increment * m <= 0xFFFF_FFFF * 0xFFFF_FFFF) by (nonlinear_arith)
            requires
                self.base_increment <= 0xFFFF_FFFF,
                m <= 0xFFFF_FFFF,
        ;
        (self.base_increment as u64) * (m as u64) / (UNIT as u64)
    }

    /// The volume step for a press at `now_ms`. Records the press, evaluates
    /// `curve`, the decay curve, at the exponent that the average interval
    /// gives, and returns the base increment times the multiplier for that
    /// value.
    pub fn calculate_volume_adjustment<F: Fn(u64) -> u32>(&mut self, now_ms: u64, curve: F) -> (delta:
        u64)
        requires
            call_requires(curve, (old(self)@.press(now_ms).current_exponent() as u64,)),
        ensures
            final(self)@ == old(self)@.press(now_ms),
            final(self)@.wf(),
            exists|factor: u32|
                call_ensures(curve, (final(self)@.current_exponent() as u64,), factor) && delta
                    == final(self)@.adjustment(factor),
    {
        let avg: u64 = self.record_press(now_ms);
        let exponent: u64 = self.decay_exponent(avg);
        let factor: u32 = curve(exponent);
        self.adjustment_for(factor)
    }
}

/// Replaces the bounds of the multiplier and the decay rate, all in
/// millionths. The values are taken as given; the history is kept.
pub fn set_acceleration_parameters(state: &mut VolumeKeyState, max: u32, min: u32, decay: u32)
    ensures
        final(state)@ == (EngineModel {
            max_acceleration: max,
            min_acceleration: min,
            decay_rate: decay,
            ..old(state)@
        }),
{
    proof {
        use_type_invariant(&*state);
    }
    state.max_acceleration = max;
    state.min_acceleration = min;
    state.decay_rate = decay;
}

/// Replaces the base increment, in millionths of full volume.
pub fn set_base_increment(state: &mut VolumeKeyState, increment: u32)
    ensures
        final(state)@ == (EngineModel { base_increment: increment, ..old(state)@ }),
{
    proof {
        use_type_invariant(&*state);
    }
    state.base_increment = increment;
}

/// Replaces the bounds of the multiplier and the decay rate if they define
/// an acceleration curve: the lower bound is no greater than the upper one
/// and the decay rate is not zero. Otherwise nothing changes.
pub fn checked_acceleration_parameters(
    state: &mut VolumeKeyState,
    max: u32,
    min: u32,
    decay: u32,
) -> (outcome: Result<(), VolumeError>)
    ensures
        outcome is Ok <==> min <= max && decay > 0,
        outcome is Err ==> outcome == Err::<(), VolumeError>(VolumeError::InvalidParameter)
            && final(state)@ == old(state)@,
        outcome is Ok ==> final(state)@ == (EngineModel {
            max_acceleration: max,
            min_acceleration: min,
            decay_rate: decay,
            ..old(state)@
        }),
{
    if min <= max && decay > 0 {
        set_acceleration_parameters(state, max, min, decay);
        Ok(())
    } else {
        Err(VolumeError::InvalidParameter)
    }
}

/// A press that comes no later after its predecessor than any remembered
/// interval does not raise the average, and one that comes no sooner than
/// any does not lower it. So the average falls press by press through a
/// burst faster than what came before, and rises through a slower one.
pub proof fn lemma_average_follows_pace(m: EngineModel, now: u64)
    requires
        m.wf(),
        m.filled >= 1,
    ensures
        (forall|i: int| 0 <= i < m.filled ==> elapsed_since(m.last_pressed, now) <= m.intervals[i])
            ==> m.press(now).average() <= m.average(),
        (forall|i: int| 0 <= i < m.filled ==> elapsed_since(m.last_pressed, now) >= m.intervals[i])
            ==> m.press(now).average() >= m.average(),
{
    reveal_with_fuel(sum_first, 6);
    let e = elapsed_since(m.last_pressed, now);
    let before = sum_first(m.intervals, m.filled);
    let after = sum_first(m.press(now).intervals, m.press(now).filled);
    let e0 = m.intervals[0];
    let e1 = m.intervals[1];
    let e2 = m.intervals[2];
    let e3 = m.intervals[3];
    let e4 = m.intervals[4];
    if m.filled == 1 {
        assert(before == e0 && after == e0 + e);
    } else if m.filled == 2 {
        assert(before == e0 + e1 && after == before + e);
    } else if m.filled == 3 {
        assert(before == e0 + e1 + e2 && after == before + e);
    } else if m.filled == 4 {
        assert(before == e0 + e1 + e2 + e3 && after == before + e);
    } else {
        assert(before == e0 + e1 + e2 + e3 + e4);
        assert(after == before - m.intervals[m.next as int] + e);
    }
}

/// A press keeps the history well formed: the fill count never passes the
/// capacity, and once there it stays.
pub proof fn lemma_press_keeps_bounds(m: EngineModel, now: u64)
    requires
        m.wf(),
    ensures
        m.press(now).wf(),
        m.filled <= m.press(now).filled <= HISTORY,
        m.filled == HISTORY ==> m.press(now).filled == HISTORY,
{
}

/// The first press of a fresh engine averages to the idle gap, whatever the
/// clock shows: with the default tuning the decay curve is evaluated at
/// sixteen, far down its tail.
pub proof fn lemma_first_press_is_slow(now: u64)
    ensures
        EngineModel::initial().press(now).filled == 1,
        EngineModel::initial().press(now).average() == IDLE_GAP_MS,
        EngineModel::initial().press(now).current_exponent() == 16 * UNIT,
{
    reveal_with_fuel(sum_first, 2);
}

/// Presses at an even spacing fill the history with that spacing: after as
/// many of them as the history holds, the average is the spacing itself.
pub proof fn lemma_steady_presses_average(m: EngineModel, start: u64, spacing: u64)
    requires
        m.wf(),
        m.last_pressed == Some(start),
        start + 5 * spacing <= u64::MAX,
    ensures
        m.steady_burst(start, spacing).wf(),
        m.steady_burst(start, spacing).filled == HISTORY,
        forall|i: int| 0 <= i < HISTORY ==> m.steady_burst(start, spacing).intervals[i] == spacing,
        m.steady_burst(start, spacing).average() == spacing,
        m.steady_burst(start, spacing).max_acceleration == m.max_acceleration,
        m.steady_burst(start, spacing).min_acceleration == m.min_acceleration,
        m.steady_burst(start, spacing).decay_rate == m.decay_rate,
        m.steady_burst(start, spacing).base_increment == m.base_increment,
{
    reveal_with_fuel(sum_first, 6);
    let m1 = m.press((start + spacing) as u64);
    let m2 = m1.press((start + 2 * spacing) as u64);
    let m3 = m2.press((start + 3 * spacing) as u64);
    let m4 = m3.press((start + 4 * spacing) as u64);
    let m5 = m4.press((start + 5 * spacing) as u64);
    assert(m1.wf() && m2.wf() && m3.wf() && m4.wf() && m5.wf());
    assert(m5.filled == HISTORY);
    assert forall|i: int| 0 <= i < HISTORY implies m5.intervals[i] == spacing by {
        assert(m1.intervals[m.next as int] == spacing);
        assert(m2.intervals[m1.next as int] == spacing);
        assert(m3.intervals[m2.next as int] == spacing);
        assert(m4.intervals[m3.next as int] == spacing);
        assert(m5.intervals[m4.next as int] == spacing);
    }
    assert(sum_first(m5.intervals, 5) == 5 * spacing);
}

/// Whether a decay curve never rises: a greater exponent gives no greater
/// value.
pub open spec fn never_rises(curve: spec_fn(int) -> u32) -> bool {
    forall|x: int, y: int| 0 <= x <= y ==> #[trigger] curve(y) <= #[trigger] curve(x)
}

/// Under any decay curve that never rises, a steady burst at a shorter
/// spacing ends with a multiplier at least as large as one at a longer
/// spacing, and none passes the upper bound. With ordered bounds and a curve
/// that is one whole at zero, a burst without any spacing reaches the upper
/// bound.
pub proof fn lemma_faster_burst_accelerates(
    m: EngineModel,
    curve: spec_fn(int) -> u32,
    start: u64,
    fast: u64,
    slow: u64,
)
    requires
        m.wf(),
        m.last_pressed == Some(start),
        fast <= slow,
        start + 5 * slow <= u64::MAX,
        never_rises(curve),
    ensures
        m.steady_burst(start, slow).current_multiplier(curve) <= m.steady_burst(
            start,
            fast,
        ).current_multiplier(curve),
        m.steady_burst(start, fast).current_multiplier(curve) <= m.max_acceleration,
        m.min_acceleration <= m.max_acceleration && curve(0) == UNIT ==> m.steady_burst(
            start,
            0,
        ).current_multiplier(curve) == m.max_acceleration,
{
    lemma_steady_presses_average(m, start, fast);
    lemma_steady_presses_average(m, start, slow);
    lemma_steady_presses_average(m, start, 0);
    let quick = m.steady_burst(start, fast);
    let calm = m.steady_burst(start, slow);
    let still = m.steady_burst(start, 0);
    lemma_exponent_monotone(quick, fast, slow);
    assert(quick.exponent(slow) == calm.exponent(slow));
    assert(0 <= quick.current_exponent() <= calm.current_exponent()) by {
        assert(0 <= quick.decay_rate * fast) by (nonlinear_arith);
    }
    lemma_multiplier_monotone(quick, curve(calm.current_exponent()), curve(quick.current_exponent()));
    lemma_multiplier_bounds(quick, curve(quick.current_exponent()));
    assert(still.current_exponent() == 0);
    if m.min_acceleration <= m.max_acceleration && curve(0) == UNIT {
        lemma_multiplier_limits(still);
    }
}

/// With ordered bounds, every value of the decay curve that scales the upper
/// bound to the lower one or less gives the lower bound: long pauses decay
/// the multiplier to its minimum.
pub proof fn lemma_slow_presses_get_minimum(m: EngineModel, decay_factor: u32)
    requires
        m.min_acceleration <= m.max_acceleration,
        m.max_acceleration * decay_factor <= m.min_acceleration * UNIT,
    ensures
        m.multiplier(decay_factor) == m.min_acceleration,
{
    let a = m.max_acceleration as int;
    let lo = m.min_acceleration as int;
    assert((a * decay_factor) / (UNIT as int) <= lo) by (nonlinear_arith)
        requires
            a * decay_factor <= lo * UNIT,
    ;
}

/// The multiplier never passes the upper bound, and with ordered bounds it
/// never falls under the lower one.
pub proof fn lemma_multiplier_bounds(m: EngineModel, decay_factor: u32)
    ensures
        m.multiplier(decay_factor) <= m.max_acceleration,
        m.min_acceleration <= m.max_acceleration ==> m.min_acceleration <= m.multiplier(
            decay_factor,
        ),
{
}

/// A larger decay factor, which is what shorter intervals give, never lowers
/// the multiplier.
pub proof fn lemma_multiplier_monotone(m: EngineModel, slow: u32, fast: u32)
    requires
        slow <= fast,
    ensures
        m.multiplier(slow) <= m.multiplier(fast),
{
    let a = m.max_acceleration as int;
    assert(a * slow <= a * fast) by (nonlinear_arith)
        requires
            0 <= a,
            slow <= fast,
    ;
    assert((a * slow) / (UNIT as int) <= (a * fast) / (UNIT as int)) by (nonlinear_arith)
        requires
            a * slow <= a * fast,
    ;
}

/// With ordered bounds the multiplier reaches both ends: a factor of one
/// whole, the limit of vanishing intervals, gives the upper bound, and a
/// factor of zero, the limit of long pauses, gives the lower one.
pub proof fn lemma_multiplier_limits(m: EngineModel)
    requires
        m.min_acceleration <= m.max_acceleration,
    ensures
        m.multiplier(UNIT) == m.max_acceleration,
        m.multiplier(0) == m.min_acceleration,
{
    let a = m.max_acceleration as int;
    assert((a * (UNIT as int)) / (UNIT as int) == a) by (nonlinear_arith);
    assert(a * 0 == 0);
}

/// The exponent of the decay curve grows with the average interval and is
/// zero for an interval of zero.
pub proof fn lemma_exponent_monotone(m: EngineModel, short_ms: u64, long_ms: u64)
    requires
        short_ms <= long_ms,
    ensures
        m.exponent(0) == 0,
        m.exponent(short_ms) <= m.exponent(long_ms),
{
    assert(m.decay_rate * short_ms <= m.decay_rate * long_ms) by (nonlinear_arith)
        requires
            short_ms <= long_ms,
    ;
}

} // verus!
