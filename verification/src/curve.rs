//! Fan-curve arithmetic: temperature smoothing, level stepping and curve editing.
use vstd::prelude::*;

use std::collections::VecDeque;

verus! {

/// Gap between a ramp-up point and the derived ramp-down point.
pub const RAMPDOWN_GAP_C: u8 = 8;

/// Highest temperature a curve point may hold.
pub const CURVE_TEMP_MAX: u8 = 100;

/// Sum of the samples.
pub open spec fn sum_spec(s: Seq<u8>) -> nat
    decreases s.len(),
{
    if s.len() == 0 {
        0
    } else {
        sum_spec(s.drop_last()) + s.last() as nat
    }
}

proof fn lemma_sum_bound(s: Seq<u8>)
    ensures
        sum_spec(s) <= 255 * s.len(),
    decreases s.len(),
{
    if s.len() > 0 {
        lemma_sum_bound(s.drop_last());
    }
}

/// Mean of the samples rounded half up; `None` for no samples.
pub open spec fn average_spec(s: Seq<u8>) -> Option<u8> {
    if s.len() == 0 {
        None
    } else {
        Some(((sum_spec(s) + s.len() / 2) / s.len()) as u8)
    }
}

/// The average rounds half up: `v` samples' worth of the average is at most
/// the sum plus half a sample, and one more would be above it.
pub proof fn lemma_average_rounds_half_up(s: Seq<u8>)
    requires
        s.len() > 0,
    ensures
        average_spec(s) is Some,
        (average_spec(s)->0 as int) * s.len() <= sum_spec(s) + s.len() / 2 < (average_spec(s)->0 as int + 1) * s.len(),
{
    lemma_sum_bound(s);
    let n = s.len() as int;
    let x = sum_spec(s) + n / 2;
    let q = x / n;
    assert(q * n <= x < (q + 1) * n) by (nonlinear_arith)
        requires
            n > 0,
            x >= 0,
            q == x / n,
    ;
    assert(q <= 255) by (nonlinear_arith)
        requires
            n > 0,
            x <= 255 * n + n / 2,
            q == x / n,
    ;
}

/// Rounded mean of the temperature samples. The count is taken as a 32-bit
/// number, so at most `u32::MAX` samples are averaged.
pub fn average_temps(samples: &[u8]) -> (r: Option<u8>)
    requires
        samples@.len() <= u32::MAX,
    ensures
        r == average_spec(samples@),
        r matches Some(v) ==> (v as nat) * samples@.len() <= sum_spec(samples@) + samples@.len() / 2,
{
    if samples.len() == 0 {
        return None;
    }
    let mut sum: u64 = 0;
    let mut i: usize = 0;
    while i < samples.len()
        invariant
            i <= samples@.len() <= u32::MAX,
            sum == sum_spec(samples@.subrange(0, i as int)),
        decreases samples@.len() - i,
    {
        proof {
            lemma_sum_bound(samples@.subrange(0, i as int));
            assert(samples@.subrange(0, i + 1).drop_last() =~= samples@.subrange(0, i as int));
        }
        sum = sum + samples[i] as u64;
        i = i + 1;
    }
    assert(samples@.subrange(0, samples@.len() as int) =~= samples@);
    let count = samples.len() as u64;
    proof {
        lemma_sum_bound(samples@);
        assert(sum + count / 2 <= 255 * count + count / 2) by (nonlinear_arith)
            requires
                sum <= 255 * count,
        ;
        assert((sum + count / 2) / (count as int) <= 255) by (nonlinear_arith)
            requires
                sum <= 255 * count,
                count > 0,
        ;
        assert(((sum + count / 2) / (count as int)) * count <= sum + count / 2) by (nonlinear_arith)
            requires
                count > 0,
        ;
    }
    Some(((sum + count / 2) / count) as u8)
}

/// Next fan level: step up when the temperature reaches the ramp-up point of
/// the current level, step down when it falls to the ramp-down point below.
pub open spec fn next_level_spec(current: u8, temp: u8, up: Seq<u8>, down: Seq<u8>) -> u8 {
    let c = if current > 5 { 5u8 } else { current };
    if c < 5 && temp >= up[c as int] {
        (c + 1) as u8
    } else if c > 0 && temp <= down[c - 1] {
        (c - 1) as u8
    } else {
        c
    }
}

/// One curve step from `current` (capped at 5) at temperature `temp`.
pub fn next_fan_level(current: u8, temp: u8, rampup: &[u8; 5], rampdown: &[u8; 5]) -> (r: u8)
    ensures
        r == next_level_spec(current, temp, rampup@, rampdown@),
        r <= 5,
{
    let current = if current > 5 {
        5
    } else {
        current
    };
    if current < 5 && temp >= rampup[current as usize] {
        current + 1
    } else if current > 0 && temp <= rampdown[(current - 1) as usize] {
        current - 1
    } else {
        current
    }
}

/// A fan level moves by at most one step, and never past 0 or 5.
pub proof fn lemma_next_level_moves_one_step(current: u8, temp: u8, up: Seq<u8>, down: Seq<u8>)
    requires
        current <= 5,
        up.len() == 5,
        down.len() == 5,
    ensures
        next_level_spec(current, temp, up, down) <= 5,
        next_level_spec(current, temp, up, down) == current || next_level_spec(current, temp, up, down)
            == current + 1 || next_level_spec(current, temp, up, down) == current - 1,
{
}

/// With each ramp-down point below the ramp-up point of the level above it, a
/// temperature that makes the level rise cannot at the same time make it fall.
pub proof fn lemma_next_level_hysteresis(current: u8, temp: u8, up: Seq<u8>, down: Seq<u8>)
    requires
        1 <= current <= 4,
        up.len() == 5,
        down.len() == 5,
        forall|i: int| 0 <= i < 5 ==> down[i] < up[i],
        temp >= up[current as int],
    ensures
        next_level_spec(current, temp, up, down) == current + 1,
{
}

/// Hysteresis: a fan at level `c` (1-5) whose temperature lies strictly
/// between the ramp-down point of its level and the ramp-up point of the
/// level above stays at `c`; the level falls only once the temperature is at
/// or below that ramp-down point.
pub proof fn lemma_next_level_holds_in_band(c: u8, temp: u8, up: Seq<u8>, down: Seq<u8>)
    requires
        1 <= c <= 5,
        up.len() == 5,
        down.len() == 5,
        down[c - 1] < temp,
        c < 5 ==> temp < up[c as int],
    ensures
        next_level_spec(c, temp, up, down) == c,
{
}

/// A fan at level `c` (1-5) that has not reached the ramp-up point above it
/// drops one level as soon as the temperature is at or below the ramp-down
/// point of its level.
pub proof fn lemma_next_level_falls_at_rampdown(c: u8, temp: u8, up: Seq<u8>, down: Seq<u8>)
    requires
        1 <= c <= 5,
        up.len() == 5,
        down.len() == 5,
        temp <= down[c - 1],
        c < 5 ==> temp < up[c as int],
    ensures
        next_level_spec(c, temp, up, down) == c - 1,
{
}

/// A fan below level 5 rises one level as soon as the temperature reaches the
/// ramp-up point of the level above; at level 0 it stays while below it.
pub proof fn lemma_next_level_rises_at_rampup(c: u8, temp: u8, up: Seq<u8>, down: Seq<u8>)
    requires
        c <= 4,
        up.len() == 5,
        down.len() == 5,
    ensures
        temp >= up[c as int] ==> next_level_spec(c, temp, up, down) == c + 1,
        c == 0 && temp < up[0] ==> next_level_spec(c, temp, up, down) == 0,
{
}

/// Saturating `a - b` on bytes.
pub open spec fn sat_sub(a: u8, b: u8) -> u8 {
    if a >= b {
        (a - b) as u8
    } else {
        0
    }
}

/// Saturating `a + b` on bytes.
pub open spec fn sat_add(a: u8, b: u8) -> u8 {
    if a + b <= 255 {
        (a + b) as u8
    } else {
        255
    }
}

/// Ramp-down point for ramp-up point `up`, given the previous ramp-down point
/// (`first` for the lowest level, which has none).
pub open spec fn derive_point(up: u8, prev: u8, first: bool) -> u8 {
    let derived: u8 = if up == 0 {
        0
    } else if sat_sub(up, RAMPDOWN_GAP_C) < up - 1 {
        sat_sub(up, RAMPDOWN_GAP_C)
    } else {
        (up - 1) as u8
    };
    let floor: u8 = if first { 0 } else { prev };
    let v1: u8 = if derived > floor { derived } else { floor };
    let v2: u8 = if up > 0 && v1 >= up { (up - 1) as u8 } else { v1 };
    let cap: u8 = if up == 0 { 0 } else { (up - 1) as u8 };
    if !first && v2 < prev {
        if prev < cap { prev } else { cap }
    } else {
        v2
    }
}

/// Ramp-down points `0..=i` derived from the ramp-up points.
pub open spec fn derive_prefix(up: Seq<u8>, i: int) -> Seq<u8>
    decreases i,
{
    if i <= 0 {
        seq![derive_point(up[0], 0, true)]
    } else {
        let p = derive_prefix(up, i - 1);
        p.push(derive_point(up[i], p[i - 1], false))
    }
}

proof fn lemma_derive_prefix_len(up: Seq<u8>, i: int)
    requires
        0 <= i,
    ensures
        derive_prefix(up, i).len() == i + 1,
    decreases i,
{
    if i > 0 {
        lemma_derive_prefix_len(up, i - 1);
    }
}

/// Ramp-down curve derived from a ramp-up curve: about 8°C lower, below each
/// ramp-up point, and not below the previous ramp-down point where possible.
pub fn derive_rampdown(rampup: &[u8; 5]) -> (r: [u8; 5])
    ensures
        r@ == derive_prefix(rampup@, 4),
{
    let mut down = [0u8; 5];
    let mut index: usize = 0;
    while index < 5
        invariant
            index <= 5,
            forall|j: int| 0 <= j < index ==> down@[j] == #[trigger] derive_prefix(rampup@, 4)[j],
        decreases 5 - index,
    {
        let up = rampup[index];
        let derived = if up == 0 {
            0
        } else {
            let s = if up >= RAMPDOWN_GAP_C { up - RAMPDOWN_GAP_C } else { 0 };
            if s < up - 1 { s } else { up - 1 }
        };
        let floor = if index == 0 {
            0
        } else {
            down[index - 1]
        };
        let mut value = if derived > floor { derived } else { floor };
        if up > 0 && value >= up {
            value = up - 1;
        }
        if index > 0 && value < down[index - 1] {
            let cap = if up == 0 { 0 } else { up - 1 };
            value = if down[index - 1] < cap { down[index - 1] } else { cap };
        }
        proof {
            lemma_prefix_stable(rampup@, index as int, 4);
            lemma_derive_prefix_len(rampup@, 4);
            lemma_derive_prefix_len(rampup@, index as int);
            if index > 0 {
                lemma_prefix_stable(rampup@, index - 1, 4);
                lemma_derive_prefix_len(rampup@, index - 1);
                assert(derive_prefix(rampup@, index as int)[index as int] == derive_point(
                    rampup@[index as int],
                    derive_prefix(rampup@, index - 1)[index - 1],
                    false,
                ));
            }
        }
        down[index] = value;
        index = index + 1;
    }
    proof {
        lemma_derive_prefix_len(rampup@, 4);
    }
    assert(down@ =~= derive_prefix(rampup@, 4));
    down
}

proof fn lemma_prefix_stable(up: Seq<u8>, i: int, k: int)
    requires
        0 <= i <= k,
    ensures
        derive_prefix(up, k)[i] == derive_prefix(up, i)[i],
    decreases k - i,
{
    if k > i {
        lemma_prefix_stable(up, i, k - 1);
        lemma_derive_prefix_len(up, k - 1);
        assert(derive_prefix(up, k)[i] == derive_prefix(up, k - 1)[i]);
    }
}

/// For a strictly rising ramp-up curve the derived ramp-down curve never
/// falls, and every ramp-down point above zero's ramp-up stays below it.
pub proof fn lemma_rampdown_below_and_nondecreasing(up: Seq<u8>)
    requires
        up.len() == 5,
        forall|i: int, j: int| 0 <= i < j < 5 ==> up[i] < up[j],
    ensures
        forall|i: int| 0 <= i < 5 && up[i] > 0 ==> #[trigger] derive_prefix(up, 4)[i] < up[i],
        forall|i: int| 0 < i < 5 ==> derive_prefix(up, 4)[i - 1] <= #[trigger] derive_prefix(up, 4)[i],
{
    lemma_rampdown_prefix_facts(up, 4);
}

proof fn lemma_rampdown_prefix_facts(up: Seq<u8>, k: int)
    requires
        up.len() == 5,
        0 <= k < 5,
        forall|i: int, j: int| 0 <= i < j < 5 ==> up[i] < up[j],
    ensures
        derive_prefix(up, k).len() == k + 1,
        forall|i: int| 0 <= i <= k && up[i] > 0 ==> #[trigger] derive_prefix(up, k)[i] < up[i],
        forall|i: int| 0 <= i <= k && up[i] == 0 ==> #[trigger] derive_prefix(up, k)[i] == 0,
        forall|i: int| 0 < i <= k ==> derive_prefix(up, k)[i - 1] <= #[trigger] derive_prefix(up, k)[i],
    decreases k,
{
    lemma_derive_prefix_len(up, k);
    if k > 0 {
        lemma_rampdown_prefix_facts(up, k - 1);
        let p = derive_prefix(up, k - 1);
        assert(up[k - 1] < up[k]);
        assert forall|i: int| 0 <= i < k implies derive_prefix(up, k)[i] == p[i] by {}
    }
}

/// A rising ramp-up curve whose points are all at least 8°C gives the
/// ramp-down curve that is exactly 8°C lower point by point.
pub proof fn lemma_rampdown_is_gap_below(up: Seq<u8>)
    requires
        up.len() == 5,
        forall|i: int, j: int| 0 <= i < j < 5 ==> up[i] <= up[j],
        forall|i: int| 0 <= i < 5 ==> up[i] > RAMPDOWN_GAP_C,
    ensures
        forall|i: int| 0 <= i < 5 ==> #[trigger] derive_prefix(up, 4)[i] == up[i] - RAMPDOWN_GAP_C,
{
    lemma_gap_prefix(up, 4);
}

proof fn lemma_gap_prefix(up: Seq<u8>, k: int)
    requires
        up.len() == 5,
        0 <= k < 5,
        forall|i: int, j: int| 0 <= i < j < 5 ==> up[i] <= up[j],
        forall|i: int| 0 <= i < 5 ==> up[i] > RAMPDOWN_GAP_C,
    ensures
        derive_prefix(up, k).len() == k + 1,
        forall|i: int| 0 <= i <= k ==> #[trigger] derive_prefix(up, k)[i] == up[i] - RAMPDOWN_GAP_C,
    decreases k,
{
    lemma_derive_prefix_len(up, k);
    if k > 0 {
        lemma_gap_prefix(up, k - 1);
        let p = derive_prefix(up, k - 1);
        assert(up[k - 1] <= up[k]);
        assert forall|i: int| 0 <= i < k implies derive_prefix(up, k)[i] == p[i] by {}
    }
}

/// `rampup` with point `index` moved to `temp`, kept strictly between its
/// neighbours (and at most 100 for the top point); unchanged when `index` is
/// out of range or the neighbours leave no room.
pub open spec fn clamp_point_spec(up: Seq<u8>, index: int, temp: u8) -> Seq<u8> {
    if index < 0 || index >= 5 {
        up
    } else {
        let lo: u8 = if index == 0 { 0 } else { sat_add(up[index - 1], 1) };
        let hi: u8 = if index + 1 >= 5 { CURVE_TEMP_MAX } else { sat_sub(up[index + 1], 1) };
        if lo > hi {
            up
        } else {
            up.update(index, if temp < lo { lo } else if temp > hi { hi } else { temp })
        }
    }
}

/// Moves one ramp-up point without letting it cross its neighbours.
pub fn clamp_rampup_point(rampup: [u8; 5], index: usize, temp: u8) -> (r: [u8; 5])
    ensures
        r@ == clamp_point_spec(rampup@, index as int, temp),
{
    let mut rampup = rampup;
    if index >= 5 {
        return rampup;
    }
    let min = if index == 0 {
        0
    } else if rampup[index - 1] < 255 {
        rampup[index - 1] + 1
    } else {
        255
    };
    let max = if index + 1 >= 5 {
        CURVE_TEMP_MAX
    } else if rampup[index + 1] >= 1 {
        rampup[index + 1] - 1
    } else {
        0
    };
    if min > max {
        return rampup;
    }
    let value = if temp < min {
        min
    } else if temp > max {
        max
    } else {
        temp
    };
    rampup[index] = value;
    rampup
}

/// Moving one point of a strictly rising curve within 0..=100 keeps it
/// strictly rising and within 0..=100.
pub proof fn lemma_clamp_keeps_curve_rising(up: Seq<u8>, index: int, temp: u8)
    requires
        up.len() == 5,
        forall|i: int, j: int| 0 <= i < j < 5 ==> up[i] < up[j],
        forall|i: int| 0 <= i < 5 ==> up[i] <= CURVE_TEMP_MAX,
    ensures
        ({
            let r = clamp_point_spec(up, index, temp);
            &&& r.len() == 5
            &&& forall|i: int, j: int| 0 <= i < j < 5 ==> r[i] < r[j]
            &&& forall|i: int| 0 <= i < 5 ==> r[i] <= CURVE_TEMP_MAX
        }),
{
    let r = clamp_point_spec(up, index, temp);
    if 0 <= index < 5 {
        assert forall|i: int, j: int| 0 <= i < j < 5 implies r[i] < r[j] by {
            if i == index {
                assert(up[i] < up[j]);
            } else if j == index {
                assert(up[i] < up[j]);
            }
        }
    }
}

/// The last `n` items of `s` (all of `s` when it is shorter).
pub open spec fn keep_last<T>(s: Seq<T>, n: nat) -> Seq<T> {
    if s.len() > n {
        s.skip(s.len() - n)
    } else {
        s
    }
}

/// Appends a sample and drops the oldest until at most `max(max_len, 1)` remain.
pub fn push_temp_sample(window: &mut VecDeque<u8>, temp: u8, max_len: u8)
    ensures
        final(window)@ == keep_last(
            old(window)@.push(temp),
            if max_len == 0 { 1 } else { max_len as nat },
        ),
{
    let max_len: usize = if max_len == 0 {
        1
    } else {
        max_len as usize
    };
    let ghost full = window@.push(temp);
    window.push_back(temp);
    while window.len() > max_len
        invariant
            max_len >= 1,
            window@.len() >= 1,
            full.len() >= window@.len(),
            window@ == full.skip(full.len() - window@.len()),
            window@.len() >= max_len || window@.len() == full.len(),
        decreases window@.len(),
    {
        let ghost before = window@;
        let _ = window.pop_front();
        assert(window@ =~= full.skip(full.len() - window@.len()));
    }
    assert(full.skip(0) =~= full);
    assert(keep_last(full, max_len as nat) =~= window@);
}

} // verus!
