//! What the ducker promises: how deep it ducks, how often, and where it rests.

use crate::apps::heat_pump::{
    division_of, ducked, fader_of_division, idle, low_ticks, slot_of, ticks_of, DEST_DEPTH,
    DEST_DUCK, DEST_RELEASE, HeatPump, Metronome,
};
use vstd::prelude::*;

verus! {

/// A duck goes as deep as its depth below the level at rest, and an inversion
/// is the same upside down.
pub proof fn ducks_go_as_deep_as_asked(depth: int)
    requires
        0 <= depth <= 4095,
    ensures
        idle(false) - ducked(false, depth) == depth,
        ducked(true, depth) - idle(true) == depth,
        idle(false) == 4095,
        idle(true) == 0,
        ducked(true, depth) + ducked(false, depth) == 4095,
{
}

/// The speed fader has ten zones of equal width, each division shorter than the
/// one before.
pub proof fn divisions_get_shorter(v: int, a: int, b: int)
    requires
        0 <= v <= 4095,
        0 <= a < b <= 9,
    ensures
        0 <= 10 * v - 4096 * division_of(v) < 4096,
        ticks_of(a) > ticks_of(b),
        ticks_of(0) == 96,
{
}

/// Muted, the pump rests at its level at rest; else its level goes out.
pub proof fn mute_bypasses_the_pump(s: HeatPump, level: int)
    ensures
        !s.store.muted ==> s.out_level(level) == level,
        s.store.muted && !s.store.invert ==> s.out_level(level) == 4095,
        s.store.muted && s.store.invert ==> s.out_level(level) == 0,
{
}

/// An input moves the depth or the release, or ducks, as its destination says,
/// and leaves the others alone.
pub proof fn inputs_reach_their_destination(s: HeatPump, in_val: u16)
    requires
        s.store.depth <= 4095,
        s.store.release <= 4095,
    ensures
        ({
            let (depth, release, high) = s.cv_effect(in_val);
            &&& s.dest == crate::apps::heat_pump::DEST_DEPTH ==> release == s.store.release && !high
            &&& s.dest == crate::apps::heat_pump::DEST_RELEASE ==> depth == s.store.depth && !high
            &&& s.dest == crate::apps::heat_pump::DEST_DUCK ==> depth == s.store.depth && release
                == s.store.release
            &&& in_val == 2047 ==> depth == s.store.depth && release == s.store.release
            &&& s.dest == crate::apps::heat_pump::DEST_DEPTH && 0 <= s.store.depth + in_val - 2047
                <= 4095 ==> depth - s.store.depth == in_val - 2047
            &&& s.dest == crate::apps::heat_pump::DEST_RELEASE && 0 <= s.store.release + in_val
                - 2047 <= 4095 ==> release - s.store.release == in_val - 2047
            &&& s.dest == crate::apps::heat_pump::DEST_DUCK && in_val == 4095 ==> high
            &&& in_val <= 2047 ==> !high
        }),
{
}

/// The button's metronome counts the quarters of a division.
pub proof fn slots_are_quarters(tick: u64, division: int)
    requires
        0 <= division <= 9,
        tick <= u32::MAX,
    ensures
        ({
            let n = ticks_of(division);
            let phase = tick as int % n;
            let q = slot_of(tick, division);
            &&& 0 <= q < 4
            &&& q * n <= 4 * phase < q * n + n
        }),
{
    let n = ticks_of(division);
    assert(n >= 1);
    let phase = tick as int % n;
    let x = phase * 4;
    let q = x / n;
    assert(low_ticks(tick) == tick);
    assert(0 <= phase < n && 0 <= q && q * n <= x < q * n + n && q < 4) by (nonlinear_arith)
        requires
            phase == tick as int % n,
            n >= 1,
            x == phase * 4,
            q == x / n,
            tick >= 0,
    ;
}

/// The button ducks at the end of each quarter for half as long as it lasted,
/// and what is left runs down by one each millisecond.
pub proof fn metronome_ducks_between_quarters(m: Metronome, division: usize, slot: u8)
    requires
        m.last_division == Some(division),
        m.last_slot < 4,
        slot < 4,
    ensures
        ({
            let (n, low) = m.stepped(division, slot);
            &&& slot == m.last_slot ==> low == (m.duck_left > 0) && n.duck_left == if m.duck_left
                > 0 {
                m.duck_left - 1
            } else {
                0
            }
            &&& slot != m.last_slot && m.ms_in_slot < 2 * 20 ==> n.duck_left * 2 <= m.ms_in_slot
            &&& slot != m.last_slot ==> n.ms_in_slot == 1
            &&& slot == m.last_slot && m.ms_in_slot < 65535 ==> n.ms_in_slot == m.ms_in_slot + 1
            &&& n.last_slot == slot
        }),
{
}

/// The light ducks for half of what a slot took, at most 25 ms, and not at all
/// where that is too short to see.
pub proof fn lights_duck_briefly(ms: int)
    requires
        0 <= ms,
    ensures
        ms >= 50 ==> Metronome::duck_after(ms) == 25,
        8 <= ms < 50 ==> 0 <= ms - 2 * Metronome::duck_after(ms) < 2,
        ms < 8 ==> Metronome::duck_after(ms) == 0,
{
}

/// The fader that stands for a division selects it.
pub proof fn divisions_are_found_again(d: int)
    requires
        0 <= d <= 9,
    ensures
        0 <= fader_of_division(d) <= 4095,
        0 <= 4095 * d - 9 * fader_of_division(d) < 9,
{
}

/// The fade that answers an inversion goes evenly over half a second, up where
/// the output rises and down where it falls.
pub proof fn inversions_fade_evenly(s: HeatPump)
    requires
        s.invert_fade <= 500,
    ensures
        !s.invert_fade_up ==> 0 <= 255 * s.invert_fade - 500 * s.fade_level() < 500,
        s.invert_fade_up ==> 0 <= 255 * (500 - s.invert_fade) - 500 * s.fade_level() < 500,
{
}

/// The CV input moves the setting that it is sent to and no other; sent to the
/// duck it triggers from three fifths of its range on.
pub proof fn inputs_act_on_their_destination(s: HeatPump, in_val: u16)
    ensures
        s.dest != DEST_DEPTH ==> s.cv_effect(in_val).0 == s.store.depth,
        s.dest != DEST_RELEASE ==> s.cv_effect(in_val).1 == s.store.release,
        s.dest != DEST_DUCK ==> !s.cv_effect(in_val).2,
        s.dest == DEST_DUCK ==> (s.cv_effect(in_val).2 <==> in_val > 2457),
{
}

} // verus!
