//! What the four-channel apps' shared parts promise.

use crate::apps::four_chan::{
    blinks, cc_limit, cycle_ticks, derived_cc, flash_hold, map_bit, mapped_cc, mapped_channel,
    mapped_note, range_after, septet, Freeze, Patch, TickWatch,
};
use crate::panel::Range;
use vstd::prelude::*;

verus! {

/// Without a map the waves take the controllers from the base on, one each; the
/// last that can be sent is taken for any beyond.
pub proof fn derived_controllers_count_up(base: int, wave: int)
    requires
        0 <= base,
        0 <= wave < 4,
    ensures
        base + wave <= 127 ==> mapped_cc(0, base, wave, false) == base + wave,
        base + wave > 127 ==> mapped_cc(0, base, wave, false) == 127,
        base + wave <= 16383 ==> mapped_cc(0, base, wave, true) == base + wave,
        base + wave > 16383 ==> mapped_cc(0, base, wave, true) == 16383,
        mapped_note(0, base, wave) <= 127,
        derived_cc(base, 0, true) <= base,
{
}

/// A map gives each wave its own channel and controller, packed in order.
pub proof fn maps_give_each_wave_its_own(a: int, b: int, c: int, d: int, base: int, nrpn: bool)
    requires
        0 <= a < 16,
        0 <= b < 16,
        0 <= c < 16,
        0 <= d < 16,
        a + b + c + d > 0,
    ensures
        ({
            let map = a + 16 * b + 256 * c + 4096 * d;
            &&& mapped_channel(map, base, 0) == a + 1
            &&& mapped_channel(map, base, 1) == b + 1
            &&& mapped_channel(map, base, 2) == c + 1
            &&& mapped_channel(map, base, 3) == d + 1
        }),
        ({
            let map = a + 128 * b + 16384 * c + 2097152 * d;
            &&& mapped_cc(map, base, 0, nrpn) == a
            &&& mapped_cc(map, base, 1, nrpn) == b
            &&& mapped_cc(map, base, 2, nrpn) == c
            &&& mapped_cc(map, base, 3, nrpn) == d
        }),
{
    crate::apps::four_chan::channel_maps_unpack(a, b, c, d);
    crate::apps::four_chan::cc_maps_unpack(a, b, c, d);
}

/// The four bits of a mode map are the four waves', the lowest the first.
pub proof fn mode_bits_are_the_waves(p: bool, q: bool, r: bool, s: bool)
    ensures
        ({
            let map = (if p { 1int } else { 0 }) + (if q { 2int } else { 0 }) + (if r {
                4int
            } else {
                0
            }) + (if s { 8int } else { 0 });
            &&& map_bit(map, 0) == p
            &&& map_bit(map, 1) == q
            &&& map_bit(map, 2) == r
            &&& map_bit(map, 3) == s
        }),
{
}

/// Two swaps of a range lead back, and one blink tells the range that goes both
/// ways, two the other.
pub proof fn ranges_swap(times: int)
    requires
        0 <= times <= 200,
    ensures
        range_after(Range::V0To10) == Range::VNeg5To5,
        range_after(Range::VNeg5To5) == Range::V0To10,
        blinks(Range::VNeg5To5) == 1,
        blinks(Range::V0To10) == 2,
        flash_hold(times) == 270 * times + 40,
{
}

/// An input counts as patched from a movement on until it has rested for 1200
/// milliseconds.
pub proof fn rest_counts_as_unpatched(p: Patch, raw: u16, ms: int)
    requires
        p.wf(),
        0 <= ms,
    ensures
        ({
            let n = p.seen(raw, ms);
            let d = if raw >= p.prev_raw { raw - p.prev_raw } else { p.prev_raw - raw };
            &&& d > 24 ==> !n.unpatched() && n.idle_ms == 0
            &&& d <= 24 ==> (n.unpatched() <==> p.idle_ms + ms >= 1200)
            &&& d <= 24 && p.idle_ms + ms < 1200 ==> n.idle_ms == p.idle_ms + ms
            &&& n.prev_raw == raw
        }),
{
}

/// The watched clock's period is the time between two ticks; one that goes
/// backward or comes after half a second or more leaves it.
pub proof fn periods_are_measured_between_ticks(w: TickWatch, tick: u64, ms: int)
    requires
        0 < ms,
    ensures
        ({
            let n = w.seen(tick, ms);
            &&& tick == w.last_tick ==> n.period_ms == w.period_ms && (w.ms_since + ms <= 65535
                ==> n.ms_since == w.ms_since + ms)
            &&& tick != w.last_tick ==> n.ms_since == 0 && n.last_tick == tick
            &&& tick > w.last_tick && ms <= w.ms_since < 500 ==> n.period_ms == w.ms_since
            &&& tick < w.last_tick || w.ms_since >= 500 ==> n.period_ms == w.period_ms
        }),
{
}

/// A cycle is its division times its multiplier, and one tick at least.
pub proof fn cycles_multiply(div: int, mult: int)
    requires
        0 <= div,
        0 <= mult,
    ensures
        div * mult >= 1 ==> cycle_ticks(div, mult) == div * mult,
        cycle_ticks(0, mult) == 1,
        cycle_ticks(div, mult) >= 1,
{
    assert(0 * mult == 0) by (nonlinear_arith);
}

/// Not held, every sample passes as it is.
pub proof fn samples_pass_unless_held(f: Freeze, sample: u16)
    ensures
        f.seen(false, sample).out(sample) == sample,
        f.on ==> f.seen(true, sample).out(sample) == f.value,
{
}

/// A controller map packs four numbers of seven bits, the first wave lowest.
pub proof fn maps_pack_four_numbers(map: int)
    requires
        0 <= map < 0x1000_0000,
    ensures
        septet(map, 0) + 128 * septet(map, 1) + 16384 * septet(map, 2) + 2097152 * septet(map, 3)
            == map,
        0 <= septet(map, 0) < 128,
        0 <= septet(map, 1) < 128,
        0 <= septet(map, 2) < 128,
        0 <= septet(map, 3) < 128,
{
}

/// Plain controllers have seven bits, the others fourteen.
pub proof fn controllers_have_their_bits()
    ensures
        cc_limit(false) + 1 == 128,
        cc_limit(true) + 1 == 128 * 128,
{
}

} // verus!
