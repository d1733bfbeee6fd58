//! What the four-channel apps share: MIDI maps packed into parameters, the
//! detection of a patched input, the watch on the clock, and the freeze.

use crate::panel::{abs_diff, dist, min_int, Range};
use vstd::arithmetic::div_mod::lemma_fundamental_div_mod_converse;
use vstd::prelude::*;

verus! {

/// Input samples this close count as unchanged.
pub const IN_DEADBAND: u16 = 24;
/// Milliseconds of unchanged input before the internal oscillator takes over.
pub const IN_IDLE_MS: u16 = 1200;
/// Fader noise to ignore while the button is held.
pub const FADER_MOVE_THRESH: u16 = 64;

/// A channel map of four nibbles.
pub const CH_MAP_MAX: i32 = 65_535;
/// A controller map of four fields of seven bits.
pub const CC_MAP_MAX: i32 = 268_435_455;
/// A mode map of four bits.
pub const MODE_MAP_MAX: i32 = 15;

// ---------------------------------------------------------------------------
// Packed maps
// ---------------------------------------------------------------------------

/// Highest controller number that can be sent: an NRPN has 14 bits, a plain
/// controller seven.
pub open spec fn cc_limit(nrpn: bool) -> int {
    if nrpn { 16383 } else { 127 }
}

pub fn midi_cc_limit(nrpn: bool) -> (r: u16)
    ensures
        r == cc_limit(nrpn),
{
    if nrpn {
        16383
    } else {
        127
    }
}

/// Base controller plus the channel's index, kept within the limit.
pub open spec fn derived_cc(base: int, chan: int, nrpn: bool) -> int {
    min_int(base + chan, cc_limit(nrpn))
}

pub fn channel_cc(base: u16, chan: usize, nrpn: bool) -> (r: u16)
    requires
        chan < 4,
    ensures
        r == derived_cc(base as int, chan as int, nrpn),
{
    let cc: u16 = base.saturating_add(chan as u16);
    let limit: u16 = midi_cc_limit(nrpn);
    if cc < limit {
        cc
    } else {
        limit
    }
}

/// The four bits of a wave in a channel map.
pub open spec fn nibble(map: int, wave: int) -> int {
    if wave == 0 {
        map % 16
    } else if wave == 1 {
        map / 16 % 16
    } else if wave == 2 {
        map / 256 % 16
    } else {
        map / 4096 % 16
    }
}

/// The seven bits of a wave in a controller map.
pub open spec fn septet(map: int, wave: int) -> int {
    if wave == 0 {
        map % 128
    } else if wave == 1 {
        map / 128 % 128
    } else if wave == 2 {
        map / 16384 % 128
    } else {
        map / 2097152 % 128
    }
}

/// The bit of a wave in a mode map.
pub open spec fn map_bit(map: int, wave: int) -> bool {
    (if wave == 0 {
        map
    } else if wave == 1 {
        map / 2
    } else if wave == 2 {
        map / 4
    } else {
        map / 8
    }) % 2 == 1
}

/// Adding a whole word changes no field of a map.
proof fn words_share_fields(map: int)
    ensures
        forall|wave: int| #[trigger] nibble(map + 0x1_0000_0000, wave) == nibble(map, wave),
        forall|wave: int| #[trigger] septet(map + 0x1_0000_0000, wave) == septet(map, wave),
        forall|wave: int| #[trigger] map_bit(map + 0x1_0000_0000, wave) == map_bit(map, wave),
{
    let w = map + 0x1_0000_0000;
    assert(w / 16 == map / 16 + 0x1000_0000);
    assert(w / 256 == map / 256 + 0x100_0000);
    assert(w / 4096 == map / 4096 + 0x10_0000);
    assert(w / 128 == map / 128 + 0x200_0000);
    assert(w / 16384 == map / 16384 + 0x4_0000);
    assert(w / 2097152 == map / 2097152 + 0x800);
    assert(w / 2 == map / 2 + 0x8000_0000);
    assert(w / 4 == map / 4 + 0x4000_0000);
    assert(w / 8 == map / 8 + 0x2000_0000);
}

/// The bits of a map; those of a negative one are its two's complement.
fn map_word(map: i32) -> (m: u64)
    ensures
        m <= 0xffff_ffff,
        forall|wave: int| #[trigger] nibble(m as int, wave) == nibble(map as int, wave),
        forall|wave: int| #[trigger] septet(m as int, wave) == septet(map as int, wave),
        forall|wave: int| #[trigger] map_bit(m as int, wave) == map_bit(map as int, wave),
{
    proof {
        words_share_fields(map as int);
    }
    if map >= 0 {
        map as u64
    } else {
        (map as i64 + 0x1_0000_0000) as u64
    }
}

/// Sending channel of a wave: the base channel where the whole map is zero,
/// else the map's, counted from one.
pub open spec fn mapped_channel(map: int, base: int, wave: int) -> int {
    if map == 0 { base } else { nibble(map, wave) + 1 }
}

pub fn channel_for(map: i32, base: u8, wave: usize) -> (r: u8)
    requires
        wave < 4,
    ensures
        r == mapped_channel(map as int, base as int, wave as int),
{
    if map == 0 {
        return base;
    }
    let m: u64 = map_word(map);
    let field: u64 = match wave {
        0 => m % 16,
        1 => m / 16 % 16,
        2 => m / 256 % 16,
        _ => m / 4096 % 16,
    };
    assert(field == nibble(m as int, wave as int));
    field as u8 + 1
}

fn map_septet(map: i32, wave: usize) -> (r: u16)
    requires
        wave < 4,
    ensures
        r == septet(map as int, wave as int),
        r < 128,
{
    let m: u64 = map_word(map);
    let field: u64 = match wave {
        0 => m % 128,
        1 => m / 128 % 128,
        2 => m / 16384 % 128,
        _ => m / 2097152 % 128,
    };
    assert(field == septet(m as int, wave as int));
    field as u16
}

/// Controller number of a wave: derived from the base where the whole map is
/// zero, else the map's.
pub open spec fn mapped_cc(map: int, base: int, wave: int, nrpn: bool) -> int {
    if map == 0 { derived_cc(base, wave, nrpn) } else { septet(map, wave) }
}

pub fn cc_for(map: i32, base: u16, wave: usize, nrpn: bool) -> (r: u16)
    requires
        wave < 4,
    ensures
        r == mapped_cc(map as int, base as int, wave as int, nrpn),
{
    if map == 0 {
        return channel_cc(base, wave, nrpn);
    }
    map_septet(map, wave)
}

/// Note number of a wave, from the same map. A note always has seven bits.
pub open spec fn mapped_note(map: int, base: int, wave: int) -> int {
    mapped_cc(map, base, wave, false)
}

pub fn note_for(map: i32, base: u16, wave: usize) -> (r: u8)
    requires
        wave < 4,
    ensures
        r == mapped_note(map as int, base as int, wave as int),
        r <= 127,
{
    cc_for(map, base, wave, false) as u8
}

pub fn wave_bit(map: i32, wave: usize) -> (r: bool)
    requires
        wave < 4,
    ensures
        r == map_bit(map as int, wave as int),
{
    let m: u64 = map_word(map);
    let shifted: u64 = match wave {
        0 => m,
        1 => m / 2,
        2 => m / 4,
        _ => m / 8,
    };
    let r = shifted % 2 == 1;
    assert(r == map_bit(m as int, wave as int));
    r
}

/// A map of zero follows the base settings for every wave.
pub proof fn zero_maps_follow_the_base(base_ch: int, base_cc: int, wave: int, nrpn: bool)
    ensures
        mapped_channel(0, base_ch, wave) == base_ch,
        mapped_cc(0, base_cc, wave, nrpn) == derived_cc(base_cc, wave, nrpn),
{
}

/// Whatever the maps hold, channels and controllers can be sent.
pub proof fn mapped_numbers_can_be_sent(map: int, base: int, wave: int, nrpn: bool)
    requires
        0 <= map,
        0 <= base,
        0 <= wave < 4,
    ensures
        0 <= mapped_cc(map, base, wave, nrpn) <= cc_limit(nrpn),
        0 <= mapped_note(map, base, wave) <= 127,
        map != 0 ==> 1 <= mapped_channel(map, base, wave) <= 16,
{
}

/// Four fields packed into a map read back as they were.
pub proof fn channel_maps_unpack(a: int, b: int, c: int, d: int)
    requires
        0 <= a < 16,
        0 <= b < 16,
        0 <= c < 16,
        0 <= d < 16,
    ensures
        ({
            let map = a + 16 * b + 256 * c + 4096 * d;
            &&& 0 <= map <= CH_MAP_MAX
            &&& nibble(map, 0) == a
            &&& nibble(map, 1) == b
            &&& nibble(map, 2) == c
            &&& nibble(map, 3) == d
        }),
{
    let map = a + 16 * b + 256 * c + 4096 * d;
    lemma_fundamental_div_mod_converse(map, 16, b + 16 * c + 256 * d, a);
    lemma_fundamental_div_mod_converse(b + 16 * c + 256 * d, 16, c + 16 * d, b);
    lemma_fundamental_div_mod_converse(map, 256, c + 16 * d, a + 16 * b);
    lemma_fundamental_div_mod_converse(c + 16 * d, 16, d, c);
    lemma_fundamental_div_mod_converse(map, 4096, d, a + 16 * b + 256 * c);
    lemma_fundamental_div_mod_converse(d, 16, 0, d);
}

/// Four controller numbers packed into a map read back as they were.
pub proof fn cc_maps_unpack(a: int, b: int, c: int, d: int)
    requires
        0 <= a < 128,
        0 <= b < 128,
        0 <= c < 128,
        0 <= d < 128,
    ensures
        ({
            let map = a + 128 * b + 16384 * c + 2097152 * d;
            &&& 0 <= map <= CC_MAP_MAX
            &&& septet(map, 0) == a
            &&& septet(map, 1) == b
            &&& septet(map, 2) == c
            &&& septet(map, 3) == d
        }),
{
    let map = a + 128 * b + 16384 * c + 2097152 * d;
    lemma_fundamental_div_mod_converse(map, 128, b + 128 * c + 16384 * d, a);
    lemma_fundamental_div_mod_converse(b + 128 * c + 16384 * d, 128, c + 128 * d, b);
    lemma_fundamental_div_mod_converse(map, 16384, c + 128 * d, a + 128 * b);
    lemma_fundamental_div_mod_converse(c + 128 * d, 128, d, c);
    lemma_fundamental_div_mod_converse(map, 2097152, d, a + 128 * b + 16384 * c);
    lemma_fundamental_div_mod_converse(d, 128, 0, d);
}

// ---------------------------------------------------------------------------
// Ranges
// ---------------------------------------------------------------------------

pub open spec fn range_after(range: Range) -> Range {
    if range == Range::V0To10 { Range::VNeg5To5 } else { Range::V0To10 }
}

pub fn next_range(range: Range) -> (r: Range)
    ensures
        r == range_after(range),
{
    match range {
        Range::V0To10 => Range::VNeg5To5,
        _ => Range::V0To10,
    }
}

/// One blink for a bipolar range, two for the other.
pub open spec fn blinks(range: Range) -> int {
    if range.bipolar() { 1 } else { 2 }
}

pub fn range_flash_times(range: Range) -> (r: usize)
    ensures
        r == blinks(range),
{
    if range.is_bipolar() {
        1
    } else {
        2
    }
}

pub open spec fn flash_hold(times: int) -> int {
    min_int(min_int(270 * (times % 65536), 65535) + 40, 65535)
}

/// Time for which a flash has the button to itself.
pub fn range_flash_hold_ms(times: usize) -> (r: u16)
    ensures
        r == flash_hold(times as int),
{
    let ms: u32 = 270 * (times % 65536) as u32;
    let ms: u16 = if ms > 65535 { 65535 } else { ms as u16 };
    ms.saturating_add(40)
}

// ---------------------------------------------------------------------------
// Input, clock and freeze
// ---------------------------------------------------------------------------

/// Whether something is patched into the input, guessed from its movement: the
/// jack has no sense pin.
#[derive(Clone, Copy, Debug, PartialEq, Eq, Structural)]
pub struct Patch {
    pub prev_raw: u16,
    pub idle_ms: u16,
}

impl Patch {
    pub open spec fn wf(self) -> bool {
        self.idle_ms <= IN_IDLE_MS
    }

    /// Nothing has moved for long enough.
    pub open spec fn unpatched(self) -> bool {
        self.idle_ms >= IN_IDLE_MS
    }

    pub open spec fn seen(self, raw: u16, ms: int) -> Patch {
        Patch {
            prev_raw: raw,
            idle_ms: if dist(raw as int, self.prev_raw as int) > IN_DEADBAND { 0 } else {
                min_int(self.idle_ms + ms, IN_IDLE_MS as int) as u16
            },
        }
    }

    /// Start idle, so that an unpatched app comes up on its oscillator.
    pub fn new(raw: u16) -> (r: Self)
        ensures
            r == (Patch { prev_raw: raw, idle_ms: IN_IDLE_MS }),
            r.wf(),
            r.unpatched(),
    {
        Patch { prev_raw: raw, idle_ms: IN_IDLE_MS }
    }

    /// Look at the input after some milliseconds. Returns whether the
    /// oscillator is active.
    pub fn step(&mut self, raw: u16, ms: u16) -> (active: bool)
        requires
            old(self).wf(),
        ensures
            *final(self) == old(self).seen(raw, ms as int),
            final(self).wf(),
            active == final(self).unpatched(),
    {
        if abs_diff(raw, self.prev_raw) > IN_DEADBAND {
            self.idle_ms = 0;
        } else {
            let t: u16 = self.idle_ms.saturating_add(ms);
            self.idle_ms = if t < IN_IDLE_MS { t } else { IN_IDLE_MS };
        }
        self.prev_raw = raw;
        self.idle_ms >= IN_IDLE_MS
    }
}

/// An input that has just moved counts as patched.
pub proof fn movement_counts_as_patched(p: Patch, raw: u16, ms: int)
    requires
        dist(raw as int, p.prev_raw as int) > IN_DEADBAND,
    ensures
        !p.seen(raw, ms).unpatched(),
{
}

/// The polled clock: its counter, how long ago it moved and its measured
/// period.
#[derive(Clone, Copy, Debug, PartialEq, Eq, Structural)]
pub struct TickWatch {
    pub last_tick: u64,
    pub ms_since: u16,
    pub period_ms: u16,
}

impl TickWatch {
    /// A gap is a period only where it is plausible: a clock that was reset or
    /// stopped leaves the period as it was.
    pub open spec fn seen(self, tick: u64, ms: int) -> TickWatch {
        if tick != self.last_tick {
            TickWatch {
                last_tick: tick,
                ms_since: 0,
                period_ms: if ms <= self.ms_since < 500 && tick > self.last_tick {
                    self.ms_since
                } else {
                    self.period_ms
                },
            }
        } else {
            TickWatch { ms_since: min_int(self.ms_since + ms, 65535) as u16, ..self }
        }
    }

    pub fn new(tick: u64) -> (r: Self)
        ensures
            r == (TickWatch { last_tick: tick, ms_since: 0, period_ms: 21 }),
    {
        TickWatch { last_tick: tick, ms_since: 0, period_ms: 21 }
    }

    /// Look at the counter after some milliseconds.
    pub fn step(&mut self, tick: u64, ms: u16)
        ensures
            *final(self) == old(self).seen(tick, ms as int),
    {
        if tick != self.last_tick {
            if ms <= self.ms_since && self.ms_since < 500 && tick > self.last_tick {
                self.period_ms = self.ms_since;
            }
            self.last_tick = tick;
            self.ms_since = 0;
        } else {
            self.ms_since = self.ms_since.saturating_add(ms);
        }
    }
}

/// Ticks in a cycle of the internal oscillator.
pub open spec fn cycle_ticks(div: int, mult: int) -> int {
    if div * mult < 1 { 1 } else { div * mult }
}

/// Ticks into the cycle, and the cycle's length; nothing before the clock has
/// ticked at all.
pub fn clocked_phase(tick: u64, div: u32, mult: u32) -> (r: Option<(u64, u64)>)
    ensures
        r == if tick == u64::MAX {
            None
        } else {
            Some(
                (
                    (tick as int % cycle_ticks(div as int, mult as int)) as u64,
                    cycle_ticks(div as int, mult as int) as u64,
                ),
            )
        },
        r matches Some((phase, cycle)) ==> phase < cycle,
{
    if tick == u64::MAX {
        return None;
    }
    let (d, m): (u64, u64) = (div as u64, mult as u64);
    assert(0 <= d * m <= u64::MAX) by (nonlinear_arith)
        requires
            d <= 0xffff_ffff,
            m <= 0xffff_ffff,
    ;
    let cycle: u64 = if d * m < 1 { 1 } else { d * m };
    Some((tick % cycle, cycle))
}

/// A freeze holds the value at the moment it begins.
#[derive(Clone, Copy, Debug, PartialEq, Eq, Structural)]
pub struct Freeze {
    pub on: bool,
    pub value: u16,
}

impl Freeze {
    pub open spec fn seen(self, held: bool, sample: u16) -> Freeze {
        Freeze { on: held, value: if held && !self.on { sample } else { self.value } }
    }

    pub open spec fn out(self, sample: u16) -> u16 {
        if self.on { self.value } else { sample }
    }

    pub fn new() -> (r: Self)
        ensures
            r == (Freeze { on: false, value: 0 }),
    {
        Freeze { on: false, value: 0 }
    }

    /// Pass a sample on, or the frozen value.
    pub fn step(&mut self, held: bool, sample: u16) -> (r: u16)
        ensures
            *final(self) == old(self).seen(held, sample),
            r == final(self).out(sample),
    {
        if held != self.on {
            self.on = held;
            if held {
                self.value = sample;
            }
        }
        if self.on {
            self.value
        } else {
            sample
        }
    }
}

/// While held, every sample gives the value of the first one.
pub proof fn freeze_holds_its_value(f: Freeze, first: u16, later: u16)
    requires
        !f.on,
    ensures
        f.seen(true, first).out(first) == first,
        f.seen(true, first).seen(true, later).out(later) == first,
        f.seen(true, first).seen(false, later).out(later) == later,
{
}

// ---------------------------------------------------------------------------
// Announced ranges
// ---------------------------------------------------------------------------

/// A range that has been announced by a flash: it is swapped once the flash is
/// over and the button of its channel is up.
#[derive(Clone, Copy, Debug, PartialEq, Eq, Structural)]
pub struct RangeWait {
    pub chan: usize,
    /// Milliseconds until the flash is over.
    pub left_ms: u16,
    /// The button has gone up.
    pub up: bool,
}

impl RangeWait {
    pub open spec fn due(self) -> bool {
        self.left_ms == 0 && self.up
    }

    /// The wait after so many milliseconds.
    pub open spec fn after(self, ms: int) -> RangeWait {
        RangeWait { left_ms: (if self.left_ms > ms { self.left_ms - ms } else { 0 }) as u16, ..self }
    }

    pub fn new(chan: usize, flash_ms: u16) -> (r: Self)
        ensures
            r == (RangeWait { chan, left_ms: flash_ms, up: false }),
    {
        RangeWait { chan, left_ms: flash_ms, up: false }
    }

    /// A button has gone up.
    pub fn on_up(&mut self, chan: usize)
        ensures
            *final(self) == (RangeWait { up: old(self).up || chan == old(self).chan, ..*old(self) }),
    {
        if chan == self.chan {
            self.up = true;
        }
    }

    /// A millisecond has passed. Returns whether the range is to be swapped.
    pub fn on_ms(&mut self) -> (swap: bool)
        ensures
            *final(self) == old(self).after(1),
            swap == final(self).due(),
    {
        if self.left_ms > 0 {
            self.left_ms = self.left_ms - 1;
        }
        self.left_ms == 0 && self.up
    }
}

/// An announced range is swapped when its flash is over and its button is up,
/// whichever comes last, and milliseconds add up.
pub proof fn ranges_wait_for_both(w: RangeWait, a: int, b: int)
    requires
        a >= 0,
        b >= 0,
    ensures
        w.after(a).after(b) == w.after(a + b),
        w.after(a).due() <==> w.up && a >= w.left_ms,
{
}

} // verus!
