//! Acid pattern generator: pitches, gates, slides and accents from a seed.
//!
//! The density sets how many pitches there are and how many steps play; the
//! faders set the length, transposition and resolution. A button draws a new
//! seed from the clock.

use crate::apps::rng::{xorshift, xorshift32};
use crate::bounded::{param_values, values_of};
use crate::panel::{
    clamp_full, clamp_int, dist, max_int, min_int, one, push_all, reads, reads_all, Act, Brightness,
    Color, LatchLayer, Led, MidiOut, ParamSlot, Value, VoltPerOct,
};
use vstd::prelude::*;

verus! {

pub const CHANNELS: usize = 3;
pub const PARAMS: usize = 4;

pub const MAX_STEPS: usize = 32;
/// Pitch of the lowest degree.
pub const CENTER_CV: u16 = 2048;
/// Step lengths in clock ticks, slow to fast.
pub const RESOLUTION: [usize; 8] = [96, 48, 24, 12, 6, 4, 3, 2];

// ---------------------------------------------------------------------------
// Parameters and settings
// ---------------------------------------------------------------------------

#[derive(Clone, Copy, Debug, PartialEq, Eq, Structural)]
pub struct Params {
    pub midi_channel: u8,
    pub midi_out: MidiOut,
    pub color: Color,
    pub vpo: VoltPerOct,
}

impl Params {
    pub open spec fn values(self) -> Seq<Value> {
        seq![
            Value::MidiChannel(self.midi_channel),
            Value::MidiOut(self.midi_out),
            Value::Color(self.color),
            Value::VoltPerOct(self.vpo),
        ]
    }

    pub open spec fn from_slots(s: Seq<ParamSlot>) -> Option<Params> {
        if s.len() < 4 {
            None
        } else {
            Some(
                Params {
                    midi_channel: s[0].as_channel,
                    midi_out: s[1].as_midi_out,
                    color: s[2].as_color,
                    vpo: s[3].as_vpo,
                },
            )
        }
    }

    pub fn from_values(values: &[ParamSlot]) -> (r: Option<Params>)
        ensures
            r == Params::from_slots(values@),
    {
        if values.len() < 4 {
            return None;
        }
        Some(
            Params {
                midi_channel: values[0].as_channel,
                midi_out: values[1].as_midi_out,
                color: values[2].as_color,
                vpo: values[3].as_vpo,
            },
        )
    }

    pub fn to_values(&self) -> (v: heapless::Vec<Value, 16>)
        ensures
            param_values(v) == self.values(),
    {
        let items: [Value; 4] = [
            Value::MidiChannel(self.midi_channel),
            Value::MidiOut(self.midi_out),
            Value::Color(self.color),
            Value::VoltPerOct(self.vpo),
        ];
        assert(items@ =~= self.values());
        values_of(&items)
    }

    /// The parameters of a new app on the device's default channel and outputs.
    pub fn with_defaults(channel: u8, out: MidiOut) -> (r: Self)
        ensures
            r == (Params {
                midi_channel: channel,
                midi_out: out,
                color: Color::Orange,
                vpo: VoltPerOct::Standard,
            }),
    {
        Params {
            midi_channel: channel,
            midi_out: out,
            color: Color::Orange,
            vpo: VoltPerOct::Standard,
        }
    }
}

/// Stored parameters read back as they were.
pub proof fn params_round_trip(p: Params, slots: Seq<ParamSlot>)
    requires
        reads_all(slots, p.values()),
    ensures
        Params::from_slots(slots) == Some(p),
{
    assert forall|i: int| 0 <= i < 4 implies reads(#[trigger] slots[i], p.values()[i]) by {}
    let (s0, s1, s2, s3) = (slots[0], slots[1], slots[2], slots[3]);
}

#[derive(Clone, Copy, Debug, PartialEq, Eq, Structural)]
pub struct Storage {
    pub seed: u16,
    /// Density 0 to 14.
    pub density_fader: u16,
    /// 1 to 32 steps.
    pub length_fader: u16,
    /// Two octaves either way, in semitones.
    pub transpose_fader: u16,
    /// Four octaves either way.
    pub octave_fader: u16,
    /// One of eight resolutions.
    pub res_saved: u16,
    pub muted: bool,
    pub no_accents: bool,
}

impl Default for Storage {
    /// Density seven, sixteen steps, no transposition, sixteenth notes.
    fn default() -> (r: Self)
        ensures
            r == (Storage {
                seed: 0xABCD,
                density_fader: 2048,
                length_fader: 1920,
                transpose_fader: 2048,
                octave_fader: 2048,
                res_saved: 2048,
                muted: false,
                no_accents: false,
            }),
    {
        Storage {
            seed: 0xABCD,
            density_fader: 2048,
            length_fader: 1920,
            transpose_fader: 2048,
            octave_fader: 2048,
            res_saved: 2048,
            muted: false,
            no_accents: false,
        }
    }
}

// ---------------------------------------------------------------------------
// Patterns
// ---------------------------------------------------------------------------

/// A pattern of thirty-two steps. A note is a pitch above the lowest one.
#[derive(Clone, Copy, Debug, PartialEq, Eq)]
pub struct AcidPattern {
    pub gates: [bool; 32],
    pub slides: [bool; 32],
    pub accents: [bool; 32],
    pub oct_ups: [bool; 32],
    pub oct_downs: [bool; 32],
    pub notes: [u8; 32],
}

impl Default for AcidPattern {
    fn default() -> (r: Self)
        ensures
            forall|k: int| 0 <= k < 32 ==> !(#[trigger] r.gates@[k]),
            forall|k: int| 0 <= k < 32 ==> !(#[trigger] r.slides@[k]),
            forall|k: int| 0 <= k < 32 ==> !(#[trigger] r.accents@[k]),
            forall|k: int| 0 <= k < 32 ==> !(#[trigger] r.oct_ups@[k]),
            forall|k: int| 0 <= k < 32 ==> !(#[trigger] r.oct_downs@[k]),
            forall|k: int| 0 <= k < 32 ==> #[trigger] r.notes@[k] == 0,
    {
        AcidPattern {
            gates: [false; 32],
            slides: [false; 32],
            accents: [false; 32],
            oct_ups: [false; 32],
            oct_downs: [false; 32],
            notes: [0; 32],
        }
    }
}

/// A number below `max`; nothing is drawn where `max` is zero.
pub fn rand_below(state: &mut u32, max: u32) -> (r: u32)
    ensures
        max == 0 ==> r == 0 && *final(state) == *old(state),
        max > 0 ==> *final(state) == xorshift(*old(state)) && r == *final(state) as int
            % max as int && r < max,
{
    if max == 0 {
        return 0;
    }
    xorshift32(state) % max
}

/// True with a probability in percent.
pub fn rand_bit(state: &mut u32, prob_pct: u32) -> (r: bool)
    ensures
        *final(state) == xorshift(*old(state)),
        r == ((*final(state) as int % 100) < prob_pct),
{
    rand_below(state, 100) < prob_pct
}

/// Highest pitch of a density.
pub open spec fn top_pitch(density: int) -> int {
    let d = min_int(density, 8);
    if d <= 1 { d } else { d - 1 }
}

/// Chance in percent that a step repeats the pitch before it.
pub open spec fn repeat_chance(density: int) -> int {
    max_int(50 - min_int(density, 8) * 6, 0)
}

/// Chance in percent that a step plays: lowest at the middle of the density,
/// certain at both ends.
pub open spec fn gate_chance(density: int) -> int {
    10 + dist(density, 7) * 14
}

/// Pitches of the first steps, and the octave draws made for them: a step that
/// repeats the pitch before it draws no octave.
pub struct Melody {
    pub rng: u32,
    pub notes: Seq<u8>,
    pub ups: Seq<bool>,
    pub downs: Seq<bool>,
}

pub open spec fn melody(seed: u16, density: int, n: int) -> Melody
    decreases n,
{
    if n <= 0 {
        Melody {
            rng: (seed + 1) as u32,
            notes: Seq::empty(),
            ups: Seq::empty(),
            downs: Seq::empty(),
        }
    } else {
        let m = melody(seed, density, n - 1);
        let r1 = if n > 1 { xorshift(m.rng) } else { m.rng };
        if n > 1 && (r1 as int % 100) < repeat_chance(density) {
            Melody { rng: r1, notes: m.notes.push(m.notes.last()), ..m }
        } else {
            let r2 = xorshift(r1);
            let r3 = xorshift(r2);
            let flip = r3 as int % 200;
            Melody {
                rng: r3,
                notes: m.notes.push((r2 as int % (top_pitch(density) + 1)) as u8),
                ups: m.ups.push(flip < 80 && flip % 2 == 1),
                downs: m.downs.push(flip < 80 && flip % 2 == 0),
            }
        }
    }
}

/// Gates, slides and accents, in the order in which they are drawn. A slide or
/// an accent makes the next one less likely.
pub struct Rhythm {
    pub rng: u32,
    pub gates: Seq<bool>,
    pub slides: Seq<bool>,
    pub accents: Seq<bool>,
}

pub open spec fn last_of(s: Seq<bool>) -> bool {
    s.len() > 0 && s.last()
}

pub open spec fn rhythm(seed: u16, density: int, n: int) -> Rhythm
    decreases n,
{
    if n <= 0 {
        Rhythm {
            rng: (seed + 2) as u32,
            gates: Seq::empty(),
            slides: Seq::empty(),
            accents: Seq::empty(),
        }
    } else {
        let m = rhythm(seed, density, n - 1);
        let r1 = xorshift(m.rng);
        let r2 = xorshift(r1);
        let r3 = xorshift(r2);
        Rhythm {
            rng: r3,
            gates: m.gates.push((r1 as int % 100) < gate_chance(density)),
            slides: m.slides.push((r2 as int % 100) < if last_of(m.slides) { 10int } else { 18 }),
            accents: m.accents.push((r3 as int % 100) < if last_of(m.accents) { 7int } else { 16 }),
        }
    }
}

/// The bits of a list of draws, the last draw at the first step.
pub open spec fn is_reverse(bits: Seq<bool>, draws: Seq<bool>) -> bool {
    forall|k: int|
        0 <= k < 32 ==> #[trigger] bits[k] == (k < draws.len() && draws[draws.len() - 1 - k])
}

/// The pattern of a seed and a density (0 to 14).
pub open spec fn is_pattern(p: AcidPattern, seed: u16, density: int) -> bool {
    let m = melody(seed, density, 32);
    let r = rhythm(seed, density, 32);
    &&& p.notes@ == m.notes
    &&& is_reverse(p.oct_ups@, m.ups)
    &&& is_reverse(p.oct_downs@, m.downs)
    &&& is_reverse(p.gates@, r.gates)
    &&& is_reverse(p.slides@, r.slides)
    &&& is_reverse(p.accents@, r.accents)
}

proof fn melody_lengths(seed: u16, density: int, n: int)
    requires
        0 <= n,
    ensures
        melody(seed, density, n).notes.len() == n,
        melody(seed, density, n).ups.len() == melody(seed, density, n).downs.len() <= n,
        n > 0 ==> melody(seed, density, n).ups.len() > 0,
    decreases n,
{
    if n > 0 {
        melody_lengths(seed, density, n - 1);
    }
}

proof fn rhythm_lengths(seed: u16, density: int, n: int)
    requires
        0 <= n,
    ensures
        rhythm(seed, density, n).gates.len() == n,
        rhythm(seed, density, n).slides.len() == n,
        rhythm(seed, density, n).accents.len() == n,
    decreases n,
{
    if n > 0 {
        rhythm_lengths(seed, density, n - 1);
    }
}

/// Bits with one more draw shifted in.
fn shift_in(bits: &mut [bool; 32], draw: bool)
    ensures
        final(bits)[0] == draw,
        forall|k: int| 0 < k < 32 ==> #[trigger] final(bits)[k] == old(bits)[k - 1],
{
    let ghost b0 = *bits;
    let mut k: usize = 31;
    while k > 0
        invariant
            k <= 31,
            forall|j: int|
                0 <= j < 32 ==> #[trigger] bits[j] == if j > k { b0[j - 1] } else { b0[j] },
        decreases k,
    {
        bits[k] = bits[k - 1];
        k = k - 1;
    }
    bits[0] = draw;
}

/// One more draw in front of the bits.
proof fn shifted(before: Seq<bool>, after: Seq<bool>, draws: Seq<bool>, draw: bool)
    requires
        before.len() == 32,
        after.len() == 32,
        is_reverse(before, draws),
        after[0] == draw,
        forall|k: int| 0 < k < 32 ==> #[trigger] after[k] == before[k - 1],
    ensures
        is_reverse(after, draws.push(draw)),
{
    let d = draws.push(draw);
    assert forall|k: int| 0 <= k < 32 implies #[trigger] after[k] == (k < d.len() && d[d.len() - 1
        - k]) by {
        if k > 0 {
            assert(before[k - 1] == (k - 1 < draws.len() && draws[draws.len() - 1 - (k - 1)]));
        }
    }
}

fn draw_melody(seed: u16, density: u8, p: &mut AcidPattern)
    requires
        density <= 14,
        is_reverse(old(p).oct_ups@, Seq::empty()),
        is_reverse(old(p).oct_downs@, Seq::empty()),
    ensures
        final(p).gates == old(p).gates,
        final(p).slides == old(p).slides,
        final(p).accents == old(p).accents,
        final(p).notes@ == melody(seed, density as int, 32).notes,
        is_reverse(final(p).oct_ups@, melody(seed, density as int, 32).ups),
        is_reverse(final(p).oct_downs@, melody(seed, density as int, 32).downs),
{
    let ghost p0 = *p;
    let d: u32 = if density < 8 { density as u32 } else { 8 };
    let top: u32 = if d <= 1 { d } else { d - 1 };
    let repeat: u32 = if d * 6 >= 50 { 0 } else { 50 - d * 6 };
    let mut rng: u32 = seed as u32 + 1;
    let mut s: usize = 0;
    while s < 32
        invariant
            s <= 32,
            top == top_pitch(density as int),
            repeat == repeat_chance(density as int),
            rng == melody(seed, density as int, s as int).rng,
            p.gates == p0.gates,
            p.slides == p0.slides,
            p.accents == p0.accents,
            melody(seed, density as int, s as int).notes.len() == s,
            forall|k: int|
                0 <= k < s ==> #[trigger] p.notes[k] == melody(
                    seed,
                    density as int,
                    s as int,
                ).notes[k],
            is_reverse(p.oct_ups@, melody(seed, density as int, s as int).ups),
            is_reverse(p.oct_downs@, melody(seed, density as int, s as int).downs),
        decreases 32 - s,
    {
        let ghost m = melody(seed, density as int, s as int);
        let ghost n = melody(seed, density as int, s + 1);
        if s > 0 && rand_bit(&mut rng, repeat) {
            p.notes[s] = p.notes[s - 1];
            assert(n.notes == m.notes.push(m.notes.last()));
        } else {
            let note: u32 = rand_below(&mut rng, top + 1);
            p.notes[s] = note as u8;
            let flip: u32 = rand_below(&mut rng, 200);
            let (up, down) = (flip < 80 && flip % 2 == 1, flip < 80 && flip % 2 == 0);
            let ghost (u0, d0) = (p.oct_ups@, p.oct_downs@);
            shift_in(&mut p.oct_ups, up);
            shift_in(&mut p.oct_downs, down);
            proof {
                assert(n.ups == m.ups.push(up) && n.downs == m.downs.push(down));
                assert forall|k: int| 0 < k < 32 implies #[trigger] p.oct_ups@[k] == u0[k - 1] by {
                    assert(p.oct_ups[k] == p.oct_ups@[k]);
                }
                assert forall|k: int| 0 < k < 32 implies #[trigger] p.oct_downs@[k] == d0[k - 1] by {
                    assert(p.oct_downs[k] == p.oct_downs@[k]);
                }
                shifted(u0, p.oct_ups@, m.ups, up);
                shifted(d0, p.oct_downs@, m.downs, down);
            }
        }
        s = s + 1;
    }
    assert(p.notes@ =~= melody(seed, density as int, 32).notes) by {
        assert forall|k: int| 0 <= k < 32 implies p.notes@[k] == melody(
            seed,
            density as int,
            32,
        ).notes[k] by {
            assert(p.notes[k] == melody(seed, density as int, 32).notes[k]);
        }
    }
}

fn draw_rhythm(seed: u16, density: u8, p: &mut AcidPattern)
    requires
        density <= 14,
        is_reverse(old(p).gates@, Seq::empty()),
        is_reverse(old(p).slides@, Seq::empty()),
        is_reverse(old(p).accents@, Seq::empty()),
    ensures
        final(p).notes == old(p).notes,
        final(p).oct_ups == old(p).oct_ups,
        final(p).oct_downs == old(p).oct_downs,
        is_reverse(final(p).gates@, rhythm(seed, density as int, 32).gates),
        is_reverse(final(p).slides@, rhythm(seed, density as int, 32).slides),
        is_reverse(final(p).accents@, rhythm(seed, density as int, 32).accents),
{
    let ghost p0 = *p;
    let off: u32 = if density >= 7 { density as u32 - 7 } else { 7 - density as u32 };
    let chance: u32 = 10 + off * 14;
    let mut rng: u32 = seed as u32 + 2;
    let mut latest_slide = false;
    let mut latest_accent = false;
    let mut s: usize = 0;
    while s < 32
        invariant
            s <= 32,
            chance == gate_chance(density as int),
            rng == rhythm(seed, density as int, s as int).rng,
            p.notes == p0.notes,
            p.oct_ups == p0.oct_ups,
            p.oct_downs == p0.oct_downs,
            latest_slide == last_of(rhythm(seed, density as int, s as int).slides),
            latest_accent == last_of(rhythm(seed, density as int, s as int).accents),
            is_reverse(p.gates@, rhythm(seed, density as int, s as int).gates),
            is_reverse(p.slides@, rhythm(seed, density as int, s as int).slides),
            is_reverse(p.accents@, rhythm(seed, density as int, s as int).accents),
        decreases 32 - s,
    {
        let ghost m = rhythm(seed, density as int, s as int);
        let ghost n = rhythm(seed, density as int, s + 1);
        let ghost (g0, s0, a0) = (p.gates@, p.slides@, p.accents@);
        let gate = rand_bit(&mut rng, chance);
        shift_in(&mut p.gates, gate);
        let slide = rand_bit(
            &mut rng,
            if latest_slide {
                10
            } else {
                18
            },
        );
        shift_in(&mut p.slides, slide);
        latest_slide = slide;
        let accent = rand_bit(
            &mut rng,
            if latest_accent {
                7
            } else {
                16
            },
        );
        shift_in(&mut p.accents, accent);
        latest_accent = accent;
        proof {
            assert(n.gates == m.gates.push(gate));
            assert(n.slides == m.slides.push(slide));
            assert(n.accents == m.accents.push(accent));
            assert forall|k: int| 0 < k < 32 implies #[trigger] p.gates@[k] == g0[k - 1] by {
                assert(p.gates[k] == p.gates@[k]);
            }
            assert forall|k: int| 0 < k < 32 implies #[trigger] p.slides@[k] == s0[k - 1] by {
                assert(p.slides[k] == p.slides@[k]);
            }
            assert forall|k: int| 0 < k < 32 implies #[trigger] p.accents@[k] == a0[k - 1] by {
                assert(p.accents[k] == p.accents@[k]);
            }
            shifted(g0, p.gates@, m.gates, gate);
            shifted(s0, p.slides@, m.slides, slide);
            shifted(a0, p.accents@, m.accents, accent);
        }
        s = s + 1;
    }
}

/// The pattern of a seed and a density; densities above 14 count as 14.
pub fn generate_pattern(seed: u16, density: u8) -> (p: AcidPattern)
    ensures
        is_pattern(p, seed, min_int(density as int, 14)),
{
    let density: u8 = if density < 14 { density } else { 14 };
    let mut p = AcidPattern::default();
    draw_melody(seed, density, &mut p);
    draw_rhythm(seed, density, &mut p);
    p
}

pub fn step_is_gated(p: &AcidPattern, step: u8) -> (r: bool)
    requires
        step < 32,
    ensures
        r == p.gates[step as int],
{
    p.gates[step as usize]
}

pub fn step_is_slid(p: &AcidPattern, step: u8) -> (r: bool)
    requires
        step < 32,
    ensures
        r == p.slides[step as int],
{
    p.slides[step as usize]
}

pub fn step_is_accent(p: &AcidPattern, step: u8) -> (r: bool)
    requires
        step < 32,
    ensures
        r == p.accents[step as int],
{
    p.accents[step as usize]
}

pub fn step_is_oct_up(p: &AcidPattern, step: u8) -> (r: bool)
    requires
        step < 32,
    ensures
        r == p.oct_ups[step as int],
{
    p.oct_ups[step as usize]
}

pub fn step_is_oct_down(p: &AcidPattern, step: u8) -> (r: bool)
    requires
        step < 32,
    ensures
        r == p.oct_downs[step as int],
{
    p.oct_downs[step as usize]
}

proof fn melody_shape(seed: u16, density: int, n: int, k: int)
    requires
        0 <= density <= 14,
        0 <= n,
    ensures
        0 <= k < n ==> melody(seed, density, n).notes[k] <= top_pitch(density),
        0 <= k < melody(seed, density, n).ups.len() ==> !(melody(seed, density, n).ups[k]
            && melody(seed, density, n).downs[k]),
    decreases n,
{
    if n > 0 {
        melody_shape(seed, density, n - 1, k);
        if n > 1 {
            melody_shape(seed, density, n - 1, n - 2);
        }
        melody_lengths(seed, density, n - 1);
        melody_lengths(seed, density, n);
    }
}

/// A pattern's notes stay within the pitches of its density, at most seven
/// above the lowest, and no step is moved up and down at once.
pub proof fn patterns_stay_in_range(p: AcidPattern, seed: u16, density: int, k: int)
    requires
        0 <= density <= 14,
        is_pattern(p, seed, density),
        0 <= k < 32,
    ensures
        p.notes[k] <= top_pitch(density) <= 7,
        !(p.oct_ups[k] && p.oct_downs[k]),
{
    let m = melody(seed, density, 32);
    melody_lengths(seed, density, 32);
    melody_shape(seed, density, 32, k);
    melody_shape(seed, density, 32, m.ups.len() - 1 - k);
    assert(p.notes@[k] == m.notes[k]);
    assert(p.oct_ups@[k] == (k < m.ups.len() && m.ups[m.ups.len() - 1 - k]));
    assert(p.oct_downs@[k] == (k < m.downs.len() && m.downs[m.downs.len() - 1 - k]));
}

proof fn rhythm_is_full(seed: u16, density: int, n: int, k: int)
    requires
        density == 0 || density == 14,
        0 <= k < n,
    ensures
        rhythm(seed, density, n).gates[k],
    decreases n,
{
    rhythm_lengths(seed, density, n - 1);
    if k < n - 1 {
        rhythm_is_full(seed, density, n - 1, k);
    }
}

/// At both ends of the density every step plays.
pub proof fn extreme_densities_play_every_step(p: AcidPattern, seed: u16, density: int, k: int)
    requires
        density == 0 || density == 14,
        is_pattern(p, seed, density),
        0 <= k < 32,
    ensures
        p.gates[k],
{
    rhythm_lengths(seed, density, 32);
    rhythm_is_full(seed, density, 32, 31 - k);
    assert(p.gates@[k] == rhythm(seed, density, 32).gates[32 - 1 - k]);
}

/// Densities that lie equally far from the middle have the same rhythm.
pub proof fn rhythms_mirror_at_the_middle(seed: u16, density: int, n: int)
    requires
        0 <= density <= 14,
    ensures
        rhythm(seed, density, n) == rhythm(seed, 14 - density, n),
    decreases n,
{
    if n > 0 {
        rhythms_mirror_at_the_middle(seed, density, n - 1);
    }
}

/// The same seed and density give the same pattern.
pub proof fn patterns_are_reproducible(p: AcidPattern, q: AcidPattern, seed: u16, density: int)
    requires
        is_pattern(p, seed, density),
        is_pattern(q, seed, density),
    ensures
        p == q,
{
    assert(p.notes =~= q.notes);
    assert(p.oct_ups@ =~= q.oct_ups@);
    assert(p.oct_downs@ =~= q.oct_downs@);
    assert(p.gates@ =~= q.gates@);
    assert(p.slides@ =~= q.slides@);
    assert(p.accents@ =~= q.accents@);
    assert(p.oct_ups =~= q.oct_ups);
    assert(p.oct_downs =~= q.oct_downs);
    assert(p.gates =~= q.gates);
    assert(p.slides =~= q.slides);
    assert(p.accents =~= q.accents);
}

// ---------------------------------------------------------------------------
// Scales
// ---------------------------------------------------------------------------

pub open spec fn density_of(fader: int) -> int {
    fader * 14 / 4095
}

pub fn density_from_fader(fader: u16) -> (r: u8)
    ensures
        r == density_of(fader as int),
        fader <= 4095 ==> r <= 14,
{
    (fader as u32 * 14 / 4095) as u8
}

pub open spec fn steps_of(curved: int) -> int {
    curved * 31 / 4095 + 1
}

/// Steps of a length fader that has gone through the caller's dead zone.
pub fn length_fader_to_num_steps(curved: u16) -> (r: u8)
    requires
        curved <= 4095,
    ensures
        r == steps_of(curved as int),
        1 <= r <= 32,
{
    (curved as u32 * 31 / 4095 + 1) as u8
}

pub open spec fn transposition(transpose: int, octave: int) -> int {
    transpose * 48 / 4095 - 24 + (octave * 8 / 4095 - 4) * 12
}

/// Semitones of the transpose and octave faders, which have gone through the
/// caller's dead zone.
pub fn transpose_semitones(transpose: u16, octave: u16) -> (r: i16)
    ensures
        r == transposition(transpose as int, octave as int),
        transpose <= 4095 && octave <= 4095 ==> -72 <= r <= 72,
{
    let semi: i32 = (transpose as u32 * 48 / 4095) as i32 - 24;
    let oct: i32 = (octave as u32 * 8 / 4095) as i32 - 4;
    (semi + oct * 12) as i16
}

/// Input of the quantizer for a step, with `oct` counts to the octave.
pub open spec fn raw_pitch(p: AcidPattern, step: int, transpose: int, oct: int) -> int {
    let semi = oct / 12;
    clamp_int(
        2048 + p.notes[step] * semi + (if p.oct_ups[step] {
            oct
        } else if p.oct_downs[step] {
            -oct
        } else {
            0
        }) + transpose * semi,
        0,
        4095,
    )
}

pub fn raw_pitch_cv(p: &AcidPattern, step: u8, transpose: i16, oct: u16) -> (r: u16)
    requires
        step < 32,
    ensures
        r == raw_pitch(*p, step as int, transpose as int, oct as int),
{
    let o: i32 = oct as i32;
    let semi: i32 = (oct / 12) as i32;
    let note: i32 = p.notes[step as usize] as i32;
    let t: i32 = transpose as i32;
    assert(0 <= note * semi <= 2_000_000 && -200_000_000 <= t * semi <= 200_000_000)
        by (nonlinear_arith)
        requires
            0 <= note <= 255,
            0 <= semi <= 5461,
            -32768 <= t <= 32767,
    ;
    let shift: i32 = if step_is_oct_up(p, step) {
        o
    } else if step_is_oct_down(p, step) {
        -o
    } else {
        0
    };
    clamp_full(2048 + note * semi + shift + t * semi)
}

pub open spec fn res_of(fader: int) -> int {
    RESOLUTION[fader / 512] as int
}

pub fn step_ticks(fader: u16) -> (r: usize)
    requires
        fader <= 4095,
    ensures
        r == res_of(fader as int),
        2 <= r <= 96,
{
    RESOLUTION[(fader / 512) as usize]
}

// ---------------------------------------------------------------------------
// The running app
// ---------------------------------------------------------------------------

/// Faders that have gone through the caller's dead zone.
#[derive(Clone, Copy, Debug, PartialEq, Eq, Structural)]
pub struct Curved {
    pub length: u16,
    pub transpose: u16,
    pub octave: u16,
}

/// What the quantizer makes of a step.
#[derive(Clone, Copy, Debug, PartialEq, Eq, Structural)]
pub struct Pitch {
    pub note: u8,
    pub counts: u16,
}

/// State of the app between events.
pub struct Tb3po {
    pub color: Color,
    pub store: Storage,
    pub pattern: AcidPattern,
    pub step: u8,
    /// Counts that the pitch goes to, and whether it slides there.
    pub slide_target: u16,
    pub slide_active: bool,
    /// Ticks until its gate closes.
    pub gate_off_ticks: usize,
    pub gate_active: bool,
    pub accent_active: bool,
    pub last_note: u8,
    /// The density has changed since the pattern was made.
    pub regen: bool,
    pub ticks: u64,
    pub div: usize,
    /// Whether the first fader sets the resolution.
    pub layer: LatchLayer,
}

impl Curved {
    pub open spec fn valid(self) -> bool {
        self.length <= 4095 && self.transpose <= 4095 && self.octave <= 4095
    }

    pub open spec fn steps(self) -> int {
        steps_of(self.length as int)
    }

    pub open spec fn semis(self) -> int {
        transposition(self.transpose as int, self.octave as int)
    }
}

impl Tb3po {
    pub open spec fn wf(self) -> bool {
        &&& self.store.density_fader <= 4095
        &&& self.store.res_saved <= 4095
        &&& self.step < 32
        &&& 2 <= self.div <= 96
    }

    /// Start with the stored seed. `note` is the note that counts as played
    /// before anything has been.
    pub fn new(params: Params, store: Storage, note: u8) -> (r: (Self, Act))
        requires
            store.density_fader <= 4095,
            store.res_saved <= 4095,
        ensures
            r.0.wf(),
            is_pattern(r.0.pattern, store.seed, density_of(store.density_fader as int)),
            r.0 == (Tb3po {
                color: params.color,
                store,
                pattern: r.0.pattern,
                step: 0,
                slide_target: CENTER_CV,
                slide_active: false,
                gate_off_ticks: 0,
                gate_active: false,
                accent_active: false,
                last_note: note,
                regen: false,
                ticks: 0,
                div: res_of(store.res_saved as int) as usize,
                layer: LatchLayer::Main,
            }),
            r.1 == (Act::Light {
                chan: 0,
                led: Led::Button,
                color: params.color,
                bright: Brightness::Mid,
            }),
    {
        let s = Tb3po {
            color: params.color,
            store,
            pattern: generate_pattern(store.seed, density_from_fader(store.density_fader)),
            step: 0,
            slide_target: CENTER_CV,
            slide_active: false,
            gate_off_ticks: 0,
            gate_active: false,
            accent_active: false,
            last_note: note,
            regen: false,
            ticks: 0,
            div: step_ticks(store.res_saved),
            layer: LatchLayer::Main,
        };
        (s, Act::Light { chan: 0, led: Led::Button, color: params.color, bright: Brightness::Mid })
    }

    /// Acts that end the note.
    pub open spec fn end_acts(self) -> Seq<Act> {
        seq![
            Act::GateLow { jack: 1 },
            Act::NoteOff { out: 0, note: self.last_note },
            Act::Cv { jack: 2, val: 0 },
        ]
    }

    fn end_note(&mut self) -> (acts: Vec<Act>)
        ensures
            *final(self) == (Tb3po { gate_active: false, ..*old(self) }),
            acts@ == old(self).end_acts(),
    {
        self.gate_active = false;
        let mut acts: Vec<Act> = Vec::new();
        acts.push(Act::GateLow { jack: 1 });
        acts.push(Act::NoteOff { out: 0, note: self.last_note });
        acts.push(Act::Cv { jack: 2, val: 0 });
        assert(acts@ =~= old(self).end_acts());
        acts
    }

    /// An open gate closes at this tick: its time is over, and the step does not
    /// slide into the next.
    pub open spec fn closes(self) -> bool {
        self.gate_off_ticks == 1 && !self.pattern.slides[self.step as int]
    }

    /// State and acts of a gate's countdown.
    pub open spec fn counted(self) -> (Tb3po, Seq<Act>) {
        (
            Tb3po {
                gate_off_ticks: max_int(self.gate_off_ticks - 1, 0) as usize,
                gate_active: self.gate_active && !self.closes(),
                ..self
            },
            if self.closes() { self.end_acts() } else { Seq::empty() },
        )
    }

    /// The resolution shown by a flash at each step: orange for triplets.
    pub open spec fn res_lights(self, tick: int) -> Seq<Act> {
        let phase = tick % self.div as int;
        if self.layer != LatchLayer::Third {
            Seq::empty()
        } else if phase == 0 {
            seq![
                Act::Light {
                    chan: 0,
                    led: Led::Bottom,
                    color: if self.div == 2 || self.div == 4 || self.div == 8 || self.div == 16 {
                        Color::Orange
                    } else {
                        Color::Blue
                    },
                    bright: Brightness::High,
                },
            ]
        } else if phase == max_int(self.div as int / 2, 1) {
            seq![Act::Dark { chan: 0, led: Led::Bottom }]
        } else {
            Seq::empty()
        }
    }

    /// Step of a tick: locked to the clock's counter.
    pub open spec fn step_of(self, tick: int, c: Curved) -> int {
        tick / self.div as int % c.steps()
    }

    /// The step before slides into this one. The first tick after a reset has
    /// no step before it.
    pub open spec fn slid_into(self, tick: int, c: Curved) -> bool {
        let prev = (self.step_of(tick, c) + c.steps() - 1) % c.steps();
        tick != 0 && self.pattern.slides[prev]
    }

    pub open spec fn accented(self, step: int) -> bool {
        !self.store.no_accents && self.pattern.accents[step]
    }

    /// Acts that play a step.
    pub open spec fn play_acts(self, step: int, pitch: Pitch) -> Seq<Act> {
        let top = self.accented(step);
        seq![
            Act::NoteOff { out: 0, note: self.last_note },
            Act::NoteOn { out: 0, note: pitch.note, vel: if top { 4095 } else { 2048 } },
            Act::GateHigh { jack: 1 },
            Act::Cv { jack: 2, val: if top { 4095 } else { 0 } },
        ]
    }

    /// State, but for a new pattern, and acts of a step. A muted step sounds
    /// no note, but ends one that a slide has left open.
    pub open spec fn stepped(self, tick: int, c: Curved, pitch: Pitch) -> (Tb3po, Seq<Act>) {
        let step = self.step_of(tick, c);
        let gated = self.pattern.gates[step];
        let slid = self.slid_into(tick, c);
        let s = Tb3po {
            step: step as u8,
            slide_target: if gated || slid { pitch.counts } else { self.slide_target },
            slide_active: if slid { true } else if gated { false } else { self.slide_active },
            ..self
        };
        if !gated && !slid {
            (s, Seq::empty())
        } else if s.store.muted {
            (
                Tb3po { gate_active: false, ..s },
                if s.gate_active { s.end_acts() } else { Seq::empty() },
            )
        } else {
            (
                Tb3po {
                    accent_active: s.accented(step),
                    last_note: pitch.note,
                    gate_active: true,
                    gate_off_ticks: max_int(s.div as int / 2, 1) as usize,
                    ..s
                },
                s.play_acts(step, pitch),
            )
        }
    }

    /// Step of a tick and its input of the quantizer, where the tick plays one.
    pub fn pitch_at(&self, tick: u64, c: Curved, oct: u16) -> (r: Option<u16>)
        requires
            self.wf(),
            c.valid(),
            tick <= u32::MAX,
        ensures
            r == if tick as int % self.div as int == 0 {
                Some(
                    raw_pitch(
                        self.pattern,
                        self.step_of(tick as int, c),
                        c.semis(),
                        oct as int,
                    ) as u16,
                )
            } else {
                None
            },
    {
        let clkn: usize = tick as usize;
        if clkn % self.div != 0 {
            return None;
        }
        let n: u8 = length_fader_to_num_steps(c.length);
        let step: u8 = (clkn / self.div % n as usize) as u8;
        let semis: i16 = transpose_semitones(c.transpose, c.octave);
        Some(raw_pitch_cv(&self.pattern, step, semis, oct))
    }

    fn countdown(&mut self) -> (acts: Vec<Act>)
        requires
            old(self).wf(),
        ensures
            final(self).wf(),
            *final(self) == old(self).counted().0,
            acts@ == old(self).counted().1,
    {
        if self.gate_off_ticks > 0 {
            self.gate_off_ticks = self.gate_off_ticks - 1;
            if self.gate_off_ticks == 0 && !step_is_slid(&self.pattern, self.step) {
                return self.end_note();
            }
        }
        Vec::new()
    }

    fn play_step(&mut self, tick: u64, c: Curved, pitch: Pitch) -> (acts: Vec<Act>)
        requires
            old(self).wf(),
            c.valid(),
            tick <= u32::MAX,
        ensures
            final(self).wf(),
            *final(self) == old(self).stepped(tick as int, c, pitch).0,
            acts@ == old(self).stepped(tick as int, c, pitch).1,
    {
        let ghost s0 = *self;
        let clkn: usize = tick as usize;
        let n: usize = length_fader_to_num_steps(c.length) as usize;
        let step: u8 = (clkn / self.div % n) as u8;
        let prev: usize = (step as usize + n - 1) % n;
        self.step = step;
        let gated = step_is_gated(&self.pattern, step);
        let slid = clkn != 0 && step_is_slid(&self.pattern, prev as u8);
        let accent = !self.store.no_accents && step_is_accent(&self.pattern, step);
        if slid {
            self.slide_target = pitch.counts;
            self.slide_active = true;
        } else if gated {
            self.slide_target = pitch.counts;
            self.slide_active = false;
        }
        if !gated && !slid {
            return Vec::new();
        }
        if self.store.muted {
            if self.gate_active {
                return self.end_note();
            }
            return Vec::new();
        }
        self.accent_active = accent;
        let mut acts: Vec<Act> = Vec::new();
        acts.push(Act::NoteOff { out: 0, note: self.last_note });
        acts.push(Act::NoteOn { out: 0, note: pitch.note, vel: if accent { 4095 } else { 2048 } });
        self.last_note = pitch.note;
        acts.push(Act::GateHigh { jack: 1 });
        self.gate_active = true;
        acts.push(Act::Cv { jack: 2, val: if accent { 4095 } else { 0 } });
        self.gate_off_ticks = if self.div / 2 < 1 { 1 } else { self.div / 2 };
        assert(acts@ =~= s0.stepped(tick as int, c, pitch).1);
        acts
    }

    /// A clock tick: an open gate counts down; on a step boundary the step plays,
    /// and a pattern that is out of date is made anew. The pitch is that of
    /// the step that `pitch_at` gives the input for.
    pub fn on_tick(&mut self, tick: u64, c: Curved, pitch: Pitch) -> (acts: Vec<Act>)
        requires
            old(self).wf(),
            c.valid(),
            tick <= u32::MAX,
        ensures
            final(self).wf(),
            ({
                let (s1, offs) = Tb3po { ticks: tick, ..*old(self) }.counted();
                let boundary = tick as int % s1.div as int == 0;
                let (s2, plays) = if boundary {
                    s1.stepped(tick as int, c, pitch)
                } else {
                    (s1, Seq::empty())
                };
                let renew = boundary && s2.regen;
                &&& acts@ == offs + s1.res_lights(tick as int) + plays
                &&& *final(self) == (Tb3po {
                    pattern: final(self).pattern,
                    regen: s2.regen && !renew,
                    ..s2
                })
                &&& if renew {
                    is_pattern(
                        final(self).pattern,
                        s2.store.seed,
                        density_of(s2.store.density_fader as int),
                    )
                } else {
                    final(self).pattern == s2.pattern
                }
            }),
    {
        let ghost s0 = *self;
        self.ticks = tick;
        let mut acts = self.countdown();
        let ghost s1 = *self;
        let ghost offs = acts@;
        let clkn: usize = tick as usize;
        let phase: usize = clkn % self.div;
        match self.layer {
            LatchLayer::Third => {
                if phase == 0 {
                    let color = if self.div == 2 || self.div == 4 || self.div == 8 || self.div
                        == 16 {
                        Color::Orange
                    } else {
                        Color::Blue
                    };
                    acts.push(
                        Act::Light { chan: 0, led: Led::Bottom, color, bright: Brightness::High },
                    );
                } else if phase == (if self.div / 2 < 1 { 1 } else { self.div / 2 }) {
                    acts.push(Act::Dark { chan: 0, led: Led::Bottom });
                }
            },
            _ => {},
        }
        assert(acts@ =~= offs + s1.res_lights(tick as int));
        if phase != 0 {
            assert(acts@ =~= offs + s1.res_lights(tick as int) + Seq::empty());
            return acts;
        }
        let plays = self.play_step(tick, c, pitch);
        push_all(&mut acts, plays);
        if self.regen {
            self.pattern = generate_pattern(
                self.store.seed,
                density_from_fader(self.store.density_fader),
            );
            self.regen = false;
        }
        acts
    }

    /// The clock stops, or is reset, which also goes back to the first step.
    pub fn on_stop(&mut self, reset: bool) -> (acts: Vec<Act>)
        requires
            old(self).wf(),
        ensures
            final(self).wf(),
            *final(self) == (Tb3po {
                step: if reset { 0 } else { old(self).step },
                slide_active: old(self).slide_active && !reset,
                gate_off_ticks: 0,
                gate_active: false,
                ..*old(self)
            }),
            acts@ == old(self).end_acts(),
    {
        if reset {
            self.step = 0;
            self.slide_active = false;
        }
        self.gate_off_ticks = 0;
        self.end_note()
    }

    /// The slide has arrived.
    pub fn on_slide_done(&mut self)
        requires
            old(self).wf(),
        ensures
            final(self).wf(),
            *final(self) == (Tb3po { slide_active: false, ..*old(self) }),
    {
        self.slide_active = false;
    }

    /// The first button, held without shift, turns the first fader to the
    /// resolution; on the way back its flash goes out.
    pub fn on_layer(&mut self, button_0: bool, shift: bool) -> (acts: Vec<Act>)
        requires
            old(self).wf(),
        ensures
            final(self).wf(),
            *final(self) == (Tb3po {
                layer: if button_0 && !shift { LatchLayer::Third } else { LatchLayer::Main },
                ..*old(self)
            }),
            acts@ == if old(self).layer == LatchLayer::Third && !(button_0 && !shift) {
                seq![Act::Dark { chan: 0, led: Led::Bottom }]
            } else {
                Seq::<Act>::empty()
            },
    {
        let was = match self.layer {
            LatchLayer::Third => true,
            _ => false,
        };
        let now = button_0 && !shift;
        self.layer = if now {
            LatchLayer::Third
        } else {
            LatchLayer::Main
        };
        if was && !now {
            one(Act::Dark { chan: 0, led: Led::Bottom })
        } else {
            Vec::new()
        }
    }

    /// Layer of a fader: the third one goes to octaves under shift.
    pub open spec fn fader_layer_of(self, chan: int, shift: bool) -> LatchLayer {
        if chan == 0 {
            self.layer
        } else if chan == 2 && shift {
            LatchLayer::Alt
        } else {
            LatchLayer::Main
        }
    }

    pub fn fader_layer(&self, chan: usize, shift: bool) -> (r: LatchLayer)
        ensures
            r == self.fader_layer_of(chan as int, shift),
    {
        if chan == 0 {
            self.layer
        } else if chan == 2 && shift {
            LatchLayer::Alt
        } else {
            LatchLayer::Main
        }
    }

    pub open spec fn layer_value(self, chan: int, layer: LatchLayer) -> u16 {
        if chan == 0 {
            if layer == LatchLayer::Third { self.store.res_saved } else { self.store.density_fader }
        } else if chan == 1 {
            self.store.length_fader
        } else {
            if layer == LatchLayer::Alt { self.store.octave_fader } else {
                self.store.transpose_fader
            }
        }
    }

    /// Value that a fader has to pass before it takes over.
    pub fn fader_target(&self, chan: usize, layer: LatchLayer) -> (r: u16)
        requires
            chan < 3,
        ensures
            r == self.layer_value(chan as int, layer),
    {
        match (chan, layer) {
            (0, LatchLayer::Third) => self.store.res_saved,
            (0, _) => self.store.density_fader,
            (1, _) => self.store.length_fader,
            (_, LatchLayer::Alt) => self.store.octave_fader,
            _ => self.store.transpose_fader,
        }
    }

    /// A fader has taken over a layer with a value. A new density makes the
    /// pattern out of date.
    pub fn on_fader(&mut self, chan: usize, layer: LatchLayer, v: u16) -> (acts: Vec<Act>)
        requires
            old(self).wf(),
            chan < 3,
            v <= 4095,
        ensures
            final(self).wf(),
            acts@ == seq![Act::Save],
            *final(self) == if chan == 0 {
                if layer == LatchLayer::Third {
                    Tb3po {
                        div: res_of(v as int) as usize,
                        store: (Storage { res_saved: v, ..old(self).store }),
                        ..*old(self)
                    }
                } else {
                    Tb3po {
                        regen: true,
                        store: (Storage { density_fader: v, ..old(self).store }),
                        ..*old(self)
                    }
                }
            } else if chan == 1 {
                Tb3po { store: (Storage { length_fader: v, ..old(self).store }), ..*old(self) }
            } else if layer == LatchLayer::Alt {
                Tb3po { store: (Storage { octave_fader: v, ..old(self).store }), ..*old(self) }
            } else {
                Tb3po { store: (Storage { transpose_fader: v, ..old(self).store }), ..*old(self) }
            },
    {
        match (chan, layer) {
            (0, LatchLayer::Third) => {
                self.div = step_ticks(v);
                self.store.res_saved = v;
            },
            (0, _) => {
                self.store.density_fader = v;
                self.regen = true;
            },
            (1, _) => {
                self.store.length_fader = v;
            },
            (_, LatchLayer::Alt) => {
                self.store.octave_fader = v;
            },
            _ => {
                self.store.transpose_fader = v;
            },
        }
        one(Act::Save)
    }

    /// A button goes down without shift: a new seed from the clock, accents on
    /// or off, mute on or off.
    pub fn on_press(&mut self, chan: usize) -> (acts: Vec<Act>)
        requires
            old(self).wf(),
        ensures
            final(self).wf(),
            ({
                let seed = (old(self).ticks as int % 65536) as u16;
                let st = old(self).store;
                if chan == 0 {
                    &&& is_pattern(
                        final(self).pattern,
                        seed,
                        density_of(st.density_fader as int),
                    )
                    &&& *final(self) == (Tb3po {
                        store: (Storage { seed, ..st }),
                        pattern: final(self).pattern,
                        step: 0,
                        ..*old(self)
                    })
                    &&& acts@ == seq![
                        Act::Save,
                        Act::FlashThenStatic {
                            chan: 0,
                            led: Led::Button,
                            flash: Color::White,
                            times: 1,
                            color: old(self).color,
                            bright: Brightness::Mid,
                        },
                    ]
                } else if chan == 1 {
                    acts@ == seq![Act::Save] && *final(self) == (Tb3po {
                        store: (Storage { no_accents: !st.no_accents, ..st }),
                        ..*old(self)
                    })
                } else if chan == 2 {
                    acts@ == seq![Act::Save] && *final(self) == (Tb3po {
                        store: (Storage { muted: !st.muted, ..st }),
                        ..*old(self)
                    })
                } else {
                    acts@ == Seq::<Act>::empty() && *final(self) == *old(self)
                }
            }),
    {
        match chan {
            0 => {
                let seed: u16 = (self.ticks % 65536) as u16;
                self.store.seed = seed;
                self.pattern = generate_pattern(
                    seed,
                    density_from_fader(self.store.density_fader),
                );
                self.step = 0;
                let mut acts = one(Act::Save);
                acts.push(
                    Act::FlashThenStatic {
                        chan: 0,
                        led: Led::Button,
                        flash: Color::White,
                        times: 1,
                        color: self.color,
                        bright: Brightness::Mid,
                    },
                );
                assert(acts@ =~= seq![
                    Act::Save,
                    Act::FlashThenStatic {
                        chan: 0,
                        led: Led::Button,
                        flash: Color::White,
                        times: 1,
                        color: self.color,
                        bright: Brightness::Mid,
                    },
                ]);
                acts
            },
            1 => {
                self.store.no_accents = !self.store.no_accents;
                one(Act::Save)
            },
            2 => {
                self.store.muted = !self.store.muted;
                one(Act::Save)
            },
            _ => Vec::new(),
        }
    }

    /// The stored settings have been replaced by those of a scene.
    pub fn on_scene(&mut self, store: Storage)
        requires
            old(self).wf(),
            store.density_fader <= 4095,
            store.res_saved <= 4095,
        ensures
            final(self).wf(),
            is_pattern(final(self).pattern, store.seed, density_of(store.density_fader as int)),
            *final(self) == (Tb3po {
                store,
                pattern: final(self).pattern,
                div: res_of(store.res_saved as int) as usize,
                step: 0,
                ..*old(self)
            }),
    {
        self.store = store;
        self.pattern = generate_pattern(store.seed, density_from_fader(store.density_fader));
        self.div = step_ticks(store.res_saved);
        self.step = 0;
    }

    /// The LEDs. `steps` is the number of steps.
    pub open spec fn lights(self, steps: int) -> Seq<Act> {
        let color = self.color;
        (if self.layer == LatchLayer::Third {
            seq![
                Act::Light {
                    chan: 0,
                    led: Led::Top,
                    color: Color::Cyan,
                    bright: Brightness::Custom((self.store.res_saved as int / 512 * 32 + 16) as u8),
                },
            ]
        } else {
            seq![
                Act::Light {
                    chan: 0,
                    led: Led::Top,
                    color,
                    bright: Brightness::Custom(
                        (density_of(self.store.density_fader as int) * 255 / 14) as u8,
                    ),
                },
                Act::Dark { chan: 0, led: Led::Bottom },
            ]
        }) + seq![
            Act::Light {
                chan: 1,
                led: Led::Bottom,
                color,
                bright: Brightness::Custom(
                    max_int(255 - self.step as int * 255 / steps, 0) as u8,
                ),
            },
            if self.gate_active {
                Act::Light {
                    chan: 1,
                    led: Led::Top,
                    color: if self.slide_active { Color::White } else { color },
                    bright: Brightness::High,
                }
            } else {
                Act::Dark { chan: 1, led: Led::Top }
            },
            Act::Light {
                chan: 1,
                led: Led::Button,
                color,
                bright: if self.store.no_accents { Brightness::Low } else { Brightness::Mid },
            },
            if self.accent_active && self.gate_active {
                Act::Light { chan: 2, led: Led::Top, color: Color::Orange, bright: Brightness::High }
            } else {
                Act::Dark { chan: 2, led: Led::Top }
            },
            Act::Light {
                chan: 2,
                led: Led::Bottom,
                color,
                bright: Brightness::Custom(
                    (dist(self.store.transpose_fader as int, 2048) * 255 / 2048) as u8,
                ),
            },
            if self.store.muted {
                Act::Dark { chan: 2, led: Led::Button }
            } else {
                Act::Light { chan: 2, led: Led::Button, color, bright: Brightness::Mid }
            },
        ]
    }

    /// The LEDs of a frame.
    pub fn paint(&self, c: Curved) -> (acts: Vec<Act>)
        requires
            self.wf(),
            c.valid(),
            self.store.transpose_fader <= 4095,
        ensures
            acts@ == self.lights(c.steps()),
    {
        let color = self.color;
        let mut acts: Vec<Act> = Vec::new();
        match self.layer {
            LatchLayer::Third => {
                let level: u16 = self.store.res_saved / 512 * 32 + 16;
                acts.push(
                    Act::Light {
                        chan: 0,
                        led: Led::Top,
                        color: Color::Cyan,
                        bright: Brightness::Custom(level as u8),
                    },
                );
            },
            _ => {
                let density: u32 = density_from_fader(self.store.density_fader) as u32;
                acts.push(
                    Act::Light {
                        chan: 0,
                        led: Led::Top,
                        color,
                        bright: Brightness::Custom((density * 255 / 14) as u8),
                    },
                );
                acts.push(Act::Dark { chan: 0, led: Led::Bottom });
            },
        }
        let n: u32 = length_fader_to_num_steps(c.length) as u32;
        let done: u32 = self.step as u32 * 255 / n;
        let progress: u8 = if done > 255 { 0 } else { (255 - done) as u8 };
        acts.push(
            Act::Light { chan: 1, led: Led::Bottom, color, bright: Brightness::Custom(progress) },
        );
        if self.gate_active {
            let gate_color = if self.slide_active {
                Color::White
            } else {
                color
            };
            acts.push(
                Act::Light { chan: 1, led: Led::Top, color: gate_color, bright: Brightness::High },
            );
        } else {
            acts.push(Act::Dark { chan: 1, led: Led::Top });
        }
        let bright = if self.store.no_accents {
            Brightness::Low
        } else {
            Brightness::Mid
        };
        acts.push(Act::Light { chan: 1, led: Led::Button, color, bright });
        if self.accent_active && self.gate_active {
            acts.push(
                Act::Light { chan: 2, led: Led::Top, color: Color::Orange, bright: Brightness::High },
            );
        } else {
            acts.push(Act::Dark { chan: 2, led: Led::Top });
        }
        let t: u32 = self.store.transpose_fader as u32;
        let away: u32 = if t >= 2048 { t - 2048 } else { 2048 - t };
        acts.push(
            Act::Light {
                chan: 2,
                led: Led::Bottom,
                color,
                bright: Brightness::Custom((away * 255 / 2048) as u8),
            },
        );
        if self.store.muted {
            acts.push(Act::Dark { chan: 2, led: Led::Button });
        } else {
            acts.push(Act::Light { chan: 2, led: Led::Button, color, bright: Brightness::Mid });
        }
        assert(acts@ =~= self.lights(c.steps()));
        acts
    }
}

/// A muted app starts no note, and a note that a slide has left open does not
/// outlive the next step that would play.
pub proof fn mute_ends_open_notes(s: Tb3po, tick: int, c: Curved, pitch: Pitch)
    requires
        s.store.muted,
        s.pattern.gates[s.step_of(tick, c)] || s.slid_into(tick, c),
    ensures
        !s.stepped(tick, c, pitch).0.gate_active,
        s.gate_active ==> s.stepped(tick, c, pitch).1 == s.end_acts(),
{
}

/// A step that plays opens its gate for half of its length, and the countdown
/// closes it then unless the step slides.
pub proof fn gates_last_half_a_step(s: Tb3po, tick: int, c: Curved, pitch: Pitch)
    requires
        s.wf(),
        c.valid(),
        0 <= tick,
        !s.store.muted,
        s.pattern.gates[s.step_of(tick, c)],
    ensures
        s.stepped(tick, c, pitch).0.gate_active,
        s.stepped(tick, c, pitch).0.gate_off_ticks == max_int(s.div as int / 2, 1),
        s.gate_off_ticks == 1 && !s.pattern.slides[s.step as int] ==> s.counted().1 == s.end_acts(),
        s.gate_off_ticks != 1 ==> s.counted().1 == Seq::<Act>::empty(),
{
}

} // verus!
