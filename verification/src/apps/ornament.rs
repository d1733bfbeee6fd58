//! Ornament timing shared by the drum, bass and melody apps.
//!
//! A plan is a handful of strikes laid out inside one parent step. Genre
//! profiles decide how often a drum or bass step is ornamented; the melody
//! app builds its plans from the scale feel alone.

use vstd::prelude::*;

verus! {

/// Maximum strikes per parent step (main + two subs).
pub const MAX_HITS: usize = 3;

/// Permille of a parent step (0 = step downbeat, 1000 = next step).
pub const STEP_PERMILLE: u16 = 1000;

/// Density fader below this keeps groove ornaments off (ghosts unchanged).
pub const DENSITY_ORNAMENT_FLOOR: u16 = 2400;

/// Number of genre articulation profiles.
pub const NUM_GENRES: usize = 9;

/// Steps in one bar of sixteenths.
pub const STEPS_PER_BAR: u32 = 16;

#[derive(Clone, Copy, Debug, PartialEq, Eq, Structural)]
pub enum OrnamentKind {
    Double,
    Flam,
    Triplet,
    Roll,
}

#[derive(Clone, Copy, Debug)]
pub struct OrnamentHit {
    /// Position within the parent step (permille).
    pub offset_permille: u16,
    /// Velocity as % of the parent strike (0-100).
    pub vel_pct: u8,
    /// Gate length as % of the parent gate (0-100).
    pub gate_pct: u8,
}

#[derive(Clone, Copy, Debug)]
pub struct OrnamentPlan {
    pub len: u8,
    pub hits: [OrnamentHit; 3],
}

/// Relative weights for picking an ornament kind (0-100 each).
#[derive(Clone, Copy, Debug, PartialEq, Eq, Structural)]
pub struct KindWeights {
    pub double: u8,
    pub flam: u8,
    pub triplet: u8,
    pub roll: u8,
}

/// Per-voice family weights inside a genre profile.
#[derive(Clone, Copy, Debug, PartialEq, Eq, Structural)]
pub struct GenreVoiceWeights {
    pub kick: KindWeights,
    pub snare: KindWeights,
    pub hats: KindWeights,
}

#[derive(Clone, Copy, Debug, PartialEq, Eq, Structural)]
pub enum GrooveVoice {
    Kick,
    Snare,
    Hats,
}

#[derive(Clone, Copy, Debug, PartialEq, Eq, Structural)]
pub enum ArticContext {
    Groove { density: u16, feel: u16 },
    Fill { step: u32, feel: u16 },
    Solo { tier: u8, phrase_bar: u32, feel: u16 },
}

/// Strikes of each kind in order: offset, velocity and gate of the three slots.
pub const KIND_HITS: [[u16; 9]; 4] = [
    [0, 100, 100, 520, 58, 65, 0, 0, 0],  // Double: main + echo
    [140, 38, 45, 420, 100, 100, 0, 0, 0],  // Flam: grace then main
    [0, 92, 78, 333, 82, 72, 666, 96, 80],  // Triplet: three even strokes
    [180, 42, 38, 320, 48, 42, 480, 100, 100],  // Roll: two grace taps into main
];

/// Number of strikes of each kind.
pub const KIND_LEN: [u8; 4] = [2, 2, 3, 3];

/// Genre articulation profiles (kick conservative, snare and hats busier):
/// double, flam, triplet and roll weights for kick, snare and hats.
pub const GENRE_WEIGHTS: [[u8; 12]; 9] = [
    [8, 4, 2, 2, 14, 18, 6, 8, 22, 12, 10, 14],  // Dub
    [12, 6, 8, 4, 20, 14, 16, 10, 28, 10, 22, 16],  // Disco
    [10, 8, 10, 6, 18, 16, 18, 12, 26, 14, 28, 18],  // House
    [6, 4, 4, 8, 12, 10, 8, 14, 20, 8, 12, 22],  // Techno
    [10, 12, 4, 6, 16, 22, 8, 10, 18, 16, 10, 12],  // Trip-Hop
    [14, 10, 6, 8, 22, 20, 10, 14, 24, 12, 14, 16],  // Hip-Hop
    [8, 6, 14, 12, 18, 14, 28, 20, 30, 10, 32, 24],  // Jungle
    [10, 8, 16, 10, 20, 16, 24, 18, 32, 12, 30, 20],  // UK Garage
    [12, 6, 8, 14, 16, 12, 12, 18, 22, 10, 16, 24],  // Dubstep
];

pub open spec fn min_int(a: int, b: int) -> int {
    if a <= b { a } else { b }
}

pub open spec fn max_int(a: int, b: int) -> int {
    if a >= b { a } else { b }
}

// ---------------------------------------------------------------------------
// Plans
// ---------------------------------------------------------------------------

/// Position of a kind in the tables.
pub open spec fn kind_index(kind: OrnamentKind) -> int {
    match kind {
        OrnamentKind::Double => 0,
        OrnamentKind::Flam => 1,
        OrnamentKind::Triplet => 2,
        OrnamentKind::Roll => 3,
    }
}

/// Strike `slot` of the template for `kind`.
pub open spec fn kind_hit(kind: OrnamentKind, slot: int) -> OrnamentHit {
    OrnamentHit {
        offset_permille: KIND_HITS[kind_index(kind)][3 * slot],
        vel_pct: KIND_HITS[kind_index(kind)][3 * slot + 1] as u8,
        gate_pct: KIND_HITS[kind_index(kind)][3 * slot + 2] as u8,
    }
}

/// `plan` is the timing template of `kind`.
pub open spec fn is_template(plan: OrnamentPlan, kind: OrnamentKind) -> bool {
    &&& plan.len == KIND_LEN[kind_index(kind)]
    &&& forall|i: int| 0 <= i < 3 ==> #[trigger] plan.hits[i] == kind_hit(kind, i)
}

pub open spec fn silent_hit() -> OrnamentHit {
    OrnamentHit { offset_permille: 0, vel_pct: 0, gate_pct: 0 }
}

/// `plan` is one full-strength strike on the downbeat.
pub open spec fn is_single_main(plan: OrnamentPlan) -> bool {
    &&& plan.len == 1
    &&& plan.hits[0] == (OrnamentHit { offset_permille: 0, vel_pct: 100, gate_pct: 100 })
    &&& plan.hits[1] == silent_hit()
    &&& plan.hits[2] == silent_hit()
}

impl OrnamentPlan {
    /// A plan has at most three strikes.
    pub open spec fn wf(self) -> bool {
        self.len <= 3
    }

    pub fn empty() -> (r: Self)
        ensures
            r.len == 0,
            forall|i: int| 0 <= i < 3 ==> #[trigger] r.hits[i] == silent_hit(),
            r.wf(),
    {
        let s = OrnamentHit { offset_permille: 0, vel_pct: 0, gate_pct: 0 };
        OrnamentPlan { len: 0, hits: [s, s, s] }
    }

    pub fn single_main() -> (r: Self)
        ensures
            is_single_main(r),
            r.wf(),
    {
        let s = OrnamentHit { offset_permille: 0, vel_pct: 0, gate_pct: 0 };
        let m = OrnamentHit { offset_permille: 0, vel_pct: 100, gate_pct: 100 };
        OrnamentPlan { len: 1, hits: [m, s, s] }
    }
}

pub fn plan_for_kind(kind: OrnamentKind) -> (r: OrnamentPlan)
    ensures
        is_template(r, kind),
        r.wf(),
{
    let k: usize = match kind {
        OrnamentKind::Double => 0,
        OrnamentKind::Flam => 1,
        OrnamentKind::Triplet => 2,
        OrnamentKind::Roll => 3,
    };
    let t = KIND_HITS[k];
    let h0 = OrnamentHit { offset_permille: t[0], vel_pct: t[1] as u8, gate_pct: t[2] as u8 };
    let h1 = OrnamentHit { offset_permille: t[3], vel_pct: t[4] as u8, gate_pct: t[5] as u8 };
    let h2 = OrnamentHit { offset_permille: t[6], vel_pct: t[7] as u8, gate_pct: t[8] as u8 };
    OrnamentPlan { len: KIND_LEN[k], hits: [h0, h1, h2] }
}

/// The templates, strike by strike: what a caller may rely on of their shape.
pub proof fn template_shape(plan: OrnamentPlan, kind: OrnamentKind)
    requires
        is_template(plan, kind),
    ensures
        kind == OrnamentKind::Double ==> plan.len == 2 && plan.hits[0] == (OrnamentHit {
            offset_permille: 0,
            vel_pct: 100,
            gate_pct: 100,
        }) && plan.hits[1] == (OrnamentHit { offset_permille: 520, vel_pct: 58, gate_pct: 65 }),
        kind == OrnamentKind::Flam ==> plan.len == 2 && plan.hits[0] == (OrnamentHit {
            offset_permille: 140,
            vel_pct: 38,
            gate_pct: 45,
        }) && plan.hits[1] == (OrnamentHit { offset_permille: 420, vel_pct: 100, gate_pct: 100 }),
        kind == OrnamentKind::Triplet ==> plan.len == 3 && plan.hits[0] == (OrnamentHit {
            offset_permille: 0,
            vel_pct: 92,
            gate_pct: 78,
        }) && plan.hits[1] == (OrnamentHit { offset_permille: 333, vel_pct: 82, gate_pct: 72 })
            && plan.hits[2] == (OrnamentHit { offset_permille: 666, vel_pct: 96, gate_pct: 80 }),
        kind == OrnamentKind::Roll ==> plan.len == 3 && plan.hits[0] == (OrnamentHit {
            offset_permille: 180,
            vel_pct: 42,
            gate_pct: 38,
        }) && plan.hits[1] == (OrnamentHit { offset_permille: 320, vel_pct: 48, gate_pct: 42 })
            && plan.hits[2] == (OrnamentHit { offset_permille: 480, vel_pct: 100, gate_pct: 100 }),
{
    assert(plan.hits[0] == kind_hit(kind, 0));
    assert(plan.hits[1] == kind_hit(kind, 1));
    assert(plan.hits[2] == kind_hit(kind, 2));
}

// ---------------------------------------------------------------------------
// Genre profiles and entry rates
// ---------------------------------------------------------------------------

/// Weights of one voice family (0 kick, 1 snare, 2 hats) in a genre row.
pub open spec fn profile_weights(genre: int, family: int) -> KindWeights {
    KindWeights {
        double: GENRE_WEIGHTS[genre][4 * family],
        flam: GENRE_WEIGHTS[genre][4 * family + 1],
        triplet: GENRE_WEIGHTS[genre][4 * family + 2],
        roll: GENRE_WEIGHTS[genre][4 * family + 3],
    }
}

/// The profile of a genre; an index past the table means the last genre.
pub open spec fn profile_of(genre: int) -> GenreVoiceWeights {
    let g = min_int(genre, NUM_GENRES - 1);
    GenreVoiceWeights {
        kick: profile_weights(g, 0),
        snare: profile_weights(g, 1),
        hats: profile_weights(g, 2),
    }
}

pub fn genre_weights(genre: usize) -> (r: GenreVoiceWeights)
    ensures
        r == profile_of(genre as int),
{
    let g: usize = if genre < NUM_GENRES - 1 { genre } else { NUM_GENRES - 1 };
    let t = GENRE_WEIGHTS[g];
    GenreVoiceWeights {
        kick: KindWeights { double: t[0], flam: t[1], triplet: t[2], roll: t[3] },
        snare: KindWeights { double: t[4], flam: t[5], triplet: t[6], roll: t[7] },
        hats: KindWeights { double: t[8], flam: t[9], triplet: t[10], roll: t[11] },
    }
}

pub open spec fn weights_for(profile: GenreVoiceWeights, voice: GrooveVoice) -> KindWeights {
    match voice {
        GrooveVoice::Kick => profile.kick,
        GrooveVoice::Snare => profile.snare,
        GrooveVoice::Hats => profile.hats,
    }
}

pub fn voice_weights(profile: &GenreVoiceWeights, voice: GrooveVoice) -> (r: KindWeights)
    ensures
        r == weights_for(*profile, voice),
{
    match voice {
        GrooveVoice::Kick => profile.kick,
        GrooveVoice::Snare => profile.snare,
        GrooveVoice::Hats => profile.hats,
    }
}

pub open spec fn scaled_by_feel(base: int, feel: int, curved: int) -> int {
    if feel == 0 { 0 } else { min_int(base * curved / 4095, 100) }
}

/// Scale a 0..=100 arc by the curved Feel (0 when feel is zero).
fn feel_scaled_intensity(base: u32, feel: u16, curved: u16) -> (r: u8)
    requires
        base <= 100,
    ensures
        r == scaled_by_feel(base as int, feel as int, curved as int),
{
    if feel == 0 {
        return 0;
    }
    assert(base * curved <= 100 * 65535) by (nonlinear_arith)
        requires
            base <= 100,
            curved <= 65535,
    ;
    let v: u32 = base * curved as u32 / 4095;
    if v < 100 {
        v as u8
    } else {
        100
    }
}

/// Crescendo into the bar line.
pub open spec fn fill_arc(step: int) -> int {
    let tail = step % (STEPS_PER_BAR as int);
    if tail >= 12 { 90 } else if tail >= 8 { 65 } else { 40 }
}

pub open spec fn solo_arc(tier: int, phrase_bar: int) -> int {
    let boost = if tier == 0 { 35int } else if tier == 1 { 55 } else if tier == 2 { 75 } else { 50 };
    let bar = phrase_bar % 4;
    let arc = if bar == 0 { 20int } else if bar == 1 { 40 } else if bar == 2 { 60 } else { 30 };
    min_int(boost + arc, 100)
}

/// Intensity 0..=100 of a context, given what the feel curve makes of its feel.
pub open spec fn intensity_of(ctx: ArticContext, curved: int) -> int {
    match ctx {
        ArticContext::Groove { density, feel } => if feel == 0 || density < DENSITY_ORNAMENT_FLOOR {
            0
        } else {
            let d = (density - DENSITY_ORNAMENT_FLOOR) * 100 / (4095 - DENSITY_ORNAMENT_FLOOR);
            let f = curved * 100 / 4095;
            min_int(d * f / 100, 100)
        },
        ArticContext::Fill { step, feel } => scaled_by_feel(fill_arc(step as int), feel as int, curved),
        ArticContext::Solo { tier, phrase_bar, feel } => scaled_by_feel(
            solo_arc(tier as int, phrase_bar as int),
            feel as int,
            curved,
        ),
    }
}

/// Contextual intensity 0..=100 for ornament rolls. `curved` is the feel
/// curve's value at the context's feel.
pub fn artic_intensity(ctx: ArticContext, curved: u16) -> (r: u8)
    ensures
        r == intensity_of(ctx, curved as int),
        r <= 100,
{
    match ctx {
        ArticContext::Groove { density, feel } => {
            if feel == 0 || density < DENSITY_ORNAMENT_FLOOR {
                return 0;
            }
            let d: u32 = ((density - DENSITY_ORNAMENT_FLOOR) as u32 * 100)
                / (4095 - DENSITY_ORNAMENT_FLOOR) as u32;
            let f: u32 = curved as u32 * 100 / 4095;
            assert(d * f <= 3725 * 1601) by (nonlinear_arith)
                requires
                    d <= 3725,
                    f <= 1601,
            ;
            let v: u32 = d * f / 100;
            if v < 100 {
                v as u8
            } else {
                100
            }
        },
        ArticContext::Fill { step, feel } => {
            let tail: u32 = step % STEPS_PER_BAR;
            let arc: u32 = if tail >= 12 {
                90
            } else if tail >= 8 {
                65
            } else {
                40
            };
            let r: u8 = feel_scaled_intensity(arc, feel, curved);
            assert(arc * curved >= 0) by (nonlinear_arith)
                requires
                    arc >= 0,
                    curved >= 0,
            ;
            r
        },
        ArticContext::Solo { tier, phrase_bar, feel } => {
            let boost: u32 = match tier {
                0 => 35,
                1 => 55,
                2 => 75,
                _ => 50,
            };
            let bar: u32 = phrase_bar % 4;
            let arc: u32 = match bar {
                0 => 20,
                1 => 40,
                2 => 60,
                _ => 30,
            };
            let sum: u32 = if boost + arc < 100 { boost + arc } else { 100 };
            feel_scaled_intensity(sum, feel, curved)
        },
    }
}

pub open spec fn weight_sum(w: KindWeights) -> int {
    w.double + w.flam + w.triplet + w.roll
}

fn kind_weights_total(w: KindWeights) -> (r: u16)
    ensures
        r == weight_sum(w),
{
    w.double as u16 + w.flam as u16 + w.triplet as u16 + w.roll as u16
}

/// The kind whose slice of `0..weight_sum` holds `pick`, in the order double,
/// flam, triplet, roll.
pub open spec fn kind_at(w: KindWeights, pick: int) -> OrnamentKind {
    if pick < w.double {
        OrnamentKind::Double
    } else if pick < w.double + w.flam {
        OrnamentKind::Flam
    } else if pick < w.double + w.flam + w.triplet {
        OrnamentKind::Triplet
    } else {
        OrnamentKind::Roll
    }
}

/// Pick kind with full proportional weights (entry gate is separate).
pub fn pick_kind_proportional(weights: KindWeights, roll: u8) -> (r: Option<OrnamentKind>)
    ensures
        r is None <==> weight_sum(weights) == 0,
        weight_sum(weights) != 0 ==> r == Some(
            kind_at(weights, roll as int % weight_sum(weights)),
        ),
{
    let total: u16 = kind_weights_total(weights);
    if total == 0 {
        return None;
    }
    let pick: u16 = roll as u16 % total;
    let mut acc: u16 = weights.double as u16;
    if pick < acc {
        return Some(OrnamentKind::Double);
    }
    acc = acc + weights.flam as u16;
    if pick < acc {
        return Some(OrnamentKind::Flam);
    }
    acc = acc + weights.triplet as u16;
    if pick < acc {
        return Some(OrnamentKind::Triplet);
    }
    Some(OrnamentKind::Roll)
}

pub open spec fn voice_mul(voice: GrooveVoice) -> int {
    match voice {
        GrooveVoice::Kick => 1,
        GrooveVoice::Snare => 2,
        GrooveVoice::Hats => 3,
    }
}

/// Ceiling of a voice's entry rate.
pub open spec fn voice_cap(voice: GrooveVoice) -> int {
    match voice {
        GrooveVoice::Kick => 14,
        GrooveVoice::Snare => 22,
        GrooveVoice::Hats => 36,
    }
}

pub open spec fn entry_rate(
    voice: GrooveVoice,
    weights: KindWeights,
    intensity: int,
    rate_scale: int,
) -> int {
    if intensity == 0 {
        0
    } else {
        min_int(
            weight_sum(weights) * voice_mul(voice) * intensity * max_int(rate_scale, 1) / 90000,
            voice_cap(voice),
        )
    }
}

/// Sparse entry rate 0..=100 from voice, weights and context intensity.
pub fn entry_rate_pct(
    voice: GrooveVoice,
    weights: KindWeights,
    intensity: u8,
    rate_scale: u8,
) -> (r: u8)
    ensures
        r == entry_rate(voice, weights, intensity as int, rate_scale as int),
        r <= voice_cap(voice),
{
    if intensity == 0 {
        return 0;
    }
    let mul: u32 = match voice {
        GrooveVoice::Kick => 1,
        GrooveVoice::Snare => 2,
        GrooveVoice::Hats => 3,
    };
    let cap: u32 = match voice {
        GrooveVoice::Kick => 14,
        GrooveVoice::Snare => 22,
        GrooveVoice::Hats => 36,
    };
    let sum: u32 = kind_weights_total(weights) as u32;
    let scale: u32 = if rate_scale < 1 { 1 } else { rate_scale as u32 };
    assert(0 <= sum * mul <= 3060) by (nonlinear_arith)
        requires
            sum <= 1020,
            mul <= 3,
    ;
    let a: u32 = sum * mul;
    assert(0 <= a * intensity <= 3060 * 255) by (nonlinear_arith)
        requires
            a <= 3060,
            intensity <= 255,
    ;
    let b: u32 = a * intensity as u32;
    assert(0 <= b * scale <= 780300 * 255) by (nonlinear_arith)
        requires
            b <= 780300,
            scale <= 255,
    ;
    let raw: u32 = b * scale / 90000;
    if raw < cap {
        raw as u8
    } else {
        cap as u8
    }
}

/// Bass persona scales ornament entry (100 = neutral).
pub fn bass_voice_ornament_scale(ghost_pct: u8, syncop_bias: u16, pocket: bool) -> (r: u8)
    ensures
        r == if pocket {
            35
        } else {
            min_int(70 + ghost_pct as int / 3 + min_int(syncop_bias as int, 1600) / 50, 155)
        },
{
    if pocket {
        return 35;
    }
    let g: u32 = ghost_pct as u32;
    let s: u32 = if syncop_bias < 1600 { syncop_bias as u32 } else { 1600 };
    let v: u32 = 70 + g / 3 + s / 50;
    if v < 155 {
        v as u8
    } else {
        155
    }
}

/// Genre-driven plan for drum and bass steps; a single main when off.
/// `curved` is the feel curve's value at the context's feel and `sub` the
/// secondary step chance that picks the kind. `rate_scale`: 100 = neutral.
pub fn groove_plan(
    genre: usize,
    voice: GrooveVoice,
    ctx: ArticContext,
    curved: u16,
    chance: u8,
    sub: u8,
    rate_scale: u8,
) -> (r: OrnamentPlan)
    ensures
        r.wf(),
        ({
            let w = weights_for(profile_of(genre as int), voice);
            let entry = entry_rate(voice, w, intensity_of(ctx, curved as int), rate_scale as int);
            if chance >= entry || weight_sum(w) == 0 {
                is_single_main(r)
            } else {
                is_template(r, kind_at(w, sub as int % weight_sum(w)))
            }
        }),
{
    let intensity: u8 = artic_intensity(ctx, curved);
    if intensity == 0 {
        return OrnamentPlan::single_main();
    }
    let profile = genre_weights(genre);
    let weights = voice_weights(&profile, voice);
    let entry: u8 = entry_rate_pct(voice, weights, intensity, rate_scale);
    if entry == 0 || chance >= entry {
        return OrnamentPlan::single_main();
    }
    match pick_kind_proportional(weights, sub) {
        Some(kind) => plan_for_kind(kind),
        None => OrnamentPlan::single_main(),
    }
}

/// Ornaments need feel: with feel at zero every context has zero intensity,
/// and a groove below the density floor has none either.
pub proof fn no_feel_no_intensity(ctx: ArticContext, curved: int)
    ensures
        ctx matches ArticContext::Groove { density, feel } ==> (feel == 0 || density
            < DENSITY_ORNAMENT_FLOOR ==> intensity_of(ctx, curved) == 0),
        ctx matches ArticContext::Fill { step, feel } ==> (feel == 0 ==> intensity_of(ctx, curved)
            == 0),
        ctx matches ArticContext::Solo { tier, phrase_bar, feel } ==> (feel == 0 ==> intensity_of(
            ctx,
            curved,
        ) == 0),
{
}

/// For one value of the feel curve a groove's intensity does not fall as the
/// density rises, and for one density it does not fall as the curve rises.
pub proof fn grooves_intensify(d1: u16, d2: u16, feel: u16, c1: int, c2: int)
    requires
        d1 <= d2,
        0 <= c1 <= c2,
    ensures
        intensity_of(ArticContext::Groove { density: d1, feel }, c1) <= intensity_of(
            ArticContext::Groove { density: d2, feel },
            c2,
        ),
{
    if feel > 0 && d1 >= DENSITY_ORNAMENT_FLOOR {
        let a = (d1 - DENSITY_ORNAMENT_FLOOR) * 100 / (4095 - DENSITY_ORNAMENT_FLOOR);
        let b = (d2 - DENSITY_ORNAMENT_FLOOR) * 100 / (4095 - DENSITY_ORNAMENT_FLOOR);
        let f = c1 * 100 / 4095;
        let g = c2 * 100 / 4095;
        assert(0 <= a * f <= b * g) by (nonlinear_arith)
            requires
                0 <= a <= b,
                0 <= f <= g,
        ;
    } else if feel > 0 && d2 >= DENSITY_ORNAMENT_FLOOR {
        let b = (d2 - DENSITY_ORNAMENT_FLOOR) * 100 / (4095 - DENSITY_ORNAMENT_FLOOR);
        let g = c2 * 100 / 4095;
        assert(0 <= b * g) by (nonlinear_arith)
            requires
                0 <= b,
                0 <= g,
        ;
    }
}

/// A fill is a crescendo: for one feel its intensity does not fall toward the
/// bar line.
pub proof fn fills_rise_to_the_bar_line(s1: u32, s2: u32, feel: u16, curved: int)
    requires
        s1 % STEPS_PER_BAR <= s2 % STEPS_PER_BAR,
        0 <= curved,
    ensures
        intensity_of(ArticContext::Fill { step: s1, feel }, curved) <= intensity_of(
            ArticContext::Fill { step: s2, feel },
            curved,
        ),
{
    let a = fill_arc(s1 as int);
    let b = fill_arc(s2 as int);
    assert(a * curved <= b * curved) by (nonlinear_arith)
        requires
            a <= b,
            0 <= curved,
    ;
}

/// At full density a groove is as intense, in percent, as the feel curve: the
/// intensity of two feels compares as the percents of the curve do.
pub proof fn full_density_follows_the_curve(feel: u16, curved: int)
    requires
        feel > 0,
        0 <= curved,
    ensures
        intensity_of(ArticContext::Groove { density: 4095, feel }, curved) == min_int(
            curved * 100 / 4095,
            100,
        ),
{
    let d = (4095 - DENSITY_ORNAMENT_FLOOR) * 100 / (4095 - DENSITY_ORNAMENT_FLOOR);
    let f = curved * 100 / 4095;
    assert(4095 - DENSITY_ORNAMENT_FLOOR == 1695);
    assert(169500int / 1695 == 100);
    assert(d * f == 100 * f) by (nonlinear_arith)
        requires
            d == 100,
    ;
}

/// From a fortieth of the feel curve on every fill and every solo is
/// ornamented. At its top a groove is from the density on at which its share is
/// one in a hundred.
pub proof fn full_feel_ornaments(ctx: ArticContext, curved: int)
    requires
        103 <= curved,
    ensures
        ctx matches ArticContext::Fill { step, feel } ==> (feel > 0 ==> 0 < intensity_of(ctx, curved)
            <= 100),
        ctx matches ArticContext::Solo { tier, phrase_bar, feel } ==> (feel > 0 ==> 0
            < intensity_of(ctx, curved) <= 100),
        ctx matches ArticContext::Groove { density, feel } ==> (feel > 0 && 100 * (density
            - DENSITY_ORNAMENT_FLOOR) >= 4095 - DENSITY_ORNAMENT_FLOOR ==> 0 < intensity_of(
            ctx,
            4095,
        ) <= 100),
{
    match ctx {
        ArticContext::Groove { density, feel } => {
            let d = (density - DENSITY_ORNAMENT_FLOOR) * 100 / (4095 - DENSITY_ORNAMENT_FLOOR);
            let f = 4095int * 100 / 4095;
            assert(d * f == 100 * d) by (nonlinear_arith)
                requires
                    f == 100,
            ;
        },
        ArticContext::Fill { step, feel } => {
            let a = fill_arc(step as int);
            assert(a * curved >= 4095) by (nonlinear_arith)
                requires
                    40 <= a,
                    103 <= curved,
            ;
        },
        ArticContext::Solo { tier, phrase_bar, feel } => {
            let a = solo_arc(tier as int, phrase_bar as int);
            assert(a * curved >= 4095) by (nonlinear_arith)
                requires
                    40 <= a,
                    103 <= curved,
            ;
        },
    }
}

/// Every kind with a weight is picked by exactly as many of the values
/// `0..weight_sum` as its weight: the four slices are consecutive and their
/// lengths are the weights.
pub proof fn kinds_are_proportional(w: KindWeights, pick: int)
    requires
        0 <= pick < weight_sum(w),
    ensures
        kind_at(w, pick) == OrnamentKind::Double <==> 0 <= pick < w.double,
        kind_at(w, pick) == OrnamentKind::Flam <==> 0 <= pick - w.double < w.flam,
        kind_at(w, pick) == OrnamentKind::Triplet <==> 0 <= pick - w.double - w.flam < w.triplet,
        kind_at(w, pick) == OrnamentKind::Roll <==> 0 <= pick - w.double - w.flam - w.triplet
            < w.roll,
{
}

// ---------------------------------------------------------------------------
// Placing the strikes
// ---------------------------------------------------------------------------

/// Index of the last of the loudest among the first `n` strikes.
pub open spec fn loudest(hits: Seq<OrnamentHit>, n: int) -> int
    decreases n,
{
    if n <= 1 {
        0
    } else {
        let b = loudest(hits, n - 1);
        if hits[n - 1].vel_pct >= hits[b].vel_pct { n - 1 } else { b }
    }
}

/// Index of the loudest hit: pocket anchor for swing and timing.
pub fn main_hit_index(plan: &OrnamentPlan) -> (r: usize)
    requires
        plan.wf(),
    ensures
        r == loudest(plan.hits@, plan.len as int),
        r < 3,
        r < plan.len || r == 0,
{
    let mut best: usize = 0;
    let mut best_vel: u8 = 0;
    let mut i: usize = 0;
    while i < plan.len as usize
        invariant
            i <= plan.len <= 3,
            best == loudest(plan.hits@, i as int),
            best < i || (best == 0 && i == 0),
            i == 0 ==> best_vel == 0,
            i > 0 ==> best_vel == plan.hits@[best as int].vel_pct,
        decreases plan.len - i,
    {
        let v: u8 = plan.hits[i].vel_pct;
        if v >= best_vel {
            best_vel = v;
            best = i;
        }
        i = i + 1;
    }
    best
}

/// The main hit is a loudest one, and the last of them.
pub proof fn loudest_is_last_maximum(hits: Seq<OrnamentHit>, n: int)
    requires
        0 < n <= hits.len(),
    ensures
        0 <= loudest(hits, n) < n,
        forall|i: int| 0 <= i < n ==> #[trigger] hits[i].vel_pct <= hits[loudest(hits, n)].vel_pct,
        forall|i: int|
            loudest(hits, n) < i < n ==> #[trigger] hits[i].vel_pct < hits[loudest(
                hits,
                n,
            )].vel_pct,
    decreases n,
{
    if n > 1 {
        loudest_is_last_maximum(hits, n - 1);
    }
}

/// Element `i` of the sequence pushed up so that each element exceeds the one
/// before it: an element that does not is put `step` above it, at most `cap`.
pub open spec fn pushed(s: Seq<int>, i: int, step: int, cap: int) -> int
    decreases i,
{
    if i <= 0 {
        s[0]
    } else if s[i] <= pushed(s, i - 1, step, cap) {
        min_int(pushed(s, i - 1, step, cap) + step, cap)
    } else {
        s[i]
    }
}

/// Element `i` of the sequence pulled down so that each element stays `step`
/// below the one after it (not below zero).
pub open spec fn pulled(s: Seq<int>, i: int, step: int) -> int
    decreases s.len() - i,
{
    if i >= s.len() - 1 {
        s[i]
    } else {
        min_int(s[i], max_int(pulled(s, i + 1, step) - step, 0))
    }
}

/// Element `i` after ties are resolved from the back: an element that reaches
/// the one after it drops `step` below it.
pub open spec fn untied(s: Seq<int>, i: int, step: int) -> int
    decreases s.len() - i,
{
    if i >= s.len() - 1 {
        s[i]
    } else if untied(s, i + 1, step) <= s[i] {
        max_int(untied(s, i + 1, step) - step, 0)
    } else {
        s[i]
    }
}

pub open spec fn push_up(s: Seq<int>, step: int, cap: int) -> Seq<int> {
    Seq::new(s.len(), |i: int| pushed(s, i, step, cap))
}

pub open spec fn pull_down(s: Seq<int>, step: int) -> Seq<int> {
    Seq::new(s.len(), |i: int| pulled(s, i, step))
}

pub open spec fn untie(s: Seq<int>, step: int) -> Seq<int> {
    Seq::new(s.len(), |i: int| untied(s, i, step))
}

/// Offsets of the strikes of a plan.
pub open spec fn offsets(plan: OrnamentPlan) -> Seq<int> {
    Seq::new(plan.len as nat, |i: int| plan.hits[i].offset_permille as int)
}

pub open spec fn least(s: Seq<int>, n: int) -> int
    decreases n,
{
    if n <= 1 { s[0] } else { min_int(least(s, n - 1), s[n - 1]) }
}

pub open spec fn greatest(s: Seq<int>, n: int) -> int
    decreases n,
{
    if n <= 1 { s[0] } else { max_int(greatest(s, n - 1), s[n - 1]) }
}

/// How far the plan moves: enough to put the main strike on the anchor, but no
/// strike before the step, and then none past its end.
pub open spec fn fit_shift(plan: OrnamentPlan, anchor: int) -> int {
    let offs = offsets(plan);
    let main = min_int(offs[loudest(plan.hits@, plan.len as int)], 1000);
    min_int(
        max_int(anchor - main, -least(offs, offs.len() as int)),
        1000 - greatest(offs, offs.len() as int),
    )
}

pub open spec fn clamp_int(x: int, lo: int, hi: int) -> int {
    if x < lo { lo } else if x > hi { hi } else { x }
}

/// Permilles of the strikes once the plan is fitted to the anchor.
pub open spec fn fitted(plan: OrnamentPlan, anchor: int) -> Seq<int> {
    let offs = offsets(plan);
    push_up(
        Seq::new(offs.len(), |i: int| clamp_int(offs[i] + fit_shift(plan, anchor), 0, 1000)),
        1,
        1000,
    )
}

/// Fit plan permilles into 0..=STEP_PERMILLE; main at anchor only when the
/// whole plan fits.
fn fit_plan_permilles(plan: &OrnamentPlan, anchor_perm: u16) -> (out: [u16; 3])
    requires
        plan.wf(),
    ensures
        forall|i: int|
            0 <= i < 3 ==> #[trigger] out[i] == if i < plan.len {
                fitted(*plan, anchor_perm as int)[i]
            } else {
                0
            },
        forall|i: int| 0 <= i < 3 ==> #[trigger] out[i] <= 1000,
{
    let len: usize = plan.len as usize;
    let mut out: [u16; 3] = [0, 0, 0];
    if len == 0 {
        return out;
    }
    let ghost offs = offsets(*plan);
    let main_i: usize = main_hit_index(plan);
    let off: u16 = plan.hits[main_i].offset_permille;
    let main_perm: u16 = if off < STEP_PERMILLE { off } else { STEP_PERMILLE };
    let shift: i32 = anchor_perm as i32 - main_perm as i32;
    let mut lo: i32 = plan.hits[0].offset_permille as i32;
    let mut hi: i32 = lo;
    let mut i: usize = 1;
    while i < len
        invariant
            1 <= i <= len <= 3,
            len == plan.len,
            offs == offsets(*plan),
            lo == least(offs, i as int),
            hi == greatest(offs, i as int),
            0 <= lo <= hi <= 65535,
        decreases len - i,
    {
        let o: i32 = plan.hits[i].offset_permille as i32;
        assert(offs[i as int] == o);
        if o < lo {
            lo = o;
        }
        if o > hi {
            hi = o;
        }
        i = i + 1;
    }
    let up: i32 = if shift < -lo { -lo } else { shift };
    let adj: i32 = if hi + up > 1000 { 1000 - hi } else { up };
    assert(adj == fit_shift(*plan, anchor_perm as int));
    let ghost ideal = Seq::new(offs.len(), |k: int| clamp_int(offs[k] + adj, 0, 1000));
    i = 0;
    while i < len
        invariant
            i <= len <= 3,
            len == plan.len,
            offs == offsets(*plan),
            -200000 <= adj <= 200000,
            ideal == Seq::new(offs.len(), |k: int| clamp_int(offs[k] + adj, 0, 1000)),
            forall|k: int| 0 <= k < 3 ==> #[trigger] out[k] == if k < i { ideal[k] } else { 0 },
        decreases len - i,
    {
        let v: i32 = plan.hits[i].offset_permille as i32 + adj;
        assert(offs[i as int] == plan.hits[i as int].offset_permille);
        let c: u16 = if v < 0 {
            0
        } else if v > 1000 {
            1000
        } else {
            v as u16
        };
        out[i] = c;
        i = i + 1;
    }
    i = 1;
    while i < len
        invariant
            1 <= i <= len <= 3,
            len == plan.len,
            ideal.len() == len,
            forall|k: int| 0 <= k < len ==> 0 <= #[trigger] ideal[k] <= 1000,
            forall|k: int|
                0 <= k < 3 ==> #[trigger] out[k] == if k < i {
                    pushed(ideal, k, 1, 1000)
                } else if k < len {
                    ideal[k]
                } else {
                    0
                },
            forall|k: int| 0 <= k < 3 ==> #[trigger] out[k] <= 1000,
        decreases len - i,
    {
        let prev: u16 = out[i - 1];
        assert(prev == pushed(ideal, i - 1, 1, 1000));
        if out[i] <= prev {
            out[i] = if prev < 1000 { prev + 1 } else { 1000 };
        }
        i = i + 1;
    }
    assert(fitted(*plan, anchor_perm as int) =~= push_up(ideal, 1, 1000));
    out
}

/// A permille position in whole parent units, capped.
pub open spec fn due_of(perm: int, parent: int) -> int {
    min_int((parent * perm / 1000) as u32 as int, max_int(parent - 1, 1))
}

/// Dues of the strikes: whole units, pushed apart, pulled back from the end
/// of the step, pushed apart again, and untied if a tie is left.
pub open spec fn quantized(perms: Seq<int>, parent: int, min_step: int) -> Seq<int> {
    let cap = max_int(parent - 1, 1);
    let step = max_int(min_step, 1);
    let raw = Seq::new(perms.len(), |i: int| due_of(perms[i], parent));
    let apart = push_up(pull_down(push_up(raw, step, cap), step), step, cap);
    let n = perms.len() as int;
    if n >= 2 && apart[n - 1] <= apart[n - 2] { untie(apart, step) } else { apart }
}

/// Quantize permilles to parent units; enforce strictly ascending dues within
/// the step. Slots past `len`, and every slot when there is nothing to place,
/// hold `u32::MAX`.
pub fn quantize_dues(perms: &[u16], len: usize, parent: u32, min_step: u32) -> (out: [u32; 3])
    requires
        len <= 3,
        len <= perms@.len(),
        max_int(parent - 1, 1) + max_int(min_step as int, 1) <= u32::MAX,
    ensures
        len == 0 || parent == 0 ==> forall|i: int| 0 <= i < 3 ==> #[trigger] out[i] == u32::MAX,
        len != 0 && parent != 0 ==> forall|i: int|
            0 <= i < 3 ==> #[trigger] out[i] == if i < len {
                quantized(
                    Seq::new(len as nat, |k: int| perms@[k] as int),
                    parent as int,
                    min_step as int,
                )[i]
            } else {
                u32::MAX as int
            },
{
    let mut out: [u32; 3] = [u32::MAX, u32::MAX, u32::MAX];
    if len == 0 || parent == 0 {
        return out;
    }
    let ghost pm = Seq::new(len as nat, |k: int| perms@[k] as int);
    let cap: u32 = if parent - 1 < 1 { 1 } else { parent - 1 };
    let step: u32 = if min_step < 1 { 1 } else { min_step };
    let ghost raw = Seq::new(pm.len(), |k: int| due_of(pm[k], parent as int));
    let mut i: usize = 0;
    while i < len
        invariant
            i <= len <= 3,
            len <= perms@.len(),
            parent > 0,
            cap == max_int(parent - 1, 1),
            pm == Seq::new(len as nat, |k: int| perms@[k] as int),
            raw == Seq::new(pm.len(), |k: int| due_of(pm[k], parent as int)),
            forall|k: int|
                0 <= k < 3 ==> #[trigger] out[k] == if k < i { raw[k] } else { u32::MAX as int },
        decreases len - i,
    {
        let perm: u16 = perms[i];
        assert(0 <= parent * perm <= 0xFFFF_FFFF * 0xFFFF) by (nonlinear_arith)
            requires
                parent <= 0xFFFF_FFFF,
                perm <= 0xFFFF,
        ;
        let v: u32 = (parent as u64 * perm as u64 / 1000) as u32;
        out[i] = if v < cap { v } else { cap };
        assert(raw[i as int] == due_of(pm[i as int], parent as int));
        i = i + 1;
    }
    let ghost cap_i = cap as int;
    let ghost step_i = step as int;
    let ghost a1 = push_up(raw, step_i, cap_i);
    i = 1;
    while i < len
        invariant
            1 <= i <= len <= 3,
            raw.len() == len,
            cap + step <= u32::MAX,
            cap_i == cap,
            step_i == step,
            a1 == push_up(raw, step_i, cap_i),
            forall|k: int| 0 <= k < len ==> 0 <= #[trigger] raw[k] <= cap,
            forall|k: int|
                0 <= k < 3 ==> #[trigger] out[k] == if k < i {
                    a1[k]
                } else if k < len {
                    raw[k]
                } else {
                    u32::MAX as int
                },
            forall|k: int| 0 <= k < i ==> 0 <= #[trigger] a1[k] <= cap,
        decreases len - i,
    {
        let prev: u32 = out[i - 1];
        assert(prev == a1[i - 1]);
        if out[i] <= prev {
            out[i] = if prev + step < cap { prev + step } else { cap };
        }
        assert(out[i as int] == a1[i as int]);
        i = i + 1;
    }
    let ghost a2 = pull_down(a1, step_i);
    i = len - 1;
    while i > 0
        invariant
            i < len <= 3,
            a1.len() == len,
            step_i == step,
            a2 == pull_down(a1, step_i),
            forall|k: int| 0 <= k < len ==> 0 <= #[trigger] a1[k] <= cap,
            forall|k: int|
                0 <= k < 3 ==> #[trigger] out[k] == if i <= k < len {
                    a2[k]
                } else if k < len {
                    a1[k]
                } else {
                    u32::MAX as int
                },
            forall|k: int| i <= k < len ==> 0 <= #[trigger] a2[k] <= cap,
        decreases i,
    {
        let cur: u32 = out[i];
        assert(cur == a2[i as int]);
        assert(pulled(a1, i - 1, step_i) == a2[i - 1]);
        assert(pulled(a1, i as int, step_i) == a2[i as int]);
        let max_prev: u32 = if cur < step { 0 } else { cur - step };
        if out[i - 1] > max_prev {
            out[i - 1] = max_prev;
        }
        i = i - 1;
    }
    let ghost a3 = push_up(a2, step_i, cap_i);
    i = 1;
    while i < len
        invariant
            1 <= i <= len <= 3,
            a2.len() == len,
            cap + step <= u32::MAX,
            cap_i == cap,
            step_i == step,
            a3 == push_up(a2, step_i, cap_i),
            forall|k: int| 0 <= k < len ==> 0 <= #[trigger] a2[k] <= cap,
            forall|k: int|
                0 <= k < 3 ==> #[trigger] out[k] == if k < i {
                    a3[k]
                } else if k < len {
                    a2[k]
                } else {
                    u32::MAX as int
                },
            forall|k: int| 0 <= k < i ==> 0 <= #[trigger] a3[k] <= cap,
        decreases len - i,
    {
        let prev: u32 = out[i - 1];
        assert(prev == a3[i - 1]);
        if out[i] <= prev {
            out[i] = if prev + step < cap { prev + step } else { cap };
        }
        assert(out[i as int] == a3[i as int]);
        i = i + 1;
    }
    let ghost q = quantized(pm, parent as int, min_step as int);
    assert(a3.len() == len);
    if len >= 2 && out[len - 1] <= out[len - 2] {
        let ghost a4 = untie(a3, step_i);
        assert(a3[len - 1] <= a3[len - 2]) by {
            assert(out[len - 1] == a3[len - 1]);
            assert(out[len - 2] == a3[len - 2]);
        }
        assert(q == a4);
        i = len - 1;
        while i > 0
            invariant
                i < len <= 3,
                a3.len() == len,
                step_i == step,
                a4 == untie(a3, step_i),
                forall|k: int| 0 <= k < len ==> 0 <= #[trigger] a3[k] <= cap,
                forall|k: int|
                    0 <= k < 3 ==> #[trigger] out[k] == if i <= k < len {
                        a4[k]
                    } else if k < len {
                        a3[k]
                    } else {
                        u32::MAX as int
                    },
            decreases i,
        {
            let cur: u32 = out[i];
            assert(cur == a4[i as int]);
            assert(untied(a3, i - 1, step_i) == a4[i - 1]);
            assert(untied(a3, i as int, step_i) == a4[i as int]);
            if cur <= out[i - 1] {
                out[i - 1] = if cur < step { 0 } else { cur - step };
            }
            i = i - 1;
        }
    } else {
        assert(len >= 2 ==> a3[len - 1] > a3[len - 2]) by {
            if len >= 2 {
                assert(out[len - 1] == a3[len - 1]);
                assert(out[len - 2] == a3[len - 2]);
            }
        }
        assert(q == a3);
    }
    out
}

/// Dues with the main strike put on its anchor, where the anchor is the unit
/// nearest to the strike and lies between the strikes around it. Whole units
/// alone would leave it one unit early.
pub open spec fn anchored(q: Seq<int>, m: int, perm: int, anchor: int, parent: int) -> Seq<int> {
    if (parent * perm + 500) / 1000 == anchor && anchor < parent && (m == 0 || q[m - 1] < anchor)
        && (m + 1 == q.len() || anchor < q[m + 1]) {
        q.update(m, anchor)
    } else {
        q
    }
}

/// Dues of a plan whose main strike wants to fall on `anchor`.
pub open spec fn plan_dues(anchor: int, plan: OrnamentPlan, parent: int, min_step: int) -> Seq<int> {
    let perms = fitted(plan, min_int(anchor * 1000 / parent, 1000));
    let m = loudest(plan.hits@, plan.len as int);
    anchored(quantized(perms, parent, min_step), m, perms[m], anchor, parent)
}

/// `out` holds the plan's dues, and `u32::MAX` where there is no strike.
pub open spec fn holds_dues(
    out: [u32; 3],
    anchor: int,
    plan: OrnamentPlan,
    parent: int,
    min_step: int,
) -> bool {
    forall|i: int|
        0 <= i < 3 ==> #[trigger] out[i] == if i < plan.len && parent != 0 {
            plan_dues(anchor, plan, parent, min_step)[i]
        } else {
            u32::MAX as int
        }
}

fn map_plan_dues(anchor: u32, plan: &OrnamentPlan, parent: u32, min_step: u32) -> (out: [u32; 3])
    requires
        plan.wf(),
        max_int(parent - 1, 1) + max_int(min_step as int, 1) <= u32::MAX,
    ensures
        holds_dues(out, anchor as int, *plan, parent as int, min_step as int),
{
    if plan.len == 0 || parent == 0 {
        return [u32::MAX, u32::MAX, u32::MAX];
    }
    let at: u64 = (anchor as u64 * 1000) / parent as u64;
    let anchor_perm: u16 = if at < 1000 { at as u16 } else { 1000 };
    let perms: [u16; 3] = fit_plan_permilles(plan, anchor_perm);
    let ghost f = fitted(*plan, anchor_perm as int);
    assert(Seq::new(plan.len as nat, |k: int| perms@[k] as int) =~= f) by {
        assert forall|k: int| 0 <= k < plan.len implies perms@[k] as int == f[k] by {
            assert(perms[k] == f[k]);
        }
    }
    let len: usize = plan.len as usize;
    let mut out: [u32; 3] = quantize_dues(&perms, len, parent, min_step);
    let ghost q = quantized(f, parent as int, min_step as int);
    let m: usize = main_hit_index(plan);
    assert(perms[m as int] == f[m as int]);
    assert(forall|k: int| 0 <= k < len ==> #[trigger] out[k] == q[k]);
    assert(0 <= parent * perms[m as int] <= 0xFFFF_FFFF * 1000) by (nonlinear_arith)
        requires
            parent <= 0xFFFF_FFFF,
            perms[m as int] <= 1000,
    ;
    let nearest: u64 = (parent as u64 * perms[m] as u64 + 500) / 1000;
    if nearest == anchor as u64 && anchor < parent && (m == 0 || out[m - 1] < anchor) && (m + 1
        == len || anchor < out[m + 1]) {
        out[m] = anchor;
    }
    out
}

/// Map plan offsets into strictly ascending dues within the parent step.
pub fn hit_due_ms(anchor_due_ms: u32, plan: &OrnamentPlan, sixteenth_ms: u32) -> (out: [u32; 3])
    requires
        plan.wf(),
    ensures
        holds_dues(
            out,
            anchor_due_ms as int,
            *plan,
            max_int(sixteenth_ms as int, 8),
            1,
        ),
{
    let parent: u32 = if sixteenth_ms < 8 { 8 } else { sixteenth_ms };
    map_plan_dues(anchor_due_ms, plan, parent, 1)
}

/// Tick-domain variant (parent step = `parent_ticks` clock ticks).
pub fn hit_due_ticks(anchor_due: u32, plan: &OrnamentPlan, parent_ticks: u32) -> (out: [u32; 3])
    requires
        plan.wf(),
    ensures
        holds_dues(out, anchor_due as int, *plan, parent_ticks as int, 1),
{
    map_plan_dues(anchor_due, plan, parent_ticks, 1)
}

pub fn scale_vel(parent: u16, hit: OrnamentHit) -> (r: u16)
    ensures
        r == min_int(parent * hit.vel_pct / 100, 4095),
{
    assert(0 <= parent * hit.vel_pct <= 65535 * 255) by (nonlinear_arith)
        requires
            parent <= 65535,
            hit.vel_pct <= 255,
    ;
    let v: u32 = parent as u32 * hit.vel_pct as u32 / 100;
    if v < 4095 {
        v as u16
    } else {
        4095
    }
}

// ---------------------------------------------------------------------------
// Melody plans and bass pitches
// ---------------------------------------------------------------------------

pub open spec fn saturate_u16(x: int) -> int {
    min_int(x, 65535)
}

/// Share of the phrase behind a step, in 600ths; kept to sixteen bits.
pub open spec fn phrase_share(phrase_step: int, phrase_len: int) -> int {
    if phrase_len == 0 { 0 } else { (phrase_step * 600 / phrase_len) as u16 as int }
}

/// Melody: chance gate from scale feel (no genre table).
pub fn contura_ornament_gate(
    feel_ornament: u16,
    express: u16,
    phrase_step: u8,
    phrase_len: u8,
    div: u32,
) -> (r: u16)
    ensures
        div < 4 ==> r == 0,
        div >= 4 ==> r == min_int(
            saturate_u16(
                saturate_u16(feel_ornament + express as int / 4) + phrase_share(
                    phrase_step as int,
                    phrase_len as int,
                ),
            ) / 4,
            2800,
        ),
{
    // Fine grids leave no room for clean sub-hit spacing.
    if div < 4 {
        return 0;
    }
    let phrase_t: u32 = if phrase_len == 0 {
        0
    } else {
        (phrase_step as u32 * 600) / phrase_len as u32
    };
    let base: u16 = feel_ornament.saturating_add(express / 4).saturating_add(phrase_t as u16);
    let v: u16 = base / 4;
    if v < 2800 {
        v
    } else {
        2800
    }
}

/// What kind a melody roll asks for.
pub open spec fn melody_kind(roll: int, rising: bool) -> Option<OrnamentKind> {
    let r = roll % 1000;
    if r < 280 {
        Some(OrnamentKind::Flam)
    } else if r < 520 {
        Some(OrnamentKind::Double)
    } else if r < 720 && rising {
        Some(OrnamentKind::Triplet)
    } else if r < 850 {
        Some(OrnamentKind::Double)
    } else {
        None
    }
}

/// Melody ornament kind from feel roll.
pub fn contura_pick_kind(roll: u16, rising: bool) -> (r: Option<OrnamentKind>)
    ensures
        r == melody_kind(roll as int, rising),
{
    let r: u16 = roll % 1000;
    if r < 280 {
        Some(OrnamentKind::Flam)
    } else if r < 520 {
        Some(OrnamentKind::Double)
    } else if r < 720 && rising {
        Some(OrnamentKind::Triplet)
    } else if r < 850 {
        Some(OrnamentKind::Double)
    } else {
        None
    }
}

/// Melody plan: same timing templates; pitch moves happen in the app.
pub fn contura_plan(roll: u16, rising: bool, gate: u16) -> (r: OrnamentPlan)
    ensures
        r.wf(),
        roll > gate || melody_kind(roll as int, rising) is None ==> is_single_main(r),
        roll <= gate ==> (melody_kind(roll as int, rising) matches Some(k) ==> is_template(r, k)),
{
    if roll > gate {
        return OrnamentPlan::single_main();
    }
    match contura_pick_kind(roll, rising) {
        Some(kind) => plan_for_kind(kind),
        None => OrnamentPlan::single_main(),
    }
}

/// The dues of a plan on the downbeat lie in the step and ascend strictly.
pub open spec fn dues_fit(plan: OrnamentPlan, parent_ticks: int) -> bool {
    let d = plan_dues(0, plan, parent_ticks, 1);
    &&& forall|i: int| 0 <= i < plan.len ==> 0 <= #[trigger] d[i] < parent_ticks
    &&& forall|i: int, j: int| 0 <= i < j < plan.len ==> #[trigger] d[i] < #[trigger] d[j]
}

/// True when quantized dues fit inside `parent_ticks` with strict ascent.
pub fn contura_plan_fits(plan: &OrnamentPlan, parent_ticks: u32) -> (r: bool)
    requires
        plan.wf(),
    ensures
        r == (plan.len <= 1 || parent_ticks >= 4),
        r && plan.len > 1 ==> dues_fit(*plan, parent_ticks as int),
{
    if plan.len <= 1 {
        return true;
    }
    if parent_ticks < 4 {
        return false;
    }
    let dues: [u32; 3] = hit_due_ticks(0, plan, parent_ticks);
    let ghost d = plan_dues(0, *plan, parent_ticks as int, 1);
    proof {
        four_ticks_fit_every_plan(*plan, parent_ticks as int);
    }
    assert(dues[0] == d[0]);
    assert(dues[1] == d[1]);
    assert(plan.len == 3 ==> dues[2] == d[2]);
    if dues[0] == u32::MAX || dues[1] == u32::MAX || (plan.len == 3 && dues[2] == u32::MAX) {
        return false;
    }
    if dues[1] <= dues[0] || (plan.len == 3 && dues[2] <= dues[1]) {
        return false;
    }
    true
}

/// Pitch of a bass sub-hit and whether it is a ghost.
pub open spec fn bass_pitch(
    main_note: int,
    vel_pct: int,
    is_main: bool,
    pocket: bool,
    roll: int,
) -> (int, bool) {
    let ghost_hit = vel_pct < 50;
    let below = max_int(main_note - 1, 0);
    if is_main {
        (main_note, false)
    } else if ghost_hit && roll < 40 {
        (below, true)
    } else if vel_pct < 45 && roll < 55 {
        (main_note, true)
    } else if roll % 5 == 0 && !pocket {
        (min_int(main_note + 12, 127), false)
    } else if roll % 5 == 1 {
        (below, ghost_hit)
    } else if roll % 5 == 2 {
        (min_int(main_note + 1, 127), ghost_hit)
    } else if roll % 5 == 3 {
        (main_note, false)
    } else {
        (max_int(main_note - 2, 1), ghost_hit)
    }
}

/// Bass pitch for a sub-hit (monophonic). `hit_idx` 0..plan.len. Chromatic or
/// repeat only: the caller may replace a neighbour with one of its scale.
pub fn bass_ornament_pitch(
    main_note: u8,
    hit: OrnamentHit,
    hit_idx: usize,
    plan: &OrnamentPlan,
    pocket: bool,
    roll: u8,
) -> (r: (u8, bool))
    requires
        plan.wf(),
    ensures
        (r.0 as int, r.1) == bass_pitch(
            main_note as int,
            hit.vel_pct as int,
            hit_idx == loudest(plan.hits@, plan.len as int),
            pocket,
            roll as int,
        ),
{
    let is_main = hit_idx == main_hit_index(plan);
    if is_main {
        return (main_note, false);
    }
    let ghost_hit = hit.vel_pct < 50;
    let below: u8 = main_note.saturating_sub(1);
    if ghost_hit && roll < 40 {
        return (below, true);
    }
    if hit.vel_pct < 45 && roll < 55 {
        return (main_note, true);  // dead note: gate shortened by caller
    }
    let turn: u8 = roll % 5;
    if turn == 0 && !pocket {
        let up: u8 = main_note.saturating_add(12);
        (if up < 127 { up } else { 127 }, false)
    } else if turn == 1 {
        (below, ghost_hit)
    } else if turn == 2 {
        let up: u8 = main_note.saturating_add(1);
        (if up < 127 { up } else { 127 }, ghost_hit)
    } else if turn == 3 {
        (main_note, false)
    } else {
        let down: u8 = main_note.saturating_sub(2);
        (if down < 1 { 1 } else { down }, ghost_hit)
    }
}

// ---------------------------------------------------------------------------
// Laws
// ---------------------------------------------------------------------------

/// With room for every strike, the dues ascend strictly and stay inside the
/// step.
pub proof fn quantized_ascends(perms: Seq<int>, parent: int, min_step: int)
    requires
        1 <= perms.len() <= 3,
        2 <= parent <= u32::MAX,
        (perms.len() - 1) * max_int(min_step, 1) <= parent - 1,
    ensures
        quantized(perms, parent, min_step).len() == perms.len(),
        forall|i: int|
            0 <= i < perms.len() ==> 0 <= #[trigger] quantized(perms, parent, min_step)[i] < parent,
        forall|i: int, j: int|
            0 <= i < j < perms.len() ==> #[trigger] quantized(perms, parent, min_step)[i]
                < #[trigger] quantized(perms, parent, min_step)[j],
{
    let cap = max_int(parent - 1, 1);
    let step = max_int(min_step, 1);
    let n = perms.len() as int;
    let raw = Seq::new(perms.len(), |i: int| due_of(perms[i], parent));
    let a1 = push_up(raw, step, cap);
    let a2 = pull_down(a1, step);
    let a3 = push_up(a2, step, cap);
    assert(n == 2 ==> (n - 1) * step == step) by (nonlinear_arith);
    assert(n == 3 ==> (n - 1) * step == 2 * step) by (nonlinear_arith);
    reveal_with_fuel(pushed, 4);
    reveal_with_fuel(pulled, 4);
    assert(0 <= raw[0] <= cap);
    assert(n > 1 ==> 0 <= raw[1] <= cap);
    assert(n > 2 ==> 0 <= raw[2] <= cap);
    assert(a1[0] == raw[0]);
    assert(n > 1 ==> 0 <= a1[1] <= cap);
    assert(n > 2 ==> 0 <= a1[2] <= cap);
    assert(a2[n - 1] == a1[n - 1]);
    assert(n > 1 ==> a2[n - 2] == min_int(a1[n - 2], max_int(a2[n - 1] - step, 0)));
    assert(n > 2 ==> a2[n - 3] == min_int(a1[n - 3], max_int(a2[n - 2] - step, 0)));
    assert(a3[0] == a2[0]);
    assert(n > 1 ==> a3[0] < a3[1] <= cap);
    assert(n > 2 ==> a3[1] < a3[2] <= cap);
    let q = quantized(perms, parent, min_step);
    assert(q == a3);
}

/// The strikes of a plan fall at strictly ascending dues inside the parent
/// step, wherever its anchor lies, as soon as the step has a unit for each.
pub proof fn dues_ascend(anchor: int, plan: OrnamentPlan, parent: int)
    requires
        plan.wf(),
        plan.len >= 1,
        2 <= parent <= u32::MAX,
        plan.len <= parent,
    ensures
        forall|i: int|
            0 <= i < plan.len ==> 0 <= #[trigger] plan_dues(anchor, plan, parent, 1)[i] < parent,
        forall|i: int, j: int|
            0 <= i < j < plan.len ==> #[trigger] plan_dues(anchor, plan, parent, 1)[i]
                < #[trigger] plan_dues(anchor, plan, parent, 1)[j],
{
    let perms = fitted(plan, min_int(anchor * 1000 / parent, 1000));
    quantized_ascends(perms, parent, 1);
    loudest_is_last_maximum(plan.hits@, plan.len as int);
    let q = quantized(perms, parent, 1);
    let m = loudest(plan.hits@, plan.len as int);
    assert(forall|i: int| 0 <= i < plan.len ==> 0 <= #[trigger] q[i] < parent);
    assert(forall|i: int, j: int| 0 <= i < j < plan.len ==> #[trigger] q[i] < #[trigger] q[j]);
    if (parent * perms[m] + 500) / 1000 == anchor {
        assert(parent * perms[m] >= 0) by {
            reveal_with_fuel(pushed, 4);
            assert(perms[m] >= 0);
            assert(parent * perms[m] >= 0) by (nonlinear_arith)
                requires
                    parent >= 0,
                    perms[m] >= 0,
            ;
        }
        assert(anchor >= 0);
    }
}

/// Whole units that already ascend inside the step are kept as they are.
pub proof fn ascending_dues_stay(perms: Seq<int>, parent: int)
    requires
        1 <= perms.len() <= 3,
        2 <= parent <= u32::MAX,
        forall|i: int| 0 <= i < perms.len() ==> 0 <= #[trigger] perms[i] <= 1000,
        forall|i: int| 0 <= i < perms.len() ==> parent * #[trigger] perms[i] / 1000 < parent,
        forall|i: int, j: int|
            0 <= i < j < perms.len() ==> parent * #[trigger] perms[i] / 1000 < parent
                * #[trigger] perms[j] / 1000,
    ensures
        quantized(perms, parent, 1) == Seq::new(perms.len(), |i: int| parent * perms[i] / 1000),
{
    let raw = Seq::new(perms.len(), |i: int| due_of(perms[i], parent));
    let units = Seq::new(perms.len(), |i: int| parent * perms[i] / 1000);
    assert forall|i: int| 0 <= i < perms.len() implies raw[i] == units[i] && raw[i] >= 0 by {
        assert(parent * perms[i] >= 0) by (nonlinear_arith)
            requires
                parent >= 0,
                perms[i] >= 0,
        ;
        assert(parent * perms[i] / 1000 < parent);
    }
    assert(raw =~= units);
    reveal_with_fuel(pushed, 4);
    reveal_with_fuel(pulled, 4);
    let n = perms.len();
    assert(n > 1 ==> parent * perms[0] / 1000 < parent * perms[1] / 1000);
    assert(n > 2 ==> parent * perms[1] / 1000 < parent * perms[2] / 1000);
    let cap = max_int(parent - 1, 1);
    assert(push_up(raw, 1, cap) =~= raw);
    assert(pull_down(raw, 1) =~= raw);
    assert(quantized(perms, parent, 1) =~= raw);
}

/// Every plan fits a step of four ticks or more.
pub proof fn four_ticks_fit_every_plan(plan: OrnamentPlan, parent_ticks: int)
    requires
        plan.wf(),
        plan.len >= 1,
        4 <= parent_ticks <= u32::MAX,
    ensures
        dues_fit(plan, parent_ticks),
{
    dues_ascend(0, plan, parent_ticks);
}

/// The main strike falls on the anchor when the whole plan fits: no strike has
/// to leave the step for it, the strikes have ascending dues, and those after
/// the main strike fall behind the anchor. Permilles resolve units only up to
/// five hundred per step.
pub proof fn main_lands_on_anchor(anchor: int, plan: OrnamentPlan, parent: int)
    requires
        plan.wf(),
        plan.len >= 1,
        2 <= parent <= 500,
        0 <= anchor < parent,
        ({
            let offs = offsets(plan);
            let m = loudest(plan.hits@, plan.len as int);
            let shift = anchor * 1000 / parent - offs[m];
            &&& offs[m] <= 1000
            &&& forall|i: int| 0 <= i < plan.len ==> 0 <= #[trigger] offs[i] + shift <= 1000
            &&& forall|i: int, j: int|
                0 <= i < j < plan.len ==> due_of(#[trigger] offs[i] + shift, parent) < due_of(
                    #[trigger] offs[j] + shift,
                    parent,
                )
            &&& forall|i: int| m < i < plan.len ==> due_of(#[trigger] offs[i] + shift, parent) > anchor
        }),
    ensures
        plan_dues(anchor, plan, parent, 1)[loudest(plan.hits@, plan.len as int)] == anchor,
{
    let offs = offsets(plan);
    let n = plan.len as int;
    let m = loudest(plan.hits@, n);
    loudest_is_last_maximum(plan.hits@, n);
    let ap = anchor * 1000 / parent;
    assert(0 <= ap < 1000) by (nonlinear_arith)
        requires
            ap == anchor * 1000 / parent,
            0 <= anchor < parent,
            parent <= 500,
    ;
    let shift = ap - offs[m];
    reveal_with_fuel(least, 4);
    reveal_with_fuel(greatest, 4);
    assert(0 <= offs[0] + shift <= 1000);
    assert(n > 1 ==> 0 <= offs[1] + shift <= 1000);
    assert(n > 2 ==> 0 <= offs[2] + shift <= 1000);
    assert(fit_shift(plan, ap) == shift);
    let moved = Seq::new(offs.len(), |i: int| offs[i] + shift);
    assert forall|i: int, j: int| 0 <= i < j < n implies moved[i] < moved[j] by {
        let (x, y) = (offs[i] + shift, offs[j] + shift);
        assert(due_of(x, parent) < due_of(y, parent));
        assert(x < y) by {
            if y <= x {
                assert(parent * y <= parent * x) by (nonlinear_arith)
                    requires
                        y <= x,
                        parent >= 0,
                ;
                due_is_small(x, parent);
                due_is_small(y, parent);
            }
        }
    }
    assert(moved =~= Seq::new(offs.len(), |i: int| clamp_int(offs[i] + shift, 0, 1000)));
    reveal_with_fuel(pushed, 4);
    reveal_with_fuel(pulled, 4);
    assert(n > 1 ==> moved[0] < moved[1]);
    assert(n > 2 ==> moved[1] < moved[2]);
    assert(fitted(plan, ap) =~= moved);
    let raw = Seq::new(moved.len(), |i: int| due_of(moved[i], parent));
    assert(n > 1 ==> raw[0] < raw[1]) by {
        assert(n > 1 ==> due_of(offs[0] + shift, parent) < due_of(offs[1] + shift, parent));
    }
    assert(n > 2 ==> raw[1] < raw[2]) by {
        assert(n > 2 ==> due_of(offs[1] + shift, parent) < due_of(offs[2] + shift, parent));
    }
    let cap = max_int(parent - 1, 1);
    assert(raw[0] >= 0) by {
        due_is_small(moved[0], parent);
    }
    assert(push_up(raw, 1, cap) =~= raw);
    assert(pull_down(raw, 1) =~= raw);
    assert(quantized(moved, parent, 1) =~= raw);
    assert(moved[m] == ap);
    assert(raw[m] == due_of(ap, parent));
    due_is_small(ap, parent);
    assert(parent * ap <= anchor * 1000 && anchor * 1000 < parent * ap + parent)
        by (nonlinear_arith)
        requires
            ap == anchor * 1000 / parent,
            parent > 0,
    ;
    assert((parent * ap + 500) / 1000 == anchor);
    assert(m > 0 ==> raw[m - 1] < raw[m] <= anchor);
    assert(m + 1 < n ==> raw[m + 1] > anchor) by {
        assert(m + 1 < n ==> due_of(offs[m + 1] + shift, parent) > anchor);
    }
}

proof fn due_is_small(perm: int, parent: int)
    requires
        0 <= perm <= 1000,
        2 <= parent <= 500,
    ensures
        0 <= parent * perm / 1000 <= 500,
        due_of(perm, parent) == min_int(parent * perm / 1000, parent - 1),
{
    assert(0 <= parent * perm <= 500 * 1000) by (nonlinear_arith)
        requires
            0 <= perm <= 1000,
            2 <= parent <= 500,
    ;
}

} // verus!
