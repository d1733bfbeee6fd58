//! What the distributor promises: gates above a threshold, triggers on an edge,
//! voltages moved by an offset.

use crate::apps::manifold::{
    cv_aim, edge_acts, fader_of_pulse, pulse_of, release_level, Comparator, Edge, Manifold, Mode,
    Storage,
};
use crate::panel::{Act, LatchLayer};
use vstd::prelude::*;

verus! {

/// A gate that is down goes up when the input passes the threshold, and only
/// then; one that is up, and has been for its minimum length, goes down when
/// the input is back at the threshold less the hysteresis, and only then.
pub proof fn gates_compare_with_the_threshold(
    c: Comparator,
    input: int,
    threshold: int,
    hyst: int,
    ms: int,
)
    requires
        0 <= hyst <= threshold,
        1 <= ms <= 65535,
    ensures
        ({
            let (n, edge) = c.gate_stepped(false, input, threshold, hyst, ms);
            &&& !c.high ==> (n.high <==> input > threshold)
            &&& !c.high ==> (edge == Edge::Up <==> input > threshold)
            &&& !c.high && input > threshold ==> n.pulse_left == ms - 1
            &&& c.high && c.pulse_left == 0 ==> (n.high <==> input > threshold - hyst)
            &&& c.high && c.pulse_left == 0 ==> (edge == Edge::Down <==> input <= threshold - hyst)
            &&& edge == Edge::Stay ==> n.high == c.high
        }),
{
}

/// Muted, an output is down: one that was up falls at once and none rises.
pub proof fn muted_outputs_are_down(
    c: Comparator,
    input: int,
    threshold: int,
    hyst: int,
    ms: int,
)
    ensures
        ({
            let (n, edge) = c.gate_stepped(true, input, threshold, hyst, ms);
            &&& !n.high
            &&& edge == Edge::Down <==> c.high
            &&& edge != Edge::Up
        }),
        ({
            let (n, edges) = c.trigger_stepped(true, input, threshold, hyst, ms);
            &&& !n.high && n.pulse_left == 0
            &&& edges.len() > 0 <==> c.pulse_left > 0
            &&& edges.len() > 0 ==> edges == seq![Edge::Down]
        }),
{
}

/// A trigger fires when the input passes the threshold from below, and not
/// again before it has been back below the lower threshold.
pub proof fn triggers_fire_once_an_edge(
    c: Comparator,
    input: int,
    threshold: int,
    hyst: int,
    ms: int,
)
    requires
        0 <= hyst <= threshold,
        2 <= ms <= 65535,
    ensures
        ({
            let (n, edges) = c.trigger_stepped(false, input, threshold, hyst, ms);
            &&& edges.len() > 0 && edges[0] == Edge::Up <==> !c.high && input > threshold
            &&& !c.high && input > threshold ==> n.high && n.pulse_left == ms - 1
            &&& c.high && input > threshold - hyst ==> n.high
            &&& c.high && input <= threshold - hyst ==> !n.high
            &&& !c.high && input <= threshold ==> !n.high
        }),
{
}

/// The lower threshold lies the hysteresis below, but not below zero.
pub proof fn hysteresis_lies_below(threshold: int, hyst: int)
    requires
        0 <= threshold,
        0 <= hyst,
    ensures
        hyst <= threshold ==> release_level(threshold, hyst) == threshold - hyst,
        hyst > threshold ==> release_level(threshold, hyst) == 0,
{
}

/// A voltage output aims for the attenuated input moved by the offset from the
/// middle, inside the range; muted, for the offset alone.
pub proof fn voltages_are_moved_by_the_offset(atten: int, offset: int)
    requires
        0 <= atten <= 4095,
        0 <= offset <= 4095,
    ensures
        cv_aim(false, atten, 2047) == atten,
        0 <= atten + (offset - 2047) <= 4095 ==> cv_aim(false, atten, offset) - atten == offset - 2047,
        atten + (offset - 2047) < 0 ==> cv_aim(false, atten, offset) == 0,
        atten + (offset - 2047) > 4095 ==> cv_aim(false, atten, offset) == 4095,
        cv_aim(true, atten, offset) == offset,
{
}

/// Pulses go from one millisecond to a hundred in even steps of the fader.
pub proof fn pulses_are_divided_evenly(v: int)
    requires
        0 <= v <= 4095,
    ensures
        0 <= 99 * v - 4095 * (pulse_of(v) - 1) < 4095,
        fader_of_pulse(1) == 0,
        fader_of_pulse(100) == 4095,
{
}

/// An output does what its mode says: a voltage goes to its jack, a rising edge
/// raises its jack and a falling one lowers it.
pub proof fn outputs_follow_their_mode(s: Manifold, i: int, input: int, cv: u16, th: int, hyst: int)
    requires
        0 <= i < 3,
        s.store.pulse[i] <= 4095,
        0 <= hyst <= th,
    ensures
        ({
            let (c, level, acts) = s.driven(i, input, cv, th, hyst);
            let jack = (i + 1) as usize;
            let p = s.comps[i];
            &&& s.modes[i] == Mode::Cv ==> level == cv && acts == seq![Act::Cv { jack, val: cv }]
            &&& s.modes[i] == Mode::Gate ==> {
                &&& level == 4095 <==> c.high
                &&& level == 0 <==> !c.high
                &&& !s.store.muted[i] && !p.high && input > th ==> acts == seq![
                    Act::GateHigh { jack },
                ]
                &&& !s.store.muted[i] && !p.high && input <= th ==> acts.len() == 0
                &&& !s.store.muted[i] && p.high && p.pulse_left == 0 && input <= th - hyst ==> acts
                    == seq![Act::GateLow { jack }]
                &&& s.store.muted[i] && p.high ==> acts == seq![Act::GateLow { jack }]
            }
            &&& s.modes[i] == Mode::Trigger && !s.store.muted[i] && !p.high && input > th ==> {
                &&& acts.len() > 0
                &&& acts[0] == (Act::GateHigh { jack })
            }
        }),
{
    let jack = (i + 1) as usize;
    let ms = pulse_of(s.store.pulse[i] as int);
    let p = s.comps[i];
    assert forall|e: Edge| #[trigger] edge_acts(jack, seq![e]) == if e == Edge::Up {
        seq![Act::GateHigh { jack }]
    } else if e == Edge::Down {
        seq![Act::GateLow { jack }]
    } else {
        Seq::empty()
    } by {
        assert(seq![e].drop_last() =~= Seq::<Edge>::empty());
        assert(edge_acts(jack, Seq::<Edge>::empty()) =~= Seq::<Act>::empty());
        assert(edge_acts(jack, seq![e]) =~= if e == Edge::Up {
            seq![Act::GateHigh { jack }]
        } else if e == Edge::Down {
            seq![Act::GateLow { jack }]
        } else {
            Seq::empty()
        });
    }
    if s.modes[i] == Mode::Trigger && !s.store.muted[i] && !p.high && input > th {
        let edges = p.trigger_stepped(false, input, th, hyst, ms).1;
        if ms == 1 {
            assert(edges =~= seq![Edge::Up, Edge::Down]);
            assert(edges.drop_last() =~= seq![Edge::Up]);
            assert(edges.last() == Edge::Down);
            assert(edge_acts(jack, seq![Edge::Up]) == seq![Act::GateHigh { jack }]);
            assert(edge_acts(jack, edges) =~= seq![Act::GateHigh { jack }, Act::GateLow { jack }]);
        } else {
            assert(edges =~= seq![Edge::Up]);
        }
    }
}

/// A note sounds while its output is up: it starts when a level appears and
/// ends when it is gone.
pub proof fn notes_follow_their_level(s: Manifold, wave: int, level: u16)
    requires
        0 <= wave < 4,
    ensures
        s.note_edge(wave, level) == Edge::Up <==> level > 0 && !s.sounding[wave],
        s.note_edge(wave, level) == Edge::Down <==> level == 0 && s.sounding[wave],
{
}

/// The faders of the outputs set what their mode needs: attenuation, offset and
/// slew of a voltage; threshold, hysteresis and pulse of a gate or trigger.
pub proof fn output_faders_set_what_the_mode_needs(s: Storage, active: bool, i: int)
    requires
        0 <= i < 3,
    ensures
        s.layer_value(active, i + 1, Mode::Cv, LatchLayer::Main) == s.att[i],
        s.layer_value(active, i + 1, Mode::Cv, LatchLayer::Alt) == s.offset[i],
        s.layer_value(active, i + 1, Mode::Cv, LatchLayer::Third) == s.slew[i],
        s.layer_value(active, i + 1, Mode::Gate, LatchLayer::Main) == s.threshold[i],
        s.layer_value(active, i + 1, Mode::Gate, LatchLayer::Alt) == s.hysteresis[i],
        s.layer_value(active, i + 1, Mode::Gate, LatchLayer::Third) == s.pulse[i],
        s.layer_value(active, i + 1, Mode::Trigger, LatchLayer::Main) == s.threshold[i],
        s.layer_value(active, i + 1, Mode::Trigger, LatchLayer::Third) == s.pulse[i],
        s.layer_value(true, 0, Mode::Cv, LatchLayer::Main) == s.lfo_speed,
        s.layer_value(false, 0, Mode::Cv, LatchLayer::Main) == s.in_trim,
        s.layer_value(false, 0, Mode::Cv, LatchLayer::Alt) == s.in_offset,
        s.layer_value(false, 0, Mode::Cv, LatchLayer::Third) == s.in_slew,
{
}

/// The modes cycle from voltage to gate to trigger.
pub proof fn modes_keep_their_order()
    ensures
        Mode::Cv.after() == Mode::Gate,
        Mode::Gate.after() == Mode::Trigger,
        Mode::Trigger.after() == Mode::Cv,
        Mode::at(0) == Mode::Cv,
        Mode::at(1) == Mode::Gate,
        Mode::at(2) == Mode::Trigger,
{
}

} // verus!
