//! Parameters read back as they were stored.

use faderpunk::apps::{
    heat_pump, hold_sam, lfo, loop_de_cay, manifold, ripppple, seq8, super_lfo, tb3po, vamp, venn,
};
use faderpunk::panel::{
    Color, MidiIn, MidiMode, MidiOut, ParamSlot, Range, SlotKind, Value, VoltPerOct,
};

const ALL: MidiOut = MidiOut { usb: true, out1: true, out2: false };

/// What the host makes of a stored value, whatever type is asked for.
fn slot(v: Value) -> ParamSlot {
    let mut s = ParamSlot {
        kind: SlotKind::Other,
        as_index: 0,
        as_int: 0,
        as_bool: false,
        as_color: Color::White,
        as_range: Range::V0To10,
        as_channel: 1,
        as_cc: 0,
        as_note: 0,
        as_midi_out: MidiOut { usb: false, out1: false, out2: false },
        as_midi_in: MidiIn { usb: false, din: false },
        as_midi_mode: MidiMode::Note,
        as_vpo: VoltPerOct::Standard,
    };
    match v {
        Value::Enum(i) => {
            s.kind = SlotKind::Enum;
            s.as_index = i;
        }
        Value::I32(i) => {
            s.kind = SlotKind::I32;
            s.as_int = i;
        }
        Value::Bool(b) | Value::MidiNrpn(b) => s.as_bool = b,
        Value::Color(c) => s.as_color = c,
        Value::Range(r) => s.as_range = r,
        Value::MidiChannel(c) => s.as_channel = c,
        Value::MidiCc(c) => s.as_cc = c,
        Value::MidiNote(n) => s.as_note = n,
        Value::MidiOut(o) => {
            s.kind = SlotKind::MidiOut;
            s.as_midi_out = o;
        }
        Value::MidiIn(i) => s.as_midi_in = i,
        Value::MidiMode(m) => s.as_midi_mode = m,
        Value::VoltPerOct(v) => s.as_vpo = v,
    }
    s
}

fn slots(values: &[Value]) -> Vec<ParamSlot> {
    values.iter().map(|v| slot(*v)).collect()
}

#[test]
fn heat_pump_params() {
    let p = heat_pump::Params {
        color: Color::Lime,
        range: Range::VNeg5To5,
        midi_channel: 9,
        midi_cc: 77,
        nrpn: true,
        midi_out: ALL,
        jack_mode: 1,
        dest: 2,
        cv_att: 33,
    };
    let s = slots(&p.to_values());
    assert_eq!(s.len(), heat_pump::PARAMS);
    assert_eq!(heat_pump::Params::from_values(&s), Some(p));
    assert_eq!(heat_pump::Params::from_values(&s[..5]), None);
    // Six values are an older list without jack settings.
    let old = heat_pump::Params::from_values(&s[..6]).unwrap();
    assert_eq!((old.color, old.jack_mode, old.dest, old.cv_att), (Color::Lime, 0, 0, 100));
    // Seven begin with a division.
    let mut seven = vec![slot(Value::Enum(3))];
    seven.extend_from_slice(&s[..6]);
    assert_eq!(heat_pump::Params::from_values(&seven), Some(old));
}

#[test]
fn hold_sam_params() {
    let p = hold_sam::Params {
        midi_mode: MidiMode::Cc,
        midi_channel: 4,
        midi_note: 61,
        midi_cc: 12,
        midi_out: ALL,
        color: Color::Rose,
        range: Range::V0To5,
        vpo: VoltPerOct::Buchla,
        bypass: true,
        att: 55,
        base_velocity: 90,
    };
    let s = slots(&p.to_values());
    assert_eq!(hold_sam::Params::from_values(&s), Some(p));
    assert_eq!(hold_sam::Params::from_values(&s[..10]), None);
    assert_eq!(p.attenuation(), 55);
}

#[test]
fn lfo_params() {
    let p = lfo::Params {
        speed_mult: 2,
        range: Range::V0To5,
        midi_out: ALL,
        midi_channel: 3,
        midi_cc: 5,
        nrpn: true,
        phase_lock: true,
    };
    let s = slots(&p.to_values());
    assert_eq!(lfo::Params::from_values(&s), Some(p));
    assert_eq!(lfo::Params::from_values(&[]), None);
}

#[test]
fn loop_de_cay_params() {
    let p = loop_de_cay::Params {
        mode: 3,
        midi_channel: 2,
        midi_in: MidiIn { usb: true, din: false },
        midi_out: ALL,
        midi_note: 48,
        span: 36,
        color: Color::Cyan,
        range: Range::V0To10,
        vpo: VoltPerOct::Buchla,
        decay_mode: 6,
    };
    let s = slots(&p.to_values());
    assert_eq!(loop_de_cay::Params::from_values(&s), Some(p));
    assert_eq!(loop_de_cay::Params::from_values(&[]), None);
}

#[test]
fn manifold_params() {
    let p = manifold::Params {
        mode_b: manifold::Mode::Trigger,
        range_c: Range::V0To10,
        lfo_speed_mult: 2,
        midi_out: ALL,
        midi_cc: 99,
        ch_map: 0x1234,
        cc_map: 4321,
        mode_map: 5,
        ..manifold::Params::with_channel(7)
    };
    let s = slots(&p.to_values());
    assert_eq!(s.len(), manifold::PARAMS);
    assert_eq!(manifold::Params::from_values(&s, 1), Some(p));
    assert_eq!(manifold::Params::from_values(&[], 1), None);
}

#[test]
fn ripppple_params() {
    let p = ripppple::Params {
        target_b: 2,
        target_d: 1,
        range_d: Range::V0To10,
        midi_out: ALL,
        midi_cc: 9,
        ch_map: 0x4321,
        cc_map: 1234,
        ..ripppple::Params::with_channel(2)
    };
    let s = slots(&p.to_values());
    assert_eq!(ripppple::Params::from_values(&s, 1), Some(p));
    assert_eq!(ripppple::Params::from_values(&[], 1), None);
}

#[test]
fn seq8_params() {
    let p = seq8::Params {
        midi_channel1: 5,
        midi_channel2: 6,
        midi_channel3: 7,
        midi_channel4: 8,
        midi_out: ALL,
        vel_lane_2: true,
        vel_lane_4: false,
        transpose_midi_in: MidiIn { usb: false, din: true },
        transpose_ch1: 9,
        transpose_ch2: 10,
        transpose_ch3: 11,
        transpose_ch4: 12,
        vpo: VoltPerOct::Buchla,
        bypass: true,
    };
    let s = slots(&p.to_values());
    assert_eq!(seq8::Params::from_values(&s), Some(p));
    assert_eq!(seq8::Params::from_values(&[]), None);
}

#[test]
fn super_lfo_params() {
    let p = super_lfo::Params {
        speed_mult: 3,
        range: Range::V0To10,
        midi_out: ALL,
        midi_channel: 2,
        midi_cc: 3,
        color: Color::Violet,
        nrpn: false,
        phase_lock: true,
        mix_mode: 2,
        osc_b: 1,
        mix_balance: 70,
    };
    let s = slots(&p.to_values());
    assert_eq!(super_lfo::Params::from_values(&s), Some(p));
    assert_eq!(super_lfo::Params::from_values(&[]), None);
}

#[test]
fn tb3po_params() {
    let p = tb3po::Params {
        color: Color::Green,
        vpo: VoltPerOct::Buchla,
        ..tb3po::Params::with_defaults(11, ALL)
    };
    let s = slots(&p.to_values());
    assert_eq!(tb3po::Params::from_values(&s), Some(p));
    assert_eq!(tb3po::Params::from_values(&s[..3]), None);
}

#[test]
fn vamp_params() {
    let p = vamp::Params {
        midi_out: ALL,
        midi_channel: 3,
        root: 50,
        scale: 4,
        genre: 5,
        voicing: 3,
        velocity: 99,
        auto_style: 1,
        start_mode: 1,
        capture_len: 2,
        color: Color::Pink,
        cv_jack: 1,
        range: Range::V0To5,
        vpo: VoltPerOct::Buchla,
        cv_dest: 1,
        cv_att: 40,
    };
    let s = slots(&p.to_values());
    assert_eq!(s.len(), vamp::PARAMS);
    assert_eq!(vamp::Params::from_values(&s), Some(p));
    assert_eq!(vamp::Params::from_values(&[]), None);
}

#[test]
fn venn_params() {
    let p = venn::Params {
        note_a: 40,
        interval_b: 3,
        division: 2,
        gatel: 80,
        prob: 60,
        vel: 20,
        color: Color::Rose,
        follow_tonic: false,
        ..venn::Params::with_defaults(6, ALL)
    };
    let s = slots(&p.to_values());
    assert_eq!(venn::Params::from_values(&s), Some(p));
    assert_eq!(venn::Params::from_values(&[]), None);
}
