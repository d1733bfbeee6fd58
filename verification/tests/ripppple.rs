//! The cascade of oscillators.

use faderpunk::apps::ripppple::{
    ch0_color, mute_level, paint_buttons, ripppple_color, stage_shape, Dest, Params, Ripppple,
    Storage,
};
use faderpunk::panel::{Act, Brightness, Color, LatchLayer, Led, MidiOut, Range};

fn params() -> Params {
    Params {
        midi_out: MidiOut { usb: true, out1: false, out2: false },
        target_c: 1,
        target_d: 2,
        ..Params::with_channel(3)
    }
}

fn app() -> Ripppple {
    Ripppple::new(params(), Storage::default(), 0, 0).0
}

#[test]
fn ripppple_colours() {
    assert_eq!(ripppple_color(1), Color::Custom(0, 0, 255));
    assert_eq!(ripppple_color(9), ripppple_color(4));
    assert_eq!((ch0_color(true), ch0_color(false)), (ripppple_color(1), ripppple_color(0)));
    assert_eq!(ripppple_color(0), Color::Custom(0, 160, 255));
}

#[test]
fn destinations_go_round() {
    for v in 0..3 {
        let d = Dest::from_u8(v);
        assert_eq!(d.as_u8(), v);
        assert_eq!(d.next().next().next(), d);
        assert_eq!(d.color(), ripppple_color(v as usize + 2));
    }
    assert_eq!(Dest::from_u8(200), Dest::Rate);
}

#[test]
fn shapes_and_mutes() {
    assert_eq!(stage_shape(1000, Dest::Shape, 500), 1500);
    assert_eq!(stage_shape(1000, Dest::Shape, -4096), 0);
    assert_eq!(stage_shape(4000, Dest::Shape, 4096), 4095);
    assert_eq!(stage_shape(1000, Dest::Rate, 500), 1000);
    assert_eq!((mute_level(3000, 4095), mute_level(3000, 0), mute_level(3000, 2048)), (3000, 0, 1500));
}

#[test]
fn ripppple_layers_do_not_mix() {
    let mut s = Storage::default();
    let layers = [LatchLayer::Main, LatchLayer::Alt, LatchLayer::Third];
    let mut v = 1;
    for chan in 0..4 {
        for layer in layers {
            s.set_layer(chan, layer, v);
            v += 1;
        }
    }
    v = 1;
    for chan in 0..4 {
        for layer in layers {
            assert_eq!(s.get_layer(chan, layer), v);
            v += 1;
        }
    }
    assert_eq!((s.symmetry, s.shape), (12, [6, 9, 0]));
}

#[test]
fn ripppple_starts_with_its_targets() {
    let (a, acts) = Ripppple::new(params(), Storage::default(), 0, 0);
    assert_eq!(a.store.dest, [0, 1, 2]);
    assert_eq!(a.ccs, [32, 33, 34, 35]);
    assert_eq!(acts, paint_buttons(ripppple_color(1), &[0, 1, 2], false, &[false; 3]));
    assert_eq!(
        acts[3],
        Act::Light {
            chan: 3,
            led: Led::Button,
            color: Dest::Shape.color(),
            bright: Brightness::Mid
        }
    );
    assert_eq!((params().channel_for(2), params().cc_for(2, false)), (3, 34));
    assert_eq!(params().range_of(1), Range::VNeg5To5);
}

#[test]
fn root_and_mirror() {
    let mut a = app();
    a.begin_sample(1000, 1);
    assert!(!a.active);
    assert_eq!(a.on_root(5), 5);
    assert_eq!(a.midi_slot, 1);
    assert_eq!(a.mirror(0, 9, 9), vec![]);
    assert_eq!(a.mirror(1, 9, 9), vec![Act::Cc { out: 1, cc: 33, val: 9 }]);
    assert_eq!(a.mirror(1, 10, 9), vec![]);
    a.held = true;
    assert_eq!(a.on_root(6), 6);
    assert_eq!(a.on_root(7), 6);
}

#[test]
fn stages_show_their_level() {
    let mut a = app();
    assert_eq!(
        a.on_stage(0, 700),
        vec![
            Act::Cv { jack: 1, val: 700 },
            Act::Meter {
                chan: 1,
                color: Dest::Rate.color(),
                level: 700,
                top_floor: 0,
                bottom_floor: 0
            },
        ]
    );
    a.store.muted[0] = true;
    assert_eq!(a.on_stage(0, 0).len(), 3);
    assert!(!a.paint_frame(9).is_empty());
}

#[test]
fn ripppple_presses() {
    let mut a = app();
    a.on_down(1, 0);
    let (acts, wait) = a.on_long(1, false);
    assert_eq!(
        acts,
        vec![
            Act::Save,
            Act::Flash { chan: 1, led: Led::Button, color: Dest::Depth.color(), times: 4 }
        ]
    );
    assert_eq!((wait, a.store.dest[0], a.params.target_b, a.btn_flash[1]), (None, 1, 1, 848));
    assert_eq!(a.on_up(1, false), vec![]);
    a.on_down(1, 0);
    let (_, wait) = a.on_long(1, true);
    assert_eq!(wait, Some(580));
    assert_eq!(a.on_range_swap(1), vec![Act::Save, Act::Restart]);
    assert_eq!((a.params.range_b, a.params.range_c), (Range::V0To10, Range::VNeg5To5));
    a.on_down(2, 0);
    a.on_up(2, false);
    assert_eq!(a.store.muted, [false, true, false]);
    a.on_down(2, 0);
    a.on_up(2, false);
    assert_eq!(a.store.muted, [false; 3]);
    a.on_down(0, 0);
    assert_eq!(a.on_up(0, true).len(), 2);
    assert!(a.store.lfo_clocked);
    a.on_down(0, 0);
    a.on_fader_move(0, 65, false, true);
    assert_eq!(a.on_up(0, false), vec![]);
    assert!(!a.held);
}

#[test]
fn ripppple_fader_and_scene() {
    let mut a = app();
    assert_eq!(a.fader_target(3, LatchLayer::Third), 2048);
    assert_eq!(a.on_fader(3, LatchLayer::Third, 9), vec![Act::Save]);
    assert_eq!(a.store.symmetry, 9);
    let acts = a.on_scene(Storage { muted: [true; 3], ..Storage::default() });
    assert_eq!(acts[1], Act::Dark { chan: 1, led: Led::Button });
}
