//! The layout, the USB descriptors, the panic beacon and the frequency meter.

use faderpunk::layout::{AppSlot, LayoutEntry, LayoutManager};
use faderpunk::tasks::panic_beacon::{file_hash, PanicRecord, CC_FILE_0, CC_LINE_HI, CC_MARKER};
use faderpunk::tasks::transport::{serial_number, UsbConnection};
use faderpunk::tasks::voct_freq::{EdgeLog, MeterPhase, PeriodMeter};
use faderpunk::usb_midi::{JackNameHandler, MidiClass};

fn entry(app_id: u8, start_channel: usize, channels: usize) -> LayoutEntry {
    LayoutEntry { app_id, start_channel, channels, layout_id: app_id + 100 }
}

/// Run a layout change to its end; returns what exited and what was spawned.
fn reconcile(m: &mut LayoutManager, entries: &Vec<LayoutEntry>, hold: bool) -> (Vec<u8>, Vec<u8>) {
    let mut run = m.spawn_layout(entries);
    let (mut out, mut spawned) = (Vec::new(), Vec::new());
    while let Some((_, id)) = m.next_exit(&mut run) {
        out.push(id);
    }
    m.begin_spawns(&mut run, hold);
    while let Some((c, slot)) = m.next_spawn(&mut run) {
        spawned.push(slot.app_id);
        m.spawned(&mut run, c, slot, true);
    }
    (out, spawned)
}

#[test]
fn layouts_are_reconciled() {
    let mut m = LayoutManager::new();
    let first = vec![entry(1, 0, 1), entry(2, 4, 2)];
    assert_eq!(reconcile(&mut m, &first, false), (vec![], vec![1, 2]));
    assert_eq!(m.running(), 2);
    assert_eq!(reconcile(&mut m, &first, false), (vec![], vec![]));
    let second = vec![entry(1, 0, 1), entry(3, 4, 2)];
    assert_eq!(reconcile(&mut m, &second, false), (vec![2], vec![3]));
    assert_eq!(m.respawn_all(), vec![(0, 1), (4, 3)]);
    assert_eq!(m.running(), 0);
}

#[test]
fn held_channels_stay_free() {
    let mut m = LayoutManager::new();
    m.set_held(4, true);
    let entries = vec![entry(1, 0, 1), entry(2, 4, 2)];
    assert_eq!(reconcile(&mut m, &entries, false), (vec![], vec![1]));
    m.set_held(4, false);
    assert_eq!(reconcile(&mut m, &entries, false), (vec![], vec![2]));
}

#[test]
fn apps_come_and_go() {
    let mut m = LayoutManager::new();
    assert!(m.spawn_one(3, 9, 1, 2));
    assert!(!m.spawn_one(3, 8, 1, 2));
    assert_eq!(m.layout[3], Some(AppSlot { app_id: 9, channels: 1, layout_id: 2 }));
    assert_eq!(m.exit_app(3), Some(9));
    assert_eq!(m.exit_app(3), None);
}

#[test]
fn spawns_are_staggered() {
    let mut m = LayoutManager::new();
    let entries: Vec<LayoutEntry> = (0..12).map(|i| entry(i as u8, i, 1)).collect();
    let mut run = m.spawn_layout(&entries);
    assert_eq!(m.next_exit(&mut run), None);
    assert_eq!(m.begin_spawns(&mut run, false), 12);
    assert!(!run.gate);
    let mut waits = Vec::new();
    while let Some((c, slot)) = m.next_spawn(&mut run) {
        waits.push(m.spawned(&mut run, c, slot, true).0);
    }
    assert_eq!(waits, [250, 250, 250, 250, 250, 500, 500, 500, 500, 800, 800, 800]);
    let end = m.finish(&run);
    assert_eq!((end.settle_ms, end.unmute, end.soft_mute, end.open_gate), (800, true, true, false));
}

#[test]
fn held_pushes_start_together() {
    let mut m = LayoutManager::new();
    let entries: Vec<LayoutEntry> = (0..4).map(|i| entry(i as u8, i, 1)).collect();
    let mut run = m.spawn_layout(&entries);
    m.next_exit(&mut run);
    m.begin_spawns(&mut run, true);
    assert!(run.gate);
    let mut waits = Vec::new();
    while let Some((c, slot)) = m.next_spawn(&mut run) {
        waits.push(m.spawned(&mut run, c, slot, true));
    }
    assert_eq!(waits, [(700, 0), (700, 0), (700, 2000), (700, 0)]);
    let end = m.finish(&run);
    assert_eq!((end.settle_ms, end.unmute, end.soft_mute, end.open_gate), (400, false, false, true));
    // A spawn that fails changes nothing.
    let mut n = LayoutManager::new();
    let mut run = n.spawn_layout(&entries);
    let slot = AppSlot { app_id: 0, channels: 1, layout_id: 0 };
    assert_eq!(n.spawned(&mut run, 0, slot, false), (250, 0));
    assert!(!run.changed);
}

#[test]
fn jack_names_are_kept() {
    let mut h = JackNameHandler::new();
    for i in 0..16 {
        assert!(h.register(i, if i == 3 { "three" } else { "other" }));
    }
    assert!(!h.register(99, "late"));
    assert_eq!(h.get_string(3), Some("three"));
    assert_eq!(h.get_string(99), None);
}

#[test]
fn midi_descriptors() {
    let c = MidiClass::new(0, 1, 2, 64, &vec![5, 6]);
    assert_eq!(c.max_packet_size(), 64);
    assert_eq!(c.control_header, [1, 0, 1, 9, 0, 1, 1]);
    assert_eq!(c.streaming_header, [1, 0, 1, 77, 0]);
    assert_eq!(c.jacks.len(), 6);
    assert_eq!(c.jacks[0], [2, 2, 1, 0]);
    assert_eq!(c.jacks[1], [2, 1, 4, 5]);
    assert_eq!(c.jacks[2], [2, 1, 6, 6]);
    assert_eq!(c.jacks[3], [3, 2, 3, 1, 4, 1, 0]);
    assert_eq!(c.jacks[5], [3, 1, 2, 1, 1, 1, 5]);
    assert_eq!(c.endpoint_out, [1, 2, 4, 6]);
    assert_eq!(c.endpoint_in, [1, 1, 2]);
    // The announced length is that of everything that follows.
    let total: usize = 7
        + c.jacks.iter().map(|j| j.len() + 2).sum::<usize>()
        + 7
        + c.endpoint_out.len() + 2
        + 7
        + c.endpoint_in.len() + 2;
    assert_eq!(total, 77);
}

#[test]
fn beacon_spells_the_panic() {
    let mut p = PanicRecord::new();
    assert_eq!(p.beacon(), None);
    assert_eq!(file_hash(""), 0x811c_9dc5 % 0x20_0000);
    assert_eq!(file_hash("a"), 0xe40c_292c % 0x20_0000);
    p.record("a", 300);
    let b = p.beacon().unwrap();
    assert_eq!((b[0], b[1], b[2]), ((CC_MARKER, 127), (111, 44), (CC_LINE_HI, 2)));
    let back = u32::from(b[3].1) + 128 * u32::from(b[4].1) + 16384 * u32::from(b[5].1);
    assert_eq!((b[3].0, back), (CC_FILE_0, file_hash("a")));
}

#[test]
fn serial_is_the_chip_id() {
    assert_eq!(&serial_number(0x0123_4567_89ab_cdef), b"0123456789ABCDEF");
    assert_eq!(&serial_number(0), b"0000000000000000");
}

#[test]
fn usb_connection_state() {
    let mut u = UsbConnection::new();
    u.configured(true);
    assert!(u.connected);
    u.suspended(true);
    assert!(!u.connected);
    u.suspended(false);
    assert!(u.connected);
    u.reset();
    assert!(!u.connected);
}

#[test]
fn meter_sums_the_fine_periods() {
    let mut m = PeriodMeter::new();
    let mut now = 5;
    let mut result = None;
    let mut edges = 0;
    while result.is_none() {
        result = m.on_edge(now);
        now += 1000;
        edges += 1;
        assert!(edges < 1000);
    }
    assert_eq!(result, Some(256_000));
    assert_eq!(edges, 9 + 257);
    assert_eq!((m.phase, m.lo, m.hi), (MeterPhase::Done, 600, 1500));
}

#[test]
fn steady_signals_take_as_many_edges() {
    for period in [100, 101, 2273, 99_999, 100_000] {
        let mut m = PeriodMeter::new();
        for n in 0..265 {
            assert_eq!(m.on_edge(7 + n * period), None);
        }
        assert_eq!(m.on_edge(7 + 265 * period), Some(256 * period));
    }
}

#[test]
fn meter_rejects_glitches() {
    let mut m = PeriodMeter::new();
    m.on_edge(0);
    m.on_edge(50);
    assert_eq!((m.valid, m.last_edge), (0, 0));
    m.on_edge(200_000);
    assert_eq!((m.valid, m.last_edge), (0, 200_000));
    m.on_edge(201_000);
    assert_eq!((m.valid, m.total_us), (1, 1000));
}

#[test]
fn edge_log_counts() {
    let mut l = EdgeLog::new(0);
    assert_eq!(l.on_edge(1000), Some(1000));
    assert_eq!(l.on_edge(1050), None);
    assert_eq!(l.on_edge(3050), Some(2000));
    assert_eq!((l.accepted, l.rejected, l.min_us, l.max_us), (2, 1, 1000, 2000));
}
