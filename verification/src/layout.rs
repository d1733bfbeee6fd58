//! Which app runs on which channel, and how a new layout is reached.
//!
//! Reconciling is a conversation with the executor: the manager says which app
//! to exit or spawn next and how long to pause; the caller does it and reports
//! back.

use vstd::prelude::*;

verus! {

/// Channels of the instrument.
pub const GLOBAL_CHANNELS: usize = 16;

/// Gap between successive app spawns so USB MIDI stays responsive (ms).
pub const SPAWN_STAGGER_MS: u64 = 250;
pub const SPAWN_STAGGER_DENSE_MS: u64 = 500;
pub const SPAWN_STAGGER_VERY_DENSE_MS: u64 = 800;
/// Paced spawn while the host holds the performance mute.
pub const SPAWN_STAGGER_RELEASE_MS: u64 = 700;
pub const SPAWN_STAGGER_RELEASE_DENSE_MS: u64 = 1100;
pub const SPAWN_STAGGER_RELEASE_TAIL_MS: u64 = 1600;
/// Extra quiet every so many spawns under the hold.
pub const SPAWN_RELEASE_BREATH_EVERY: usize = 3;
pub const SPAWN_RELEASE_BREATH_MS: u64 = 2000;
pub const SPAWN_DENSE_THRESHOLD: usize = 6;
pub const SPAWN_VERY_DENSE_THRESHOLD: usize = 10;
pub const SPAWN_TAIL_THRESHOLD: usize = 8;
/// Time for exited tasks to free their slots.
pub const EXIT_SETTLE_MS: u64 = 400;
/// Pauses around the start gate.
pub const GATE_CLOSE_MS: u64 = 400;
pub const GATE_OPEN_BEFORE_MS: u64 = 200;
pub const GATE_OPEN_AFTER_MS: u64 = 600;

/// A scoped request to evict or restore a single channel's app without
/// touching the persisted layout.
#[derive(Clone, Copy, Debug, PartialEq, Eq, Structural)]
pub enum EvictionCmd {
    /// Exit whatever app is running on this start channel, if any.
    Evict(usize),
    /// Respawn (app_id, channels, layout_id) on this start channel.
    Restore(usize, u8, usize, u8),
}

/// An app in the layout.
#[derive(Clone, Copy, Debug, PartialEq, Eq, Structural)]
pub struct AppSlot {
    pub app_id: u8,
    pub channels: usize,
    pub layout_id: u8,
}

/// An app and where it starts.
#[derive(Clone, Copy, Debug, PartialEq, Eq, Structural)]
pub struct LayoutEntry {
    pub app_id: u8,
    pub start_channel: usize,
    pub channels: usize,
    pub layout_id: u8,
}

impl LayoutEntry {
    pub open spec fn slot(self) -> AppSlot {
        AppSlot { app_id: self.app_id, channels: self.channels, layout_id: self.layout_id }
    }
}

/// The last of the first `n` entries that starts on channel `c`.
pub open spec fn wanted_at(entries: Seq<LayoutEntry>, n: int, c: int) -> Option<AppSlot>
    decreases n,
{
    if n <= 0 {
        None
    } else if entries[n - 1].start_channel == c {
        Some(entries[n - 1].slot())
    } else {
        wanted_at(entries, n - 1, c)
    }
}

/// Number of channels below `n` with an app.
pub open spec fn occupied(layout: Seq<Option<AppSlot>>, n: int) -> int
    decreases n,
{
    if n <= 0 {
        0
    } else {
        occupied(layout, n - 1) + if layout[n - 1] is Some { 1int } else { 0 }
    }
}

/// Number of channels below `n` that want an app and have none.
pub open spec fn missing(
    layout: Seq<Option<AppSlot>>,
    desired: Seq<Option<AppSlot>>,
    n: int,
) -> int
    decreases n,
{
    if n <= 0 {
        0
    } else {
        missing(layout, desired, n - 1) + if layout[n - 1] is None && desired[n - 1] is Some {
            1int
        } else {
            0
        }
    }
}

/// Pause after a spawn that leaves `running` apps.
pub open spec fn stagger(hold: bool, running: int) -> u64 {
    if hold {
        if running >= SPAWN_TAIL_THRESHOLD {
            SPAWN_STAGGER_RELEASE_TAIL_MS
        } else if running >= SPAWN_DENSE_THRESHOLD {
            SPAWN_STAGGER_RELEASE_DENSE_MS
        } else {
            SPAWN_STAGGER_RELEASE_MS
        }
    } else if running >= SPAWN_VERY_DENSE_THRESHOLD {
        SPAWN_STAGGER_VERY_DENSE_MS
    } else if running >= SPAWN_DENSE_THRESHOLD {
        SPAWN_STAGGER_DENSE_MS
    } else {
        SPAWN_STAGGER_MS
    }
}

/// Extra quiet after a spawn that leaves `running` apps.
pub open spec fn breath(hold: bool, running: int) -> u64 {
    if hold && running >= 3 && running % 3 == 0 { SPAWN_RELEASE_BREATH_MS } else { 0 }
}

/// One pass of reconciling the running apps with a layout.
pub struct SpawnRun {
    pub desired: [Option<AppSlot>; 16],
    /// Next channel to look at.
    pub chan: usize,
    pub changed: bool,
    /// The host holds the performance mute.
    pub hold: bool,
    /// Several apps spawn under the hold: they start together at the end.
    pub gate: bool,
}

/// How the reconciling ends.
#[derive(Clone, Copy, Debug, PartialEq, Eq, Structural)]
pub struct SpawnEnd {
    /// Open the start gate, pausing before and after.
    pub open_gate: bool,
    pub settle_ms: u64,
    /// Lift the USB MIDI mute now.
    pub unmute: bool,
    /// Keep the performance mute for a while after the change.
    pub soft_mute: bool,
    pub changed: bool,
}

/// What runs where, and which channels are on loan for calibration.
pub struct LayoutManager {
    pub layout: [Option<AppSlot>; 16],
    /// A held channel is not free, whatever the layout wants there.
    pub held: [bool; 16],
}

impl LayoutManager {
    /// The app on channel `c` has to go.
    pub open spec fn differs(self, desired: Seq<Option<AppSlot>>, c: int) -> bool {
        self.layout[c] is Some && self.layout[c] != desired[c]
    }

    /// An app is to be spawned on channel `c`.
    pub open spec fn spawnable(self, desired: Seq<Option<AppSlot>>, c: int) -> bool {
        self.layout[c] is None && !self.held[c] && desired[c] is Some
    }

    pub fn new() -> (r: Self)
        ensures
            forall|i: int| 0 <= i < 16 ==> #[trigger] r.layout[i] is None,
            forall|i: int| 0 <= i < 16 ==> !#[trigger] r.held[i],
    {
        LayoutManager { layout: [None; 16], held: [false; 16] }
    }

    /// Mark a channel as held for calibration, or release it.
    pub fn set_held(&mut self, start_channel: usize, held: bool)
        requires
            start_channel < 16,
        ensures
            final(self).layout == old(self).layout,
            final(self).held@ == old(self).held@.update(start_channel as int, held),
    {
        self.held[start_channel] = held;
        assert(self.held@ =~= old(self).held@.update(start_channel as int, held));
    }

    /// Take the app off a channel. The result is the app to signal; `None`
    /// where nothing runs.
    pub fn exit_app(&mut self, start_channel: usize) -> (r: Option<u8>)
        requires
            start_channel < 16,
        ensures
            final(self).held == old(self).held,
            final(self).layout@ == old(self).layout@.update(start_channel as int, None),
            r == match old(self).layout[start_channel as int] {
                Some(s) => Some(s.app_id),
                None => None,
            },
    {
        let r = match self.layout[start_channel] {
            Some(s) => {
                self.layout[start_channel] = None;
                Some(s.app_id)
            },
            None => None,
        };
        assert(self.layout@ =~= old(self).layout@.update(start_channel as int, None));
        r
    }

    /// Put an app on a channel where nothing runs. Tells whether it is to be
    /// spawned.
    pub fn spawn_one(
        &mut self,
        start_channel: usize,
        app_id: u8,
        channels: usize,
        layout_id: u8,
    ) -> (r: bool)
        requires
            start_channel < 16,
        ensures
            final(self).held == old(self).held,
            r == (old(self).layout[start_channel as int] is None),
            final(self).layout@ == if r {
                old(self).layout@.update(
                    start_channel as int,
                    Some(AppSlot { app_id, channels, layout_id }),
                )
            } else {
                old(self).layout@
            },
    {
        let free = self.layout[start_channel].is_none();
        if free {
            self.layout[start_channel] = Some(AppSlot { app_id, channels, layout_id });
        }
        assert(self.layout@ =~= if free {
            old(self).layout@.update(
                start_channel as int,
                Some(AppSlot { app_id, channels, layout_id }),
            )
        } else {
            old(self).layout@
        });
        free
    }

    /// Number of running apps.
    pub fn running(&self) -> (r: usize)
        ensures
            r == occupied(self.layout@, 16),
            r <= 16,
    {
        let mut n: usize = 0;
        let mut i: usize = 0;
        while i < 16
            invariant
                i <= 16,
                n == occupied(self.layout@, i as int),
                n <= i,
            decreases 16 - i,
        {
            if self.layout[i].is_some() {
                n = n + 1;
            }
            i = i + 1;
        }
        n
    }

    /// Begin reconciling with a layout. Entries that start past the last
    /// channel are ignored.
    pub fn spawn_layout(&self, entries: &Vec<LayoutEntry>) -> (run: SpawnRun)
        ensures
            forall|c: int|
                0 <= c < 16 ==> #[trigger] run.desired[c] == wanted_at(
                    entries@,
                    entries@.len() as int,
                    c,
                ),
            run.chan == 0,
            !run.changed,
            !run.hold,
            !run.gate,
    {
        let mut desired: [Option<AppSlot>; 16] = [None; 16];
        let mut i: usize = 0;
        while i < entries.len()
            invariant
                i <= entries@.len(),
                forall|c: int|
                    0 <= c < 16 ==> #[trigger] desired[c] == wanted_at(entries@, i as int, c),
            decreases entries@.len() - i,
        {
            let e = entries[i];
            if e.start_channel < GLOBAL_CHANNELS {
                desired[e.start_channel] = Some(
                    AppSlot { app_id: e.app_id, channels: e.channels, layout_id: e.layout_id },
                );
            }
            i = i + 1;
        }
        SpawnRun { desired, chan: 0, changed: false, hold: false, gate: false }
    }

    /// The next app to exit: one that is no longer desired, or is different.
    /// It is taken off its channel. `None` when the exits are done.
    pub fn next_exit(&mut self, run: &mut SpawnRun) -> (r: Option<(usize, u8)>)
        requires
            old(run).chan <= 16,
        ensures
            final(self).held == old(self).held,
            final(run).desired == old(run).desired,
            final(run).hold == old(run).hold,
            final(run).gate == old(run).gate,
            r matches Some((c, id)) ==> {
                &&& old(run).chan <= c < 16
                &&& old(self).differs(old(run).desired@, c as int)
                &&& id == old(self).layout[c as int]->0.app_id
                &&& forall|k: int|
                    old(run).chan <= k < c ==> !#[trigger] old(self).differs(old(run).desired@, k)
                &&& final(self).layout@ == old(self).layout@.update(c as int, None)
                &&& final(run).chan == c + 1
                &&& final(run).changed
            },
            r is None ==> {
                &&& forall|k: int|
                    old(run).chan <= k < 16 ==> !#[trigger] old(self).differs(old(run).desired@, k)
                &&& final(self).layout == old(self).layout
                &&& final(run).chan == 16
                &&& final(run).changed == old(run).changed
            },
    {
        let ghost m0 = *self;
        let ghost r0 = *run;
        while run.chan < 16
            invariant
                *self == m0,
                m0 == *old(self),
                r0 == *old(run),
                r0.chan <= run.chan <= 16,
                run.desired == r0.desired,
                run.hold == r0.hold,
                run.gate == r0.gate,
                run.changed == r0.changed,
                forall|k: int|
                    r0.chan <= k < run.chan ==> !#[trigger] m0.differs(r0.desired@, k),
            decreases 16 - run.chan,
        {
            let c: usize = run.chan;
            run.chan = c + 1;
            let exits = match (self.layout[c], run.desired[c]) {
                (Some(cur), Some(des)) => cur.app_id != des.app_id || cur.channels != des.channels
                    || cur.layout_id != des.layout_id,
                (Some(_), None) => true,
                _ => false,
            };
            assert(exits == m0.differs(r0.desired@, c as int));
            if exits {
                run.changed = true;
                match self.exit_app(c) {
                    Some(id) => {
                        return Some((c, id));
                    },
                    None => {},
                }
            }
        }
        None
    }

    /// The exits are done: look at the spawns. `hold` is whether the host now
    /// holds the performance mute. The result is how many apps are missing.
    pub fn begin_spawns(&self, run: &mut SpawnRun, hold: bool) -> (need_spawn: usize)
        ensures
            need_spawn == missing(self.layout@, old(run).desired@, 16),
            final(run).desired == old(run).desired,
            final(run).changed == old(run).changed,
            final(run).chan == 0,
            final(run).hold == hold,
            final(run).gate == (hold && need_spawn > 1),
    {
        let ghost r0 = *run;
        let mut n: usize = 0;
        let mut i: usize = 0;
        while i < 16
            invariant
                i <= 16,
                n == missing(self.layout@, run.desired@, i as int),
                n <= i,
                run.desired == r0.desired,
                run.changed == r0.changed,
            decreases 16 - i,
        {
            if self.layout[i].is_none() && run.desired[i].is_some() {
                n = n + 1;
            }
            i = i + 1;
        }
        run.chan = 0;
        run.hold = hold;
        run.gate = hold && n > 1;
        n
    }

    /// The next app to spawn: desired on a channel that is neither occupied
    /// nor held. `None` when the spawns are done.
    pub fn next_spawn(&self, run: &mut SpawnRun) -> (r: Option<(usize, AppSlot)>)
        requires
            old(run).chan <= 16,
        ensures
            final(run).desired == old(run).desired,
            final(run).hold == old(run).hold,
            final(run).gate == old(run).gate,
            final(run).changed == old(run).changed,
            r matches Some((c, slot)) ==> {
                &&& old(run).chan <= c < 16
                &&& self.spawnable(old(run).desired@, c as int)
                &&& old(run).desired[c as int] == Some(slot)
                &&& forall|k: int|
                    old(run).chan <= k < c ==> !#[trigger] self.spawnable(old(run).desired@, k)
                &&& final(run).chan == c + 1
            },
            r is None ==> {
                &&& forall|k: int|
                    old(run).chan <= k < 16 ==> !#[trigger] self.spawnable(old(run).desired@, k)
                &&& final(run).chan == 16
            },
    {
        let ghost r0 = *run;
        while run.chan < 16
            invariant
                r0 == *old(run),
                r0.chan <= run.chan <= 16,
                run.desired == r0.desired,
                run.hold == r0.hold,
                run.gate == r0.gate,
                run.changed == r0.changed,
                forall|k: int|
                    r0.chan <= k < run.chan ==> !#[trigger] self.spawnable(r0.desired@, k),
            decreases 16 - run.chan,
        {
            let c: usize = run.chan;
            run.chan = c + 1;
            if self.layout[c].is_none() && !self.held[c] {
                match run.desired[c] {
                    Some(slot) => {
                        assert(self.spawnable(r0.desired@, c as int));
                        return Some((c, slot));
                    },
                    None => {},
                }
            }
        }
        None
    }

    /// A spawn has succeeded or failed. The result is how long to stay quiet:
    /// the stagger and the extra breath.
    pub fn spawned(&mut self, run: &mut SpawnRun, start_channel: usize, slot: AppSlot, ok: bool) -> (
    r: (u64, u64))
        requires
            start_channel < 16,
        ensures
            final(self).held == old(self).held,
            final(run).desired == old(run).desired,
            final(run).hold == old(run).hold,
            final(run).gate == old(run).gate,
            final(run).chan == old(run).chan,
            final(run).changed == (old(run).changed || ok),
            final(self).layout@ == if ok {
                old(self).layout@.update(start_channel as int, Some(slot))
            } else {
                old(self).layout@
            },
            ok ==> r == (
                stagger(old(run).hold, occupied(final(self).layout@, 16)),
                breath(old(run).hold, occupied(final(self).layout@, 16)),
            ),
            !ok ==> r == (
                if old(run).hold { SPAWN_STAGGER_RELEASE_MS } else { SPAWN_STAGGER_MS },
                0u64,
            ),
    {
        if !ok {
            return (if run.hold { SPAWN_STAGGER_RELEASE_MS } else { SPAWN_STAGGER_MS }, 0);
        }
        self.layout[start_channel] = Some(slot);
        assert(self.layout@ =~= old(self).layout@.update(start_channel as int, Some(slot)));
        run.changed = true;
        let running: usize = self.running();
        let quiet: u64 = if run.hold {
            if running >= SPAWN_TAIL_THRESHOLD {
                SPAWN_STAGGER_RELEASE_TAIL_MS
            } else if running >= SPAWN_DENSE_THRESHOLD {
                SPAWN_STAGGER_RELEASE_DENSE_MS
            } else {
                SPAWN_STAGGER_RELEASE_MS
            }
        } else if running >= SPAWN_VERY_DENSE_THRESHOLD {
            SPAWN_STAGGER_VERY_DENSE_MS
        } else if running >= SPAWN_DENSE_THRESHOLD {
            SPAWN_STAGGER_DENSE_MS
        } else {
            SPAWN_STAGGER_MS
        };
        let extra: u64 = if run.hold && running >= SPAWN_RELEASE_BREATH_EVERY && running
            % SPAWN_RELEASE_BREATH_EVERY == 0 {
            SPAWN_RELEASE_BREATH_MS
        } else {
            0
        };
        (quiet, extra)
    }

    /// The spawns are done.
    pub fn finish(&self, run: &SpawnRun) -> (end: SpawnEnd)
        ensures
            end == (SpawnEnd {
                open_gate: run.gate,
                settle_ms: if run.hold {
                    400
                } else if occupied(self.layout@, 16) >= SPAWN_VERY_DENSE_THRESHOLD {
                    800
                } else if occupied(self.layout@, 16) >= SPAWN_DENSE_THRESHOLD {
                    400
                } else {
                    0
                },
                unmute: !run.hold,
                soft_mute: !run.hold && run.changed,
                changed: run.changed,
            }),
    {
        let running: usize = self.running();
        let settle_ms: u64 = if run.hold {
            400
        } else if running >= SPAWN_VERY_DENSE_THRESHOLD {
            800
        } else if running >= SPAWN_DENSE_THRESHOLD {
            400
        } else {
            0
        };
        SpawnEnd {
            open_gate: run.gate,
            settle_ms,
            unmute: !run.hold,
            soft_mute: !run.hold && run.changed,
            changed: run.changed,
        }
    }

    /// Take every app off its channel, to spawn the layout afresh. The result
    /// lists the apps to signal, channel by channel.
    pub fn respawn_all(&mut self) -> (exited: Vec<(usize, u8)>)
        ensures
            final(self).held == old(self).held,
            forall|c: int| 0 <= c < 16 ==> #[trigger] final(self).layout[c] is None,
            exited@ == running_apps(old(self).layout@, 16),
    {
        let ghost m0 = *self;
        let mut exited: Vec<(usize, u8)> = Vec::new();
        let mut c: usize = 0;
        while c < 16
            invariant
                c <= 16,
                self.held == m0.held,
                forall|k: int| 0 <= k < c ==> #[trigger] self.layout[k] is None,
                forall|k: int| c <= k < 16 ==> #[trigger] self.layout[k] == m0.layout[k],
                exited@ == running_apps(m0.layout@, c as int),
            decreases 16 - c,
        {
            let was = self.exit_app(c);
            match was {
                Some(id) => {
                    exited.push((c, id));
                },
                None => {},
            }
            c = c + 1;
        }
        exited
    }
}

/// Channel and app of the running apps below channel `n`.
pub open spec fn running_apps(layout: Seq<Option<AppSlot>>, n: int) -> Seq<(usize, u8)>
    decreases n,
{
    if n <= 0 {
        Seq::empty()
    } else {
        let p = running_apps(layout, n - 1);
        match layout[n - 1] {
            Some(s) => p.push(((n - 1) as usize, s.app_id)),
            None => p,
        }
    }
}

// ---------------------------------------------------------------------------
// Laws
// ---------------------------------------------------------------------------

/// When nothing is left to exit or to spawn, every channel that is not held
/// runs exactly what the layout wants, and a held one nothing else.
pub proof fn reconciled(m: LayoutManager, desired: Seq<Option<AppSlot>>, c: int)
    requires
        0 <= c < 16,
        !m.differs(desired, c),
        !m.spawnable(desired, c),
    ensures
        !m.held[c] ==> m.layout[c] == desired[c],
        m.layout[c] is None || m.layout[c] == desired[c],
{
}

/// An exit and a successful spawn only ever bring their channel closer: it is
/// not looked at again, and no other channel changes.
pub proof fn steps_settle_their_channel(
    m: LayoutManager,
    after: LayoutManager,
    desired: Seq<Option<AppSlot>>,
    c: int,
    k: int,
)
    requires
        0 <= c < 16,
        0 <= k < 16,
        after.held == m.held,
        (m.differs(desired, c) && after.layout@ == m.layout@.update(c, None)) || (m.spawnable(
            desired,
            c,
        ) && after.layout@ == m.layout@.update(c, desired[c])),
    ensures
        !after.differs(desired, c),
        m.spawnable(desired, c) ==> !after.spawnable(desired, c),
        k != c ==> after.differs(desired, k) == m.differs(desired, k) && after.spawnable(desired, k)
            == m.spawnable(desired, k),
{
}

/// Layout once all apps from channel `from` on that have to go are gone.
pub open spec fn all_exited(
    layout: Seq<Option<AppSlot>>,
    desired: Seq<Option<AppSlot>>,
    from: int,
) -> Seq<Option<AppSlot>> {
    Seq::new(
        layout.len(),
        |c: int|
            if c >= from && layout[c] is Some && layout[c] != desired[c] {
                None
            } else {
                layout[c]
            },
    )
}

/// Layout once all apps from channel `from` on that are wanted and not held
/// back are there.
pub open spec fn all_spawned(
    layout: Seq<Option<AppSlot>>,
    held: Seq<bool>,
    desired: Seq<Option<AppSlot>>,
    from: int,
) -> Seq<Option<AppSlot>> {
    Seq::new(
        layout.len(),
        |c: int|
            if c >= from && layout[c] is None && !held[c] && desired[c] is Some {
                desired[c]
            } else {
                layout[c]
            },
    )
}

/// Each exit is a step of the whole first pass: what the pass leads to stays
/// the same. `c` is the next channel whose app has to go.
pub proof fn exits_lead_to_the_end(m: LayoutManager, desired: Seq<Option<AppSlot>>, from: int, c: int)
    requires
        0 <= from <= c < 16,
        m.differs(desired, c),
        forall|k: int| from <= k < c ==> !#[trigger] m.differs(desired, k),
    ensures
        all_exited(m.layout@.update(c, None), desired, c + 1) == all_exited(
            m.layout@,
            desired,
            from,
        ),
{
    assert forall|k: int| 0 <= k < 16 implies all_exited(
        m.layout@.update(c, None),
        desired,
        c + 1,
    )[k] == all_exited(m.layout@, desired, from)[k] by {
        if from <= k < c {
            assert(!m.differs(desired, k));
        }
    }
    assert(all_exited(m.layout@.update(c, None), desired, c + 1) =~= all_exited(
        m.layout@,
        desired,
        from,
    ));
}

/// Each successful spawn is a step of the whole second pass in the same way.
pub proof fn spawns_lead_to_the_end(
    m: LayoutManager,
    desired: Seq<Option<AppSlot>>,
    from: int,
    c: int,
)
    requires
        0 <= from <= c < 16,
        m.spawnable(desired, c),
        forall|k: int| from <= k < c ==> !#[trigger] m.spawnable(desired, k),
    ensures
        all_spawned(m.layout@.update(c, desired[c]), m.held@, desired, c + 1) == all_spawned(
            m.layout@,
            m.held@,
            desired,
            from,
        ),
{
    assert forall|k: int| 0 <= k < 16 implies all_spawned(
        m.layout@.update(c, desired[c]),
        m.held@,
        desired,
        c + 1,
    )[k] == all_spawned(m.layout@, m.held@, desired, from)[k] by {
        if from <= k < c {
            assert(!m.spawnable(desired, k));
        }
    }
    assert(all_spawned(m.layout@.update(c, desired[c]), m.held@, desired, c + 1) =~= all_spawned(
        m.layout@,
        m.held@,
        desired,
        from,
    ));
}

/// A whole run, whose spawns all succeed, ends with exactly what is wanted on
/// every channel that is not held, and with nothing else on a held one.
pub proof fn runs_reconcile(
    layout: Seq<Option<AppSlot>>,
    held: Seq<bool>,
    desired: Seq<Option<AppSlot>>,
    c: int,
)
    requires
        layout.len() == 16,
        0 <= c < 16,
    ensures
        ({
            let end = all_spawned(all_exited(layout, desired, 0), held, desired, 0);
            &&& !held[c] ==> end[c] == desired[c]
            &&& end[c] is None || end[c] == desired[c]
        }),
{
}

/// Evicting an app and restoring it leaves the layout as it was.
pub proof fn restore_undoes_evict(layout: Seq<Option<AppSlot>>, c: int)
    requires
        0 <= c < layout.len(),
        layout[c] is Some,
    ensures
        layout.update(c, None).update(c, layout[c]) == layout,
{
    assert(layout.update(c, None).update(c, layout[c]) =~= layout);
}

} // verus!
