//! Laws of the layout: which app is wanted where, and the pace of spawning.

use crate::layout::{
    breath, missing, occupied, running_apps, stagger, wanted_at, AppSlot, LayoutEntry,
    LayoutManager,
};
use vstd::prelude::*;

verus! {

/// A channel wants the app of the last entry that starts on it, as that entry
/// has it; without such an entry it wants none.
pub proof fn later_entries_win(entries: Seq<LayoutEntry>, n: int, c: int, k: int)
    requires
        0 <= k < n <= entries.len(),
    ensures
        entries[k].start_channel == c ==> wanted_at(entries, n, c) is Some,
        entries[k].start_channel == c && (forall|j: int|
            k < j < n ==> (#[trigger] entries[j]).start_channel != c) ==> (wanted_at(entries, n, c)
            matches Some(s) && s.app_id == entries[k].app_id && s.channels == entries[k].channels
            && s.layout_id == entries[k].layout_id),
        (forall|j: int| 0 <= j < n ==> (#[trigger] entries[j]).start_channel != c)
            ==> wanted_at(entries, n, c) is None,
    decreases n,
{
    reveal_with_fuel(wanted_at, 2);
    if n > 1 {
        if k < n - 1 {
            later_entries_win(entries, n - 1, c, k);
        } else {
            later_entries_win(entries, n - 1, c, 0);
        }
    }
}

/// An app that comes is one more that runs and one less that is missing.
pub proof fn apps_are_counted(
    layout: Seq<Option<AppSlot>>,
    desired: Seq<Option<AppSlot>>,
    c: int,
    app: AppSlot,
    n: int,
)
    requires
        0 <= c < layout.len(),
        0 <= n <= layout.len(),
        n <= desired.len(),
        layout[c] is None,
    ensures
        occupied(layout.update(c, Some(app)), n) == occupied(layout, n) + if c < n {
            1int
        } else {
            0
        },
        missing(layout.update(c, Some(app)), desired, n) == missing(layout, desired, n)
            - if c < n && desired[c] is Some { 1int } else { 0 },
        0 <= occupied(layout, n) <= n,
        0 <= missing(layout, desired, n) <= n - occupied(layout, n),
    decreases n,
{
    if n > 0 {
        apps_are_counted(layout, desired, c, app, n - 1);
    }
}

/// Nothing runs exactly where the count is zero, and nothing is missing
/// exactly where every wanted channel has an app.
pub proof fn counts_see_every_channel(
    layout: Seq<Option<AppSlot>>,
    desired: Seq<Option<AppSlot>>,
    n: int,
)
    requires
        0 <= n <= layout.len(),
        n <= desired.len(),
    ensures
        occupied(layout, n) >= 0,
        missing(layout, desired, n) >= 0,
        occupied(layout, n) == 0 <==> forall|c: int| 0 <= c < n ==> #[trigger] layout[c] is None,
        missing(layout, desired, n) == 0 <==> forall|c: int|
            0 <= c < n && (#[trigger] desired[c]) is Some ==> layout[c] is Some,
    decreases n,
{
    if n > 0 {
        counts_see_every_channel(layout, desired, n - 1);
        if occupied(layout, n) == 0 {
            assert(layout[n - 1] is None);
        }
        if missing(layout, desired, n) == 0 {
            assert(desired[n - 1] is Some ==> layout[n - 1] is Some);
        }
    }
}

/// The more apps run the longer the pause after the next one, longer still
/// under the hold of the performance mute: up to 0.8 s without and 1.6 s with
/// it, from a quarter of a second and 0.7 s on.
pub proof fn spawning_slows_down(hold: bool, a: int, b: int)
    requires
        0 <= a <= b,
    ensures
        stagger(hold, a) <= stagger(hold, b),
        stagger(false, a) < stagger(true, a),
        a < 6 ==> stagger(false, a) == 250 && stagger(true, a) == 700,
        6 <= a < 8 ==> stagger(false, a) == 500 && stagger(true, a) == 1100,
        8 <= a < 10 ==> stagger(false, a) == 500 && stagger(true, a) == 1600,
        10 <= a ==> stagger(false, a) == 800 && stagger(true, a) == 1600,
{
}

/// Under the hold every third app is followed by two more seconds of quiet.
pub proof fn spawning_takes_breath(k: int)
    requires
        0 <= k,
    ensures
        breath(true, 0) == 0,
        breath(true, 3 * k + 3) == 2000,
        breath(true, 3 * k + 1) == 0,
        breath(true, 3 * k + 2) == 0,
        breath(false, k) == 0,
{
}

/// What has to go is what runs and is not wanted as it is; what comes is
/// wanted on a channel that is free and not held. Never both at once.
pub proof fn channels_change_one_way(m: LayoutManager, desired: Seq<Option<AppSlot>>, c: int)
    requires
        0 <= c < 16,
    ensures
        !(m.differs(desired, c) && m.spawnable(desired, c)),
        m.layout[c] is Some && desired[c] is None ==> m.differs(desired, c),
        m.layout[c] == desired[c] ==> !m.differs(desired, c) && !m.spawnable(desired, c),
        m.held[c] ==> !m.spawnable(desired, c),
        m.layout[c] is None && desired[c] is Some && !m.held[c] ==> m.spawnable(desired, c),
        m.layout[c] is Some && desired[c] is Some && m.layout[c] != desired[c] ==> m.differs(
            desired,
            c,
        ),
{
}

/// The list of running apps names each of them once, channel by channel, and
/// nothing else.
pub proof fn running_apps_are_listed(layout: Seq<Option<AppSlot>>, n: int, c: int, i: int)
    requires
        0 <= n <= layout.len() <= 16,
    ensures
        running_apps(layout, n).len() == occupied(layout, n),
        0 <= c < n ==> (layout[c] matches Some(s) ==> running_apps(layout, n).contains(
            (c as usize, s.app_id),
        )),
        0 <= i < running_apps(layout, n).len() ==> {
            let (at, id) = running_apps(layout, n)[i];
            at < n && (layout[at as int] matches Some(s) && s.app_id == id)
        },
        0 < i < running_apps(layout, n).len() ==> running_apps(layout, n)[i - 1].0 < running_apps(
            layout,
            n,
        )[i].0,
    decreases n,
{
    if n > 0 {
        let p = running_apps(layout, n - 1);
        let r = running_apps(layout, n);
        running_apps_are_listed(layout, n - 1, c, i);
        if p.len() > 0 {
            running_apps_are_listed(layout, n - 1, c, p.len() - 1);
        }
        if 0 <= c < n && layout[c] is Some {
            let e = (c as usize, layout[c]->Some_0.app_id);
            if c == n - 1 {
                assert(r[p.len() as int] == e);
            } else {
                let k = choose|k: int| 0 <= k < p.len() && p[k] == e;
                assert(r[k] == e);
            }
        }
    }
}

} // verus!
