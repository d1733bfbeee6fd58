//! Laws of the configuration protocol and of calibration.

use crate::layout::{EvictionCmd, LayoutEntry};
use crate::tasks::configure::{
    addressable, batch_timeout, event_stream, evicting, extends_mute, first_covering,
    first_with_id, framed, is_batch, owner_of, packets, restoring, steps_for, sysex, CalReply,
    CalStep, ConfigAct, ConfigReply, ConfigRequest, DeviceState, MeasureRun, PortMode,
};
use vstd::prelude::*;

verus! {

/// The two bytes in front of a payload are its length, the high byte first.
pub proof fn messages_tell_their_length(payload: Seq<u8>)
    requires
        payload.len() <= 65535,
    ensures
        framed(payload).len() == payload.len() + 2,
        256 * framed(payload)[0] + framed(payload)[1] == payload.len(),
        forall|k: int| 0 <= k < payload.len() ==> #[trigger] payload[k] == framed(payload)[k + 2],
{
}

/// A frame is delimited as System Exclusive messages are, and holds header and
/// message in this order.
pub proof fn frames_are_system_exclusive(header: Seq<u8>, packed: Seq<u8>)
    ensures
        ({
            let f = sysex(header, packed);
            &&& f.len() == header.len() + packed.len() + 2
            &&& f[0] == 0xF0
            &&& f[f.len() - 1] == 0xF7
            &&& forall|k: int| 0 <= k < header.len() ==> #[trigger] header[k] == f[1 + k]
            &&& forall|k: int|
                0 <= k < packed.len() ==> #[trigger] packed[k] == f[1 + header.len() + k]
        }),
{
}

/// Every event but the last says that the message goes on; the last one holds
/// one to three bytes, says how many, and is filled up with zeros.
pub proof fn events_say_how_the_message_goes_on(frame: Seq<u8>, i: int, k: int)
    requires
        0 <= 4 * i < event_stream(frame).len(),
        1 <= k <= 3,
    ensures
        event_stream(frame).len() % 4 == 0,
        3 * event_stream(frame).len() < 4 * (frame.len() + 3),
        4 * frame.len() <= 3 * event_stream(frame).len(),
        3 * i + 3 < frame.len() ==> event_stream(frame)[4 * i] == 4,
        3 * i + 3 == frame.len() ==> event_stream(frame)[4 * i] == 7,
        3 * i + 2 == frame.len() ==> event_stream(frame)[4 * i] == 6,
        3 * i + 1 == frame.len() ==> event_stream(frame)[4 * i] == 5,
        3 * i + k - 1 < frame.len() ==> event_stream(frame)[4 * i + k] == frame[3 * i + k - 1],
        3 * i + k - 1 >= frame.len() ==> event_stream(frame)[4 * i + k] == 0,
{
    let n = frame.len() as int;
    let s = event_stream(frame);
    assert(s.len() == 4 * ((n + 2) / 3));
    assert((4 * i) / 4 == i && (4 * i) % 4 == 0);
    assert((4 * i + k) / 4 == i && (4 * i + k) % 4 == k);
    assert(4 * i + k < s.len());
}

/// The packets are the stream cut into pieces of 64 bytes: byte `k` is the
/// one of that number modulo 64 in packet `k / 64`.
pub proof fn packets_hold_the_stream(frame: Seq<u8>, k: int)
    requires
        0 <= k < event_stream(frame).len(),
    ensures
        k / 64 < packets(frame).len(),
        k % 64 < packets(frame)[k / 64].len(),
        packets(frame)[k / 64][k % 64] == event_stream(frame)[k],
{
    let s = event_stream(frame);
    let p = k / 64;
    let full = s.len() as int / 64;
    assert(frame.len() > 0);
    assert(p <= full);
    assert(64 * p + k % 64 == k);
}

/// A plain question gets its answer and nothing else.
pub proof fn questions_are_answered(dev: DeviceState, ids: Seq<u8>, apps: Seq<u8>)
    ensures
        steps_for(ConfigRequest::Ping, dev, ids, apps) == seq![ConfigAct::Reply(ConfigReply::Pong)],
        steps_for(ConfigRequest::GetVersion, dev, ids, apps) == seq![
            ConfigAct::Reply(ConfigReply::Version),
        ],
        steps_for(ConfigRequest::GetLayout, dev, ids, apps) == seq![
            ConfigAct::Reply(ConfigReply::Layout),
        ],
        steps_for(ConfigRequest::GetGlobalConfig, dev, ids, apps) == seq![
            ConfigAct::Reply(ConfigReply::GlobalConfig),
        ],
{
}

/// A batch opens with its length, has that many parts, one for each app in
/// order, and is closed.
pub proof fn batches_are_counted(dev: DeviceState, ids: Seq<u8>, apps: Seq<u8>, i: int)
    requires
        ids.len() <= usize::MAX,
        apps.len() <= usize::MAX,
    ensures
        ({
            let a = steps_for(ConfigRequest::GetAllApps, dev, ids, apps);
            let p = steps_for(ConfigRequest::GetAllAppParams, dev, ids, apps);
            let busy = dev.spawn_active || dev.start_held;
            &&& a.len() == apps.len() + 2
            &&& a[0] == ConfigAct::Reply(ConfigReply::BatchStart(apps.len() as usize))
            &&& a[a.len() - 1] == ConfigAct::Reply(ConfigReply::BatchEnd)
            &&& 0 <= i < apps.len() ==> a[i + 1] == ConfigAct::Reply(
                ConfigReply::AppConfig(apps[i]),
            )
            &&& p[0] == ConfigAct::Reply(ConfigReply::BatchStart(ids.len() as usize))
            &&& p[p.len() - 1] == ConfigAct::Reply(ConfigReply::BatchEnd)
            &&& p.len() == ids.len() + 2 + if busy || ids.len() == 0 { 0int } else { 1 }
            &&& busy && 0 <= i < ids.len() ==> p[i + 1] == ConfigAct::Reply(
                ConfigReply::EmptyAppState(ids[i]),
            )
            &&& !busy && 0 <= i < ids.len() ==> p[i + 1] == ConfigAct::RequestParams(ids[i])
            &&& !busy && ids.len() > 0 ==> (p[p.len() - 2] matches ConfigAct::ForwardParams {
                count,
                timeout_ms,
            } && count == ids.len() && (ids.len() <= 1000 ==> timeout_ms == 3000 * ids.len()))
        }),
{
}

/// While apps come or go none of them is asked: the answer is empty at once.
/// Otherwise the app in question, and no other, is asked and waited for:
/// longest where it has new parameters to take, shortest under the hold.
pub proof fn parameters_come_from_their_app(
    dev: DeviceState,
    ids: Seq<u8>,
    apps: Seq<u8>,
    layout_id: u8,
)
    ensures
        ({
            let g = steps_for(ConfigRequest::GetAppParams { layout_id }, dev, ids, apps);
            let s = steps_for(ConfigRequest::SetAppParams { layout_id }, dev, ids, apps);
            let none = seq![ConfigAct::Reply(ConfigReply::EmptyAppState(layout_id))];
            if dev.spawn_active || dev.start_held {
                g == none && s == none
            } else {
                &&& g.len() == 3
                &&& s.len() == 3
                &&& g[0] is DrainParams
                &&& s[0] is DrainParams
                &&& g[1] == ConfigAct::RequestParams(layout_id)
                &&& s[1] == ConfigAct::SendParams(layout_id)
                &&& (g[2] matches ConfigAct::AwaitParams { layout_id: l, timeout_ms: t } && l
                    == layout_id && t == if dev.host_holds_mute { 400 } else { 3000int })
                &&& (s[2] matches ConfigAct::AwaitParams { layout_id: l, timeout_ms: t } && l
                    == layout_id && t == 8000)
            }
        }),
{
}

/// A new layout is kept before it is told, told before it is published, and
/// the rest of the requests that change the device do just that.
pub proof fn changes_are_made(dev: DeviceState, ids: Seq<u8>, apps: Seq<u8>)
    ensures
        ({
            let l = steps_for(ConfigRequest::SetLayout, dev, ids, apps);
            let h = steps_for(ConfigRequest::HoldPerfMute, dev, ids, apps);
            let r = steps_for(ConfigRequest::ReleasePerfMute, dev, ids, apps);
            &&& l.len() == 4
            &&& l[0] is KeepLayout
            &&& l[1] == ConfigAct::Reply(ConfigReply::Layout)
            &&& l[2] == ConfigAct::Pause(50)
            &&& l[3] is PublishLayout
            &&& h == seq![ConfigAct::HoldMute, ConfigAct::Reply(ConfigReply::Pong)]
            &&& r == seq![ConfigAct::ReleaseMute, ConfigAct::Reply(ConfigReply::Pong)]
        }),
        steps_for(ConfigRequest::SetGlobalConfig, dev, ids, apps) == seq![
            ConfigAct::PublishGlobalConfig,
        ],
        steps_for(ConfigRequest::FactoryReset, dev, ids, apps) == seq![ConfigAct::FactoryReset],
{
}

/// Each request on a jack is a calibration.
pub proof fn jacks_are_calibrated(
    dev: DeviceState,
    ids: Seq<u8>,
    apps: Seq<u8>,
    output_jack: u8,
    aux_input: u8,
    dac_counts: u16,
)
    ensures
        ({
            let m = ConfigRequest::MeasureVoOct { output_jack, aux_input, dac_counts };
            let s = ConfigRequest::SetVoOctOutput { output_jack, dac_counts };
            let r = ConfigRequest::ReleaseVoOctOutput { output_jack };
            &&& steps_for(m, dev, ids, apps) == seq![ConfigAct::Calibrate]
            &&& steps_for(s, dev, ids, apps) == seq![ConfigAct::Calibrate]
            &&& steps_for(r, dev, ids, apps) == seq![ConfigAct::Calibrate]
            &&& !extends_mute(m)
            &&& !extends_mute(s)
            &&& !extends_mute(r)
        }),
{
}

/// Asking never mutes; taking the hold, a new layout, new parameters and a
/// reset do. Only the two batches break off at a reply that is not sent.
pub proof fn changes_mute(layout_id: u8, dev: DeviceState, ids: Seq<u8>)
    ensures
        extends_mute(ConfigRequest::SetLayout),
        extends_mute(ConfigRequest::SetAppParams { layout_id }),
        extends_mute(ConfigRequest::HoldPerfMute),
        extends_mute(ConfigRequest::FactoryReset),
        !extends_mute(ConfigRequest::Ping),
        !extends_mute(ConfigRequest::GetVersion),
        !extends_mute(ConfigRequest::GetAllApps),
        !extends_mute(ConfigRequest::GetLayout),
        !extends_mute(ConfigRequest::GetGlobalConfig),
        !extends_mute(ConfigRequest::GetAppParams { layout_id }),
        !extends_mute(ConfigRequest::GetAllAppParams),
        !extends_mute(ConfigRequest::SetGlobalConfig),
        !extends_mute(ConfigRequest::ReleasePerfMute),
        is_batch(ConfigRequest::GetAllApps),
        is_batch(ConfigRequest::GetAllAppParams),
        !is_batch(ConfigRequest::GetAppParams { layout_id }),
        !is_batch(ConfigRequest::SetAppParams { layout_id }),
        !is_batch(ConfigRequest::SetLayout),
        layout_id < 16 ==> addressable(ConfigRequest::GetAppParams { layout_id }, dev, ids),
        layout_id < 16 ==> addressable(ConfigRequest::SetAppParams { layout_id }, dev, ids),
{
}

/// Forwarding waits three seconds for each app, and for one where there is
/// none.
pub proof fn batches_wait_for_each_app(n: int)
    requires
        0 <= n <= 1_000_000,
    ensures
        batch_timeout(0) == 3000,
        batch_timeout(1) == 3000,
        n > 0 ==> batch_timeout(n + 1) == batch_timeout(n) + 3000,
{
}

/// Among the first `n` entries the first with an identifier is found: it has
/// it, and none before it does.
pub proof fn confirmation_goes_to_the_app(layout: Seq<LayoutEntry>, layout_id: u8, n: int, k: int)
    requires
        0 <= k < n <= layout.len(),
    ensures
        match first_with_id(layout, layout_id, n) {
            Some(i) => {
                &&& 0 <= i < n
                &&& layout[i].layout_id == layout_id
                &&& k < i ==> layout[k].layout_id != layout_id
            },
            None => layout[k].layout_id != layout_id,
        },
    decreases n,
{
    if k < n - 1 {
        confirmation_goes_to_the_app(layout, layout_id, n - 1, k);
    } else if n > 1 {
        confirmation_goes_to_the_app(layout, layout_id, n - 1, n - 2);
    }
}

/// The owner of a jack is an entry whose channels hold it, and no earlier
/// entry does; a jack without an owner lies on no entry.
pub proof fn owners_hold_their_jack(layout: Seq<LayoutEntry>, jack: int, k: int)
    requires
        0 <= k < layout.len(),
    ensures
        match owner_of(layout, jack) {
            Some(e) => exists|i: int|
                #![trigger layout[i]]
                {
                    &&& 0 <= i < layout.len()
                    &&& layout[i] == e
                    &&& e.start_channel <= jack
                    &&& jack < e.start_channel + e.channels
                    &&& k < i ==> !(layout[k].start_channel <= jack && jack
                        < layout[k].start_channel + layout[k].channels)
                },
            None => !(layout[k].start_channel <= jack && jack < layout[k].start_channel
                + layout[k].channels),
        },
{
    owner_among(layout, jack, k, layout.len() as int);
}

proof fn owner_among(layout: Seq<LayoutEntry>, jack: int, k: int, n: int)
    requires
        0 <= k < layout.len(),
        0 <= n <= layout.len(),
    ensures
        match first_covering(layout, jack, n) {
            Some(e) => exists|i: int|
                #![trigger layout[i]]
                {
                    &&& 0 <= i < n
                    &&& layout[i] == e
                    &&& e.start_channel <= jack
                    &&& jack < e.start_channel + e.channels
                    &&& k < i ==> !(layout[k].start_channel <= jack && jack
                        < layout[k].start_channel + layout[k].channels)
                },
            None => k < n ==> !(layout[k].start_channel <= jack && jack < layout[k].start_channel
                + layout[k].channels),
        },
    decreases n,
{
    if n > 0 {
        owner_among(layout, jack, k, n - 1);
        assert(layout[n - 1] == layout[n - 1]);
    }
}

/// An app that leaves a jack is told by its start channel, and comes back as
/// the app that it was, where it was.
pub proof fn apps_come_back_as_they_were(e: LayoutEntry)
    ensures
        evicting(Some(e)) == seq![CalStep::Layout(EvictionCmd::Evict(e.start_channel))],
        restoring(Some(e)).len() == 1,
        restoring(Some(e))[0] matches CalStep::Layout(
            EvictionCmd::Restore(start, app_id, channels, layout_id),
        ) && start == e.start_channel && app_id == e.app_id && channels == e.channels && layout_id
            == e.layout_id,
        evicting(None).len() == 0,
        restoring(None).len() == 0,
{
}

/// After a measurement the host is told the outcome first. Then the jack is
/// let go, an auxiliary output that was switched off drives again, and the
/// app comes back last.
pub proof fn measurements_give_everything_back(run: MeasureRun, measured: bool)
    ensures
        ({
            let f = run.finishing(measured);
            let aux = if run.aux_was_active { 1int } else { 0 };
            let app = if run.evicted is Some { 1int } else { 0 };
            &&& f.len() == 2 + aux + app
            &&& measured ==> f[0] == CalStep::Reply(CalReply::Frequency)
            &&& !measured ==> f[0] == CalStep::Reply(CalReply::CalError)
            &&& f[1] == CalStep::Configure { port: run.jack as usize, mode: PortMode::HighZ }
            &&& run.aux_was_active ==> (f[2] matches CalStep::Configure { port, mode } && port == 17
                + run.aux && mode == PortMode::GateOut(2048))
            &&& (run.evicted matches Some(e) ==> f[f.len() - 1] == CalStep::Layout(
                EvictionCmd::Restore(e.start_channel, e.app_id, e.channels, e.layout_id),
            ))
        }),
{
}

} // verus!
