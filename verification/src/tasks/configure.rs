//! Configuration protocol: framing of messages as MIDI System Exclusive over
//! USB, what each request is answered with, and the V/Oct calibration that
//! borrows jacks from running apps.

use crate::layout::{EvictionCmd, LayoutEntry};
use crate::tasks::clock::AuxJackMode;
use vstd::prelude::*;

verus! {

/// First and last byte of a System Exclusive frame.
pub const SYSEX_START: u8 = 0xF0;
pub const SYSEX_EOX: u8 = 0xF7;

/// Virtual cable that carries the replies.
pub const PERF_CABLE: u8 = 0;

/// Payload of one USB packet.
pub const USB_PACKET: usize = 64;

/// Waiting time for an app to take new parameters (ms).
pub const APP_PARAM_SET_TIMEOUT_MS: u64 = 8000;
/// Waiting time for an app to tell its parameters (ms).
pub const APP_PARAM_GET_TIMEOUT_MS: u64 = 3000;
/// The same while the host holds the performance mute.
pub const APP_PARAM_HOLD_TIMEOUT_MS: u64 = 400;
/// Pause between the answer to a new layout and its publication (ms).
pub const LAYOUT_PUBLISH_DELAY_MS: u64 = 50;

#[derive(Clone, Copy, Debug, PartialEq, Eq, Structural)]
pub enum ProtocolError {
    BufferTooSmall,
    DecodingError,
    EncodingError,
    TransmissionError,
    CorruptedMessage,
    Timeout,
    NotConnected,
}

// ---------------------------------------------------------------------------
// Framing
// ---------------------------------------------------------------------------

pub open spec fn starts_with(frame: Seq<u8>, header: Seq<u8>) -> bool {
    frame.len() >= header.len() && frame.subrange(0, header.len() as int) == header
}

fn tail_from(bytes: &[u8], from: usize) -> (r: Vec<u8>)
    requires
        from <= bytes@.len(),
    ensures
        r@ == bytes@.subrange(from as int, bytes@.len() as int),
{
    let mut r: Vec<u8> = Vec::new();
    let mut i: usize = from;
    while i < bytes.len()
        invariant
            from <= i <= bytes@.len(),
            r@ == bytes@.subrange(from as int, i as int),
        decreases bytes@.len() - i,
    {
        r.push(bytes[i]);
        i = i + 1;
        assert(r@ =~= bytes@.subrange(from as int, i as int));
    }
    r
}

/// Body of a received frame behind the manufacturer header.
pub fn strip_header(frame: &[u8], header: &[u8]) -> (r: Result<Vec<u8>, ProtocolError>)
    ensures
        starts_with(frame@, header@) ==> r is Ok && r->Ok_0@ == frame@.subrange(
            header@.len() as int,
            frame@.len() as int,
        ),
        !starts_with(frame@, header@) ==> r == Err::<Vec<u8>, _>(ProtocolError::CorruptedMessage),
{
    if frame.len() < header.len() {
        return Err(ProtocolError::CorruptedMessage);
    }
    let mut i: usize = 0;
    while i < header.len()
        invariant
            i <= header@.len() <= frame@.len(),
            forall|k: int| 0 <= k < i ==> frame@[k] == header@[k],
        decreases header@.len() - i,
    {
        if frame[i] != header[i] {
            assert(frame@.subrange(0, header@.len() as int)[i as int] != header@[i as int]);
            return Err(ProtocolError::CorruptedMessage);
        }
        i = i + 1;
    }
    assert(frame@.subrange(0, header@.len() as int) =~= header@);
    Ok(tail_from(frame, header.len()))
}

/// A message carries its length in two bytes, high byte first.
pub open spec fn well_framed(plain: Seq<u8>) -> bool {
    plain.len() >= 2 && plain[0] * 256 + plain[1] == plain.len() - 2
}

/// Payload of an unpacked message.
pub fn payload_of(plain: &[u8]) -> (r: Result<Vec<u8>, ProtocolError>)
    ensures
        well_framed(plain@) ==> r is Ok && r->Ok_0@ == plain@.subrange(2, plain@.len() as int),
        !well_framed(plain@) ==> r == Err::<Vec<u8>, _>(ProtocolError::CorruptedMessage),
{
    if plain.len() < 2 {
        return Err(ProtocolError::CorruptedMessage);
    }
    let payload_len: usize = plain[0] as usize * 256 + plain[1] as usize;
    if payload_len != plain.len() - 2 {
        return Err(ProtocolError::CorruptedMessage);
    }
    Ok(tail_from(plain, 2))
}

pub open spec fn framed(payload: Seq<u8>) -> Seq<u8> {
    seq![(payload.len() / 256 % 256) as u8, (payload.len() % 256) as u8] + payload
}

/// Message for a payload: its length, then the payload.
pub fn plain_message(payload: &[u8]) -> (r: Vec<u8>)
    ensures
        r@ == framed(payload@),
{
    let n: usize = payload.len();
    let mut r: Vec<u8> = vec![(n / 256 % 256) as u8, (n % 256) as u8];
    let mut i: usize = 0;
    while i < payload.len()
        invariant
            i <= payload@.len(),
            n == payload@.len(),
            r@ == seq![(n / 256 % 256) as u8, (n % 256) as u8] + payload@.subrange(0, i as int),
        decreases payload@.len() - i,
    {
        r.push(payload[i]);
        i = i + 1;
        assert(r@ =~= seq![(n / 256 % 256) as u8, (n % 256) as u8] + payload@.subrange(
            0,
            i as int,
        ));
    }
    assert(payload@.subrange(0, n as int) =~= payload@);
    r
}

pub open spec fn sysex(header: Seq<u8>, packed: Seq<u8>) -> Seq<u8> {
    seq![SYSEX_START] + header + packed + seq![SYSEX_EOX]
}

fn append(dst: &mut Vec<u8>, src: &[u8])
    ensures
        final(dst)@ == old(dst)@ + src@,
{
    let ghost d0 = dst@;
    let mut i: usize = 0;
    while i < src.len()
        invariant
            i <= src@.len(),
            dst@ == d0 + src@.subrange(0, i as int),
        decreases src@.len() - i,
    {
        dst.push(src[i]);
        i = i + 1;
        assert(dst@ =~= d0 + src@.subrange(0, i as int));
    }
    assert(dst@ =~= d0 + src@);
}

/// Frame around a packed message: start byte, header, message, end byte. A
/// frame longer than `capacity` is refused.
pub fn sysex_frame(header: &[u8], packed: &[u8], capacity: usize) -> (r: Result<
    Vec<u8>,
    ProtocolError,
>)
    requires
        header@.len() + packed@.len() + 2 <= usize::MAX,
    ensures
        header@.len() + packed@.len() + 2 <= capacity ==> r is Ok && r->Ok_0@ == sysex(
            header@,
            packed@,
        ),
        header@.len() + packed@.len() + 2 > capacity ==> r == Err::<Vec<u8>, _>(
            ProtocolError::BufferTooSmall,
        ),
{
    if header.len() + packed.len() + 2 > capacity {
        return Err(ProtocolError::BufferTooSmall);
    }
    let mut r: Vec<u8> = vec![SYSEX_START];
    append(&mut r, header);
    append(&mut r, packed);
    r.push(SYSEX_EOX);
    assert(r@ =~= sysex(header@, packed@));
    Ok(r)
}

/// Number of three-byte events for `n` bytes.
pub open spec fn events(n: int) -> int {
    (n + 2) / 3
}

/// Code of event `i`: the last one tells how many bytes it ends with.
pub open spec fn event_code(n: int, i: int) -> int {
    if i + 1 < events(n) { 4 } else { 4 + (n - 3 * i) }
}

/// Byte `k` of the event stream of a frame: events of four bytes, the code and
/// up to three frame bytes.
pub open spec fn stream_byte(frame: Seq<u8>, k: int) -> u8 {
    let i = k / 4;
    let at = 3 * i + k % 4 - 1;
    if k % 4 == 0 {
        (PERF_CABLE * 16 + event_code(frame.len() as int, i)) as u8
    } else if at < frame.len() {
        frame[at]
    } else {
        0
    }
}

pub open spec fn event_stream(frame: Seq<u8>) -> Seq<u8> {
    Seq::new((4 * events(frame.len() as int)) as nat, |k: int| stream_byte(frame, k))
}

/// USB packets of a frame: the event stream in packets of 64 bytes, and an
/// empty packet where the last one would be full.
pub open spec fn packets(frame: Seq<u8>) -> Seq<Seq<u8>> {
    let s = event_stream(frame);
    let full = s.len() as int / 64;
    Seq::new(
        (if frame.len() == 0 { 0 } else { full + 1 }) as nat,
        |p: int| s.subrange(64 * p, if p < full { 64 * (p + 1) } else { s.len() as int }),
    )
}

/// The frame as USB-MIDI event packets, ended by a short packet.
pub fn packetize(frame: &[u8]) -> (r: Vec<Vec<u8>>)
    requires
        2 * frame@.len() + 8 <= usize::MAX,
    ensures
        r@.len() == packets(frame@).len(),
        forall|p: int| 0 <= p < r@.len() ==> (#[trigger] r@[p])@ == packets(frame@)[p],
{
    let n: usize = frame.len();
    let mut r: Vec<Vec<u8>> = Vec::new();
    if n == 0 {
        return r;
    }
    let ghost s = event_stream(frame@);
    let total: usize = (n + 2) / 3;
    let mut packet: Vec<u8> = Vec::new();
    let mut i: usize = 0;
    assert(packet@ =~= s.subrange(0, 0));
    while i < total
        invariant
            n == frame@.len(),
            n > 0,
            total == events(n as int),
            2 * n + 8 <= usize::MAX,
            i <= total,
            s == event_stream(frame@),
            s.len() == 4 * total,
            r@.len() == 4 * i / 64,
            packet@ == s.subrange(64 * r@.len() as int, 4 * i as int),
            forall|p: int|
                0 <= p < r@.len() ==> (#[trigger] r@[p])@ == s.subrange(64 * p, 64 * (p + 1)),
        decreases total - i,
    {
        let rest: usize = n - 3 * i;
        let code: u8 = if i + 1 < total {
            4
        } else {
            4 + rest as u8
        };
        let ghost before = packet@;
        let ghost from = 64 * r@.len() as int;
        packet.push(PERF_CABLE * 16 + code);
        packet.push(frame[3 * i]);
        packet.push(if rest > 1 { frame[3 * i + 1] } else { 0 });
        packet.push(if rest > 2 { frame[3 * i + 2] } else { 0 });
        assert(packet@ =~= s.subrange(from, 4 * i + 4)) by {
            let k = 4 * i as int;
            assert((k + 1) / 4 == i && (k + 1) % 4 == 1);
            assert((k + 2) / 4 == i && (k + 2) % 4 == 2);
            assert((k + 3) / 4 == i && (k + 3) % 4 == 3);
            assert(s[k] == PERF_CABLE * 16 + code);
            assert(s[k + 1] == frame@[3 * i as int]);
            assert(s[k + 2] == if rest > 1 { frame@[3 * i + 1] } else { 0 });
            assert(s[k + 3] == if rest > 2 { frame@[3 * i + 2] } else { 0 });
            assert forall|j: int| 0 <= j < packet@.len() implies packet@[j] == s.subrange(
                from,
                4 * i + 4,
            )[j] by {
                if j < before.len() {
                    assert(before[j] == s[from + j]);
                }
            }
        }
        if packet.len() == USB_PACKET {
            r.push(packet);
            packet = Vec::new();
            assert(packet@ =~= s.subrange(64 * r@.len() as int, 4 * i + 4));
        }
        i = i + 1;
    }
    r.push(packet);
    assert(packets(frame@).len() == r@.len());
    r
}

// ---------------------------------------------------------------------------
// Waiting for an app's parameters
// ---------------------------------------------------------------------------

/// Wait for the parameters of one app on the channel that all apps share.
#[derive(Clone, Copy, Debug, PartialEq, Eq, Structural)]
pub struct ParamWait {
    pub layout_id: u8,
    pub deadline: u64,
}

impl ParamWait {
    /// Times are in one unit; the deadline has to lie within the clock.
    pub fn new(layout_id: u8, now: u64, timeout: u64) -> (r: Self)
        requires
            now + timeout <= u64::MAX,
        ensures
            r == (ParamWait { layout_id, deadline: (now + timeout) as u64 }),
    {
        ParamWait { layout_id, deadline: now + timeout }
    }

    /// Time left to wait; `None` once the deadline has passed.
    pub fn remaining(&self, now: u64) -> (r: Option<u64>)
        ensures
            r == if now <= self.deadline { Some((self.deadline - now) as u64) } else { None },
    {
        if now <= self.deadline {
            Some(self.deadline - now)
        } else {
            None
        }
    }

    /// Whether a reply is the one waited for. Others are stale: ignore them.
    pub fn accepts(&self, layout_id: u8) -> (r: bool)
        ensures
            r == (layout_id == self.layout_id),
    {
        layout_id == self.layout_id
    }
}

// ---------------------------------------------------------------------------
// Requests
// ---------------------------------------------------------------------------

/// What the host asks for. Payloads that are only passed on stay outside.
#[derive(Clone, Copy, Debug, PartialEq, Eq, Structural)]
pub enum ConfigRequest {
    Ping,
    GetVersion,
    GetAllApps,
    GetLayout,
    GetGlobalConfig,
    GetAppParams { layout_id: u8 },
    SetAppParams { layout_id: u8 },
    GetAllAppParams,
    SetGlobalConfig,
    SetLayout,
    FactoryReset,
    HoldPerfMute,
    ReleasePerfMute,
    MeasureVoOct { output_jack: u8, aux_input: u8, dac_counts: u16 },
    SetVoOctOutput { output_jack: u8, dac_counts: u16 },
    ReleaseVoOctOutput { output_jack: u8 },
}

/// What the host is told.
#[derive(Clone, Copy, Debug, PartialEq, Eq, Structural)]
pub enum ConfigReply {
    Pong,
    Version,
    BatchStart(usize),
    BatchEnd,
    AppConfig(u8),
    Layout,
    GlobalConfig,
    /// Parameters of an app as it told them.
    AppState(u8),
    /// No parameters: the app is not there yet, or did not answer in time.
    EmptyAppState(u8),
}

/// One step of serving a request.
#[derive(Clone, Copy, Debug, PartialEq, Eq, Structural)]
pub enum ConfigAct {
    Reply(ConfigReply),
    /// Drop stale replies of apps.
    DrainParams,
    /// Ask an app for its parameters.
    RequestParams(u8),
    /// Hand an app new parameters.
    SendParams(u8),
    /// Wait for an app's parameters and answer with them.
    AwaitParams { layout_id: u8, timeout_ms: u64 },
    /// Forward the parameters of so many apps as they come.
    ForwardParams { count: usize, timeout_ms: u64 },
    /// Validate the new global configuration and publish it.
    PublishGlobalConfig,
    /// Validate the new layout and keep it: it is the one that a reply tells.
    KeepLayout,
    /// Publish the layout that is kept.
    PublishLayout,
    Pause(u64),
    FactoryReset,
    HoldMute,
    ReleaseMute,
    Calibrate,
}

/// State of the device that decides how requests are served.
#[derive(Clone, Copy, Debug, PartialEq, Eq, Structural)]
pub struct DeviceState {
    pub spawn_active: bool,
    pub start_held: bool,
    pub host_holds_mute: bool,
}

impl DeviceState {
    /// Apps are coming or going: they cannot answer.
    pub open spec fn spawning(self) -> bool {
        self.spawn_active || self.start_held
    }
}

/// Requests that change apps keep the local MIDI muted for a while.
pub open spec fn extends_mute(req: ConfigRequest) -> bool {
    req is SetLayout || req is SetAppParams || req is HoldPerfMute || req is FactoryReset
}

/// Requests whose steps end with the first reply that cannot be sent.
pub open spec fn is_batch(req: ConfigRequest) -> bool {
    req is GetAllApps || req is GetAllAppParams
}

/// Apps answer through sixteen signals.
pub open spec fn addressable(req: ConfigRequest, dev: DeviceState, ids: Seq<u8>) -> bool {
    match req {
        ConfigRequest::GetAppParams { layout_id } => dev.spawning() || layout_id < 16,
        ConfigRequest::SetAppParams { layout_id } => dev.spawning() || layout_id < 16,
        ConfigRequest::GetAllAppParams => dev.spawning() || forall|i: int|
            0 <= i < ids.len() ==> #[trigger] ids[i] < 16,
        _ => true,
    }
}

pub open spec fn batch_timeout(n: int) -> u64 {
    let t = 3000 * (if n > 1 { n } else { 1 });
    if t <= u64::MAX { t as u64 } else { u64::MAX }
}

/// The steps that serve a request. `ids` are the layout identifiers in use,
/// `apps` the identifiers of the registered apps.
pub open spec fn steps_for(
    req: ConfigRequest,
    dev: DeviceState,
    ids: Seq<u8>,
    apps: Seq<u8>,
) -> Seq<ConfigAct> {
    match req {
        ConfigRequest::Ping => seq![ConfigAct::Reply(ConfigReply::Pong)],
        ConfigRequest::GetVersion => seq![ConfigAct::Reply(ConfigReply::Version)],
        ConfigRequest::GetAllApps => seq![
            ConfigAct::Reply(ConfigReply::BatchStart(apps.len() as usize)),
        ] + Seq::new(apps.len(), |i: int| ConfigAct::Reply(ConfigReply::AppConfig(apps[i])))
            + seq![ConfigAct::Reply(ConfigReply::BatchEnd)],
        ConfigRequest::GetLayout => seq![ConfigAct::Reply(ConfigReply::Layout)],
        ConfigRequest::GetGlobalConfig => seq![ConfigAct::Reply(ConfigReply::GlobalConfig)],
        ConfigRequest::GetAppParams { layout_id } => if dev.spawning() {
            seq![ConfigAct::Reply(ConfigReply::EmptyAppState(layout_id))]
        } else {
            seq![
                ConfigAct::DrainParams,
                ConfigAct::RequestParams(layout_id),
                ConfigAct::AwaitParams {
                    layout_id,
                    timeout_ms: if dev.host_holds_mute {
                        APP_PARAM_HOLD_TIMEOUT_MS
                    } else {
                        APP_PARAM_GET_TIMEOUT_MS
                    },
                },
            ]
        },
        ConfigRequest::SetAppParams { layout_id } => if dev.spawning() {
            seq![ConfigAct::Reply(ConfigReply::EmptyAppState(layout_id))]
        } else {
            seq![
                ConfigAct::DrainParams,
                ConfigAct::SendParams(layout_id),
                ConfigAct::AwaitParams { layout_id, timeout_ms: APP_PARAM_SET_TIMEOUT_MS },
            ]
        },
        ConfigRequest::GetAllAppParams => seq![
            ConfigAct::Reply(ConfigReply::BatchStart(ids.len() as usize)),
        ] + (if ids.len() == 0 {
            Seq::empty()
        } else if dev.spawning() {
            Seq::new(ids.len(), |i: int| ConfigAct::Reply(ConfigReply::EmptyAppState(ids[i])))
        } else {
            Seq::new(ids.len(), |i: int| ConfigAct::RequestParams(ids[i])).push(
                ConfigAct::ForwardParams {
                    count: ids.len() as usize,
                    timeout_ms: batch_timeout(ids.len() as int),
                },
            )
        }) + seq![ConfigAct::Reply(ConfigReply::BatchEnd)],
        ConfigRequest::SetGlobalConfig => seq![ConfigAct::PublishGlobalConfig],
        ConfigRequest::SetLayout => seq![
            ConfigAct::KeepLayout,
            ConfigAct::Reply(ConfigReply::Layout),
            ConfigAct::Pause(LAYOUT_PUBLISH_DELAY_MS),
            ConfigAct::PublishLayout,
        ],
        ConfigRequest::FactoryReset => seq![ConfigAct::FactoryReset],
        ConfigRequest::HoldPerfMute => seq![
            ConfigAct::HoldMute,
            ConfigAct::Reply(ConfigReply::Pong),
        ],
        ConfigRequest::ReleasePerfMute => seq![
            ConfigAct::ReleaseMute,
            ConfigAct::Reply(ConfigReply::Pong),
        ],
        _ => seq![ConfigAct::Calibrate],
    }
}

/// How a request is served.
pub struct ConfigPlan {
    /// Keep the local MIDI muted for a while.
    pub extend_mute: bool,
    /// A reply that cannot be sent ends the steps.
    pub stop_on_error: bool,
    pub steps: Vec<ConfigAct>,
}

fn push_ids(steps: &mut Vec<ConfigAct>, ids: &[u8], empty_state: bool)
    ensures
        final(steps)@ == old(steps)@ + Seq::new(
            ids@.len(),
            |i: int|
                if empty_state {
                    ConfigAct::Reply(ConfigReply::EmptyAppState(ids@[i]))
                } else {
                    ConfigAct::RequestParams(ids@[i])
                },
        ),
{
    let ghost s0 = steps@;
    let ghost all = Seq::new(
        ids@.len(),
        |i: int|
            if empty_state {
                ConfigAct::Reply(ConfigReply::EmptyAppState(ids@[i]))
            } else {
                ConfigAct::RequestParams(ids@[i])
            },
    );
    let mut i: usize = 0;
    assert(steps@ =~= s0 + all.subrange(0, 0));
    while i < ids.len()
        invariant
            i <= ids@.len(),
            all == Seq::new(
                ids@.len(),
                |k: int|
                    if empty_state {
                        ConfigAct::Reply(ConfigReply::EmptyAppState(ids@[k]))
                    } else {
                        ConfigAct::RequestParams(ids@[k])
                    },
            ),
            steps@ == s0 + all.subrange(0, i as int),
        decreases ids@.len() - i,
    {
        if empty_state {
            steps.push(ConfigAct::Reply(ConfigReply::EmptyAppState(ids[i])));
        } else {
            steps.push(ConfigAct::RequestParams(ids[i]));
        }
        i = i + 1;
        assert(steps@ =~= s0 + all.subrange(0, i as int));
    }
    assert(all.subrange(0, ids@.len() as int) =~= all);
}

/// Decides how a request is served.
pub fn plan_request(req: ConfigRequest, dev: DeviceState, ids: &[u8], apps: &[u8]) -> (r:
    ConfigPlan)
    requires
        addressable(req, dev, ids@),
    ensures
        r.extend_mute == extends_mute(req),
        r.stop_on_error == is_batch(req),
        r.steps@ == steps_for(req, dev, ids@, apps@),
{
    let busy = dev.spawn_active || dev.start_held;
    let mut steps: Vec<ConfigAct> = Vec::new();
    let mut extend_mute = false;
    let mut stop_on_error = false;
    match req {
        ConfigRequest::Ping => {
            steps.push(ConfigAct::Reply(ConfigReply::Pong));
        },
        ConfigRequest::GetVersion => {
            steps.push(ConfigAct::Reply(ConfigReply::Version));
        },
        ConfigRequest::GetAllApps => {
            stop_on_error = true;
            steps.push(ConfigAct::Reply(ConfigReply::BatchStart(apps.len())));
            let ghost all = Seq::new(
                apps@.len(),
                |i: int| ConfigAct::Reply(ConfigReply::AppConfig(apps@[i])),
            );
            let ghost s0 = steps@;
            let mut i: usize = 0;
            assert(steps@ =~= s0 + all.subrange(0, 0));
            while i < apps.len()
                invariant
                    i <= apps@.len(),
                    all == Seq::new(
                        apps@.len(),
                        |k: int| ConfigAct::Reply(ConfigReply::AppConfig(apps@[k])),
                    ),
                    steps@ == s0 + all.subrange(0, i as int),
                decreases apps@.len() - i,
            {
                steps.push(ConfigAct::Reply(ConfigReply::AppConfig(apps[i])));
                i = i + 1;
                assert(steps@ =~= s0 + all.subrange(0, i as int));
            }
            assert(all.subrange(0, apps@.len() as int) =~= all);
            steps.push(ConfigAct::Reply(ConfigReply::BatchEnd));
        },
        ConfigRequest::GetLayout => {
            steps.push(ConfigAct::Reply(ConfigReply::Layout));
        },
        ConfigRequest::GetGlobalConfig => {
            steps.push(ConfigAct::Reply(ConfigReply::GlobalConfig));
        },
        ConfigRequest::GetAppParams { layout_id } => {
            if busy {
                steps.push(ConfigAct::Reply(ConfigReply::EmptyAppState(layout_id)));
            } else {
                steps.push(ConfigAct::DrainParams);
                steps.push(ConfigAct::RequestParams(layout_id));
                let timeout_ms: u64 = if dev.host_holds_mute {
                    APP_PARAM_HOLD_TIMEOUT_MS
                } else {
                    APP_PARAM_GET_TIMEOUT_MS
                };
                steps.push(ConfigAct::AwaitParams { layout_id, timeout_ms });
            }
        },
        ConfigRequest::SetAppParams { layout_id } => {
            extend_mute = true;
            if busy {
                steps.push(ConfigAct::Reply(ConfigReply::EmptyAppState(layout_id)));
            } else {
                steps.push(ConfigAct::DrainParams);
                steps.push(ConfigAct::SendParams(layout_id));
                steps.push(
                    ConfigAct::AwaitParams { layout_id, timeout_ms: APP_PARAM_SET_TIMEOUT_MS },
                );
            }
        },
        ConfigRequest::GetAllAppParams => {
            stop_on_error = true;
            let n: usize = ids.len();
            steps.push(ConfigAct::Reply(ConfigReply::BatchStart(n)));
            if n > 0 {
                push_ids(&mut steps, ids, busy);
                if !busy {
                    let timeout_ms: u64 = if n as u64 <= u64::MAX / APP_PARAM_GET_TIMEOUT_MS {
                        APP_PARAM_GET_TIMEOUT_MS * n as u64
                    } else {
                        u64::MAX
                    };
                    steps.push(ConfigAct::ForwardParams { count: n, timeout_ms });
                }
            }
            steps.push(ConfigAct::Reply(ConfigReply::BatchEnd));
        },
        ConfigRequest::SetGlobalConfig => {
            steps.push(ConfigAct::PublishGlobalConfig);
        },
        ConfigRequest::SetLayout => {
            extend_mute = true;
            // The answer tells the new layout, and goes before the spawning
            // keeps USB busy.
            steps.push(ConfigAct::KeepLayout);
            steps.push(ConfigAct::Reply(ConfigReply::Layout));
            steps.push(ConfigAct::Pause(LAYOUT_PUBLISH_DELAY_MS));
            steps.push(ConfigAct::PublishLayout);
        },
        ConfigRequest::FactoryReset => {
            extend_mute = true;
            steps.push(ConfigAct::FactoryReset);
        },
        ConfigRequest::HoldPerfMute => {
            extend_mute = true;
            steps.push(ConfigAct::HoldMute);
            steps.push(ConfigAct::Reply(ConfigReply::Pong));
        },
        ConfigRequest::ReleasePerfMute => {
            steps.push(ConfigAct::ReleaseMute);
            steps.push(ConfigAct::Reply(ConfigReply::Pong));
        },
        _ => {
            steps.push(ConfigAct::Calibrate);
        },
    }
    assert(steps@ =~= steps_for(req, dev, ids@, apps@));
    ConfigPlan { extend_mute, stop_on_error, steps }
}

/// Answer once the wait for an app's parameters is over.
pub fn params_reply(layout_id: u8, answered: bool) -> (r: ConfigReply)
    ensures
        r == if answered {
            ConfigReply::AppState(layout_id)
        } else {
            ConfigReply::EmptyAppState(layout_id)
        },
{
    if answered {
        ConfigReply::AppState(layout_id)
    } else {
        ConfigReply::EmptyAppState(layout_id)
    }
}

/// First of the entries that satisfies a condition on its position.
pub open spec fn first_with_id(layout: Seq<LayoutEntry>, layout_id: u8, n: int) -> Option<int>
    decreases n,
{
    if n <= 0 {
        None
    } else {
        match first_with_id(layout, layout_id, n - 1) {
            Some(i) => Some(i),
            None => if layout[n - 1].layout_id == layout_id { Some(n - 1) } else { None },
        }
    }
}

proof fn first_with_id_stays(layout: Seq<LayoutEntry>, layout_id: u8, k: int, n: int)
    requires
        0 <= k <= n,
        first_with_id(layout, layout_id, k) is Some,
    ensures
        first_with_id(layout, layout_id, n) == first_with_id(layout, layout_id, k),
    decreases n - k,
{
    if k < n {
        assert(first_with_id(layout, layout_id, k + 1) == first_with_id(layout, layout_id, k));
        first_with_id_stays(layout, layout_id, k + 1, n);
    }
}

/// Channel whose button confirms that an app took its parameters.
pub fn confirm_channel(layout: &Vec<LayoutEntry>, layout_id: u8) -> (r: Option<usize>)
    ensures
        match first_with_id(layout@, layout_id, layout@.len() as int) {
            Some(i) => r == Some(layout@[i].start_channel),
            None => r is None,
        },
{
    let mut i: usize = 0;
    while i < layout.len()
        invariant
            i <= layout@.len(),
            first_with_id(layout@, layout_id, i as int) is None,
        decreases layout@.len() - i,
    {
        if layout[i].layout_id == layout_id {
            proof {
                first_with_id_stays(layout@, layout_id, i + 1, layout@.len() as int);
            }
            return Some(layout[i].start_channel);
        }
        i = i + 1;
    }
    None
}

// ---------------------------------------------------------------------------
// Calibration
// ---------------------------------------------------------------------------

/// The jack lies on the channels of the app.
pub open spec fn covers(e: LayoutEntry, jack: int) -> bool {
    e.start_channel <= jack < e.start_channel + e.channels
}

/// First of the first `n` entries that covers a jack.
pub open spec fn first_covering(layout: Seq<LayoutEntry>, jack: int, n: int) -> Option<LayoutEntry>
    decreases n,
{
    if n <= 0 {
        None
    } else {
        match first_covering(layout, jack, n - 1) {
            Some(e) => Some(e),
            None => if covers(layout[n - 1], jack) { Some(layout[n - 1]) } else { None },
        }
    }
}

pub open spec fn owner_of(layout: Seq<LayoutEntry>, jack: int) -> Option<LayoutEntry> {
    first_covering(layout, jack, layout.len() as int)
}

proof fn first_covering_stays(layout: Seq<LayoutEntry>, jack: int, k: int, n: int)
    requires
        0 <= k <= n,
        first_covering(layout, jack, k) is Some,
    ensures
        first_covering(layout, jack, n) == first_covering(layout, jack, k),
    decreases n - k,
{
    if k < n {
        assert(first_covering(layout, jack, k + 1) == first_covering(layout, jack, k));
        first_covering_stays(layout, jack, k + 1, n);
    }
}

/// Find the app (if any) currently occupying a jack.
pub fn find_jack_owner(layout: &Vec<LayoutEntry>, jack: u8) -> (r: Option<LayoutEntry>)
    ensures
        r == owner_of(layout@, jack as int),
{
    let j: usize = jack as usize;
    let mut i: usize = 0;
    while i < layout.len()
        invariant
            i <= layout@.len(),
            j == jack,
            first_covering(layout@, jack as int, i as int) is None,
        decreases layout@.len() - i,
    {
        let e = layout[i];
        if j >= e.start_channel && j - e.start_channel < e.channels {
            proof {
                first_covering_stays(layout@, jack as int, i + 1, layout@.len() as int);
            }
            return Some(e);
        }
        i = i + 1;
    }
    None
}

/// Function of a converter port.
#[derive(Clone, Copy, Debug, PartialEq, Eq, Structural)]
pub enum PortMode {
    /// High impedance.
    HighZ,
    /// Analog output, 0 to 10 V.
    Dac,
    /// Digital output at the given level.
    GateOut(u16),
}

/// Outcome told to the host.
#[derive(Clone, Copy, Debug, PartialEq, Eq, Structural)]
pub enum CalReply {
    /// The measured frequency.
    Frequency,
    CalError,
    OutputSet,
}

/// One step of a calibration request.
#[derive(Clone, Copy, Debug, PartialEq, Eq, Structural)]
pub enum CalStep {
    /// Hand the request to the layout task and wait until it is done.
    Layout(EvictionCmd),
    Configure { port: usize, mode: PortMode },
    /// Write the converter value of a jack.
    Drive { jack: usize, counts: u16 },
    /// Keep driving the jack, let it settle and measure an auxiliary input.
    Measure { jack: usize, aux: usize, counts: u16 },
    Reply(CalReply),
}

/// Level of an auxiliary output that is given back.
pub const AUX_GATE_LEVEL: u16 = 2048;

pub open spec fn restore_cmd(e: LayoutEntry) -> CalStep {
    CalStep::Layout(EvictionCmd::Restore(e.start_channel, e.app_id, e.channels, e.layout_id))
}

pub open spec fn evict_cmd(e: LayoutEntry) -> CalStep {
    CalStep::Layout(EvictionCmd::Evict(e.start_channel))
}

fn restore_step(e: LayoutEntry) -> (r: CalStep)
    ensures
        r == restore_cmd(e),
{
    CalStep::Layout(EvictionCmd::Restore(e.start_channel, e.app_id, e.channels, e.layout_id))
}

/// One step if there is an app, none otherwise.
pub open spec fn restoring(e: Option<LayoutEntry>) -> Seq<CalStep> {
    match e {
        Some(e) => seq![restore_cmd(e)],
        None => Seq::empty(),
    }
}

pub open spec fn evicting(e: Option<LayoutEntry>) -> Seq<CalStep> {
    match e {
        Some(e) => seq![evict_cmd(e)],
        None => Seq::empty(),
    }
}

/// Jack and app of an eviction that waits for its release.
#[derive(Clone, Copy, Debug, PartialEq, Eq, Structural)]
pub struct PendingEviction {
    pub jack: u8,
    pub app: LayoutEntry,
}

/// A measurement under way.
#[derive(Clone, Copy, Debug, PartialEq, Eq, Structural)]
pub struct MeasureRun {
    pub jack: u8,
    pub aux: u8,
    pub aux_was_active: bool,
    pub evicted: Option<LayoutEntry>,
}

/// Calibration state: at most one app is evicted at a time.
pub struct Calibration {
    pub pending: Option<PendingEviction>,
}

impl Calibration {
    pub open spec fn pending_app(self) -> Option<LayoutEntry> {
        match self.pending {
            Some(p) => Some(p.app),
            None => None,
        }
    }

    /// The pending eviction is not the one for this jack.
    pub open spec fn stale_app(self, jack: u8) -> Option<LayoutEntry> {
        match self.pending {
            Some(p) => if p.jack == jack { None } else { Some(p.app) },
            None => None,
        }
    }

    pub open spec fn holds_jack(self, jack: u8) -> bool {
        self.pending matches Some(p) && p.jack == jack
    }

    pub fn new() -> (r: Self)
        ensures
            r.pending is None,
    {
        Calibration { pending: None }
    }

    /// Steps up to the measurement of `output_jack` through `aux_input`, and
    /// the measurement to finish; `None` where the request is refused.
    pub fn begin_measure(
        &mut self,
        layout: &Vec<LayoutEntry>,
        aux_modes: &[AuxJackMode; 3],
        output_jack: u8,
        aux_input: u8,
        dac_counts: u16,
    ) -> (r: (Vec<CalStep>, Option<MeasureRun>))
        ensures
            aux_input > 2 || output_jack >= 16 ==> {
                &&& r.0@ == seq![CalStep::Reply(CalReply::CalError)]
                &&& r.1 is None
                &&& final(self).pending == old(self).pending
            },
            aux_input <= 2 && output_jack < 16 ==> {
                let active = aux_modes[aux_input as int] !is Idle;
                let owner = owner_of(layout@, output_jack as int);
                &&& r.1 == Some(
                    MeasureRun {
                        jack: output_jack,
                        aux: aux_input,
                        aux_was_active: active,
                        evicted: owner,
                    },
                )
                &&& final(self).pending is None
                &&& r.0@ == restoring(old(self).pending_app()) + evicting(owner) + (if active {
                    seq![CalStep::Configure { port: (17 + aux_input) as usize, mode: PortMode::HighZ }]
                } else {
                    Seq::empty()
                }) + seq![
                    CalStep::Configure { port: output_jack as usize, mode: PortMode::Dac },
                    CalStep::Measure {
                        jack: output_jack as usize,
                        aux: aux_input as usize,
                        counts: dac_counts,
                    },
                ]
            },
    {
        let mut steps: Vec<CalStep> = Vec::new();
        if aux_input > 2 || output_jack >= 16 {
            steps.push(CalStep::Reply(CalReply::CalError));
            assert(steps@ =~= seq![CalStep::Reply(CalReply::CalError)]);
            return (steps, None);
        }
        let ghost c0 = *self;
        match self.pending {
            Some(p) => {
                steps.push(restore_step(p.app));
            },
            None => {},
        }
        self.pending = None;
        let evicted = find_jack_owner(layout, output_jack);
        match evicted {
            Some(e) => {
                steps.push(CalStep::Layout(EvictionCmd::Evict(e.start_channel)));
            },
            None => {},
        }
        let aux: usize = aux_input as usize;
        let aux_was_active = match aux_modes[aux] {
            AuxJackMode::Idle => false,
            _ => true,
        };
        if aux_was_active {
            // An active output would drive the input that is measured.
            steps.push(CalStep::Configure { port: 17 + aux, mode: PortMode::HighZ });
        }
        steps.push(CalStep::Configure { port: output_jack as usize, mode: PortMode::Dac });
        steps.push(CalStep::Measure { jack: output_jack as usize, aux, counts: dac_counts });
        assert(steps@ =~= restoring(c0.pending_app()) + evicting(evicted) + (if aux_was_active {
            seq![CalStep::Configure { port: (17 + aux_input) as usize, mode: PortMode::HighZ }]
        } else {
            Seq::empty()
        }) + seq![
            CalStep::Configure { port: output_jack as usize, mode: PortMode::Dac },
            CalStep::Measure {
                jack: output_jack as usize,
                aux: aux_input as usize,
                counts: dac_counts,
            },
        ]);
        (steps, Some(MeasureRun { jack: output_jack, aux: aux_input, aux_was_active, evicted }))
    }

    /// Drive a jack and hold it for a manual measurement.
    pub fn set_output(&mut self, layout: &Vec<LayoutEntry>, output_jack: u8, dac_counts: u16) -> (r:
        Vec<CalStep>)
        ensures
            output_jack >= 16 ==> r@ == seq![CalStep::Reply(CalReply::OutputSet)]
                && final(self).pending == old(self).pending,
            output_jack < 16 ==> {
                let owner = if old(self).holds_jack(output_jack) {
                    None
                } else {
                    owner_of(layout@, output_jack as int)
                };
                &&& r@ == restoring(old(self).stale_app(output_jack)) + evicting(owner) + seq![
                    CalStep::Configure { port: output_jack as usize, mode: PortMode::Dac },
                    CalStep::Drive { jack: output_jack as usize, counts: dac_counts },
                    CalStep::Reply(CalReply::OutputSet),
                ]
                &&& final(self).pending == if old(self).holds_jack(output_jack) {
                    old(self).pending
                } else {
                    match owner {
                        Some(app) => Some(PendingEviction { jack: output_jack, app }),
                        None => None,
                    }
                }
            },
    {
        let ghost c0 = *self;
        let mut steps: Vec<CalStep> = Vec::new();
        if output_jack >= 16 {
            steps.push(CalStep::Reply(CalReply::OutputSet));
            assert(steps@ =~= seq![CalStep::Reply(CalReply::OutputSet)]);
            return steps;
        }
        match self.pending {
            Some(p) => {
                if p.jack != output_jack {
                    self.pending = None;
                    steps.push(restore_step(p.app));
                }
            },
            None => {},
        }
        let ghost mut owner: Option<LayoutEntry> = None;
        if self.pending.is_none() {
            let found = find_jack_owner(layout, output_jack);
            proof {
                owner = found;
            }
            match found {
                Some(app) => {
                    steps.push(CalStep::Layout(EvictionCmd::Evict(app.start_channel)));
                    self.pending = Some(PendingEviction { jack: output_jack, app });
                },
                None => {},
            }
        }
        steps.push(CalStep::Configure { port: output_jack as usize, mode: PortMode::Dac });
        steps.push(CalStep::Drive { jack: output_jack as usize, counts: dac_counts });
        steps.push(CalStep::Reply(CalReply::OutputSet));
        assert(steps@ =~= restoring(c0.stale_app(output_jack)) + evicting(owner) + seq![
            CalStep::Configure { port: output_jack as usize, mode: PortMode::Dac },
            CalStep::Drive { jack: output_jack as usize, counts: dac_counts },
            CalStep::Reply(CalReply::OutputSet),
        ]);
        steps
    }

    /// Give a jack back, and the app that was evicted for it.
    pub fn release_output(&mut self, output_jack: u8) -> (r: Vec<CalStep>)
        ensures
            r@ == (if output_jack < 16 {
                seq![CalStep::Configure { port: output_jack as usize, mode: PortMode::HighZ }]
            } else {
                Seq::empty()
            }) + (if old(self).holds_jack(output_jack) {
                restoring(old(self).pending_app())
            } else {
                Seq::empty()
            }) + seq![CalStep::Reply(CalReply::OutputSet)],
            final(self).pending == if old(self).holds_jack(output_jack) {
                None
            } else {
                old(self).pending
            },
    {
        let ghost c0 = *self;
        let mut steps: Vec<CalStep> = Vec::new();
        if output_jack < 16 {
            steps.push(CalStep::Configure { port: output_jack as usize, mode: PortMode::HighZ });
        }
        match self.pending {
            Some(p) => {
                if p.jack == output_jack {
                    self.pending = None;
                    steps.push(restore_step(p.app));
                }
            },
            None => {},
        }
        steps.push(CalStep::Reply(CalReply::OutputSet));
        assert(steps@ =~= (if output_jack < 16 {
            seq![CalStep::Configure { port: output_jack as usize, mode: PortMode::HighZ }]
        } else {
            Seq::empty()
        }) + (if c0.holds_jack(output_jack) {
            restoring(c0.pending_app())
        } else {
            Seq::empty()
        }) + seq![CalStep::Reply(CalReply::OutputSet)]);
        steps
    }
}

impl MeasureRun {
    pub open spec fn finishing(self, measured: bool) -> Seq<CalStep> {
        seq![
            CalStep::Reply(
                if measured {
                    CalReply::Frequency
                } else {
                    CalReply::CalError
                },
            ),
            CalStep::Configure { port: self.jack as usize, mode: PortMode::HighZ },
        ] + (if self.aux_was_active {
            seq![
                CalStep::Configure {
                    port: (17 + self.aux) as usize,
                    mode: PortMode::GateOut(AUX_GATE_LEVEL),
                },
            ]
        } else {
            Seq::empty()
        }) + restoring(self.evicted)
    }

    /// Steps after the measurement: answer, then give everything back.
    pub fn finish(self, measured: bool) -> (r: Vec<CalStep>)
        ensures
            r@ == self.finishing(measured),
    {
        let mut steps: Vec<CalStep> = Vec::new();
        steps.push(
            CalStep::Reply(
                if measured {
                    CalReply::Frequency
                } else {
                    CalReply::CalError
                },
            ),
        );
        steps.push(CalStep::Configure { port: self.jack as usize, mode: PortMode::HighZ });
        if self.aux_was_active {
            steps.push(
                CalStep::Configure {
                    port: 17 + self.aux as usize,
                    mode: PortMode::GateOut(AUX_GATE_LEVEL),
                },
            );
        }
        match self.evicted {
            Some(e) => {
                steps.push(restore_step(e));
            },
            None => {},
        }
        assert(steps@ =~= self.finishing(measured));
        steps
    }
}

// ---------------------------------------------------------------------------
// Laws
// ---------------------------------------------------------------------------

/// Reading gives back what was written: a framed payload is well framed and
/// its payload is the one that went in, up to the 65535 bytes that two length
/// bytes can tell.
pub proof fn framing_round_trip(payload: Seq<u8>)
    requires
        payload.len() <= 65535,
    ensures
        well_framed(framed(payload)),
        framed(payload).subrange(2, framed(payload).len() as int) == payload,
{
    assert(framed(payload).subrange(2, framed(payload).len() as int) =~= payload);
}

/// A frame starts with the header behind its start byte, so that stripping
/// start, header and end gives the packed message back.
pub proof fn sysex_round_trip(header: Seq<u8>, packed: Seq<u8>)
    ensures
        ({
            let body = sysex(header, packed).subrange(1, (1 + header.len() + packed.len()) as int);
            &&& starts_with(body, header)
            &&& body.subrange(header.len() as int, body.len() as int) == packed
        }),
{
    let body = sysex(header, packed).subrange(1, (1 + header.len() + packed.len()) as int);
    assert(body.subrange(0, header.len() as int) =~= header);
    assert(body.subrange(header.len() as int, body.len() as int) =~= packed);
}

/// The event stream carries the frame: every byte is in its place, and the
/// code of the last event tells where the frame ends.
pub proof fn stream_carries_frame(frame: Seq<u8>, k: int)
    requires
        0 <= k < frame.len(),
    ensures
        event_stream(frame)[4 * (k / 3) + 1 + k % 3] == frame[k],
        ({
            let last = events(frame.len() as int) - 1;
            3 * last + event_stream(frame)[4 * last] % 16 - 4 == frame.len()
        }),
{
    let n = frame.len() as int;
    let at = 4 * (k / 3) + 1 + k % 3;
    assert(at / 4 == k / 3);
    assert(at % 4 == 1 + k % 3);
    let last = events(n) - 1;
    assert(4 * last / 4 == last && 4 * last % 4 == 0);
    assert(1 <= n - 3 * last <= 3);
}

/// A transfer always ends with a packet that is not full.
pub proof fn transfer_ends_short(frame: Seq<u8>)
    requires
        frame.len() > 0,
    ensures
        packets(frame).len() > 0,
        packets(frame).last().len() < 64,
        forall|p: int|
            0 <= p < packets(frame).len() - 1 ==> (#[trigger] packets(frame)[p]).len() == 64,
{
}

/// Evictions minus restores among the steps.
pub open spec fn net_evictions(steps: Seq<CalStep>) -> int
    decreases steps.len(),
{
    if steps.len() == 0 {
        0
    } else {
        net_evictions(steps.drop_last()) + match steps.last() {
            CalStep::Layout(EvictionCmd::Evict(_)) => 1,
            CalStep::Layout(EvictionCmd::Restore(_, _, _, _)) => -1int,
            _ => 0,
        }
    }
}

proof fn net_of_sum(a: Seq<CalStep>, b: Seq<CalStep>)
    ensures
        net_evictions(a + b) == net_evictions(a) + net_evictions(b),
    decreases b.len(),
{
    if b.len() == 0 {
        assert(a + b =~= a);
    } else {
        assert((a + b).drop_last() =~= a + b.drop_last());
        net_of_sum(a, b.drop_last());
    }
}

proof fn net_of_option(e: Option<LayoutEntry>)
    ensures
        net_evictions(evicting(e)) == if e is Some { 1int } else { 0 },
        net_evictions(restoring(e)) == if e is Some { -1int } else { 0 },
{
    reveal_with_fuel(net_evictions, 2);
}

pub open spec fn count(e: Option<LayoutEntry>) -> int {
    if e is Some { 1 } else { 0 }
}

/// A measurement evicts and restores in balance: whatever was pending before
/// is settled, and the app it evicts itself is restored at its end.
pub proof fn measurement_leaves_no_app_stranded(
    pending: Option<LayoutEntry>,
    run: MeasureRun,
    middle: Seq<CalStep>,
    measured: bool,
)
    requires
        net_evictions(middle) == 0,
    ensures
        net_evictions(
            restoring(pending) + evicting(run.evicted) + middle + run.finishing(measured),
        ) == -count(pending),
{
    let pre = restoring(pending) + evicting(run.evicted) + middle;
    net_of_sum(restoring(pending), evicting(run.evicted));
    net_of_sum(restoring(pending) + evicting(run.evicted), middle);
    net_of_sum(pre, run.finishing(measured));
    net_of_option(pending);
    net_of_option(run.evicted);
    let a = seq![
        CalStep::Reply(
            if measured {
                CalReply::Frequency
            } else {
                CalReply::CalError
            },
        ),
        CalStep::Configure { port: run.jack as usize, mode: PortMode::HighZ },
    ];
    let b = if run.aux_was_active {
        seq![
            CalStep::Configure {
                port: (17 + run.aux) as usize,
                mode: PortMode::GateOut(AUX_GATE_LEVEL),
            },
        ]
    } else {
        Seq::empty()
    };
    reveal_with_fuel(net_evictions, 3);
    assert(net_evictions(a) == 0);
    assert(net_evictions(b) == 0);
    net_of_sum(a, b);
    net_of_sum(a + b, restoring(run.evicted));
}

/// Holding a jack and releasing it restores exactly what was evicted for it.
pub proof fn release_restores_what_was_evicted(c: Calibration, jack: u8, app: LayoutEntry)
    requires
        c.pending == Some(PendingEviction { jack, app }),
    ensures
        c.holds_jack(jack),
        restoring(c.pending_app()) == seq![restore_cmd(app)],
        c.stale_app(jack) is None,
{
}

} // verus!
