//! Descriptors of the USB MIDI function, with named jacks.

use crate::bounded::{named_jacks, named_jacks_at, named_jacks_len, named_jacks_new, named_jacks_push};
use vstd::prelude::*;

verus! {

pub const USB_AUDIO_CLASS: u8 = 0x01;
pub const USB_AUDIOCONTROL_SUBCLASS: u8 = 0x01;
pub const USB_MIDISTREAMING_SUBCLASS: u8 = 0x03;
pub const MIDI_IN_JACK_SUBTYPE: u8 = 0x02;
pub const MIDI_OUT_JACK_SUBTYPE: u8 = 0x03;
pub const EMBEDDED: u8 = 0x01;
pub const EXTERNAL: u8 = 0x02;
pub const CS_INTERFACE: u8 = 0x24;
pub const CS_ENDPOINT: u8 = 0x25;
pub const HEADER_SUBTYPE: u8 = 0x01;
pub const MS_HEADER_SUBTYPE: u8 = 0x01;
pub const MS_GENERAL: u8 = 0x01;
pub const PROTOCOL_NONE: u8 = 0x00;
pub const MIDI_IN_SIZE: u8 = 0x06;
pub const MIDI_OUT_SIZE: u8 = 0x09;

/// Maximum number of named jacks (USB-MIDI allows up to 16 virtual cables).
pub const MAX_JACK_NAMES: usize = 16;

/// Position of the first name with this string index, among the first `n`.
pub open spec fn first_named(names: Seq<(u8, Seq<char>)>, index: u8, n: int) -> Option<int>
    decreases n,
{
    if n <= 0 {
        None
    } else {
        match first_named(names, index, n - 1) {
            Some(i) => Some(i),
            None => if names[n - 1].0 == index { Some(n - 1) } else { None },
        }
    }
}

/// Serves the jack name strings to the USB stack.
pub struct JackNameHandler {
    names: heapless::Vec<(u8, &'static str), 16>,
}

impl JackNameHandler {
    pub closed spec fn view(&self) -> Seq<(u8, Seq<char>)> {
        named_jacks(self.names)
    }

    pub fn new() -> (r: Self)
        ensures
            r@ == Seq::<(u8, Seq<char>)>::empty(),
    {
        JackNameHandler { names: named_jacks_new() }
    }

    /// Adds a name under a string index. Tells whether there was room.
    pub fn register(&mut self, index: u8, name: &'static str) -> (ok: bool)
        ensures
            ok == (old(self)@.len() < MAX_JACK_NAMES),
            final(self)@ == if ok { old(self)@.push((index, name@)) } else { old(self)@ },
    {
        named_jacks_push(&mut self.names, index, name)
    }

    /// The name registered first under a string index.
    pub fn get_string(&self, index: u8) -> (r: Option<&'static str>)
        ensures
            match first_named(self@, index, self@.len() as int) {
                Some(i) => r matches Some(s) && s@ == self@[i].1,
                None => r is None,
            },
    {
        let n: usize = named_jacks_len(&self.names);
        let mut i: usize = 0;
        while i < n
            invariant
                i <= n,
                n == self@.len(),
                first_named(self@, index, i as int) is None,
            decreases n - i,
        {
            let (at, name) = named_jacks_at(&self.names, i);
            if at == index {
                proof {
                    first_named_stays(self@, index, i + 1, n as int);
                }
                return Some(name);
            }
            i = i + 1;
        }
        None
    }
}

proof fn first_named_stays(names: Seq<(u8, Seq<char>)>, index: u8, k: int, n: int)
    requires
        0 <= k <= n,
        first_named(names, index, k) is Some,
    ensures
        first_named(names, index, n) == first_named(names, index, k),
    decreases n - k,
{
    if k < n {
        assert(first_named(names, index, k + 1) == first_named(names, index, k));
        first_named_stays(names, index, k + 1, n);
    }
}

// ---------------------------------------------------------------------------
// Class descriptors
// ---------------------------------------------------------------------------

/// Identifier of the i-th external IN jack.
pub open spec fn in_jack_id_ext(i: int) -> int {
    2 * i + 1
}

/// Identifier of the i-th embedded OUT jack.
pub open spec fn out_jack_id_emb(i: int) -> int {
    2 * i + 2
}

/// Identifier of the i-th external OUT jack.
pub open spec fn out_jack_id_ext(n_in: int, i: int) -> int {
    2 * n_in + 2 * i + 1
}

/// Identifier of the i-th embedded IN jack.
pub open spec fn in_jack_id_emb(n_in: int, i: int) -> int {
    2 * n_in + 2 * i + 2
}

/// String index of a cable's name; 0 for cables beyond the names.
pub open spec fn name_index(names: Seq<u8>, cable: int) -> u8 {
    if 0 <= cable < names.len() { names[cable] } else { 0 }
}

/// Length that the streaming header announces.
pub open spec fn streaming_length(n_in: int, n_out: int) -> int {
    7 + (n_in + n_out) * 15 + 7 + (4 + n_out) + 7 + (4 + n_in)
}

/// The j-th jack descriptor: external INs, embedded INs, external OUTs and
/// embedded OUTs, in this order.
pub open spec fn jack_descriptor(n_in: int, n_out: int, names: Seq<u8>, j: int) -> Seq<u8> {
    if j < n_in {
        seq![MIDI_IN_JACK_SUBTYPE, EXTERNAL, in_jack_id_ext(j) as u8, 0u8]
    } else if j < n_in + n_out {
        let i = j - n_in;
        seq![MIDI_IN_JACK_SUBTYPE, EMBEDDED, in_jack_id_emb(n_in, i) as u8, name_index(names, i)]
    } else if j < n_in + 2 * n_out {
        let i = j - n_in - n_out;
        seq![
            MIDI_OUT_JACK_SUBTYPE,
            EXTERNAL,
            out_jack_id_ext(n_in, i) as u8,
            1u8,
            in_jack_id_emb(n_in, i) as u8,
            1u8,
            0u8,
        ]
    } else {
        let i = j - n_in - 2 * n_out;
        seq![
            MIDI_OUT_JACK_SUBTYPE,
            EMBEDDED,
            out_jack_id_emb(i) as u8,
            1u8,
            in_jack_id_ext(i) as u8,
            1u8,
            name_index(names, i),
        ]
    }
}

/// Endpoint descriptor of the host-to-device direction.
pub open spec fn endpoint_out(n_in: int, n_out: int) -> Seq<u8> {
    seq![MS_GENERAL, n_out as u8] + Seq::new(n_out as nat, |i: int| in_jack_id_emb(n_in, i) as u8)
}

/// Endpoint descriptor of the device-to-host direction.
pub open spec fn endpoint_in(n_in: int) -> Seq<u8> {
    seq![MS_GENERAL, n_in as u8] + Seq::new(n_in as nat, |i: int| out_jack_id_emb(i) as u8)
}

/// Class-specific descriptors of the function, without length and type bytes.
pub struct MidiClass {
    pub control_header: Vec<u8>,
    pub streaming_header: Vec<u8>,
    pub jacks: Vec<Vec<u8>>,
    pub endpoint_out: Vec<u8>,
    pub endpoint_in: Vec<u8>,
    pub max_packet_size: u16,
}

fn in_jack(kind: u8, id: u8, name: u8) -> (d: Vec<u8>)
    ensures
        d@ == seq![MIDI_IN_JACK_SUBTYPE, kind, id, name],
{
    let d: Vec<u8> = vec![MIDI_IN_JACK_SUBTYPE, kind, id, name];
    assert(d@ =~= seq![MIDI_IN_JACK_SUBTYPE, kind, id, name]);
    d
}

fn out_jack(kind: u8, id: u8, source: u8, name: u8) -> (d: Vec<u8>)
    ensures
        d@ == seq![MIDI_OUT_JACK_SUBTYPE, kind, id, 1u8, source, 1u8, name],
{
    let d: Vec<u8> = vec![MIDI_OUT_JACK_SUBTYPE, kind, id, 1, source, 1, name];
    assert(d@ =~= seq![MIDI_OUT_JACK_SUBTYPE, kind, id, 1u8, source, 1u8, name]);
    d
}

fn jack_name_index(names: &Vec<u8>, cable: u8) -> (r: u8)
    ensures
        r == name_index(names@, cable as int),
{
    if (cable as usize) < names.len() {
        names[cable as usize]
    } else {
        0
    }
}

impl MidiClass {
    /// Descriptors for the given numbers of input and output jacks.
    /// `name_indices[i]` names virtual cable `i`: its embedded IN and OUT jack
    /// share one string. `audio_if` is the number of the control interface.
    pub fn new(
        audio_if: u8,
        n_in_jacks: u8,
        n_out_jacks: u8,
        max_packet_size: u16,
        name_indices: &Vec<u8>,
    ) -> (r: MidiClass)
        requires
            n_in_jacks <= 16,
            n_out_jacks <= 16,
            audio_if < 255,
        ensures
            r.control_header@ == seq![
                HEADER_SUBTYPE,
                0u8,
                1u8,
                9u8,
                0u8,
                1u8,
                (audio_if + 1) as u8,
            ],
            r.streaming_header@ == seq![
                MS_HEADER_SUBTYPE,
                0u8,
                1u8,
                (streaming_length(n_in_jacks as int, n_out_jacks as int) % 256) as u8,
                (streaming_length(n_in_jacks as int, n_out_jacks as int) / 256) as u8,
            ],
            r.jacks@.len() == 2 * (n_in_jacks + n_out_jacks),
            forall|j: int|
                0 <= j < r.jacks@.len() ==> (#[trigger] r.jacks@[j])@ == jack_descriptor(
                    n_in_jacks as int,
                    n_out_jacks as int,
                    name_indices@,
                    j,
                ),
            r.endpoint_out@ == endpoint_out(n_in_jacks as int, n_out_jacks as int),
            r.endpoint_in@ == endpoint_in(n_in_jacks as int),
            r.max_packet_size == max_packet_size,
    {
        let n_in: u8 = n_in_jacks;
        let n_out: u8 = n_out_jacks;
        let control_header: Vec<u8> = vec![HEADER_SUBTYPE, 0, 1, 9, 0, 1, audio_if + 1];
        let total: usize = 7 + (n_in + n_out) as usize * (MIDI_IN_SIZE + MIDI_OUT_SIZE) as usize + 7
            + (4 + n_out as usize) + 7 + (4 + n_in as usize);
        let streaming_header: Vec<u8> = vec![
            MS_HEADER_SUBTYPE,
            0,
            1,
            (total % 256) as u8,
            (total / 256) as u8,
        ];
        let ghost ni = n_in as int;
        let ghost no = n_out as int;
        let ghost names = name_indices@;
        let mut jacks: Vec<Vec<u8>> = Vec::new();
        let mut i: u8 = 0;
        while i < n_in
            invariant
                i <= n_in <= 16,
                n_out <= 16,
                ni == n_in,
                no == n_out,
                jacks@.len() == i,
                forall|j: int|
                    0 <= j < jacks@.len() ==> (#[trigger] jacks@[j])@ == jack_descriptor(
                        ni,
                        no,
                        names,
                        j,
                    ),
            decreases n_in - i,
        {
            jacks.push(in_jack(EXTERNAL, 2 * i + 1, 0));
            i = i + 1;
        }
        i = 0;
        while i < n_out
            invariant
                i <= n_out <= 16,
                n_in <= 16,
                ni == n_in,
                no == n_out,
                names == name_indices@,
                jacks@.len() == n_in + i,
                forall|j: int|
                    0 <= j < jacks@.len() ==> (#[trigger] jacks@[j])@ == jack_descriptor(
                        ni,
                        no,
                        names,
                        j,
                    ),
            decreases n_out - i,
        {
            let name: u8 = jack_name_index(name_indices, i);
            jacks.push(in_jack(EMBEDDED, 2 * n_in + 2 * i + 2, name));
            i = i + 1;
        }
        i = 0;
        while i < n_out
            invariant
                i <= n_out <= 16,
                n_in <= 16,
                ni == n_in,
                no == n_out,
                jacks@.len() == n_in + n_out + i,
                forall|j: int|
                    0 <= j < jacks@.len() ==> (#[trigger] jacks@[j])@ == jack_descriptor(
                        ni,
                        no,
                        names,
                        j,
                    ),
            decreases n_out - i,
        {
            jacks.push(out_jack(EXTERNAL, 2 * n_in + 2 * i + 1, 2 * n_in + 2 * i + 2, 0));
            i = i + 1;
        }
        i = 0;
        while i < n_in
            invariant
                i <= n_in <= 16,
                n_out <= 16,
                ni == n_in,
                no == n_out,
                names == name_indices@,
                jacks@.len() == n_in + 2 * n_out + i,
                forall|j: int|
                    0 <= j < jacks@.len() ==> (#[trigger] jacks@[j])@ == jack_descriptor(
                        ni,
                        no,
                        names,
                        j,
                    ),
            decreases n_in - i,
        {
            let name: u8 = jack_name_index(name_indices, i);
            jacks.push(out_jack(EMBEDDED, 2 * i + 2, 2 * i + 1, name));
            i = i + 1;
        }
        let mut out: Vec<u8> = vec![MS_GENERAL, n_out];
        i = 0;
        assert(out@ =~= seq![MS_GENERAL, n_out] + Seq::new(
            0,
            |k: int| in_jack_id_emb(ni, k) as u8,
        ));
        while i < n_out
            invariant
                i <= n_out <= 16,
                n_in <= 16,
                ni == n_in,
                out@ == seq![MS_GENERAL, n_out] + Seq::new(
                    i as nat,
                    |k: int| in_jack_id_emb(ni, k) as u8,
                ),
            decreases n_out - i,
        {
            out.push(2 * n_in + 2 * i + 2);
            i = i + 1;
            assert(out@ =~= seq![MS_GENERAL, n_out] + Seq::new(
                i as nat,
                |k: int| in_jack_id_emb(ni, k) as u8,
            ));
        }
        let mut inp: Vec<u8> = vec![MS_GENERAL, n_in];
        i = 0;
        assert(inp@ =~= seq![MS_GENERAL, n_in] + Seq::new(0, |k: int| out_jack_id_emb(k) as u8));
        while i < n_in
            invariant
                i <= n_in <= 16,
                inp@ == seq![MS_GENERAL, n_in] + Seq::new(
                    i as nat,
                    |k: int| out_jack_id_emb(k) as u8,
                ),
            decreases n_in - i,
        {
            inp.push(2 * i + 2);
            i = i + 1;
            assert(inp@ =~= seq![MS_GENERAL, n_in] + Seq::new(
                i as nat,
                |k: int| out_jack_id_emb(k) as u8,
            ));
        }
        MidiClass {
            control_header,
            streaming_header,
            jacks,
            endpoint_out: out,
            endpoint_in: inp,
            max_packet_size,
        }
    }

    /// Gets the maximum packet size in bytes.
    pub fn max_packet_size(&self) -> (r: u16)
        ensures
            r == self.max_packet_size,
    {
        self.max_packet_size
    }
}

// ---------------------------------------------------------------------------
// Laws
// ---------------------------------------------------------------------------

/// Bytes of the first `n` jack descriptors, each with its length and type.
pub open spec fn jack_bytes(n_in: int, n_out: int, names: Seq<u8>, n: int) -> int
    decreases n,
{
    if n <= 0 {
        0
    } else {
        jack_bytes(n_in, n_out, names, n - 1) + 2 + jack_descriptor(
            n_in,
            n_out,
            names,
            n - 1,
        ).len()
    }
}

/// The announced length is the length of what follows: the header itself, the
/// jacks, and for each endpoint seven standard bytes and its jack list.
pub proof fn announced_length_is_emitted(n_in: int, n_out: int, names: Seq<u8>)
    requires
        0 <= n_in <= 16,
        0 <= n_out <= 16,
    ensures
        streaming_length(n_in, n_out) == (2 + 5) + jack_bytes(n_in, n_out, names, 2 * (n_in + n_out))
            + 7 + (2 + endpoint_out(n_in, n_out).len()) + 7 + (2 + endpoint_in(n_in).len()),
{
    jack_bytes_are(n_in, n_out, names, 2 * (n_in + n_out));
}

proof fn jack_bytes_are(n_in: int, n_out: int, names: Seq<u8>, n: int)
    requires
        0 <= n_in,
        0 <= n_out,
        0 <= n <= 2 * (n_in + n_out),
    ensures
        jack_bytes(n_in, n_out, names, n) == if n <= n_in + n_out {
            6 * n
        } else {
            6 * (n_in + n_out) + 9 * (n - n_in - n_out)
        },
    decreases n,
{
    if n > 0 {
        jack_bytes_are(n_in, n_out, names, n - 1);
    }
}

/// Every jack has an identifier of its own: the external and embedded INs and
/// OUTs share the numbers from 1 on without a clash.
pub proof fn jack_ids_are_distinct(n_in: int, i: int, j: int)
    requires
        0 <= i < n_in,
        0 <= j,
    ensures
        in_jack_id_ext(i) != out_jack_id_emb(j),
        in_jack_id_ext(i) < in_jack_id_emb(n_in, j),
        in_jack_id_ext(i) < out_jack_id_ext(n_in, j),
        out_jack_id_emb(i) < in_jack_id_emb(n_in, j),
        out_jack_id_emb(i) < out_jack_id_ext(n_in, j),
        in_jack_id_emb(n_in, i) != out_jack_id_ext(n_in, j),
{
}

} // verus!
