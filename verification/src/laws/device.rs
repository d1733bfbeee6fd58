//! Laws of what the device tells its host: descriptors, serial number, and the
//! place where a core died.

use crate::tasks::panic_beacon::fnv1a;
use crate::tasks::transport::{hex_digit, nibble};
use crate::tasks::voct_freq::{MeterPhase, PeriodMeter};
use crate::usb_midi::{endpoint_in, endpoint_out, first_named, jack_descriptor, name_index};
use vstd::prelude::*;

verus! {

/// A string index gets the name that was registered first under it.
pub proof fn first_names_win(names: Seq<(u8, Seq<char>)>, index: u8, n: int, k: int)
    requires
        0 <= k < n <= names.len(),
    ensures
        match first_named(names, index, n) {
            Some(i) => {
                &&& 0 <= i < n
                &&& names[i].0 == index
                &&& k < i ==> names[k].0 != index
            },
            None => names[k].0 != index,
        },
    decreases n,
{
    if k < n - 1 {
        first_names_win(names, index, n - 1, k);
    } else if n > 1 {
        first_names_win(names, index, n - 1, n - 2);
    }
}

/// Every OUT jack is fed by the IN jack of its cable on the other side: what
/// the host sends to an embedded IN leaves at the external OUT, and what comes
/// in at an external IN reaches the host through the embedded OUT.
pub proof fn jacks_are_wired_through(n_in: int, n_out: int, names: Seq<u8>, i: int)
    requires
        0 <= n_in <= 16,
        0 <= n_out <= 16,
    ensures
        0 <= i < n_out ==> {
            let source = jack_descriptor(n_in, n_out, names, n_in + i);
            let d = jack_descriptor(n_in, n_out, names, n_in + n_out + i);
            &&& source.len() == 4 && d.len() == 7
            // An embedded IN jack, with the cable's name.
            &&& source[0] == 2 && source[1] == 1 && source[3] == name_index(names, i)
            // An external OUT jack with one pin, fed by it.
            &&& d[0] == 3 && d[1] == 2 && d[3] == 1 && d[4] == source[2] && d[5] == 1 && d[6] == 0
        },
        0 <= i < n_in ==> {
            let source = jack_descriptor(n_in, n_out, names, i);
            let d = jack_descriptor(n_in, n_out, names, n_in + 2 * n_out + i);
            &&& source.len() == 4 && d.len() == 7
            &&& source[0] == 2 && source[1] == 2 && source[3] == 0
            &&& d[0] == 3 && d[1] == 1 && d[3] == 1 && d[4] == source[2] && d[5] == 1
            &&& d[6] == name_index(names, i)
        },
{
}

/// No two jacks of a device share an identifier, and none has identifier 0.
pub proof fn descriptors_have_their_own_id(n_in: int, n_out: int, names: Seq<u8>, a: int, b: int)
    requires
        0 <= n_in <= 16,
        0 <= n_out <= 16,
        0 <= a < b < 2 * (n_in + n_out),
    ensures
        jack_descriptor(n_in, n_out, names, a)[2] != jack_descriptor(n_in, n_out, names, b)[2],
        jack_descriptor(n_in, n_out, names, a)[2] != 0,
        jack_descriptor(n_in, n_out, names, b)[2] != 0,
{
}

/// The endpoints list the embedded jacks of their direction, cable by cable.
pub proof fn endpoints_list_the_embedded_jacks(n_in: int, n_out: int, names: Seq<u8>, i: int)
    requires
        0 <= n_in <= 16,
        0 <= n_out <= 16,
    ensures
        endpoint_out(n_in, n_out).len() == n_out + 2,
        endpoint_in(n_in).len() == n_in + 2,
        endpoint_out(n_in, n_out)[0] == 1,
        endpoint_in(n_in)[0] == 1,
        endpoint_out(n_in, n_out)[1] == n_out,
        endpoint_in(n_in)[1] == n_in,
        0 <= i < n_out ==> endpoint_out(n_in, n_out)[i + 2] == jack_descriptor(
            n_in,
            n_out,
            names,
            n_in + i,
        )[2],
        0 <= i < n_in ==> endpoint_in(n_in)[i + 2] == jack_descriptor(
            n_in,
            n_out,
            names,
            n_in + 2 * n_out + i,
        )[2],
{
}

/// Cables beyond the names go without one.
pub proof fn cables_have_their_names(names: Seq<u8>, cable: int)
    ensures
        0 <= cable < names.len() ==> name_index(names, cable) == names[cable],
        cable >= names.len() ==> name_index(names, cable) == 0,
{
}

/// Serial numbers are written in decimal digits and capital letters, in order.
pub proof fn digits_are_capital(d: int)
    requires
        0 <= d < 16,
    ensures
        hex_digit(0) == '0' as u8,
        hex_digit(9) == '9' as u8,
        hex_digit(10) == 'A' as u8,
        hex_digit(15) == 'F' as u8,
        d + 1 < 16 && d != 9 ==> hex_digit(d + 1) == hex_digit(d) + 1,
{
}

/// The last digit is the low one: it counts up with the identifier.
pub proof fn low_digits_come_last(id: int)
    requires
        0 <= id,
    ensures
        nibble(id, 15) == id % 16,
        nibble(16 * id, 14) == id % 16,
{
    reveal_with_fuel(crate::tasks::transport::pow16, 3);
    assert((16 * id) / 16 == id);
}

/// The hash starts from its offset basis; each byte is mixed in and the result
/// multiplied by the prime, modulo 2^32.
pub proof fn hashes_multiply_by_the_prime(bytes: Seq<u8>, n: int)
    requires
        0 < n <= bytes.len(),
    ensures
        fnv1a(bytes, 0) == 2166136261,
        (16777619 * (fnv1a(bytes, n - 1) ^ (bytes[n - 1] as u32)) - fnv1a(bytes, n)) % 4294967296
            == 0,
{
    let x = 16777619 * (fnv1a(bytes, n - 1) ^ (bytes[n - 1] as u32));
    assert(fnv1a(bytes, n) == x % 4294967296);
    assert((x - x % 4294967296) % 4294967296 == 0);
}

/// An edge of the rough pass counts where it comes 0.1 ms to 100 ms after the
/// last; a shorter gap is a bounce and keeps the anchor, a longer one starts
/// over from the edge.
pub proof fn rough_edges_are_measurable(m: PeriodMeter, now: u64)
    requires
        m.wf(),
        m.phase == MeterPhase::Rough,
        m.last_edge <= now,
    ensures
        now - m.last_edge < 100 ==> m.after_edge(now) == m,
        now - m.last_edge > 100_000 ==> {
            let r = m.after_edge(now);
            &&& r.last_edge == now
            &&& r.valid == m.valid
            &&& r.total_us == m.total_us
            &&& r.phase == m.phase
        },
        100 <= now - m.last_edge <= 100_000 ==> m.after_edge(now).last_edge == now,
        100 <= now - m.last_edge <= 100_000 && m.valid < 7 ==> {
            let r = m.after_edge(now);
            &&& r.valid == m.valid + 1
            &&& r.total_us - m.total_us == now - m.last_edge
            &&& r.phase == MeterPhase::Rough
        },
{
}

/// The eighth period ends the rough pass. With the mean of the eight, the fine
/// pass accepts from six tenths of it to one and a half times it.
pub proof fn rough_mean_sets_the_band(m: PeriodMeter, now: u64, mean: int)
    requires
        m.wf(),
        m.phase == MeterPhase::Rough,
        m.last_edge <= now,
        m.valid == 7,
        100 <= now - m.last_edge <= 100_000,
        0 <= m.total_us + (now - m.last_edge) - 8 * mean < 8,
    ensures
        ({
            let r = m.after_edge(now);
            &&& r.phase == MeterPhase::FineSync
            &&& 0 <= 6 * mean - 10 * r.lo < 10
            &&& 0 <= 15 * mean - 10 * r.hi < 10
            &&& r.total_us == 0
            &&& r.valid == 0
        }),
{
}

/// In the fine pass an edge inside the band adds its period to the sum, and
/// the 256th ends the measurement.
pub proof fn fine_periods_add_up(m: PeriodMeter, now: u64)
    requires
        m.wf(),
        m.phase == MeterPhase::Fine,
        m.last_edge <= now,
        m.lo <= now - m.last_edge <= m.hi,
    ensures
        ({
            let r = m.after_edge(now);
            &&& r.total_us - m.total_us == now - m.last_edge
            &&& r.valid == m.valid + 1
            &&& r.last_edge == now
            &&& r.lo == m.lo && r.hi == m.hi
            &&& r.phase == MeterPhase::Done <==> m.valid == 255
            &&& r.phase == MeterPhase::Fine <==> m.valid < 255
        }),
{
    assert((m.valid + 1) * m.hi <= 256 * 150_000) by (nonlinear_arith)
        requires
            0 <= m.valid < 256,
            0 <= m.hi <= 150_000,
    ;
    assert((m.valid + 1) * m.hi == m.valid * m.hi + m.hi) by (nonlinear_arith);
    assert(m.hi * m.valid == m.valid * m.hi) by (nonlinear_arith);
}

/// An edge before the band is a bounce: the next one is still measured from
/// the edge before it. One after it starts anew only where a period can no
/// longer be that long.
pub proof fn spurious_edges_keep_the_anchor(m: PeriodMeter, now: u64)
    requires
        m.wf(),
        m.phase == MeterPhase::Fine,
        m.last_edge <= now,
    ensures
        now - m.last_edge < m.lo ==> m.after_edge(now) == m,
        m.hi < now - m.last_edge <= 100_000 ==> m.after_edge(now) == m,
        now - m.last_edge > m.hi && now - m.last_edge > 100_000 ==> {
            let r = m.after_edge(now);
            r.last_edge == now && r.valid == m.valid && r.total_us == m.total_us
        },
{
}

} // verus!
