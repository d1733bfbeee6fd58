//! Identity and connection state of the USB transport.

use vstd::prelude::*;

verus! {

pub const USB_VENDOR_ID: u16 = 0xf569;
pub const USB_PRODUCT_ID: u16 = 0x1;
pub const USB_MAX_PACKET_SIZE: u16 = 64;

/// ASCII code of a hexadecimal digit.
pub open spec fn hex_digit(d: int) -> u8 {
    if d < 10 { (48 + d) as u8 } else { (55 + d) as u8 }
}

pub open spec fn pow16(n: int) -> int
    decreases n,
{
    if n <= 0 { 1 } else { 16 * pow16(n - 1) }
}

/// Digit `i` of sixteen, most significant first.
pub open spec fn nibble(id: int, i: int) -> int {
    id / pow16(15 - i) % 16
}

proof fn pow16_positive(n: int)
    ensures
        pow16(n) >= 1,
    decreases n,
{
    if n > 0 {
        pow16_positive(n - 1);
    }
}

proof fn div_step(id: int, k: int)
    requires
        0 <= id,
        0 <= k,
    ensures
        id / pow16(k) / 16 == id / pow16(k + 1),
{
    pow16_positive(k);
    vstd::arithmetic::div_mod::lemma_div_denominator(id, pow16(k), 16);
    assert(pow16(k) * 16 == pow16(k + 1)) by {
        assert(pow16(k + 1) == 16 * pow16(k));
    }
}

/// Serial number of a chip: its identifier as sixteen hexadecimal digits.
pub fn serial_number(chip_id: u64) -> (r: [u8; 16])
    ensures
        forall|i: int| 0 <= i < 16 ==> #[trigger] r[i] == hex_digit(nibble(chip_id as int, i)),
{
    let mut buf: [u8; 16] = [48; 16];
    let mut rest: u64 = chip_id;
    let mut k: usize = 0;
    assert(chip_id as int / pow16(0) == chip_id);
    while k < 16
        invariant
            k <= 16,
            rest == chip_id as int / pow16(k as int),
            forall|i: int|
                16 - k <= i < 16 ==> #[trigger] buf[i] == hex_digit(nibble(chip_id as int, i)),
        decreases 16 - k,
    {
        let d: u8 = (rest % 16) as u8;
        let i: usize = 15 - k;
        assert(d == nibble(chip_id as int, i as int));
        buf[i] = if d < 10 { 48 + d } else { 55 + d };
        proof {
            div_step(chip_id as int, k as int);
        }
        rest = rest / 16;
        k = k + 1;
    }
    buf
}

/// Value of a hexadecimal digit's ASCII code.
pub open spec fn digit_value(c: u8) -> int {
    if c < 58 { c - 48 } else { c - 55 }
}

/// Number spelled by the first `n` digits.
pub open spec fn hex_value(s: Seq<u8>, n: int) -> int
    decreases n,
{
    if n <= 0 { 0 } else { 16 * hex_value(s, n - 1) + digit_value(s[n - 1]) }
}

/// The serial number spells the chip identifier, so that no two chips share
/// one.
pub proof fn serial_spells_chip_id(s: Seq<u8>, chip_id: u64)
    requires
        s.len() == 16,
        forall|i: int| 0 <= i < 16 ==> #[trigger] s[i] == hex_digit(nibble(chip_id as int, i)),
    ensures
        hex_value(s, 16) == chip_id,
{
    prefix_value(s, chip_id, 16);
    assert(pow16(0) == 1);
}

proof fn prefix_value(s: Seq<u8>, chip_id: u64, n: int)
    requires
        s.len() == 16,
        0 <= n <= 16,
        forall|i: int| 0 <= i < 16 ==> #[trigger] s[i] == hex_digit(nibble(chip_id as int, i)),
    ensures
        hex_value(s, n) == chip_id as int / pow16(16 - n),
    decreases n,
{
    let id = chip_id as int;
    if n == 0 {
        assert(pow16(16) == 0x1_0000_0000_0000_0000) by {
            reveal_with_fuel(pow16, 17);
        }
    } else {
        prefix_value(s, chip_id, n - 1);
        div_step(id, 16 - n);
        assert(s[n - 1] == hex_digit(nibble(id, n - 1)));
        assert(nibble(id, n - 1) == id / pow16(16 - n) % 16);
    }
}

/// Whether a USB host has selected the configuration.
#[derive(Clone, Copy, Debug, PartialEq, Eq, Structural)]
pub struct UsbConnection {
    pub connected: bool,
}

impl UsbConnection {
    pub fn new() -> (r: Self)
        ensures
            !r.connected,
    {
        UsbConnection { connected: false }
    }

    pub fn configured(&mut self, configured: bool)
        ensures
            final(self).connected == configured,
    {
        self.connected = configured;
    }

    /// A bus reset does not imply that the configuration is dropped.
    pub fn reset(&mut self)
        ensures
            !final(self).connected,
    {
        self.connected = false;
    }

    /// A suspended bus and a pulled cable look the same: nothing drains the
    /// endpoint.
    pub fn suspended(&mut self, suspended: bool)
        ensures
            final(self).connected == !suspended,
    {
        self.connected = !suspended;
    }
}

} // verus!
