//! Post-mortem beacon: where a core died, told as controller values on a MIDI
//! channel that the apps leave alone.

use vstd::prelude::*;
use vstd::string::StringSliceAdditionalSpecFns;

verus! {

/// Channel 16 (0-based 15): outside the range apps normally use.
pub const BEACON_CHANNEL: u8 = 15;

pub const CC_MARKER: u8 = 110;
pub const CC_LINE_LO: u8 = 111;
pub const CC_LINE_HI: u8 = 112;
pub const CC_FILE_0: u8 = 113;
pub const CC_FILE_1: u8 = 114;
pub const CC_FILE_2: u8 = 115;

/// FNV-1a hash of the first `n` bytes.
pub open spec fn fnv1a(bytes: Seq<u8>, n: int) -> u32
    decreases n,
{
    if n <= 0 {
        0x811c_9dc5
    } else {
        (((fnv1a(bytes, n - 1) ^ (bytes[n - 1] as u32)) * 0x0100_0193) % 0x1_0000_0000) as u32
    }
}

/// Hash of a path: FNV-1a, truncated to 21 bits so it fits three 7-bit values.
pub fn file_hash(path: &str) -> (r: u32)
    ensures
        r == fnv1a(path.spec_bytes(), path.spec_bytes().len() as int) % 0x20_0000,
        r < 0x20_0000,
{
    let bytes = path.as_bytes();
    let mut hash: u32 = 0x811c_9dc5;
    let mut i: usize = 0;
    while i < bytes.len()
        invariant
            i <= bytes@.len(),
            hash == fnv1a(bytes@, i as int),
        decreases bytes@.len() - i,
    {
        hash = hash ^ (bytes[i] as u32);
        hash = hash.wrapping_mul(0x0100_0193);
        i = i + 1;
    }
    let r: u32 = hash & 0x001f_ffff;
    assert(r == hash % 0x20_0000) by (bit_vector)
        requires
            r == hash & 0x001f_ffff,
    ;
    r
}

/// Where a core died, if one did.
#[derive(Clone, Copy, Debug, PartialEq, Eq, Structural)]
pub struct PanicRecord {
    pub panicked: bool,
    pub line: u32,
    pub file_hash: u32,
}

impl PanicRecord {
    pub fn new() -> (r: Self)
        ensures
            r == (PanicRecord { panicked: false, line: 0, file_hash: 0 }),
    {
        PanicRecord { panicked: false, line: 0, file_hash: 0 }
    }

    /// Called from the panic handler.
    pub fn record(&mut self, file: &str, line: u32)
        ensures
            final(self).panicked,
            final(self).line == line,
            final(self).file_hash == fnv1a(file.spec_bytes(), file.spec_bytes().len() as int)
                % 0x20_0000,
    {
        self.file_hash = file_hash(file);
        self.line = line;
        self.panicked = true;
    }

    /// Controllers and values of one beacon; `None` while nothing has died.
    pub fn beacon(&self) -> (r: Option<[(u8, u8); 6]>)
        ensures
            r is Some <==> self.panicked,
            r matches Some(f) ==> {
                &&& f[0] == (CC_MARKER, 127u8)
                &&& f[1] == (CC_LINE_LO, (self.line % 128) as u8)
                &&& f[2] == (CC_LINE_HI, (self.line / 128 % 128) as u8)
                &&& f[3] == (CC_FILE_0, (self.file_hash % 128) as u8)
                &&& f[4] == (CC_FILE_1, (self.file_hash / 128 % 128) as u8)
                &&& f[5] == (CC_FILE_2, (self.file_hash / 16384 % 128) as u8)
            },
    {
        if !self.panicked {
            return None;
        }
        Some(
            [
                (CC_MARKER, 127),
                (CC_LINE_LO, (self.line % 128) as u8),
                (CC_LINE_HI, (self.line / 128 % 128) as u8),
                (CC_FILE_0, (self.file_hash % 128) as u8),
                (CC_FILE_1, (self.file_hash / 128 % 128) as u8),
                (CC_FILE_2, (self.file_hash / 16384 % 128) as u8),
            ],
        )
    }
}

/// The beacon carries the whole file hash, and every line number below 16384.
pub proof fn beacon_is_lossless(line: u32, hash: u32)
    requires
        hash < 0x20_0000,
    ensures
        hash % 128 + 128 * (hash / 128 % 128) + 16384 * (hash / 16384 % 128) == hash,
        line < 16384 ==> line % 128 + 128 * (line / 128 % 128) == line,
        hash % 128 < 128,
        hash / 128 % 128 < 128,
        hash / 16384 % 128 < 128,
{
}

} // verus!
