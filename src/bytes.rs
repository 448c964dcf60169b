use vstd::prelude::*;

verus! {

/// The big-endian unsigned value of the two bytes of `s` at `i`.
pub open spec fn be16(s: Seq<u8>, i: int) -> int {
    s[i] as int * 256 + s[i + 1] as int
}

/// The big-endian unsigned value of the four bytes of `s` at `i`.
pub open spec fn be32(s: Seq<u8>, i: int) -> int {
    be16(s, i) * 65536 + be16(s, i + 2)
}

/// The big-endian unsigned value of the eight bytes of `s` at `i`.
pub open spec fn be64(s: Seq<u8>, i: int) -> int {
    be32(s, i) * 0x1_0000_0000 + be32(s, i + 4)
}

pub fn load_be16(s: &[u8], i: usize) -> (r: u16)
    requires
        i + 2 <= s.len(),
    ensures
        r as int == be16(s@, i as int),
{
    (s[i] as u16) * 256 + (s[i + 1] as u16)
}

pub fn load_be32(s: &[u8], i: usize) -> (r: u32)
    requires
        i + 4 <= s.len(),
    ensures
        r as int == be32(s@, i as int),
{
    let hi = load_be16(s, i) as u32;
    let lo = load_be16(s, i + 2) as u32;
    hi * 65536 + lo
}

pub fn load_be64(s: &[u8], i: usize) -> (r: u64)
    requires
        i + 8 <= s.len(),
    ensures
        r as int == be64(s@, i as int),
{
    let hi = load_be32(s, i) as u64;
    let lo = load_be32(s, i + 4) as u64;
    hi * 0x1_0000_0000 + lo
}

} // verus!
