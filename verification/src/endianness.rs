//! Byte order handling. The Linux RDMA stack keeps GUIDs in big-endian
//! order, while the userland tools handle them as native numbers; these
//! helpers convert between the two.

use vstd::prelude::*;
use vstd::bytes::{
    spec_u64_to_le_bytes, spec_u64_from_le_bytes, u64_to_le_bytes, u64_from_le_bytes,
    lemma_auto_spec_u64_to_from_le_bytes,
};

verus! {

/// Byte order of a machine.
#[derive(Debug, Clone, Copy, PartialEq, Eq, Structural)]
pub enum Endianness {
    BigEndian,
    LittleEndian,
}

/// `x` with its eight bytes in reverse order.
pub open spec fn swap_bytes64(x: u64) -> u64 {
    spec_u64_from_le_bytes(spec_u64_to_le_bytes(x).reverse())
}

/// `x` with its two bytes in reverse order.
pub open spec fn swap_bytes16(x: u16) -> u16 {
    ((x % 256) * 256 + x / 256) as u16
}

/// Host order to big-endian order on a machine of byte order `e`.
pub open spec fn host_to_be(e: Endianness, x: u64) -> u64 {
    match e {
        Endianness::LittleEndian => swap_bytes64(x),
        Endianness::BigEndian => x,
    }
}

/// Big-endian order to host order on a machine of byte order `e`.
pub open spec fn be_to_host(e: Endianness, x: u64) -> u64 {
    match e {
        Endianness::LittleEndian => swap_bytes64(x),
        Endianness::BigEndian => x,
    }
}

/// The byte order detected from the probe `u16::from_be(0x8000)`: a machine that
/// reorders the probe's bytes is little endian.
pub open spec fn endianness_of_probe(probe: u16) -> Endianness {
    if probe == 0x0080 {
        Endianness::LittleEndian
    } else {
        Endianness::BigEndian
    }
}

/// Calls `u16::from_be`. Its documentation says that on a big-endian machine
/// this is a no-op and that on a little-endian machine the bytes are swapped.
/// Which of the two applies depends on the machine the code runs on, so the
/// contract states only that the result is one of the two.
#[verifier::external_body]
fn u16_from_be(x: u16) -> (r: u16)
    ensures
        r == x || r == swap_bytes16(x),
{
    u16::from_be(x)
}

/// Reverses the byte order of `x`.
pub fn swap_bytes_u64(x: u64) -> (r: u64)
    ensures
        r == swap_bytes64(x),
{
    let bytes = u64_to_le_bytes(x);
    let mut rev: Vec<u8> = Vec::new();
    let mut i: usize = 8;
    while i > 0
        invariant
            i <= 8,
            bytes@.len() == 8,
            rev@ =~= bytes@.subrange(i as int, 8).reverse(),
        decreases i,
    {
        i = i - 1;
        rev.push(bytes[i]);
        assert(rev@ =~= bytes@.subrange(i as int, 8).reverse());
    }
    assert(bytes@.subrange(0, 8) =~= bytes@);
    u64_from_le_bytes(rev.as_slice())
}

impl Endianness {
    /// Decides the byte order from the result of the probe `u16::from_be(0x8000)`.
    pub fn from_probe(probe: u16) -> (r: Endianness)
        ensures
            r == endianness_of_probe(probe),
    {
        if probe == 0x0080 {
            Endianness::LittleEndian
        } else {
            Endianness::BigEndian
        }
    }

    /// Returns the byte order of the current machine.
    pub fn get_system_endianness() -> (r: Endianness)
        ensures
            r == Endianness::BigEndian || r == Endianness::LittleEndian,
    {
        let num: u16 = 0x8000;
        let num_be = u16_from_be(num);
        Endianness::from_probe(num_be)
    }

    /// Same as [`Endianness::get_system_endianness`].
    pub fn get_system_endianess() -> (r: Endianness)
        ensures
            r == Endianness::BigEndian || r == Endianness::LittleEndian,
    {
        Endianness::get_system_endianness()
    }

    /// Whether this byte order is big endian.
    pub fn is_big_endian(&self) -> (r: bool)
        ensures
            r == (*self == Endianness::BigEndian),
    {
        match self {
            Endianness::BigEndian => true,
            Endianness::LittleEndian => false,
        }
    }

    /// Returns if the current system uses big endian byte order.
    pub fn system_is_be() -> bool {
        Endianness::get_system_endianness().is_big_endian()
    }

    /// Returns if the current system uses little endian byte order.
    pub fn system_is_le() -> bool {
        !Endianness::system_is_be()
    }

    /// Converts `x` from host order to big-endian order on a machine of this byte order.
    pub fn host_to_be(&self, x: u64) -> (r: u64)
        ensures
            r == host_to_be(*self, x),
    {
        match self {
            Endianness::LittleEndian => swap_bytes_u64(x),
            Endianness::BigEndian => x,
        }
    }

    /// Converts `x` from big-endian order to host order on a machine of this byte order.
    pub fn be_to_host(&self, x: u64) -> (r: u64)
        ensures
            r == be_to_host(*self, x),
    {
        match self {
            Endianness::LittleEndian => swap_bytes_u64(x),
            Endianness::BigEndian => x,
        }
    }

    /// Converts a u64 number from host endian format to big endian format
    /// (the format in which the kernel module stores GUIDs).
    pub fn u64he_to_u64be(u64he: u64) -> (r: u64)
        ensures
            r == u64he || r == swap_bytes64(u64he),
    {
        Endianness::get_system_endianness().host_to_be(u64he)
    }

    /// Converts a u64 number from big endian format to host endian format.
    pub fn u64be_to_u64he(u64be: u64) -> (r: u64)
        ensures
            r == u64be || r == swap_bytes64(u64be),
    {
        Endianness::get_system_endianness().be_to_host(u64be)
    }

    /// Changes the byte order of `val`. On either kind of machine this reverses
    /// the eight bytes.
    pub fn change(val: u64) -> (r: u64)
        ensures
            r == swap_bytes64(val),
    {
        swap_bytes_u64(val)
    }
}

/// Reversing the bytes twice gives the value back.
pub proof fn law_change_involutive(x: u64)
    ensures
        swap_bytes64(swap_bytes64(x)) == x,
{
    lemma_auto_spec_u64_to_from_le_bytes();
    let s = spec_u64_to_le_bytes(x);
    assert(s.reverse().len() == 8);
    assert(spec_u64_to_le_bytes(spec_u64_from_le_bytes(s.reverse())) == s.reverse());
    assert(s.reverse().reverse() =~= s);
}

/// On every byte order, converting from host order to big-endian order and back
/// gives the value back, and so does the opposite round trip.
pub proof fn law_host_be_round_trip(e: Endianness, x: u64)
    ensures
        be_to_host(e, host_to_be(e, x)) == x,
        host_to_be(e, be_to_host(e, x)) == x,
{
    law_change_involutive(x);
}

} // verus!
