//! Byte order, pointer width, and fixed-width unsigned reads.

use byteorder::{BigEndian, ByteOrder, LittleEndian};
use vstd::prelude::*;
use vstd::string::StringExecFns;

verus! {

/// Byte order of the target architecture.
#[derive(Clone, Copy, Debug, PartialEq, Eq, Structural)]
pub enum Endian {
    Big,
    Little,
}

impl Endian {
    /// The human-readable name of the byte order.
    pub open spec fn label(self) -> Seq<char> {
        match self {
            Endian::Big => "Big Endian"@,
            Endian::Little => "Little Endian"@,
        }
    }

    /// Renders the byte order for people to read.
    pub fn to_string(&self) -> (r: String)
        ensures
            r@ == self.label(),
    {
        match self {
            Endian::Big => String::from_str("Big Endian"),
            Endian::Little => String::from_str("Little Endian"),
        }
    }
}

/// Pointer width of the file's structures (the ELF class byte).
#[derive(Clone, Copy, Debug, PartialEq, Eq, Structural)]
pub enum Class {
    Elf32,
    Elf64,
}

impl Class {
    /// Width in bytes of an address, offset or size field.
    pub open spec fn word_len(self) -> int {
        match self {
            Class::Elf32 => 4,
            Class::Elf64 => 8,
        }
    }

    pub fn word_size(self) -> (r: usize)
        ensures
            r == self.word_len(),
    {
        match self {
            Class::Elf32 => 4,
            Class::Elf64 => 8,
        }
    }
}

/// The unsigned value of `s` read least significant byte first.
pub open spec fn le_value(s: Seq<u8>) -> nat
    decreases s.len(),
{
    if s.len() == 0 {
        0
    } else {
        s[0] as nat + 256 * le_value(s.drop_first())
    }
}

/// The unsigned value of `s` read most significant byte first.
pub open spec fn be_value(s: Seq<u8>) -> nat
    decreases s.len(),
{
    if s.len() == 0 {
        0
    } else {
        be_value(s.drop_last()) * 256 + s.last() as nat
    }
}

/// The unsigned value of the `n` bytes of `b` at `off`, in byte order `e`.
pub open spec fn uint_at(b: Seq<u8>, off: int, n: int, e: Endian) -> nat {
    match e {
        Endian::Little => le_value(b.subrange(off, off + n)),
        Endian::Big => be_value(b.subrange(off, off + n)),
    }
}

pub open spec fn u16_at(b: Seq<u8>, off: int, e: Endian) -> u16 {
    uint_at(b, off, 2, e) as u16
}

pub open spec fn u32_at(b: Seq<u8>, off: int, e: Endian) -> u32 {
    uint_at(b, off, 4, e) as u32
}

pub open spec fn u64_at(b: Seq<u8>, off: int, e: Endian) -> u64 {
    uint_at(b, off, 8, e) as u64
}

/// An address, offset or size field: four or eight bytes wide by class.
pub open spec fn word_at(b: Seq<u8>, off: int, c: Class, e: Endian) -> u64 {
    match c {
        Class::Elf32 => u32_at(b, off, e) as u64,
        Class::Elf64 => u64_at(b, off, e),
    }
}

/// Relies on byteorder's `LittleEndian::read_u16`: the first two bytes, least significant first.
#[verifier::external_body]
fn little16(b: &[u8]) -> (r: u16)
    requires
        b@.len() >= 2,
    ensures
        r as nat == le_value(b@.subrange(0, 2)),
{
    LittleEndian::read_u16(b)
}

/// Relies on byteorder's `BigEndian::read_u16`: the first two bytes, most significant first.
#[verifier::external_body]
fn big16(b: &[u8]) -> (r: u16)
    requires
        b@.len() >= 2,
    ensures
        r as nat == be_value(b@.subrange(0, 2)),
{
    BigEndian::read_u16(b)
}

/// Relies on byteorder's `LittleEndian::read_u32`: the first four bytes, least significant first.
#[verifier::external_body]
fn little32(b: &[u8]) -> (r: u32)
    requires
        b@.len() >= 4,
    ensures
        r as nat == le_value(b@.subrange(0, 4)),
{
    LittleEndian::read_u32(b)
}

/// Relies on byteorder's `BigEndian::read_u32`: the first four bytes, most significant first.
#[verifier::external_body]
fn big32(b: &[u8]) -> (r: u32)
    requires
        b@.len() >= 4,
    ensures
        r as nat == be_value(b@.subrange(0, 4)),
{
    BigEndian::read_u32(b)
}

/// Relies on byteorder's `LittleEndian::read_u64`: the first eight bytes, least significant first.
#[verifier::external_body]
fn little64(b: &[u8]) -> (r: u64)
    requires
        b@.len() >= 8,
    ensures
        r as nat == le_value(b@.subrange(0, 8)),
{
    LittleEndian::read_u64(b)
}

/// Relies on byteorder's `BigEndian::read_u64`: the first eight bytes, most significant first.
#[verifier::external_body]
fn big64(b: &[u8]) -> (r: u64)
    requires
        b@.len() >= 8,
    ensures
        r as nat == be_value(b@.subrange(0, 8)),
{
    BigEndian::read_u64(b)
}

/// Reads the 16-bit value at `off` in byte order `e`.
pub fn read_u16(b: &[u8], off: usize, e: Endian) -> (r: u16)
    requires
        off + 2 <= b@.len(),
    ensures
        r == u16_at(b@, off as int, e),
{
    // The slice's length fits in usize, so `off + n` cannot overflow.
    let _len = b.len();
    let part = &b[off..off + 2];
    assert(part@.subrange(0, 2) =~= b@.subrange(off as int, off + 2));
    match e {
        Endian::Little => little16(part),
        Endian::Big => big16(part),
    }
}

/// Reads the 32-bit value at `off` in byte order `e`.
pub fn read_u32(b: &[u8], off: usize, e: Endian) -> (r: u32)
    requires
        off + 4 <= b@.len(),
    ensures
        r == u32_at(b@, off as int, e),
{
    // The slice's length fits in usize, so `off + n` cannot overflow.
    let _len = b.len();
    let part = &b[off..off + 4];
    assert(part@.subrange(0, 4) =~= b@.subrange(off as int, off + 4));
    match e {
        Endian::Little => little32(part),
        Endian::Big => big32(part),
    }
}

/// Reads the 64-bit value at `off` in byte order `e`.
pub fn read_u64(b: &[u8], off: usize, e: Endian) -> (r: u64)
    requires
        off + 8 <= b@.len(),
    ensures
        r == u64_at(b@, off as int, e),
{
    // The slice's length fits in usize, so `off + n` cannot overflow.
    let _len = b.len();
    let part = &b[off..off + 8];
    assert(part@.subrange(0, 8) =~= b@.subrange(off as int, off + 8));
    match e {
        Endian::Little => little64(part),
        Endian::Big => big64(part),
    }
}

/// Reads the address, offset or size field at `off`: four bytes for a
/// 32-bit file, eight for a 64-bit one, widened to 64 bits.
pub fn read_word(b: &[u8], off: usize, c: Class, e: Endian) -> (r: u64)
    requires
        off + c.word_len() <= b@.len(),
    ensures
        r == word_at(b@, off as int, c, e),
{
    match c {
        Class::Elf32 => read_u32(b, off, e) as u64,
        Class::Elf64 => read_u64(b, off, e),
    }
}

} // verus!
