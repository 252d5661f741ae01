//! Errors of ELF decoding.

use vstd::prelude::*;
use vstd::string::StringExecFns;
use crate::text::{decimal, hex, push_decimal, push_hex};

verus! {

/// Why a file, or a part of it, could not be decoded.
#[derive(Clone, Copy, Debug, PartialEq, Eq)]
pub enum ELFError {
    /// The first four bytes are not the ELF magic; they are carried.
    BadMagic([u8; 4]),
    /// The class byte is neither 1 (32-bit) nor 2 (64-bit); it is carried.
    BadPointerWidth(u8),
    /// The version byte is not 1; it is carried.
    BadVersion(u8),
    /// The data encoding byte is neither 1 (little) nor 2 (big); it is carried.
    BadEndianCode(u8),
    /// A byte range that the file declares lies beyond the end of the buffer.
    OutOfBounds,
}


impl ELFError {
    /// The message that explains the error.
    pub open spec fn label(self) -> Seq<char> {
        match self {
            ELFError::BadMagic(m) => "Bad ELF magic number. Expected [0x7F, 0x45, 0x4C, 0x46], found [0x"@
                + hex(m@[0] as nat, 2) + ", 0x"@ + hex(m@[1] as nat, 2) + ", 0x"@ + hex(m@[2] as nat, 2)
                + ", 0x"@ + hex(m@[3] as nat, 2) + "]"@,
            ELFError::BadPointerWidth(w) => "bad pointer width flag. Expected 1 or 2, found "@ + decimal(w as nat),
            ELFError::BadVersion(v) => "bad ELF version. Expected 1, found "@ + decimal(v as nat),
            ELFError::BadEndianCode(d) => "bad data encoding. Expected 1 or 2, found "@ + decimal(d as nat),
            ELFError::OutOfBounds => "byte range extends past the end of the file"@,
        }
    }

    /// Renders the error for people to read.
    pub fn to_string(&self) -> (r: String)
        ensures
            r@ == self.label(),
    {
        match *self {
            ELFError::BadMagic(m) => {
                let mut s = String::from_str("Bad ELF magic number. Expected [0x7F, 0x45, 0x4C, 0x46], found [0x");
                push_hex(&mut s, m[0] as u64, 2);
                s.append(", 0x");
                push_hex(&mut s, m[1] as u64, 2);
                s.append(", 0x");
                push_hex(&mut s, m[2] as u64, 2);
                s.append(", 0x");
                push_hex(&mut s, m[3] as u64, 2);
                s.append("]");
                s
            },
            ELFError::BadPointerWidth(w) => {
                let mut s = String::from_str("bad pointer width flag. Expected 1 or 2, found ");
                push_decimal(&mut s, w as u64);
                s
            },
            ELFError::BadVersion(v) => {
                let mut s = String::from_str("bad ELF version. Expected 1, found ");
                push_decimal(&mut s, v as u64);
                s
            },
            ELFError::BadEndianCode(d) => {
                let mut s = String::from_str("bad data encoding. Expected 1 or 2, found ");
                push_decimal(&mut s, d as u64);
                s
            },
            ELFError::OutOfBounds => String::from_str("byte range extends past the end of the file"),
        }
    }
}

} // verus!
