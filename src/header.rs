//! The file header.

use vstd::prelude::*;
use crate::codes::{ArchFlags, FileType, InstructionSet, OperatingSystem};
use crate::endian::{le_value, read_u16, read_u32, read_word, u16_at, u32_at, word_at, Class, Endian};
use crate::error::ELFError;

verus! {

/// Access to the fields of a decoded file header that locate the other tables.
pub trait FileHeader {
    /// Byte order of the target architecture.
    fn endian(&self) -> Endian;

    /// File offset of the program header table.
    fn phtoffset(&self) -> u64;

    /// File offset of the section header table.
    fn shtoffset(&self) -> u64;

    /// Size of one program header table entry.
    fn phsize(&self) -> usize;

    /// Size of one section header table entry.
    fn shsize(&self) -> usize;

    /// Number of program header table entries.
    fn phnum(&self) -> usize;

    /// Number of section header table entries.
    fn shnum(&self) -> usize;

    /// Index of the section that holds the section names.
    fn shstrndx(&self) -> usize;
}

/// A decoded ELF file header. Address and offset fields are widened to 64
/// bits whatever the class of the file.
#[derive(Clone, Copy, Debug, PartialEq, Eq)]
pub struct ELFHeader {
    /// Pointer width of the file.
    pub class: Class,
    /// Byte order of the target architecture.
    pub endian: Endian,
    /// Target OS ABI.
    pub os: OperatingSystem,
    /// Object file type.
    pub filetype: FileType,
    /// Target instruction set architecture.
    pub isa: InstructionSet,
    /// Architecture specific flags.
    pub flags: ArchFlags,
    /// Entry point of the program.
    pub entry: u64,
    /// File offsets of the program and section header tables.
    pub offset: (u64, u64),
    /// Entry sizes of the program and section header tables.
    pub entrysize: (u16, u16),
    /// Entry counts of the program and section header tables.
    pub num: (u16, u16),
    /// Index of the section that holds the section names.
    pub shstrndx: u16,
}

/// The four bytes that open every ELF file.
pub open spec fn is_magic(raw: Seq<u8>) -> bool {
    raw.len() >= 4 && raw[0] == 0x7F && raw[1] == 0x45 && raw[2] == 0x4C && raw[3] == 0x46
}

/// Where the fields common to both classes start: after entry point and the two table offsets.
pub open spec fn tail_start(c: Class) -> int {
    0x18 + 3 * c.word_len()
}

/// Length of the file header of class `c`: 52 bytes for 32-bit, 64 for 64-bit.
pub open spec fn header_len(c: Class) -> nat {
    (tail_start(c) + 16) as nat
}

/// The class named by class byte `b`, if any.
pub open spec fn class_of(b: u8) -> Option<Class> {
    if b == 1 {
        Some(Class::Elf32)
    } else if b == 2 {
        Some(Class::Elf64)
    } else {
        None
    }
}

/// The byte order named by data encoding byte `b`, if any.
pub open spec fn endian_of(b: u8) -> Option<Endian> {
    if b == 1 {
        Some(Endian::Little)
    } else if b == 2 {
        Some(Endian::Big)
    } else {
        None
    }
}

/// The header fields of `raw`, read in class `c` and byte order `e`.
pub open spec fn header_of(raw: Seq<u8>, c: Class, e: Endian) -> ELFHeader {
    let t = tail_start(c);
    ELFHeader {
        class: c,
        endian: e,
        os: OperatingSystem::of_code(raw[0x07], raw[0x08]),
        filetype: FileType::of_code(u16_at(raw, 0x10, e)),
        isa: InstructionSet::of_code(u16_at(raw, 0x12, e)),
        flags: ArchFlags(u32_at(raw, t, e)),
        entry: word_at(raw, 0x18, c, e),
        offset: (word_at(raw, 0x18 + c.word_len(), c, e), word_at(raw, 0x18 + 2 * c.word_len(), c, e)),
        entrysize: (u16_at(raw, t + 6, e), u16_at(raw, t + 10, e)),
        num: (u16_at(raw, t + 8, e), u16_at(raw, t + 12, e)),
        shstrndx: u16_at(raw, t + 14, e),
    }
}

/// What decoding the file header of `raw` gives: the checks on magic,
/// version, class and data encoding in that order, then the fields.
pub open spec fn header_result(raw: Seq<u8>) -> Result<ELFHeader, ELFError> {
    if raw.len() < 4 {
        Err(ELFError::OutOfBounds)
    } else if !is_magic(raw) {
        Err(ELFError::BadMagic([raw[0], raw[1], raw[2], raw[3]]))
    } else if raw.len() < 7 {
        Err(ELFError::OutOfBounds)
    } else if raw[6] != 1 {
        Err(ELFError::BadVersion(raw[6]))
    } else if class_of(raw[4]) is None {
        Err(ELFError::BadPointerWidth(raw[4]))
    } else if endian_of(raw[5]) is None {
        Err(ELFError::BadEndianCode(raw[5]))
    } else if raw.len() < header_len(class_of(raw[4])->Some_0) {
        Err(ELFError::OutOfBounds)
    } else {
        Ok(header_of(raw, class_of(raw[4])->Some_0, endian_of(raw[5])->Some_0))
    }
}

/// A header that opens with anything but the ELF magic is refused with the
/// magic error, carrying its first four bytes.
pub proof fn lemma_bad_magic(raw: Seq<u8>)
    requires
        raw.len() >= 4,
        !is_magic(raw),
    ensures
        header_result(raw) == Err::<ELFHeader, ELFError>(
            ELFError::BadMagic([raw[0], raw[1], raw[2], raw[3]]),
        ),
{
}

/// A header with the ELF magic whose version byte is not 1 is refused with
/// the version error, carrying that byte, whatever its class byte.
pub proof fn lemma_bad_version(raw: Seq<u8>)
    requires
        raw.len() >= 7,
        is_magic(raw),
        raw[6] != 1,
    ensures
        header_result(raw) == Err::<ELFHeader, ELFError>(ELFError::BadVersion(raw[6])),
{
}

/// A valid 32-bit little-endian header decodes to exactly the values stored
/// at the fixed positions: class and byte order from the identification
/// bytes, the OS ABI and its version from bytes 7 and 8, a file type `t`
/// stored least significant byte first at 0x10, and every other field as
/// `header_of` reads it.
pub proof fn lemma_header32_little(raw: Seq<u8>, t: u16)
    requires
        raw.len() >= 52,
        is_magic(raw),
        raw[4] == 1,
        raw[5] == 1,
        raw[6] == 1,
        raw[0x10] == (t % 256) as u8,
        raw[0x11] == (t / 256) as u8,
    ensures
        header_result(raw) == Ok::<ELFHeader, ELFError>(header_of(raw, Class::Elf32, Endian::Little)),
        header_of(raw, Class::Elf32, Endian::Little).class == Class::Elf32,
        header_of(raw, Class::Elf32, Endian::Little).endian == Endian::Little,
        header_of(raw, Class::Elf32, Endian::Little).os == OperatingSystem::of_code(raw[7], raw[8]),
        header_of(raw, Class::Elf32, Endian::Little).filetype == FileType::of_code(t),
{
    let two = raw.subrange(0x10, 0x12);
    reveal_with_fuel(le_value, 3);
    assert(two.drop_first().drop_first().len() == 0);
    assert(le_value(two) == two[0] + 256 * two[1]);
    assert(t == (t % 256) + 256 * (t / 256));
}

impl ELFHeader {
    /// Decodes the header fields of `header` in class `class` and byte order `endian`.
    pub fn create(header: &[u8], class: Class, endian: Endian) -> (r: ELFHeader)
        requires
            header@.len() >= header_len(class),
        ensures
            r == header_of(header@, class, endian),
    {
        let os = OperatingSystem::from((header[0x07], header[0x08]));
        let filetype = FileType::from(read_u16(header, 0x10, endian));
        let isa = InstructionSet::from(read_u16(header, 0x12, endian));

        let s = class.word_size();
        let entry = read_word(header, 0x18, class, endian);
        let offset = (
            read_word(header, 0x18 + s, class, endian),
            read_word(header, 0x18 + 2 * s, class, endian),
        );

        // Fields of the same width in both classes.
        let t = 0x18 + 3 * s;
        let flags = ArchFlags::from(read_u32(header, t, endian));
        let entrysize = (read_u16(header, t + 6, endian), read_u16(header, t + 10, endian));
        let num = (read_u16(header, t + 8, endian), read_u16(header, t + 12, endian));
        let shstrndx = read_u16(header, t + 14, endian);

        ELFHeader { class, endian, os, filetype, isa, flags, entry, offset, entrysize, num, shstrndx }
    }

    /// Checks the identification bytes of `header` and decodes the file header.
    pub fn parse(header: &[u8]) -> (r: Result<ELFHeader, ELFError>)
        ensures
            r == header_result(header@),
    {
        let len = header.len();
        if len < 4 {
            return Err(ELFError::OutOfBounds);
        }
        if !(header[0] == 0x7F && header[1] == 0x45 && header[2] == 0x4C && header[3] == 0x46) {
            return Err(ELFError::BadMagic([header[0], header[1], header[2], header[3]]));
        }
        if len < 7 {
            return Err(ELFError::OutOfBounds);
        }
        if header[6] != 1 {
            return Err(ELFError::BadVersion(header[6]));
        }
        let class = match header[4] {
            1 => Class::Elf32,
            2 => Class::Elf64,
            w => {
                return Err(ELFError::BadPointerWidth(w));
            },
        };
        let endian = match header[5] {
            1 => Endian::Little,
            2 => Endian::Big,
            d => {
                return Err(ELFError::BadEndianCode(d));
            },
        };
        let s = class.word_size();
        if len < 0x18 + 3 * s + 16 {
            return Err(ELFError::OutOfBounds);
        }
        Ok(ELFHeader::create(header, class, endian))
    }
}

impl FileHeader for ELFHeader {
    fn endian(&self) -> (r: Endian)
        ensures
            r == self.endian,
    {
        self.endian
    }

    fn phtoffset(&self) -> (r: u64)
        ensures
            r == self.offset.0,
    {
        self.offset.0
    }

    fn shtoffset(&self) -> (r: u64)
        ensures
            r == self.offset.1,
    {
        self.offset.1
    }

    fn phsize(&self) -> (r: usize)
        ensures
            r == self.entrysize.0,
    {
        self.entrysize.0 as usize
    }

    fn shsize(&self) -> (r: usize)
        ensures
            r == self.entrysize.1,
    {
        self.entrysize.1 as usize
    }

    fn phnum(&self) -> (r: usize)
        ensures
            r == self.num.0,
    {
        self.num.0 as usize
    }

    fn shnum(&self) -> (r: usize)
        ensures
            r == self.num.1,
    {
        self.num.1 as usize
    }

    fn shstrndx(&self) -> (r: usize)
        ensures
            r == self.shstrndx,
    {
        self.shstrndx as usize
    }
}

} // verus!
