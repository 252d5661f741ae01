//! Section headers and the section header table.

use vstd::prelude::*;
use crate::codes::{SectionFlags, SectionType};
use crate::endian::{read_u32, read_word, u32_at, word_at, Class, Endian};
use crate::error::ELFError;
use crate::header::ELFHeader;
use crate::strtab::Rename;

verus! {

/// Queries shared by section headers.
pub trait SectionHeader {
    /// The section's name; empty until names are resolved.
    fn name(&self) -> &str;

    /// File offset and size of the section's bytes.
    fn phys(&self) -> (u64, u64);

    /// Virtual address and size of the section in memory.
    fn virt(&self) -> (u64, u64);

    /// The section's type.
    fn stype(&self) -> SectionType;
}

/// A decoded section header. Address, offset and size fields are widened to
/// 64 bits whatever the class of the file.
#[derive(Debug)]
pub struct ELFSection {
    /// Position of the header in the section header table.
    pub index: usize,
    /// Offset of the section's name in the section name string table.
    pub strndx: usize,
    /// Name of the section.
    pub name: String,
    /// Section type.
    pub stype: SectionType,
    /// Section flags.
    pub flags: SectionFlags,
    /// Virtual address of the section in memory.
    pub vaddr: u64,
    /// Offset of the section in the file.
    pub offset: u64,
    /// Size of the section in bytes.
    pub size: u64,
    /// Index of an associated section.
    pub link: u32,
    /// Extra information, by section type.
    pub info: u32,
    /// Alignment of the section.
    pub align: u64,
    /// Size of each entry, for sections that hold a table.
    pub entrysize: u64,
}

/// Length of the fields of one section header of class `c`: 40 bytes for
/// 32-bit, 64 for 64-bit.
pub open spec fn section_record_len(c: Class) -> int {
    16 + 6 * c.word_len()
}

/// Every field of `s` but the name is the one stored in record `rec`, and
/// `s` stands at position `index` of its table.
pub open spec fn section_decoded(s: ELFSection, rec: Seq<u8>, c: Class, e: Endian, index: int) -> bool {
    let w = c.word_len();
    &&& s.index == index
    &&& s.strndx == u32_at(rec, 0, e)
    &&& s.stype == SectionType::of_code(u32_at(rec, 4, e))
    &&& s.flags == SectionFlags(word_at(rec, 8, c, e))
    &&& s.vaddr == word_at(rec, 8 + w, c, e)
    &&& s.offset == word_at(rec, 8 + 2 * w, c, e)
    &&& s.size == word_at(rec, 8 + 3 * w, c, e)
    &&& s.link == u32_at(rec, 8 + 4 * w, e)
    &&& s.info == u32_at(rec, 12 + 4 * w, e)
    &&& s.align == word_at(rec, 16 + 4 * w, c, e)
    &&& s.entrysize == word_at(rec, 16 + 5 * w, c, e)
}

/// Bytes of the `i`-th record of a table of records `size` bytes apart,
/// each `len` bytes long.
pub open spec fn record(table: Seq<u8>, i: int, size: int, len: int) -> Seq<u8> {
    table.subrange(i * size, i * size + len)
}

/// The section header table `table`, with `num` entries `size` bytes apart,
/// can be decoded: it is long enough, and (where it has entries) an entry
/// holds all fields of class `c`.
pub open spec fn section_table_fits(table_len: int, size: int, num: int, c: Class) -> bool {
    &&& size * num <= table_len
    &&& num > 0 ==> size >= section_record_len(c)
}

impl ELFSection {
    /// Decodes the section header in `chunk`, which stands at position
    /// `index` of its table. The name is left empty.
    pub fn parse(chunk: &[u8], class: Class, endian: Endian, index: usize) -> (r: ELFSection)
        requires
            chunk@.len() >= section_record_len(class),
        ensures
            section_decoded(r, chunk@, class, endian, index as int),
            r.name@ == Seq::<char>::empty(),
    {
        let s = class.word_size();
        let strndx = read_u32(chunk, 0x00, endian);
        let stype = SectionType::from(read_u32(chunk, 0x04, endian));
        let flags = read_word(chunk, 0x08, class, endian);
        let vaddr = read_word(chunk, 0x08 + s, class, endian);
        let offset = read_word(chunk, 0x08 + 2 * s, class, endian);
        let size = read_word(chunk, 0x08 + 3 * s, class, endian);
        let link = read_u32(chunk, 0x08 + 4 * s, endian);
        let info = read_u32(chunk, 0x0C + 4 * s, endian);
        let align = read_word(chunk, 0x10 + 4 * s, class, endian);
        let entrysize = read_word(chunk, 0x10 + 5 * s, class, endian);
        ELFSection {
            index,
            strndx: strndx as usize,
            name: String::new(),
            stype,
            flags: SectionFlags(flags),
            vaddr,
            offset,
            size,
            link,
            info,
            align,
            entrysize,
        }
    }

    /// Decodes all section headers of `table`, by the entry size and count
    /// that `header` declares. Fails where the table is shorter than that, or
    /// an entry too short to hold a section header.
    pub fn all(table: &[u8], header: &ELFHeader) -> (r: Result<Vec<ELFSection>, ELFError>)
        ensures
            r is Ok <==> section_table_fits(
                table@.len() as int,
                header.entrysize.1 as int,
                header.num.1 as int,
                header.class,
            ),
            r is Err ==> r == Err::<Vec<ELFSection>, ELFError>(ELFError::OutOfBounds),
            r is Ok ==> {
                let v = r->Ok_0@;
                &&& v.len() == header.num.1
                &&& forall|i: int|
                    #![trigger v[i]]
                    0 <= i < v.len() ==> {
                        &&& section_decoded(
                            v[i],
                            record(
                                table@,
                                i,
                                header.entrysize.1 as int,
                                section_record_len(header.class),
                            ),
                            header.class,
                            header.endian,
                            i,
                        )
                        &&& v[i].name@ == Seq::<char>::empty()
                    }
            },
    {
        let class = header.class;
        let endian = header.endian;
        let size = header.entrysize.1 as usize;
        let num = header.num.1 as usize;
        let rec = 16 + 6 * class.word_size();
        assert(size * num <= 0xFFFF * 0xFFFF) by (nonlinear_arith)
            requires
                size <= 0xFFFF,
                num <= 0xFFFF,
        ;
        let tlen = table.len();
        if size * num > tlen || (num > 0 && size < rec) {
            return Err(ELFError::OutOfBounds);
        }
        let mut out: Vec<ELFSection> = Vec::with_capacity(num);
        let mut pos: usize = 0;
        for i in 0..num
            invariant
                out@.len() == i,
                pos == i * size,
                tlen == table@.len(),
                size * num <= table@.len(),
                num > 0 ==> size >= rec,
                rec == section_record_len(class),
                class == header.class,
                endian == header.endian,
                size == header.entrysize.1,
                forall|k: int|
                    #![trigger out@[k]]
                    0 <= k < i ==> {
                        &&& section_decoded(
                            out@[k],
                            record(table@, k, size as int, rec as int),
                            class,
                            endian,
                            k,
                        )
                        &&& out@[k].name@ == Seq::<char>::empty()
                    },
        {
            assert(pos + size <= size * num) by (nonlinear_arith)
                requires
                    pos == i * size,
                    i < num,
            ;
            let chunk = &table[pos..pos + rec];
            let s = ELFSection::parse(chunk, class, endian, i);
            out.push(s);
            pos = pos + size;
            assert(pos == (i + 1) * size) by (nonlinear_arith)
                requires
                    pos == i * size + size,
            ;
        }
        Ok(out)
    }
}

impl Rename for ELFSection {
    open spec fn name_offset(&self) -> usize {
        self.strndx
    }

    open spec fn name_view(&self) -> Seq<char> {
        self.name@
    }

    open spec fn same_but_name(&self, other: &ELFSection) -> bool {
        &&& self.index == other.index
        &&& self.strndx == other.strndx
        &&& self.stype == other.stype
        &&& self.flags == other.flags
        &&& self.vaddr == other.vaddr
        &&& self.offset == other.offset
        &&& self.size == other.size
        &&& self.link == other.link
        &&& self.info == other.info
        &&& self.align == other.align
        &&& self.entrysize == other.entrysize
    }

    fn strndx(&self) -> (r: usize) {
        self.strndx
    }

    fn setname(&mut self, name: String) {
        self.name = name;
    }
}

impl SectionHeader for ELFSection {
    fn name(&self) -> (r: &str)
        ensures
            r@ == self.name@,
    {
        self.name.as_str()
    }

    fn phys(&self) -> (r: (u64, u64))
        ensures
            r == (self.offset, self.size),
    {
        (self.offset, self.size)
    }

    fn virt(&self) -> (r: (u64, u64))
        ensures
            r == (self.vaddr, self.size),
    {
        (self.vaddr, self.size)
    }

    fn stype(&self) -> (r: SectionType)
        ensures
            r == self.stype,
    {
        self.stype
    }
}

} // verus!
