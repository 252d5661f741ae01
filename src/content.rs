//! The decoded file as a whole: header, sections and symbols, named.

use vstd::prelude::*;
use crate::codes::SectionType;
use crate::endian::{u32_at, word_at};
use crate::error::ELFError;
use crate::header::{class_of, header_result, is_magic, ELFHeader};
use crate::section::{record, section_decoded, section_record_len, ELFSection};
use crate::strtab::{resolve_names, resolved_name};
use crate::symbol::{symbol_decoded, symbol_record_len, ELFSymbol};

verus! {

/// A decoded ELF file. It owns the raw bytes; sections and symbols keep
/// offsets into them.
pub struct ELFContent {
    /// Raw bytes of the file.
    pub raw: Vec<u8>,
    /// File header.
    pub header: ELFHeader,
    /// All section headers, in table order.
    pub sections: Vec<ELFSection>,
    /// All symbols of the first symbol table, in table order.
    pub symbols: Vec<ELFSymbol>,
}

/// The bytes `offset .. offset + size` lie within a buffer of `len` bytes.
pub open spec fn in_file(len: int, offset: u64, size: u64) -> bool {
    offset + size <= len
}

/// The bytes `offset .. offset + size` of `raw`.
pub open spec fn file_range(raw: Seq<u8>, offset: u64, size: u64) -> Seq<u8> {
    raw.subrange(offset as int, offset + size)
}

/// The name at `off` in string table `tab`, where an empty table names nothing.
pub open spec fn listed_name(tab: Seq<u8>, off: int) -> Seq<char> {
    if tab.len() == 0 {
        Seq::empty()
    } else {
        resolved_name(tab, off)
    }
}

/// The section header table of `raw` as header `h` declares it.
pub open spec fn sh_table(raw: Seq<u8>, h: ELFHeader) -> Seq<u8> {
    raw.subrange(h.offset.1 as int, h.offset.1 + h.entrysize.1 * h.num.1)
}

/// The declared section header table lies within `raw`, and each of its
/// entries is long enough for a section header.
pub open spec fn sh_table_ok(raw: Seq<u8>, h: ELFHeader) -> bool {
    &&& h.offset.1 + h.entrysize.1 * h.num.1 <= raw.len()
    &&& h.num.1 > 0 ==> h.entrysize.1 >= section_record_len(h.class)
}

/// Bytes of the `i`-th section header.
pub open spec fn sec_record(raw: Seq<u8>, h: ELFHeader, i: int) -> Seq<u8> {
    record(sh_table(raw, h), i, h.entrysize.1 as int, section_record_len(h.class))
}

pub open spec fn sec_strndx(raw: Seq<u8>, h: ELFHeader, i: int) -> u32 {
    u32_at(sec_record(raw, h, i), 0, h.endian)
}

pub open spec fn sec_type(raw: Seq<u8>, h: ELFHeader, i: int) -> SectionType {
    SectionType::of_code(u32_at(sec_record(raw, h, i), 4, h.endian))
}

pub open spec fn sec_offset(raw: Seq<u8>, h: ELFHeader, i: int) -> u64 {
    word_at(sec_record(raw, h, i), 8 + 2 * h.class.word_len(), h.class, h.endian)
}

pub open spec fn sec_size(raw: Seq<u8>, h: ELFHeader, i: int) -> u64 {
    word_at(sec_record(raw, h, i), 8 + 3 * h.class.word_len(), h.class, h.endian)
}

/// The bytes of the `i`-th section lie within `raw`.
pub open spec fn sec_in_file(raw: Seq<u8>, h: ELFHeader, i: int) -> bool {
    in_file(raw.len() as int, sec_offset(raw, h, i), sec_size(raw, h, i))
}

/// The bytes of the `i`-th section.
pub open spec fn sec_bytes(raw: Seq<u8>, h: ELFHeader, i: int) -> Seq<u8> {
    file_range(raw, sec_offset(raw, h, i), sec_size(raw, h, i))
}

/// The name of the `i`-th section, from the section name string table.
pub open spec fn sec_name(raw: Seq<u8>, h: ELFHeader, i: int) -> Seq<char> {
    listed_name(sec_bytes(raw, h, h.shstrndx as int), sec_strndx(raw, h, i) as int)
}

/// The `i`-th section is the string table of symbol names.
pub open spec fn is_strtab(raw: Seq<u8>, h: ELFHeader, i: int) -> bool {
    sec_type(raw, h, i) == SectionType::StringTable && sec_name(raw, h, i) == ".strtab"@
}

/// The `i`-th section is a symbol table.
pub open spec fn is_symtab(raw: Seq<u8>, h: ELFHeader, i: int) -> bool {
    sec_type(raw, h, i) == SectionType::SymbolTable
}

/// Index of the first symbol name string table at or after `i`.
pub open spec fn strtab_from(raw: Seq<u8>, h: ELFHeader, i: int) -> Option<int>
    decreases h.num.1 - i,
{
    if i < 0 || i >= h.num.1 {
        None
    } else if is_strtab(raw, h, i) {
        Some(i)
    } else {
        strtab_from(raw, h, i + 1)
    }
}

/// Index of the first symbol table at or after `i`.
pub open spec fn symtab_from(raw: Seq<u8>, h: ELFHeader, i: int) -> Option<int>
    decreases h.num.1 - i,
{
    if i < 0 || i >= h.num.1 {
        None
    } else if is_symtab(raw, h, i) {
        Some(i)
    } else {
        symtab_from(raw, h, i + 1)
    }
}

/// The bytes of the symbol name string table; empty where the file has none.
pub open spec fn strtab_bytes(raw: Seq<u8>, h: ELFHeader) -> Seq<u8> {
    match strtab_from(raw, h, 0) {
        None => Seq::empty(),
        Some(j) => sec_bytes(raw, h, j),
    }
}

/// What decoding `raw` gives for its header: magic and class byte are
/// checked first, then the header is decoded.
pub open spec fn content_header_result(raw: Seq<u8>) -> Result<ELFHeader, ELFError> {
    if raw.len() < 4 {
        Err(ELFError::OutOfBounds)
    } else if !is_magic(raw) {
        Err(ELFError::BadMagic([raw[0], raw[1], raw[2], raw[3]]))
    } else if raw.len() < 5 {
        Err(ELFError::OutOfBounds)
    } else if class_of(raw[4]) is None {
        Err(ELFError::BadPointerWidth(raw[4]))
    } else {
        header_result(raw)
    }
}

/// A file that opens with anything but the ELF magic is refused with the
/// magic error, carrying its first four bytes.
pub proof fn lemma_file_bad_magic(raw: Seq<u8>)
    requires
        raw.len() >= 4,
        !is_magic(raw),
    ensures
        content_header_result(raw) == Err::<ELFHeader, ELFError>(
            ELFError::BadMagic([raw[0], raw[1], raw[2], raw[3]]),
        ),
{
}

/// A file with the ELF magic whose class byte is neither 1 nor 2 is refused
/// with the pointer width error, carrying that byte, whatever its version byte.
pub proof fn lemma_bad_pointer_width(raw: Seq<u8>)
    requires
        raw.len() >= 5,
        is_magic(raw),
        raw[4] != 1,
        raw[4] != 2,
    ensures
        content_header_result(raw) == Err::<ELFHeader, ELFError>(ELFError::BadPointerWidth(raw[4])),
{
}

/// Every byte range that decoding `raw` reads lies within it: the header,
/// the section header table, the section name string table, and the symbol
/// name string table and symbol table where the file has them.
pub open spec fn parse_succeeds(raw: Seq<u8>) -> bool {
    content_header_result(raw) is Ok && {
        let h = content_header_result(raw)->Ok_0;
        &&& sh_table_ok(raw, h)
        &&& h.shstrndx < h.num.1
        &&& sec_in_file(raw, h, h.shstrndx as int)
        &&& strtab_from(raw, h, 0) is Some ==> sec_in_file(raw, h, strtab_from(raw, h, 0)->Some_0)
        &&& symtab_from(raw, h, 0) is Some ==> {
            let j = symtab_from(raw, h, 0)->Some_0;
            &&& sec_in_file(raw, h, j)
            &&& sec_size(raw, h, j) as int % symbol_record_len(h.class) == 0
        }
    }
}

/// `c` is the decoding of `raw`: its header; every section header, named
/// from the section name string table; the symbols of the first symbol
/// table, named from the string table called ".strtab".
pub open spec fn parsed(raw: Seq<u8>, c: ELFContent) -> bool {
    let h = c.header;
    let secs = c.sections@;
    let syms = c.symbols@;
    &&& content_header_result(raw) == Ok::<ELFHeader, ELFError>(h)
    &&& c.raw@ == raw
    &&& secs.len() == h.num.1
    &&& forall|i: int|
        #![trigger secs[i]]
        0 <= i < secs.len() ==> {
            &&& section_decoded(secs[i], sec_record(raw, h, i), h.class, h.endian, i)
            &&& secs[i].name@ == sec_name(raw, h, i)
        }
    &&& match symtab_from(raw, h, 0) {
        None => syms.len() == 0,
        Some(j) => {
            let tab = sec_bytes(raw, h, j);
            let n = symbol_record_len(h.class);
            &&& syms.len() == tab.len() as int / n
            &&& forall|k: int|
                #![trigger syms[k]]
                0 <= k < syms.len() ==> {
                    &&& symbol_decoded(syms[k], record(tab, k, n, n), h.class, h.endian)
                    &&& syms[k].name@ == listed_name(strtab_bytes(raw, h), syms[k].strndx as int)
                }
        },
    }
}

/// A file without a string table called ".strtab" decodes with every
/// symbol name empty.
pub proof fn lemma_no_strtab_empty_names(raw: Seq<u8>, c: ELFContent)
    requires
        parsed(raw, c),
        strtab_from(raw, c.header, 0) is None,
    ensures
        forall|k: int| 0 <= k < c.symbols@.len() ==> #[trigger] c.symbols@[k].name@ == Seq::<char>::empty(),
{
    if symtab_from(raw, c.header, 0) is Some {
        assert forall|k: int| 0 <= k < c.symbols@.len() implies #[trigger] c.symbols@[k].name@ == Seq::<char>::empty() by {
            assert(c.symbols@[k].name@ == listed_name(strtab_bytes(raw, c.header), c.symbols@[k].strndx as int));
        }
    }
}

/// The sections of `secs` carry the type and name that `raw` gives them.
pub open spec fn sections_named(raw: Seq<u8>, h: ELFHeader, secs: Seq<ELFSection>) -> bool {
    &&& secs.len() == h.num.1
    &&& forall|i: int|
        #![trigger secs[i]]
        0 <= i < secs.len() ==> {
            &&& secs[i].stype == sec_type(raw, h, i)
            &&& secs[i].offset == sec_offset(raw, h, i)
            &&& secs[i].size == sec_size(raw, h, i)
            &&& secs[i].name@ == sec_name(raw, h, i)
        }
}

/// Index of the string table called ".strtab", if the file has one.
fn find_strtab(sections: &Vec<ELFSection>, Ghost(raw): Ghost<Seq<u8>>, Ghost(h): Ghost<ELFHeader>) -> (r: Option<usize>)
    requires
        sections_named(raw, h, sections@),
    ensures
        r is Some <==> strtab_from(raw, h, 0) is Some,
        r is Some ==> r->Some_0 == strtab_from(raw, h, 0)->Some_0 && r->Some_0 < sections@.len(),
{
    let strtab_name = String::from_str(".strtab");
    let n = sections.len();
    let mut j: usize = 0;
    while j < n
        invariant
            n == sections@.len(),
            sections_named(raw, h, sections@),
            strtab_name@ == ".strtab"@,
            strtab_from(raw, h, 0) == strtab_from(raw, h, j as int),
        decreases n - j,
    {
        if sections[j].stype == SectionType::StringTable && sections[j].name == strtab_name {
            return Some(j);
        }
        j = j + 1;
    }
    None
}

/// Index of the first symbol table, if the file has one.
fn find_symtab(sections: &Vec<ELFSection>, Ghost(raw): Ghost<Seq<u8>>, Ghost(h): Ghost<ELFHeader>) -> (r: Option<usize>)
    requires
        sections_named(raw, h, sections@),
    ensures
        r is Some <==> symtab_from(raw, h, 0) is Some,
        r is Some ==> r->Some_0 == symtab_from(raw, h, 0)->Some_0 && r->Some_0 < sections@.len(),
{
    let n = sections.len();
    let mut j: usize = 0;
    while j < n
        invariant
            n == sections@.len(),
            sections_named(raw, h, sections@),
            symtab_from(raw, h, 0) == symtab_from(raw, h, j as int),
        decreases n - j,
    {
        if sections[j].stype == SectionType::SymbolTable {
            return Some(j);
        }
        j = j + 1;
    }
    None
}

/// Index of the first section of `secs` at or after `i` called `name`.
pub open spec fn named_from(secs: Seq<ELFSection>, name: Seq<char>, i: int) -> Option<int>
    decreases secs.len() - i,
{
    if i < 0 || i >= secs.len() {
        None
    } else if secs[i].name@ == name {
        Some(i)
    } else {
        named_from(secs, name, i + 1)
    }
}

/// The type gimli uses for a set of loaded debug sections.
#[verifier::external_type_specification]
#[verifier::external_body]
#[verifier::reject_recursive_types(R)]
pub struct ExDwarf<R>(gimli::read::Dwarf<R>);

impl ELFContent {
    /// A copy of the bytes of the first section called `name`; empty where
    /// no section has that name. Fails where that section's declared range
    /// extends past the end of the file.
    pub fn section_bytes(&self, name: &str) -> (r: Result<Vec<u8>, ELFError>)
        ensures
            match named_from(self.sections@, name@, 0) {
                None => r is Ok && r->Ok_0@ == Seq::<u8>::empty(),
                Some(j) => {
                    let s = self.sections@[j];
                    &&& r is Ok <==> in_file(self.raw@.len() as int, s.offset, s.size)
                    &&& r is Ok ==> r->Ok_0@ == file_range(self.raw@, s.offset, s.size)
                    &&& r is Err ==> r->Err_0 == ELFError::OutOfBounds
                },
            },
    {
        let wanted = String::from_str(name);
        let n = self.sections.len();
        let mut j: usize = 0;
        while j < n
            invariant
                n == self.sections@.len(),
                wanted@ == name@,
                named_from(self.sections@, name@, 0) == named_from(self.sections@, name@, j as int),
            decreases n - j,
        {
            if self.sections[j].name == wanted {
                let bytes = match ELFContent::sectiondata(self.raw.as_slice(), &self.sections[j]) {
                    Ok(b) => b,
                    Err(e) => {
                        return Err(e);
                    },
                };
                let mut out: Vec<u8> = Vec::with_capacity(bytes.len());
                for k in 0..bytes.len()
                    invariant
                        out@ == bytes@.subrange(0, k as int),
                {
                    out.push(bytes[k]);
                    assert(out@ =~= bytes@.subrange(0, k + 1));
                }
                assert(out@ =~= bytes@);
                return Ok(out);
            }
            j = j + 1;
        }
        Ok(Vec::new())
    }

    /// Loads the debug sections for gimli's DWARF reader, each a copy of the
    /// section's bytes (empty where the file has no such section).
    ///
    /// Relies on gimli's `Dwarf::load`: it asks the loader for each standard
    /// debug section by name and stops at the first error the loader returns.
    #[verifier::external_body]
    pub fn dwarf(&self) -> Result<gimli::read::Dwarf<Vec<u8>>, ELFError> {
        gimli::read::Dwarf::load(|id: gimli::SectionId| self.section_bytes(id.name()))
    }

    /// The bytes of `section` within `raw`. Fails where the section's
    /// declared range extends past the end of `raw`.
    pub fn sectiondata<'a>(raw: &'a [u8], section: &ELFSection) -> (r: Result<&'a [u8], ELFError>)
        ensures
            r is Ok <==> in_file(raw@.len() as int, section.offset, section.size),
            r is Ok ==> r->Ok_0@ == file_range(raw@, section.offset, section.size),
            r is Err ==> r->Err_0 == ELFError::OutOfBounds,
    {
        let len = raw.len() as u64;
        if section.offset > len || section.size > len - section.offset {
            return Err(ELFError::OutOfBounds);
        }
        let start = section.offset as usize;
        let end = (section.offset + section.size) as usize;
        Ok(&raw[start..end])
    }

    /// Decodes the ELF file `raw`: the header, the section header table,
    /// section names, the first symbol table and symbol names.
    ///
    /// Checks the magic and then the class byte before decoding the header.
    /// Fails with the error of the first of magic, class, version and data
    /// encoding that is wrong, and with `OutOfBounds` where a range that it
    /// reads extends past the end of `raw`.
    pub fn parse(raw: Vec<u8>) -> (r: Result<ELFContent, ELFError>)
        ensures
            r is Ok <==> parse_succeeds(raw@),
            r is Ok ==> parsed(raw@, r->Ok_0),
            content_header_result(raw@) is Err ==> r == Err::<ELFContent, ELFError>(
                content_header_result(raw@)->Err_0,
            ),
            content_header_result(raw@) is Ok && r is Err ==> r->Err_0 == ELFError::OutOfBounds,
    {
        let len = raw.len();
        if len < 4 {
            return Err(ELFError::OutOfBounds);
        }
        if !(raw[0] == 0x7F && raw[1] == 0x45 && raw[2] == 0x4C && raw[3] == 0x46) {
            return Err(ELFError::BadMagic([raw[0], raw[1], raw[2], raw[3]]));
        }
        if len < 5 {
            return Err(ELFError::OutOfBounds);
        }
        if raw[4] != 1 && raw[4] != 2 {
            return Err(ELFError::BadPointerWidth(raw[4]));
        }
        let header = match ELFHeader::parse(raw.as_slice()) {
            Ok(h) => h,
            Err(e) => {
                return Err(e);
            },
        };
        let ghost h = header;

        // The section header table.
        let shoff = header.offset.1;
        let size = header.entrysize.1 as usize;
        let num = header.num.1 as usize;
        assert(size * num <= 0xFFFF * 0xFFFF) by (nonlinear_arith)
            requires
                size <= 0xFFFF,
                num <= 0xFFFF,
        ;
        if shoff > len as u64 || (size * num) as u64 > len as u64 - shoff {
            return Err(ELFError::OutOfBounds);
        }
        let start = shoff as usize;
        let table = &raw.as_slice()[start..start + size * num];
        let mut sections = match ELFSection::all(table, &header) {
            Ok(s) => s,
            Err(e) => {
                return Err(e);
            },
        };

        // Names of the sections.
        let shstrndx = header.shstrndx as usize;
        if shstrndx >= sections.len() {
            return Err(ELFError::OutOfBounds);
        }
        let shstrtab = match ELFContent::sectiondata(raw.as_slice(), &sections[shstrndx]) {
            Ok(t) => t,
            Err(e) => {
                return Err(e);
            },
        };
        resolve_names(shstrtab, &mut sections);

        // The string table of symbol names.
        let strtab: &[u8] = match find_strtab(&sections, Ghost(raw@), Ghost(h)) {
            None => &[],
            Some(j) => match ELFContent::sectiondata(raw.as_slice(), &sections[j]) {
                Ok(t) => t,
                Err(e) => {
                    return Err(e);
                },
            },
        };

        // The symbols.
        let mut symbols = match find_symtab(&sections, Ghost(raw@), Ghost(h)) {
            None => Vec::new(),
            Some(j) => {
                let table = match ELFContent::sectiondata(raw.as_slice(), &sections[j]) {
                    Ok(t) => t,
                    Err(e) => {
                        return Err(e);
                    },
                };
                match ELFSymbol::all(table, header.class, header.endian) {
                    Ok(s) => s,
                    Err(e) => {
                        return Err(e);
                    },
                }
            },
        };
        resolve_names(strtab, &mut symbols);
        Ok(ELFContent { raw, header, sections, symbols })
    }
}

} // verus!
