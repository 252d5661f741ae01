//! Symbols and the symbol table.

use vstd::prelude::*;
use crate::codes::{SymbolBind, SymbolType};
use crate::endian::{read_u16, read_u32, read_word, u16_at, u32_at, word_at, Class, Endian};
use crate::error::ELFError;
use crate::section::record;
use crate::strtab::Rename;

verus! {

/// Queries shared by symbols.
pub trait Symbol {
    /// The symbol's name; empty until names are resolved.
    fn name(&self) -> &str;

    /// The symbol's value: an address or an absolute value, by type.
    fn address(&self) -> u64;

    /// The symbol's size.
    fn size(&self) -> u64;

    /// The symbol's type.
    fn stype(&self) -> SymbolType;
}

/// A decoded symbol table entry. Value and size are widened to 64 bits
/// whatever the class of the file.
#[derive(Debug)]
pub struct ELFSymbol {
    /// Offset of the symbol's name in the string table.
    pub strndx: usize,
    /// Name of the symbol.
    pub name: String,
    /// Type of the symbol.
    pub stype: SymbolType,
    /// Binding of the symbol.
    pub binding: SymbolBind,
    /// Visibility byte, kept as read.
    pub visibility: u8,
    /// Index of the section the symbol is defined relative to; 0 for none.
    pub relativity: u16,
    /// Value of the symbol.
    pub value: u64,
    /// Size of the symbol.
    pub size: u64,
}

/// Length of one symbol record of class `c`: 16 bytes for 32-bit, 24 for 64-bit.
pub open spec fn symbol_record_len(c: Class) -> int {
    match c {
        Class::Elf32 => 16,
        Class::Elf64 => 24,
    }
}

/// Every field of `s` but the name is the one stored in record `rec`.
pub open spec fn symbol_decoded(s: ELFSymbol, rec: Seq<u8>, c: Class, e: Endian) -> bool {
    let (info_at, other_at, shndx_at, value_at, size_at) = match c {
        Class::Elf32 => (12int, 13int, 14int, 4int, 8int),
        Class::Elf64 => (4int, 5int, 6int, 8int, 16int),
    };
    &&& s.strndx == u32_at(rec, 0, e)
    &&& s.stype == SymbolType::of_code(rec[info_at] & 0xF)
    &&& s.binding == SymbolBind::of_code(rec[info_at] >> 4)
    &&& s.visibility == rec[other_at]
    &&& s.relativity == u16_at(rec, shndx_at, e)
    &&& s.value == word_at(rec, value_at, c, e)
    &&& s.size == word_at(rec, size_at, c, e)
}

impl ELFSymbol {
    /// Length in bytes of one symbol record of class `class`.
    pub fn record_size(class: Class) -> (r: usize)
        ensures
            r == symbol_record_len(class),
    {
        match class {
            Class::Elf32 => 16,
            Class::Elf64 => 24,
        }
    }

    /// Decodes the symbol record in `chunk`. The name is left empty.
    pub fn parse(chunk: &[u8], class: Class, endian: Endian) -> (r: ELFSymbol)
        requires
            chunk@.len() >= symbol_record_len(class),
        ensures
            symbol_decoded(r, chunk@, class, endian),
            r.name@ == Seq::<char>::empty(),
    {
        let (info_at, other_at, shndx_at, value_at, size_at): (usize, usize, usize, usize, usize) =
            match class {
            Class::Elf32 => (12, 13, 14, 4, 8),
            Class::Elf64 => (4, 5, 6, 8, 16),
        };
        let strndx = read_u32(chunk, 0, endian);
        let value = read_word(chunk, value_at, class, endian);
        let size = read_word(chunk, size_at, class, endian);
        // Low nibble: type; high nibble: binding.
        let info = chunk[info_at];
        let stype = SymbolType::from(info & 0xF);
        let binding = SymbolBind::from(info >> 4);
        let visibility = chunk[other_at];
        let relativity = read_u16(chunk, shndx_at, endian);
        ELFSymbol {
            strndx: strndx as usize,
            name: String::new(),
            stype,
            binding,
            visibility,
            relativity,
            value,
            size,
        }
    }

    /// Decodes every record of symbol table `table`. Fails where the table's
    /// length is not a whole number of records.
    pub fn all(table: &[u8], class: Class, endian: Endian) -> (r: Result<Vec<ELFSymbol>, ELFError>)
        ensures
            r is Ok <==> (table@.len() as int) % symbol_record_len(class) == 0,
            r is Err ==> r == Err::<Vec<ELFSymbol>, ELFError>(ELFError::OutOfBounds),
            r is Ok ==> {
                let v = r->Ok_0@;
                let n = symbol_record_len(class);
                &&& v.len() == (table@.len() as int) / n
                &&& forall|i: int|
                    #![trigger v[i]]
                    0 <= i < v.len() ==> {
                        &&& symbol_decoded(v[i], record(table@, i, n, n), class, endian)
                        &&& v[i].name@ == Seq::<char>::empty()
                    }
            },
    {
        let rec = ELFSymbol::record_size(class);
        let len = table.len();
        if len % rec != 0 {
            return Err(ELFError::OutOfBounds);
        }
        let count = len / rec;
        assert(count * rec == len) by (nonlinear_arith)
            requires
                count == len / rec,
                len % rec == 0,
                rec > 0,
        ;
        let mut out: Vec<ELFSymbol> = Vec::new();
        let mut pos: usize = 0;
        for i in 0..count
            invariant
                out@.len() == i,
                pos == i * rec,
                count * rec == len,
                len == table@.len(),
                rec == symbol_record_len(class),
                forall|k: int|
                    #![trigger out@[k]]
                    0 <= k < i ==> {
                        &&& symbol_decoded(out@[k], record(table@, k, rec as int, rec as int), class, endian)
                        &&& out@[k].name@ == Seq::<char>::empty()
                    },
        {
            assert(pos + rec <= count * rec) by (nonlinear_arith)
                requires
                    pos == i * rec,
                    i < count,
            ;
            let chunk = &table[pos..pos + rec];
            out.push(ELFSymbol::parse(chunk, class, endian));
            pos = pos + rec;
            assert(pos == (i + 1) * rec) by (nonlinear_arith)
                requires
                    pos == i * rec + rec,
            ;
        }
        Ok(out)
    }
}

impl Rename for ELFSymbol {
    open spec fn name_offset(&self) -> usize {
        self.strndx
    }

    open spec fn name_view(&self) -> Seq<char> {
        self.name@
    }

    open spec fn same_but_name(&self, other: &ELFSymbol) -> bool {
        &&& self.strndx == other.strndx
        &&& self.stype == other.stype
        &&& self.binding == other.binding
        &&& self.visibility == other.visibility
        &&& self.relativity == other.relativity
        &&& self.value == other.value
        &&& self.size == other.size
    }

    fn strndx(&self) -> (r: usize) {
        self.strndx
    }

    fn setname(&mut self, name: String) {
        self.name = name;
    }
}

impl Symbol for ELFSymbol {
    fn name(&self) -> (r: &str)
        ensures
            r@ == self.name@,
    {
        self.name.as_str()
    }

    fn address(&self) -> (r: u64)
        ensures
            r == self.value,
    {
        self.value
    }

    fn size(&self) -> (r: u64)
        ensures
            r == self.size,
    {
        self.size
    }

    fn stype(&self) -> (r: SymbolType)
        ensures
            r == self.stype,
    {
        self.stype
    }
}

} // verus!
