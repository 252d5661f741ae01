//! Decoding of ELF object files: file header, section header table, symbol
//! table and the string tables that name sections and symbols.
//!
//! Decoding never panics: malformed identification bytes and byte ranges
//! that run past the end of the buffer come back as [`ELFError`], and names
//! that cannot be read degrade to the sentinels "CORRUPTED" and "NULL".

pub mod codes;
pub mod content;
pub mod endian;
pub mod error;
pub mod header;
pub mod section;
pub mod strtab;
pub mod symbol;
pub mod text;

pub use codes::{
    ArchFlags, FileType, InstructionSet, OperatingSystem, SectionFlags, SectionType, SymbolBind,
    SymbolType,
};
pub use content::ELFContent;
pub use endian::{Class, Endian};
pub use error::ELFError;
pub use header::{ELFHeader, FileHeader};
pub use section::{ELFSection, SectionHeader};
pub use strtab::Rename;
pub use symbol::{ELFSymbol, Symbol};
