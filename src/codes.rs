//! Code tables: total conversions from the raw numeric codes of the format
//! to typed values.

use vstd::prelude::*;
use vstd::string::StringExecFns;
use crate::text::{decimal, hex, join, push_decimal, push_hex};

verus! {

/// Target operating system ABI, with the ABI version byte.
#[derive(Clone, Copy, Debug, PartialEq, Eq, Structural)]
pub enum OperatingSystem {
    SystemV(u8),
    HPUX(u8),
    NetBSD(u8),
    Linux(u8),
    GNUHurd(u8),
    Solaris(u8),
    AIX(u8),
    IRIX(u8),
    FreeBSD(u8),
    Tru64(u8),
    NovellModesto(u8),
    OpenBSD(u8),
    OpenVMS(u8),
    NonStopKernel(u8),
    AROS(u8),
    FenixOS(u8),
    CloudABI(u8),
    OpenVOS(u8),
    /// No ABI given.
    Unspecified,
}

impl OperatingSystem {
    /// The ABI named by OS/ABI code `os` with ABI version `v`.
    pub open spec fn of_code(os: u8, v: u8) -> OperatingSystem {
        match os {
            0x00 => if v == 0 { OperatingSystem::Unspecified } else { OperatingSystem::SystemV(v) },
            0x01 => OperatingSystem::HPUX(v),
            0x02 => OperatingSystem::NetBSD(v),
            0x03 => OperatingSystem::Linux(v),
            0x04 => OperatingSystem::GNUHurd(v),
            0x06 => OperatingSystem::Solaris(v),
            0x07 => OperatingSystem::AIX(v),
            0x08 => OperatingSystem::IRIX(v),
            0x09 => OperatingSystem::FreeBSD(v),
            0x0A => OperatingSystem::Tru64(v),
            0x0B => OperatingSystem::NovellModesto(v),
            0x0C => OperatingSystem::OpenBSD(v),
            0x0D => OperatingSystem::OpenVMS(v),
            0x0E => OperatingSystem::NonStopKernel(v),
            0x0F => OperatingSystem::AROS(v),
            0x10 => OperatingSystem::FenixOS(v),
            0x11 => OperatingSystem::CloudABI(v),
            0x12 => OperatingSystem::OpenVOS(v),
            _ => OperatingSystem::Unspecified,
        }
    }
}

impl From<(u8, u8)> for OperatingSystem {
    fn from(code: (u8, u8)) -> (r: OperatingSystem) {
        let (os, v) = code;
        match os {
            0x00 => if v == 0 { OperatingSystem::Unspecified } else { OperatingSystem::SystemV(v) },
            0x01 => OperatingSystem::HPUX(v),
            0x02 => OperatingSystem::NetBSD(v),
            0x03 => OperatingSystem::Linux(v),
            0x04 => OperatingSystem::GNUHurd(v),
            0x06 => OperatingSystem::Solaris(v),
            0x07 => OperatingSystem::AIX(v),
            0x08 => OperatingSystem::IRIX(v),
            0x09 => OperatingSystem::FreeBSD(v),
            0x0A => OperatingSystem::Tru64(v),
            0x0B => OperatingSystem::NovellModesto(v),
            0x0C => OperatingSystem::OpenBSD(v),
            0x0D => OperatingSystem::OpenVMS(v),
            0x0E => OperatingSystem::NonStopKernel(v),
            0x0F => OperatingSystem::AROS(v),
            0x10 => OperatingSystem::FenixOS(v),
            0x11 => OperatingSystem::CloudABI(v),
            0x12 => OperatingSystem::OpenVOS(v),
            _ => OperatingSystem::Unspecified,
        }
    }
}

impl vstd::std_specs::convert::FromSpecImpl<(u8, u8)> for OperatingSystem {
    open spec fn obeys_from_spec() -> bool {
        true
    }

    open spec fn from_spec(code: (u8, u8)) -> OperatingSystem {
        OperatingSystem::of_code(code.0, code.1)
    }
}

/// Object file type.
#[derive(Clone, Copy, Debug, PartialEq, Eq, Structural)]
pub enum FileType {
    /// Unknown or unspecified file type.
    Unknown,
    /// Relocatable file.
    Relocatable,
    /// Executable file.
    Executable,
    /// Shared object file.
    Dynamic,
    /// Core file.
    Core,
    /// Operating system specific type, with its code.
    OperatingSystem(u16),
    /// Processor specific type, with its code.
    Processor(u16),
}

impl FileType {
    pub open spec fn of_code(d: u16) -> FileType {
        if d == 0x01 {
            FileType::Relocatable
        } else if d == 0x02 {
            FileType::Executable
        } else if d == 0x03 {
            FileType::Dynamic
        } else if d == 0x04 {
            FileType::Core
        } else if 0xFE00 <= d <= 0xFEFF {
            FileType::OperatingSystem(d)
        } else if 0xFF00 <= d {
            FileType::Processor(d)
        } else {
            FileType::Unknown
        }
    }
}

impl From<u16> for FileType {
    fn from(d: u16) -> (r: FileType) {
        match d {
            0x01 => FileType::Relocatable,
            0x02 => FileType::Executable,
            0x03 => FileType::Dynamic,
            0x04 => FileType::Core,
            0xFE00..=0xFEFF => FileType::OperatingSystem(d),
            0xFF00..=0xFFFF => FileType::Processor(d),
            _ => FileType::Unknown,
        }
    }
}

impl vstd::std_specs::convert::FromSpecImpl<u16> for FileType {
    open spec fn obeys_from_spec() -> bool {
        true
    }

    open spec fn from_spec(d: u16) -> FileType {
        FileType::of_code(d)
    }
}

/// Target instruction set architecture.
#[derive(Clone, Copy, Debug, PartialEq, Eq, Structural)]
pub enum InstructionSet {
    /// No machine given.
    Unspecified,
    Sparc,
    X86,
    Mips,
    PowerPC,
    PowerPC64,
    S390,
    Arm,
    SuperH,
    IA64,
    X86_64,
    AArch64,
    RiscV,
    /// Any other machine code.
    Other(u16),
}

impl InstructionSet {
    pub open spec fn of_code(d: u16) -> InstructionSet {
        match d {
            0x00 => InstructionSet::Unspecified,
            0x02 => InstructionSet::Sparc,
            0x03 => InstructionSet::X86,
            0x08 => InstructionSet::Mips,
            0x14 => InstructionSet::PowerPC,
            0x15 => InstructionSet::PowerPC64,
            0x16 => InstructionSet::S390,
            0x28 => InstructionSet::Arm,
            0x2A => InstructionSet::SuperH,
            0x32 => InstructionSet::IA64,
            0x3E => InstructionSet::X86_64,
            0xB7 => InstructionSet::AArch64,
            0xF3 => InstructionSet::RiscV,
            _ => InstructionSet::Other(d),
        }
    }
}

impl From<u16> for InstructionSet {
    fn from(d: u16) -> (r: InstructionSet) {
        match d {
            0x00 => InstructionSet::Unspecified,
            0x02 => InstructionSet::Sparc,
            0x03 => InstructionSet::X86,
            0x08 => InstructionSet::Mips,
            0x14 => InstructionSet::PowerPC,
            0x15 => InstructionSet::PowerPC64,
            0x16 => InstructionSet::S390,
            0x28 => InstructionSet::Arm,
            0x2A => InstructionSet::SuperH,
            0x32 => InstructionSet::IA64,
            0x3E => InstructionSet::X86_64,
            0xB7 => InstructionSet::AArch64,
            0xF3 => InstructionSet::RiscV,
            _ => InstructionSet::Other(d),
        }
    }
}

impl vstd::std_specs::convert::FromSpecImpl<u16> for InstructionSet {
    open spec fn obeys_from_spec() -> bool {
        true
    }

    open spec fn from_spec(d: u16) -> InstructionSet {
        InstructionSet::of_code(d)
    }
}

/// Section type.
#[derive(Clone, Copy, Debug, PartialEq, Eq, Structural)]
pub enum SectionType {
    /// Unused section header; also every code outside the known ranges.
    Null,
    /// Program data.
    ProgramData,
    /// Symbol table.
    SymbolTable,
    /// String table.
    StringTable,
    /// Relocation entries with addends.
    RelocationA,
    /// Symbol hash table.
    Hash,
    /// Dynamic linking information.
    Dynamic,
    /// Notes.
    Notes,
    /// Program space with no data (bss).
    Bss,
    /// Relocation entries without addends.
    Relocation,
    /// Reserved.
    SharedLib,
    /// Dynamic linker symbol table.
    DynamicSymbol,
    /// Array of constructors.
    Init,
    /// Array of destructors.
    Fini,
    /// Array of pre-constructors.
    PreInit,
    /// Section group.
    Group,
    /// Extended section indices.
    SymbolTableX,
    /// Number of defined types.
    Num,
    /// Operating system specific type, with its code.
    OperatingSystem(u32),
}

impl SectionType {
    pub open spec fn of_code(t: u32) -> SectionType {
        match t {
            0x00 => SectionType::Null,
            0x01 => SectionType::ProgramData,
            0x02 => SectionType::SymbolTable,
            0x03 => SectionType::StringTable,
            0x04 => SectionType::RelocationA,
            0x05 => SectionType::Hash,
            0x06 => SectionType::Dynamic,
            0x07 => SectionType::Notes,
            0x08 => SectionType::Bss,
            0x09 => SectionType::Relocation,
            0x0A => SectionType::SharedLib,
            0x0B => SectionType::DynamicSymbol,
            0x0E => SectionType::Init,
            0x0F => SectionType::Fini,
            0x10 => SectionType::PreInit,
            0x11 => SectionType::Group,
            0x12 => SectionType::SymbolTableX,
            0x13 => SectionType::Num,
            _ => if t >= 0x6000_0000 { SectionType::OperatingSystem(t) } else { SectionType::Null },
        }
    }
}

impl From<u32> for SectionType {
    fn from(t: u32) -> (r: SectionType) {
        match t {
            0x00 => SectionType::Null,
            0x01 => SectionType::ProgramData,
            0x02 => SectionType::SymbolTable,
            0x03 => SectionType::StringTable,
            0x04 => SectionType::RelocationA,
            0x05 => SectionType::Hash,
            0x06 => SectionType::Dynamic,
            0x07 => SectionType::Notes,
            0x08 => SectionType::Bss,
            0x09 => SectionType::Relocation,
            0x0A => SectionType::SharedLib,
            0x0B => SectionType::DynamicSymbol,
            0x0E => SectionType::Init,
            0x0F => SectionType::Fini,
            0x10 => SectionType::PreInit,
            0x11 => SectionType::Group,
            0x12 => SectionType::SymbolTableX,
            0x13 => SectionType::Num,
            0x6000_0000..=0xFFFF_FFFF => SectionType::OperatingSystem(t),
            _ => SectionType::Null,
        }
    }
}

impl vstd::std_specs::convert::FromSpecImpl<u32> for SectionType {
    open spec fn obeys_from_spec() -> bool {
        true
    }

    open spec fn from_spec(t: u32) -> SectionType {
        SectionType::of_code(t)
    }
}

/// Symbol binding.
#[derive(Clone, Copy, Debug, PartialEq, Eq, Structural)]
pub enum SymbolBind {
    Local,
    Global,
    Weak,
    /// Processor specific binding, with its code.
    Processor(u8),
    /// Any other code.
    Unknown,
}

impl SymbolBind {
    pub open spec fn of_code(u: u8) -> SymbolBind {
        match u {
            0 => SymbolBind::Local,
            1 => SymbolBind::Global,
            2 => SymbolBind::Weak,
            13 | 14 | 15 => SymbolBind::Processor(u),
            _ => SymbolBind::Unknown,
        }
    }
}

impl From<u8> for SymbolBind {
    fn from(u: u8) -> (r: SymbolBind) {
        match u {
            0 => SymbolBind::Local,
            1 => SymbolBind::Global,
            2 => SymbolBind::Weak,
            13..=15 => SymbolBind::Processor(u),
            _ => SymbolBind::Unknown,
        }
    }
}

impl vstd::std_specs::convert::FromSpecImpl<u8> for SymbolBind {
    open spec fn obeys_from_spec() -> bool {
        true
    }

    open spec fn from_spec(u: u8) -> SymbolBind {
        SymbolBind::of_code(u)
    }
}

/// Symbol type.
#[derive(Clone, Copy, Debug, PartialEq, Eq, Structural)]
pub enum SymbolType {
    /// No type, or an unknown one.
    NoType,
    Object,
    Function,
    Section,
    File,
    /// Processor specific type, with its code.
    Processor(u8),
}

impl SymbolType {
    pub open spec fn of_code(u: u8) -> SymbolType {
        match u {
            1 => SymbolType::Object,
            2 => SymbolType::Function,
            3 => SymbolType::Section,
            4 => SymbolType::File,
            13 | 14 | 15 => SymbolType::Processor(u),
            _ => SymbolType::NoType,
        }
    }
}

impl From<u8> for SymbolType {
    fn from(u: u8) -> (r: SymbolType) {
        match u {
            1 => SymbolType::Object,
            2 => SymbolType::Function,
            3 => SymbolType::Section,
            4 => SymbolType::File,
            13..=15 => SymbolType::Processor(u),
            _ => SymbolType::NoType,
        }
    }
}

impl vstd::std_specs::convert::FromSpecImpl<u8> for SymbolType {
    open spec fn obeys_from_spec() -> bool {
        true
    }

    open spec fn from_spec(u: u8) -> SymbolType {
        SymbolType::of_code(u)
    }
}

/// Architecture specific flags of the file header, kept as read.
#[derive(Clone, Copy, Debug, PartialEq, Eq, Structural)]
pub struct ArchFlags(pub u32);

impl From<u32> for ArchFlags {
    fn from(x: u32) -> (r: ArchFlags) {
        ArchFlags(x)
    }
}

impl vstd::std_specs::convert::FromSpecImpl<u32> for ArchFlags {
    open spec fn obeys_from_spec() -> bool {
        true
    }

    open spec fn from_spec(x: u32) -> ArchFlags {
        ArchFlags(x)
    }
}

/// Section attribute flags.
#[derive(Clone, Copy, Debug, PartialEq, Eq, Structural)]
pub struct SectionFlags(pub u64);

impl SectionFlags {
    /// Whether the section is writable.
    pub fn write(&self) -> (r: bool)
        ensures
            r == (self.0 & 0x1 != 0),
    {
        (self.0 & 0x1) != 0
    }

    /// Whether the section occupies memory during execution.
    pub fn allocated(&self) -> (r: bool)
        ensures
            r == (self.0 & 0x2 != 0),
    {
        (self.0 & 0x2) != 0
    }

    /// Whether the section holds executable code.
    pub fn exec(&self) -> (r: bool)
        ensures
            r == (self.0 & 0x4 != 0),
    {
        (self.0 & 0x4) != 0
    }

    /// Whether the section may be merged.
    pub fn merge(&self) -> (r: bool)
        ensures
            r == (self.0 & 0x10 != 0),
    {
        (self.0 & 0x10) != 0
    }

    /// Whether the section holds NUL-terminated strings.
    pub fn strings(&self) -> (r: bool)
        ensures
            r == (self.0 & 0x20 != 0),
    {
        (self.0 & 0x20) != 0
    }

    /// Whether the info field holds a section header table index.
    pub fn infolink(&self) -> (r: bool)
        ensures
            r == (self.0 & 0x40 != 0),
    {
        (self.0 & 0x40) != 0
    }

    /// Whether the section must keep its order after linking.
    pub fn linkorder(&self) -> (r: bool)
        ensures
            r == (self.0 & 0x80 != 0),
    {
        (self.0 & 0x80) != 0
    }

    /// Whether the section needs operating system specific handling.
    pub fn nonconforming(&self) -> (r: bool)
        ensures
            r == (self.0 & 0x100 != 0),
    {
        (self.0 & 0x100) != 0
    }

    /// Whether the section is a member of a group.
    pub fn group(&self) -> (r: bool)
        ensures
            r == (self.0 & 0x200 != 0),
    {
        (self.0 & 0x200) != 0
    }

    /// Whether the section holds thread-local data.
    pub fn tls(&self) -> (r: bool)
        ensures
            r == (self.0 & 0x400 != 0),
    {
        (self.0 & 0x400) != 0
    }
}

impl OperatingSystem {
    /// The human-readable name of the ABI, with its version.
    pub open spec fn label(self) -> Seq<char> {
        match self {
            OperatingSystem::Unspecified => "No OS ABI defined"@,
            OperatingSystem::SystemV(x) => "System V - rev "@ + decimal(x as nat),
            OperatingSystem::HPUX(x) => "HP-UX - rev "@ + decimal(x as nat),
            OperatingSystem::NetBSD(x) => "NetBSD - rev "@ + decimal(x as nat),
            OperatingSystem::Linux(x) => "Linux - rev "@ + decimal(x as nat),
            OperatingSystem::GNUHurd(x) => "GNU Hurd - rev "@ + decimal(x as nat),
            OperatingSystem::Solaris(x) => "Solaris - rev "@ + decimal(x as nat),
            OperatingSystem::AIX(x) => "AIX - rev "@ + decimal(x as nat),
            OperatingSystem::IRIX(x) => "IRIX - rev "@ + decimal(x as nat),
            OperatingSystem::FreeBSD(x) => "FreeBSD - rev "@ + decimal(x as nat),
            OperatingSystem::Tru64(x) => "Tru64 - rev "@ + decimal(x as nat),
            OperatingSystem::NovellModesto(x) => "Novell Modesto - rev "@ + decimal(x as nat),
            OperatingSystem::OpenBSD(x) => "OpenBSD - rev "@ + decimal(x as nat),
            OperatingSystem::OpenVMS(x) => "OpenVMS - rev "@ + decimal(x as nat),
            OperatingSystem::NonStopKernel(x) => "NonStop Kernel - rev "@ + decimal(x as nat),
            OperatingSystem::AROS(x) => "AROS - rev "@ + decimal(x as nat),
            OperatingSystem::FenixOS(x) => "Fenix OS - rev "@ + decimal(x as nat),
            OperatingSystem::CloudABI(x) => "Cloud ABI - rev "@ + decimal(x as nat),
            OperatingSystem::OpenVOS(x) => "Stratus Technologies OpenVOS - rev "@ + decimal(x as nat),
        }
    }

    /// Renders the value for people to read.
    pub fn to_string(&self) -> (r: String)
        ensures
            r@ == self.label(),
    {
        match *self {
            OperatingSystem::Unspecified => String::from_str("No OS ABI defined"),
            OperatingSystem::SystemV(x) => {
                let mut s = String::from_str("System V - rev ");
                push_decimal(&mut s, x as u64);
                s
            },
            OperatingSystem::HPUX(x) => {
                let mut s = String::from_str("HP-UX - rev ");
                push_decimal(&mut s, x as u64);
                s
            },
            OperatingSystem::NetBSD(x) => {
                let mut s = String::from_str("NetBSD - rev ");
                push_decimal(&mut s, x as u64);
                s
            },
            OperatingSystem::Linux(x) => {
                let mut s = String::from_str("Linux - rev ");
                push_decimal(&mut s, x as u64);
                s
            },
            OperatingSystem::GNUHurd(x) => {
                let mut s = String::from_str("GNU Hurd - rev ");
                push_decimal(&mut s, x as u64);
                s
            },
            OperatingSystem::Solaris(x) => {
                let mut s = String::from_str("Solaris - rev ");
                push_decimal(&mut s, x as u64);
                s
            },
            OperatingSystem::AIX(x) => {
                let mut s = String::from_str("AIX - rev ");
                push_decimal(&mut s, x as u64);
                s
            },
            OperatingSystem::IRIX(x) => {
                let mut s = String::from_str("IRIX - rev ");
                push_decimal(&mut s, x as u64);
                s
            },
            OperatingSystem::FreeBSD(x) => {
                let mut s = String::from_str("FreeBSD - rev ");
                push_decimal(&mut s, x as u64);
                s
            },
            OperatingSystem::Tru64(x) => {
                let mut s = String::from_str("Tru64 - rev ");
                push_decimal(&mut s, x as u64);
                s
            },
            OperatingSystem::NovellModesto(x) => {
                let mut s = String::from_str("Novell Modesto - rev ");
                push_decimal(&mut s, x as u64);
                s
            },
            OperatingSystem::OpenBSD(x) => {
                let mut s = String::from_str("OpenBSD - rev ");
                push_decimal(&mut s, x as u64);
                s
            },
            OperatingSystem::OpenVMS(x) => {
                let mut s = String::from_str("OpenVMS - rev ");
                push_decimal(&mut s, x as u64);
                s
            },
            OperatingSystem::NonStopKernel(x) => {
                let mut s = String::from_str("NonStop Kernel - rev ");
                push_decimal(&mut s, x as u64);
                s
            },
            OperatingSystem::AROS(x) => {
                let mut s = String::from_str("AROS - rev ");
                push_decimal(&mut s, x as u64);
                s
            },
            OperatingSystem::FenixOS(x) => {
                let mut s = String::from_str("Fenix OS - rev ");
                push_decimal(&mut s, x as u64);
                s
            },
            OperatingSystem::CloudABI(x) => {
                let mut s = String::from_str("Cloud ABI - rev ");
                push_decimal(&mut s, x as u64);
                s
            },
            OperatingSystem::OpenVOS(x) => {
                let mut s = String::from_str("Stratus Technologies OpenVOS - rev ");
                push_decimal(&mut s, x as u64);
                s
            },
        }
    }
}

impl FileType {
    /// The human-readable name of the file type.
    pub open spec fn label(self) -> Seq<char> {
        match self {
            FileType::Unknown => "Unknown ELF file type"@,
            FileType::Relocatable => "Relocatable file"@,
            FileType::Executable => "Executable file"@,
            FileType::Dynamic => "Dynamic linked file"@,
            FileType::Core => "Core file"@,
            FileType::OperatingSystem(x) => "OS Specific file (0x"@ + hex(x as nat, 1) + ")"@,
            FileType::Processor(x) => "Processor Specific file (0x"@ + hex(x as nat, 1) + ")"@,
        }
    }

    /// Renders the value for people to read.
    pub fn to_string(&self) -> (r: String)
        ensures
            r@ == self.label(),
    {
        match *self {
            FileType::Unknown => String::from_str("Unknown ELF file type"),
            FileType::Relocatable => String::from_str("Relocatable file"),
            FileType::Executable => String::from_str("Executable file"),
            FileType::Dynamic => String::from_str("Dynamic linked file"),
            FileType::Core => String::from_str("Core file"),
            FileType::OperatingSystem(x) => {
                let mut s = String::from_str("OS Specific file (0x");
                push_hex(&mut s, x as u64, 1);
                s.append(")");
                s
            },
            FileType::Processor(x) => {
                let mut s = String::from_str("Processor Specific file (0x");
                push_hex(&mut s, x as u64, 1);
                s.append(")");
                s
            },
        }
    }
}

impl InstructionSet {
    /// The human-readable name of the instruction set.
    pub open spec fn label(self) -> Seq<char> {
        match self {
            InstructionSet::Unspecified => "No machine"@,
            InstructionSet::Sparc => "SPARC"@,
            InstructionSet::X86 => "x86"@,
            InstructionSet::Mips => "MIPS"@,
            InstructionSet::PowerPC => "PowerPC"@,
            InstructionSet::PowerPC64 => "PowerPC 64-bit"@,
            InstructionSet::S390 => "S390"@,
            InstructionSet::Arm => "ARM"@,
            InstructionSet::SuperH => "SuperH"@,
            InstructionSet::IA64 => "IA-64"@,
            InstructionSet::X86_64 => "x86-64"@,
            InstructionSet::AArch64 => "AArch64"@,
            InstructionSet::RiscV => "RISC-V"@,
            InstructionSet::Other(x) => "Machine (0x"@ + hex(x as nat, 1) + ")"@,
        }
    }

    /// Renders the value for people to read.
    pub fn to_string(&self) -> (r: String)
        ensures
            r@ == self.label(),
    {
        match *self {
            InstructionSet::Unspecified => String::from_str("No machine"),
            InstructionSet::Sparc => String::from_str("SPARC"),
            InstructionSet::X86 => String::from_str("x86"),
            InstructionSet::Mips => String::from_str("MIPS"),
            InstructionSet::PowerPC => String::from_str("PowerPC"),
            InstructionSet::PowerPC64 => String::from_str("PowerPC 64-bit"),
            InstructionSet::S390 => String::from_str("S390"),
            InstructionSet::Arm => String::from_str("ARM"),
            InstructionSet::SuperH => String::from_str("SuperH"),
            InstructionSet::IA64 => String::from_str("IA-64"),
            InstructionSet::X86_64 => String::from_str("x86-64"),
            InstructionSet::AArch64 => String::from_str("AArch64"),
            InstructionSet::RiscV => String::from_str("RISC-V"),
            InstructionSet::Other(x) => {
                let mut s = String::from_str("Machine (0x");
                push_hex(&mut s, x as u64, 1);
                s.append(")");
                s
            },
        }
    }
}

impl SectionType {
    /// The human-readable name of the section type.
    pub open spec fn label(self) -> Seq<char> {
        match self {
            SectionType::Null => "Null/Unused/Unknown"@,
            SectionType::ProgramData => "Program data"@,
            SectionType::SymbolTable => "Symbol table"@,
            SectionType::StringTable => "String table"@,
            SectionType::RelocationA => "Relocation entries with addend"@,
            SectionType::Hash => "Symbol hash table"@,
            SectionType::Dynamic => "Dynamic linking information"@,
            SectionType::Notes => "Notes"@,
            SectionType::Bss => "BSS"@,
            SectionType::Relocation => "Relocation entries with no addends"@,
            SectionType::SharedLib => "RESERVED"@,
            SectionType::DynamicSymbol => "Dynamic linker symbol table"@,
            SectionType::Init => "Array of constructors"@,
            SectionType::Fini => "Array of destructors"@,
            SectionType::PreInit => "Array of pre-constructors"@,
            SectionType::Group => "Section group"@,
            SectionType::SymbolTableX => "Extended section indices"@,
            SectionType::Num => "Number of defined types"@,
            SectionType::OperatingSystem(x) => "OS Specific (0x"@ + hex(x as nat, 1) + ")"@,
        }
    }

    /// Renders the value for people to read.
    pub fn to_string(&self) -> (r: String)
        ensures
            r@ == self.label(),
    {
        match *self {
            SectionType::Null => String::from_str("Null/Unused/Unknown"),
            SectionType::ProgramData => String::from_str("Program data"),
            SectionType::SymbolTable => String::from_str("Symbol table"),
            SectionType::StringTable => String::from_str("String table"),
            SectionType::RelocationA => String::from_str("Relocation entries with addend"),
            SectionType::Hash => String::from_str("Symbol hash table"),
            SectionType::Dynamic => String::from_str("Dynamic linking information"),
            SectionType::Notes => String::from_str("Notes"),
            SectionType::Bss => String::from_str("BSS"),
            SectionType::Relocation => String::from_str("Relocation entries with no addends"),
            SectionType::SharedLib => String::from_str("RESERVED"),
            SectionType::DynamicSymbol => String::from_str("Dynamic linker symbol table"),
            SectionType::Init => String::from_str("Array of constructors"),
            SectionType::Fini => String::from_str("Array of destructors"),
            SectionType::PreInit => String::from_str("Array of pre-constructors"),
            SectionType::Group => String::from_str("Section group"),
            SectionType::SymbolTableX => String::from_str("Extended section indices"),
            SectionType::Num => String::from_str("Number of defined types"),
            SectionType::OperatingSystem(x) => {
                let mut s = String::from_str("OS Specific (0x");
                push_hex(&mut s, x as u64, 1);
                s.append(")");
                s
            },
        }
    }
}

impl SymbolBind {
    /// The human-readable name of the binding.
    pub open spec fn label(self) -> Seq<char> {
        match self {
            SymbolBind::Local => "Local"@,
            SymbolBind::Global => "Global"@,
            SymbolBind::Weak => "Weak"@,
            SymbolBind::Unknown => "No binding"@,
            SymbolBind::Processor(x) => "Processor "@ + decimal(x as nat),
        }
    }

    /// Renders the value for people to read.
    pub fn to_string(&self) -> (r: String)
        ensures
            r@ == self.label(),
    {
        match *self {
            SymbolBind::Local => String::from_str("Local"),
            SymbolBind::Global => String::from_str("Global"),
            SymbolBind::Weak => String::from_str("Weak"),
            SymbolBind::Unknown => String::from_str("No binding"),
            SymbolBind::Processor(x) => {
                let mut s = String::from_str("Processor ");
                push_decimal(&mut s, x as u64);
                s
            },
        }
    }
}

impl SymbolType {
    /// The human-readable name of the symbol type.
    pub open spec fn label(self) -> Seq<char> {
        match self {
            SymbolType::NoType => "No type"@,
            SymbolType::Object => "Object"@,
            SymbolType::Function => "Function"@,
            SymbolType::Section => "Section"@,
            SymbolType::File => "File"@,
            SymbolType::Processor(x) => "Processor "@ + decimal(x as nat),
        }
    }

    /// Renders the value for people to read.
    pub fn to_string(&self) -> (r: String)
        ensures
            r@ == self.label(),
    {
        match *self {
            SymbolType::NoType => String::from_str("No type"),
            SymbolType::Object => String::from_str("Object"),
            SymbolType::Function => String::from_str("Function"),
            SymbolType::Section => String::from_str("Section"),
            SymbolType::File => String::from_str("File"),
            SymbolType::Processor(x) => {
                let mut s = String::from_str("Processor ");
                push_decimal(&mut s, x as u64);
                s
            },
        }
    }
}

impl ArchFlags {
    /// The flags as eight uppercase hexadecimal digits after "0x".
    pub open spec fn label(self) -> Seq<char> {
        "0x"@ + hex(self.0 as nat, 8)
    }

    /// Renders the flags for people to read.
    pub fn to_string(&self) -> (r: String)
        ensures
            r@ == self.label(),
    {
        let mut s = String::from_str("0x");
        push_hex(&mut s, self.0 as u64, 8);
        s
    }
}

/// Mask of the `i`-th named section flag, in rendering order.
pub open spec fn flag_bit(i: int) -> u64 {
    if i == 0 {
        0x1
    } else if i == 1 {
        0x2
    } else if i == 2 {
        0x4
    } else if i == 3 {
        0x10
    } else if i == 4 {
        0x20
    } else if i == 5 {
        0x40
    } else if i == 6 {
        0x80
    } else if i == 7 {
        0x100
    } else if i == 8 {
        0x200
    } else {
        0x400
    }
}

/// Name of the `i`-th named section flag, in rendering order.
pub open spec fn flag_name(i: int) -> Seq<char> {
    if i == 0 {
        "Write"@
    } else if i == 1 {
        "Alloc"@
    } else if i == 2 {
        "Exec"@
    } else if i == 3 {
        "Merge"@
    } else if i == 4 {
        "Strings"@
    } else if i == 5 {
        "InfoLink"@
    } else if i == 6 {
        "LinkOrder"@
    } else if i == 7 {
        "OS-Non conforming"@
    } else if i == 8 {
        "Group"@
    } else {
        "TLS"@
    }
}

/// Mask and name of the `i`-th named section flag.
fn flag_entry(i: usize) -> (r: (u64, &'static str))
    requires
        i < 10,
    ensures
        r.0 == flag_bit(i as int),
        r.1@ == flag_name(i as int),
{
    match i {
        0 => (0x1, "Write"),
        1 => (0x2, "Alloc"),
        2 => (0x4, "Exec"),
        3 => (0x10, "Merge"),
        4 => (0x20, "Strings"),
        5 => (0x40, "InfoLink"),
        6 => (0x80, "LinkOrder"),
        7 => (0x100, "OS-Non conforming"),
        8 => (0x200, "Group"),
        _ => (0x400, "TLS"),
    }
}

/// Names of the flags among the first `i` named ones that `x` sets, in order.
pub open spec fn flag_names(x: u64, i: int) -> Seq<Seq<char>>
    decreases i,
{
    if i <= 0 {
        Seq::empty()
    } else if x & flag_bit(i - 1) != 0 {
        flag_names(x, i - 1).push(flag_name(i - 1))
    } else {
        flag_names(x, i - 1)
    }
}

impl SectionFlags {
    /// The names of the set flags joined by " + ", or "----" where none is set.
    pub open spec fn label(self) -> Seq<char> {
        if flag_names(self.0, 10).len() == 0 {
            "----"@
        } else {
            join(flag_names(self.0, 10))
        }
    }

    /// Renders the flags for people to read.
    pub fn to_string(&self) -> (r: String)
        ensures
            r@ == self.label(),
    {
        let mut s = String::new();
        let mut count: usize = 0;
        for i in 0..10
            invariant
                count == flag_names(self.0, i as int).len(),
                count <= i,
                s@ == join(flag_names(self.0, i as int)),
        {
            let (bit, name) = flag_entry(i);
            if self.0 & bit != 0 {
                let ghost parts = flag_names(self.0, i as int);
                if count == 0 {
                    s = String::from_str(name);
                } else {
                    s.append(" + ");
                    s.append(name);
                }
                assert(parts.push(name@).drop_last() =~= parts);
                count = count + 1;
            }
        }
        if count == 0 {
            String::from_str("----")
        } else {
            s
        }
    }
}

} // verus!
