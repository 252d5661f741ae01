use elfparse::endian::{read_u16, read_u32, read_u64, read_word};
use elfparse::strtab::{read_name, resolve_names};
use elfparse::{
    ArchFlags, Class, ELFContent, ELFError, ELFHeader, ELFSection, Endian, FileHeader, FileType,
    InstructionSet, OperatingSystem, SectionFlags, SectionHeader, SectionType, Symbol, SymbolBind,
    SymbolType,
};

fn put(buf: &mut Vec<u8>, v: u64, n: usize, big: bool) {
    for i in 0..n {
        let shift = if big { 8 * (n - 1 - i) } else { 8 * i };
        buf.push((v >> shift) as u8);
    }
}

struct Sec {
    name: u32,
    stype: u32,
    flags: u64,
    data: Vec<u8>,
    // Declared size, where it should differ from the data's length.
    size: Option<u64>,
}

fn sec(name: u32, stype: u32, flags: u64, data: Vec<u8>) -> Sec {
    Sec { name, stype, flags, data, size: None }
}

fn symbol(buf: &mut Vec<u8>, wide: bool, big: bool, name: u32, value: u64, size: u64, info: u8, shndx: u16) {
    put(buf, name as u64, 4, big);
    if wide {
        buf.push(info);
        buf.push(0);
        put(buf, shndx as u64, 2, big);
        put(buf, value, 8, big);
        put(buf, size, 8, big);
    } else {
        put(buf, value, 4, big);
        put(buf, size, 4, big);
        buf.push(info);
        buf.push(0);
        put(buf, shndx as u64, 2, big);
    }
}

/// A whole file: header, then the sections' bytes, then the section header table.
fn make_file(wide: bool, big: bool, secs: &[Sec], shstrndx: u16) -> Vec<u8> {
    let w = if wide { 8 } else { 4 };
    let hlen = if wide { 64 } else { 52 };
    let shentsize = if wide { 64 } else { 40 };
    let mut body: Vec<u8> = Vec::new();
    let mut ranges = Vec::new();
    for s in secs {
        let off = hlen + body.len();
        body.extend_from_slice(&s.data);
        ranges.push((off as u64, s.size.unwrap_or(s.data.len() as u64)));
    }
    let shoff = (hlen + body.len()) as u64;

    let mut f = vec![0x7F, 0x45, 0x4C, 0x46, if wide { 2 } else { 1 }, if big { 2 } else { 1 }, 1, 0x03, 0x00];
    f.resize(16, 0);
    put(&mut f, 2, 2, big); // executable
    put(&mut f, if wide { 0x3E } else { 0x03 }, 2, big);
    put(&mut f, 1, 4, big);
    put(&mut f, 0x401000, w, big); // entry
    put(&mut f, 0, w, big); // program header table offset
    put(&mut f, shoff, w, big);
    put(&mut f, 0, 4, big); // flags
    put(&mut f, hlen as u64, 2, big);
    put(&mut f, 0, 2, big);
    put(&mut f, 0, 2, big);
    put(&mut f, shentsize, 2, big);
    put(&mut f, secs.len() as u64, 2, big);
    put(&mut f, shstrndx as u64, 2, big);
    assert_eq!(f.len(), hlen);
    f.extend_from_slice(&body);
    for (s, (off, size)) in secs.iter().zip(ranges) {
        put(&mut f, s.name as u64, 4, big);
        put(&mut f, s.stype as u64, 4, big);
        put(&mut f, s.flags, w, big);
        put(&mut f, 0, w, big); // address
        put(&mut f, off, w, big);
        put(&mut f, size, w, big);
        put(&mut f, 0, 4, big); // link
        put(&mut f, 0, 4, big); // info
        put(&mut f, 1, w, big); // alignment
        put(&mut f, 0, w, big); // entry size
    }
    f
}

const SHSTRTAB: &[u8] = b"\0.text\0.shstrtab\0.symtab\0.strtab\0";

fn three_sections(wide: bool, big: bool) -> Vec<Sec> {
    let mut syms = Vec::new();
    symbol(&mut syms, wide, big, 1, 0x401000, 16, 0x12, 1);
    symbol(&mut syms, wide, big, 7, 0x402000, 8, 0x11, 1);
    vec![
        sec(1, 1, 0x6, vec![0x90; 16]),
        sec(7, 3, 0, SHSTRTAB.to_vec()),
        sec(17, 2, 0, syms),
    ]
}

#[test]
fn scenario_three_sections_64_big() {
    let raw = make_file(true, true, &three_sections(true, true), 1);
    let elf = ELFContent::parse(raw).unwrap();
    assert_eq!(elf.header.class, Class::Elf64);
    assert_eq!(elf.header.endian(), Endian::Big);
    assert_eq!(elf.header.isa, InstructionSet::X86_64);
    let names: Vec<&str> = elf.sections.iter().map(|s| SectionHeader::name(s)).collect();
    assert_eq!(names, vec![".text", ".shstrtab", ".symtab"]);
    assert_eq!(elf.sections[0].stype(), SectionType::ProgramData);
    assert_eq!(elf.sections[1].stype(), SectionType::StringTable);
    assert_eq!(elf.sections[2].stype(), SectionType::SymbolTable);
    assert!(elf.sections[0].flags.allocated());
    assert!(elf.sections[0].flags.exec());
    assert!(!elf.sections[0].flags.write());
    assert_eq!(elf.sections[0].phys(), (64, 16));
    assert_eq!(elf.sections[2].index, 2);
    assert_eq!(elf.symbols.len(), 2);
    assert_eq!(elf.symbols[0].address(), 0x401000);
    assert_eq!(Symbol::size(&elf.symbols[0]), 16);
    assert_eq!(Symbol::stype(&elf.symbols[0]), SymbolType::Function);
    assert_eq!(elf.symbols[0].binding, SymbolBind::Global);
    assert_eq!(Symbol::stype(&elf.symbols[1]), SymbolType::Object);
    assert_eq!(elf.symbols[1].relativity, 1);
}

#[test]
fn scenario_symbols_named_from_strtab() {
    let mut secs = three_sections(true, true);
    secs.push(sec(25, 3, 0, b"\0main\0\0data\0".to_vec()));
    let raw = make_file(true, true, &secs, 1);
    let elf = ELFContent::parse(raw).unwrap();
    assert_eq!(SectionHeader::name(&elf.sections[3]), ".strtab");
    assert_eq!(Symbol::name(&elf.symbols[0]), "main");
    assert_eq!(Symbol::name(&elf.symbols[1]), "data");
}

#[test]
fn missing_strtab_leaves_symbol_names_empty() {
    let raw = make_file(false, false, &three_sections(false, false), 1);
    let elf = ELFContent::parse(raw).unwrap();
    assert_eq!(elf.header.class, Class::Elf32);
    assert_eq!(elf.symbols.len(), 2);
    assert_eq!(Symbol::name(&elf.symbols[0]), "");
    assert_eq!(Symbol::name(&elf.symbols[1]), "");
    assert_eq!(elf.symbols[1].address(), 0x402000);
    assert_eq!(SectionHeader::name(&elf.sections[2]), ".symtab");
}

#[test]
fn section_past_end_is_out_of_bounds() {
    let mut secs = three_sections(true, false);
    secs[0].size = Some(0x10000);
    let raw = make_file(true, false, &secs, 1);
    let elf = ELFContent::parse(raw).unwrap();
    let r = ELFContent::sectiondata(&elf.raw, &elf.sections[0]);
    assert_eq!(r, Err(ELFError::OutOfBounds));
    assert_eq!(ELFContent::sectiondata(&elf.raw, &elf.sections[1]).unwrap(), SHSTRTAB);
    assert_eq!(elf.section_bytes(".text"), Err(ELFError::OutOfBounds));
}

#[test]
fn name_table_past_end_fails_parse() {
    let mut secs = three_sections(true, false);
    secs[1].size = Some(u64::MAX);
    let raw = make_file(true, false, &secs, 1);
    assert!(matches!(ELFContent::parse(raw), Err(ELFError::OutOfBounds)));
}

#[test]
fn name_index_past_table_fails_parse() {
    let raw = make_file(true, false, &three_sections(true, false), 3);
    assert!(matches!(ELFContent::parse(raw), Err(ELFError::OutOfBounds)));
}

#[test]
fn ragged_symbol_table_fails_parse() {
    let mut secs = three_sections(false, true);
    secs[2].data.push(0);
    let raw = make_file(false, true, &secs, 1);
    assert!(matches!(ELFContent::parse(raw), Err(ELFError::OutOfBounds)));
}

#[test]
fn truncated_section_table_fails_parse() {
    let mut raw = make_file(false, false, &three_sections(false, false), 1);
    raw.truncate(raw.len() - 1);
    assert!(matches!(ELFContent::parse(raw), Err(ELFError::OutOfBounds)));
}

#[test]
fn header_round_trip_32_little() {
    let mut h = vec![0x7F, 0x45, 0x4C, 0x46, 1, 1, 1, 0x03, 0x02];
    h.resize(16, 0);
    h.extend_from_slice(&[0x03, 0x00]); // shared object
    h.extend_from_slice(&[0x28, 0x00]); // ARM
    h.extend_from_slice(&[1, 0, 0, 0]);
    h.extend_from_slice(&[0x78, 0x56, 0x34, 0x12]); // entry
    h.extend_from_slice(&[0x34, 0, 0, 0]); // program header table offset
    h.extend_from_slice(&[0x00, 0x10, 0, 0]); // section header table offset
    h.extend_from_slice(&[0x00, 0x02, 0x00, 0x05]); // flags
    h.extend_from_slice(&[52, 0, 32, 0, 3, 0, 40, 0, 7, 0, 6, 0]);
    assert_eq!(h.len(), 52);
    let header = ELFHeader::parse(&h).unwrap();
    assert_eq!(header.class, Class::Elf32);
    assert_eq!(header.endian, Endian::Little);
    assert_eq!(header.os, OperatingSystem::Linux(2));
    assert_eq!(header.filetype, FileType::Dynamic);
    assert_eq!(header.isa, InstructionSet::Arm);
    assert_eq!(header.flags, ArchFlags(0x0500_0200));
    assert_eq!(header.entry, 0x1234_5678);
    assert_eq!(header.phtoffset(), 0x34);
    assert_eq!(header.shtoffset(), 0x1000);
    assert_eq!(header.phsize(), 32);
    assert_eq!(header.phnum(), 3);
    assert_eq!(header.shsize(), 40);
    assert_eq!(header.shnum(), 7);
    assert_eq!(header.shstrndx(), 6);
}

#[test]
fn bad_magic_carries_bytes() {
    for m in [[0u8, 0, 0, 0], [0x7F, 0x45, 0x4C, 0x47], [0x7E, 0x45, 0x4C, 0x46], [0xFF; 4]] {
        assert_eq!(ELFHeader::parse(&m), Err(ELFError::BadMagic(m)));
        assert!(matches!(ELFContent::parse(m.to_vec()), Err(ELFError::BadMagic(b)) if b == m));
    }
}

#[test]
fn bad_pointer_width_carries_byte() {
    for c in [0u8, 3, 0x80, 0xFF] {
        let mut raw = make_file(false, false, &three_sections(false, false), 1);
        raw[4] = c;
        assert!(matches!(ELFContent::parse(raw), Err(ELFError::BadPointerWidth(b)) if b == c));
    }
}

#[test]
fn bad_version_and_endian_code() {
    let mut raw = make_file(false, false, &three_sections(false, false), 1);
    raw[6] = 2;
    assert!(matches!(ELFContent::parse(raw), Err(ELFError::BadVersion(2))));
    let mut raw = make_file(false, false, &three_sections(false, false), 1);
    raw[5] = 0;
    assert!(matches!(ELFContent::parse(raw), Err(ELFError::BadEndianCode(0))));
}

#[test]
fn header_checks_version_before_class() {
    let mut raw = make_file(false, false, &three_sections(false, false), 1);
    raw[4] = 7;
    raw[6] = 0;
    assert_eq!(ELFHeader::parse(&raw), Err(ELFError::BadVersion(0)));
    raw[6] = 1;
    raw[5] = 9;
    assert_eq!(ELFHeader::parse(&raw), Err(ELFError::BadPointerWidth(7)));
    raw[4] = 1;
    assert_eq!(ELFHeader::parse(&raw), Err(ELFError::BadEndianCode(9)));
}

#[test]
fn file_checks_class_before_version() {
    let mut raw = make_file(false, false, &three_sections(false, false), 1);
    raw[4] = 7;
    raw[6] = 0;
    assert!(matches!(ELFContent::parse(raw.clone()), Err(ELFError::BadPointerWidth(7))));
    raw[4] = 2;
    assert!(matches!(ELFContent::parse(raw), Err(ELFError::BadVersion(0))));
}

#[test]
fn short_inputs_are_out_of_bounds() {
    assert!(matches!(ELFContent::parse(vec![]), Err(ELFError::OutOfBounds)));
    assert!(matches!(ELFContent::parse(vec![0x7F, 0x45, 0x4C, 0x46]), Err(ELFError::OutOfBounds)));
    let raw = make_file(true, false, &three_sections(true, false), 1);
    assert!(matches!(ELFContent::parse(raw[..63].to_vec()), Err(ELFError::OutOfBounds)));
}

fn unnamed_sections() -> Vec<ELFSection> {
    let raw = make_file(true, true, &three_sections(true, true), 1);
    let shoff = raw.len() - 3 * 64;
    (0..3)
        .map(|i| ELFSection::parse(&raw[shoff + 64 * i..shoff + 64 * (i + 1)], Class::Elf64, Endian::Big, i))
        .collect()
}

#[test]
fn resolving_names_twice_is_idempotent() {
    let mut secs = unnamed_sections();
    resolve_names(SHSTRTAB, &mut secs);
    let first: Vec<String> = secs.iter().map(|s| s.name.clone()).collect();
    resolve_names(SHSTRTAB, &mut secs);
    let second: Vec<String> = secs.iter().map(|s| s.name.clone()).collect();
    assert_eq!(first, vec![".text", ".shstrtab", ".symtab"]);
    assert_eq!(first, second);
}

#[test]
fn empty_string_table_changes_nothing() {
    let mut secs = unnamed_sections();
    resolve_names(&[], &mut secs);
    assert!(secs.iter().all(|s| s.name.is_empty()));
    secs[0].name = String::from("kept");
    resolve_names(&[], &mut secs);
    assert_eq!(secs[0].name, "kept");
}

#[test]
fn unterminated_name_is_corrupted() {
    assert_eq!(read_name(b"abc", 0), "CORRUPTED");
    assert_eq!(read_name(b"\0abc", 1), "CORRUPTED");
    assert_eq!(read_name(b"abc\0", 9), "CORRUPTED");
}

#[test]
fn names_from_string_table() {
    assert_eq!(read_name(b"\0abc\0", 0), "NULL");
    assert_eq!(read_name(b"\0abc\0", 1), "abc");
    assert_eq!(read_name(b"\0abc\0", 2), "bc");
    assert_eq!(read_name(&[0xC3, 0xA9, 0], 0), "\u{e9}");
    assert_eq!(read_name(&[0xFF, 0x41, 0], 0), "CORRUPTED");
}

#[test]
fn reads_in_both_byte_orders() {
    let b = [0x01, 0x02, 0x03, 0x04, 0x05, 0x06, 0x07, 0x08, 0x09];
    assert_eq!(read_u16(&b, 1, Endian::Little), 0x0302);
    assert_eq!(read_u16(&b, 1, Endian::Big), 0x0203);
    assert_eq!(read_u32(&b, 0, Endian::Little), 0x0403_0201);
    assert_eq!(read_u32(&b, 0, Endian::Big), 0x0102_0304);
    assert_eq!(read_u64(&b, 1, Endian::Little), 0x0908_0706_0504_0302);
    assert_eq!(read_u64(&b, 1, Endian::Big), 0x0203_0405_0607_0809);
    assert_eq!(read_word(&b, 0, Class::Elf32, Endian::Big), 0x0102_0304);
    assert_eq!(read_word(&b, 0, Class::Elf64, Endian::Big), 0x0102_0304_0506_0708);
}

#[test]
fn code_tables() {
    assert_eq!(OperatingSystem::from((0, 0)), OperatingSystem::Unspecified);
    assert_eq!(OperatingSystem::from((0, 4)), OperatingSystem::SystemV(4));
    assert_eq!(OperatingSystem::from((0x03, 0)), OperatingSystem::Linux(0));
    assert_eq!(OperatingSystem::from((0x05, 1)), OperatingSystem::Unspecified);
    assert_eq!(OperatingSystem::from((0x12, 9)), OperatingSystem::OpenVOS(9));
    assert_eq!(OperatingSystem::from((0x13, 0)), OperatingSystem::Unspecified);
    assert_eq!(FileType::from(0), FileType::Unknown);
    assert_eq!(FileType::from(1), FileType::Relocatable);
    assert_eq!(FileType::from(4), FileType::Core);
    assert_eq!(FileType::from(5), FileType::Unknown);
    assert_eq!(FileType::from(0xFE00), FileType::OperatingSystem(0xFE00));
    assert_eq!(FileType::from(0xFEFF), FileType::OperatingSystem(0xFEFF));
    assert_eq!(FileType::from(0xFF00), FileType::Processor(0xFF00));
    assert_eq!(FileType::from(0xFFFF), FileType::Processor(0xFFFF));
    assert_eq!(FileType::from(0xFDFF), FileType::Unknown);
    assert_eq!(SectionType::from(0x0B), SectionType::DynamicSymbol);
    assert_eq!(SectionType::from(0x0C), SectionType::Null);
    assert_eq!(SectionType::from(0x13), SectionType::Num);
    assert_eq!(SectionType::from(0x14), SectionType::Null);
    assert_eq!(SectionType::from(0x5FFF_FFFF), SectionType::Null);
    assert_eq!(SectionType::from(0x6000_0000), SectionType::OperatingSystem(0x6000_0000));
    assert_eq!(SectionType::from(0xFFFF_FFFF), SectionType::OperatingSystem(0xFFFF_FFFF));
    assert_eq!(SymbolBind::from(2), SymbolBind::Weak);
    assert_eq!(SymbolBind::from(3), SymbolBind::Unknown);
    assert_eq!(SymbolBind::from(13), SymbolBind::Processor(13));
    assert_eq!(SymbolBind::from(15), SymbolBind::Processor(15));
    assert_eq!(SymbolType::from(0), SymbolType::NoType);
    assert_eq!(SymbolType::from(4), SymbolType::File);
    assert_eq!(SymbolType::from(5), SymbolType::NoType);
    assert_eq!(SymbolType::from(14), SymbolType::Processor(14));
    assert_eq!(InstructionSet::from(0xB7), InstructionSet::AArch64);
    assert_eq!(InstructionSet::from(0x1234), InstructionSet::Other(0x1234));
}

#[test]
fn section_flag_bits() {
    let all = SectionFlags(0x7F7);
    assert!(all.write() && all.allocated() && all.exec() && all.merge() && all.strings());
    assert!(all.infolink() && all.linkorder() && all.nonconforming() && all.group() && all.tls());
    let none = SectionFlags(0x8);
    assert!(!none.write() && !none.allocated() && !none.exec() && !none.merge() && !none.strings());
    assert!(!none.infolink() && !none.linkorder() && !none.nonconforming() && !none.group() && !none.tls());
}

#[test]
fn renderings() {
    assert_eq!(OperatingSystem::Linux(3).to_string(), "Linux - rev 3");
    assert_eq!(OperatingSystem::SystemV(255).to_string(), "System V - rev 255");
    assert_eq!(OperatingSystem::Unspecified.to_string(), "No OS ABI defined");
    assert_eq!(FileType::Executable.to_string(), "Executable file");
    assert_eq!(FileType::OperatingSystem(0xFE10).to_string(), "OS Specific file (0xFE10)");
    assert_eq!(SectionType::OperatingSystem(0x6FFF_FFF6).to_string(), "OS Specific (0x6FFFFFF6)");
    assert_eq!(SectionType::Bss.to_string(), "BSS");
    assert_eq!(SymbolBind::Processor(13).to_string(), "Processor 13");
    assert_eq!(SymbolType::Function.to_string(), "Function");
    assert_eq!(Endian::Little.to_string(), "Little Endian");
    assert_eq!(ArchFlags(0x0500_0200).to_string(), "0x05000200");
    assert_eq!(ArchFlags(0).to_string(), "0x00000000");
    assert_eq!(SectionFlags(0x6).to_string(), "Alloc + Exec");
    assert_eq!(SectionFlags(0x401).to_string(), "Write + TLS");
    assert_eq!(SectionFlags(0).to_string(), "----");
    assert_eq!(InstructionSet::Other(0x1F).to_string(), "Machine (0x1F)");
    assert_eq!(
        ELFError::BadMagic([0x01, 0x45, 0x0C, 0xAB]).to_string(),
        "Bad ELF magic number. Expected [0x7F, 0x45, 0x4C, 0x46], found [0x01, 0x45, 0x0C, 0xAB]"
    );
    assert_eq!(ELFError::BadPointerWidth(7).to_string(), "bad pointer width flag. Expected 1 or 2, found 7");
}

#[test]
fn section_bytes_by_name() {
    let mut secs = three_sections(true, false);
    secs.push(sec(1, 1, 0, vec![1, 2, 3]));
    let raw = make_file(true, false, &secs, 1);
    let elf = ELFContent::parse(raw).unwrap();
    assert_eq!(elf.section_bytes(".text").unwrap(), vec![0x90; 16]);
    assert_eq!(elf.section_bytes(".shstrtab").unwrap(), SHSTRTAB.to_vec());
    assert_eq!(elf.section_bytes(".debug_info").unwrap(), Vec::<u8>::new());
}

#[test]
fn dwarf_loads_without_debug_sections() {
    let raw = make_file(true, false, &three_sections(true, false), 1);
    let elf = ELFContent::parse(raw).unwrap();
    assert!(elf.dwarf().is_ok());
}
