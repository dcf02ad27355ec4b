use la64_core::auxv::AuxvType;
use la64_core::elf::{ELFParser, ElfError};

// One program header: type, flags, file offset, vaddr, filesz, memsz.
#[derive(Clone, Copy)]
struct Ph {
    ptype: u32,
    flags: u32,
    offset: u64,
    vaddr: u64,
    filesz: u64,
    memsz: u64,
}

fn ph(ptype: u32, flags: u32, offset: u64, vaddr: u64, filesz: u64, memsz: u64) -> Ph {
    Ph { ptype, flags, offset, vaddr, filesz, memsz }
}

// Builds a minimal ELF64 little-endian image with the given type, entry
// point and program headers, the table right after the 64-byte header.
fn make_elf(etype: u16, entry: u64, phs: &[Ph]) -> Vec<u8> {
    let phnum = phs.len() as u16;
    let mut d = vec![0u8; 64 + 56 * phs.len()];
    d[0] = 0x7f;
    d[1] = b'E';
    d[2] = b'L';
    d[3] = b'F';
    d[4] = 2; // 64-bit
    d[5] = 1; // little-endian
    d[16..18].copy_from_slice(&etype.to_le_bytes());
    d[24..32].copy_from_slice(&entry.to_le_bytes());
    d[32..40].copy_from_slice(&64u64.to_le_bytes()); // phoff
    d[54..56].copy_from_slice(&56u16.to_le_bytes()); // phentsize
    d[56..58].copy_from_slice(&phnum.to_le_bytes());
    for (i, p) in phs.iter().enumerate() {
        let o = 64 + 56 * i;
        d[o..o + 4].copy_from_slice(&p.ptype.to_le_bytes());
        d[o + 4..o + 8].copy_from_slice(&p.flags.to_le_bytes());
        d[o + 8..o + 16].copy_from_slice(&p.offset.to_le_bytes());
        d[o + 16..o + 24].copy_from_slice(&p.vaddr.to_le_bytes());
        d[o + 32..o + 40].copy_from_slice(&p.filesz.to_le_bytes());
        d[o + 40..o + 48].copy_from_slice(&p.memsz.to_le_bytes());
    }
    d
}

// A fixed-address 4-segment static binary parses with base 0 and yields its
// segments in increasing address order, the first at the declared lowest
// load address.
#[test]
fn static_four_segments() {
    let phs = [
        ph(1, 4, 0, 0x400000, 0x100, 0x100),      // R
        ph(1, 5, 0x1000, 0x401000, 0x200, 0x200), // R X
        ph(1, 4, 0x2000, 0x403000, 0x80, 0x80),   // R
        ph(1, 6, 0x3000, 0x404000, 0x40, 0x90),   // R W
    ];
    let elf = make_elf(2, 0x401234, &phs);
    let parser = ELFParser::new(&elf, 0x1000, None, 0).unwrap();
    assert_eq!(parser.base(), 0);
    assert_eq!(parser.entry(), 0x401234);
    assert_eq!(parser.phnum(), 4);
    assert_eq!(parser.phent(), 56);
    assert_eq!(parser.phdr(), 64);

    let segments = parser.ph_load();
    assert_eq!(segments.len(), 4);
    let mut last_start = 0usize;
    for segment in segments.iter() {
        assert!(segment.vaddr > last_start);
        last_start = segment.vaddr;
    }
    assert_eq!(segments[0].vaddr, 0x400000);
    assert_eq!(segments[0].offset, 0);
    assert_eq!(segments[1].filesz, 0x200);
    assert_eq!(segments[3].memsz, 0x90);
}

// Segment permission flags map to read/write/execute, with user always set.
#[test]
fn segment_flags_mapped() {
    let phs = [ph(1, 5, 0, 0x400000, 0x10, 0x10), ph(1, 6, 0x100, 0x401000, 0x10, 0x10)];
    let elf = make_elf(2, 0x400000, &phs);
    let parser = ELFParser::new(&elf, 0, None, 0).unwrap();
    let segments = parser.ph_load();
    assert!(segments[0].flags.read && segments[0].flags.execute);
    assert!(!segments[0].flags.write && segments[0].flags.user);
    assert!(segments[1].flags.read && segments[1].flags.write);
    assert!(!segments[1].flags.execute && segments[1].flags.user);
}

// A fixed-address image with a load segment below the user space base is
// rejected with the base-address error.
#[test]
fn non_pie_below_base_rejected() {
    let phs = [ph(1, 4, 0, 0x1000, 0x10, 0x10)];
    let elf = make_elf(2, 0x1000, &phs);
    let r = ELFParser::new(&elf, 0x8000, None, 0x3FE00000);
    assert_eq!(r.err().unwrap(), ElfError::InvalidBaseAddress);
}

// The same image is accepted when its segments lie above the base.
#[test]
fn non_pie_above_base_accepted() {
    let phs = [ph(1, 4, 0, 0x3FF00000, 0x10, 0x10)];
    let elf = make_elf(2, 0x3FF00000, &phs);
    assert!(ELFParser::new(&elf, 0x8000, None, 0x3FE00000).is_ok());
}

// A position-independent image with no interpreter request gets the supplied
// interpreter base; its segments are shifted by it.
#[test]
fn pie_without_interp_uses_interp_base() {
    let phs = [ph(1, 5, 0, 0x0, 0x10, 0x10)];
    let elf = make_elf(3, 0x500, &phs);
    let parser = ELFParser::new(&elf, 0x10000, None, 0x1000).unwrap();
    assert_eq!(parser.base(), 0x10000);
    assert_eq!(parser.entry(), 0x10500);
    let segments = parser.ph_load();
    assert_eq!(segments[0].vaddr, 0x10000);
}

// With exactly one interpreter request, the computed base is 0.
#[test]
fn pie_with_one_interp_base_zero() {
    let phs = [ph(3, 4, 0, 0, 0x10, 0x10), ph(1, 5, 0, 0x2000, 0x10, 0x10)];
    let elf = make_elf(3, 0x2000, &phs);
    let parser = ELFParser::new(&elf, 0x10000, None, 0x1000).unwrap();
    assert_eq!(parser.base(), 0);
}

// The bias shifts a position-independent image's base.
#[test]
fn pie_bias_applied() {
    let phs = [ph(1, 5, 0, 0x0, 0x10, 0x10)];
    let elf = make_elf(3, 0x500, &phs);
    let parser = ELFParser::new(&elf, 0x10000, Some(0x2000), 0x1000).unwrap();
    assert_eq!(parser.base(), 0x12000);
}

// Two interpreter requests are rejected.
#[test]
fn multiple_interpreters_rejected() {
    let phs = [ph(3, 4, 0, 0, 0x10, 0x10), ph(3, 4, 0x100, 0, 0x10, 0x10)];
    let elf = make_elf(3, 0, &phs);
    assert_eq!(ELFParser::new(&elf, 0, None, 0).err().unwrap(), ElfError::MultipleInterpreters);
}

// A bad magic is rejected before anything else is read.
#[test]
fn bad_magic_rejected() {
    let mut elf = make_elf(2, 0, &[]);
    elf[1] = b'X';
    assert_eq!(ELFParser::new(&elf, 0, None, 0).err().unwrap(), ElfError::InvalidMagic);
    assert_eq!(ELFParser::new(&[], 0, None, 0).err().unwrap(), ElfError::InvalidMagic);
}

// A relocatable (neither executable nor shared-object) file is rejected.
#[test]
fn unsupported_type_rejected() {
    let elf = make_elf(1, 0, &[]);
    assert_eq!(ELFParser::new(&elf, 0, None, 0).err().unwrap(), ElfError::UnsupportedElfType);
}

// A truncated or non-64-bit image is rejected as an unsupported header.
#[test]
fn truncated_header_rejected() {
    let elf = make_elf(2, 0, &[]);
    assert_eq!(ELFParser::new(&elf[..32], 0, None, 0).err().unwrap(), ElfError::UnsupportedHeader);
    let mut wide = make_elf(2, 0, &[]);
    wide[4] = 1; // 32-bit class
    assert_eq!(ELFParser::new(&wide, 0, None, 0).err().unwrap(), ElfError::UnsupportedHeader);
}

// A program header table that overruns the file is rejected.
#[test]
fn oversized_ph_table_rejected() {
    let mut elf = make_elf(2, 0, &[ph(1, 4, 0, 0x400000, 0x10, 0x10)]);
    elf[56..58].copy_from_slice(&9u16.to_le_bytes()); // claims 9 headers
    assert_eq!(ELFParser::new(&elf, 0, None, 0).err().unwrap(), ElfError::UnsupportedHeader);
}

// The auxiliary vector lists its 17 entries in the fixed order, with the
// header values filled in and the ELF64 entry size.
#[test]
fn auxv_vector_entries() {
    let phs = [
        ph(1, 4, 0, 0x400000, 0x100, 0x100),
        ph(1, 5, 0x1000, 0x401000, 0x200, 0x200),
        ph(1, 4, 0x2000, 0x403000, 0x80, 0x80),
        ph(1, 6, 0x3000, 0x404000, 0x40, 0x90),
    ];
    let elf = make_elf(2, 0x401234, &phs);
    let parser = ELFParser::new(&elf, 0x1000, None, 0).unwrap();
    let auxv = parser.auxv_vector(0x1000);
    assert_eq!(auxv.len(), 17);
    for entry in auxv.iter() {
        if entry.get_type() == AuxvType::PHENT {
            assert_eq!(entry.value(), 56);
        }
    }
    assert!(auxv[0].get_type() == AuxvType::PHDR && auxv[0].value() == 64);
    assert!(auxv[2].get_type() == AuxvType::PHNUM && auxv[2].value() == 4);
    assert!(auxv[3].get_type() == AuxvType::PAGESZ && auxv[3].value() == 0x1000);
    assert!(auxv[6].get_type() == AuxvType::ENTRY && auxv[6].value() == 0x401234);
    assert!(auxv[14].get_type() == AuxvType::RANDOM && auxv[14].value() == 0);
    assert!(auxv[15].get_type() == AuxvType::EXECFN && auxv[15].value() == 0);
    assert!(auxv[16].get_type() == AuxvType::NULL && auxv[16].value() == 0);
    assert_eq!(auxv[16].get_type().tag(), 0);
    assert_eq!(auxv[14].get_type().tag(), 25);
    assert_eq!(auxv[15].get_type().tag(), 31);
}

// A shared-object loader image (position independent, no interpreter
// request) is placed at the interpreter base: four segments, the first at
// the base itself.
#[test]
fn dynamic_loader_four_segments() {
    let phs = [
        ph(1, 4, 0, 0x0, 0x100, 0x100),
        ph(1, 5, 0x1000, 0x1000, 0x200, 0x200),
        ph(1, 4, 0x2000, 0x3000, 0x80, 0x80),
        ph(1, 6, 0x3000, 0x4000, 0x40, 0x90),
    ];
    let elf = make_elf(3, 0x1100, &phs);
    let interp_base = 0x1000;
    let parser = ELFParser::new(&elf, interp_base, None, 0).unwrap();
    assert_eq!(parser.base(), interp_base);

    let segments = parser.ph_load();
    assert_eq!(segments.len(), 4);
    assert_eq!(segments[0].vaddr, 0x1000);
    assert_eq!(segments[1].vaddr, 0x2000);
}
