//! ELF loader: parses the header and program-header table of a 64-bit
//! little-endian ELF image from its raw bytes, validates it, computes the
//! load base, and exposes the loadable segments and the auxiliary vector of
//! the new process.

use vstd::prelude::*;

use crate::auxv::AuxvEntry;
use crate::auxv::AuxvType;
use crate::trap::MappingFlags;

verus! {

/// Program-header type of a loadable segment.
pub const PT_LOAD: u32 = 1;

/// Program-header type of an interpreter request.
pub const PT_INTERP: u32 = 3;

/// ELF file type of a fixed-address executable.
pub const ET_EXEC: u16 = 2;

/// ELF file type of a position-independent (shared object) executable.
pub const ET_DYN: u16 = 3;

/// Size in bytes of the ELF64 file header.
pub const ELF_HEADER_SIZE: usize = 64;

/// Size in bytes of one ELF64 program header entry.
pub const PHENT_SIZE: usize = 56;

/// Why an image was rejected.
#[derive(Debug, Clone, Copy, PartialEq, Eq, Structural)]
pub enum ElfError {
    /// The image does not begin with the ELF magic.
    InvalidMagic,
    /// The image is truncated, not 64-bit little-endian, or its program
    /// header table does not fit the file.
    UnsupportedHeader,
    /// The file type is neither a fixed-address executable nor a position
    /// independent one.
    UnsupportedElfType,
    /// More than one interpreter is requested.
    MultipleInterpreters,
    /// A fixed-address image loads a segment below the user space base.
    InvalidBaseAddress,
}

/// The little-endian value of the two bytes at `off`.
pub open spec fn le16_at(s: Seq<u8>, off: int) -> int {
    s[off] + 0x100 * s[off + 1]
}

/// The little-endian value of the four bytes at `off`.
pub open spec fn le32_at(s: Seq<u8>, off: int) -> int {
    s[off] + 0x100 * s[off + 1] + 0x10000 * s[off + 2] + 0x1000000 * s[off + 3]
}

/// The little-endian value of the eight bytes at `off`.
pub open spec fn le64_at(s: Seq<u8>, off: int) -> int {
    s[off] + 0x100 * s[off + 1] + 0x10000 * s[off + 2] + 0x1000000 * s[off + 3] + 0x100000000 * s[
        off + 4
    ] + 0x10000000000 * s[off + 5] + 0x1000000000000 * s[off + 6] + 0x100000000000000 * s[off + 7]
}

/// The image begins with the ELF magic `\x7fELF`.
pub open spec fn elf_magic_ok(data: Seq<u8>) -> bool {
    &&& data.len() >= 4
    &&& data[0] == 0x7f
    &&& data[1] == 0x45
    &&& data[2] == 0x4c
    &&& data[3] == 0x46
}

/// The ELF file type.
pub open spec fn elf_type(data: Seq<u8>) -> int {
    le16_at(data, 16)
}

/// The declared entry point.
pub open spec fn elf_entry(data: Seq<u8>) -> int {
    le64_at(data, 24)
}

/// The file offset of the program header table.
pub open spec fn elf_phoff(data: Seq<u8>) -> int {
    le64_at(data, 32)
}

/// The number of program headers.
pub open spec fn elf_phnum(data: Seq<u8>) -> int {
    le16_at(data, 56)
}

/// The header is a readable 64-bit little-endian ELF64 header whose program
/// header table lies within the file and uses the ELF64 entry size.
pub open spec fn elf_header_ok(data: Seq<u8>) -> bool {
    &&& data.len() >= ELF_HEADER_SIZE
    &&& data[4] == 2
    &&& data[5] == 1
    &&& le16_at(data, 54) == PHENT_SIZE
    &&& elf_phoff(data) + PHENT_SIZE * elf_phnum(data) <= data.len()
}

/// File offset of program header `i`.
pub open spec fn ph_off(data: Seq<u8>, i: int) -> int {
    elf_phoff(data) + PHENT_SIZE * i
}

/// Type field of program header `i`.
pub open spec fn ph_type(data: Seq<u8>, i: int) -> int {
    le32_at(data, ph_off(data, i))
}

/// Flag field of program header `i`.
pub open spec fn ph_flags(data: Seq<u8>, i: int) -> int {
    le32_at(data, ph_off(data, i) + 4)
}

/// File offset field of program header `i`.
pub open spec fn ph_offset(data: Seq<u8>, i: int) -> int {
    le64_at(data, ph_off(data, i) + 8)
}

/// Destination virtual address field of program header `i`.
pub open spec fn ph_vaddr(data: Seq<u8>, i: int) -> int {
    le64_at(data, ph_off(data, i) + 16)
}

/// File size field of program header `i`.
pub open spec fn ph_filesz(data: Seq<u8>, i: int) -> int {
    le64_at(data, ph_off(data, i) + 32)
}

/// Memory size field of program header `i`.
pub open spec fn ph_memsz(data: Seq<u8>, i: int) -> int {
    le64_at(data, ph_off(data, i) + 40)
}

/// How many of the first `n` program headers request an interpreter.
pub open spec fn count_interp(data: Seq<u8>, n: int) -> int
    decreases n,
{
    if n <= 0 {
        0
    } else {
        count_interp(data, n - 1) + if ph_type(data, n - 1) == PT_INTERP {
            1int
        } else {
            0int
        }
    }
}

/// At most `n` of the first `n` program headers can request an interpreter.
pub proof fn lemma_count_interp_bound(data: Seq<u8>, n: int)
    requires
        n >= 0,
    ensures
        0 <= count_interp(data, n) <= n,
    decreases n,
{
    if n > 0 {
        lemma_count_interp_bound(data, n - 1);
    }
}

/// The image is position independent: a shared object, or a fixed-address
/// executable that requests an interpreter.
pub open spec fn elf_is_pie(data: Seq<u8>) -> bool {
    ||| elf_type(data) == ET_DYN
    ||| (elf_type(data) == ET_EXEC && count_interp(data, elf_phnum(data)) > 0)
}

/// Some loadable segment's destination lies below `uspace_base`.
pub open spec fn any_load_below(data: Seq<u8>, uspace_base: usize) -> bool {
    exists|j: int|
        0 <= j < elf_phnum(data) && #[trigger] ph_type(data, j) == PT_LOAD && ph_vaddr(data, j)
            < uspace_base
}

/// One raw loadable program header, exactly as the file declares it.
#[derive(Debug, Clone, Copy, PartialEq, Eq, Structural)]
pub struct RawSegment {
    /// Start offset of the segment in the file.
    pub offset: u64,
    /// Destination virtual address, before the load base is applied.
    pub vaddr: u64,
    /// In-file size of the segment.
    pub filesz: u64,
    /// In-memory size of the segment.
    pub memsz: u64,
    /// Permission flags (execute, write, read bits).
    pub flags: u32,
}

/// Raw program header `i` of the image.
pub open spec fn raw_segment_at(data: Seq<u8>, i: int) -> RawSegment {
    RawSegment {
        offset: ph_offset(data, i) as u64,
        vaddr: ph_vaddr(data, i) as u64,
        filesz: ph_filesz(data, i) as u64,
        memsz: ph_memsz(data, i) as u64,
        flags: ph_flags(data, i) as u32,
    }
}

/// The loadable segments among the first `n` program headers, in file order.
pub open spec fn load_segments(data: Seq<u8>, n: int) -> Seq<RawSegment>
    decreases n,
{
    if n <= 0 {
        Seq::empty()
    } else {
        let prev = load_segments(data, n - 1);
        if ph_type(data, n - 1) == PT_LOAD {
            prev.push(raw_segment_at(data, n - 1))
        } else {
            prev
        }
    }
}

/// The image parses: readable header, and the type, interpreter-count and
/// base-address rules all hold.
pub open spec fn parse_ok(data: Seq<u8>, uspace_base: usize) -> bool {
    &&& elf_magic_ok(data)
    &&& elf_header_ok(data)
    &&& (elf_is_pie(data) || !any_load_below(data, uspace_base))
    &&& (elf_type(data) == ET_EXEC || (elf_type(data) == ET_DYN && count_interp(
        data,
        elf_phnum(data),
    ) <= 1))
}

/// The error a rejected image is reported with, in the order the checks run.
pub open spec fn parse_err(data: Seq<u8>, uspace_base: usize) -> ElfError {
    if !elf_magic_ok(data) {
        ElfError::InvalidMagic
    } else if !elf_header_ok(data) {
        ElfError::UnsupportedHeader
    } else if !elf_is_pie(data) && any_load_below(data, uspace_base) {
        ElfError::InvalidBaseAddress
    } else if elf_type(data) == ET_DYN && count_interp(data, elf_phnum(data)) > 1 {
        ElfError::MultipleInterpreters
    } else {
        ElfError::UnsupportedElfType
    }
}

/// The load base of an accepted image: 0 for a fixed-address executable; for
/// a shared object, the interpreter base when the image requests no
/// interpreter and 0 when it brings one; a position-independent image is
/// then shifted by the bias, with wrapping.
pub open spec fn spec_base(data: Seq<u8>, interp_base: usize, bias: Option<isize>) -> usize {
    let b0: usize = if elf_type(data) == ET_EXEC {
        0
    } else if count_interp(data, elf_phnum(data)) == 0 {
        interp_base
    } else {
        0
    };
    if elf_is_pie(data) {
        let d: isize = match bias {
            Some(b) => b,
            None => 0,
        };
        b0.wrapping_add_signed(d)
    } else {
        b0
    }
}

/// Reads the little-endian `u16` at `off`.
fn read_u16(data: &[u8], off: usize) -> (r: u16)
    requires
        off + 2 <= data@.len(),
    ensures
        r == le16_at(data@, off as int),
{
    data[off] as u16 + 0x100 * (data[off + 1] as u16)
}

/// Reads the little-endian `u32` at `off`.
fn read_u32(data: &[u8], off: usize) -> (r: u32)
    requires
        off + 4 <= data@.len(),
    ensures
        r == le32_at(data@, off as int),
{
    data[off] as u32 + 0x100 * (data[off + 1] as u32) + 0x10000 * (data[off + 2] as u32)
        + 0x1000000 * (data[off + 3] as u32)
}

/// Reads the little-endian `u64` at `off`.
fn read_u64(data: &[u8], off: usize) -> (r: u64)
    requires
        off + 8 <= data@.len(),
    ensures
        r == le64_at(data@, off as int),
{
    data[off] as u64 + 0x100 * (data[off + 1] as u64) + 0x10000 * (data[off + 2] as u64)
        + 0x1000000 * (data[off + 3] as u64) + 0x100000000 * (data[off + 4] as u64)
        + 0x10000000000 * (data[off + 5] as u64) + 0x1000000000000 * (data[off + 6] as u64)
        + 0x100000000000000 * (data[off + 7] as u64)
}

/// ELF Program Header applied to the kernel: one loadable segment with its
/// destination already adjusted by the load base.
#[derive(Debug, Clone, Copy, PartialEq, Eq, Structural)]
pub struct ELFPH {
    /// The start offset of the segment in the ELF file.
    pub offset: usize,
    /// The destination virtual address of the segment.
    pub vaddr: usize,
    /// Memory size of the segment.
    pub memsz: u64,
    /// File size of the segment.
    pub filesz: u64,
    /// Permission flags of the segment, used to set the page table entry.
    pub flags: MappingFlags,
}

/// The mapping flags of a segment with raw permission bits `f`: the ELF
/// execute, write and read bits, plus the user flag every user segment gets.
pub open spec fn segment_flags(f: u32) -> MappingFlags {
    MappingFlags { read: f & 4 != 0, write: f & 2 != 0, execute: f & 1 != 0, user: true }
}

/// The adjusted segment of raw header `s` under load base `base`.
pub open spec fn adjusted_segment(s: RawSegment, base: usize) -> ELFPH {
    ELFPH {
        offset: s.offset as usize,
        vaddr: (s.vaddr + base) as usize,
        memsz: s.memsz,
        filesz: s.filesz,
        flags: segment_flags(s.flags),
    }
}

/// A parsed and validated ELF image.
pub struct ELFParser {
    base: usize,
    entry: u64,
    phoff: u64,
    phnum: u16,
    phent: u16,
    loads: Vec<RawSegment>,
}

impl ELFParser {
    /// The computed load base.
    pub closed spec fn base_spec(&self) -> usize {
        self.base
    }

    /// The raw declared entry point.
    pub closed spec fn entry_spec(&self) -> u64 {
        self.entry
    }

    /// The raw program-header table offset.
    pub closed spec fn phoff_spec(&self) -> u64 {
        self.phoff
    }

    /// The number of program headers.
    pub closed spec fn phnum_spec(&self) -> u16 {
        self.phnum
    }

    /// The size of one program header entry.
    pub closed spec fn phent_spec(&self) -> u16 {
        self.phent
    }

    /// The raw loadable segments, in file order.
    pub closed spec fn loads_spec(&self) -> Seq<RawSegment> {
        self.loads@
    }

    /// Parses and validates an ELF image.
    ///
    /// `interp_base` is the address the interpreter would be loaded at,
    /// `bias` an optional shift for a position-independent image, and
    /// `uspace_base` the lowest address of the user space, below which a
    /// fixed-address image may not load.
    ///
    /// The image is accepted if and only if its magic and header are valid,
    /// its type is supported, it requests at most one interpreter, and — for
    /// a fixed-address image — no loadable segment lies below `uspace_base`;
    /// otherwise the first failing check names the error.
    pub fn new(data: &[u8], interp_base: usize, bias: Option<isize>, uspace_base: usize) -> (r:
        Result<ELFParser, ElfError>)
        ensures
            r is Ok <==> parse_ok(data@, uspace_base),
            r matches Err(e) ==> e == parse_err(data@, uspace_base),
            r matches Ok(p) ==> {
                &&& p.base_spec() == spec_base(data@, interp_base, bias)
                &&& p.entry_spec() == elf_entry(data@)
                &&& p.phoff_spec() == elf_phoff(data@)
                &&& p.phnum_spec() == elf_phnum(data@)
                &&& p.phent_spec() == PHENT_SIZE
                &&& p.loads_spec() == load_segments(data@, elf_phnum(data@))
            },
    {
        if data.len() < 4 || !(data[0] == 0x7f && data[1] == 0x45 && data[2] == 0x4c && data[3]
            == 0x46) {
            return Err(ElfError::InvalidMagic);
        }
        if data.len() < ELF_HEADER_SIZE {
            return Err(ElfError::UnsupportedHeader);
        }
        if !(data[4] == 2 && data[5] == 1) {
            return Err(ElfError::UnsupportedHeader);
        }
        let phent = read_u16(data, 54);
        if phent as usize != PHENT_SIZE {
            return Err(ElfError::UnsupportedHeader);
        }
        let phoff = read_u64(data, 32);
        let phnum = read_u16(data, 56);
        let len64: u64 = data.len() as u64;
        if phoff > len64 || (PHENT_SIZE as u64) * (phnum as u64) > len64 - phoff {
            return Err(ElfError::UnsupportedHeader);
        }
        let etype = read_u16(data, 16);

        let mut i: usize = 0;
        let mut interp_count: u32 = 0;
        let mut found_low = false;
        let mut loads: Vec<RawSegment> = Vec::new();
        while i < phnum as usize
            invariant
                i <= phnum,
                elf_header_ok(data@),
                phoff == elf_phoff(data@),
                phnum == elf_phnum(data@),
                data@.len() <= usize::MAX,
                interp_count == count_interp(data@, i as int),
                found_low <==> exists|j: int|
                    0 <= j < i && #[trigger] ph_type(data@, j) == PT_LOAD && ph_vaddr(data@, j)
                        < uspace_base,
                loads@ == load_segments(data@, i as int),
            decreases phnum - i,
        {
            let off = phoff as usize + PHENT_SIZE * i;
            let ptype = read_u32(data, off);
            proof {
                assert(off == ph_off(data@, i as int));
                lemma_count_interp_bound(data@, i as int);
            }
            if ptype == PT_INTERP {
                interp_count = interp_count + 1;
            }
            if ptype == PT_LOAD {
                let vaddr = read_u64(data, off + 16);
                if vaddr < uspace_base as u64 {
                    found_low = true;
                    proof {
                        assert(ph_type(data@, i as int) == PT_LOAD && ph_vaddr(data@, i as int)
                            < uspace_base);
                    }
                }
                let seg = RawSegment {
                    offset: read_u64(data, off + 8),
                    vaddr,
                    filesz: read_u64(data, off + 32),
                    memsz: read_u64(data, off + 40),
                    flags: read_u32(data, off + 4),
                };
                proof {
                    assert(seg == raw_segment_at(data@, i as int));
                }
                loads.push(seg);
            }
            i = i + 1;
        }

        let is_pie = etype == ET_DYN || (etype == ET_EXEC && interp_count > 0);
        proof {
            assert(is_pie == elf_is_pie(data@));
        }
        if !is_pie && found_low {
            return Err(ElfError::InvalidBaseAddress);
        }
        let base0: usize = if etype == ET_EXEC {
            0
        } else if etype == ET_DYN {
            if interp_count == 0 {
                interp_base
            } else if interp_count == 1 {
                0
            } else {
                return Err(ElfError::MultipleInterpreters);
            }
        } else {
            return Err(ElfError::UnsupportedElfType);
        };
        let base = if is_pie {
            let d: isize = match bias {
                Some(b) => b,
                None => 0,
            };
            base0.wrapping_add_signed(d)
        } else {
            base0
        };
        let entry = read_u64(data, 24);
        Ok(ELFParser { base, entry, phoff, phnum, phent, loads })
    }

    /// The base address of the ELF file loaded into the memory.
    pub fn base(&self) -> (r: usize)
        ensures
            r == self.base_spec(),
    {
        self.base
    }

    /// The entry point of the ELF file, adjusted by the load base.
    pub fn entry(&self) -> (r: usize)
        requires
            self.entry_spec() + self.base_spec() <= usize::MAX,
        ensures
            r == self.entry_spec() + self.base_spec(),
    {
        self.entry as usize + self.base
    }

    /// The number of program headers in the ELF file.
    pub fn phnum(&self) -> (r: usize)
        ensures
            r == self.phnum_spec(),
    {
        self.phnum as usize
    }

    /// The size of the program header table entry in the ELF file.
    pub fn phent(&self) -> (r: usize)
        ensures
            r == self.phent_spec(),
    {
        self.phent as usize
    }

    /// The offset of the program header table, adjusted by the load base.
    pub fn phdr(&self) -> (r: usize)
        requires
            self.phoff_spec() + self.base_spec() <= usize::MAX,
        ensures
            r == self.phoff_spec() + self.base_spec(),
    {
        self.phoff as usize + self.base
    }

    /// The adjusted entry point, or `None` when it would overflow the
    /// address space.
    pub fn entry_checked(&self) -> (r: Option<usize>)
        ensures
            self.entry_spec() + self.base_spec() <= usize::MAX ==> r == Some(
                ((self.entry_spec() + self.base_spec()) as usize),
            ),
            self.entry_spec() + self.base_spec() > usize::MAX ==> r is None,
    {
        if self.entry <= (usize::MAX as u64) - (self.base as u64) && self.entry + (self.base
            as u64) <= (usize::MAX as u64) {
            Some(self.entry as usize + self.base)
        } else {
            None
        }
    }

    /// The adjusted program-header table address, or `None` when it would
    /// overflow the address space.
    pub fn phdr_checked(&self) -> (r: Option<usize>)
        ensures
            self.phoff_spec() + self.base_spec() <= usize::MAX ==> r == Some(
                ((self.phoff_spec() + self.base_spec()) as usize),
            ),
            self.phoff_spec() + self.base_spec() > usize::MAX ==> r is None,
    {
        if self.phoff <= (usize::MAX as u64) - (self.base as u64) && self.phoff + (self.base
            as u64) <= (usize::MAX as u64) {
            Some(self.phoff as usize + self.base)
        } else {
            None
        }
    }

    /// The adjusted loadable segments, or `None` when some segment address
    /// or offset would overflow the address space.
    pub fn ph_load_checked(&self) -> (r: Option<Vec<ELFPH>>)
        ensures
            r matches Some(v) ==> {
                &&& v@.len() == self.loads_spec().len()
                &&& forall|i: int|
                    0 <= i < v@.len() ==> v@[i] == adjusted_segment(
                        self.loads_spec()[i],
                        self.base_spec(),
                    )
            },
            r is None <==> exists|i: int|
                0 <= i < self.loads_spec().len() && ((#[trigger] self.loads_spec()[i]).vaddr
                    + self.base_spec() > usize::MAX || self.loads_spec()[i].offset > usize::MAX),
    {
        let mut i: usize = 0;
        while i < self.loads.len()
            invariant
                i <= self.loads_spec().len(),
                forall|k: int|
                    0 <= k < i ==> (#[trigger] self.loads_spec()[k]).vaddr + self.base
                        <= usize::MAX && self.loads_spec()[k].offset <= usize::MAX,
            decreases self.loads_spec().len() - i,
        {
            let s = self.loads[i];
            if s.vaddr > (usize::MAX as u64) - (self.base as u64) || s.vaddr + (self.base as u64)
                > (usize::MAX as u64) || s.offset > (usize::MAX as u64) {
                return None;
            }
            i = i + 1;
        }
        Some(self.ph_load())
    }

    /// All loadable segments of the image, in file order, each destination
    /// and offset adjusted by the load base.
    pub fn ph_load(&self) -> (r: Vec<ELFPH>)
        requires
            forall|i: int|
                0 <= i < self.loads_spec().len() ==> (#[trigger] self.loads_spec()[i]).vaddr
                    + self.base_spec() <= usize::MAX && self.loads_spec()[i].offset <= usize::MAX,
        ensures
            r@.len() == self.loads_spec().len(),
            forall|i: int|
                0 <= i < r@.len() ==> r@[i] == adjusted_segment(
                    self.loads_spec()[i],
                    self.base_spec(),
                ),
    {
        let mut segments: Vec<ELFPH> = Vec::new();
        let mut i: usize = 0;
        while i < self.loads.len()
            invariant
                i <= self.loads@.len(),
                segments@.len() == i,
                forall|k: int|
                    0 <= k < self.loads_spec().len() ==> (#[trigger] self.loads_spec()[k]).vaddr
                        + self.base <= usize::MAX && self.loads_spec()[k].offset <= usize::MAX,
                forall|k: int|
                    0 <= k < i ==> segments@[k] == adjusted_segment(self.loads@[k], self.base),
            decreases self.loads@.len() - i,
        {
            let s = self.loads[i];
            proof {
                assert((self.loads_spec()[i as int]).vaddr + self.base <= usize::MAX);
                assert((self.loads_spec()[i as int]).offset <= usize::MAX);
            }
            let flags = MappingFlags {
                read: s.flags & 4 != 0,
                write: s.flags & 2 != 0,
                execute: s.flags & 1 != 0,
                user: true,
            };
            let ph = ELFPH {
                offset: s.offset as usize,
                vaddr: s.vaddr as usize + self.base,
                memsz: s.memsz,
                filesz: s.filesz,
                flags,
            };
            segments.push(ph);
            i = i + 1;
        }
        segments
    }

    /// The auxiliary vector of the new process: 17 entries in the fixed ABI
    /// order, ending with the null entry. The random-bytes and program-name
    /// entries hold 0 until the stack builder patches in their addresses.
    pub fn auxv_vector(&self, pagesz: usize) -> (r: Vec<AuxvEntry>)
        requires
            self.phoff_spec() + self.base_spec() <= usize::MAX,
            self.entry_spec() + self.base_spec() <= usize::MAX,
        ensures
            r@ == auxv_vector_spec(
                (self.phoff_spec() + self.base_spec()) as usize,
                self.phent_spec() as usize,
                self.phnum_spec() as usize,
                pagesz,
                self.base_spec(),
                (self.entry_spec() + self.base_spec()) as usize,
            ),
    {
        let phdr = self.phdr();
        let entry = self.entry();
        let mut r: Vec<AuxvEntry> = Vec::new();
        r.push(AuxvEntry { auxv_type: AuxvType::PHDR, auxv_val: phdr });
        r.push(AuxvEntry { auxv_type: AuxvType::PHENT, auxv_val: self.phent() });
        r.push(AuxvEntry { auxv_type: AuxvType::PHNUM, auxv_val: self.phnum() });
        r.push(AuxvEntry { auxv_type: AuxvType::PAGESZ, auxv_val: pagesz });
        r.push(AuxvEntry { auxv_type: AuxvType::BASE, auxv_val: self.base() });
        r.push(AuxvEntry { auxv_type: AuxvType::FLAGS, auxv_val: 0 });
        r.push(AuxvEntry { auxv_type: AuxvType::ENTRY, auxv_val: entry });
        r.push(AuxvEntry { auxv_type: AuxvType::HWCAP, auxv_val: 0 });
        r.push(AuxvEntry { auxv_type: AuxvType::CLKTCK, auxv_val: 100 });
        r.push(AuxvEntry { auxv_type: AuxvType::PLATFORM, auxv_val: 0 });
        r.push(AuxvEntry { auxv_type: AuxvType::UID, auxv_val: 0 });
        r.push(AuxvEntry { auxv_type: AuxvType::EUID, auxv_val: 0 });
        r.push(AuxvEntry { auxv_type: AuxvType::GID, auxv_val: 0 });
        r.push(AuxvEntry { auxv_type: AuxvType::EGID, auxv_val: 0 });
        r.push(AuxvEntry { auxv_type: AuxvType::RANDOM, auxv_val: 0 });
        r.push(AuxvEntry { auxv_type: AuxvType::EXECFN, auxv_val: 0 });
        r.push(AuxvEntry { auxv_type: AuxvType::NULL, auxv_val: 0 });
        proof {
            assert(r@ =~= auxv_vector_spec(
                (self.phoff_spec() + self.base_spec()) as usize,
                self.phent_spec() as usize,
                self.phnum_spec() as usize,
                pagesz,
                self.base_spec(),
                (self.entry_spec() + self.base_spec()) as usize,
            ));
        }
        r
    }
}

/// The 17 auxiliary vector entries, in their fixed ABI order: program-header
/// table address, entry size and count, page size, load base, flags, entry
/// point, capability and clock-tick values, placeholder platform and id
/// entries, the random-bytes and program-name entries (patched later), and
/// the null terminator.
pub open spec fn auxv_vector_spec(
    phdr: usize,
    phent: usize,
    phnum: usize,
    pagesz: usize,
    base: usize,
    entry: usize,
) -> Seq<AuxvEntry> {
    seq![
        AuxvEntry { auxv_type: AuxvType::PHDR, auxv_val: phdr },
        AuxvEntry { auxv_type: AuxvType::PHENT, auxv_val: phent },
        AuxvEntry { auxv_type: AuxvType::PHNUM, auxv_val: phnum },
        AuxvEntry { auxv_type: AuxvType::PAGESZ, auxv_val: pagesz },
        AuxvEntry { auxv_type: AuxvType::BASE, auxv_val: base },
        AuxvEntry { auxv_type: AuxvType::FLAGS, auxv_val: 0 },
        AuxvEntry { auxv_type: AuxvType::ENTRY, auxv_val: entry },
        AuxvEntry { auxv_type: AuxvType::HWCAP, auxv_val: 0 },
        AuxvEntry { auxv_type: AuxvType::CLKTCK, auxv_val: 100 },
        AuxvEntry { auxv_type: AuxvType::PLATFORM, auxv_val: 0 },
        AuxvEntry { auxv_type: AuxvType::UID, auxv_val: 0 },
        AuxvEntry { auxv_type: AuxvType::EUID, auxv_val: 0 },
        AuxvEntry { auxv_type: AuxvType::GID, auxv_val: 0 },
        AuxvEntry { auxv_type: AuxvType::EGID, auxv_val: 0 },
        AuxvEntry { auxv_type: AuxvType::RANDOM, auxv_val: 0 },
        AuxvEntry { auxv_type: AuxvType::EXECFN, auxv_val: 0 },
        AuxvEntry { auxv_type: AuxvType::NULL, auxv_val: 0 },
    ]
}


/// A fixed-address image with a loadable segment below the user space base
/// is rejected, and with the base-address error.
pub proof fn lemma_non_pie_below_base_rejected(data: Seq<u8>, uspace_base: usize)
    requires
        !elf_is_pie(data),
        any_load_below(data, uspace_base),
    ensures
        !parse_ok(data, uspace_base),
        elf_magic_ok(data) && elf_header_ok(data) ==> parse_err(data, uspace_base)
            == ElfError::InvalidBaseAddress,
{
}

/// The bias to apply, zero when none is supplied.
pub open spec fn bias_of(bias: Option<isize>) -> isize {
    match bias {
        Some(b) => b,
        None => 0,
    }
}

/// For a position-independent image requesting no interpreter, the load base
/// is the supplied interpreter base, shifted by the optional bias; for one
/// that brings exactly one interpreter request, the base is 0, likewise
/// shifted.
pub proof fn lemma_pie_base(data: Seq<u8>, interp_base: usize, bias: Option<isize>)
    requires
        elf_type(data) == ET_DYN,
    ensures
        count_interp(data, elf_phnum(data)) == 0 ==> spec_base(data, interp_base, bias)
            == interp_base.wrapping_add_signed(bias_of(bias)),
        count_interp(data, elf_phnum(data)) == 1 ==> spec_base(data, interp_base, bias) == (
        0usize).wrapping_add_signed(bias_of(bias)),
        bias is None && count_interp(data, elf_phnum(data)) == 0 ==> spec_base(
            data,
            interp_base,
            bias,
        ) == interp_base,
        bias is None && count_interp(data, elf_phnum(data)) == 1 ==> spec_base(
            data,
            interp_base,
            bias,
        ) == 0,
{
}

} // verus!
