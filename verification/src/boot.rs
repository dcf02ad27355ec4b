//! One-time boot construction: the two-level boot page table that direct-maps
//! the kernel's load range with huge pages, and the TLB/page-walk geometry the
//! paging hardware is configured with.
//!
//! Writing the tables' physical address and the geometry into control
//! registers happens outside this crate, before interrupts or dynamic memory
//! exist; this module computes exactly what is written.

use vstd::prelude::*;

verus! {

/// Number of entries in one boot page table.
pub const BOOT_PT_ENTRIES: usize = 512;

/// Huge-page mapping flags of a boot block entry: valid, dirty, huge,
/// privileged and writable.
pub const BOOT_HUGE_FLAGS: u64 = 0x1c3;

/// Physical address of the second 1 GiB block the boot table maps.
pub const BOOT_SECOND_BLOCK: u64 = 0x8000_0000;

/// Builds the two boot page tables, given the physical address of the level-1
/// table. The level-0 table's first entry points at the level-1 table; the
/// level-1 table maps the two 1 GiB blocks at `0` and [`BOOT_SECOND_BLOCK`]
/// as huge pages; every other entry is empty.
pub fn init_boot_page_table(l1_paddr: u64) -> (r: (Vec<u64>, Vec<u64>))
    ensures
        r.0@.len() == BOOT_PT_ENTRIES,
        r.1@.len() == BOOT_PT_ENTRIES,
        r.0@[0] == l1_paddr,
        forall|i: int| 1 <= i < BOOT_PT_ENTRIES ==> r.0@[i] == 0,
        r.1@[0] == BOOT_HUGE_FLAGS,
        r.1@[2] == BOOT_SECOND_BLOCK + BOOT_HUGE_FLAGS,
        forall|i: int| 0 <= i < BOOT_PT_ENTRIES && i != 0 && i != 2 ==> r.1@[i] == 0,
{
    let mut l0: Vec<u64> = Vec::new();
    let mut i: usize = 0;
    while i < BOOT_PT_ENTRIES
        invariant
            i <= BOOT_PT_ENTRIES,
            l0@.len() == i,
            forall|j: int| 0 <= j < i ==> l0@[j] == 0,
        decreases BOOT_PT_ENTRIES - i,
    {
        l0.push(0);
        i = i + 1;
    }
    let mut l1: Vec<u64> = Vec::new();
    let mut k: usize = 0;
    while k < BOOT_PT_ENTRIES
        invariant
            k <= BOOT_PT_ENTRIES,
            l1@.len() == k,
            forall|j: int| 0 <= j < k ==> l1@[j] == 0,
        decreases BOOT_PT_ENTRIES - k,
    {
        l1.push(0);
        k = k + 1;
    }
    l0.set(0, l1_paddr);
    l1.set(0, BOOT_HUGE_FLAGS);
    l1.set(2, BOOT_SECOND_BLOCK + BOOT_HUGE_FLAGS);
    (l0, l1)
}

/// Page-walk geometry the TLB is configured with: 4 KiB pages and four
/// 9-bit-wide table levels.
#[derive(Debug, Clone, Copy, PartialEq, Eq, Structural)]
pub struct TlbConfig {
    /// Log2 of the page size, for the three page-size registers.
    pub page_size_log2: usize,
    /// Width in bytes of one page table entry.
    pub pte_width: usize,
    /// Bit position where the lowest-level table's index starts.
    pub pt_base: usize,
    /// Index width of the lowest-level table.
    pub pt_width: usize,
    /// Bit position of the first directory level's index.
    pub dir1_base: usize,
    /// Index width of the first directory level.
    pub dir1_width: usize,
    /// Bit position of the second directory level's index.
    pub dir2_base: usize,
    /// Index width of the second directory level.
    pub dir2_width: usize,
    /// Bit position of the third directory level's index.
    pub dir3_base: usize,
    /// Index width of the third directory level.
    pub dir3_width: usize,
}

impl TlbConfig {
    /// The levels tile the virtual address: each level's index field starts
    /// where the level below it ends, and the lowest starts at the page
    /// offset's end.
    pub open spec fn levels_tile(&self) -> bool {
        &&& self.pt_base == self.page_size_log2
        &&& self.dir1_base == self.pt_base + self.pt_width
        &&& self.dir2_base == self.dir1_base + self.dir1_width
        &&& self.dir3_base == self.dir2_base + self.dir2_width
    }
}

/// The TLB configuration used at boot: 4 KiB pages, 8-byte entries, and four
/// 9-bit levels at bits 12, 21, 30 and 39.
pub fn init_tlb_config() -> (r: TlbConfig)
    ensures
        r.page_size_log2 == 12,
        r.pte_width == 8,
        r.pt_base == 12,
        r.pt_width == 9,
        r.dir1_base == 21,
        r.dir1_width == 9,
        r.dir2_base == 30,
        r.dir2_width == 9,
        r.dir3_base == 39,
        r.dir3_width == 9,
        r.levels_tile(),
{
    TlbConfig {
        page_size_log2: 12,
        pte_width: 8,
        pt_base: 12,
        pt_width: 9,
        dir1_base: 21,
        dir1_width: 9,
        dir2_base: 30,
        dir2_width: 9,
        dir3_base: 39,
        dir3_width: 9,
    }
}

} // verus!
