//! Auxiliary vector entries: the (type, value) pairs the process-startup ABI
//! places on a new process's stack, terminated by a null-type entry.

use vstd::prelude::*;

verus! {

/// Type of an auxiliary vector entry. Only the types this loader emits are
/// listed; `tag` gives each its ABI number.
#[allow(non_camel_case_types)]
#[derive(Debug, Clone, Copy, PartialEq, Eq, Structural)]
pub enum AuxvType {
    /// End of vector.
    NULL,
    /// Program headers for the program.
    PHDR,
    /// Size of one program header entry.
    PHENT,
    /// Number of program headers.
    PHNUM,
    /// System page size.
    PAGESZ,
    /// Base address the program was loaded at.
    BASE,
    /// Flags.
    FLAGS,
    /// Entry point of the program.
    ENTRY,
    /// Architecture-dependent CPU capability bits.
    HWCAP,
    /// Frequency at which `times()` increments.
    CLKTCK,
    /// String identifying the CPU.
    PLATFORM,
    /// Real user id.
    UID,
    /// Effective user id.
    EUID,
    /// Real group id.
    GID,
    /// Effective group id.
    EGID,
    /// Address of 16 random bytes.
    RANDOM,
    /// Address of the program's file name.
    EXECFN,
}

impl AuxvType {
    /// The ABI number of this entry type, as it is written on the stack.
    pub open spec fn tag_spec(&self) -> usize {
        match *self {
            AuxvType::NULL => 0,
            AuxvType::PHDR => 3,
            AuxvType::PHENT => 4,
            AuxvType::PHNUM => 5,
            AuxvType::PAGESZ => 6,
            AuxvType::BASE => 7,
            AuxvType::FLAGS => 8,
            AuxvType::ENTRY => 9,
            AuxvType::UID => 11,
            AuxvType::EUID => 12,
            AuxvType::GID => 13,
            AuxvType::EGID => 14,
            AuxvType::PLATFORM => 15,
            AuxvType::HWCAP => 16,
            AuxvType::CLKTCK => 17,
            AuxvType::RANDOM => 25,
            AuxvType::EXECFN => 31,
        }
    }

    /// The ABI number of this entry type.
    pub fn tag(&self) -> (r: usize)
        ensures
            r == self.tag_spec(),
    {
        match *self {
            AuxvType::NULL => 0,
            AuxvType::PHDR => 3,
            AuxvType::PHENT => 4,
            AuxvType::PHNUM => 5,
            AuxvType::PAGESZ => 6,
            AuxvType::BASE => 7,
            AuxvType::FLAGS => 8,
            AuxvType::ENTRY => 9,
            AuxvType::UID => 11,
            AuxvType::EUID => 12,
            AuxvType::GID => 13,
            AuxvType::EGID => 14,
            AuxvType::PLATFORM => 15,
            AuxvType::HWCAP => 16,
            AuxvType::CLKTCK => 17,
            AuxvType::RANDOM => 25,
            AuxvType::EXECFN => 31,
        }
    }
}

/// One entry of the auxiliary vector.
#[derive(Debug, Clone, Copy, PartialEq, Eq, Structural)]
pub struct AuxvEntry {
    /// The type of the entry.
    pub auxv_type: AuxvType,
    /// The value associated with the entry.
    pub auxv_val: usize,
}

impl AuxvEntry {
    /// Creates a new entry.
    pub fn new(auxv_type: AuxvType, auxv_val: usize) -> (r: Self)
        ensures
            r.auxv_type == auxv_type,
            r.auxv_val == auxv_val,
    {
        AuxvEntry { auxv_type, auxv_val }
    }

    /// The type of the entry.
    pub fn get_type(&self) -> (r: AuxvType)
        ensures
            r == self.auxv_type,
    {
        self.auxv_type
    }

    /// The value of the entry.
    pub fn value(&self) -> (r: usize)
        ensures
            r == self.auxv_val,
    {
        self.auxv_val
    }

    /// Replaces the value of the entry; the type is kept.
    pub fn set_value(&mut self, val: usize)
        ensures
            final(self).auxv_val == val,
            final(self).auxv_type == old(self).auxv_type,
    {
        self.auxv_val = val;
    }
}

} // verus!
