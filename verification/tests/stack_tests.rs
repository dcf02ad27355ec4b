use la64_core::auxv::{AuxvEntry, AuxvType};
use la64_core::user_stack::app_stack_region;

fn u64_at(bytes: &[u8], off: usize) -> u64 {
    let mut w = [0u8; 8];
    w.copy_from_slice(&bytes[off..off + 8]);
    u64::from_le_bytes(w)
}

fn sample_auxv() -> Vec<AuxvEntry> {
    vec![
        AuxvEntry::new(AuxvType::PHDR, 0x40),
        AuxvEntry::new(AuxvType::PHENT, 56),
        AuxvEntry::new(AuxvType::PHNUM, 4),
        AuxvEntry::new(AuxvType::PAGESZ, 0x1000),
        AuxvEntry::new(AuxvType::BASE, 0),
        AuxvEntry::new(AuxvType::FLAGS, 0),
        AuxvEntry::new(AuxvType::ENTRY, 0x401234),
        AuxvEntry::new(AuxvType::HWCAP, 0),
        AuxvEntry::new(AuxvType::CLKTCK, 100),
        AuxvEntry::new(AuxvType::PLATFORM, 0),
        AuxvEntry::new(AuxvType::UID, 0),
        AuxvEntry::new(AuxvType::EUID, 0),
        AuxvEntry::new(AuxvType::GID, 0),
        AuxvEntry::new(AuxvType::EGID, 0),
        AuxvEntry::new(AuxvType::RANDOM, 0),
        AuxvEntry::new(AuxvType::EXECFN, 0),
        AuxvEntry::new(AuxvType::NULL, 0),
    ]
}

fn bytes(s: &str) -> Vec<u8> {
    s.as_bytes().to_vec()
}

// Walking the documented layout of the one-argument one-variable scenario:
// argc first, a null-terminated argv array, a null-terminated envp array,
// and an auxiliary vector ending in the null-type entry.
#[test]
fn walk_single_arg_stack() {
    let args = vec![bytes("prog")];
    let envs = vec![bytes("K=v")];
    let mut auxv = sample_auxv();
    let base = 0x3FE00000usize;
    let size = 0x20000usize;
    let stack = app_stack_region(&args, &envs, &mut auxv, base, size);
    let top = base + size;
    let sp = top - stack.len();

    // argc == 1 at offset 0.
    assert_eq!(u64_at(&stack, 0), 1);

    // One non-null argv pointer, then a null terminator.
    let argv0 = u64_at(&stack, 8);
    assert!(argv0 != 0);
    assert_eq!(u64_at(&stack, 16), 0);

    // One non-null envp pointer, then a null terminator.
    let envp0 = u64_at(&stack, 24);
    assert!(envp0 != 0);
    assert_eq!(u64_at(&stack, 32), 0);

    // The argv and envp pointers address the strings on the stack.
    let argv0 = argv0 as usize;
    let envp0 = envp0 as usize;
    assert_eq!(&stack[argv0 - sp..argv0 - sp + 5], b"prog\0");
    assert_eq!(&stack[envp0 - sp..envp0 - sp + 4], b"K=v\0");

    // The auxiliary vector follows, ending in a type-0 entry.
    let mut off = 40;
    let mut seen_null = false;
    for _ in 0..17 {
        let tag = u64_at(&stack, off);
        if tag == 0 {
            seen_null = true;
            break;
        }
        off += 16;
    }
    assert!(seen_null);
    assert_eq!(off, 40 + 16 * 16); // the null entry is the 17th
}

// The first eight bytes are the argument count.
#[test]
fn argc_first_word() {
    let args = vec![bytes("arg1"), bytes("arg2"), bytes("arg3")];
    let envs = vec![bytes("LOG=file")];
    let mut auxv = sample_auxv();
    let stack = app_stack_region(&args, &envs, &mut auxv, 0x3FFE0000, 0x20000);
    assert_eq!(stack[0..8], [3, 0, 0, 0, 0, 0, 0, 0]);
}

// With an odd argument-plus-environment count, the final stack pointer is a
// multiple of 16.
#[test]
fn stack_pointer_aligned_odd_count() {
    let args = vec![bytes("a"), bytes("bc")];
    let envs = vec![bytes("E=1")];
    let mut auxv = sample_auxv();
    let base = 0x3FE00000usize;
    let size = 0x20000usize;
    let stack = app_stack_region(&args, &envs, &mut auxv, base, size);
    let sp = base + size - stack.len();
    assert_eq!(sp % 16, 0);
}

// The auxiliary vector is pushed at a 16-byte-aligned point in every stack.
#[test]
fn auxv_block_aligned() {
    for (na, ne) in [(1usize, 0usize), (1, 1), (2, 1), (3, 2)] {
        let args: Vec<Vec<u8>> = (0..na).map(|i| bytes(&format!("arg{}", i))).collect();
        let envs: Vec<Vec<u8>> = (0..ne).map(|i| bytes(&format!("E{}=x", i))).collect();
        let mut auxv = sample_auxv();
        let base = 0x3FE00000usize;
        let size = 0x20000usize;
        let stack = app_stack_region(&args, &envs, &mut auxv, base, size);
        let sp = base + size - stack.len();
        let auxv_at = sp + 8 + 8 * (na + 1) + 8 * (ne + 1);
        assert_eq!(auxv_at % 16, 0);
    }
}

// The random-bytes and program-name entries are back-patched with the seed's
// and the first argument's stack addresses; other entries are untouched.
#[test]
fn auxv_backpatched() {
    let args = vec![bytes("prog"), bytes("x")];
    let envs = vec![bytes("K=v")];
    let mut auxv = sample_auxv();
    let base = 0x3FE00000usize;
    let size = 0x20000usize;
    let stack = app_stack_region(&args, &envs, &mut auxv, base, size);
    let top = base + size;

    let rnd = auxv.iter().find(|e| e.get_type() == AuxvType::RANDOM).unwrap().value();
    assert_eq!(rnd, top - 16);

    let argv0 = u64_at(&stack, 8) as usize;
    let execfn = auxv.iter().find(|e| e.get_type() == AuxvType::EXECFN).unwrap().value();
    assert_eq!(execfn, argv0);

    let entry = auxv.iter().find(|e| e.get_type() == AuxvType::ENTRY).unwrap().value();
    assert_eq!(entry, 0x401234);
}

// The 16-byte seed sits at the very top of the region, and the region ends
// exactly at the top of the stack.
#[test]
fn random_seed_at_top() {
    let args = vec![bytes("p")];
    let envs: Vec<Vec<u8>> = vec![];
    let mut auxv = sample_auxv();
    let stack = app_stack_region(&args, &envs, &mut auxv, 0x100000, 0x10000);
    let n = stack.len();
    assert_eq!(&stack[n - 16..], b"0123456789abcdef");
}

// Environment strings sit above the argument strings, both below the seed.
#[test]
fn string_block_order() {
    let args = vec![bytes("aa"), bytes("b")];
    let envs = vec![bytes("E=9")];
    let mut auxv = sample_auxv();
    let base = 0x200000usize;
    let size = 0x10000usize;
    let stack = app_stack_region(&args, &envs, &mut auxv, base, size);
    let top = base + size;
    let sp = top - stack.len();

    let argv0 = u64_at(&stack, 8) as usize;
    let argv1 = u64_at(&stack, 16) as usize;
    let envp0 = u64_at(&stack, 32) as usize;
    assert_eq!(envp0, top - 16 - 4); // "E=9" + null below the seed
    assert_eq!(argv0, envp0 - 3); // "aa" + null below the environment block
    assert_eq!(argv1, argv0 - 2); // "b" + null below the first argument
    assert_eq!(&stack[argv1 - sp..argv1 - sp + 2], b"b\0");
}
