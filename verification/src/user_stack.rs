//! The ABI stack builder: lays out, from the top of the user stack downward,
//! the 16-byte random seed, the environment and argument strings, alignment
//! padding, the auxiliary vector (with the random-seed and program-name
//! entries back-patched), the null-terminated environment- and
//! argument-pointer arrays, and the argument count — which ends up at the
//! lowest address, where the new process's stack pointer lands.

use vstd::prelude::*;

use crate::auxv::AuxvEntry;
use crate::auxv::AuxvType;

verus! {

/// The eight bytes of `v` in little-endian order.
pub open spec fn le8(v: int) -> Seq<u8> {
    seq![
        (v % 0x100) as u8,
        ((v / 0x100) % 0x100) as u8,
        ((v / 0x10000) % 0x100) as u8,
        ((v / 0x1000000) % 0x100) as u8,
        ((v / 0x100000000) % 0x100) as u8,
        ((v / 0x10000000000) % 0x100) as u8,
        ((v / 0x1000000000000) % 0x100) as u8,
        ((v / 0x100000000000000) % 0x100) as u8,
    ]
}

/// `n` zero bytes.
pub open spec fn zeros(n: int) -> Seq<u8> {
    Seq::new(if n >= 0 {
        n as nat
    } else {
        0
    }, |i: int| 0u8)
}

/// A string as it lies on the stack: its bytes followed by a terminating
/// null.
pub open spec fn cstr(s: Seq<u8>) -> Seq<u8> {
    s.push(0u8)
}

/// Bytes taken by the first `k` strings of `ss`, each with its terminating
/// null.
pub open spec fn strs_size(ss: Seq<Seq<u8>>, k: int) -> int
    decreases k,
{
    if k <= 0 {
        0
    } else {
        strs_size(ss, k - 1) + ss[k - 1].len() + 1
    }
}

/// The byte sizes of string prefixes only grow.
pub proof fn lemma_strs_size_mono(ss: Seq<Seq<u8>>, j: int, k: int)
    requires
        0 <= j <= k,
    ensures
        0 <= strs_size(ss, j) <= strs_size(ss, k),
    decreases k,
{
    if k > 0 {
        if j == k {
            lemma_strs_size_mono(ss, j - 1, k - 1);
        } else {
            lemma_strs_size_mono(ss, j, k - 1);
        }
    }
}

/// Address of the 16-byte random seed: the topmost object on the stack.
pub open spec fn random_pos(top: int) -> int {
    top - 16
}

/// Address of environment string `i`: the strings are pushed in order below
/// the random seed.
pub open spec fn env_pos(envs: Seq<Seq<u8>>, top: int, i: int) -> int {
    random_pos(top) - strs_size(envs, i + 1)
}

/// Lowest address of the environment strings, where the argument strings
/// start being pushed.
pub open spec fn arg_block_top(envs: Seq<Seq<u8>>, top: int) -> int {
    random_pos(top) - strs_size(envs, envs.len() as int)
}

/// Address of argument string `i`.
pub open spec fn arg_pos(args: Seq<Seq<u8>>, envs: Seq<Seq<u8>>, top: int, i: int) -> int {
    arg_block_top(envs, top) - strs_size(args, i + 1)
}

/// Stack pointer after all strings and the eight bytes of fixed padding: the
/// point that is then aligned down to 16 bytes.
pub open spec fn sp_before_align(args: Seq<Seq<u8>>, envs: Seq<Seq<u8>>, top: int) -> int {
    arg_block_top(envs, top) - strs_size(args, args.len() as int) - 8
}

/// Width of the alignment padding.
pub open spec fn stack_pad(args: Seq<Seq<u8>>, envs: Seq<Seq<u8>>, top: int) -> int {
    sp_before_align(args, envs, top) % 16
}

/// Stack pointer at the point the auxiliary vector is pushed; always a
/// multiple of 16.
pub open spec fn sp_aligned(args: Seq<Seq<u8>>, envs: Seq<Seq<u8>>, top: int) -> int {
    sp_before_align(args, envs, top) - stack_pad(args, envs, top)
}

/// The final stack pointer: below the aligned point lie the auxiliary
/// vector, a null, the environment-pointer array, a null, the
/// argument-pointer array, and the argument count.
pub open spec fn stack_sp(args: Seq<Seq<u8>>, envs: Seq<Seq<u8>>, n_auxv: int, top: int) -> int {
    sp_aligned(args, envs, top) - 16 * n_auxv - 24 - 8 * envs.len() - 8 * args.len()
}

/// Total size of the built stack region.
pub open spec fn stack_total(args: Seq<Seq<u8>>, envs: Seq<Seq<u8>>, n_auxv: int, top: int) -> int {
    top - stack_sp(args, envs, n_auxv, top)
}

/// One auxiliary entry after back-patching: the random-bytes entry receives
/// the seed's address, the program-name entry the first argument's address,
/// and every other entry is kept.
pub open spec fn patch_entry(e: AuxvEntry, rnd: usize, execfn: usize) -> AuxvEntry {
    if e.auxv_type is RANDOM {
        AuxvEntry { auxv_type: e.auxv_type, auxv_val: rnd }
    } else if e.auxv_type is EXECFN {
        AuxvEntry { auxv_type: e.auxv_type, auxv_val: execfn }
    } else {
        e
    }
}

/// The auxiliary vector after back-patching, entry order untouched.
pub open spec fn patch_auxv(s: Seq<AuxvEntry>, rnd: usize, execfn: usize) -> Seq<AuxvEntry> {
    Seq::new(s.len(), |i: int| patch_entry(s[i], rnd, execfn))
}

/// The byte sequences of a list of byte vectors.
pub open spec fn byte_views(v: Seq<Vec<u8>>) -> Seq<Seq<u8>> {
    Seq::new(v.len(), |i: int| v[i]@)
}

/// The addresses of the environment strings.
pub open spec fn env_positions(envs: Seq<Seq<u8>>, top: int) -> Seq<usize> {
    Seq::new(envs.len(), |i: int| env_pos(envs, top, i) as usize)
}

/// The addresses of the argument strings.
pub open spec fn arg_positions(args: Seq<Seq<u8>>, envs: Seq<Seq<u8>>, top: int) -> Seq<usize> {
    Seq::new(args.len(), |i: int| arg_pos(args, envs, top, i) as usize)
}

/// The first `j` pointers of `ps`, as stack bytes.
pub open spec fn ptrs_bytes(ps: Seq<usize>, j: int) -> Seq<u8>
    decreases j,
{
    if j <= 0 {
        Seq::empty()
    } else {
        ptrs_bytes(ps, j - 1) + le8(ps[j - 1] as int)
    }
}

/// The first `j` auxiliary entries as stack bytes: each entry is its type
/// number followed by its value.
pub open spec fn auxv_bytes(s: Seq<AuxvEntry>, j: int) -> Seq<u8>
    decreases j,
{
    if j <= 0 {
        Seq::empty()
    } else {
        auxv_bytes(s, j - 1) + le8(s[j - 1].auxv_type.tag_spec() as int) + le8(
            s[j - 1].auxv_val as int,
        )
    }
}

/// The strings `ss[i..]` as they lie in memory: the last string lowest, the
/// one at `i` highest, each null-terminated.
pub open spec fn strings_suffix(ss: Seq<Seq<u8>>, i: int) -> Seq<u8>
    decreases ss.len() - i,
{
    if i < 0 || i >= ss.len() {
        Seq::empty()
    } else {
        strings_suffix(ss, i + 1) + cstr(ss[i])
    }
}

/// The 16-byte seed placed at the very top of the stack.
pub open spec fn random_seed() -> Seq<u8> {
    seq![
        0x30u8,
        0x31u8,
        0x32u8,
        0x33u8,
        0x34u8,
        0x35u8,
        0x36u8,
        0x37u8,
        0x38u8,
        0x39u8,
        0x61u8,
        0x62u8,
        0x63u8,
        0x64u8,
        0x65u8,
        0x66u8,
    ]
}

/// The entire built stack, from the final stack pointer (index 0) up to
/// `top`: the argument count, the null-terminated argument- and
/// environment-pointer arrays, the back-patched auxiliary vector, the
/// alignment and fixed padding, the argument and environment strings, and
/// the random seed.
pub open spec fn stack_image(
    args: Seq<Seq<u8>>,
    envs: Seq<Seq<u8>>,
    auxv: Seq<AuxvEntry>,
    top: int,
) -> Seq<u8> {
    let rnd = random_pos(top) as usize;
    let ef = arg_pos(args, envs, top, 0) as usize;
    let patched = patch_auxv(auxv, rnd, ef);
    le8(args.len() as int) + ptrs_bytes(arg_positions(args, envs, top), args.len() as int) + le8(0)
        + ptrs_bytes(env_positions(envs, top), envs.len() as int) + le8(0) + auxv_bytes(
        patched,
        auxv.len() as int,
    ) + zeros(stack_pad(args, envs, top) + 8) + strings_suffix(args, 0) + strings_suffix(envs, 0)
        + random_seed()
}

/// A pointer array of `j` entries takes `8 * j` bytes.
pub proof fn lemma_ptrs_bytes_len(ps: Seq<usize>, j: int)
    requires
        j >= 0,
    ensures
        ptrs_bytes(ps, j).len() == 8 * j,
    decreases j,
{
    if j > 0 {
        lemma_ptrs_bytes_len(ps, j - 1);
    }
}

/// `j` auxiliary entries take `16 * j` bytes.
pub proof fn lemma_auxv_bytes_len(s: Seq<AuxvEntry>, j: int)
    requires
        j >= 0,
    ensures
        auxv_bytes(s, j).len() == 16 * j,
    decreases j,
{
    if j > 0 {
        lemma_auxv_bytes_len(s, j - 1);
    }
}

/// The strings `ss[i..]` take exactly their sizes-with-terminators.
pub proof fn lemma_strings_suffix_len(ss: Seq<Seq<u8>>, i: int)
    requires
        0 <= i <= ss.len(),
    ensures
        strings_suffix(ss, i).len() == strs_size(ss, ss.len() as int) - strs_size(ss, i),
    decreases ss.len() - i,
{
    if i < ss.len() {
        lemma_strings_suffix_len(ss, i + 1);
    }
}

/// Appends the eight little-endian bytes of `v`.
fn push_usize_le(data: &mut Vec<u8>, v: usize)
    ensures
        final(data)@ == old(data)@ + le8(v as int),
{
    let w = v as u64;
    data.push((w % 0x100) as u8);
    data.push(((w / 0x100) % 0x100) as u8);
    data.push(((w / 0x10000) % 0x100) as u8);
    data.push(((w / 0x1000000) % 0x100) as u8);
    data.push(((w / 0x100000000) % 0x100) as u8);
    data.push(((w / 0x10000000000) % 0x100) as u8);
    data.push(((w / 0x1000000000000) % 0x100) as u8);
    data.push(((w / 0x100000000000000) % 0x100) as u8);
    proof {
        assert(data@ =~= old(data)@ + le8(v as int));
    }
}

/// The little-endian value of the eight bytes written for `v` is `v` again:
/// what the new process reads back is what the builder wrote.
pub proof fn lemma_le8_roundtrip(v: u64)
    ensures
        crate::elf::le64_at(le8(v as int), 0) == v,
{
    assert(v % 0x100 + 0x100 * ((v / 0x100) % 0x100) + 0x10000 * ((v / 0x10000) % 0x100)
        + 0x1000000 * ((v / 0x1000000) % 0x100) + 0x100000000 * ((v / 0x100000000) % 0x100)
        + 0x10000000000 * ((v / 0x10000000000) % 0x100) + 0x1000000000000 * ((v / 0x1000000000000)
        % 0x100) + 0x100000000000000 * ((v / 0x100000000000000) % 0x100) == v) by (bit_vector);
}

/// With the auxiliary vector pushed at a 16-byte-aligned point, the final
/// stack pointer is 16-byte aligned exactly when the argument and
/// environment counts have odd sum: below the aligned point lie the
/// 16-byte auxiliary entries and `3 + args + envs` eight-byte words.
pub proof fn lemma_stack_pointer_aligned(
    args: Seq<Seq<u8>>,
    envs: Seq<Seq<u8>>,
    n_auxv: int,
    top: int,
)
    requires
        (args.len() + envs.len()) % 2 == 1,
    ensures
        stack_sp(args, envs, n_auxv, top) % 16 == 0,
{
    let sp0 = sp_before_align(args, envs, top);
    let spa = sp_aligned(args, envs, top);
    vstd::arithmetic::div_mod::lemma_fundamental_div_mod(sp0, 16);
    assert(spa == 16 * (sp0 / 16));
    let count: int = (args.len() + envs.len()) as int;
    vstd::arithmetic::div_mod::lemma_fundamental_div_mod(count, 2);
    let m = count / 2;
    let k = sp0 / 16 - n_auxv - m - 2;
    assert(stack_sp(args, envs, n_auxv, top) == 16 * k) by {
        assert(8 * count == 16 * m + 8);
    }
    assert((16 * k) % 16 == 0) by (nonlinear_arith);
}

/// Appends all bytes of `s`.
fn push_bytes(data: &mut Vec<u8>, s: &Vec<u8>)
    ensures
        final(data)@ == old(data)@ + s@,
{
    let mut b: usize = 0;
    while b < s.len()
        invariant
            b <= s@.len(),
            data@ == old(data)@ + s@.subrange(0, b as int),
        decreases s@.len() - b,
    {
        data.push(s[b]);
        proof {
            assert(data@ =~= old(data)@ + s@.subrange(0, b + 1));
        }
        b = b + 1;
    }
    proof {
        assert(data@ =~= old(data)@ + s@);
    }
}

/// The stack addresses of the strings `ss`, pushed in order downward from
/// `block_top`; also returns the address below the last string.
#[verifier::loop_isolation(false)]
fn string_positions(ss: &Vec<Vec<u8>>, block_top: usize) -> (r: (Vec<usize>, usize))
    requires
        block_top >= strs_size(byte_views(ss@), ss@.len() as int),
    ensures
        r.0@.len() == ss@.len(),
        forall|j: int|
            0 <= j < ss@.len() ==> r.0@[j] == block_top - strs_size(byte_views(ss@), j + 1),
        r.1 == block_top - strs_size(byte_views(ss@), ss@.len() as int),
{
    let ghost ssv = byte_views(ss@);
    let mut cursp: usize = block_top;
    let mut ptrs: Vec<usize> = Vec::new();
    let mut i: usize = 0;
    while i < ss.len()
        invariant
            i <= ss@.len(),
            cursp == block_top - strs_size(ssv, i as int),
            ptrs@.len() == i,
            forall|j: int| 0 <= j < i ==> ptrs@[j] == block_top - strs_size(ssv, j + 1),
        decreases ss@.len() - i,
    {
        proof {
            lemma_strs_size_mono(ssv, i + 1, ssv.len() as int);
            assert(ssv[i as int] == ss@[i as int]@);
        }
        let l = ss[i].len();
        cursp = cursp - l - 1;
        ptrs.push(cursp);
        i = i + 1;
    }
    (ptrs, cursp)
}

/// Back-patches the random-bytes and program-name entries in place.
#[verifier::loop_isolation(false)]
fn patch_entries(auxv: &mut Vec<AuxvEntry>, rnd: usize, execfn: usize)
    ensures
        final(auxv)@ == patch_auxv(old(auxv)@, rnd, execfn),
{
    let mut k: usize = 0;
    while k < auxv.len()
        invariant
            k <= auxv@.len(),
            auxv@.len() == old(auxv)@.len(),
            forall|j: int| 0 <= j < k ==> auxv@[j] == patch_entry(old(auxv)@[j], rnd, execfn),
            forall|j: int| k <= j < auxv@.len() ==> auxv@[j] == old(auxv)@[j],
        decreases auxv@.len() - k,
    {
        let e = auxv[k];
        match e.get_type() {
            AuxvType::RANDOM => {
                auxv.set(k, AuxvEntry { auxv_type: e.auxv_type, auxv_val: rnd });
            },
            AuxvType::EXECFN => {
                auxv.set(k, AuxvEntry { auxv_type: e.auxv_type, auxv_val: execfn });
            },
            _ => {},
        }
        k = k + 1;
    }
    proof {
        assert(auxv@ =~= patch_auxv(old(auxv)@, rnd, execfn));
    }
}

/// Appends a pointer array.
#[verifier::loop_isolation(false)]
fn push_ptrs(data: &mut Vec<u8>, ptrs: &Vec<usize>)
    ensures
        final(data)@ == old(data)@ + ptrs_bytes(ptrs@, ptrs@.len() as int),
{
    let mut j: usize = 0;
    while j < ptrs.len()
        invariant
            j <= ptrs@.len(),
            data@ == old(data)@ + ptrs_bytes(ptrs@, j as int),
        decreases ptrs@.len() - j,
    {
        push_usize_le(data, ptrs[j]);
        proof {
            assert(data@ =~= old(data)@ + ptrs_bytes(ptrs@, j + 1));
        }
        j = j + 1;
    }
}

/// Appends the auxiliary vector, each entry as its type number then its
/// value.
#[verifier::loop_isolation(false)]
fn push_auxv(data: &mut Vec<u8>, auxv: &Vec<AuxvEntry>)
    ensures
        final(data)@ == old(data)@ + auxv_bytes(auxv@, auxv@.len() as int),
{
    let mut k: usize = 0;
    while k < auxv.len()
        invariant
            k <= auxv@.len(),
            data@ == old(data)@ + auxv_bytes(auxv@, k as int),
        decreases auxv@.len() - k,
    {
        let e = auxv[k];
        push_usize_le(data, e.get_type().tag());
        push_usize_le(data, e.value());
        proof {
            assert(data@ =~= old(data)@ + auxv_bytes(auxv@, k + 1));
        }
        k = k + 1;
    }
}

/// Appends `n` zero bytes.
#[verifier::loop_isolation(false)]
fn push_zeros(data: &mut Vec<u8>, n: usize)
    ensures
        final(data)@ == old(data)@ + zeros(n as int),
{
    let mut z: usize = 0;
    while z < n
        invariant
            z <= n,
            data@ == old(data)@ + zeros(z as int),
        decreases n - z,
    {
        data.push(0u8);
        proof {
            assert(data@ =~= old(data)@ + zeros(z + 1));
        }
        z = z + 1;
    }
}

/// Appends the strings in descending index order, each null-terminated: the
/// last string ends up at the lowest address.
#[verifier::loop_isolation(false)]
fn push_strings_desc(data: &mut Vec<u8>, ss: &Vec<Vec<u8>>)
    ensures
        final(data)@ == old(data)@ + strings_suffix(byte_views(ss@), 0),
{
    let ghost ssv = byte_views(ss@);
    let mut si: usize = ss.len();
    while si > 0
        invariant
            si <= ss@.len(),
            data@ == old(data)@ + strings_suffix(ssv, si as int),
        decreases si,
    {
        si = si - 1;
        proof {
            assert(ssv[si as int] == ss@[si as int]@);
        }
        push_bytes(data, &ss[si]);
        data.push(0u8);
        proof {
            assert(data@ =~= old(data)@ + strings_suffix(ssv, si as int));
        }
    }
}

/// Appends the 16-byte random seed.
fn push_random_seed(data: &mut Vec<u8>)
    ensures
        final(data)@ == old(data)@ + random_seed(),
{
    data.push(0x30);
    data.push(0x31);
    data.push(0x32);
    data.push(0x33);
    data.push(0x34);
    data.push(0x35);
    data.push(0x36);
    data.push(0x37);
    data.push(0x38);
    data.push(0x39);
    data.push(0x61);
    data.push(0x62);
    data.push(0x63);
    data.push(0x64);
    data.push(0x65);
    data.push(0x66);
    proof {
        assert(data@ =~= old(data)@ + random_seed());
    }
}

/// Builds the stack region below `sp`, the top of the stack: computes every
/// string's address, back-patches the auxiliary vector, and lays the region
/// out from the final stack pointer upward.
#[verifier::rlimit(60)]
fn init_stack(
    args: &Vec<Vec<u8>>,
    envs: &Vec<Vec<u8>>,
    auxv: &mut Vec<AuxvEntry>,
    sp: usize,
) -> (stack: Vec<u8>)
    requires
        args@.len() >= 1,
        stack_sp(byte_views(args@), byte_views(envs@), old(auxv)@.len() as int, sp as int) >= 0,
    ensures
        stack@ == stack_image(byte_views(args@), byte_views(envs@), old(auxv)@, sp as int),
        stack@.len() == stack_total(
            byte_views(args@),
            byte_views(envs@),
            old(auxv)@.len() as int,
            sp as int,
        ),
        final(auxv)@ == patch_auxv(
            old(auxv)@,
            random_pos(sp as int) as usize,
            arg_pos(byte_views(args@), byte_views(envs@), sp as int, 0) as usize,
        ),
        stack@.subrange(0, 8) == le8(args@.len() as int),
{
    let ghost argsv = byte_views(args@);
    let ghost envsv = byte_views(envs@);
    let ghost t = sp as int;
    let ghost n_auxv = auxv@.len() as int;
    let ghost auxv0 = auxv@;

    proof {
        lemma_strs_size_mono(envsv, 0, envsv.len() as int);
        lemma_strs_size_mono(argsv, 0, argsv.len() as int);
        assert(0 <= stack_pad(argsv, envsv, t) < 16);
    }

    let string_top = sp - 16;
    let (env_ptrs, env_end) = string_positions(envs, string_top);
    let (arg_ptrs, arg_end) = string_positions(args, env_end);
    proof {
        assert(env_ptrs@ =~= env_positions(envsv, t));
        assert(arg_ptrs@ =~= arg_positions(argsv, envsv, t));
    }

    // Eight bytes of fixed padding, then alignment down to 16 bytes.
    let below_pad = arg_end - 8;
    let pad = below_pad % 16;
    let aligned = below_pad - pad;
    assert(aligned % 16 == 0);
    proof {
        assert(below_pad == sp_before_align(argsv, envsv, t));
        assert(pad == stack_pad(argsv, envsv, t));
        assert(aligned == sp_aligned(argsv, envsv, t));
    }

    // Back-patch the random-seed and program-name entries.
    let rnd_pos = sp - 16;
    let argv0 = arg_ptrs[0];
    proof {
        assert(argv0 == arg_pos(argsv, envsv, t, 0));
    }
    patch_entries(auxv, rnd_pos, argv0);

    // Lay the region out from the final stack pointer upward.
    let mut data: Vec<u8> = Vec::new();
    push_usize_le(&mut data, args.len());
    let ghost p1 = le8(argsv.len() as int);
    push_ptrs(&mut data, &arg_ptrs);
    let ghost p2 = p1 + ptrs_bytes(arg_positions(argsv, envsv, t), argsv.len() as int);
    proof {
        assert(data@ =~= p2);
    }
    push_usize_le(&mut data, 0);
    let ghost p3 = p2 + le8(0);
    push_ptrs(&mut data, &env_ptrs);
    let ghost p4 = p3 + ptrs_bytes(env_positions(envsv, t), envsv.len() as int);
    proof {
        assert(data@ =~= p4);
    }
    push_usize_le(&mut data, 0);
    let ghost p5 = p4 + le8(0);
    push_auxv(&mut data, auxv);
    let ghost patched = patch_auxv(auxv0, rnd_pos, argv0);
    let ghost p6 = p5 + auxv_bytes(patched, n_auxv);
    proof {
        assert(data@ =~= p6);
    }
    push_zeros(&mut data, pad + 8);
    let ghost p7 = p6 + zeros(stack_pad(argsv, envsv, t) + 8);
    proof {
        assert(data@ =~= p7);
    }
    push_strings_desc(&mut data, args);
    let ghost p8 = p7 + strings_suffix(argsv, 0);
    push_strings_desc(&mut data, envs);
    let ghost p9 = p8 + strings_suffix(envsv, 0);
    proof {
        assert(data@ =~= p9);
    }
    push_random_seed(&mut data);
    proof {
        assert(data@ =~= stack_image(argsv, envsv, auxv0, t));
        lemma_ptrs_bytes_len(arg_positions(argsv, envsv, t), argsv.len() as int);
        lemma_ptrs_bytes_len(env_positions(envsv, t), envsv.len() as int);
        lemma_auxv_bytes_len(patched, n_auxv);
        lemma_strings_suffix_len(argsv, 0);
        lemma_strings_suffix_len(envsv, 0);
        assert(data@.len() == stack_total(argsv, envsv, n_auxv, t));
        assert(data@.subrange(0, 8) =~= le8(argsv.len() as int));
    }
    data
}

/// Generates the initial stack region for a new process.
///
/// `stack_base` is the lowest address of the stack and `stack_size` its
/// size; the region is laid out downward from `stack_base + stack_size`.
/// The returned bytes run from the final stack pointer — whose first eight
/// bytes hold the argument count — up to the top of the stack, and the
/// random-bytes and program-name auxiliary entries are back-patched with the
/// addresses of the seed and of the first argument string.
pub fn app_stack_region(
    args: &Vec<Vec<u8>>,
    envs: &Vec<Vec<u8>>,
    auxv: &mut Vec<AuxvEntry>,
    stack_base: usize,
    stack_size: usize,
) -> (stack: Vec<u8>)
    requires
        args@.len() >= 1,
        stack_base + stack_size <= usize::MAX,
        stack_sp(
            byte_views(args@),
            byte_views(envs@),
            old(auxv)@.len() as int,
            stack_base + stack_size,
        ) >= 0,
    ensures
        stack@ == stack_image(
            byte_views(args@),
            byte_views(envs@),
            old(auxv)@,
            stack_base + stack_size,
        ),
        stack@.len() == stack_total(
            byte_views(args@),
            byte_views(envs@),
            old(auxv)@.len() as int,
            stack_base + stack_size,
        ),
        final(auxv)@ == patch_auxv(
            old(auxv)@,
            random_pos(stack_base + stack_size) as usize,
            arg_pos(byte_views(args@), byte_views(envs@), stack_base + stack_size, 0) as usize,
        ),
        stack@.subrange(0, 8) == le8(args@.len() as int),
{
    let ustack_bottom = stack_base;
    let ustack_top = ustack_bottom + stack_size;
    init_stack(args, envs, auxv, ustack_top)
}

/// The first eight bytes of a built stack, read back as a little-endian
/// integer, are the argument count.
pub proof fn lemma_stack_starts_with_argc(
    args: Seq<Seq<u8>>,
    envs: Seq<Seq<u8>>,
    auxv: Seq<AuxvEntry>,
    top: int,
)
    requires
        args.len() <= u64::MAX,
    ensures
        crate::elf::le64_at(stack_image(args, envs, auxv, top), 0) == args.len(),
{
    let img = stack_image(args, envs, auxv, top);
    let head = le8(args.len() as int);
    assert(forall|i: int| 0 <= i < 8 ==> img[i] == head[i]);
    lemma_le8_roundtrip(args.len() as u64);
}

} // verus!
