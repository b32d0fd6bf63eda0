//! Deterministic input buffers for a measurement.
use vstd::prelude::*;

verus! {

/// The fixed ASCII buffer handed out for a requested size of zero, the text
/// `1234567890abcdefghijklmnopqrstuvwxyzABCDEFGHIJKLMNOPQRSTUVWXYZ`.
pub open spec fn test_vector() -> Seq<u8> {
    seq![
        49u8, 50, 51, 52, 53, 54, 55, 56, 57, 48, 97, 98, 99, 100, 101, 102, 103, 104,
        105, 106, 107, 108, 109, 110, 111, 112, 113, 114, 115, 116, 117, 118, 119, 120,
        121, 122, 65, 66, 67, 68, 69, 70, 71, 72, 73, 74, 75, 76, 77, 78, 79, 80, 81,
        82, 83, 84, 85, 86, 87, 88, 89, 90
    ]
}

/// The bytes of `len` successive draws from rand's `SmallRng` seeded with `seed`,
/// on a target whose pointers take `pointer_bytes` bytes: `SmallRng` picks its
/// algorithm by pointer width, so the bytes depend on it too.
pub uninterp spec fn small_rng_bytes(seed: u64, len: nat, pointer_bytes: nat) -> Seq<u8>;

/// The pointer size, in bytes, of the target the library is built for.
pub open spec fn target_pointer_bytes() -> nat {
    vstd::layout::size_of::<usize>()
}

/// The input buffer for a requested size and seed: the fixed test vector for
/// size zero whatever the seed, otherwise `size` pseudo-random bytes drawn from
/// a generator seeded with the seed widened to 64 bits. The same size and seed
/// give the same bytes on every target of one pointer width.
pub open spec fn input_bytes(size: nat, seed: u32) -> Seq<u8> {
    if size == 0 {
        test_vector()
    } else {
        small_rng_bytes(seed as u64, size, target_pointer_bytes())
    }
}

/// Fills `buffer` from a `SmallRng` seeded with `seed`.
/// Relies on rand's `SeedableRng::seed_from_u64` and `RngCore::fill_bytes` for
/// `rand::rngs::SmallRng`: a seeded generator is deterministic, and
/// `fill_bytes` overwrites every byte of the slice, whatever it held before.
/// Which generator `SmallRng` is depends on the target's pointer width alone.
#[verifier::external_body]
fn small_rng_fill(seed: u64, buffer: &mut Vec<u8>)
    ensures
        final(buffer)@ == small_rng_bytes(
            seed,
            old(buffer)@.len(),
            vstd::layout::size_of::<usize>(),
        ),
        final(buffer)@.len() == old(buffer)@.len(),
{
    let mut rng = <rand::rngs::SmallRng as rand::SeedableRng>::seed_from_u64(seed);
    rand::RngCore::fill_bytes(&mut rng, buffer.as_mut_slice());
}

/// The fixed test vector; size and seed play no part.
pub fn init_test_vec(_size: usize, _seed: u32) -> (r: Vec<u8>)
    ensures
        r@ == test_vector(),
{
    let r: Vec<u8> = vec![
        49u8, 50, 51, 52, 53, 54, 55, 56, 57, 48, 97, 98, 99, 100, 101, 102, 103, 104,
        105, 106, 107, 108, 109, 110, 111, 112, 113, 114, 115, 116, 117, 118, 119, 120,
        121, 122, 65, 66, 67, 68, 69, 70, 71, 72, 73, 74, 75, 76, 77, 78, 79, 80, 81,
        82, 83, 84, 85, 86, 87, 88, 89, 90
    ];
    proof {
        assert(r@ =~= test_vector());
    }
    r
}

/// The input buffer for `size` and `seed`.
pub fn init_vec(size: usize, seed: u32) -> (r: Vec<u8>)
    ensures
        r@ == input_bytes(size as nat, seed),
        size > 0 ==> r@.len() == size,
{
    if size == 0 {
        return init_test_vec(size, seed);
    }
    let mut buffer: Vec<u8> = vec![0u8; size];
    small_rng_fill(seed as u64, &mut buffer);
    buffer
}

/// On one target, a buffer depends on the requested size and the seed alone: two
/// requests with the same non-zero size and seed give the same `size` bytes.
pub proof fn lemma_input_reproducible(size: nat, seed: u32, other_size: nat, other_seed: u32)
    requires
        size > 0,
        size == other_size,
        seed == other_seed,
    ensures
        input_bytes(size, seed) == input_bytes(other_size, other_seed),
        input_bytes(size, seed) == small_rng_bytes(seed as u64, size, target_pointer_bytes()),
{
}

/// A request for size zero gives the same fixed buffer for every seed.
pub proof fn lemma_empty_request_fixed(seed: u32, other_seed: u32)
    ensures
        input_bytes(0, seed) == input_bytes(0, other_seed),
        input_bytes(0, seed) == test_vector(),
        test_vector().len() == 62,
{
}

} // verus!
