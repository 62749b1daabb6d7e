//! Where drawn cells come from: the thread's random generator, or a
//! generator that is seeded from a string.

use rand::Rng;
use rand_pcg::Lcg128Xsl64;
use rand_seeder::Seeder;
use vstd::prelude::*;

verus! {

/// The `pcg64` generator of `rand_pcg`. Its state is hidden here; what is
/// known of a generator is said by `upcoming_index`.
#[verifier::external_type_specification]
#[verifier::external_body]
pub struct ExLcg128Xsl64(Lcg128Xsl64);

/// What a generator holds in store: the indices that it hands out, one after
/// another, when it is asked again and again for a uniform index below
/// `total`. Entry `ahead` is the answer to the request that follows `ahead`
/// others. A generator is a pure function of its state, so its answers are
/// fixed before they are asked for.
pub uninterp spec fn upcoming_index(rng: Lcg128Xsl64, total: u64, ahead: nat) -> u64;

/// The indices that a generator freshly seeded from the string `seed` hands
/// out when it is asked again and again for a uniform index below `total`.
pub uninterp spec fn seeded_index(seed: Seq<char>, total: u64, ahead: nat) -> u64;

/// Calls `rand_seeder::Seeder::from` on the string and `Seeder::make_rng` for a
/// `rand_pcg::Pcg64`. The seeder hashes the string's bytes with a fixed key
/// and fills the generator's state from the hash, so what the generator will
/// hand out depends on the string alone: that much is claimed, and nothing on
/// the values themselves.
#[verifier::external_body]
pub(crate) fn seeded_generator(seed: &str) -> (rng: Lcg128Xsl64)
    ensures
        forall|total: u64, ahead: nat| #[trigger]
            upcoming_index(rng, total, ahead) == seeded_index(seed@, total, ahead),
{
    Seeder::from(seed).make_rng()
}

/// Calls `rand::Rng::gen_range` on the generator with the range from zero up
/// to, and without, `total`; an empty range would panic. The answer lies in
/// the range, it is the one that the generator had in store, and the
/// generator moves on by one answer.
#[verifier::external_body]
pub(crate) fn next_index(rng: &mut Lcg128Xsl64, total: u64) -> (index: u64)
    requires
        total > 0,
    ensures
        index < total,
        index == upcoming_index(*old(rng), total, 0),
        forall|ahead: nat| #[trigger]
            upcoming_index(*final(rng), total, ahead) == upcoming_index(
                *old(rng),
                total,
                (ahead + 1) as nat,
            ),
{
    rng.gen_range(0..total)
}

/// Calls `rand::Rng::gen_range` on `rand::thread_rng()` with the range from
/// zero up to, and without, `total`; an empty range would panic. The answer
/// lies in the range; which one it is depends on chance.
#[verifier::external_body]
pub(crate) fn random_index(total: usize) -> (index: usize)
    requires
        total > 0,
    ensures
        index < total,
{
    rand::thread_rng().gen_range(0..total)
}

} // verus!
