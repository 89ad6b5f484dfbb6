//! The random number generator of a run, and the few random draws the game makes.
//! Everything random goes through these functions; the game logic that uses their
//! results is verified for every value they may return.

use vstd::prelude::*;

use rand::rngs::StdRng;
use rand::seq::SliceRandom;
use rand::Rng;

verus! {

/// The seeded generator of `rand`.
#[verifier::external_type_specification]
#[verifier::external_body]
pub struct ExStdRng(StdRng);

/// A uniform draw from `0..n` (`rand`'s `Rng::gen_range`); the contract states only the range,
/// since the value depends on the generator's state.
#[verifier::external_body]
pub(crate) fn gen_below(rng: &mut StdRng, n: usize) -> (r: usize)
    requires
        n > 0,
    ensures
        r < n,
{
    rng.gen_range(0..n)
}

/// A random element of `items` (`rand`'s `SliceRandom::choose`): none exactly when `items`
/// is empty, otherwise one of its elements; which one depends on the generator's state.
#[verifier::external_body]
pub(crate) fn choose_from<T: Copy>(rng: &mut StdRng, items: &[T]) -> (r: Option<T>)
    ensures
        r.is_none() <==> items@.len() == 0,
        r matches Some(x) ==> items@.contains(x),
{
    items.choose(rng).copied()
}

/// `amount` distinct indices from `0..length` in random order (`rand`'s `seq::index::sample`,
/// which panics when `amount > length`); which indices depends on the generator's state.
#[verifier::external_body]
pub(crate) fn sample_indices(rng: &mut StdRng, length: usize, amount: usize) -> (r: Vec<usize>)
    requires
        amount <= length,
    ensures
        r@.len() == amount,
        forall|i: int| 0 <= i < amount ==> #[trigger] r@[i] < length,
        forall|i: int, j: int| 0 <= i < j < amount ==> r@[i] != r@[j],
{
    rand::seq::index::sample(rng, length, amount).into_vec()
}

/// Shuffles `v` in place (`rand`'s `SliceRandom::shuffle`): the result holds the same
/// elements, each as often as before; their order depends on the generator's state.
#[verifier::external_body]
pub(crate) fn shuffle_vec<T>(rng: &mut StdRng, v: &mut Vec<T>)
    ensures
        final(v)@.len() == old(v)@.len(),
        final(v)@.to_multiset() == old(v)@.to_multiset(),
{
    v.shuffle(rng)
}

} // verus!
