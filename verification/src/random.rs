//! The source of random draws that the caller hands to the generators, by
//! way of `rand`.

use rand::distributions::{Distribution, Uniform, WeightedError, WeightedIndex};
use rand::rngs::{StdRng, ThreadRng};
use rand::{Rng, SeedableRng};
use vstd::prelude::*;

verus! {

#[verifier::external_type_specification]
#[verifier::external_body]
pub struct ExStdRng(StdRng);

#[verifier::external_type_specification]
#[verifier::external_body]
pub struct ExThreadRng(ThreadRng);

#[verifier::external_type_specification]
#[verifier::external_body]
pub struct ExWeightedError(WeightedError);

/// A weighted choice among indices, held as `rand`'s `WeightedIndex<u32>`.
/// The type stays closed to the verifier, which does not take the bounds of
/// `WeightedIndex`; `weights_of` names the weights it was made with.
#[verifier::external_body]
pub struct WeightedChoice {
    inner: WeightedIndex<u32>,
}

/// The weights that a weighted choice was made with, one per index.
pub uninterp spec fn weights_of(choice: WeightedChoice) -> Seq<u32>;

/// The sum of the weights.
pub open spec fn total_weight(weights: Seq<u32>) -> nat
    decreases weights.len(),
{
    if weights.len() == 0 {
        0
    } else {
        total_weight(weights.drop_last()) + weights.last() as nat
    }
}

/// Why no weighted choice can be made of some weights.
#[derive(Clone, Copy, Debug, PartialEq, Eq, Structural)]
pub enum WeightError {
    /// There are no weights.
    NoItem,
    /// Some weight is zero.
    InvalidWeight,
    /// The weights add up to more than `u32::MAX`.
    Overflow,
}

/// Every weight is positive.
pub open spec fn all_positive(weights: Seq<u32>) -> bool {
    forall|i: int| 0 <= i < weights.len() ==> #[trigger] weights[i] > 0
}

/// Positive weights, if there are any, add up to more than nothing.
pub proof fn lemma_total_weight_positive(weights: Seq<u32>)
    requires
        weights.len() > 0,
        all_positive(weights),
    ensures
        total_weight(weights) > 0,
{
    assert(weights.last() == weights[weights.len() - 1]);
}

/// The sum of the first weights is no more than the sum of all.
pub proof fn lemma_total_weight_of_prefix(weights: Seq<u32>, n: int)
    requires
        0 <= n <= weights.len(),
    ensures
        total_weight(weights.take(n)) <= total_weight(weights),
    decreases weights.len() - n,
{
    if n < weights.len() {
        lemma_total_weight_of_prefix(weights, n + 1);
        assert(weights.take(n + 1).drop_last() =~= weights.take(n));
    } else {
        assert(weights.take(n) =~= weights);
    }
}

/// The source of the random draws: a generator that is a function of its
/// seed, or the generator that the system seeds for the thread. The caller
/// chooses one and hands it to every generation call. What a seeded source
/// gives is determined by its generator, draw after draw; of the system
/// source only what holds of every draw is known.
pub enum RandomSource {
    Seeded(StdRng),
    System(ThreadRng),
}

/// The generator that `SeedableRng::seed_from_u64` makes of a seed, before
/// any draw.
pub uninterp spec fn generator_of_seed(seed: u64) -> StdRng;

/// `SeedableRng::seed_from_u64` for `StdRng`. Believed of it: the generator
/// depends on the seed alone. The crate expands the seed by a fixed
/// recurrence into the key of the generator and reads nothing else.
#[verifier::external_body]
fn seeded_generator(seed: u64) -> (rng: StdRng)
    ensures
        rng == generator_of_seed(seed),
{
    StdRng::seed_from_u64(seed)
}

/// What `Rng::gen_range` on `0..bound` gives with a seeded generator in this
/// state: the index drawn, and the generator after the draw. The crate draws
/// a `usize`, so the draw is the same on all machines of one word size and
/// may differ between a 32-bit and a 64-bit one.
pub uninterp spec fn seeded_range_draw(rng: StdRng, bound: usize) -> (usize, StdRng);

/// What one sample of `Uniform::from(0..bound)` gives with a seeded generator
/// in this state: the index drawn, and the generator after the draw. The
/// crate draws a `usize`, so the sample is the same on all machines of one
/// word size and may differ between a 32-bit and a 64-bit one.
pub uninterp spec fn seeded_uniform_draw(rng: StdRng, bound: usize) -> (usize, StdRng);

/// What one sample of the `WeightedIndex` over these weights gives with a
/// seeded generator in this state: the index drawn, and the generator after
/// the draw.
pub uninterp spec fn seeded_weighted_draw(rng: StdRng, weights: Seq<u32>) -> (usize, StdRng);

/// `rand::thread_rng`. Nothing is claimed of the generator. The crate seeds
/// it from the system at the thread's first use and panics there if the
/// system gives no entropy.
pub assume_specification[ rand::thread_rng ]() -> ThreadRng;

/// `WeightedIndex::new` over the weights. Believed of it, for unsigned
/// weights whose sum the crate can add up without overflow: it fails exactly
/// on no weights and on weights that are all zero, and otherwise holds the
/// weights it was given.
#[verifier::external_body]
fn weighted_choice(weights: &Vec<u32>) -> (choice: Result<WeightedChoice, WeightedError>)
    requires
        total_weight(weights@) <= u32::MAX,
    ensures
        choice is Ok <==> total_weight(weights@) > 0,
        choice matches Ok(made) ==> weights_of(made) == weights@,
{
    match WeightedIndex::new(weights) {
        Ok(inner) => Ok(WeightedChoice { inner }),
        Err(e) => Err(e),
    }
}

/// `Rng::gen_range` on `0..bound` with a seeded generator. Believed of it:
/// the draw lies in the range, and the draw and the generator afterwards
/// depend on the generator before and on the bound alone. Empty ranges, on
/// which it panics, are left out.
#[verifier::external_body]
fn seeded_range_index(rng: &mut StdRng, bound: usize) -> (index: usize)
    requires
        bound > 0,
    ensures
        index < bound,
        (index, *final(rng)) == seeded_range_draw(*old(rng), bound),
{
    rng.gen_range(0..bound)
}

/// `Rng::gen_range` on `0..bound` with the system's generator. Believed of
/// it: the draw lies in the range. Empty ranges, on which it panics, are left
/// out. The generator reseeds itself from the system now and then and panics
/// if the system then gives no entropy, which no input causes.
#[verifier::external_body]
fn system_range_index(rng: &mut ThreadRng, bound: usize) -> (index: usize)
    requires
        bound > 0,
    ensures
        index < bound,
{
    rng.gen_range(0..bound)
}

/// One sample of `Uniform::from(0..bound)` with a seeded generator. Believed
/// of it: the sample lies in the range, and the sample and the generator
/// afterwards depend on the generator before and on the bound alone. Empty
/// ranges, on which making the distribution panics, are left out.
#[verifier::external_body]
fn seeded_uniform_index(rng: &mut StdRng, bound: usize) -> (index: usize)
    requires
        bound > 0,
    ensures
        index < bound,
        (index, *final(rng)) == seeded_uniform_draw(*old(rng), bound),
{
    Uniform::from(0..bound).sample(rng)
}

/// One sample of `Uniform::from(0..bound)` with the system's generator.
/// Believed of it: the sample lies in the range. Empty ranges, on which
/// making the distribution panics, are left out. The generator reseeds
/// itself from the system now and then and panics if the system then gives
/// no entropy, which no input causes.
#[verifier::external_body]
fn system_uniform_index(rng: &mut ThreadRng, bound: usize) -> (index: usize)
    requires
        bound > 0,
    ensures
        index < bound,
{
    Uniform::from(0..bound).sample(rng)
}

/// One sample of a `WeightedIndex` with a seeded generator. Believed of it:
/// the sample is the index of one of the weights, and that weight is not
/// zero; the sample and the generator afterwards depend on the generator
/// before and on the weights alone.
#[verifier::external_body]
fn seeded_weighted_index(rng: &mut StdRng, choice: &WeightedChoice) -> (index: usize)
    ensures
        index < weights_of(*choice).len(),
        weights_of(*choice)[index as int] > 0,
        (index, *final(rng)) == seeded_weighted_draw(*old(rng), weights_of(*choice)),
{
    choice.inner.sample(rng)
}

/// One sample of a `WeightedIndex` with the system's generator. Believed of
/// it: the sample is the index of one of the weights, and that weight is not
/// zero. The generator reseeds itself from the system now and then and
/// panics if the system then gives no entropy, which no input causes.
#[verifier::external_body]
fn system_weighted_index(rng: &mut ThreadRng, choice: &WeightedChoice) -> (index: usize)
    ensures
        index < weights_of(*choice).len(),
        weights_of(*choice)[index as int] > 0,
{
    choice.inner.sample(rng)
}

impl WeightedChoice {
    /// Makes the weighted choice among the indices of `weights`. There must
    /// be a weight, every weight must be positive, and their sum must fit in
    /// `u32`.
    pub fn new(weights: &Vec<u32>) -> (choice: Result<WeightedChoice, WeightError>)
        ensures
            match choice {
                Ok(made) => weights_of(made) == weights@ && weights@.len() > 0 && all_positive(
                    weights@,
                ) && total_weight(weights@) <= u32::MAX,
                Err(WeightError::NoItem) => weights@.len() == 0,
                Err(WeightError::InvalidWeight) => weights@.len() > 0 && !all_positive(weights@),
                Err(WeightError::Overflow) => all_positive(weights@) && total_weight(weights@)
                    > u32::MAX,
            },
    {
        if weights.len() == 0 {
            return Err(WeightError::NoItem);
        }
        let mut checked: usize = 0;
        while checked < weights.len()
            invariant
                checked <= weights@.len(),
                all_positive(weights@.take(checked as int)),
            decreases weights@.len() - checked,
        {
            if weights[checked] == 0 {
                return Err(WeightError::InvalidWeight);
            }
            checked = checked + 1;
        }
        proof {
            assert(weights@.take(checked as int) =~= weights@);
            lemma_total_weight_positive(weights@);
        }
        let mut total: u64 = 0;
        let mut i: usize = 0;
        while i < weights.len()
            invariant
                i <= weights@.len(),
                weights@.len() > 0,
                all_positive(weights@),
                total_weight(weights@) > 0,
                total == total_weight(weights@.take(i as int)),
                total <= u32::MAX,
            decreases weights@.len() - i,
        {
            proof {
                assert(weights@.take(i + 1).drop_last() =~= weights@.take(i as int));
                lemma_total_weight_of_prefix(weights@, i + 1);
            }
            total = total + weights[i] as u64;
            if total > u32::MAX as u64 {
                return Err(WeightError::Overflow);
            }
            i = i + 1;
        }
        proof {
            assert(weights@.take(i as int) =~= weights@);
        }
        Ok(weighted_choice(weights).expect("weights should be valid"))
    }
}

impl RandomSource {
    /// The seeded source for `seed`: it holds the generator that the seed
    /// gives, with no draw made yet, so that equal seeds give equal sources.
    pub fn seeded(seed: u64) -> (source: RandomSource)
        ensures
            source == RandomSource::Seeded(generator_of_seed(seed)),
    {
        RandomSource::Seeded(seeded_generator(seed))
    }

    /// The source that the system seeds for the current thread.
    pub fn system() -> (source: RandomSource)
        ensures
            source is System,
    {
        RandomSource::System(rand::thread_rng())
    }

    /// Draws an index below `bound`, as a single draw from a range. A seeded
    /// source gives the draw that its generator determines and goes on with
    /// the generator after it; the system source stays the system source.
    pub fn range_index(&mut self, bound: usize) -> (index: usize)
        requires
            bound > 0,
        ensures
            index < bound,
            match *old(self) {
                RandomSource::Seeded(rng) => index == seeded_range_draw(rng, bound).0
                    && *final(self) == RandomSource::Seeded(seeded_range_draw(rng, bound).1),
                RandomSource::System(_) => *final(self) is System,
            },
    {
        match self {
            RandomSource::Seeded(rng) => seeded_range_index(rng, bound),
            RandomSource::System(rng) => system_range_index(rng, bound),
        }
    }

    /// Draws an index below `bound`, as a sample of the uniform distribution
    /// on the range. A seeded source gives the sample that its generator
    /// determines and goes on with the generator after it; the system source
    /// stays the system source.
    pub fn uniform_index(&mut self, bound: usize) -> (index: usize)
        requires
            bound > 0,
        ensures
            index < bound,
            match *old(self) {
                RandomSource::Seeded(rng) => index == seeded_uniform_draw(rng, bound).0
                    && *final(self) == RandomSource::Seeded(seeded_uniform_draw(rng, bound).1),
                RandomSource::System(_) => *final(self) is System,
            },
    {
        match self {
            RandomSource::Seeded(rng) => seeded_uniform_index(rng, bound),
            RandomSource::System(rng) => system_uniform_index(rng, bound),
        }
    }

    /// Draws the index of one of the weights of `choice`; a weight of zero is
    /// never drawn. A seeded source gives the draw that its generator and the
    /// weights determine and goes on with the generator after it; the system
    /// source stays the system source.
    pub fn weighted_index(&mut self, choice: &WeightedChoice) -> (index: usize)
        ensures
            index < weights_of(*choice).len(),
            weights_of(*choice)[index as int] > 0,
            match *old(self) {
                RandomSource::Seeded(rng) => index == seeded_weighted_draw(
                    rng,
                    weights_of(*choice),
                ).0 && *final(self) == RandomSource::Seeded(
                    seeded_weighted_draw(rng, weights_of(*choice)).1,
                ),
                RandomSource::System(_) => *final(self) is System,
            },
    {
        match self {
            RandomSource::Seeded(rng) => seeded_weighted_index(rng, choice),
            RandomSource::System(rng) => system_weighted_index(rng, choice),
        }
    }
}

} // verus!
