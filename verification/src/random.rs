//! Where the chance in a draw comes from.
use rand::distributions::{Distribution, WeightedIndex};
use rand::rngs::ThreadRng;
use rand::Rng;
use vstd::prelude::*;

verus! {

/// The weights added up.
pub open spec fn total(weights: Seq<usize>) -> nat
    decreases weights.len(),
{
    if weights.len() == 0 {
        0
    } else {
        total(weights.drop_last()) + weights.last() as nat
    }
}

/// The first place that holds a weight above zero; the length where there is none.
pub open spec fn first_positive(weights: Seq<usize>) -> int
    decreases weights.len(),
{
    if weights.len() == 0 {
        0
    } else if weights[0] > 0 {
        0
    } else {
        1 + first_positive(weights.drop_first())
    }
}

/// Weights that add up to more than zero hold a weight above zero.
pub proof fn lemma_some_weight_positive(weights: Seq<usize>)
    requires
        total(weights) > 0,
    ensures
        exists|i: int| 0 <= i < weights.len() && weights[i] > 0,
    decreases weights.len(),
{
    if weights.last() == 0 {
        lemma_some_weight_positive(weights.drop_last());
        let i = choose|i: int| 0 <= i < weights.drop_last().len() && weights.drop_last()[i] > 0;
        assert(weights[i] > 0);
    } else {
        assert(weights[weights.len() - 1] > 0);
    }
}

/// One more weight adds itself to the total.
pub proof fn lemma_total_push(weights: Seq<usize>, weight: usize)
    ensures
        total(weights.push(weight)) == total(weights) + weight,
{
    assert(weights.push(weight).drop_last() =~= weights);
}

/// Something that makes the two random choices a draw needs.
///
/// A banner draws from whatever source it is handed, so a caller can put a source of
/// its own in the place of the thread's generator.
pub trait RandomSource {
    /// A place in `weights`, each place chosen in proportion to its weight: a place whose
    /// weight is zero is never chosen.
    fn weighted_index(&mut self, weights: &[usize]) -> (index: usize)
        requires
            0 < total(weights@) <= usize::MAX,
        ensures
            index < weights.len(),
            weights[index as int] > 0,
    ;

    /// A number below `bound`, each with the same chance.
    fn index_below(&mut self, bound: usize) -> (index: usize)
        requires
            bound > 0,
        ensures
            index < bound,
    ;
}

#[verifier::external_type_specification]
#[verifier::external_body]
pub struct ExThreadRng(rand::rngs::ThreadRng);

/// `rand::thread_rng`: a handle to the generator that the calling thread keeps for itself.
/// Nothing is claimed of the handle.
#[verifier::external_body]
fn thread_generator() -> ThreadRng {
    rand::thread_rng()
}

/// `rand::distributions::WeightedIndex::new` on the weights, then one
/// `Distribution::sample` of what it built.
///
/// `new` fails on an empty list and on weights that add up to zero, and its sum must fit:
/// these are left out. `sample` draws a number below the sum and returns the first place
/// at which the sum of the weights up to and including that place is above the number. So
/// the place is one of the list, and its weight is not zero. Which place it is depends on
/// the generator.
#[verifier::external_body]
fn sample_weighted(generator: &mut ThreadRng, weights: &[usize]) -> (index: usize)
    requires
        0 < total(weights@) <= usize::MAX,
    ensures
        index < weights.len(),
        weights[index as int] > 0,
{
    let distribution = WeightedIndex::new(weights.iter()).unwrap();
    distribution.sample(generator)
}

/// `rand::Rng::gen_range` on the range from zero up to, not including, `bound`.
///
/// It panics on an empty range, which is left out, and returns a number of the range.
/// Which number depends on the generator.
#[verifier::external_body]
fn sample_below(generator: &mut ThreadRng, bound: usize) -> (index: usize)
    requires
        bound > 0,
    ensures
        index < bound,
{
    generator.gen_range(0..bound)
}

/// The source that a banner draws from when it is handed no other: the generator that the
/// calling thread keeps for itself.
pub struct ThreadSource {
    generator: ThreadRng,
}

impl ThreadSource {
    /// A source on the calling thread's generator.
    pub fn new() -> Self {
        Self { generator: thread_generator() }
    }
}

impl RandomSource for ThreadSource {
    fn weighted_index(&mut self, weights: &[usize]) -> (index: usize) {
        sample_weighted(&mut self.generator, weights)
    }

    fn index_below(&mut self, bound: usize) -> (index: usize) {
        sample_below(&mut self.generator, bound)
    }
}

/// A source that answers with the numbers it was given, one after the other, and with zero
/// once they are used up: the same numbers give the same draws.
pub struct ScriptedSource {
    answers: Vec<usize>,
    next: usize,
}

impl View for ScriptedSource {
    type V = Seq<usize>;

    /// The numbers that are still to come.
    closed spec fn view(&self) -> Seq<usize> {
        self.answers@.skip(self.next as int)
    }
}

/// The number a source with these numbers to come answers with next.
pub open spec fn next_answer(coming: Seq<usize>) -> usize {
    if coming.len() > 0 {
        coming[0]
    } else {
        0
    }
}

/// What is still to come once the next number is used.
pub open spec fn after_answer(coming: Seq<usize>) -> Seq<usize> {
    if coming.len() > 0 {
        coming.drop_first()
    } else {
        coming
    }
}

impl ScriptedSource {
    /// The place of the next number is within the list, or just behind it.
    #[verifier::type_invariant]
    spec fn within(self) -> bool {
        self.next <= self.answers.len()
    }

    /// A source that answers with `answers`, from the first on.
    pub fn new(answers: Vec<usize>) -> (source: Self)
        ensures
            source@ == answers@,
    {
        Self { answers, next: 0 }
    }

    /// The next number, or zero when none is left.
    fn take(&mut self) -> (answer: usize)
        ensures
            answer == next_answer(old(self)@),
            final(self)@ == after_answer(old(self)@),
    {
        proof {
            use_type_invariant(&*self);
        }
        if self.next < self.answers.len() {
            let answer = self.answers[self.next];
            self.next += 1;
            assert(self@ =~= old(self)@.drop_first());
            answer
        } else {
            0
        }
    }
}

impl RandomSource for ScriptedSource {
    /// The next number where it is a place of `weights` with a weight above zero; the
    /// first such place where it is not.
    fn weighted_index(&mut self, weights: &[usize]) -> (index: usize)
        ensures
            final(self)@ == after_answer(old(self)@),
            index == if next_answer(old(self)@) < weights.len() && weights[next_answer(
                old(self)@,
            ) as int] > 0 {
                next_answer(old(self)@) as int
            } else {
                first_positive(weights@)
            },
    {
        let answer = self.take();
        if answer < weights.len() && weights[answer] > 0 {
            return answer;
        }
        proof {
            lemma_some_weight_positive(weights@);
            assert(weights@.skip(0) =~= weights@);
        }
        let mut index: usize = 0;
        while weights[index] == 0
            invariant
                index < weights.len(),
                exists|i: int| index <= i < weights.len() && weights[i] > 0,
                first_positive(weights@) == index + first_positive(weights@.skip(index as int)),
            decreases weights.len() - index,
        {
            assert(weights@.skip(index as int).drop_first() =~= weights@.skip(index + 1));
            index += 1;
        }
        index
    }

    /// The next number, taken modulo `bound`.
    fn index_below(&mut self, bound: usize) -> (index: usize)
        ensures
            final(self)@ == after_answer(old(self)@),
            index == next_answer(old(self)@) % bound,
    {
        self.take() % bound
    }
}

} // verus!
