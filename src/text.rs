use vstd::prelude::*;
use rand::Rng;
use rand::rngs::ThreadRng;
use crate::word::{glyphs, Character, Word};

verus! {

/// rand's per-thread generator, carried through to `draw_index` unopened.
#[verifier::external_type_specification]
#[verifier::external_body]
pub struct ExThreadRng(ThreadRng);

/// Relies on rand's Rng::gen_range over `0..bound`: a value in that range,
/// for a range that is not empty (on an empty one it panics).
#[verifier::external_body]
fn draw_index(rng: &mut ThreadRng, bound: usize) -> (r: usize)
    requires
        bound > 0,
    ensures
        r < bound,
{
    rng.gen_range(0..bound)
}

/// Fresh words for the corpus entries at the given positions, in order.
pub fn text_from_indices(indices: &Vec<usize>, corpus: &Vec<&str>) -> (r: Vec<Word>)
    requires
        forall|i: int| 0 <= i < indices@.len() ==> #[trigger] indices@[i] < corpus@.len(),
    ensures
        r@.len() == indices@.len(),
        forall|i: int|
            0 <= i < indices@.len() ==> glyphs((#[trigger] r@[i])@.chars) == corpus@[indices@[i] as int]@
                && r@[i]@.pristine(),
{
    let mut r: Vec<Word> = Vec::new();
    let mut i: usize = 0;
    while i < indices.len()
        invariant
            i <= indices@.len(),
            r@.len() == i,
            forall|i: int| 0 <= i < indices@.len() ==> #[trigger] indices@[i] < corpus@.len(),
            forall|j: int|
                0 <= j < i ==> glyphs((#[trigger] r@[j])@.chars) == corpus@[indices@[j] as int]@
                    && r@[j]@.pristine(),
        decreases indices@.len() - i,
    {
        r.push(Word::from_text(corpus[indices[i]]));
        i = i + 1;
    }
    r
}

/// The slots spell one of the corpus entries.
pub open spec fn drawn_from(chars: Seq<Character>, corpus: Seq<&str>) -> bool {
    exists|j: int| 0 <= j < corpus.len() && glyphs(chars) == #[trigger] corpus[j]@
}

/// `amount` fresh words, each drawn from the corpus uniformly with replacement.
pub fn make_random_text_from_words(amount: usize, corpus: &Vec<&str>, rng: &mut ThreadRng) -> (r: Vec<Word>)
    requires
        corpus@.len() > 0,
    ensures
        r@.len() == amount,
        forall|i: int|
            0 <= i < amount ==> drawn_from((#[trigger] r@[i])@.chars, corpus@),
        forall|i: int| 0 <= i < amount ==> (#[trigger] r@[i])@.pristine(),
{
    let mut indices: Vec<usize> = Vec::new();
    let mut k: usize = 0;
    while k < amount
        invariant
            corpus@.len() > 0,
            k <= amount,
            indices@.len() == k,
            forall|i: int| 0 <= i < k ==> #[trigger] indices@[i] < corpus@.len(),
        decreases amount - k,
    {
        indices.push(draw_index(rng, corpus.len()));
        k = k + 1;
    }
    let r = text_from_indices(&indices, corpus);
    assert forall|i: int| 0 <= i < amount implies drawn_from((#[trigger] r@[i])@.chars, corpus@) by {
        let j = indices@[i] as int;
        assert(glyphs(r@[i]@.chars) == corpus@[j]@);
    }
    r
}

} // verus!
