use vstd::prelude::*;
use crate::word::{correct_count, saturate, Word, WordView};

verus! {

/// Scores of a finished test. Rates are in hundredths of a word per minute
/// and accuracy in hundredths of a percent, each rounded down.
#[derive(Clone, Copy, Debug, PartialEq, Eq, Structural)]
pub struct TypingResults {
    pub wpm_hundredths: u128,
    pub raw_wpm_hundredths: u128,
    pub accuracy_basis_points: u128,
    pub characters_typed: usize,
    pub correct_characters: usize,
    pub incorrect_characters: usize,
    pub elapsed_ms: u64,
}

/// Slots marked correct, over all words.
pub open spec fn total_correct(words: Seq<WordView>) -> nat
    decreases words.len(),
{
    if words.len() == 0 {
        0
    } else {
        total_correct(words.drop_last()) + correct_count(words.last().chars)
    }
}

/// Slots left incorrect plus overflow keystrokes, over all words.
pub open spec fn total_incorrect(words: Seq<WordView>) -> nat
    decreases words.len(),
{
    if words.len() == 0 {
        0
    } else {
        total_incorrect(words.drop_last()) + words.last().incorrect_count()
    }
}

/// Keystrokes recorded, over all words.
pub open spec fn total_written(words: Seq<WordView>) -> nat
    decreases words.len(),
{
    if words.len() == 0 {
        0
    } else {
        total_written(words.drop_last()) + words.last().written.len()
    }
}

/// Milliseconds in a minute divided by the five characters of a word, in hundredths.
pub const HUNDREDTH_WPM_PER_CHAR_MS: u128 = 1_200_000;

/// One whole in hundredths of a percent.
pub const FULL_ACCURACY: u128 = 10_000;

/// `(characters / 5) / minutes`, in hundredths, rounded down; zero when no time passed.
pub open spec fn rate_hundredths(characters: nat, elapsed_ms: nat) -> nat {
    if elapsed_ms == 0 {
        0
    } else {
        (characters * (HUNDREDTH_WPM_PER_CHAR_MS as nat)) / elapsed_ms
    }
}

/// `correct / typed` in hundredths of a percent, rounded down; zero when nothing was typed.
pub open spec fn accuracy_basis_points(correct: nat, typed: nat) -> nat {
    if typed == 0 {
        0
    } else {
        (correct * (FULL_ACCURACY as nat)) / typed
    }
}

/// What the scores of a word list are, given the counts fit in `usize`.
pub open spec fn results_of(words: Seq<WordView>, elapsed_ms: u64) -> TypingResults {
    let c = total_correct(words);
    let t = total_correct(words) + total_incorrect(words);
    TypingResults {
        wpm_hundredths: rate_hundredths(c, elapsed_ms as nat) as u128,
        raw_wpm_hundredths: rate_hundredths(t, elapsed_ms as nat) as u128,
        accuracy_basis_points: accuracy_basis_points(c, t) as u128,
        characters_typed: t as usize,
        correct_characters: c as usize,
        incorrect_characters: total_incorrect(words) as usize,
        elapsed_ms,
    }
}

proof fn lemma_totals_grow(words: Seq<WordView>, i: int, j: int)
    requires
        0 <= i <= j <= words.len(),
    ensures
        total_correct(words.subrange(0, i)) + total_incorrect(words.subrange(0, i))
            <= total_correct(words.subrange(0, j)) + total_incorrect(words.subrange(0, j)),
    decreases j - i,
{
    if i < j {
        lemma_totals_grow(words, i, j - 1);
        assert(words.subrange(0, j).drop_last() =~= words.subrange(0, j - 1));
    }
}

proof fn lemma_correct_count_bounded(chars: Seq<crate::word::Character>)
    ensures
        correct_count(chars) <= chars.len(),
    decreases chars.len(),
{
    if chars.len() > 0 {
        lemma_correct_count_bounded(chars.drop_last());
    }
}

/// Number of slots of `w` marked correct.
fn word_correct_count(w: &Word) -> (r: usize)
    ensures
        r == correct_count(w@.chars),
        r <= w@.chars.len(),
{
    let mut count: usize = 0;
    let mut i: usize = 0;
    while i < w.chars.len()
        invariant
            i <= w.chars@.len(),
            count == correct_count(w.chars@.subrange(0, i as int)),
            count <= i,
        decreases w.chars@.len() - i,
    {
        assert(w.chars@.subrange(0, i + 1).drop_last() =~= w.chars@.subrange(0, i as int));
        if w.chars[i].correct {
            count = count + 1;
        }
        i = i + 1;
    }
    assert(w.chars@.subrange(0, i as int) =~= w.chars@);
    count
}

/// Scores the words after `elapsed_ms` milliseconds: counts of correct and
/// incorrect characters, raw and net words per minute, and accuracy. `None`
/// when the character counts do not fit in `usize`.
pub fn compute_typing_results(words: &Vec<Word>, elapsed_ms: u64) -> (r: Option<TypingResults>)
    ensures
        r is None <==> total_correct(words@.map_values(|w: Word| w@)) + total_incorrect(
            words@.map_values(|w: Word| w@),
        ) > usize::MAX,
        r is Some ==> r == Some(results_of(words@.map_values(|w: Word| w@), elapsed_ms)),
{
    let ghost ws = words@.map_values(|w: Word| w@);
    let mut correct: u128 = 0;
    let mut incorrect: u128 = 0;
    let mut i: usize = 0;
    while i < words.len()
        invariant
            ws == words@.map_values(|w: Word| w@),
            i <= words@.len(),
            correct == total_correct(ws.subrange(0, i as int)),
            incorrect == total_incorrect(ws.subrange(0, i as int)),
            correct + incorrect <= usize::MAX,
        decreases words@.len() - i,
    {
        let w = &words[i];
        let c = word_correct_count(w);
        let bad = (w.chars.len() - c) as u128 + w.extra_written_chars.len() as u128;
        assert(ws.subrange(0, i + 1).drop_last() =~= ws.subrange(0, i as int));
        assert(ws.subrange(0, i + 1).last() == ws[i as int]);
        correct = correct + c as u128;
        incorrect = incorrect + bad;
        i = i + 1;
        if correct + incorrect > usize::MAX as u128 {
            proof {
                lemma_totals_grow(ws, i as int, ws.len() as int);
                assert(ws.subrange(0, ws.len() as int) =~= ws);
            }
            return None;
        }
    }
    assert(ws.subrange(0, i as int) =~= ws);
    let typed = correct + incorrect;
    let ms = elapsed_ms as u128;
    let raw = if ms == 0 {
        0
    } else {
        assert(typed * HUNDREDTH_WPM_PER_CHAR_MS <= usize::MAX * HUNDREDTH_WPM_PER_CHAR_MS) by (nonlinear_arith)
            requires typed <= usize::MAX;
        typed * HUNDREDTH_WPM_PER_CHAR_MS / ms
    };
    let wpm = if ms == 0 {
        0
    } else {
        assert(correct * HUNDREDTH_WPM_PER_CHAR_MS <= usize::MAX * HUNDREDTH_WPM_PER_CHAR_MS) by (nonlinear_arith)
            requires correct <= usize::MAX;
        correct * HUNDREDTH_WPM_PER_CHAR_MS / ms
    };
    let accuracy = if typed == 0 {
        0
    } else {
        assert(correct * FULL_ACCURACY <= usize::MAX * FULL_ACCURACY) by (nonlinear_arith)
            requires correct <= usize::MAX;
        correct * FULL_ACCURACY / typed
    };
    Some(TypingResults {
        wpm_hundredths: wpm,
        raw_wpm_hundredths: raw,
        accuracy_basis_points: accuracy,
        characters_typed: typed as usize,
        correct_characters: correct as usize,
        incorrect_characters: incorrect as usize,
        elapsed_ms,
    })
}

/// Keystrokes recorded over all words, saturated at `usize::MAX`.
pub fn count_typed_characters(words: &Vec<Word>) -> (r: usize)
    ensures
        r == saturate(total_written(words@.map_values(|w: Word| w@))),
{
    let ghost ws = words@.map_values(|w: Word| w@);
    let mut total: usize = 0;
    let mut i: usize = 0;
    while i < words.len()
        invariant
            ws == words@.map_values(|w: Word| w@),
            i <= words@.len(),
            total == saturate(total_written(ws.subrange(0, i as int))),
        decreases words@.len() - i,
    {
        assert(ws.subrange(0, i + 1).drop_last() =~= ws.subrange(0, i as int));
        assert(ws.subrange(0, i + 1).last() == ws[i as int]);
        total = total.saturating_add(words[i].written_chars.len());
        i = i + 1;
    }
    assert(ws.subrange(0, i as int) =~= ws);
    total
}

} // verus!
