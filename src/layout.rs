use vstd::prelude::*;
use crate::word::{saturate, Word};

verus! {

/// Where a word goes on screen: whether a line break comes before it, and
/// whether a space follows it.
#[derive(Clone, Copy, Debug, PartialEq, Eq, Structural)]
pub struct Placement {
    pub line_break_before: bool,
    pub space_after: bool,
}

/// The column after drawing a word of width `w` from column `x`, wrapping
/// first when it would reach the line width.
pub open spec fn column_after_word(x: int, w: int, line_width: int) -> int {
    (if x + w >= line_width {
        1
    } else {
        x
    }) + w
}

/// Whether a space follows word `i`, the column after it being `x`: only when
/// the next word would still end before the line width.
pub open spec fn spaced(widths: Seq<usize>, line_width: int, i: int, x: int) -> bool {
    i + 1 < widths.len() && widths[i + 1] + x < line_width
}

/// The column from which word `i` is laid out; the first starts at column 1.
pub open spec fn column_before(widths: Seq<usize>, line_width: int, i: int) -> int
    decreases i,
{
    if i <= 0 {
        1
    } else {
        let x = column_after_word(column_before(widths, line_width, i - 1), widths[i - 1] as int, line_width);
        if spaced(widths, line_width, i - 1, x) {
            x + 1
        } else {
            x
        }
    }
}

/// Where word `i` goes in the greedy one-pass wrap.
pub open spec fn placement(widths: Seq<usize>, line_width: int, i: int) -> Placement {
    let x = column_before(widths, line_width, i);
    Placement {
        line_break_before: x + widths[i] >= line_width,
        space_after: spaced(widths, line_width, i, column_after_word(x, widths[i] as int, line_width)),
    }
}

/// Lays words of the given widths onto lines of `line_width` columns.
pub fn layout_widths(widths: &Vec<usize>, line_width: usize) -> (r: Vec<Placement>)
    ensures
        r@.len() == widths@.len(),
        forall|i: int| 0 <= i < widths@.len() ==> #[trigger] r@[i] == placement(widths@, line_width as int, i),
{
    let n = widths.len();
    let lw = line_width as u128;
    let mut r: Vec<Placement> = Vec::new();
    let mut x: u128 = 1;
    let mut i: usize = 0;
    while i < n
        invariant
            n == widths@.len(),
            lw == line_width,
            i <= n,
            r@.len() == i,
            x == column_before(widths@, line_width as int, i as int),
            1 <= x <= usize::MAX as int + 1,
            forall|j: int| 0 <= j < i ==> #[trigger] r@[j] == placement(widths@, line_width as int, j),
        decreases n - i,
    {
        let w = widths[i] as u128;
        let brk = x + w >= lw;
        let start: u128 = if brk { 1 } else { x };
        let after = start + w;
        let space = i + 1 < n && (widths[i + 1] as u128) + after < lw;
        r.push(Placement { line_break_before: brk, space_after: space });
        x = if space { after + 1 } else { after };
        i = i + 1;
    }
    r
}

/// The widths that layout uses: each word's drawn width, saturated.
pub open spec fn word_widths(words: Seq<Word>) -> Seq<usize> {
    words.map_values(|w: Word| saturate(w@.drawn_width()))
}

/// Lays the words onto lines of `line_width` columns by their drawn widths.
pub fn layout(words: &Vec<Word>, line_width: usize) -> (r: Vec<Placement>)
    ensures
        r@.len() == words@.len(),
        forall|i: int|
            0 <= i < words@.len() ==> #[trigger] r@[i] == placement(word_widths(words@), line_width as int, i),
{
    let mut widths: Vec<usize> = Vec::new();
    let mut i: usize = 0;
    while i < words.len()
        invariant
            i <= words@.len(),
            widths@ == word_widths(words@.subrange(0, i as int)),
        decreases words@.len() - i,
    {
        widths.push(words[i].count_drawn_characters());
        i = i + 1;
        assert(widths@ =~= word_widths(words@.subrange(0, i as int)));
    }
    assert(words@.subrange(0, i as int) =~= words@);
    layout_widths(&widths, line_width)
}

} // verus!
