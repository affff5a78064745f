use vstd::prelude::*;
use vstd::string::*;

verus! {

/// One glyph of a target word and what the typist did at its slot.
#[derive(Clone, Copy, Debug)]
pub struct Character {
    pub text: char,
    pub typed: bool,
    pub correct: bool,
}

/// A target word, the keystrokes submitted for it, and those typed past its end.
#[derive(Clone, Debug)]
pub struct Word {
    pub chars: Vec<Character>,
    pub written_chars: Vec<char>,
    pub extra_written_chars: Vec<char>,
    pub typed: bool,
    pub correct: bool,
}

/// The mathematical value of a `Word`.
pub struct WordView {
    pub chars: Seq<Character>,
    pub written: Seq<char>,
    pub extra: Seq<char>,
    pub typed: bool,
    pub correct: bool,
}

impl View for Word {
    type V = WordView;

    open spec fn view(&self) -> WordView {
        WordView {
            chars: self.chars@,
            written: self.written_chars@,
            extra: self.extra_written_chars@,
            typed: self.typed,
            correct: self.correct,
        }
    }
}

/// The target glyphs of a sequence of slots.
pub open spec fn glyphs(chars: Seq<Character>) -> Seq<char> {
    chars.map_values(|c: Character| c.text)
}

/// Number of slots marked correct.
pub open spec fn correct_count(chars: Seq<Character>) -> nat
    decreases chars.len(),
{
    if chars.len() == 0 {
        0
    } else {
        correct_count(chars.drop_last()) + if chars.last().correct {
            1nat
        } else {
            0nat
        }
    }
}

impl WordView {
    /// Every slot before the number of keystrokes is typed and none after it;
    /// a typed slot is correct exactly when its keystroke matches; the
    /// overflow keystrokes are the written ones past the last slot.
    pub open spec fn wf(self) -> bool {
        let k = self.written.len();
        let n = self.chars.len();
        &&& forall|i: int|
            0 <= i < n ==> {
                &&& (#[trigger] self.chars[i]).typed == (i < k)
                &&& self.chars[i].correct == (i < k && self.written[i] == self.chars[i].text)
            }
        &&& self.extra == if k > n {
            self.written.subrange(n as int, k as int)
        } else {
            Seq::<char>::empty()
        }
    }

    /// Nothing typed yet and not finalized.
    pub open spec fn pristine(self) -> bool {
        &&& self.written.len() == 0
        &&& self.extra.len() == 0
        &&& forall|i: int|
            0 <= i < self.chars.len() ==> !(#[trigger] self.chars[i]).typed
                && !self.chars[i].correct
        &&& !self.typed
        &&& !self.correct
    }

    /// The word is typed exactly: as many keystrokes as slots, each matching.
    pub open spec fn is_correct(self) -> bool {
        self.written == glyphs(self.chars)
    }

    /// The word after `glyph` was typed at slot `i`.
    pub open spec fn update(self, glyph: char, i: int) -> WordView {
        let n = self.chars.len();
        WordView {
            chars: if 0 <= i < n {
                self.chars.update(
                    i,
                    Character {
                        text: self.chars[i].text,
                        typed: true,
                        correct: glyph == self.chars[i].text,
                    },
                )
            } else {
                self.chars
            },
            written: self.written.push(glyph),
            extra: if i >= n {
                self.extra.push(glyph)
            } else {
                self.extra
            },
            ..self
        }
    }

    /// The word after the keystroke at slot `i` was taken back.
    pub open spec fn undo_last(self, i: int) -> WordView {
        let n = self.chars.len();
        WordView {
            chars: if 0 <= i < n {
                self.chars.update(
                    i,
                    Character { text: self.chars[i].text, typed: false, correct: false },
                )
            } else {
                self.chars
            },
            written: if self.written.len() > 0 {
                self.written.drop_last()
            } else {
                self.written
            },
            extra: if i >= n && self.extra.len() > 0 {
                self.extra.drop_last()
            } else {
                self.extra
            },
            ..self
        }
    }

    /// Slots left incorrect plus every overflow keystroke.
    pub open spec fn incorrect_count(self) -> nat {
        (self.chars.len() - correct_count(self.chars)) as nat + self.extra.len()
    }
}

/// The glyphs that only modify their neighbour and take no column.
pub open spec fn is_mark(c: char) -> bool {
    c == '\'' || c == '´' || c == '`' || c == '~' || c == '¨'
}

/// What unidecode transliterates a character to.
pub uninterp spec fn transliteration(c: char) -> Seq<char>;

/// Columns a glyph takes once its accents are stripped.
pub open spec fn glyph_width(c: char) -> nat {
    if is_mark(c) {
        0
    } else {
        transliteration(c).len()
    }
}

/// Columns a sequence of glyphs takes.
pub open spec fn width_of(s: Seq<char>) -> nat
    decreases s.len(),
{
    if s.len() == 0 {
        0
    } else {
        width_of(s.drop_last()) + glyph_width(s.last())
    }
}

impl WordView {
    /// Columns the word takes on screen: its target glyphs and its overflow.
    pub open spec fn drawn_width(self) -> nat {
        width_of(glyphs(self.chars)) + width_of(self.extra)
    }
}

/// Relies on unidecode::unidecode_char: the ASCII transliteration of one
/// character, which depends on that character alone.
#[verifier::external_body]
fn transliterate(c: char) -> (r: String)
    ensures
        r@ == transliteration(c),
{
    unidecode::unidecode_char(c).to_string()
}

/// The smaller of a count and `usize::MAX`.
pub open spec fn saturate(x: nat) -> usize {
    if x > usize::MAX {
        usize::MAX
    } else {
        x as usize
    }
}

/// Columns `s` takes, saturated.
fn width_of_glyphs(s: &Vec<char>) -> (r: usize)
    ensures
        r == saturate(width_of(s@)),
{
    let mut total: usize = 0;
    let mut i: usize = 0;
    while i < s.len()
        invariant
            i <= s@.len(),
            total == saturate(width_of(s@.subrange(0, i as int))),
        decreases s@.len() - i,
    {
        let c = s[i];
        let w: usize = if c == '\'' || c == '´' || c == '`' || c == '~' || c == '¨' {
            0
        } else {
            transliterate(c).as_str().unicode_len()
        };
        assert(s@.subrange(0, i + 1).drop_last() == s@.subrange(0, i as int));
        total = total.saturating_add(w);
        i = i + 1;
    }
    assert(s@.subrange(0, s@.len() as int) == s@);
    total
}


/// How the renderer shows one glyph of a word.
#[derive(Clone, Copy, Debug, PartialEq, Eq, Structural)]
pub enum StyleTag {
    Plain,
    Correct,
    Incorrect,
    Current,
    Overflow,
    CurrentOverflow,
}

/// Style of target slot `i` given the cursor slot and whether the word is current.
pub open spec fn char_style(c: Character, i: int, cursor: int, is_current: bool) -> StyleTag {
    if c.typed && c.correct {
        StyleTag::Correct
    } else if c.typed {
        StyleTag::Incorrect
    } else if i == cursor && is_current {
        StyleTag::Current
    } else {
        StyleTag::Plain
    }
}

/// Style of overflow keystroke `i` given the cursor slot and whether the word is current.
pub open spec fn extra_style(i: int, cursor: int, is_current: bool) -> StyleTag {
    if i == cursor && is_current {
        StyleTag::CurrentOverflow
    } else {
        StyleTag::Overflow
    }
}

impl Word {
    /// A fresh word with one untyped slot per character of `text`.
    pub fn from_text(text: &str) -> (r: Word)
        ensures
            glyphs(r@.chars) == text@,
            r@.pristine(),
            r@.wf(),
    {
        let n = text.unicode_len();
        let mut chars: Vec<Character> = Vec::new();
        let mut i: usize = 0;
        while i < n
            invariant
                n == text@.len(),
                i <= n,
                chars@.len() == i,
                forall|j: int|
                    0 <= j < i ==> (#[trigger] chars@[j]) == (Character {
                        text: text@[j],
                        typed: false,
                        correct: false,
                    }),
            decreases n - i,
        {
            let c = text.get_char(i);
            chars.push(Character { text: c, typed: false, correct: false });
            i = i + 1;
        }
        let r = Word {
            chars,
            written_chars: Vec::new(),
            extra_written_chars: Vec::new(),
            typed: false,
            correct: false,
        };
        assert(glyphs(r@.chars) =~= text@);
        r
    }

    /// Records `glyph` typed at slot `current_char_index`; past the last slot
    /// it is kept as an overflow keystroke.
    pub fn update(&mut self, glyph: char, current_char_index: usize)
        ensures
            final(self)@ == old(self)@.update(glyph, current_char_index as int),
            old(self)@.wf() && current_char_index == old(self)@.written.len() ==> final(self)@.wf(),
    {
        let n = self.chars.len();
        if current_char_index < n {
            let text = self.chars[current_char_index].text;
            self.chars.set(
                current_char_index,
                Character { text, typed: true, correct: glyph == text },
            );
        }
        self.written_chars.push(glyph);
        if current_char_index >= n {
            self.extra_written_chars.push(glyph);
        }
        proof {
            let o = old(self)@;
            let f = self@;
            if o.wf() && current_char_index == o.written.len() {
                if o.written.len() >= n {
                    assert(f.written.subrange(n as int, f.written.len() as int) =~= o.extra.push(
                        glyph,
                    ));
                }
            }
        }
        assert(self@ =~= old(self)@.update(glyph, current_char_index as int));
    }

    /// Takes back the last keystroke, which was typed at slot `current_char_index`.
    pub fn undo_last(&mut self, current_char_index: usize)
        ensures
            final(self)@ == old(self)@.undo_last(current_char_index as int),
            old(self)@.wf() && old(self)@.written.len() > 0 && current_char_index + 1
                == old(self)@.written.len() ==> final(self)@.wf(),
    {
        let n = self.chars.len();
        self.written_chars.pop();
        if current_char_index >= n {
            self.extra_written_chars.pop();
        } else {
            let text = self.chars[current_char_index].text;
            self.chars.set(current_char_index, Character { text, typed: false, correct: false });
        }
        proof {
            let o = old(self)@;
            let f = self@;
            if o.wf() && o.written.len() > 0 && current_char_index + 1 == o.written.len() {
                if f.written.len() > n {
                    assert(f.extra =~= f.written.subrange(n as int, f.written.len() as int));
                }
                if f.written.len() == n && current_char_index >= n {
                    assert(f.extra =~= Seq::<char>::empty());
                }
            }
        }
        assert(self@ =~= old(self)@.undo_last(current_char_index as int));
    }

    /// Whether the keystrokes spell the target word exactly.
    pub fn is_correct(&self) -> (r: bool)
        ensures
            r == self@.is_correct(),
    {
        let n = self.chars.len();
        if self.written_chars.len() != n {
            proof {
                if self@.is_correct() {
                    assert(glyphs(self@.chars).len() == n);
                }
            }
            return false;
        }
        let mut i: usize = 0;
        while i < n
            invariant
                n == self.chars@.len(),
                n == self.written_chars@.len(),
                i <= n,
                forall|j: int| 0 <= j < i ==> self.written_chars@[j] == (#[trigger] self.chars@[j]).text,
            decreases n - i,
        {
            if self.chars[i].text != self.written_chars[i] {
                assert(glyphs(self@.chars)[i as int] != self@.written[i as int]);
                return false;
            }
            i = i + 1;
        }
        assert(self@.written =~= glyphs(self@.chars));
        true
    }

    /// Columns the word takes on screen, accents stripped and marks left out
    /// (saturated at `usize::MAX`).
    pub fn count_drawn_characters(&self) -> (r: usize)
        ensures
            r == saturate(self@.drawn_width()),
    {
        let mut targets: Vec<char> = Vec::new();
        let mut i: usize = 0;
        while i < self.chars.len()
            invariant
                i <= self.chars@.len(),
                targets@ == glyphs(self.chars@.subrange(0, i as int)),
            decreases self.chars@.len() - i,
        {
            targets.push(self.chars[i].text);
            i = i + 1;
            assert(targets@ =~= glyphs(self.chars@.subrange(0, i as int)));
        }
        assert(self.chars@.subrange(0, i as int) =~= self.chars@);
        let a = width_of_glyphs(&targets);
        let b = width_of_glyphs(&self.extra_written_chars);
        a.saturating_add(b)
    }

    /// Each target glyph, then each overflow keystroke, with the style it is
    /// drawn in; `is_current` tells whether the cursor is in this word.
    pub fn styled_glyphs(&self, current_char_index: usize, is_current: bool) -> (r: Vec<(char, StyleTag)>)
        ensures
            r@.len() == self@.chars.len() + self@.extra.len(),
            forall|i: int|
                0 <= i < self@.chars.len() ==> #[trigger] r@[i] == (
                    self@.chars[i].text,
                    char_style(self@.chars[i], i, current_char_index as int, is_current),
                ),
            forall|i: int|
                0 <= i < self@.extra.len() ==> #[trigger] r@[self@.chars.len() + i] == (
                    self@.extra[i],
                    extra_style(i, current_char_index as int, is_current),
                ),
    {
        let mut r: Vec<(char, StyleTag)> = Vec::new();
        let n = self.chars.len();
        let mut i: usize = 0;
        while i < n
            invariant
                n == self@.chars.len(),
                i <= n,
                r@.len() == i,
                forall|j: int|
                    0 <= j < i ==> #[trigger] r@[j] == (
                        self@.chars[j].text,
                        char_style(self@.chars[j], j, current_char_index as int, is_current),
                    ),
            decreases n - i,
        {
            let c = self.chars[i];
            let tag = if c.typed && c.correct {
                StyleTag::Correct
            } else if c.typed {
                StyleTag::Incorrect
            } else if i == current_char_index && is_current {
                StyleTag::Current
            } else {
                StyleTag::Plain
            };
            r.push((c.text, tag));
            i = i + 1;
        }
        let e = self.extra_written_chars.len();
        let mut k: usize = 0;
        while k < e
            invariant
                n == self@.chars.len(),
                e == self@.extra.len(),
                k <= e,
                r@.len() == n + k,
                forall|j: int|
                    0 <= j < n ==> #[trigger] r@[j] == (
                        self@.chars[j].text,
                        char_style(self@.chars[j], j, current_char_index as int, is_current),
                    ),
                forall|j: int|
                    0 <= j < k ==> #[trigger] r@[n + j] == (
                        self@.extra[j],
                        extra_style(j, current_char_index as int, is_current),
                    ),
            decreases e - k,
        {
            let tag = if k == current_char_index && is_current {
                StyleTag::CurrentOverflow
            } else {
                StyleTag::Overflow
            };
            r.push((self.extra_written_chars[k], tag));
            k = k + 1;
        }
        r
    }
}


/// Number of glyphs that are not marks.
pub open spec fn non_mark_count(s: Seq<char>) -> nat
    decreases s.len(),
{
    if s.len() == 0 {
        0
    } else {
        non_mark_count(s.drop_last()) + if is_mark(s.last()) {
            0nat
        } else {
            1nat
        }
    }
}

proof fn lemma_correct_count_full(chars: Seq<Character>)
    requires
        forall|i: int| 0 <= i < chars.len() ==> (#[trigger] chars[i]).correct,
    ensures
        correct_count(chars) == chars.len(),
    decreases chars.len(),
{
    if chars.len() > 0 {
        let d = chars.drop_last();
        assert forall|i: int| 0 <= i < d.len() implies (#[trigger] d[i]).correct by {
            assert(d[i] == chars[i]);
        }
        lemma_correct_count_full(d);
    }
}

/// A well-formed word whose keystrokes spell its target exactly is correct,
/// and it adds nothing to the count of incorrect characters.
pub proof fn lemma_exact_word_is_correct(w: WordView)
    requires
        w.wf(),
        w.written == glyphs(w.chars),
    ensures
        w.is_correct(),
        w.incorrect_count() == 0,
{
    assert forall|i: int| 0 <= i < w.chars.len() implies (#[trigger] w.chars[i]).correct by {
        assert(w.written[i] == glyphs(w.chars)[i]);
    }
    lemma_correct_count_full(w.chars);
}

/// A well-formed word with any overflow keystroke is never correct, whatever
/// its first keystrokes were.
pub proof fn lemma_overflow_is_incorrect(w: WordView)
    requires
        w.wf(),
        w.extra.len() > 0,
    ensures
        !w.is_correct(),
{
    assert(w.written.len() > w.chars.len());
    assert(glyphs(w.chars).len() == w.chars.len());
}

proof fn lemma_width_counts_non_marks(s: Seq<char>)
    requires
        forall|i: int|
            0 <= i < s.len() && !is_mark(s[i]) ==> (#[trigger] transliteration(s[i])).len() == 1,
    ensures
        width_of(s) == non_mark_count(s),
    decreases s.len(),
{
    if s.len() > 0 {
        let d = s.drop_last();
        assert forall|i: int|
            0 <= i < d.len() && !is_mark(d[i]) implies (#[trigger] transliteration(d[i])).len()
            == 1 by {
            assert(d[i] == s[i]);
        }
        lemma_width_counts_non_marks(d);
        assert(s.last() == s[s.len() - 1]);
    }
}

/// When every glyph of a word that is not a mark transliterates to a single
/// letter (a base letter followed by its accent mark, say), the drawn width
/// is the number of glyphs that are not marks.
pub proof fn lemma_drawn_width_skips_marks(w: WordView)
    requires
        forall|c: char|
            (glyphs(w.chars).contains(c) || w.extra.contains(c)) && !is_mark(c) ==> (
            #[trigger] transliteration(c)).len() == 1,
    ensures
        w.drawn_width() == non_mark_count(glyphs(w.chars)) + non_mark_count(w.extra),
{
    let g = glyphs(w.chars);
    assert forall|i: int| 0 <= i < g.len() && !is_mark(g[i]) implies (#[trigger] transliteration(
        g[i],
    )).len() == 1 by {
        assert(g.contains(g[i]));
    }
    assert forall|i: int|
        0 <= i < w.extra.len() && !is_mark(w.extra[i]) implies (#[trigger] transliteration(
        w.extra[i],
    )).len() == 1 by {
        assert(w.extra.contains(w.extra[i]));
    }
    lemma_width_counts_non_marks(g);
    lemma_width_counts_non_marks(w.extra);
}

/// Typing a glyph at a slot and then taking it back at the same slot restores
/// the word, whether the slot is inside the word or past its end, provided
/// the slot was untyped before.
pub proof fn lemma_update_then_undo(w: WordView, glyph: char, i: int)
    requires
        0 <= i,
        i < w.chars.len() ==> !w.chars[i].typed && !w.chars[i].correct,
    ensures
        w.update(glyph, i).undo_last(i) == w,
{
    let u = w.update(glyph, i).undo_last(i);
    assert(u.written =~= w.written);
    assert(u.extra =~= w.extra);
    assert(u.chars =~= w.chars);
}

} // verus!
