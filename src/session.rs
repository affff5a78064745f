use vstd::prelude::*;
use crate::keys::{from_code_to_key, key_glyph};
use crate::word::{Word, WordView};

verus! {

/// Key code of the space bar, which finishes the current word.
pub const SPACE: i32 = 32;

/// Key code of backspace, which takes back the last keystroke.
pub const BACKSPACE: i32 = 127;

/// The words of one test and the cursor over them.
pub struct TypingSession {
    pub words: Vec<Word>,
    pub current_word_index: usize,
    pub current_char_index: usize,
}

/// The mathematical value of a `TypingSession`.
pub struct SessionView {
    pub words: Seq<WordView>,
    pub word_index: int,
    pub char_index: int,
}

impl View for TypingSession {
    type V = SessionView;

    open spec fn view(&self) -> SessionView {
        SessionView {
            words: self.words@.map_values(|w: Word| w@),
            word_index: self.current_word_index as int,
            char_index: self.current_char_index as int,
        }
    }
}

impl WordView {
    /// The word once the cursor has moved past it.
    pub open spec fn finalized(self) -> WordView {
        WordView { typed: true, correct: self.is_correct(), ..self }
    }

    /// The word once the cursor has come back into it.
    pub open spec fn reopened(self) -> WordView {
        WordView { typed: false, correct: false, ..self }
    }
}

impl SessionView {
    /// The cursor stands in a word (or just past the last), at the end of what
    /// was typed there; every word is well formed and those after the cursor
    /// are untouched.
    pub open spec fn wf(self) -> bool {
        &&& 0 <= self.word_index <= self.words.len()
        &&& forall|j: int| 0 <= j < self.words.len() ==> (#[trigger] self.words[j]).wf()
        &&& self.word_index < self.words.len() ==> self.char_index
            == self.words[self.word_index].written.len()
        &&& forall|j: int|
            self.word_index < j < self.words.len() ==> (#[trigger] self.words[j]).written.len()
                == 0
    }

    /// Every word has been passed.
    pub open spec fn is_finished(self) -> bool {
        self.word_index >= self.words.len()
    }

    /// Space: finalize the current word and move to the start of the next.
    pub open spec fn after_space(self) -> SessionView {
        SessionView {
            words: self.words.update(self.word_index, self.words[self.word_index].finalized()),
            word_index: self.word_index + 1,
            char_index: 0,
        }
    }

    /// A glyph: record it at the cursor and move the cursor on.
    pub open spec fn after_glyph(self, glyph: char) -> SessionView {
        SessionView {
            words: self.words.update(
                self.word_index,
                self.words[self.word_index].update(glyph, self.char_index),
            ),
            char_index: self.char_index + 1,
            ..self
        }
    }

    /// Backspace: inside a word, step back and take back that keystroke; at
    /// the start of a word, go back to the end of what was typed in the
    /// previous word and reopen it; at the very start, nothing.
    pub open spec fn after_backspace(self) -> SessionView {
        if self.char_index > 0 {
            SessionView {
                words: self.words.update(
                    self.word_index,
                    self.words[self.word_index].undo_last(self.char_index - 1),
                ),
                char_index: self.char_index - 1,
                ..self
            }
        } else if self.word_index > 0 {
            SessionView {
                words: self.words.update(
                    self.word_index - 1,
                    self.words[self.word_index - 1].reopened(),
                ),
                word_index: self.word_index - 1,
                char_index: self.words[self.word_index - 1].written.len() as int,
            }
        } else {
            self
        }
    }

    /// The session after a raw key code. A finished session, a code outside
    /// the key table, and a glyph that would move the cursor past
    /// `usize::MAX` change nothing.
    pub open spec fn after_key(self, code: i32) -> SessionView {
        if self.is_finished() {
            self
        } else if code == BACKSPACE {
            self.after_backspace()
        } else if code == SPACE {
            self.after_space()
        } else {
            match key_glyph(code) {
                Some(g) => if self.char_index < usize::MAX {
                    self.after_glyph(g)
                } else {
                    self
                },
                None => self,
            }
        }
    }
}

impl TypingSession {
    /// A session over fresh words, the cursor at the start of the first.
    pub fn new(words: Vec<Word>) -> (r: TypingSession)
        requires
            forall|j: int| 0 <= j < words@.len() ==> (#[trigger] words@[j])@.pristine(),
        ensures
            r@.words == words@.map_values(|w: Word| w@),
            r@.word_index == 0,
            r@.char_index == 0,
            r@.wf(),
    {
        let r = TypingSession { words, current_word_index: 0, current_char_index: 0 };
        assert forall|j: int| 0 <= j < r@.words.len() implies (#[trigger] r@.words[j]).wf() by {
            assert(r@.words[j] == words@[j]@);
            assert(r@.words[j].extra =~= Seq::<char>::empty());
        }
        r
    }

    /// Whether every word has been passed.
    pub fn is_finished(&self) -> (r: bool)
        ensures
            r == self@.is_finished(),
    {
        self.current_word_index >= self.words.len()
    }

    /// Applies one raw key code to the session.
    pub fn handle_key(&mut self, code: i32)
        requires
            old(self)@.wf(),
        ensures
            final(self)@ == old(self)@.after_key(code),
            final(self)@.wf(),
    {
        if self.current_word_index >= self.words.len() {
            return;
        }
        let wi = self.current_word_index;
        let ci = self.current_char_index;
        let ghost s = self@;
        if code == BACKSPACE {
            if ci > 0 {
                self.words[wi].undo_last(ci - 1);
                self.current_char_index = ci - 1;
            } else if wi > 0 {
                self.words[wi - 1].typed = false;
                self.words[wi - 1].correct = false;
                self.current_word_index = wi - 1;
                self.current_char_index = self.words[wi - 1].written_chars.len();
            }
            assert(self@.words =~= s.after_backspace().words);
        } else if code == SPACE {
            let ok = self.words[wi].is_correct();
            self.words[wi].typed = true;
            self.words[wi].correct = ok;
            self.current_word_index = wi + 1;
            self.current_char_index = 0;
            assert(self@.words =~= s.after_space().words);
        } else {
            match from_code_to_key(code) {
                Some(g) => {
                    if ci < usize::MAX {
                        self.words[wi].update(g, ci);
                        self.current_char_index = ci + 1;
                        assert(self@.words =~= s.after_glyph(g).words);
                    }
                },
                None => {},
            }
        }
    }
}

/// Backspace at the start of any word but the first puts the cursor at the
/// end of what was typed in the previous word, and that word is no longer
/// finalized.
pub proof fn lemma_backspace_at_word_start(s: SessionView)
    requires
        s.wf(),
        s.char_index == 0,
        0 < s.word_index < s.words.len(),
    ensures
        ({
            let t = s.after_key(BACKSPACE);
            &&& t.word_index == s.word_index - 1
            &&& t.words[t.word_index].written == s.words[s.word_index - 1].written
            &&& t.char_index == t.words[t.word_index].written.len()
            &&& !t.words[t.word_index].typed
            &&& !t.words[t.word_index].correct
        }),
{
}

} // verus!
