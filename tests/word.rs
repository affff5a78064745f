use typing_test::word::{Character, StyleTag, Word};

fn fresh(c: char) -> Character {
    Character { text: c, typed: false, correct: false }
}

fn typed_word(target: &str, keys: &str) -> Word {
    let mut w = Word::from_text(target);
    for (i, c) in keys.chars().enumerate() {
        w.update(c, i);
    }
    w
}

#[test]
fn word_should_count_drawn_characters_correctly() {
    let word = Word {
        chars: vec![
            fresh('r'),
            fresh('e'),
            fresh('l'),
            fresh('a'),
            fresh('ç'),
            fresh('´'),
            fresh('ã'),
            fresh('o'),
        ],
        correct: false,
        typed: false,
        written_chars: Vec::default(),
        extra_written_chars: vec!['b', 'é'],
    };

    assert_eq!(word.count_drawn_characters(), 9);
}

#[test]
fn drawn_width_leaves_out_accent_marks() {
    let word = Word::from_text("ca´fe´");
    assert_eq!(word.chars.len(), 6);
    assert_eq!(word.count_drawn_characters(), 4);
}

#[test]
fn drawn_width_ignores_every_kind_of_mark() {
    let word = Word::from_text("a'b`c~d¨e´");
    assert_eq!(word.count_drawn_characters(), 5);
}

#[test]
fn drawn_width_strips_precomposed_accents() {
    let word = Word::from_text("ação");
    assert_eq!(word.count_drawn_characters(), 4);
}

#[test]
fn drawn_width_counts_multi_letter_transliterations() {
    let word = Word::from_text("Æ");
    assert_eq!(word.count_drawn_characters(), 2);
}

#[test]
fn drawn_width_counts_overflow_keystrokes() {
    let word = typed_word("ab", "abcd");
    assert_eq!(word.count_drawn_characters(), 4);
}

#[test]
fn from_text_makes_untyped_slots() {
    let word = Word::from_text("olá");
    let texts: Vec<char> = word.chars.iter().map(|c| c.text).collect();
    assert_eq!(texts, vec!['o', 'l', 'á']);
    assert!(word.chars.iter().all(|c| !c.typed && !c.correct));
    assert!(word.written_chars.is_empty());
    assert!(word.extra_written_chars.is_empty());
    assert!(!word.typed && !word.correct);
}

#[test]
fn update_marks_slot_typed_and_correct() {
    let mut word = Word::from_text("abc");
    word.update('a', 0);
    word.update('x', 1);
    assert!(word.chars[0].typed && word.chars[0].correct);
    assert!(word.chars[1].typed && !word.chars[1].correct);
    assert!(!word.chars[2].typed);
    assert_eq!(word.written_chars, vec!['a', 'x']);
    assert!(word.extra_written_chars.is_empty());
}

#[test]
fn update_past_end_records_overflow() {
    let word = typed_word("ab", "abz");
    assert_eq!(word.written_chars, vec!['a', 'b', 'z']);
    assert_eq!(word.extra_written_chars, vec!['z']);
}

#[test]
fn exact_word_is_correct() {
    let word = typed_word("pão", "pão");
    assert!(word.is_correct());
    assert!(word.chars.iter().all(|c| c.correct));
    assert!(word.extra_written_chars.is_empty());
}

#[test]
fn overflow_word_is_never_correct() {
    let word = typed_word("ab", "abb");
    assert!(word.chars.iter().all(|c| c.correct));
    assert!(!word.is_correct());
}

#[test]
fn short_or_wrong_word_is_not_correct() {
    assert!(!typed_word("abc", "ab").is_correct());
    assert!(!typed_word("abc", "abd").is_correct());
    assert!(typed_word("", "").is_correct());
}

#[test]
fn update_then_undo_restores_slot() {
    let mut word = typed_word("abc", "a");
    let before = word.clone();
    word.update('b', 1);
    word.undo_last(1);
    assert_eq!(word.written_chars, before.written_chars);
    assert_eq!(word.extra_written_chars, before.extra_written_chars);
    assert_eq!(word.chars[1].typed, before.chars[1].typed);
    assert_eq!(word.chars[1].correct, before.chars[1].correct);
}

#[test]
fn update_then_undo_restores_overflow() {
    let mut word = typed_word("ab", "abc");
    let before = word.clone();
    word.update('d', 3);
    assert_eq!(word.extra_written_chars, vec!['c', 'd']);
    word.undo_last(3);
    assert_eq!(word.written_chars, before.written_chars);
    assert_eq!(word.extra_written_chars, before.extra_written_chars);
}

#[test]
fn undo_on_empty_word_changes_nothing() {
    let mut word = Word::from_text("ab");
    word.undo_last(0);
    assert!(word.written_chars.is_empty());
    assert!(!word.chars[0].typed);
}

#[test]
fn styled_glyphs_tags_each_state() {
    let mut word = typed_word("abcd", "ax");
    let tags: Vec<StyleTag> = word.styled_glyphs(2, true).iter().map(|p| p.1).collect();
    assert_eq!(
        tags,
        vec![StyleTag::Correct, StyleTag::Incorrect, StyleTag::Current, StyleTag::Plain]
    );
    let tags: Vec<StyleTag> = word.styled_glyphs(2, false).iter().map(|p| p.1).collect();
    assert_eq!(tags[2], StyleTag::Plain);
    word.update('c', 2);
    word.update('d', 3);
    word.update('e', 4);
    word.update('f', 5);
    let glyphs = word.styled_glyphs(1, true);
    assert_eq!(glyphs.len(), 6);
    assert_eq!(glyphs[4], ('e', StyleTag::Overflow));
    assert_eq!(glyphs[5], ('f', StyleTag::CurrentOverflow));
}
