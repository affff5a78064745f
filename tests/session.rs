use typing_test::session::{TypingSession, BACKSPACE, SPACE};
use typing_test::word::Word;

fn session(words: &[&str]) -> TypingSession {
    TypingSession::new(words.iter().map(|w| Word::from_text(w)).collect())
}

fn type_keys(s: &mut TypingSession, keys: &str) {
    for c in keys.chars() {
        s.handle_key(c as i32);
    }
}

#[test]
fn glyph_advances_cursor() {
    let mut s = session(&["ab", "cd"]);
    type_keys(&mut s, "ab");
    assert_eq!(s.current_word_index, 0);
    assert_eq!(s.current_char_index, 2);
    assert_eq!(s.words[0].written_chars, vec!['a', 'b']);
}

#[test]
fn space_finalizes_and_moves_on() {
    let mut s = session(&["ab", "cd"]);
    type_keys(&mut s, "ab");
    s.handle_key(SPACE);
    assert!(s.words[0].typed && s.words[0].correct);
    assert_eq!(s.current_word_index, 1);
    assert_eq!(s.current_char_index, 0);
    type_keys(&mut s, "c");
    s.handle_key(SPACE);
    assert!(s.words[1].typed && !s.words[1].correct);
    assert!(s.is_finished());
}

#[test]
fn keys_after_the_end_change_nothing() {
    let mut s = session(&["a"]);
    type_keys(&mut s, "a ");
    assert!(s.is_finished());
    type_keys(&mut s, "b");
    s.handle_key(BACKSPACE);
    assert_eq!(s.current_word_index, 1);
    assert_eq!(s.words[0].written_chars, vec!['a']);
}

#[test]
fn unrecognized_code_is_ignored() {
    let mut s = session(&["ab"]);
    s.handle_key(27);
    s.handle_key(300);
    assert_eq!(s.current_char_index, 0);
    assert!(s.words[0].written_chars.is_empty());
}

#[test]
fn backspace_takes_back_last_keystroke() {
    let mut s = session(&["ab"]);
    type_keys(&mut s, "ax");
    s.handle_key(BACKSPACE);
    assert_eq!(s.current_char_index, 1);
    assert_eq!(s.words[0].written_chars, vec!['a']);
    assert!(!s.words[0].chars[1].typed);
    assert!(!s.words[0].chars[1].correct);
    type_keys(&mut s, "b");
    s.handle_key(SPACE);
    assert!(s.words[0].correct);
}

#[test]
fn backspace_removes_overflow() {
    let mut s = session(&["ab"]);
    type_keys(&mut s, "abc");
    s.handle_key(BACKSPACE);
    assert_eq!(s.current_char_index, 2);
    assert!(s.words[0].extra_written_chars.is_empty());
    assert_eq!(s.words[0].written_chars, vec!['a', 'b']);
}

#[test]
fn backspace_at_word_start_reopens_previous_word() {
    let mut s = session(&["abc", "de"]);
    type_keys(&mut s, "ab ");
    assert!(s.words[0].typed);
    s.handle_key(BACKSPACE);
    assert_eq!(s.current_word_index, 0);
    assert_eq!(s.current_char_index, 2);
    assert_eq!(s.current_char_index, s.words[0].written_chars.len());
    assert!(!s.words[0].typed);
    assert!(!s.words[0].correct);
    type_keys(&mut s, "c ");
    assert!(s.words[0].correct);
}

#[test]
fn backspace_at_very_start_is_a_no_op() {
    let mut s = session(&["ab"]);
    s.handle_key(BACKSPACE);
    assert_eq!(s.current_word_index, 0);
    assert_eq!(s.current_char_index, 0);
    assert!(s.words[0].written_chars.is_empty());
}
