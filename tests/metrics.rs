use typing_test::metrics::{compute_typing_results, count_typed_characters};
use typing_test::word::Word;

fn typed_word(target: &str, keys: &str) -> Word {
    let mut w = Word::from_text(target);
    for (i, c) in keys.chars().enumerate() {
        w.update(c, i);
    }
    w
}

#[test]
fn one_minute_with_250_right_and_50_wrong() {
    let target: String = "a".repeat(300);
    let keys: String = "a".repeat(250) + &"b".repeat(50);
    let words = vec![typed_word(&target, &keys)];
    let r = compute_typing_results(&words, 60_000).unwrap();
    assert_eq!(r.correct_characters, 250);
    assert_eq!(r.incorrect_characters, 50);
    assert_eq!(r.characters_typed, 300);
    assert_eq!(r.raw_wpm_hundredths, 6000);
    assert_eq!(r.accuracy_basis_points, 8333);
    assert_eq!(r.wpm_hundredths, 5000);
    assert_eq!(r.elapsed_ms, 60_000);
}

#[test]
fn overflow_and_untyped_slots_count_as_incorrect() {
    let words = vec![typed_word("ab", "abcd"), typed_word("xyz", "x")];
    let r = compute_typing_results(&words, 30_000).unwrap();
    assert_eq!(r.correct_characters, 3);
    assert_eq!(r.incorrect_characters, 4);
    assert_eq!(r.characters_typed, 7);
    assert_eq!(r.raw_wpm_hundredths, 280);
    assert_eq!(r.accuracy_basis_points, 4285);
    assert_eq!(r.wpm_hundredths, 120);
}

#[test]
fn nothing_typed_gives_zero_accuracy() {
    let words: Vec<Word> = vec![Word::from_text("")];
    let r = compute_typing_results(&words, 1_000).unwrap();
    assert_eq!(r.characters_typed, 0);
    assert_eq!(r.accuracy_basis_points, 0);
    assert_eq!(r.wpm_hundredths, 0);
    assert_eq!(r.raw_wpm_hundredths, 0);
}

#[test]
fn no_elapsed_time_gives_zero_rates() {
    let words = vec![typed_word("ab", "ab")];
    let r = compute_typing_results(&words, 0).unwrap();
    assert_eq!(r.raw_wpm_hundredths, 0);
    assert_eq!(r.wpm_hundredths, 0);
    assert_eq!(r.accuracy_basis_points, 10_000);
}

#[test]
fn typed_characters_count_every_keystroke() {
    let words = vec![typed_word("ab", "abc"), typed_word("de", "d"), Word::from_text("f")];
    assert_eq!(count_typed_characters(&words), 4);
}
