use typing_test::metrics::{compute_typing_results, TypingResults};
use typing_test::report::{format_hundredths, raw_speed_line, summary_line, wpm_banner_text};
use typing_test::word::Word;

fn results(wpm: u128, raw: u128, accuracy: u128) -> TypingResults {
    TypingResults {
        wpm_hundredths: wpm,
        raw_wpm_hundredths: raw,
        accuracy_basis_points: accuracy,
        characters_typed: 300,
        correct_characters: 250,
        incorrect_characters: 50,
        elapsed_ms: 60_500,
    }
}

#[test]
fn hundredths_get_two_decimals() {
    assert_eq!(format_hundredths(8750), "87.50");
    assert_eq!(format_hundredths(5), "0.05");
    assert_eq!(format_hundredths(0), "0.00");
    assert_eq!(format_hundredths(12345), "123.45");
    assert_eq!(format_hundredths(100), "1.00");
}

#[test]
fn banner_shows_net_speed() {
    assert_eq!(wpm_banner_text(&results(8750, 0, 0)), "87.50 ppm");
}

#[test]
fn summary_shows_accuracy_and_counts() {
    assert_eq!(
        summary_line(&results(5000, 6000, 8333)),
        "83.33% ACC      :      Letras escritas: 300 => ✓ 250 | ✕ 50"
    );
}

#[test]
fn raw_line_shows_whole_seconds() {
    assert_eq!(raw_speed_line(&results(5000, 6000, 8333)), "60.00 puro ppm  em 60s");
}

#[test]
fn scored_words_read_out() {
    let mut w = Word::from_text("abcd");
    w.update('a', 0);
    w.update('b', 1);
    w.update('x', 2);
    w.update('d', 3);
    let r = compute_typing_results(&vec![w], 12_000).unwrap();
    assert_eq!(wpm_banner_text(&r), "3.00 ppm");
    assert_eq!(raw_speed_line(&r), "4.00 puro ppm  em 12s");
    assert_eq!(summary_line(&r), "75.00% ACC      :      Letras escritas: 4 => ✓ 3 | ✕ 1");
}
