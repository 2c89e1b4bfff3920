use quran_segmentation::path::{escape_ffconcat_path, from_hex, normalize_input_path, percent_decode};
use quran_segmentation::types::Platform;

#[test]
fn hexadecimal_digits() {
    assert_eq!(from_hex(b'0'), Some(0));
    assert_eq!(from_hex(b'9'), Some(9));
    assert_eq!(from_hex(b'a'), Some(10));
    assert_eq!(from_hex(b'f'), Some(15));
    assert_eq!(from_hex(b'A'), Some(10));
    assert_eq!(from_hex(b'F'), Some(15));
    assert_eq!(from_hex(b'g'), None);
    assert_eq!(from_hex(b'G'), None);
    assert_eq!(from_hex(b'/'), None);
    assert_eq!(from_hex(b':'), None);
    assert_eq!(from_hex(b'@'), None);
    assert_eq!(from_hex(b'`'), None);
}

#[test]
fn percent_escapes_are_decoded() {
    assert_eq!(percent_decode("a%20b"), "a b");
    assert_eq!(percent_decode("%41%42%43"), "ABC");
    assert_eq!(percent_decode("%e2%9c%93"), "✓");
    assert_eq!(percent_decode("%D8%A8"), "ب");
    assert_eq!(percent_decode("100%"), "100%");
    assert_eq!(percent_decode("%4"), "%4");
    assert_eq!(percent_decode("%zz%41"), "%zzA");
    assert_eq!(percent_decode("%%41"), "%A");
    assert_eq!(percent_decode("%2541"), "%41");
    assert_eq!(percent_decode(""), "");
    assert_eq!(percent_decode("%ff"), "\u{fffd}");
    assert_eq!(percent_decode("ünï"), "ünï");
}

#[test]
fn raw_paths_are_normalized() {
    assert_eq!(normalize_input_path("  file:///tmp/a%20b.wav \n", Platform::Other), "/tmp/a b.wav");
    assert_eq!(normalize_input_path("  file:///tmp/a%20b.wav \n", Platform::Windows), "/tmp/a b.wav");
    assert_eq!(normalize_input_path("  /home/u/a b.wav \n", Platform::Other), "/home/u/a b.wav");
    assert_eq!(normalize_input_path("file:///home/u/a%20b.wav", Platform::Other), "/home/u/a b.wav");
    assert_eq!(normalize_input_path("file://localhost/home/u/a.wav", Platform::Other), "home/u/a.wav");
    assert_eq!(normalize_input_path("localhost/x", Platform::MacOs), "x");
    assert_eq!(normalize_input_path("", Platform::Other), "");
    assert_eq!(normalize_input_path("file://", Platform::Other), "");
}

#[test]
fn the_slash_before_a_drive_letter_is_dropped_on_windows_only() {
    assert_eq!(normalize_input_path("file:///C:/Users/u/a%20b.wav", Platform::Windows), "C:/Users/u/a b.wav");
    assert_eq!(normalize_input_path("file:///C:/Users/u/a.wav", Platform::Other), "/C:/Users/u/a.wav");
    assert_eq!(normalize_input_path("/C:", Platform::Windows), "C:");
    assert_eq!(normalize_input_path("/C", Platform::Windows), "/C");
    assert_eq!(normalize_input_path("/é:", Platform::Windows), "/é:");
    assert_eq!(normalize_input_path("/%43:/x", Platform::Windows), "/C:/x");
}

#[test]
fn apostrophes_are_escaped() {
    assert_eq!(escape_ffconcat_path("it's"), "it\\'s");
    assert_eq!(escape_ffconcat_path("''"), "\\'\\'");
    assert_eq!(escape_ffconcat_path("plain"), "plain");
    assert_eq!(escape_ffconcat_path(""), "");
    assert_eq!(escape_ffconcat_path("a\\'b"), "a\\\\'b");
}
