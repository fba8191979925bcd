use whisper_input::transcribe::normalize_transcript;

#[test]
fn normalization_compacts_whitespace() {
    let input = "  hello\n   world   ";
    assert_eq!(normalize_transcript(input), "hello world");
}

#[test]
fn normalization_handles_unicode_whitespace_and_is_idempotent() {
    assert_eq!(normalize_transcript("\u{3000}a\u{00A0}\tb\u{2028}c "), "a b c");
    assert_eq!(normalize_transcript(" \n\t "), "");
    assert_eq!(normalize_transcript(""), "");
    let once = normalize_transcript("  one   two ");
    assert_eq!(normalize_transcript(&once), once);
}
