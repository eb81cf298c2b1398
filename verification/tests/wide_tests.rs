use task_dialog::wide::encode_wide_nul;

#[test]
fn empty_string_encodes_to_lone_terminator() {
    assert_eq!(encode_wide_nul(""), vec![0u16]);
}

#[test]
fn ascii_text_encodes_unit_per_char() {
    assert_eq!(encode_wide_nul("Yes"), vec![0x59u16, 0x65, 0x73, 0]);
    assert_eq!(encode_wide_nul("No"), vec![0x4Eu16, 0x6F, 0]);
}

#[test]
fn bmp_chars_encode_as_single_units() {
    assert_eq!(encode_wide_nul("\u{E9}"), vec![0x00E9u16, 0]);
    assert_eq!(encode_wide_nul("\u{65E5}\u{672C}"), vec![0x65E5u16, 0x672C, 0]);
}

#[test]
fn supplementary_chars_encode_as_surrogate_pairs() {
    assert_eq!(encode_wide_nul("\u{10437}"), vec![0xD801u16, 0xDC37, 0]);
    assert_eq!(encode_wide_nul("\u{1F600}"), vec![0xD83Du16, 0xDE00, 0]);
    assert_eq!(encode_wide_nul("\u{10FFFF}"), vec![0xDBFFu16, 0xDFFF, 0]);
}

#[test]
fn encoding_agrees_with_std_utf16() {
    let samples = ["", "hello", "a\u{E9}b", "mixed \u{65E5} and \u{1F600}!"];
    for s in samples.iter() {
        let expected: Vec<u16> = s.encode_utf16().chain(std::iter::once(0u16)).collect();
        assert_eq!(encode_wide_nul(s), expected);
    }
}

#[test]
fn successive_calls_give_fresh_equal_buffers() {
    let a = encode_wide_nul("again");
    let b = encode_wide_nul("again");
    assert_eq!(a, b);
    let c = encode_wide_nul("");
    assert_eq!(c, vec![0u16]);
}
