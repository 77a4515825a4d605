use ki_reader::render::{fingerprint, markup_from_outcome, process_markdown, render_markup};
use ki_reader::text::{
    hex_digit_char, is_blank_text, is_whitespace, push_decimal, to_decimal, to_hex,
};

#[test]
fn fingerprint_is_sha1_of_markup_bytes_in_lowercase_hex() {
    assert_eq!(fingerprint(""), "da39a3ee5e6b4b0d3255bfef95601890afd80709");
    assert_eq!(fingerprint("abc"), "a9993e364706816aba3e25717850c26c9cd0d89d");
    assert_eq!(
        fingerprint("The quick brown fox jumps over the lazy dog"),
        "2fd4e1c67a2d28fced849ee1bb76e7391b93eb12"
    );
}

#[test]
fn fingerprint_hashes_utf8_bytes() {
    // U+00E9 is the two bytes c3 a9 in UTF-8.
    assert_eq!(fingerprint("\u{e9}"), "bf15be717ac1b080b4f1c456692825891ff5073d");
}

#[test]
fn markdown_becomes_markup() {
    assert_eq!(render_markup("# Hi"), "<h1>Hi</h1>");
    assert_eq!(render_markup("hello *world*"), "<p>hello <em>world</em></p>");
    assert_eq!(render_markup(""), "");
}

#[test]
fn strikethrough_extension_is_on() {
    assert_eq!(render_markup("~Venus~Mars!"), "<p><del>Venus</del>Mars!</p>");
}

#[test]
fn table_extension_is_on() {
    let markup = render_markup("| a | b |\n| - | - |\n| 1 | 2 |");
    assert!(markup.starts_with("<table>"));
    assert!(markup.contains("<th>a</th>"));
    assert!(markup.contains("<td>2</td>"));
}

#[test]
fn raw_html_in_source_is_escaped() {
    assert_eq!(
        render_markup("<script>alert(1)</script>"),
        "&lt;script&gt;alert(1)&lt;/script&gt;"
    );
}

#[test]
fn process_markdown_fingerprints_the_markup_not_the_source() {
    let (markup, hash) = process_markdown("abc");
    assert_eq!(markup, "<p>abc</p>");
    assert_eq!(hash, fingerprint("<p>abc</p>"));
    assert_ne!(hash, fingerprint("abc"));
    assert_eq!(hash.len(), 40);
}

#[test]
fn sources_with_equal_markup_have_equal_fingerprints() {
    let (first_markup, first_hash) = process_markdown("*a*");
    let (second_markup, second_hash) = process_markdown("_a_");
    assert_eq!(first_markup, second_markup);
    assert_eq!(first_hash, second_hash);
    let (third_markup, third_hash) = process_markdown("**a**");
    assert_ne!(first_markup, third_markup);
    assert_ne!(first_hash, third_hash);
}

#[test]
fn process_markdown_is_repeatable() {
    let text = "## Title\n\n- one\n- two\n";
    assert_eq!(process_markdown(text), process_markdown(text));
}

#[test]
fn failed_rendering_degrades_to_inline_fragment() {
    assert_eq!(
        markup_from_outcome(Err("1:1: bad (x:y)".to_string())),
        "<p>Markdown processing error: 1:1: bad (x:y)</p>"
    );
    assert_eq!(markup_from_outcome(Ok("<p>x</p>".to_string())), "<p>x</p>");
}

#[test]
fn hex_writes_two_lowercase_digits_per_byte() {
    assert_eq!(to_hex(&[]), "");
    assert_eq!(to_hex(&[0x00, 0x0f, 0xa0, 0xff]), "000fa0ff");
    assert_eq!(to_hex(&[0x12, 0x34, 0x56, 0x78, 0x9a, 0xbc, 0xde, 0xf0]), "123456789abcdef0");
    assert_eq!(hex_digit_char(0), '0');
    assert_eq!(hex_digit_char(9), '9');
    assert_eq!(hex_digit_char(10), 'a');
    assert_eq!(hex_digit_char(15), 'f');
}

#[test]
fn decimal_numerals() {
    assert_eq!(to_decimal(0), "0");
    assert_eq!(to_decimal(9), "9");
    assert_eq!(to_decimal(10), "10");
    assert_eq!(to_decimal(5001), "5001");
    assert_eq!(to_decimal(u128::MAX), "340282366920938463463374607431768211455");
    let mut out = String::from("n=");
    push_decimal(&mut out, 1700000000123456789);
    assert_eq!(out, "n=1700000000123456789");
}

#[test]
fn whitespace_agrees_with_the_standard_library_on_every_char() {
    let mut code: u32 = 0;
    while code <= 0x10ffff {
        if let Some(c) = char::from_u32(code) {
            assert_eq!(is_whitespace(c), c.is_whitespace(), "U+{:04X}", code);
        }
        code += 1;
    }
}

#[test]
fn blank_texts() {
    assert!(is_blank_text(""));
    assert!(is_blank_text(" \t\r\n"));
    assert!(is_blank_text("\u{a0}\u{2003}\u{3000}"));
    assert!(!is_blank_text("a"));
    assert!(!is_blank_text("  a  "));
    assert!(!is_blank_text("\u{200b}"));
    for text in ["", " ", "x", " x ", "\n\n", "\u{85}", "\u{180e}", "a b"] {
        assert_eq!(is_blank_text(text), text.trim().is_empty());
    }
}
