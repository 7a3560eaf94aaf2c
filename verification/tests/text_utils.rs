use utter::text::{decimal_string, ends_with, is_whitespace, to_le_bytes, trim, trim_trailing_slashes};

#[test]
fn whitespace_matches_std_for_every_char() {
    for u in 0u32..=0x10FFFF {
        if let Some(c) = char::from_u32(u) {
            assert_eq!(is_whitespace(c), c.is_whitespace(), "char {u:#x}");
        }
    }
}

#[test]
fn trim_matches_std() {
    let cases = [
        "", " ", "  hello  ", "\n\t hi there \r\n", "no-trim", "\u{3000}wide\u{2029}", "\u{a0}x\u{85}",
        " a b ", "\u{200b}zero-width\u{200b}",
    ];
    for s in cases {
        assert_eq!(trim(s), s.trim(), "case {s:?}");
    }
}

#[test]
fn trailing_slashes_match_std() {
    for s in ["", "/", "///", "http://h:1/", "http://h:1//", "http://h:1", "a/b/"] {
        assert_eq!(trim_trailing_slashes(s), s.trim_end_matches('/'), "case {s:?}");
    }
}

#[test]
fn ends_with_matches_std() {
    for (s, suf) in [("model.bin", ".bin"), ("bin", ".bin"), ("", ""), ("x.gguf", ".bin"), ("a", "abc")] {
        assert_eq!(ends_with(s, suf), s.ends_with(suf));
    }
}

#[test]
fn decimal_matches_display() {
    for n in [0u64, 1, 9, 10, 42, 99, 100, 200, 401, 65535, 1234567890, u64::MAX] {
        assert_eq!(decimal_string(n), n.to_string());
    }
}

#[test]
fn le_bytes_match_f32_encoding() {
    let samples = [0.0f32, -1.5, 0.25, 1.0e-7, f32::MAX];
    let bits: Vec<u32> = samples.iter().map(|s| s.to_bits()).collect();
    let expected: Vec<u8> = samples.iter().flat_map(|s| s.to_le_bytes()).collect();
    assert_eq!(to_le_bytes(&bits), expected);
    assert_eq!(to_le_bytes(&[0x0403_0201]), vec![1, 2, 3, 4]);
}
