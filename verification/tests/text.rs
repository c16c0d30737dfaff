use mumba_core::text::{
    is_white_space, trim,
    chars_of, contains_text, find, lower_char, matches_at, to_decimal, to_lowercase, to_uppercase,
    upper_char,
};

fn chars(text: &str) -> Vec<char> {
    text.chars().collect()
}

#[test]
fn case_folding_touches_ascii_letters_only() {
    assert_eq!(to_lowercase(&chars("FF8_Launcher.EXE é Ä")), chars("ff8_launcher.exe é Ä"));
    assert_eq!(to_uppercase(&chars("en-us_1 é ß")), chars("EN-US_1 é ß"));
    assert_eq!(lower_char('Z'), 'z');
    assert_eq!(lower_char('['), '[');
    assert_eq!(lower_char('@'), '@');
    assert_eq!(upper_char('a'), 'A');
    assert_eq!(upper_char('{'), '{');
    assert_eq!(upper_char('`'), '`');
    for text in ["", "Chocobo", "ÀB c", "123"] {
        assert_eq!(to_lowercase(&chars(text)), chars(&text.to_ascii_lowercase()));
        assert_eq!(to_uppercase(&chars(text)), chars(&text.to_ascii_uppercase()));
    }
    assert_eq!(chars_of("aé𝄞"), vec!['a', 'é', '𝄞']);
}

#[test]
fn search_finds_the_first_occurrence() {
    assert_eq!(find(&chars("abcabc"), &chars("bc")), Some(1));
    assert_eq!(find(&chars("abcabc"), &chars("abc")), Some(0));
    assert_eq!(find(&chars("abcabc"), &chars("cab")), Some(2));
    assert_eq!(find(&chars("abcabc"), &chars("cabc")), Some(2));
    assert_eq!(find(&chars("abcabc"), &chars("abcabc")), Some(0));
    assert_eq!(find(&chars("abcabc"), &chars("d")), None);
    assert_eq!(find(&chars("abc"), &chars("abcd")), None);
    assert_eq!(find(&chars("abc"), &chars("")), Some(0));
    assert_eq!(find(&chars(""), &chars("")), Some(0));
    assert_eq!(find(&chars(""), &chars("a")), None);
    assert!(contains_text(&chars("my launcher.exe"), &chars("launcher")));
    assert!(!contains_text(&chars("my launche.rexe"), &chars("launcher")));
    assert!(matches_at(&chars("abc"), &chars("bc"), 1));
    assert!(matches_at(&chars("abc"), &chars(""), 3));
    assert!(!matches_at(&chars("abc"), &chars(""), 4));
    assert!(!matches_at(&chars("abc"), &chars("bc"), 2));
    assert!(!matches_at(&chars("abc"), &chars("bc"), usize::MAX));
    for (haystack, needle) in [("ff8\\data\\fre", "ff8\\data\\"), ("xx", "x"), ("aab", "ab"), ("aaa", "b")] {
        assert_eq!(find(&chars(haystack), &chars(needle)), haystack.find(needle));
    }
}

#[test]
fn numbers_are_written_in_decimal() {
    for n in [0u64, 1, 9, 10, 11, 99, 100, 255, 39150, 1026680, 65535, u32::MAX as u64, u64::MAX] {
        assert_eq!(to_decimal(n), chars(&n.to_string()));
    }
}

#[test]
fn white_space_is_what_the_standard_library_trims() {
    let mut code: u32 = 0;
    while code <= 0x10FFFF {
        if let Some(c) = char::from_u32(code) {
            assert_eq!(is_white_space(c), c.is_whitespace(), "U+{:04X}", code);
        }
        code += 1;
    }
}

#[test]
fn trim_removes_white_space_at_both_ends_only() {
    for text in [
        "",
        " ",
        "\t\r\n",
        "C:\\Games\\FF8\\FF8_EN.exe\r\n",
        "  /opt/ff8/ff8 remastered.exe \n",
        "a b",
        "\u{a0}\u{3000}x\u{2003}y\u{2028}\u{85}",
        "\u{200b}x\u{200b}",
        "\u{feff} x",
        "x",
    ] {
        assert_eq!(trim(text), text.trim(), "{:?}", text);
    }
    assert_eq!(trim("  /opt/ff8/ff8 remastered.exe \n"), "/opt/ff8/ff8 remastered.exe");
    assert_eq!(trim("\u{200b}x\u{200b}"), "\u{200b}x\u{200b}");
}
