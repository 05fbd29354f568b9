use operator_mappings_api::utils::text::{
    append_decimal, capitalize, chars_of, contains, eq_ignore_ascii_case, is_all_digits,
    is_all_letters, is_all_letters_or_spaces, is_all_tadig_chars, is_all_upper, same_text,
    text_order, trim, TextOrder,
};

#[test]
fn trim_drops_whitespace_at_both_ends_only() {
    for s in [
        "",
        " ",
        "  a b  ",
        "\t\n x\u{a0}",
        "\u{3000}wide\u{2003}",
        "no-space",
        " \u{85}é ",
        "a ",
        " a",
    ] {
        assert_eq!(trim(s), s.trim());
    }
}

#[test]
fn character_classes() {
    assert!(is_all_digits("0123456789"));
    assert!(is_all_digits(""));
    assert!(!is_all_digits("12a"));
    assert!(!is_all_digits("١٢"));
    assert!(is_all_letters("abcXYZ"));
    assert!(!is_all_letters("ab c"));
    assert!(!is_all_letters("é"));
    assert!(is_all_upper("ARG"));
    assert!(!is_all_upper("ArG"));
    assert!(is_all_letters_or_spaces("Costa Rica\t"));
    assert!(is_all_letters_or_spaces("a\u{a0}b"));
    assert!(!is_all_letters_or_spaces("Bolivia (State)"));
    assert!(is_all_tadig_chars("ARG_01az"));
    assert!(!is_all_tadig_chars("ARG-01"));
}

#[test]
fn contains_agrees_with_str_contains() {
    let hays = ["", "a", "bolivia (plurinational state of)", "aab", "abab", "chile"];
    let needles = ["", "a", "ab", "bolivia", "state of)", "aab", "bab", "chilean", "b"];
    for h in hays {
        for n in needles {
            assert_eq!(contains(h, n), h.contains(n), "{:?} in {:?}", n, h);
        }
    }
}

#[test]
fn eq_ignore_ascii_case_agrees_with_str() {
    let words = ["", "arg", "ARG", "ArG", "arg ", "àrg", "ÀRG", "a[g", "a{g", "A@G", "a`g"];
    for a in words {
        for b in words {
            assert_eq!(
                eq_ignore_ascii_case(a, b),
                a.eq_ignore_ascii_case(b),
                "{:?} vs {:?}",
                a,
                b
            );
        }
    }
}

#[test]
fn text_order_agrees_with_the_order_of_str() {
    let words = ["", "a", "A", "ab", "b", "é", "z", "Zed", "zed", "\u{10000}", "\u{ffff}"];
    for a in words {
        for b in words {
            let expected = if a < b {
                TextOrder::Before
            } else if a == b {
                TextOrder::Same
            } else {
                TextOrder::After
            };
            assert_eq!(text_order(a, b), expected, "{:?} vs {:?}", a, b);
        }
    }
}

#[test]
fn capitalize_upper_cases_first_and_lower_cases_rest() {
    assert_eq!(capitalize("aRGENTINA"), "Argentina");
    assert_eq!(capitalize("costa RICA"), "Costa rica");
    assert_eq!(capitalize(""), "");
    assert_eq!(capitalize("ǆa"), "Ǆa");
    assert_eq!(capitalize("x"), "X");
}

#[test]
fn decimal_numerals() {
    for (n, text) in [
        (0usize, "0"),
        (7, "7"),
        (10, "10"),
        (99, "99"),
        (100, "100"),
        (12345, "12345"),
    ] {
        let mut out = "n=".to_string();
        append_decimal(&mut out, n);
        assert_eq!(out, format!("n={}", text));
    }
    let mut out = String::new();
    append_decimal(&mut out, usize::MAX);
    assert_eq!(out, usize::MAX.to_string());
}

#[test]
fn chars_and_equality() {
    assert_eq!(chars_of("aé1"), vec!['a', 'é', '1']);
    assert!(chars_of("").is_empty());
    assert!(same_text("abc", "abc"));
    assert!(!same_text("abc", "abd"));
    assert!(!same_text("abc", "ab"));
}
