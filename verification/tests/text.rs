use hostprobe::number::{decimal_digits, one_place_digits, pad_left, pad_right, two_place_digits};
use hostprobe::text::{
    chars_of, contains, find, is_whitespace, matches_at, part_before, remove_all, rest_after,
    same, split, split_fields, split_lines, starts_with, string_of, trim,
};

fn c(s: &str) -> Vec<char> {
    chars_of(s)
}

fn strings(v: Vec<Vec<char>>) -> Vec<String> {
    v.iter().map(string_of).collect()
}

#[test]
fn characters_and_strings_convert_both_ways() {
    for s in ["", "abc", "mémoire │ \u{fffd}", "a\nb"] {
        assert_eq!(chars_of(s), s.chars().collect::<Vec<char>>());
        assert_eq!(string_of(&chars_of(s)), s);
    }
}

#[test]
fn white_space_is_what_the_standard_library_takes_for_it() {
    for code in 0..0x3100u32 {
        if let Some(ch) = char::from_u32(code) {
            assert_eq!(is_whitespace(ch), ch.is_whitespace(), "{:x}", code);
        }
    }
    assert!(!is_whitespace('\u{feff}'));
}

#[test]
fn trim_agrees_with_the_standard_library() {
    for s in ["", " ", "a", "  a b \t\r\n", "\u{a0}x\u{3000}", "\u{2003}", "x  ", "  x", "a\u{200b}"] {
        assert_eq!(string_of(&trim(&c(s))), s.trim(), "{:?}", s);
    }
}

#[test]
fn parts_around_the_first_occurrence() {
    assert_eq!(rest_after(&c("a: b: c"), &c(": ")).map(|v| string_of(&v)), Some("b: c".to_string()));
    assert_eq!(rest_after(&c("a: b"), &c("=")), None);
    assert_eq!(rest_after(&c("key="), &c("=")).map(|v| string_of(&v)), Some(String::new()));
    assert_eq!(string_of(&part_before(&c("zsh 5.9 (x86_64) (y)"), &c(" ("))), "zsh 5.9");
    assert_eq!(string_of(&part_before(&c("zsh 5.9"), &c(" ("))), "zsh 5.9");
    assert_eq!(string_of(&part_before(&c(" (x)"), &c(" ("))), "");
}

#[test]
fn same_compares_all_characters() {
    assert!(same(&c("abc"), &c("abc")));
    assert!(same(&c(""), &c("")));
    assert!(!same(&c("abc"), &c("abd")));
    assert!(!same(&c("abc"), &c("ab")));
}

#[test]
fn search_agrees_with_the_standard_library() {
    let texts = ["", "a", "abcabc", "aaa", "xxVGAxx", "ab", "Standard PC (Q35)"];
    let patterns = ["", "a", "bc", "aa", "VGA", "abc", "abcabcx", "Standard PC", "c"];
    for s in texts {
        for p in patterns {
            assert_eq!(contains(&c(s), &c(p)), s.contains(p), "{:?} {:?}", s, p);
            assert_eq!(starts_with(&c(s), &c(p)), s.starts_with(p), "{:?} {:?}", s, p);
            assert_eq!(find(&c(s), &c(p), 0), s.find(p), "{:?} {:?}", s, p);
        }
    }
}

#[test]
fn find_starts_at_the_given_position() {
    assert_eq!(find(&c("abcabc"), &c("bc"), 0), Some(1));
    assert_eq!(find(&c("abcabc"), &c("bc"), 1), Some(1));
    assert_eq!(find(&c("abcabc"), &c("bc"), 2), Some(4));
    assert_eq!(find(&c("abcabc"), &c("bc"), 5), None);
    assert_eq!(find(&c("abcabc"), &c("bc"), 600), None);
    assert!(matches_at(&c("abcabc"), &c("bc"), 4));
    assert!(!matches_at(&c("abcabc"), &c("bc"), 5));
    assert!(!matches_at(&c("abcabc"), &c("bc"), usize::MAX));
}

#[test]
fn remove_all_agrees_with_the_standard_library() {
    let texts = ["", "a", "abcabc", "aaa", "aaaa", "ababa", "INVINVALIDALID", "x\"y\"z", "OEM*OEM"];
    let patterns = ["", "a", "bc", "aa", "aba", "INVALID", "\"", "OEM*", "abcabcabc"];
    for s in texts {
        for p in patterns {
            assert_eq!(string_of(&remove_all(&c(s), &c(p))), s.replace(p, ""), "{:?} {:?}", s, p);
        }
    }
}

#[test]
fn split_agrees_with_the_standard_library() {
    let texts = ["", "a", "a:b:c", ":a:", "::", "a: b: c", "/usr/bin/zsh", "/", "version version 1"];
    let patterns = [":", ": ", "/", "version ", "::", "x"];
    for s in texts {
        for p in patterns {
            let expected: Vec<String> = s.split(p).map(|x| x.to_string()).collect();
            assert_eq!(strings(split(&c(s), &c(p))), expected, "{:?} {:?}", s, p);
        }
    }
}

#[test]
fn split_by_nothing_gives_the_whole() {
    assert_eq!(strings(split(&c("abc"), &c(""))), ["abc"]);
}

#[test]
fn lines_agree_with_the_standard_library() {
    for s in ["", "a", "a\n", "a\nb", "\n", "\n\n", "a\r\nb\r\n", "a\r", "a\r\n", "\r\n", "a\n\rb", "a\r\r\nb"] {
        let expected: Vec<String> = s.lines().map(|x| x.to_string()).collect();
        assert_eq!(strings(split_lines(&c(s))), expected, "{:?}", s);
    }
}

#[test]
fn fields_agree_with_the_standard_library() {
    for s in ["", " ", "a", " a  b\tc\n", "Linux version 6.1.0 (x)", "\u{a0}a\u{3000}b "] {
        let expected: Vec<String> = s.split_whitespace().map(|x| x.to_string()).collect();
        assert_eq!(strings(split_fields(&c(s))), expected, "{:?}", s);
    }
}

#[test]
fn decimal_digits_agree_with_the_standard_library() {
    for n in [0u128, 1, 9, 10, 11, 99, 100, 101, 1234567890, u64::MAX as u128, u128::MAX] {
        assert_eq!(string_of(&decimal_digits(n)), n.to_string());
    }
}

#[test]
fn padding_fills_up_to_the_width() {
    assert_eq!(string_of(&pad_left(&c("7"), 2, '0')), "07");
    assert_eq!(string_of(&pad_left(&c("17"), 2, '0')), "17");
    assert_eq!(string_of(&pad_left(&c("117"), 2, '0')), "117");
    assert_eq!(string_of(&pad_left(&c(""), 3, '-')), "---");
    assert_eq!(string_of(&pad_right(&c("os"), 9, ' ')), "os       ");
    assert_eq!(string_of(&pad_right(&c("123456789"), 9, ' ')), "123456789");
    assert_eq!(string_of(&pad_right(&c("x"), 0, ' ')), "x");
}

#[test]
fn fixed_places_show_every_digit() {
    assert_eq!(string_of(&one_place_digits(0)), "0.0");
    assert_eq!(string_of(&one_place_digits(505)), "50.5");
    assert_eq!(string_of(&one_place_digits(1000)), "100.0");
    assert_eq!(string_of(&two_place_digits(0)), "0.00");
    assert_eq!(string_of(&two_place_digits(7)), "0.07");
    assert_eq!(string_of(&two_place_digits(819200)), "8192.00");
    assert_eq!(string_of(&two_place_digits(1638409)), "16384.09");
}
