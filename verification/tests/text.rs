use ota_signer::text::{
    chars_contain, chars_of, split_chars, str_contains, text_equal, trim, trim_chars,
};

fn chars(text: &str) -> Vec<char> {
    text.chars().collect()
}

#[test]
fn characters_of_a_string() {
    assert_eq!(chars_of("aé😀"), vec!['a', 'é', '😀']);
    assert_eq!(chars_of(""), Vec::<char>::new());
}

#[test]
fn equality_of_texts() {
    assert!(text_equal("udid", "udid"));
    assert!(text_equal("", ""));
    assert!(!text_equal("udid", "udi"));
    assert!(!text_equal("udid", "udie"));
    assert!(!text_equal("udid", "UDID"));
    assert!(!text_equal("", "x"));
}

#[test]
fn substring_search() {
    assert!(str_contains("Signed OK!", "Signed OK!"));
    assert!(str_contains(">>> Signed OK!\n", "Signed OK!"));
    assert!(str_contains("aab", "ab"));
    assert!(str_contains("abc", "c"));
    assert!(str_contains("abc", "a"));
    assert!(!str_contains("Signed OK", "Signed OK!"));
    assert!(!str_contains("abc", "ac"));
    assert!(!str_contains("", "a"));
    assert!(!str_contains("ab", "abc"));
}

#[test]
fn the_empty_text_is_found_everywhere() {
    assert!(str_contains("", ""));
    assert!(str_contains("abc", ""));
    assert!(chars_contain(&chars("x"), &chars("")));
}

#[test]
fn substring_search_agrees_with_the_standard_one() {
    let hays = ["", "a", "ab", "aab", "abab", "iPhone OS", "xxiPadxx", "ééé"];
    let needles = ["", "a", "b", "ab", "ba", "aab", "iPad", "iPhone", "é", "éé", "éééé"];
    for hay in hays {
        for needle in needles {
            assert_eq!(str_contains(hay, needle), hay.contains(needle), "{:?} in {:?}", needle, hay);
        }
    }
}

#[test]
fn trimming() {
    assert_eq!(trim("  abc  "), "abc");
    assert_eq!(trim("\t\n abc"), "abc");
    assert_eq!(trim("abc\r\n"), "abc");
    assert_eq!(trim("a b"), "a b");
    assert_eq!(trim(" a  b "), "a  b");
    assert_eq!(trim(""), "");
    assert_eq!(trim(" \t "), "");
    assert_eq!(trim("\u{a0}x\u{3000}"), "x");
    assert_eq!(trim_chars(&chars(" x ")), "x");
}

#[test]
fn trimming_agrees_with_the_standard_one() {
    for text in ["", " ", "a", " a", "a ", " a ", "\u{2003}a b\u{85}", "\u{200b}x", "_ _"] {
        assert_eq!(trim(text), text.trim(), "{:?}", text);
    }
}

#[test]
fn splitting() {
    assert_eq!(split_chars(&chars("a,b,c"), ','), vec![chars("a"), chars("b"), chars("c")]);
    assert_eq!(split_chars(&chars("abc"), ','), vec![chars("abc")]);
    assert_eq!(split_chars(&chars(""), ','), vec![chars("")]);
    assert_eq!(split_chars(&chars(","), ','), vec![chars(""), chars("")]);
    assert_eq!(split_chars(&chars(",a,,b,"), ','), vec![chars(""), chars("a"), chars(""), chars("b"), chars("")]);
}

#[test]
fn splitting_agrees_with_the_standard_one() {
    for text in ["", ",", "a", "a,", ",a", "a,b", "a,,b", ",,,", " a , b "] {
        let expected: Vec<Vec<char>> = text.split(',').map(chars).collect();
        assert_eq!(split_chars(&chars(text), ','), expected, "{:?}", text);
    }
}
