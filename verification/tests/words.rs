use rollup::error::{DecoderError, ErrCode, Error, IoError, Kind, UsageError};
use rollup::json::parse;
use rollup::prompt::{get_prompt, Prompt};
use rollup::text::{
    chars_of, equals_ignoring_case, find, push_decimal, split_at, string_of, trimmed,
};

fn chars(s: &str) -> Vec<char> {
    s.chars().collect()
}

fn decimal(n: u64) -> String {
    let mut out = String::from("#");
    push_decimal(&mut out, n);
    out
}

#[test]
fn prompt_letters_in_either_case() {
    assert_eq!(get_prompt("y"), Some(Prompt::Yes));
    assert_eq!(get_prompt("Y"), Some(Prompt::Yes));
    assert_eq!(get_prompt("n"), Some(Prompt::No));
    assert_eq!(get_prompt("N"), Some(Prompt::No));
    assert_eq!(get_prompt("q"), Some(Prompt::Quit));
    assert_eq!(get_prompt("Q"), Some(Prompt::Quit));
}

#[test]
fn prompt_ignores_white_space_around_the_letter() {
    assert_eq!(get_prompt("y\n"), Some(Prompt::Yes));
    assert_eq!(get_prompt("  n\r\n"), Some(Prompt::No));
    assert_eq!(get_prompt("\t q \u{a0}\u{3000}"), Some(Prompt::Quit));
    assert_eq!(get_prompt("\u{9}\u{a}\u{b}\u{c}\u{d} y"), Some(Prompt::Yes));
}

#[test]
fn prompt_white_space_is_that_of_unicode() {
    let white = [
        '\u{9}', '\u{a}', '\u{b}', '\u{c}', '\u{d}', ' ', '\u{85}', '\u{a0}', '\u{1680}',
        '\u{2000}', '\u{2001}', '\u{2002}', '\u{2003}', '\u{2004}', '\u{2005}', '\u{2006}',
        '\u{2007}', '\u{2008}', '\u{2009}', '\u{200a}', '\u{2028}', '\u{2029}', '\u{202f}',
        '\u{205f}', '\u{3000}',
    ];
    for c in white {
        assert!(c.is_whitespace());
        assert_eq!(get_prompt(&format!("{}y{}", c, c)), Some(Prompt::Yes));
    }
    let other = [
        '\u{0}', '\u{8}', '\u{e}', '\u{1c}', '\u{1f}', '!', '\u{7f}', '\u{84}', '\u{86}',
        '\u{9f}', '\u{a1}', '\u{167f}', '\u{1681}', '\u{180e}', '\u{1fff}', '\u{200b}',
        '\u{200c}', '\u{2027}', '\u{202a}', '\u{202e}', '\u{2030}', '\u{205e}', '\u{2060}',
        '\u{2fff}', '\u{3001}', '\u{feff}',
    ];
    for c in other {
        assert!(!c.is_whitespace());
        assert_eq!(get_prompt(&format!("{}y", c)), None);
    }
    for code in 0..0x11_0000u32 {
        if let Some(c) = char::from_u32(code) {
            assert_eq!(get_prompt(&format!("q{}", c)).is_some(), white.contains(&c));
        }
    }
}

#[test]
fn prompt_takes_nothing_else_for_an_answer() {
    for line in ["", "\n", "   ", "yes", "no", "y y", "yn", "x", "0", "y\u{0}", "\u{ff59}", "\u{1c}q", "q\u{8}"] {
        assert_eq!(get_prompt(line), None);
    }
}

#[test]
fn decimal_digits() {
    assert_eq!(decimal(0), "#0");
    assert_eq!(decimal(7), "#7");
    assert_eq!(decimal(10), "#10");
    assert_eq!(decimal(1234567890), "#1234567890");
    assert_eq!(decimal(18446744073709551615), "#18446744073709551615");
}

#[test]
fn characters_and_back() {
    assert_eq!(chars_of("a\u{e9}\u{1f600}"), vec!['a', '\u{e9}', '\u{1f600}']);
    assert!(chars_of("").is_empty());
    let cs = chars("hello");
    assert_eq!(string_of(&cs, 1, 4), "ell");
    assert_eq!(string_of(&cs, 0, 5), "hello");
    assert_eq!(string_of(&cs, 3, 3), "");
}

#[test]
fn find_gives_the_first_place() {
    assert_eq!(find(&chars("abcabc"), &chars("bc")), Some(1));
    assert_eq!(find(&chars("abcabc"), &chars("abcabc")), Some(0));
    assert_eq!(find(&chars("abcabc"), &chars("c")), Some(2));
    assert_eq!(find(&chars("aaa"), &chars("aa")), Some(0));
    assert_eq!(find(&chars("abc"), &chars("")), Some(0));
    assert_eq!(find(&chars(""), &chars("")), Some(0));
    assert_eq!(find(&chars("abc"), &chars("abcd")), None);
    assert_eq!(find(&chars("abc"), &chars("cb")), None);
    assert_eq!(find(&chars(""), &chars("a")), None);
}

#[test]
fn split_cuts_at_every_separator() {
    assert_eq!(split_at(&chars("a,b,c"), ','), vec!["a", "b", "c"]);
    assert_eq!(split_at(&chars("abc"), ','), vec!["abc"]);
    assert_eq!(split_at(&chars(""), ','), vec![""]);
    assert_eq!(split_at(&chars(","), ','), vec!["", ""]);
    assert_eq!(split_at(&chars(",a,,b,"), ','), vec!["", "a", "", "b", ""]);
    assert_eq!(split_at(&chars("a, b"), ','), vec!["a", " b"]);
}

#[test]
fn trimmed_drops_blanks_at_both_ends() {
    let cs = chars("  \ta b\r\n");
    assert_eq!(trimmed(&cs, 0, cs.len()), "a b");
    assert_eq!(trimmed(&cs, 3, 6), "a b");
    assert_eq!(trimmed(&cs, 4, 5), "");
    assert_eq!(trimmed(&cs, 0, 3), "");
    assert_eq!(trimmed(&cs, 2, 2), "");
    let other = chars("\u{a0}x\u{a0}");
    assert_eq!(trimmed(&other, 0, 3), "\u{a0}x\u{a0}");
}

#[test]
fn case_of_letters_is_ignored() {
    let cs = chars("xLiNk:");
    assert!(equals_ignoring_case(&cs, 1, 5, &chars("link")));
    assert!(equals_ignoring_case(&cs, 1, 5, &chars("LINK")));
    assert!(!equals_ignoring_case(&cs, 0, 5, &chars("link")));
    assert!(!equals_ignoring_case(&cs, 1, 5, &chars("lynk")));
    assert!(equals_ignoring_case(&cs, 2, 2, &chars("")));
    assert!(!equals_ignoring_case(&chars("@["), 0, 2, &chars("`{")));
    assert!(!equals_ignoring_case(&chars("\u{c9}"), 0, 1, &chars("\u{e9}")));
}

#[test]
fn errors_wrap_what_they_come_from() {
    assert!(matches!(Error::from(ErrCode(7)), Error::HTTPError(ErrCode(7))));
    match Error::from(DecoderError::MissingFieldError(String::from("num"))) {
        Error::JSONDecoderError(DecoderError::MissingFieldError(name)) => assert_eq!(name, "num"),
        other => panic!("{:?}", other),
    }
    match Error::from(DecoderError::ExpectedError(Kind::Array, Kind::Null)) {
        Error::JSONDecoderError(DecoderError::ExpectedError(wanted, found)) => {
            assert_eq!((wanted, found), (Kind::Array, Kind::Null))
        }
        other => panic!("{:?}", other),
    }
    let unclosed = rustc_serialize::json::Json::from_str("[").unwrap_err();
    match Error::from(unclosed) {
        Error::JSONParserError(error) => {
            assert_eq!(error, rustc_serialize::json::Json::from_str("[").unwrap_err())
        }
        other => panic!("{:?}", other),
    }
    match parse("[") {
        Err(DecoderError::ParseError(error)) => {
            assert_eq!(error, rustc_serialize::json::Json::from_str("[").unwrap_err())
        }
        other => panic!("{:?}", other),
    }
    match Error::from(IoError { code: Some(13), detail: String::from("denied") }) {
        Error::GitError(error) => assert_eq!((error.code, error.detail.as_str()), (Some(13), "denied")),
        other => panic!("{:?}", other),
    }
    match Error::from(UsageError { detail: String::from("Invalid arguments.") }) {
        Error::DocoptError(error) => assert_eq!(error.detail, "Invalid arguments."),
        other => panic!("{:?}", other),
    }
}
