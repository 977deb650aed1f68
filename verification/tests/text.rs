use rust_iptables::text::{
    chars_of, find_in, is_space_char, render, same, split_chars, string_of, trim_spaces,
};

fn chars(s: &str) -> Vec<char> {
    s.chars().collect()
}

fn strings(pieces: Vec<Vec<char>>) -> Vec<String> {
    pieces.into_iter().map(|p| p.into_iter().collect()).collect()
}

#[test]
fn render_writes_decimal() {
    assert_eq!(render(0), "0");
    assert_eq!(render(7), "7");
    assert_eq!(render(10), "10");
    assert_eq!(render(1234567890), "1234567890");
    assert_eq!(render(-1), "-1");
    assert_eq!(render(-120), "-120");
    assert_eq!(render(i32::MAX), "2147483647");
    assert_eq!(render(i32::MIN), "-2147483648");
}

#[test]
fn render_agrees_with_the_standard_library() {
    let mut n: i32 = -100_000;
    while n <= 100_000 {
        assert_eq!(render(n), n.to_string());
        n += 37;
    }
}

#[test]
fn chars_and_back() {
    assert_eq!(chars_of("a\u{e9}\u{1f600}z"), vec!['a', '\u{e9}', '\u{1f600}', 'z']);
    assert_eq!(chars_of(""), Vec::<char>::new());
    let v = chars("hello world");
    assert_eq!(string_of(&v, 0, 11), "hello world");
    assert_eq!(string_of(&v, 6, 11), "world");
    assert_eq!(string_of(&v, 3, 3), "");
}

#[test]
fn split_keeps_empty_pieces() {
    assert_eq!(strings(split_chars(&chars("a b c"), ' ')), vec!["a", "b", "c"]);
    assert_eq!(strings(split_chars(&chars(""), ' ')), vec![""]);
    assert_eq!(strings(split_chars(&chars(" "), ' ')), vec!["", ""]);
    assert_eq!(strings(split_chars(&chars("a  b"), ' ')), vec!["a", "", "b"]);
    assert_eq!(strings(split_chars(&chars(" a "), ' ')), vec!["", "a", ""]);
    assert_eq!(strings(split_chars(&chars("one\ntwo\n"), '\n')), vec!["one", "two", ""]);
    assert_eq!(strings(split_chars(&chars("none"), '\n')), vec!["none"]);
}

#[test]
fn split_agrees_with_the_standard_library() {
    for text in ["", "a", ",", ",,", "a,b", ",a,,b,", "x,y,z,,"] {
        let expected: Vec<String> = text.split(',').map(String::from).collect();
        assert_eq!(strings(split_chars(&chars(text), ',')), expected);
    }
}

#[test]
fn trim_removes_white_space_at_the_ends() {
    let trimmed: String = trim_spaces(&chars("  \t a b \r\n")).into_iter().collect();
    assert_eq!(trimmed, "a b");
    assert_eq!(trim_spaces(&chars(" \n\t ")), Vec::<char>::new());
    assert_eq!(trim_spaces(&chars("")), Vec::<char>::new());
    assert_eq!(trim_spaces(&chars("x")), vec!['x']);
    let wide: String = trim_spaces(&chars("\u{a0}\u{3000}x\u{2003}\u{85}")).into_iter().collect();
    assert_eq!(wide, "x");
}

#[test]
fn white_space_is_that_of_the_standard_library() {
    let mut code: u32 = 0;
    while code <= 0x3100 {
        if let Some(c) = char::from_u32(code) {
            assert_eq!(is_space_char(c), c.is_whitespace());
        }
        code += 1;
    }
    assert!(!is_space_char('\u{feff}'));
    assert!(!is_space_char('\u{1f600}'));
}

#[test]
fn find_in_finds_runs() {
    assert!(find_in(&chars("hello world"), &chars("lo w")));
    assert!(find_in(&chars("hello"), &chars("hello")));
    assert!(find_in(&chars("hello"), &chars("")));
    assert!(find_in(&chars(""), &chars("")));
    assert!(find_in(&chars("aab"), &chars("ab")));
    assert!(!find_in(&chars("hello"), &chars("hello!")));
    assert!(!find_in(&chars(""), &chars("a")));
    assert!(!find_in(&chars("abcabd"), &chars("abx")));
    assert!(find_in(&chars("abcabd"), &chars("abd")));
}

#[test]
fn same_compares_text() {
    assert!(same("linux", "linux"));
    assert!(same("", ""));
    assert!(!same("linux", "linus"));
    assert!(!same("linux", "linux "));
    assert!(!same("a", ""));
}
