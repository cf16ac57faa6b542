use adapter_supervisor::text::{
    chars_of, find_from, is_whitespace, lines, push_all, push_decimal, same_text, slice_of,
    starts_with, string_of, trim, trim_end,
};

fn chars(s: &str) -> Vec<char> {
    s.chars().collect()
}

fn text(v: &[char]) -> String {
    v.iter().collect()
}

const SAMPLES: [&str; 22] = [
    "",
    " ",
    "a",
    "  a  ",
    "\t\r\n a b \n\t",
    "\u{a0}x\u{3000}",
    "\u{2003}\u{2028}word\u{85}",
    "\u{200b}zero width is no space\u{200b}",
    "a\nb",
    "a\nb\n",
    "a\r\nb\r\n",
    "\n",
    "\n\n",
    "\r\n",
    "a\r",
    "a\rb\n",
    "\r",
    "a\n\nb",
    "no newline at all",
    "\r\r\n",
    "x\n\r\ny",
    "tail  \n",
];

#[test]
fn white_space_is_what_the_standard_library_takes_for_it() {
    for n in 0..=0x10ffffu32 {
        if let Some(c) = char::from_u32(n) {
            assert_eq!(is_whitespace(c), c.is_whitespace(), "character {:#x}", n);
        }
    }
}

#[test]
fn trimming_agrees_with_the_standard_library() {
    for s in SAMPLES {
        assert_eq!(text(&trim(&chars(s))), s.trim(), "trim of {:?}", s);
        assert_eq!(text(&trim_end(&chars(s))), s.trim_end(), "trim_end of {:?}", s);
    }
}

#[test]
fn trimming_keeps_inner_white_space() {
    assert_eq!(text(&trim(&chars("  a  b  "))), "a  b");
    assert_eq!(text(&trim_end(&chars("  a  b  "))), "  a  b");
    assert_eq!(text(&trim(&chars(" \t\n"))), "");
}

#[test]
fn lines_agree_with_the_standard_library() {
    for s in SAMPLES {
        let got: Vec<String> = lines(&chars(s)).iter().map(|l| text(l)).collect();
        let want: Vec<String> = s.lines().map(|l| l.to_string()).collect();
        assert_eq!(got, want, "lines of {:?}", s);
    }
}

#[test]
fn a_line_ends_at_a_line_feed_and_loses_the_carriage_return_before_it() {
    let got: Vec<String> = lines(&chars("one\r\ntwo\n\nthree\r")).iter().map(|l| text(l)).collect();
    assert_eq!(got, vec!["one", "two", "", "three\r"]);
    assert!(lines(&chars("")).is_empty());
}

#[test]
fn strings_and_characters_convert_both_ways() {
    for s in SAMPLES {
        assert_eq!(chars_of(s), chars(s));
        assert_eq!(string_of(&chars(s)), s);
    }
    assert_eq!(chars_of("h\u{e9}\u{1f600}"), vec!['h', '\u{e9}', '\u{1f600}']);
}

#[test]
fn a_slice_is_the_part_between_two_places() {
    let v = chars("abcdef");
    assert_eq!(text(&slice_of(&v, 1, 4)), "bcd");
    assert_eq!(text(&slice_of(&v, 0, 6)), "abcdef");
    assert_eq!(text(&slice_of(&v, 3, 3)), "");
}

#[test]
fn find_from_gives_the_first_place_or_the_length() {
    let v = chars("a=b=c");
    assert_eq!(find_from(&v, 0, '='), 1);
    assert_eq!(find_from(&v, 2, '='), 3);
    assert_eq!(find_from(&v, 4, '='), 5);
    assert_eq!(find_from(&v, 5, '='), 5);
    assert_eq!(find_from(&v, 0, 'z'), 5);
}

#[test]
fn prefixes_and_equality() {
    assert!(starts_with(&chars("profile dev"), &chars("profile ")));
    assert!(starts_with(&chars("abc"), &chars("")));
    assert!(starts_with(&chars("abc"), &chars("abc")));
    assert!(!starts_with(&chars("ab"), &chars("abc")));
    assert!(!starts_with(&chars("xbc"), &chars("ab")));
    assert!(same_text(&chars("abc"), &chars("abc")));
    assert!(!same_text(&chars("abc"), &chars("abd")));
    assert!(!same_text(&chars("abc"), &chars("ab")));
}

#[test]
fn push_all_appends_in_order() {
    let mut out = chars("ab");
    push_all(&mut out, &chars("cd"));
    push_all(&mut out, &chars(""));
    assert_eq!(text(&out), "abcd");
}

#[test]
fn decimal_digits_have_no_leading_zeros() {
    for (n, want) in [
        (0u128, "0"),
        (7, "7"),
        (10, "10"),
        (909, "909"),
        (1000, "1000"),
        (u128::MAX, "340282366920938463463374607431768211455"),
    ] {
        let mut out = chars("n=");
        push_decimal(n, &mut out);
        assert_eq!(text(&out), format!("n={}", want));
    }
}
