use aya_btf_maps::text::{char_is_whitespace, chars_of, join_strings, split_terminator, trim_str};

const SAMPLES: &[&str] = &[
    "",
    " ",
    "  ",
    "a",
    "a ",
    " a",
    "a b",
    "a  b ",
    "a b  ",
    "\u{a0}x\u{3000}",
    "\t\n hello world \r\n",
    "\u{2009}\u{85}mid dle\u{1680}",
    "ünï cödé  ",
];

#[test]
fn whitespace_matches_std() {
    for n in 0u32..0x4000 {
        if let Some(c) = char::from_u32(n) {
            assert_eq!(char_is_whitespace(c), c.is_whitespace(), "{:#x}", n);
        }
    }
}

#[test]
fn trim_matches_std() {
    for s in SAMPLES {
        assert_eq!(trim_str(s), s.trim(), "{:?}", s);
    }
}

#[test]
fn split_terminator_matches_std() {
    for s in SAMPLES {
        for sep in [' ', 'a', '\u{3000}'] {
            let expected: Vec<String> = s.split_terminator(sep).map(|p| p.to_string()).collect();
            assert_eq!(split_terminator(s, sep), expected, "{:?} {:?}", s, sep);
        }
    }
}

#[test]
fn split_then_join_gives_back_the_text() {
    for s in ["a b c", "sudo -E", "x", "", "a  b"] {
        let parts = split_terminator(s, ' ');
        assert_eq!(join_strings(&parts, " "), s);
    }
}

#[test]
fn join_examples() {
    let v: Vec<String> = vec!["a".into(), "".into(), "b".into()];
    assert_eq!(join_strings(&v, ", "), "a, , b");
    assert_eq!(join_strings(&vec![], "-"), "");
    assert_eq!(join_strings(&vec!["only".to_string()], "-"), "only");
}

#[test]
fn chars_in_order() {
    assert_eq!(chars_of("hé y"), vec!['h', 'é', ' ', 'y']);
}
