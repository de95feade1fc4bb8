use bux::path::join;
use bux::text::{
    cut_first, cut_last, dec_i64, dec_u64, has_prefix, has_suffix, hex_of_bytes, hex_u64,
    join_from, padded, read_i32, read_u32, split_all, split_lines, substitute, trimmed,
    white_space,
};

#[test]
fn white_space_is_that_of_char() {
    for n in 0..0x11_0000u32 {
        if let Some(c) = char::from_u32(n) {
            assert_eq!(white_space(c), c.is_whitespace(), "{n:x}");
        }
    }
}

#[test]
fn splitting_is_that_of_str() {
    for s in ["", ":", "a", "a:b", ":a::b:", "é:ü"] {
        let expected: Vec<String> = s.split(':').map(|p| p.to_string()).collect();
        assert_eq!(split_all(s, ':'), expected);
        assert_eq!(
            cut_first(s, ':'),
            s.split_once(':').map(|(a, b)| (a.to_string(), b.to_string()))
        );
        assert_eq!(
            cut_last(s, ':'),
            s.rsplit_once(':').map(|(a, b)| (a.to_string(), b.to_string()))
        );
    }
}

#[test]
fn lines_are_those_of_str() {
    for s in ["", "\n", "a", "a\n", "a\nb", "a\r\nb\r", "\r\n\n", "a\r\r\nb"] {
        let expected: Vec<String> = s.lines().map(|p| p.to_string()).collect();
        assert_eq!(split_lines(s), expected, "{s:?}");
    }
}

#[test]
fn trimming_is_that_of_str() {
    for s in ["", " ", " a ", "\u{2003}x\u{a0}", "a b", "\t\n"] {
        assert_eq!(trimmed(s), s.trim());
        assert_eq!(has_prefix(s, " "), s.starts_with(' '));
        assert_eq!(has_suffix(s, " "), s.ends_with(' '));
    }
    assert!(has_suffix("/bin/sleep", "sleep"));
    assert!(!has_suffix("leep", "sleep"));
    assert!(has_prefix("abc", ""));
}

#[test]
fn numbers_read_and_print() {
    for s in ["0", "007", "+5", "4294967295", "4294967296", "-1", "", "+", "1x", " 1", "٣"] {
        assert_eq!(read_u32(s), s.parse::<u32>().ok(), "{s:?}");
    }
    for s in ["0", "-0", "+7", "2147483647", "2147483648", "-2147483648", "-2147483649", "-", "--1"] {
        assert_eq!(read_i32(s), s.parse::<i32>().ok(), "{s:?}");
    }
    for n in [0u64, 9, 10, 4096, u64::MAX] {
        assert_eq!(dec_u64(n), n.to_string());
        assert_eq!(hex_u64(n), format!("{n:x}"));
    }
    for n in [0i64, -1, i64::MIN, i64::MAX] {
        assert_eq!(dec_i64(n), n.to_string());
    }
    assert_eq!(hex_of_bytes(&vec![0, 15, 16, 255]), "000f10ff");
}

#[test]
fn joining_and_padding() {
    let v: Vec<String> = vec!["a".into(), "b".into(), "c".into()];
    assert_eq!(join_from(&v, 0, ", "), "a, b, c");
    assert_eq!(join_from(&v, 2, ", "), "c");
    assert_eq!(join_from(&v, 3, ", "), "");
    assert_eq!(padded("é", 3), format!("{:<3}", "é"));
    assert_eq!(padded("long", 2), "long");
    assert_eq!(substitute("a:b:", ':', '-'), "a-b-");
}

#[test]
fn paths_join_as_paths_do() {
    for (a, b) in [("/a", "b"), ("/a/", "b"), ("", "b"), ("/a", "/b"), ("a", "b/c")] {
        assert_eq!(
            join(a, b),
            std::path::Path::new(a).join(b).to_str().unwrap()
        );
    }
}
