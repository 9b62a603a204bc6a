//! Texts, numbers and paths.
use cgroups::path::{components_of, join, starts_with};
use cgroups::text::{
    contains, fields, find, i64_to_string, is_space, lines, parse_i64, parse_u64, split, to_chars,
    to_text, trim, u64_to_string,
};

fn chars(s: &str) -> Vec<char> {
    to_chars(s)
}

fn texts(v: Vec<Vec<char>>) -> Vec<String> {
    v.iter().map(to_text).collect()
}

#[test]
fn unsigned_numbers_are_read_as_decimal() {
    assert_eq!(parse_u64(&chars("0")), Some(0));
    assert_eq!(parse_u64(&chars("1337")), Some(1337));
    assert_eq!(parse_u64(&chars("+5")), Some(5));
    assert_eq!(parse_u64(&chars("007")), Some(7));
    assert_eq!(parse_u64(&chars("18446744073709551615")), Some(u64::MAX));
    assert_eq!(parse_u64(&chars("18446744073709551616")), None);
    assert_eq!(parse_u64(&chars("99999999999999999999999")), None);
    assert_eq!(parse_u64(&chars("")), None);
    assert_eq!(parse_u64(&chars("+")), None);
    assert_eq!(parse_u64(&chars("-1")), None);
    assert_eq!(parse_u64(&chars("-0")), None);
    assert_eq!(parse_u64(&chars(" 1")), None);
    assert_eq!(parse_u64(&chars("1 ")), None);
    assert_eq!(parse_u64(&chars("12a")), None);
    assert_eq!(parse_u64(&chars("0x10")), None);
    assert_eq!(parse_u64(&chars("++1")), None);
}

#[test]
fn signed_numbers_are_read_as_decimal() {
    assert_eq!(parse_i64(&chars("0")), Some(0));
    assert_eq!(parse_i64(&chars("-0")), Some(0));
    assert_eq!(parse_i64(&chars("+12")), Some(12));
    assert_eq!(parse_i64(&chars("-12")), Some(-12));
    assert_eq!(parse_i64(&chars("9223372036854775807")), Some(i64::MAX));
    assert_eq!(parse_i64(&chars("9223372036854775808")), None);
    assert_eq!(parse_i64(&chars("-9223372036854775808")), Some(i64::MIN));
    assert_eq!(parse_i64(&chars("-9223372036854775809")), None);
    assert_eq!(parse_i64(&chars("-")), None);
    assert_eq!(parse_i64(&chars("+")), None);
    assert_eq!(parse_i64(&chars("")), None);
    assert_eq!(parse_i64(&chars("--1")), None);
    assert_eq!(parse_i64(&chars("+-1")), None);
    assert_eq!(parse_i64(&chars("*")), None);
}

#[test]
fn numbers_are_written_as_decimal() {
    assert_eq!(u64_to_string(0), "0");
    assert_eq!(u64_to_string(9), "9");
    assert_eq!(u64_to_string(10), "10");
    assert_eq!(u64_to_string(1337), "1337");
    assert_eq!(u64_to_string(u64::MAX), "18446744073709551615");
    assert_eq!(i64_to_string(0), "0");
    assert_eq!(i64_to_string(-1), "-1");
    assert_eq!(i64_to_string(i64::MAX), "9223372036854775807");
    assert_eq!(i64_to_string(i64::MIN), "-9223372036854775808");
}

#[test]
fn what_is_written_reads_back() {
    for v in [0u64, 1, 9, 10, 99, 100, 12345, u64::MAX - 1, u64::MAX] {
        assert_eq!(parse_u64(&chars(&u64_to_string(v))), Some(v));
    }
    for v in [0i64, 1, -1, 10, -10, i64::MAX, i64::MIN, i64::MIN + 1] {
        assert_eq!(parse_i64(&chars(&i64_to_string(v))), Some(v));
    }
}

#[test]
fn white_space_is_cut_from_both_ends() {
    assert_eq!(to_text(&trim(&chars("  a b \n"))), "a b");
    assert_eq!(to_text(&trim(&chars("\t\r\n"))), "");
    assert_eq!(to_text(&trim(&chars(""))), "");
    assert_eq!(to_text(&trim(&chars("x"))), "x");
    assert_eq!(to_text(&trim(&chars("\u{a0}x\u{3000}"))), "x");
    for c in ['\t', '\n', '\u{b}', '\u{c}', '\r', ' ', '\u{85}', '\u{a0}', '\u{1680}', '\u{2000}',
              '\u{200a}', '\u{2028}', '\u{2029}', '\u{202f}', '\u{205f}', '\u{3000}'] {
        assert!(is_space(c), "{:?}", c);
        assert!(c.is_whitespace());
    }
    for c in ['a', '0', '\u{8}', '\u{e}', '\u{200b}', '\u{1f}', '\u{feff}'] {
        assert!(!is_space(c), "{:?}", c);
        assert!(!c.is_whitespace());
    }
}

#[test]
fn fields_are_what_white_space_separates() {
    assert_eq!(texts(fields(&chars(" a  bc\td\n"))), vec!["a", "bc", "d"]);
    assert_eq!(texts(fields(&chars("abc"))), vec!["abc"]);
    assert_eq!(texts(fields(&chars("  \n"))), Vec::<String>::new());
    assert_eq!(texts(fields(&chars(""))), Vec::<String>::new());
    for s in ["", " ", "a", " a", "a ", "a b", "  a  b  ", "a\nb\tc  d"] {
        let want: Vec<String> = s.split_whitespace().map(|x| x.to_string()).collect();
        assert_eq!(texts(fields(&chars(s))), want, "{:?}", s);
    }
}

#[test]
fn pieces_are_what_separators_separate() {
    assert_eq!(texts(split(&chars("a,b,,c"), ',', ',')), vec!["a", "b", "", "c"]);
    assert_eq!(texts(split(&chars(""), ',', ',')), vec![""]);
    assert_eq!(texts(split(&chars(","), ',', ',')), vec!["", ""]);
    assert_eq!(texts(split(&chars("c 1:3 m"), ' ', ':')), vec!["c", "1", "3", "m"]);
    for s in ["", "a", ",", "a,", ",a", "a,,b", "a-b,c"] {
        let want: Vec<String> = s.split(',').map(|x| x.to_string()).collect();
        assert_eq!(texts(split(&chars(s), ',', ',')), want, "{:?}", s);
    }
}

#[test]
fn lines_end_with_a_line_feed() {
    assert_eq!(texts(lines(&chars("a\nb\n"))), vec!["a", "b"]);
    assert_eq!(texts(lines(&chars("a\nb"))), vec!["a", "b"]);
    assert_eq!(texts(lines(&chars("a\r\nb\r\n"))), vec!["a", "b"]);
    assert_eq!(texts(lines(&chars("a\n\nb"))), vec!["a", "", "b"]);
    assert_eq!(texts(lines(&chars(""))), Vec::<String>::new());
    assert_eq!(texts(lines(&chars("\n"))), vec![""]);
    for s in ["", "\n", "a", "a\n", "a\r\n", "\r\n", "a\n\n", "a\rb\n", "\n\n"] {
        let want: Vec<String> = s.lines().map(|x| x.to_string()).collect();
        assert_eq!(texts(lines(&chars(s))), want, "{:?}", s);
    }
}

#[test]
fn a_text_is_found_where_it_first_stands() {
    assert_eq!(find(&chars("a - b - c"), &chars(" - ")), Some(1));
    assert_eq!(find(&chars("abc"), &chars("abc")), Some(0));
    assert_eq!(find(&chars("abc"), &chars("c")), Some(2));
    assert_eq!(find(&chars("abc"), &chars("abcd")), None);
    assert_eq!(find(&chars("abc"), &chars("")), Some(0));
    assert_eq!(find(&chars(""), &chars("")), Some(0));
    assert_eq!(find(&chars("aab"), &chars("ab")), Some(1));
    assert!(contains(&chars("rw,ro"), &chars("ro")));
    assert!(!contains(&chars("rw"), &chars("ro")));
}

#[test]
fn joining_adds_to_a_path_or_replaces_it() {
    assert_eq!(join("/sys/fs/cgroup", "pids"), "/sys/fs/cgroup/pids");
    assert_eq!(join("/sys/fs/cgroup/", "pids"), "/sys/fs/cgroup/pids");
    assert_eq!(join("/sys/fs/cgroup", "a/b"), "/sys/fs/cgroup/a/b");
    assert_eq!(join("/sys/fs/cgroup", "/etc"), "/etc");
    assert_eq!(join("/sys/fs/cgroup", ""), "/sys/fs/cgroup/");
    assert_eq!(join("", "pids"), "pids");
    assert_eq!(join("/", "pids"), "/pids");
    assert_eq!(join("a", "../b"), "a/../b");
}

#[test]
fn a_path_has_components() {
    assert_eq!(texts(components_of(&chars("/a/b"))), vec!["/", "a", "b"]);
    assert_eq!(texts(components_of(&chars("a//b/"))), vec!["a", "b"]);
    assert_eq!(texts(components_of(&chars("/a/./b/."))), vec!["/", "a", "b"]);
    assert_eq!(texts(components_of(&chars("./a"))), vec![".", "a"]);
    assert_eq!(texts(components_of(&chars("a/../b"))), vec!["a", "..", "b"]);
    assert_eq!(texts(components_of(&chars("/"))), vec!["/"]);
    assert_eq!(texts(components_of(&chars(""))), Vec::<String>::new());
}

#[test]
fn below_goes_by_whole_components() {
    assert!(starts_with("/sys/fs/cgroup/pids", "/sys/fs/cgroup/pids"));
    assert!(starts_with("/sys/fs/cgroup/pids/grp", "/sys/fs/cgroup/pids"));
    assert!(starts_with("/sys/fs/cgroup/pids/", "/sys/fs/cgroup//pids"));
    assert!(!starts_with("/sys/fs/cgroup/pidsx", "/sys/fs/cgroup/pids"));
    assert!(!starts_with("/sys/fs/cgroup", "/sys/fs/cgroup/pids"));
    assert!(!starts_with("/etc", "/sys/fs/cgroup/pids"));
    assert!(!starts_with("sys/fs", "/sys/fs"));
    assert!(starts_with("/sys", "/"));
    assert!(starts_with("anything", ""));
    assert!(starts_with("/sys/fs/cgroup/pids/../../x", "/sys/fs/cgroup/pids"));
    for (p, b) in [("/a/b", "/a"), ("/a/b", "/a/"), ("/ab", "/a"), ("a/b", "a"), ("./a", "a"),
                   ("a/./b", "a/b"), ("/a/b/", "/a/b"), ("", ""), ("a", ""), ("", "a")] {
        assert_eq!(starts_with(p, b), std::path::Path::new(p).starts_with(b), "{:?} {:?}", p, b);
    }
}

#[test]
fn numbers_are_read_as_the_standard_library_reads_them() {
    let cases = [
        "", "0", "00", "+0", "-0", "+", "-", "1", "+1", "-1", "++1", "--1", "+-1", "1+", " 1", "1 ",
        "١", "1_000", "0x1", "1e3", "18446744073709551615", "18446744073709551616",
        "+18446744073709551615", "9223372036854775807", "9223372036854775808",
        "-9223372036854775808", "-9223372036854775809", "000000000000000000000000001",
        "99999999999999999999", "-99999999999999999999", "max", "*",
    ];
    for s in cases {
        assert_eq!(parse_u64(&chars(s)), s.parse::<u64>().ok(), "{:?}", s);
        assert_eq!(parse_i64(&chars(s)), s.parse::<i64>().ok(), "{:?}", s);
    }
}

#[test]
fn white_space_is_what_the_standard_library_takes_for_it() {
    for code in 0u32..0x3100 {
        if let Some(c) = char::from_u32(code) {
            assert_eq!(is_space(c), c.is_whitespace(), "{:?}", c);
        }
    }
    let cases = ["", " ", "a", " a ", "\ta\n", "\u{a0}a\u{2003}", "a b", "\r\n", "\u{feff}a"];
    for s in cases {
        assert_eq!(to_text(&trim(&chars(s))), s.trim(), "{:?}", s);
    }
}
