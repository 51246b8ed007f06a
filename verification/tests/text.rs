use trance::text::{decimal_string, lines_of, parse_i32, parse_u32, replace_all, signed_string, split_ws, trim_str};

#[test]
fn replace_matches_std() {
    for (s, p, r) in [("a/home/ub/home/u", "/home/u", "~"), ("aaa", "aa", "b"), ("ab", "", "~"), ("", "", "-"), ("xyz", "q", "z")] {
        assert_eq!(replace_all(s, p, r), s.replace(p, r), "{s:?} {p:?} {r:?}");
    }
}

#[test]
fn numbers_match_std() {
    for s in ["0", "+7", "4294967295", "4294967296", "-1", "", "12a", " 1"] {
        assert_eq!(parse_u32(s), s.parse::<u32>().ok(), "{s:?}");
    }
    for s in ["-2147483648", "2147483647", "2147483648", "-", "+-1", "-0"] {
        assert_eq!(parse_i32(s), s.parse::<i32>().ok(), "{s:?}");
    }
    assert_eq!(decimal_string(0), "0");
    assert_eq!(decimal_string(u64::MAX), u64::MAX.to_string());
    assert_eq!(signed_string(i32::MIN), i32::MIN.to_string());
}

#[test]
fn splitting_matches_std() {
    for s in ["a\nb\r\n\nc\r", "x\n", "", "\n", "one"] {
        assert_eq!(lines_of(s), s.lines().collect::<Vec<_>>(), "{s:?}");
    }
    for s in ["  a  b\tc\u{3000}d ", "", "   "] {
        assert_eq!(split_ws(s), s.split_whitespace().collect::<Vec<_>>(), "{s:?}");
        assert_eq!(trim_str(s), s.trim(), "{s:?}");
    }
}
