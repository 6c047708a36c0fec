use ascot::parse::{bool_error_message, parse_bool_chars, parse_unsigned_chars, IntErrorKind};
use ascot::text::{
    bytes_eq, contains_chars, range_eq, split_ranges, split_terminator_ranges, str_eq, to_chars,
};

fn pieces(s: &str, ranges: &[(usize, usize)]) -> Vec<String> {
    let chars: Vec<char> = s.chars().collect();
    ranges
        .iter()
        .map(|&(a, b)| chars[a..b].iter().collect())
        .collect()
}

#[test]
fn splitting_like_split_terminator() {
    for path in ["/light/on", "/light/on/", "", "/", "a", "//", "a//", "/città/è/"] {
        let chars = to_chars(path);
        let ranges = split_terminator_ranges(&chars, '/');
        let expected: Vec<String> = path.split_terminator('/').map(str::to_string).collect();
        assert_eq!(pieces(path, &ranges), expected, "path {path:?}");
    }
}

#[test]
fn splitting_keeps_empty_segments_and_joins_back() {
    for path in ["/light/on", "/light/on/", "", "/", "a//b"] {
        let chars = to_chars(path);
        let ranges = split_ranges(&chars, '/');
        let parts = pieces(path, &ranges);
        let expected: Vec<String> = path.split('/').map(str::to_string).collect();
        assert_eq!(parts, expected);
        assert_eq!(parts.join("/"), path);
        assert!(parts.iter().all(|p| !p.contains('/')));
    }
}

#[test]
fn searching_and_comparing() {
    let hay = to_chars("/light/toggle");
    assert!(contains_chars(&hay, &to_chars("toggle")));
    assert!(contains_chars(&hay, &to_chars("")));
    assert!(!contains_chars(&hay, &to_chars("toggles")));
    assert!(range_eq(&hay, 1, 6, &to_chars("light")));
    assert!(!range_eq(&hay, 1, 5, &to_chars("light")));
    assert!(str_eq("città", "città"));
    assert!(!str_eq("città", "citta"));
    assert!(bytes_eq(b"ab", b"ab"));
    assert!(!bytes_eq(b"ab", b"abc"));
}

#[test]
fn unsigned_integers_read_as_the_standard_library_reads_them() {
    for text in ["0", "255", "256", "+12", "-1", "+", "-", "", "1a", "99999999999", "007"] {
        let chars = to_chars(text);
        let ours = parse_unsigned_chars(&chars, u8::MAX as u64);
        match text.parse::<u8>() {
            Ok(v) => assert_eq!(ours, Ok(v as u64), "text {text:?}"),
            Err(e) => {
                let kind = ours.unwrap_err();
                assert_eq!(kind.message(), e.to_string(), "text {text:?}");
            }
        }
    }
    assert_eq!(
        parse_unsigned_chars(&to_chars("18446744073709551616"), u64::MAX),
        Err(IntErrorKind::PosOverflow)
    );
    assert_eq!(parse_unsigned_chars(&to_chars("2a5"), 9), Err(IntErrorKind::InvalidDigit));
    assert_eq!(parse_unsigned_chars(&to_chars("25a"), 9), Err(IntErrorKind::PosOverflow));
}

#[test]
fn booleans() {
    assert_eq!(parse_bool_chars(&to_chars("true")), Some(true));
    assert_eq!(parse_bool_chars(&to_chars("false")), Some(false));
    assert_eq!(parse_bool_chars(&to_chars("TRUE")), None);
    assert_eq!(
        bool_error_message(),
        "x".parse::<bool>().unwrap_err().to_string()
    );
}
