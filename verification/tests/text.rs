use e7::text::{chars_of, decimal_string, line_spans, trim_span};

#[test]
fn decimals() {
    assert_eq!(decimal_string(0), "0");
    assert_eq!(decimal_string(9), "9");
    assert_eq!(decimal_string(10), "10");
    assert_eq!(decimal_string(184_000), "184000");
    assert_eq!(decimal_string(u64::MAX), u64::MAX.to_string());
}

#[test]
fn lines_like_std() {
    for s in ["", "\n", "a", "a\n", "a\r\nb", "a\n\nb\n", "x\r", "\r\n\r\n", "é\nß\r\n"] {
        let v = chars_of(s);
        let got: Vec<String> = line_spans(&v)
            .into_iter()
            .map(|(a, b)| v[a..b].iter().collect())
            .collect();
        let want: Vec<String> = s.lines().map(|l| l.to_string()).collect();
        assert_eq!(got, want, "{s:?}");
    }
}

#[test]
fn trim_like_std() {
    for s in ["", "  ", " a ", "\ta b\r", "\u{a0}x\u{3000}", "abc"] {
        let v = chars_of(s);
        let (a, b) = trim_span(&v, 0, v.len());
        let got: String = v[a..b].iter().collect();
        assert_eq!(got, s.trim(), "{s:?}");
    }
}
