use hubify::text::{lines_contain, str_contains, usize_to_decimal};

#[test]
fn decimal_rendering() {
    assert_eq!(usize_to_decimal(0), "0");
    assert_eq!(usize_to_decimal(7), "7");
    assert_eq!(usize_to_decimal(10), "10");
    assert_eq!(usize_to_decimal(1234), "1234");
    assert_eq!(usize_to_decimal(usize::MAX), usize::MAX.to_string());
}

#[test]
fn substring_search() {
    assert!(str_contains("http://collector:4317", ":4317"));
    assert!(!str_contains("http://collector:4318", ":4317"));
    assert!(str_contains("abc", ""));
    assert!(str_contains("", ""));
    assert!(!str_contains(":431", ":4317"));
    assert!(str_contains(":4317", ":4317"));
}

#[test]
fn line_search_follows_line_reading() {
    assert!(lines_contain(b"kind\nhubify\n", b"hubify"));
    assert!(lines_contain(b"kind\nhubify", b"hubify"));
    assert!(lines_contain(b"hubify\r\nother\r\n", b"hubify"));
    assert!(!lines_contain(b"hubify-2\n", b"hubify"));
    assert!(!lines_contain(b"", b"hubify"));
    assert!(!lines_contain(b"abc\n", b""));
    assert!(lines_contain(b"abc\n\n", b""));
    assert!(!lines_contain(b"hubify\r", b"hubify"));
    assert!(lines_contain(b"hubify\r", b"hubify\r"));
}

#[test]
fn decimal_rendering_reads_back() {
    for n in [0usize, 9, 10, 99, 100, 4096, 123456789, usize::MAX] {
        let s = usize_to_decimal(n);
        assert_eq!(s.parse::<usize>().unwrap(), n);
        assert!(s.chars().all(|c| c.is_ascii_digit()));
        assert!(n == 0 || !s.starts_with('0'));
    }
}
