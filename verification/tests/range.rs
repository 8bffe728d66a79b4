use onedrive_api::ExpectRange;

#[test]
fn test_range_parsing() {
    let cases = [
        (
            "42-196",
            Some(ExpectRange {
                start: 42,
                end: Some(197),
            }),
        ), // [left, right)
        (
            "418-",
            Some(ExpectRange {
                start: 418,
                end: None,
            }),
        ),
        ("", None),
        ("42-4", None),
        ("-9", None),
        ("-", None),
        ("1-2-3", None),
        ("0--2", None),
        ("-1-2", None),
    ];

    for &(s, ref expect) in &cases {
        let text: String = serde_json::from_str(&serde_json::to_string(s).unwrap()).unwrap();
        let ret = ExpectRange::parse(&text);
        assert_eq!(
            ret.as_ref(),
            expect.as_ref(),
            "Failed: Got {:?} on {:?}",
            ret,
            s,
        );
    }
}

#[test]
fn range_bounds_at_the_limits_of_u64() {
    assert_eq!(
        ExpectRange::parse("18446744073709551615-"),
        Some(ExpectRange { start: u64::MAX, end: None })
    );
    assert_eq!(
        ExpectRange::parse("0-18446744073709551614"),
        Some(ExpectRange { start: 0, end: Some(u64::MAX) })
    );
    // The exclusive end would not fit in a u64.
    assert_eq!(ExpectRange::parse("0-18446744073709551615"), None);
    // The lower bound does not fit in a u64.
    assert_eq!(ExpectRange::parse("18446744073709551616-"), None);
}

#[test]
fn range_bounds_as_integers_are_read() {
    // An explicit `+` is accepted, as `u64::from_str` accepts it.
    assert_eq!(
        ExpectRange::parse("+7-+9"),
        Some(ExpectRange { start: 7, end: Some(10) })
    );
    assert_eq!(ExpectRange::parse("+-9"), None);
    assert_eq!(ExpectRange::parse("7-a"), None);
    assert_eq!(ExpectRange::parse(" 7-9"), None);
    // A one-byte range: upper equal to lower.
    assert_eq!(
        ExpectRange::parse("5-5"),
        Some(ExpectRange { start: 5, end: Some(6) })
    );
    assert_eq!(
        ExpectRange::parse("007-010"),
        Some(ExpectRange { start: 7, end: Some(11) })
    );
}

#[test]
fn range_text_reads_back() {
    for &(start, end) in &[(0u64, None), (0, Some(1)), (42, Some(197)), (418, None), (9, Some(100))] {
        let text = match end {
            Some(e) => format!("{}-{}", start, e - 1),
            None => format!("{}-", start),
        };
        assert_eq!(ExpectRange::parse(&text), Some(ExpectRange { start, end }));
    }
}
