use brew::{Version, VersionNumber};

fn parse(text: &str) -> Option<VersionNumber> {
    Version::new(text.to_string()).parse()
}

#[test]
fn the_original_text_is_kept() {
    assert_eq!(Version::new("1.2.3_1".to_string()).original(), "1.2.3_1");
    assert_eq!(Version::new(String::new()).original(), "");
}

#[test]
fn three_numbers_parse() {
    assert_eq!(parse("0.9.0"), Some(VersionNumber { major: 0, minor: 9, revision: 0 }));
    assert_eq!(parse("12.34.56"), Some(VersionNumber::new(12, 34, 56)));
}

#[test]
fn missing_numbers_count_as_zero() {
    assert_eq!(parse("0.1"), Some(VersionNumber::new(0, 1, 0)));
    assert_eq!(parse("7"), Some(VersionNumber::new(7, 0, 0)));
}

#[test]
fn parsing_agrees_with_version_rs() {
    for text in ["0.1", "0.1.0", "3.2.1", "0.1.", "0..", "..", "0.1.0.0", "", "1.2.3_1", "HEAD"] {
        let expected = text
            .parse::<version_rs::Version>()
            .ok()
            .map(|v| VersionNumber::new(v.major, v.minor, v.revision));
        assert_eq!(parse(text), expected);
    }
}

#[test]
fn other_texts_do_not_parse() {
    assert_eq!(parse("0.1."), None);
    assert_eq!(parse("0.."), None);
    assert_eq!(parse(".."), None);
    assert_eq!(parse("0.1.0.0"), None);
    assert_eq!(parse(""), None);
    assert_eq!(parse("1.2.3_1"), None);
    assert_eq!(parse("HEAD-abc123"), None);
    assert_eq!(parse("4294967296.0.0"), None);
}

#[test]
fn version_number_holds_what_it_is_given() {
    let number = VersionNumber::new(1, 2, 3);
    assert_eq!(number.major, 1);
    assert_eq!(number.minor, 2);
    assert_eq!(number.revision, 3);
}

#[test]
fn versions_are_ordered_by_major_then_minor_then_revision() {
    assert!(VersionNumber::new(0, 9, 0) < VersionNumber::new(0, 10, 0));
    assert!(VersionNumber::new(0, 9, 9) < VersionNumber::new(0, 10, 0));
    assert!(VersionNumber::new(1, 0, 0) > VersionNumber::new(0, 99, 99));
    assert!(VersionNumber::new(1, 2, 3) < VersionNumber::new(1, 2, 12));
    assert!(VersionNumber::new(1, 2, 3) > VersionNumber::new(1, 2, 0));
    assert!(VersionNumber::new(1, 2, 3) >= VersionNumber::new(1, 2, 3));
    assert!(VersionNumber::new(1, 2, 3) <= VersionNumber::new(1, 2, 3));
    assert_eq!(
        VersionNumber::new(2, 0, 0).max(VersionNumber::new(1, 9, 9)),
        VersionNumber::new(2, 0, 0)
    );
}

#[test]
fn the_order_agrees_with_version_rs() {
    let numbers = [(0, 0, 0), (0, 0, 1), (0, 1, 0), (0, 9, 0), (0, 10, 0), (1, 0, 0), (1, 2, 3)];
    for a in numbers {
        for b in numbers {
            let ours = VersionNumber::new(a.0, a.1, a.2).cmp(&VersionNumber::new(b.0, b.1, b.2));
            let theirs = version_rs::Version::new(a.0, a.1, a.2)
                .cmp(&version_rs::Version::new(b.0, b.1, b.2));
            assert_eq!(ours, theirs);
        }
    }
}
