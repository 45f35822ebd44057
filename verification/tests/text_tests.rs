use cvss_rs::grammar::{read_key_value, read_prefix_version};
use cvss_rs::text::{copy_range, find, is1, is2, is3, is4, is5, push_str, to_chars, to_string, to_upper, to_upper_char};
use cvss_rs::ParseError;

fn chars(s: &str) -> Vec<char> {
    s.chars().collect()
}

#[test]
fn test_to_chars_and_back() {
    assert_eq!(to_chars("AV:N"), vec!['A', 'V', ':', 'N']);
    assert_eq!(to_chars(""), Vec::<char>::new());
    assert_eq!(to_chars("é/ü"), vec!['é', '/', 'ü']);
    assert_eq!(to_string(&chars("CVSS:4.0/AV:N")), "CVSS:4.0/AV:N");
    assert_eq!(to_string(&chars("")), "");
    assert_eq!(to_string(&chars("é/ü")), "é/ü");
}

#[test]
fn test_find_and_copy_range() {
    let v = chars("AV:N/AC:L");
    assert_eq!(find(&v, 0, '/'), 4);
    assert_eq!(find(&v, 4, '/'), 4);
    assert_eq!(find(&v, 5, '/'), 9);
    assert_eq!(find(&v, 9, '/'), 9);
    assert_eq!(find(&v, 0, ':'), 2);
    assert_eq!(copy_range(&v, 0, 4), chars("AV:N"));
    assert_eq!(copy_range(&v, 5, 9), chars("AC:L"));
    assert_eq!(copy_range(&v, 3, 3), chars(""));
}

#[test]
fn test_upper_case() {
    assert_eq!(to_upper_char('a'), 'A');
    assert_eq!(to_upper_char('z'), 'Z');
    assert_eq!(to_upper_char('Q'), 'Q');
    assert_eq!(to_upper_char('7'), '7');
    assert_eq!(to_upper_char('{'), '{');
    assert_eq!(to_upper_char('`'), '`');
    // Only ASCII letters change.
    assert_eq!(to_upper_char('é'), 'é');
    assert_eq!(to_upper(&chars("cvss:3.1/Av:n")), chars("CVSS:3.1/AV:N"));
}

#[test]
fn test_spelling() {
    assert!(is1(&chars("N"), 'N'));
    assert!(!is1(&chars("n"), 'N'));
    assert!(!is1(&chars("NN"), 'N'));
    assert!(!is1(&chars(""), 'N'));
    assert!(is2(&chars("AV"), 'A', 'V'));
    assert!(!is2(&chars("AC"), 'A', 'V'));
    assert!(is3(&chars("MAV"), 'M', 'A', 'V'));
    assert!(!is3(&chars("MA"), 'M', 'A', 'V'));
    assert!(is4(&chars("CVSS"), 'C', 'V', 'S', 'S'));
    assert!(!is4(&chars("CVSX"), 'C', 'V', 'S', 'S'));
    assert!(is5(&chars("GREEN"), 'G', 'R', 'E', 'E', 'N'));
    assert!(!is5(&chars("GREEN!"), 'G', 'R', 'E', 'E', 'N'));
    let mut out = chars("AV");
    push_str(&mut out, ":N");
    assert_eq!(out, chars("AV:N"));
}

#[test]
fn test_read_key_value() {
    assert_eq!(read_key_value(&chars("av:n")), Some((chars("AV"), chars("N"))));
    assert_eq!(read_key_value(&chars(":")), Some((chars(""), chars(""))));
    assert_eq!(read_key_value(&chars("AV:")), Some((chars("AV"), chars(""))));
    assert_eq!(read_key_value(&chars("AV")), None);
    assert_eq!(read_key_value(&chars("")), None);
    assert_eq!(read_key_value(&chars("A:V:N")), None);
    assert_eq!(read_key_value(&chars("::")), None);
}

#[test]
fn test_read_prefix_version() {
    assert_eq!(read_prefix_version(&chars("CVSS:3.1")), Ok(chars("3.1")));
    assert_eq!(read_prefix_version(&chars("cvss:4.0")), Ok(chars("4.0")));
    // What follows a second colon is left out.
    assert_eq!(read_prefix_version(&chars("CVSS:3.1:x")), Ok(chars("3.1")));
    assert_eq!(read_prefix_version(&chars("CVSS:")), Ok(chars("")));
    assert_eq!(
        read_prefix_version(&chars("CVSS")),
        Err(ParseError::InvalidPrefix { found: "CVSS".to_string() })
    );
    assert_eq!(
        read_prefix_version(&chars("CVE:3.1")),
        Err(ParseError::InvalidPrefix { found: "CVE".to_string() })
    );
    assert_eq!(
        read_prefix_version(&chars("")),
        Err(ParseError::InvalidPrefix { found: String::new() })
    );
}
