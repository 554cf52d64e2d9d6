use sweetalert::Swal;
use sweetalert::parse_css_seconds;

#[test]
fn test_parse_plain_seconds() {
    assert_eq!(parse_css_seconds("0s"), Some(0));
    assert_eq!(parse_css_seconds("2s"), Some(2000));
    assert_eq!(parse_css_seconds("10s"), Some(10000));
}

#[test]
fn test_parse_fractional_seconds() {
    assert_eq!(parse_css_seconds("0.3s"), Some(300));
    assert_eq!(parse_css_seconds("0.30s"), Some(300));
    assert_eq!(parse_css_seconds(".5s"), Some(500));
    assert_eq!(parse_css_seconds("1.2345s"), Some(1234));
    assert_eq!(parse_css_seconds("10.05s"), Some(10050));
    assert_eq!(parse_css_seconds("5.s"), Some(5000));
}

#[test]
fn test_parse_rejects_malformed_values() {
    assert_eq!(parse_css_seconds(""), None);
    assert_eq!(parse_css_seconds("s"), None);
    assert_eq!(parse_css_seconds(".s"), None);
    assert_eq!(parse_css_seconds("0.3"), None);
    assert_eq!(parse_css_seconds("1e3s"), None);
    assert_eq!(parse_css_seconds("300ms"), None);
    assert_eq!(parse_css_seconds("0.3s, 0.5s"), None);
    assert_eq!(parse_css_seconds("-1s"), None);
    assert_eq!(parse_css_seconds("1.2.3s"), None);
}

#[test]
fn test_parse_rejects_values_too_large() {
    assert_eq!(parse_css_seconds("99999999999999999999s"), None);
    assert_eq!(parse_css_seconds("18446744073709551615s"), None);
    // Plenty of leading zeros change nothing.
    assert_eq!(parse_css_seconds("000000000000000000000.25s"), Some(250));
}

#[test]
fn test_duration_is_memoized() {
    let mut c = Swal::new();
    assert_eq!(c.get_transition_duration(Some(String::from("0.3s"))), 300);
    // Later lookups answer from the memo, whatever the style now says.
    assert_eq!(c.get_transition_duration(None), 300);
    assert_eq!(c.get_transition_duration(Some(String::from("7s"))), 300);
}

#[test]
fn test_duration_fail_soft_does_not_poison_the_memo() {
    let mut c = Swal::new();
    assert_eq!(c.get_transition_duration(Some(String::from("garbage"))), 0);
    assert_eq!(c.get_transition_duration(None), 0);
    // A later well-formed value is still picked up and memoized.
    assert_eq!(c.get_transition_duration(Some(String::from("0.25s"))), 250);
    assert_eq!(c.get_transition_duration(None), 250);
}

#[test]
fn test_zero_duration_is_memoized_too() {
    let mut c = Swal::new();
    assert_eq!(c.get_transition_duration(Some(String::from("0s"))), 0);
    assert_eq!(c.get_transition_duration(Some(String::from("3s"))), 0);
}
