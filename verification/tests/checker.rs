use tldhax::{validate_ascii_domain, validate_ascii_label};

#[test]
fn accepts_valid_ascii_domain() {
    assert!(validate_ascii_domain("foo.co.uk").is_ok());
}

#[test]
fn rejects_invalid_label_character() {
    let error = validate_ascii_label("foo_bar").unwrap_err();
    assert!(error.contains("invalid characters"));
}

#[test]
fn rejects_reserved_r_ldh_labels() {
    let error = validate_ascii_label("ab--cd").unwrap_err();
    assert!(error.contains("positions three and four"));
}

#[test]
fn every_syntax_error_has_its_message() {
    assert_eq!(validate_ascii_domain("").unwrap_err(), "DNS syntax: empty domain");
    let long = ["a"; 127].join(".");
    assert_eq!(long.len(), 253);
    assert!(validate_ascii_domain(&long).is_ok());
    let too_long = format!("{long}a");
    assert_eq!(
        validate_ascii_domain(&too_long).unwrap_err(),
        "DNS syntax: domain exceeds 253 characters"
    );
    assert_eq!(validate_ascii_domain("a..b").unwrap_err(), "DNS syntax: empty label");
    assert_eq!(validate_ascii_label("").unwrap_err(), "DNS syntax: empty label");
    let label = "a".repeat(63);
    assert!(validate_ascii_label(&label).is_ok());
    assert_eq!(
        validate_ascii_label(&format!("{label}a")).unwrap_err(),
        "DNS syntax: label exceeds 63 characters"
    );
    assert_eq!(
        validate_ascii_label("-abc").unwrap_err(),
        "DNS syntax: label cannot start or end with a hyphen"
    );
    assert_eq!(
        validate_ascii_label("abc-").unwrap_err(),
        "DNS syntax: label cannot start or end with a hyphen"
    );
    assert_eq!(
        validate_ascii_label("ab--cd").unwrap_err(),
        "IDNA syntax: hyphens in positions three and four require an A-label"
    );
    assert!(validate_ascii_label("xn--bcher-kva").is_ok());
    assert_eq!(
        validate_ascii_label("Abc").unwrap_err(),
        "DNS syntax: label contains invalid characters"
    );
    assert_eq!(
        validate_ascii_domain("ok.bücher").unwrap_err(),
        "DNS syntax: label contains invalid characters"
    );
}

#[test]
fn domain_reports_its_first_failing_label() {
    assert_eq!(
        validate_ascii_domain("-a.b_c").unwrap_err(),
        "DNS syntax: label cannot start or end with a hyphen"
    );
    assert_eq!(
        validate_ascii_domain("good.b_c.-a").unwrap_err(),
        "DNS syntax: label contains invalid characters"
    );
    assert_eq!(validate_ascii_domain("example.com.").unwrap_err(), "DNS syntax: empty label");
}
