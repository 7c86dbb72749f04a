use apiserver_bootstrap::ports::parse_port;

fn expect_err(text: &str) -> String {
    match parse_port(text) {
        Ok(port) => panic!("expected a parse failure, got port {}", port),
        Err(cause) => cause,
    }
}

fn expect_ok(text: &str) -> u16 {
    match parse_port(text) {
        Ok(port) => port,
        Err(cause) => panic!("expected a port, got failure '{}'", cause),
    }
}

#[test]
fn parses_ordinary_port() {
    assert_eq!(expect_ok("8080"), 8080);
}

#[test]
fn parses_bounds_and_leading_zeros() {
    assert_eq!(expect_ok("0"), 0);
    assert_eq!(expect_ok("65535"), 65535);
    assert_eq!(expect_ok("00080"), 80);
}

#[test]
fn rejects_empty_text() {
    assert_eq!(expect_err(""), "cannot parse integer from empty string");
}

#[test]
fn rejects_non_digits() {
    assert_eq!(expect_err("not-a-number"), "invalid digit found in string");
    assert_eq!(expect_err("80a0"), "invalid digit found in string");
    assert_eq!(expect_err("-1"), "invalid digit found in string");
    assert_eq!(expect_err("+80"), "invalid digit found in string");
    assert_eq!(expect_err(" 80"), "invalid digit found in string");
}

#[test]
fn rejects_values_out_of_port_range() {
    assert_eq!(expect_err("65536"), "number too large to fit in target type");
    assert_eq!(expect_err("99999999999999999999"), "number too large to fit in target type");
}

#[test]
fn overflow_is_reported_before_a_later_bad_digit() {
    assert_eq!(expect_err("99999x"), "number too large to fit in target type");
    assert_eq!(expect_err("6553a"), "invalid digit found in string");
}
