use a_bean_sieve::startup::{check_port, check_startup_capability};

fn fault(port: &str) -> Option<String> {
    let verdict = check_startup_capability(&port.to_string());
    assert_eq!(verdict.allowed, verdict.error.is_none());
    verdict.error
}

#[test]
fn ports_that_let_the_service_start() {
    for port in ["1", "80", "8080", "65535", "10000"] {
        assert_eq!(fault(port), None);
    }
}

#[test]
fn port_length_is_one_to_five_bytes() {
    assert_eq!(fault("").as_deref(), Some("Invalid Port Length."));
    assert_eq!(fault("123456").as_deref(), Some("Invalid Port Length."));
    assert_eq!(fault("abcdefg").as_deref(), Some("Invalid Port Length."));
    assert_eq!(fault("\u{20ac}\u{20ac}").as_deref(), Some("Invalid Port Length."));
}

#[test]
fn port_is_numeric_and_in_range() {
    assert_eq!(fault("abc").as_deref(), Some("Invalid Characters in Port."));
    assert_eq!(fault("80a").as_deref(), Some("Invalid Characters in Port."));
    assert_eq!(fault("65536").as_deref(), Some("Invalid Characters in Port."));
    assert_eq!(fault("99999").as_deref(), Some("Invalid Characters in Port."));
    assert_eq!(fault("-1").as_deref(), Some("Invalid Characters in Port."));
    assert_eq!(fault("8 0").as_deref(), Some("Invalid Characters in Port."));
    assert_eq!(fault("   ").as_deref(), Some("Invalid Characters in Port."));
}

#[test]
fn port_is_not_zero() {
    assert_eq!(fault("0").as_deref(), Some("Port cannot be 0."));
}

#[test]
fn port_is_the_plain_numeral() {
    assert_eq!(fault("080").as_deref(), Some("Port cannot begin with a 0."));
    assert_eq!(fault("00").as_deref(), Some("Port cannot begin with a 0."));
    assert_eq!(fault("+80").as_deref(), Some("Port cannot begin with a 0."));
    assert_eq!(fault(" 80").as_deref(), Some("Port cannot begin with a 0."));
    assert_eq!(fault("80 ").as_deref(), Some("Port cannot begin with a 0."));
}

#[test]
fn checking_against_a_given_inner_text() {
    assert!(check_port("80", "80").allowed);
    assert_eq!(check_port("80", "8o").error.as_deref(), Some("Invalid Characters in Port."));
    assert_eq!(check_port("81", "80").error.as_deref(), Some("Port cannot begin with a 0."));
    assert_eq!(check_port("0", "0").error.as_deref(), Some("Port cannot be 0."));
}

#[test]
fn the_verdict_agrees_with_the_plain_numeral_rule() {
    let samples = [
        "", "0", "1", "9", "10", "01", "65535", "65536", "70000", "99999", "100000", "+1", "-1",
        " 1", "1 ", "1a", "a", "443", "0443",
    ];
    for text in samples {
        let canonical = match text.parse::<u32>() {
            Ok(n) => n >= 1 && n <= 65535 && n.to_string() == text,
            Err(_) => false,
        };
        assert_eq!(check_startup_capability(&text.to_string()).allowed, canonical);
    }
}
