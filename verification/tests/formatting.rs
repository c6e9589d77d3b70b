use api_endpoint::url::push_decimal;
use api_endpoint::{format_api_url, parse_port};

#[test]
fn format_api_url_gives_exact_addresses() {
    assert_eq!(format_api_url(3001), "http://localhost:3001");
    assert_eq!(format_api_url(8080), "http://localhost:8080");
    assert_eq!(format_api_url(0), "http://localhost:0");
    assert_eq!(format_api_url(7), "http://localhost:7");
    assert_eq!(format_api_url(10), "http://localhost:10");
    assert_eq!(format_api_url(100), "http://localhost:100");
    assert_eq!(format_api_url(1000), "http://localhost:1000");
    assert_eq!(format_api_url(10000), "http://localhost:10000");
    assert_eq!(format_api_url(10203), "http://localhost:10203");
    assert_eq!(format_api_url(65535), "http://localhost:65535");
}

#[test]
fn format_api_url_agrees_with_the_standard_formatter() {
    for port in 0..=u16::MAX {
        assert_eq!(format_api_url(port), format!("http://localhost:{}", port));
    }
}

#[test]
fn the_port_of_an_address_has_no_leading_zero() {
    for port in 0..=u16::MAX {
        let url = format_api_url(port);
        let digits = &url["http://localhost:".len()..];
        assert!(!digits.is_empty() && digits.len() <= 5);
        assert!(digits.bytes().all(|b| b.is_ascii_digit()));
        assert!(port == 0 || !digits.starts_with('0'));
        assert_eq!(port != 0, digits != "0");
    }
}

#[test]
fn the_port_can_be_read_back_from_an_address() {
    for port in 0..=u16::MAX {
        let url = format_api_url(port);
        assert_eq!(parse_port(&url["http://localhost:".len()..]), Some(port));
    }
}

#[test]
fn different_ports_have_different_addresses() {
    let mut previous = format_api_url(0);
    for port in 1..=u16::MAX {
        let url = format_api_url(port);
        assert_ne!(url, previous);
        previous = url;
    }
    assert_ne!(format_api_url(1), format_api_url(10));
    assert_ne!(format_api_url(300), format_api_url(3001));
}

#[test]
fn push_decimal_appends_to_what_is_there() {
    let mut out = String::from("port ");
    push_decimal(&mut out, 3001);
    assert_eq!(out, "port 3001");
    push_decimal(&mut out, 0);
    assert_eq!(out, "port 30010");
    push_decimal(&mut out, 65535);
    assert_eq!(out, "port 3001065535");
}

#[test]
fn push_decimal_writes_into_an_empty_text() {
    let mut out = String::new();
    push_decimal(&mut out, 9);
    assert_eq!(out, "9");
    let mut out = String::new();
    push_decimal(&mut out, 40960);
    assert_eq!(out, "40960");
}
