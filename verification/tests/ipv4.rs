use squirtinator::ipv4::{parse_ipv4, Ipv4Addr};

#[test]
fn parses_a_common_address() {
    assert_eq!(parse_ipv4("192.168.4.1"), Some(Ipv4Addr { a: 192, b: 168, c: 4, d: 1 }));
}

#[test]
fn parses_the_least_and_the_greatest_address() {
    assert_eq!(parse_ipv4("0.0.0.0"), Some(Ipv4Addr { a: 0, b: 0, c: 0, d: 0 }));
    assert_eq!(parse_ipv4("255.255.255.255"), Some(Ipv4Addr { a: 255, b: 255, c: 255, d: 255 }));
}

#[test]
fn parses_numbers_of_every_length() {
    assert_eq!(parse_ipv4("1.22.133.9"), Some(Ipv4Addr { a: 1, b: 22, c: 133, d: 9 }));
    assert_eq!(parse_ipv4("10.0.100.99"), Some(Ipv4Addr { a: 10, b: 0, c: 100, d: 99 }));
    assert_eq!(parse_ipv4("249.250.199.200"), Some(Ipv4Addr { a: 249, b: 250, c: 199, d: 200 }));
}

#[test]
fn rejects_the_empty_text() {
    assert_eq!(parse_ipv4(""), None);
}

#[test]
fn rejects_too_few_and_too_many_numbers() {
    assert_eq!(parse_ipv4("1"), None);
    assert_eq!(parse_ipv4("1.2"), None);
    assert_eq!(parse_ipv4("1.2.3"), None);
    assert_eq!(parse_ipv4("1.2.3.4.5"), None);
}

#[test]
fn rejects_numbers_above_255() {
    assert_eq!(parse_ipv4("256.1.1.1"), None);
    assert_eq!(parse_ipv4("1.1.1.256"), None);
    assert_eq!(parse_ipv4("1.300.1.1"), None);
    assert_eq!(parse_ipv4("1.1.999.1"), None);
    assert_eq!(parse_ipv4("1.1.1.1000"), None);
}

#[test]
fn rejects_leading_zeros() {
    assert_eq!(parse_ipv4("01.2.3.4"), None);
    assert_eq!(parse_ipv4("1.2.3.04"), None);
    assert_eq!(parse_ipv4("1.002.3.4"), None);
    assert_eq!(parse_ipv4("00.0.0.0"), None);
}

#[test]
fn rejects_misplaced_dots() {
    assert_eq!(parse_ipv4(".1.2.3"), None);
    assert_eq!(parse_ipv4("1.2.3."), None);
    assert_eq!(parse_ipv4("1..2.3"), None);
    assert_eq!(parse_ipv4("1.2.3.4."), None);
    assert_eq!(parse_ipv4("..."), None);
}

#[test]
fn rejects_what_is_no_digit() {
    assert_eq!(parse_ipv4("a.b.c.d"), None);
    assert_eq!(parse_ipv4("1.2.3.4 "), None);
    assert_eq!(parse_ipv4(" 1.2.3.4"), None);
    assert_eq!(parse_ipv4("+1.2.3.4"), None);
    assert_eq!(parse_ipv4("1.2.3.-4"), None);
    assert_eq!(parse_ipv4("1,2,3,4"), None);
    assert_eq!(parse_ipv4("1.2.3.4/24"), None);
    assert_eq!(parse_ipv4("١.٢.٣.٤"), None);
}

#[test]
fn every_number_is_read_back_from_its_text() {
    for value in 0..=255u8 {
        let text = format!("{}.{}.{}.{}", value, 255 - value, value, 7);
        assert_eq!(parse_ipv4(&text), Some(Ipv4Addr { a: value, b: 255 - value, c: value, d: 7 }));
    }
}
