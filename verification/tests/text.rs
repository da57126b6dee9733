use tgws_launcher::text::{decimal, listen_address, parse_i32, parse_u16};

const NUMBERS: [&str; 40] = [
    "", "+", "-", "0", "+0", "-0", "00", "7", "+7", "-7", "++7", "--7", "+-7", "-+7", " 7", "7 ",
    "1443", "01443", "00000000000000000000000000007", "65535", "65536", "+65535", "-65535",
    "2147483647", "2147483648", "-2147483648", "-2147483649", "4294967295", "4294967296",
    "-4294967296", "18446744073709551615", "18446744073709551617", "99999999999999999999999999",
    "-99999999999999999999999999", "1_000", "0x10", "1.0", "٣", "7а", "½",
];

#[test]
fn ports_are_read_as_std_reads_them() {
    for text in NUMBERS {
        assert_eq!(parse_u16(text), text.parse::<u16>().ok(), "{}", text);
    }
}

#[test]
fn pool_sizes_are_read_as_std_reads_them() {
    for text in NUMBERS {
        assert_eq!(parse_i32(text), text.parse::<i32>().ok(), "{}", text);
    }
}

#[test]
fn exact_numbers() {
    assert_eq!(parse_u16("1443"), Some(1443));
    assert_eq!(parse_u16("65536"), None);
    assert_eq!(parse_i32("-2147483648"), Some(i32::MIN));
    assert_eq!(parse_i32("2147483648"), None);
    assert_eq!(parse_i32("+32"), Some(32));
}

#[test]
fn decimal_forms_match_std() {
    for n in [0u64, 9, 10, 99, 100, 1443, 65535, 1_000_000, u64::MAX] {
        assert_eq!(decimal(n), n.to_string());
    }
}

#[test]
fn every_port_reads_back() {
    for port in 0..=u16::MAX {
        assert_eq!(parse_u16(&decimal(port as u64)), Some(port));
    }
}

#[test]
fn address_joins_host_and_port() {
    assert_eq!(listen_address("127.0.0.1", 1443), "127.0.0.1:1443");
    assert_eq!(listen_address("", 0), ":0");
    assert_eq!(listen_address("::1", 65535), "::1:65535");
}

#[test]
fn addresses_of_different_parts_differ() {
    assert_ne!(listen_address("a:1", 2), listen_address("a", 12));
    assert_ne!(listen_address("a", 1), listen_address("a", 11));
}
