use kube_agent::decimal::{parse_port, parse_u64, u16_decimal};

#[test]
fn numerals_read_back_as_the_number_written() {
    for n in [0u16, 7, 10, 99, 100, 10050, 65535] {
        let text = u16_decimal(n);
        assert_eq!(text, n.to_string());
        assert_eq!(parse_u64(&text), Some(u64::from(n)));
    }
}

#[test]
fn u64_numerals_are_read_as_str_parse_reads_them() {
    for text in ["0", "+0", "42", "+42", "007", "18446744073709551615", "18446744073709551616",
        "", "+", "-1", "-0", " 1", "1 ", "1_000", "0x10", "١٢"] {
        assert_eq!(parse_u64(text), text.parse::<u64>().ok(), "{text:?}");
    }
}

#[test]
fn ports_are_read_as_signed_numbers_in_range() {
    for text in ["0", "80", "+443", "65535", "-0", "-00"] {
        assert_eq!(parse_port(text).map(u64::from), text.parse::<i64>().ok().map(|v| v as u64), "{text:?}");
    }
    for text in ["65536", "-1", "", "-", "port", "99999999999999999999"] {
        assert_eq!(parse_port(text), None, "{text:?}");
    }
}

#[test]
fn u64_numerals_read_back_as_the_number_written() {
    for n in [0u64, 9, 10, 4294967296, u64::MAX] {
        assert_eq!(parse_u64(&n.to_string()), Some(n));
    }
}
