use rusty_dns::ip::{parse_ip, parse_ipv4, parse_ipv6, IpAddress};
use rusty_dns::text::{
    contains_sub, extract_tag_payload, find_sub, prefix_before_char, str_eq, trim_str,
    u16_to_hex, u64_to_string,
};

#[test]
fn test_str_eq() {
    assert!(str_eq("", ""));
    assert!(str_eq("abc", "abc"));
    assert!(!str_eq("abc", "abd"));
    assert!(!str_eq("abc", "ab"));
}

#[test]
fn test_find_and_contains() {
    assert_eq!(find_sub("hello world", "world"), Some(6));
    assert_eq!(find_sub("hello world", "o"), Some(4));
    assert_eq!(find_sub("hello", "xyz"), None);
    assert_eq!(find_sub("abc", ""), Some(0));
    assert!(contains_sub("<ErrCount>0</ErrCount>", "<ErrCount>0</ErrCount>"));
    assert!(!contains_sub("<ErrCount>1</ErrCount>", "<ErrCount>0</ErrCount>"));
}

#[test]
fn test_trim() {
    assert_eq!(trim_str("  OK\n"), "OK");
    assert_eq!(trim_str("OK"), "OK");
    assert_eq!(trim_str(" \t\r\n "), "");
    assert_eq!(trim_str(""), "");
    assert_eq!(trim_str("a b"), "a b");
}

#[test]
fn test_prefix_before_char() {
    assert_eq!(prefix_before_char("a,b", ','), "a");
    assert_eq!(prefix_before_char("abc", ','), "abc");
    assert_eq!(prefix_before_char(",x", ','), "");
    assert_eq!(prefix_before_char("", ','), "");
}

#[test]
fn test_extract_tag_payload() {
    assert_eq!(
        extract_tag_payload("a<Err1>msg</Err1>b", "<Err1>", "</Err1>"),
        Some("msg".to_string())
    );
    assert_eq!(
        extract_tag_payload("a<Err1>tail", "<Err1>", "</Err1>"),
        Some("tail".to_string())
    );
    assert_eq!(extract_tag_payload("no tags here", "<Err1>", "</Err1>"), None);
    assert_eq!(
        extract_tag_payload("<Err1></Err1>", "<Err1>", "</Err1>"),
        Some("".to_string())
    );
}

#[test]
fn test_number_rendering() {
    assert_eq!(u64_to_string(0), "0");
    assert_eq!(u64_to_string(7), "7");
    assert_eq!(u64_to_string(255), "255");
    assert_eq!(u64_to_string(10000), "10000");
    assert_eq!(u16_to_hex(0), "0");
    assert_eq!(u16_to_hex(0xdb8), "db8");
    assert_eq!(u16_to_hex(0xffff), "ffff");
}

#[test]
fn test_ip_to_text() {
    assert_eq!(IpAddress::V4(1, 2, 3, 4).to_text(), "1.2.3.4");
    assert_eq!(IpAddress::V4(0, 0, 0, 0).to_text(), "0.0.0.0");
    assert_eq!(IpAddress::V4(255, 255, 255, 255).to_text(), "255.255.255.255");
}

#[test]
fn test_ipv6_to_text_compression() {
    assert_eq!(IpAddress::V6(0x2001, 0xdb8, 0, 0, 0, 0, 0, 1).to_text(), "2001:db8::1");
    assert_eq!(IpAddress::V6(0, 0, 0, 0, 0, 0, 0, 0).to_text(), "::");
    assert_eq!(IpAddress::V6(0, 0, 0, 0, 0, 0, 0, 1).to_text(), "::1");
    assert_eq!(IpAddress::V6(1, 0, 0, 0, 0, 0, 0, 0).to_text(), "1::");
    assert_eq!(
        IpAddress::V6(0xfe80, 0, 0, 0, 0x1ff, 0xfe23, 0x4567, 0x890a).to_text(),
        "fe80::1ff:fe23:4567:890a"
    );
    // a single zero group stays uncompressed
    assert_eq!(IpAddress::V6(1, 0, 2, 3, 4, 5, 6, 7).to_text(), "1:0:2:3:4:5:6:7");
    // the longest run wins
    assert_eq!(IpAddress::V6(1, 0, 0, 2, 0, 0, 0, 3).to_text(), "1:0:0:2::3");
    // of two equally long runs, the first is elided
    assert_eq!(IpAddress::V6(1, 0, 0, 2, 0, 0, 3, 4).to_text(), "1::2:0:0:3:4");
    // the IPv4-mapped prefix renders with an embedded dotted quad
    assert_eq!(
        IpAddress::V6(0, 0, 0, 0, 0, 0xffff, 0x0102, 0x0304).to_text(),
        "::ffff:1.2.3.4"
    );
    assert_eq!(IpAddress::V6(0, 0, 0, 0, 0, 0xffff, 0, 0).to_text(), "::ffff:0.0.0.0");
}

#[test]
fn test_parse_ipv4_accepts_canonical() {
    assert_eq!(parse_ipv4("1.2.3.4"), Some(IpAddress::V4(1, 2, 3, 4)));
    assert_eq!(parse_ipv4("0.0.0.0"), Some(IpAddress::V4(0, 0, 0, 0)));
    assert_eq!(
        parse_ipv4("255.255.255.255"),
        Some(IpAddress::V4(255, 255, 255, 255))
    );
}

#[test]
fn test_parse_ipv4_rejects_malformed() {
    assert_eq!(parse_ipv4("256.1.1.1"), None);
    assert_eq!(parse_ipv4("01.2.3.4"), None);
    assert_eq!(parse_ipv4("1.2.3"), None);
    assert_eq!(parse_ipv4("1.2.3.4.5"), None);
    assert_eq!(parse_ipv4("1.2.3."), None);
    assert_eq!(parse_ipv4(""), None);
    assert_eq!(parse_ipv4("a.b.c.d"), None);
    assert_eq!(parse_ipv4("1.2.3.4 "), None);
}

#[test]
fn test_parse_ipv4_round_trip() {
    let ips = [
        IpAddress::V4(1, 2, 3, 4),
        IpAddress::V4(10, 0, 0, 1),
        IpAddress::V4(192, 168, 100, 200),
    ];
    for ip in ips {
        assert_eq!(parse_ipv4(&ip.to_text()), Some(ip));
    }
}

#[test]
fn test_parse_ipv6() {
    assert_eq!(
        parse_ipv6("2001:db8:0:0:0:0:0:1"),
        Some(IpAddress::V6(0x2001, 0xdb8, 0, 0, 0, 0, 0, 1))
    );
    assert_eq!(
        parse_ipv6("2001:0DB8:0:0:0:0:0:0001"),
        Some(IpAddress::V6(0x2001, 0xdb8, 0, 0, 0, 0, 0, 1))
    );
    assert_eq!(parse_ipv6("1.2.3.4"), None);
    assert_eq!(parse_ipv6("2001:db8"), None);
}

#[test]
fn test_parse_ipv6_compressed() {
    assert_eq!(parse_ipv6("::"), Some(IpAddress::V6(0, 0, 0, 0, 0, 0, 0, 0)));
    assert_eq!(parse_ipv6("::1"), Some(IpAddress::V6(0, 0, 0, 0, 0, 0, 0, 1)));
    assert_eq!(parse_ipv6("1::"), Some(IpAddress::V6(1, 0, 0, 0, 0, 0, 0, 0)));
    assert_eq!(
        parse_ipv6("2001:db8::1"),
        Some(IpAddress::V6(0x2001, 0xdb8, 0, 0, 0, 0, 0, 1))
    );
    assert_eq!(
        parse_ipv6("2001:db8::8:800:200c:417a"),
        Some(IpAddress::V6(0x2001, 0xdb8, 0, 0, 0x8, 0x800, 0x200c, 0x417a))
    );
    assert_eq!(
        parse_ipv6("1:2:3:4:5:6:7::"),
        Some(IpAddress::V6(1, 2, 3, 4, 5, 6, 7, 0))
    );
    assert_eq!(
        parse_ipv6("::1:2:3:4:5:6:7"),
        Some(IpAddress::V6(0, 1, 2, 3, 4, 5, 6, 7))
    );
}

#[test]
fn test_parse_ipv6_embedded_ipv4() {
    assert_eq!(
        parse_ipv6("::ffff:1.2.3.4"),
        Some(IpAddress::V6(0, 0, 0, 0, 0, 0xffff, 0x0102, 0x0304))
    );
    assert_eq!(
        parse_ipv6("64:ff9b::192.0.2.33"),
        Some(IpAddress::V6(0x64, 0xff9b, 0, 0, 0, 0, 0xc000, 0x0221))
    );
    assert_eq!(
        parse_ipv6("1:2:3:4:5:6:7.8.9.10"),
        Some(IpAddress::V6(1, 2, 3, 4, 5, 6, 0x0708, 0x090a))
    );
    assert_eq!(parse_ipv6("1.2.3.4::"), None);
    assert_eq!(parse_ipv6("::1.2.3.4.5"), None);
}

#[test]
fn test_parse_ipv6_rejects_malformed() {
    assert_eq!(parse_ipv6(""), None);
    assert_eq!(parse_ipv6(":"), None);
    assert_eq!(parse_ipv6(":::"), None);
    assert_eq!(parse_ipv6("1:::2"), None);
    assert_eq!(parse_ipv6("1::2::3"), None);
    assert_eq!(parse_ipv6("1:2:3:4:5:6:7:8:9"), None);
    assert_eq!(parse_ipv6("1:2:3:4:5:6:7:8::"), None);
    assert_eq!(parse_ipv6("::1:2:3:4:5:6:7:8"), None);
    assert_eq!(parse_ipv6("12345::"), None);
    assert_eq!(parse_ipv6("g::"), None);
    assert_eq!(parse_ipv6("1:2:3:4:5:6:7:"), None);
    assert_eq!(parse_ipv6(":1:2:3:4:5:6:7"), None);
}

#[test]
fn test_parse_ipv6_round_trip() {
    let ips = [
        IpAddress::V6(0x2001, 0xdb8, 0, 0, 0, 0, 0, 1),
        IpAddress::V6(0xfe80, 0, 0, 0, 0x1ff, 0xfe23, 0x4567, 0x890a),
        IpAddress::V6(0, 0, 0, 0, 0, 0, 0, 0),
        IpAddress::V6(0, 0, 0, 0, 0, 0, 0, 1),
        IpAddress::V6(1, 0, 2, 3, 4, 5, 6, 7),
        IpAddress::V6(1, 0, 0, 2, 0, 0, 0, 3),
        IpAddress::V6(0, 0, 0, 0, 0, 0xffff, 0x0102, 0x0304),
        IpAddress::V6(1, 2, 3, 4, 5, 6, 7, 8),
    ];
    for ip in ips {
        assert_eq!(parse_ipv6(&ip.to_text()), Some(ip));
    }
}

#[test]
fn test_trim_unicode_whitespace() {
    assert_eq!(trim_str("\u{00A0}OK\u{00A0}"), "OK");
    assert_eq!(trim_str("\u{2003}x\u{3000}"), "x");
}

#[test]
fn test_parse_ip_both_families() {
    assert_eq!(parse_ip("1.2.3.4"), Some(IpAddress::V4(1, 2, 3, 4)));
    assert_eq!(
        parse_ip("0:0:0:0:0:0:0:1"),
        Some(IpAddress::V6(0, 0, 0, 0, 0, 0, 0, 1))
    );
    assert_eq!(parse_ip("not an ip"), None);
    assert!(IpAddress::V4(1, 2, 3, 4).is_ipv4());
    assert!(!IpAddress::V6(0, 0, 0, 0, 0, 0, 0, 1).is_ipv4());
}
