use interactsh_rs::ip_address::IpAddress;

#[test]
fn dotted_quads() {
    assert_eq!(IpAddress::parse("203.0.113.5"), Some(IpAddress::V4([203, 0, 113, 5])));
    assert_eq!(IpAddress::parse("0.0.0.0"), Some(IpAddress::V4([0, 0, 0, 0])));
    assert_eq!(IpAddress::parse("255.255.255.255"), Some(IpAddress::V4([255, 255, 255, 255])));
    assert_eq!(IpAddress::parse("256.0.0.1"), None);
    assert_eq!(IpAddress::parse("01.2.3.4"), None);
    assert_eq!(IpAddress::parse("1.2.3"), None);
    assert_eq!(IpAddress::parse("1.2.3.4.5"), None);
    assert_eq!(IpAddress::parse("1.2..4"), None);
    assert_eq!(IpAddress::parse(""), None);
}

#[test]
fn ipv6_forms() {
    assert_eq!(IpAddress::parse("::"), Some(IpAddress::V6([0; 8])));
    assert_eq!(IpAddress::parse("::1"), Some(IpAddress::V6([0, 0, 0, 0, 0, 0, 0, 1])));
    assert_eq!(
        IpAddress::parse("2001:db8::ff00:42:8329"),
        Some(IpAddress::V6([0x2001, 0xdb8, 0, 0, 0, 0xff00, 0x42, 0x8329]))
    );
    assert_eq!(
        IpAddress::parse("1:2:3:4:5:6:7:8"),
        Some(IpAddress::V6([1, 2, 3, 4, 5, 6, 7, 8]))
    );
    assert_eq!(
        IpAddress::parse("::ffff:192.0.2.1"),
        Some(IpAddress::V6([0, 0, 0, 0, 0, 0xffff, 0xc000, 0x0201]))
    );
    assert_eq!(IpAddress::parse("1:2:3:4:5:6:7:8:9"), None);
    assert_eq!(IpAddress::parse("1::2::3"), None);
    assert_eq!(IpAddress::parse("1:2:3:4::5:6:7:8"), None);
    assert_eq!(IpAddress::parse("12345::"), None);
    assert_eq!(IpAddress::parse("1.2.3.4::"), None);
    assert_eq!(IpAddress::parse(":::"), None);
}

#[test]
fn edge_cases_of_the_textual_forms() {
    let v6 = |g: [u16; 8]| Some(IpAddress::V6(g));
    let cases: [(&str, Option<IpAddress>); 21] = [
        ("127.0.0.1", Some(IpAddress::V4([127, 0, 0, 1]))),
        ("10.0.0.256", None),
        ("1.1.1.01", None),
        ("::", v6([0; 8])),
        ("::1", v6([0, 0, 0, 0, 0, 0, 0, 1])),
        ("fe80::1", v6([0xfe80, 0, 0, 0, 0, 0, 0, 1])),
        ("fe80::1:2:3:4:5:6", v6([0xfe80, 0, 1, 2, 3, 4, 5, 6])),
        ("fe80::1:2:3:4:5:6:7", None),
        ("1:2:3:4:5:6:1.2.3.4", v6([1, 2, 3, 4, 5, 6, 0x0102, 0x0304])),
        ("1:2:3:4:5:6:7:1.2.3.4", None),
        ("::1.2.3.4", v6([0, 0, 0, 0, 0, 0, 0x0102, 0x0304])),
        ("1::1.2.3.4", v6([1, 0, 0, 0, 0, 0, 0x0102, 0x0304])),
        ("a:b:c:d:e:f:0:1", v6([0xa, 0xb, 0xc, 0xd, 0xe, 0xf, 0, 1])),
        ("ABCD:EF01::", v6([0xabcd, 0xef01, 0, 0, 0, 0, 0, 0])),
        ("0000:0000::", v6([0; 8])),
        ("00000::", None),
        (":1::", None),
        ("1:", None),
        ("1:::2", None),
        ("x::", None),
        ("1.2.3.4:5", None),
    ];
    for (text, expected) in cases {
        assert_eq!(IpAddress::parse(text), expected, "{}", text);
    }
}
