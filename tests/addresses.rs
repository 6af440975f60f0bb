use ddns_cli::detector::{
    collect_records, register_detectors, AddressFilters, Detector, GetIpByUrlDetector,
    SetIpDetector,
};
use ddns_cli::ip::{IpAddress, Ipv4Address, Ipv6Address};
use ddns_cli::record::Record;

fn v4(a: u8, b: u8, c: u8, d: u8) -> IpAddress {
    IpAddress::V4(Ipv4Address::new(a, b, c, d))
}

fn v6(segments: [u16; 8]) -> IpAddress {
    IpAddress::V6(Ipv6Address::new(segments))
}

fn only(f: fn(&mut AddressFilters)) -> AddressFilters {
    let mut filters = AddressFilters::none();
    f(&mut filters);
    filters
}

fn texts(records: &[Record]) -> Vec<String> {
    records.iter().map(|r| r.to_text()).collect()
}

#[test]
fn ipv4_text_is_dotted_decimal() {
    assert_eq!(Ipv4Address::new(1, 2, 3, 4).to_text(), "1.2.3.4");
    assert_eq!(Ipv4Address::new(0, 0, 0, 0).to_text(), "0.0.0.0");
    assert_eq!(Ipv4Address::new(255, 10, 100, 9).to_text(), "255.10.100.9");
}

#[test]
fn ipv6_text_is_canonical() {
    assert_eq!(Ipv6Address::new([0xfe80, 0, 0, 0, 0, 0, 0, 1]).to_text(), "fe80::1");
    assert_eq!(Ipv6Address::new([0; 8]).to_text(), "::");
    assert_eq!(Ipv6Address::new([0, 0, 0, 0, 0, 0, 0, 1]).to_text(), "::1");
    assert_eq!(Ipv6Address::new([1, 0, 0, 0, 0, 0, 0, 0]).to_text(), "1::");
    assert_eq!(Ipv6Address::new([0x2001, 0xdb8, 0, 0, 1, 0, 0, 1]).to_text(), "2001:db8::1:0:0:1");
    assert_eq!(Ipv6Address::new([0x2001, 0xdb8, 0, 1, 0, 0, 0, 1]).to_text(), "2001:db8:0:1::1");
    assert_eq!(Ipv6Address::new([1, 0, 2, 0, 3, 0, 4, 0]).to_text(), "1:0:2:0:3:0:4:0");
    assert_eq!(Ipv6Address::new([0xABCD, 0x0F, 0, 0, 0, 0, 0, 0xffff]).to_text(), "abcd:f::ffff");
    assert_eq!(Ipv6Address::new([0, 0, 0, 0, 0, 0xffff, 0x102, 0x304]).to_text(), "::ffff:1.2.3.4");
}

#[test]
fn link_local_ipv4_filter() {
    let on = only(|f| f.ignore_link_local = true);
    assert!(!on.keeps(&v4(169, 254, 1, 1)));
    assert!(AddressFilters::none().keeps(&v4(169, 254, 1, 1)));
    let mut d = SetIpDetector::new();
    d.configure(on, &vec![v4(169, 254, 1, 1)]);
    assert!(d.run().is_empty());
    let mut d = SetIpDetector::new();
    d.configure(AddressFilters::none(), &vec![v4(169, 254, 1, 1)]);
    assert_eq!(texts(&d.run()), vec!["A: 169.254.1.1"]);
}

#[test]
fn shared_ipv4_filter_boundary() {
    let on = only(|f| f.ignore_shared = true);
    assert!(!on.keeps(&v4(100, 64, 0, 5)));
    assert!(on.keeps(&v4(100, 63, 255, 255)));
    assert!(!on.keeps(&v4(100, 127, 255, 255)));
    assert!(on.keeps(&v4(100, 128, 0, 0)));
}

#[test]
fn ipv6_link_local_and_private_filters() {
    let link = only(|f| f.ignore_link_local = true);
    assert!(!link.keeps(&v6([0xfe80, 0, 0, 0, 0, 0, 0, 1])));
    assert!(link.keeps(&v6([0xfc00, 0, 0, 0, 0, 0, 0, 1])));
    let private = only(|f| f.ignore_private = true);
    assert!(!private.keeps(&v6([0xfc00, 0, 0, 0, 0, 0, 0, 1])));
    assert!(!private.keeps(&v6([0xfd12, 0, 0, 0, 0, 0, 0, 1])));
    assert!(private.keeps(&v6([0x2001, 0xdb8, 0, 0, 0, 0, 0, 1])));
    let shared = only(|f| f.ignore_shared = true);
    assert!(shared.keeps(&v6([0x100, 0x40, 0, 0, 0, 0, 0, 1])));
}

#[test]
fn loopback_private_multicast_filters() {
    let lo = only(|f| f.ignore_loopback = true);
    assert!(!lo.keeps(&v4(127, 0, 0, 1)));
    assert!(!lo.keeps(&v6([0, 0, 0, 0, 0, 0, 0, 1])));
    assert!(lo.keeps(&v6([0, 0, 0, 0, 0, 0, 0, 2])));
    let private = only(|f| f.ignore_private = true);
    assert!(!private.keeps(&v4(10, 1, 2, 3)));
    assert!(!private.keeps(&v4(172, 16, 0, 1)));
    assert!(!private.keeps(&v4(172, 31, 255, 255)));
    assert!(private.keeps(&v4(172, 32, 0, 1)));
    assert!(!private.keeps(&v4(192, 168, 1, 1)));
    assert!(private.keeps(&v4(8, 8, 8, 8)));
    let mc = only(|f| f.ignore_multicast = true);
    assert!(!mc.keeps(&v4(224, 0, 0, 1)));
    assert!(!mc.keeps(&v4(239, 255, 255, 255)));
    assert!(mc.keeps(&v4(240, 0, 0, 1)));
    assert!(!mc.keeps(&v6([0xff02, 0, 0, 0, 0, 0, 0, 1])));
}

#[test]
fn no_filter_keeps_every_address_in_order() {
    let addrs = vec![
        v6([0xfe80, 0, 0, 0, 0, 0, 0, 1]),
        v4(127, 0, 0, 1),
        v4(203, 0, 113, 5),
        v4(127, 0, 0, 1),
    ];
    let mut d = SetIpDetector::new();
    d.configure(AddressFilters::none(), &addrs);
    assert_eq!(
        texts(&d.run()),
        vec!["AAAA: fe80::1", "A: 127.0.0.1", "A: 203.0.113.5", "A: 127.0.0.1"]
    );
}

#[test]
fn filters_keep_input_order() {
    let filters = AddressFilters {
        ignore_link_local: true,
        ignore_shared: true,
        ignore_loopback: true,
        ignore_private: true,
        ignore_multicast: true,
    };
    let addrs = vec![
        v4(8, 8, 8, 8),
        v4(192, 168, 0, 1),
        v6([0x2001, 0xdb8, 0, 0, 0, 0, 0, 1]),
        v4(100, 64, 0, 1),
        v4(1, 1, 1, 1),
    ];
    let mut d = SetIpDetector::new();
    d.configure(filters, &addrs);
    assert_eq!(texts(&d.run()), vec!["A: 8.8.8.8", "AAAA: 2001:db8::1", "A: 1.1.1.1"]);
}

#[test]
fn echo_reply_yields_one_a_record() {
    let mut d = GetIpByUrlDetector::new(String::from("https://myip.example/"));
    assert_eq!(d.request_url(), Some(String::from("https://myip.example/")));
    d.accept_reply(Some(v4(203, 0, 113, 5)));
    let records = d.run();
    assert_eq!(records.len(), 1);
    assert_eq!(records[0].kind(), "A");
    assert_eq!(records[0].content(), "203.0.113.5");
}

#[test]
fn echo_without_address_yields_nothing() {
    let mut d = GetIpByUrlDetector::new(String::from("https://myip.example/"));
    d.accept_reply(None);
    assert!(d.run().is_empty());
    let unconfigured = GetIpByUrlDetector::new(String::new());
    assert_eq!(unconfigured.request_url(), None);
}

#[test]
fn echo_ipv6_reply_yields_aaaa() {
    let mut d = GetIpByUrlDetector::new(String::from("https://myip.example/"));
    d.accept_reply(Some(v6([0x2001, 0xdb8, 0, 0, 0, 0, 0, 5])));
    assert_eq!(texts(&d.run()), vec!["AAAA: 2001:db8::5"]);
}

#[test]
fn detectors_are_registered_unconfigured() {
    let ds = register_detectors();
    assert_eq!(ds.len(), 2);
    assert!(matches!(ds[0], Detector::SetIp(_)));
    assert!(matches!(ds[1], Detector::GetIpByUrl(_)));
    assert!(ds.iter().all(|d| d.run().is_empty()));
}

#[test]
fn aggregation_collapses_only_adjacent_duplicates() {
    let a = Record::A(Ipv4Address::new(1, 1, 1, 1));
    let b = Record::A(Ipv4Address::new(2, 2, 2, 2));
    let outputs = vec![
        vec![a.duplicate(), a.duplicate(), b.duplicate()],
        vec![],
        vec![b.duplicate(), a.duplicate()],
        vec![Record::Txt(String::from("1.1.1.1"))],
    ];
    let all = collect_records(&outputs);
    assert_eq!(texts(&all), vec!["A: 1.1.1.1", "A: 2.2.2.2", "A: 1.1.1.1", "TXT: 1.1.1.1"]);
    assert!(collect_records(&vec![]).is_empty());
}

#[test]
fn record_kinds_and_contents() {
    assert_eq!(Record::Cname(String::from("a.example")).to_text(), "CNAME: a.example");
    assert_eq!(Record::Mx(String::from("mx.example")).kind(), "MX");
    let key = Record::Aaaa(Ipv6Address::new([0xfe80, 0, 0, 0, 0, 0, 0, 1])).key();
    assert_eq!(key.kind, "AAAA");
    assert_eq!(key.content, "fe80::1");
}
