use usiem_enrichment::common::{parse_ip4_network, parse_ip6_network};
use usiem_enrichment::err::TempErr;
use usiem_enrichment::maxmind::{decide_descend, DirEntryInfo};
use usiem_enrichment::net::{ipv4_from_str, ipv6_from_str, split_sep};

#[test]
fn ipv4_parses_dotted_quad() {
    assert_eq!(Some(0x01020304), ipv4_from_str("1.2.3.4"));
    assert_eq!(Some(0), ipv4_from_str("0.0.0.0"));
    assert_eq!(Some(u32::MAX), ipv4_from_str("255.255.255.255"));
}

#[test]
fn ipv4_rejects_bad_shapes() {
    assert_eq!(None, ipv4_from_str("256.1.1.1"));
    assert_eq!(None, ipv4_from_str("1.2.3"));
    assert_eq!(None, ipv4_from_str("1.2.3.4.5"));
    assert_eq!(None, ipv4_from_str("1.2.3."));
    assert_eq!(None, ipv4_from_str("a.b.c.d"));
    assert_eq!(None, ipv4_from_str(""));
}

#[test]
fn ipv6_parses_full_and_compressed() {
    assert_eq!(Some(1), ipv6_from_str("::1"));
    assert_eq!(Some(0), ipv6_from_str("::"));
    assert_eq!(
        Some(0x0001_0002_0003_0004_0005_0006_0007_0008),
        ipv6_from_str("1:2:3:4:5:6:7:8")
    );
    assert_eq!(
        Some(0x2001_0db8_0000_0000_0000_0000_0000_0000),
        ipv6_from_str("2001:db8::")
    );
    assert_eq!(
        Some(0x2001_0db8_0000_0000_0000_0000_0000_0001),
        ipv6_from_str("2001:db8::1")
    );
    assert_eq!(
        Some(0xfe80_0000_0000_0000_0000_0000_0000_0042),
        ipv6_from_str("fe80::42")
    );
}

#[test]
fn ipv6_rejects_bad_shapes() {
    assert_eq!(None, ipv6_from_str(""));
    assert_eq!(None, ipv6_from_str(":"));
    assert_eq!(None, ipv6_from_str(":::"));
    assert_eq!(None, ipv6_from_str("1::2::3"));
    assert_eq!(None, ipv6_from_str("1:2:3:4:5:6:7"));
    assert_eq!(None, ipv6_from_str("1:2:3:4:5:6:7:8:9"));
    assert_eq!(None, ipv6_from_str("12345::"));
    assert_eq!(None, ipv6_from_str("g::1"));
    assert_eq!(None, ipv6_from_str(":1:2:3:4:5:6:7"));
}

#[test]
fn network_strings_parse_with_length() {
    assert_eq!(Some((0x01090000, 16)), parse_ip4_network("1.9.0.0/16"));
    assert_eq!(Some((1, 128)), parse_ip6_network("::1/128"));
    assert_eq!(None, parse_ip4_network("1.9.0.0"));
    assert_eq!(None, parse_ip4_network("1.9.0/16"));
    assert_eq!(None, parse_ip6_network("zz::/64"));
}

#[test]
fn overlong_prefix_lengths_are_rejected() {
    // rejected and discarded, not clamped
    assert_eq!(None, parse_ip4_network("1.2.3.0/33"));
    assert_eq!(Some((0x01020300, 32)), parse_ip4_network("1.2.3.0/32"));
    assert_eq!(None, parse_ip6_network("::1/129"));
    assert_eq!(Some((1, 128)), parse_ip6_network("::1/128"));
}

#[test]
fn split_sep_cuts_on_separator() {
    let parts = split_sep("a.b..c", '.');
    assert_eq!(4, parts.len());
    assert_eq!("", parts[2].as_str());
}

fn entry(name: &str, is_dir: bool) -> DirEntryInfo {
    DirEntryInfo { name: name.to_string(), is_dir }
}

#[test]
fn walk_descends_into_single_subdirectory() {
    let level = vec![entry("inner", true)];
    assert_eq!(Ok(Some(0)), decide_descend(&level));
}

#[test]
fn walk_stops_on_files_only() {
    let level = vec![entry("a.csv", false), entry("b.csv", false)];
    assert_eq!(Ok(None), decide_descend(&level));
    let empty: Vec<DirEntryInfo> = Vec::new();
    assert_eq!(Ok(None), decide_descend(&empty));
}

#[test]
fn walk_refuses_ambiguous_level() {
    let level = vec![entry("inner", true), entry("stray.csv", false)];
    assert_eq!(Err(TempErr::Archive), decide_descend(&level));
    let level = vec![entry("one", true), entry("two", true)];
    assert_eq!(Err(TempErr::Archive), decide_descend(&level));
}

#[test]
fn failure_reasons_are_terse_and_stable() {
    assert_eq!("cannot reach the vendor endpoint", TempErr::Connection.as_text());
    assert_eq!("vendor document has an unexpected shape", TempErr::Serialization.as_text());
    assert_eq!("cannot read or write a working file", TempErr::Io.as_text());
    assert_eq!("cannot extract the vendor archive", TempErr::Archive.as_text());
    assert_eq!("cannot interpret a vendor file", TempErr::Parse.as_text());
}
