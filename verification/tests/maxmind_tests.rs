use usiem_enrichment::maxmind::{
    process_maxmind_geo_lite2_asn_block_csv, process_maxmind_geo_lite2_city_block_csv,
    process_maxmind_geo_lite2_city_csv, process_maxmind_geo_lite2_country_csv,
    process_maxmind_geo_lite2_csv,
};
use usiem_enrichment::net::NetworkPrefix;

const COUNTRY_HEADER: &str = "geoname_id,locale_code,continent_code,continent_name,country_iso_code,country_name";
const CITY_HEADER: &str = "geoname_id,locale_code,continent_code,continent_name,country_iso_code,country_name,city_name";
const BLOCK_HEADER: &str = "network,geoname_id,registered_country_geoname_id,represented_country_geoname_id,latitude,longitude";
const ASN_HEADER: &str = "network,autonomous_system_number,autonomous_system_organization";

fn lines(v: &[&str]) -> Vec<String> {
    v.iter().map(|s| s.to_string()).collect()
}

#[test]
fn country_table_joins_by_id() {
    let m = process_maxmind_geo_lite2_country_csv(
        COUNTRY_HEADER,
        &lines(&["2921044,en,EU,Europe,DE,Germany", "2077456,en,OC,Oceania,AU,Australia"]),
    );
    assert_eq!(2, m.len());
    let de = m.get(&2921044).unwrap();
    assert_eq!("EU", de.continent_code.as_str());
    assert_eq!("Europe", de.continent_name.as_str());
    assert_eq!("DE", de.country_iso_code.as_str());
    assert_eq!("Germany", de.country_name.as_str());
}

#[test]
fn malformed_geoname_id_skips_only_that_row() {
    let m = process_maxmind_geo_lite2_country_csv(
        COUNTRY_HEADER,
        &lines(&["oops,en,EU,Europe,DE,Germany", "2077456,en,OC,Oceania,AU,Australia"]),
    );
    assert_eq!(1, m.len());
    assert!(m.get(&2077456).is_some());
}

#[test]
fn city_table_respects_enable_city() {
    let rows = lines(&["2057192,en,OC,Oceania,AU,Australia,Yunta"]);
    let with_city = process_maxmind_geo_lite2_city_csv(CITY_HEADER, &rows, true);
    assert_eq!("Yunta", with_city.get(&2057192).unwrap().city_name.as_str());
    assert_eq!("Australia", with_city.get(&2057192).unwrap().country_name.as_str());
    // disabling the city name must still populate the country column
    let without_city = process_maxmind_geo_lite2_city_csv(CITY_HEADER, &rows, false);
    assert_eq!("", without_city.get(&2057192).unwrap().city_name.as_str());
    assert_eq!("Australia", without_city.get(&2057192).unwrap().country_name.as_str());
}

#[test]
fn registered_country_fills_when_city_country_empty() {
    // the city row carries no country; the registered country wins
    let cities = process_maxmind_geo_lite2_city_csv(
        CITY_HEADER,
        &lines(&["111,en,EU,Europe,,,Shadowtown"]),
        true,
    );
    let countries = process_maxmind_geo_lite2_country_csv(
        COUNTRY_HEADER,
        &lines(&["222,en,EU,Europe,DE,Germany"]),
    );
    let nt = process_maxmind_geo_lite2_city_block_csv(
        BLOCK_HEADER,
        &lines(&["1.0.0.0/24,111,222,,51.5,9.9"]),
        &cities,
        &countries,
    );
    assert_eq!(1, nt.len());
    let (net, rec) = &nt.entries[0];
    assert_eq!("1.0.0.0/24", net.as_str());
    assert_eq!("Shadowtown", rec.city.as_str());
    assert_eq!("Germany", rec.country.as_str());
    assert_eq!("DE", rec.country_iso.as_str());
    assert_eq!("51.5", rec.latitude.as_str());
    // the vendor schema's longitude column is never read
    assert_eq!("", rec.longitude.as_str());
}

#[test]
fn city_country_set_first_wins_over_registered() {
    let cities = process_maxmind_geo_lite2_city_csv(
        CITY_HEADER,
        &lines(&["111,en,OC,Oceania,AU,Australia,Yunta"]),
        true,
    );
    let countries = process_maxmind_geo_lite2_country_csv(
        COUNTRY_HEADER,
        &lines(&["222,en,EU,Europe,DE,Germany"]),
    );
    let nt = process_maxmind_geo_lite2_city_block_csv(
        BLOCK_HEADER,
        &lines(&["1.0.0.0/24,111,222,,51.5,9.9"]),
        &cities,
        &countries,
    );
    let (_, rec) = &nt.entries[0];
    assert_eq!("Australia", rec.country.as_str());
    // the ISO code still comes from the registered country
    assert_eq!("DE", rec.country_iso.as_str());
}

#[test]
fn asn_merge_is_additive_only() {
    let cities = process_maxmind_geo_lite2_city_csv(CITY_HEADER, &lines(&[]), true);
    let countries = process_maxmind_geo_lite2_country_csv(COUNTRY_HEADER, &lines(&[]));
    let mut nt = process_maxmind_geo_lite2_city_block_csv(
        BLOCK_HEADER,
        &lines(&["1.9.0.0/16,,,,,"]),
        &cities,
        &countries,
    );
    assert_eq!(1, nt.len());
    process_maxmind_geo_lite2_asn_block_csv(
        ASN_HEADER,
        &lines(&[
            r#"1.9.0.0/16,4788,"TM Net, Internet Service Provider""#,
            "5.5.0.0/16,999,Stray Org",
        ]),
        &mut nt,
    );
    // the row with no matching record creates none: the map size is unchanged
    assert_eq!(1, nt.len());
    let (net, rec) = &nt.entries[0];
    assert_eq!("1.9.0.0/16", net.as_str());
    assert_eq!(4788, rec.asn);
    assert_eq!("TM Net, Internet Service Provider", rec.isp.as_str());
}

#[test]
fn repeated_network_key_replaces_in_place() {
    let cities = process_maxmind_geo_lite2_city_csv(CITY_HEADER, &lines(&[]), true);
    let countries = process_maxmind_geo_lite2_country_csv(
        COUNTRY_HEADER,
        &lines(&["1,en,EU,Europe,FR,France", "2,en,EU,Europe,DE,Germany"]),
    );
    let nt = process_maxmind_geo_lite2_city_block_csv(
        BLOCK_HEADER,
        &lines(&["1.0.0.0/24,,1,,,", "1.0.0.0/24,,2,,,"]),
        &cities,
        &countries,
    );
    assert_eq!(1, nt.len());
    assert_eq!("Germany", nt.entries[0].1.country.as_str());
}

#[test]
fn full_build_parses_and_discards() {
    let records = process_maxmind_geo_lite2_csv(
        COUNTRY_HEADER,
        &lines(&["222,en,EU,Europe,DE,Germany"]),
        CITY_HEADER,
        &lines(&["111,en,EU,Europe,DE,Germany,Berlin"]),
        BLOCK_HEADER,
        &lines(&[
            "1.0.0.0/24,111,222,,52.5,13.4",
            "bogus/99,111,222,,1.0,2.0",
            "2.0.0.0/33,111,222,,1.0,2.0",
        ]),
        BLOCK_HEADER,
        &lines(&["2001:db8::/32,111,222,,52.5,13.4"]),
        ASN_HEADER,
        &lines(&["1.0.0.0/24,64512,Example Carrier"]),
        ASN_HEADER,
        &lines(&[]),
        true,
    );
    // the unparsable network and the overlong prefix are discarded
    assert_eq!(2, records.len());
    let (p0, r0) = &records[0];
    assert_eq!(NetworkPrefix::V4 { addr: 0x01000000, prefix: 24 }, *p0);
    assert_eq!("Berlin", r0.city.as_str());
    assert_eq!("Germany", r0.country.as_str());
    assert_eq!(64512, r0.asn);
    assert_eq!("Example Carrier", r0.isp.as_str());
    let (p1, _r1) = &records[1];
    assert_eq!(
        NetworkPrefix::V6 { addr: 0x2001_0db8_0000_0000_0000_0000_0000_0000, prefix: 32 },
        *p1
    );
}

#[test]
fn plus_signed_geoname_id_still_reads() {
    let m = process_maxmind_geo_lite2_country_csv(
        COUNTRY_HEADER,
        &lines(&["+123,en,EU,Europe,DE,Germany"]),
    );
    assert!(m.get(&123).is_some());
}

#[test]
fn overflowing_geoname_id_skips_the_row() {
    let m = process_maxmind_geo_lite2_country_csv(
        COUNTRY_HEADER,
        &lines(&["99999999999,en,EU,Europe,DE,Germany"]),
    );
    assert_eq!(0, m.len());
}

#[test]
fn unreadable_asn_number_falls_back_to_zero() {
    let cities = process_maxmind_geo_lite2_city_csv(CITY_HEADER, &lines(&[]), true);
    let countries = process_maxmind_geo_lite2_country_csv(COUNTRY_HEADER, &lines(&[]));
    let mut nt = process_maxmind_geo_lite2_city_block_csv(
        BLOCK_HEADER,
        &lines(&["1.9.0.0/16,,,,,"]),
        &cities,
        &countries,
    );
    process_maxmind_geo_lite2_asn_block_csv(
        ASN_HEADER,
        &lines(&["1.9.0.0/16,notanumber,Some Org"]),
        &mut nt,
    );
    assert_eq!(0, nt.entries[0].1.asn);
    assert_eq!("Some Org", nt.entries[0].1.isp.as_str());
}

#[test]
fn unresolved_geoname_ids_leave_fields_empty() {
    // a miss in the reference maps is not an error: the record simply
    // keeps empty fields
    let cities = process_maxmind_geo_lite2_city_csv(CITY_HEADER, &lines(&[]), true);
    let countries = process_maxmind_geo_lite2_country_csv(COUNTRY_HEADER, &lines(&[]));
    let nt = process_maxmind_geo_lite2_city_block_csv(
        BLOCK_HEADER,
        &lines(&["1.0.0.0/24,oops,777,,3.5,"]),
        &cities,
        &countries,
    );
    assert_eq!(1, nt.len());
    let (_, rec) = &nt.entries[0];
    assert_eq!("", rec.city.as_str());
    assert_eq!("", rec.country.as_str());
    assert_eq!("", rec.country_iso.as_str());
    assert_eq!("3.5", rec.latitude.as_str());
}
