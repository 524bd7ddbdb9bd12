use usiem_enrichment::aws;
use usiem_enrichment::azure;
use usiem_enrichment::maxmind::{
    get_static_continent_code, get_static_continent_name, get_static_country_iso_name,
    get_static_country_name, static_principal_asns,
};
use usiem_enrichment::o365;

#[test]
fn aws_service_known_keeps_text() {
    let r = aws::static_service("EC2".to_string());
    assert_eq!("EC2", r.as_str());
}

#[test]
fn aws_service_unknown_keeps_text() {
    let r = aws::static_service("SOMETHING_NEW".to_string());
    assert_eq!("SOMETHING_NEW", r.as_str());
}

#[test]
fn aws_region_known_gets_prefix() {
    let r = aws::static_region("us-east-1".to_string());
    assert_eq!("AWS-us-east-1", r.as_str());
}

#[test]
fn aws_region_unknown_unchanged() {
    let r = aws::static_region("nowhere-9".to_string());
    assert_eq!("nowhere-9", r.as_str());
}

#[test]
fn azure_region_known_gets_prefix() {
    let r = azure::static_region("uksouth");
    assert_eq!("Azure-uksouth", r.as_str());
}

#[test]
fn azure_service_already_prefixed_unchanged() {
    let r = azure::static_service("AzureAD");
    assert_eq!("AzureAD", r.as_str());
}

#[test]
fn azure_service_bare_name_gets_prefix() {
    let r = azure::static_service("DataFactory");
    assert_eq!("AzureDataFactory", r.as_str());
}

#[test]
fn azure_service_unknown_unchanged() {
    let r = azure::static_service("BrandNewThing");
    assert_eq!("BrandNewThing", r.as_str());
}

#[test]
fn o365_common_gets_suite_label() {
    assert_eq!("O365 Common", o365::static_service("Common").as_str());
    assert_eq!("Exchange", o365::static_service("Exchange").as_str());
    assert_eq!("Unknown Area", o365::static_service("Unknown Area").as_str());
}

#[test]
fn continent_code_keeps_text() {
    assert_eq!("OC", get_static_continent_code("OC").as_str());
    assert_eq!("ZZ", get_static_continent_code("ZZ").as_str());
}

#[test]
fn continent_name_unquotes_vendor_forms() {
    assert_eq!("South America", get_static_continent_name("\"South America\"").as_str());
    assert_eq!("North America", get_static_continent_name("\"North America\"").as_str());
    assert_eq!("Europe", get_static_continent_name("Europe").as_str());
    assert_eq!("Atlantis", get_static_continent_name("Atlantis").as_str());
}

#[test]
fn country_iso_keeps_text() {
    assert_eq!("DE", get_static_country_iso_name("DE").as_str());
    assert_eq!("Q9", get_static_country_iso_name("Q9").as_str());
}

#[test]
fn country_name_known_keeps_text() {
    assert_eq!("Germany", get_static_country_name("Germany").as_str());
    assert_eq!(
        "Bonaire, Sint Eustatius, and Saba",
        get_static_country_name("\"Bonaire, Sint Eustatius, and Saba\"").as_str()
    );
}

#[test]
fn country_name_unknown_kept_exactly() {
    assert_eq!("Atlantis", get_static_country_name("Atlantis").as_str());
    // a value outside the table is never altered, stray quotes included
    assert_eq!("Foo\"Bar", get_static_country_name("Foo\"Bar").as_str());
    assert_eq!("\"\"", get_static_country_name("\"\"").as_str());
}

#[test]
fn principal_asn_keeps_text() {
    assert_eq!("LEVEL3", static_principal_asns("LEVEL3").as_str());
    assert_eq!("Tiny ISP Ltd", static_principal_asns("Tiny ISP Ltd").as_str());
}
