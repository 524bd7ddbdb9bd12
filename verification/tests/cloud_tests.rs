use usiem_enrichment::aws::{Aws6Service, AwsIpRanges, AwsService};
use usiem_enrichment::azure::{AzureIpRanges, AzureService, AzureServiceProperties};
use usiem_enrichment::net::NetworkPrefix;
use usiem_enrichment::o365::Office365ServiceInfo;
use usiem_enrichment::tasks::cloud_provider::{process_aws_ranges, process_azure_ranges};
use usiem_enrichment::tasks::cloud_services::process_o365;

fn aws_v4(prefix: &str, region: &str, service: &str) -> AwsService {
    AwsService {
        ip_prefix: prefix.to_string(),
        region: region.to_string(),
        service: service.to_string(),
        network_border_group: region.to_string(),
    }
}

fn aws_v6(prefix: &str, region: &str, service: &str) -> Aws6Service {
    Aws6Service {
        ipv6_prefix: prefix.to_string(),
        region: region.to_string(),
        service: service.to_string(),
        network_border_group: region.to_string(),
    }
}

#[test]
fn aws_catch_all_service_yields_no_service_label() {
    let ranges = AwsIpRanges {
        sync_token: "1".to_string(),
        create_date: "today".to_string(),
        prefixes: vec![
            aws_v4("3.5.140.0/22", "ap-northeast-2", "AMAZON"),
            aws_v4("52.94.76.0/22", "us-west-2", "S3"),
            aws_v4("not-a-prefix", "us-west-2", "S3"),
        ],
        ipv6_prefixes: vec![aws_v6("2600:1f14::/35", "us-west-2", "EC2")],
    };
    let records = process_aws_ranges(&ranges);
    assert_eq!(3, records.len());
    // AMAZON stands for no specific service, but the region still counts
    assert!(records[0].service.is_none());
    assert_eq!("AWS-ap-northeast-2", records[0].region.as_ref().unwrap().as_str());
    assert_eq!("S3", records[1].service.as_ref().unwrap().as_str());
    assert_eq!(NetworkPrefix::V4 { addr: 0x03058C00, prefix: 22 }, records[0].network);
    assert!(matches!(records[2].network, NetworkPrefix::V6 { .. }));
    assert_eq!("EC2", records[2].service.as_ref().unwrap().as_str());
}

#[test]
fn aws_empty_region_yields_no_region_label() {
    let ranges = AwsIpRanges {
        sync_token: "1".to_string(),
        create_date: "today".to_string(),
        prefixes: vec![aws_v4("10.0.0.0/8", "", "EC2")],
        ipv6_prefixes: vec![],
    };
    let records = process_aws_ranges(&ranges);
    assert_eq!(1, records.len());
    assert!(records[0].region.is_none());
    assert_eq!("EC2", records[0].service.as_ref().unwrap().as_str());
}

#[test]
fn azure_mixed_families_split_by_parse() {
    let ranges = AzureIpRanges {
        change_number: 1,
        cloud: "Public".to_string(),
        values: vec![AzureService {
            name: "AzureAD".to_string(),
            id: "AzureAD".to_string(),
            properties: AzureServiceProperties {
                change_number: 1,
                region: "uksouth".to_string(),
                region_id: 3,
                platform: "Azure".to_string(),
                system_service: "AzureAD".to_string(),
                address_prefixes: vec![
                    "20.190.128.0/18".to_string(),
                    "2603:1006:2000::/48".to_string(),
                    "garbage".to_string(),
                ],
            },
        }],
    };
    let records = process_azure_ranges(&ranges);
    assert_eq!(2, records.len());
    assert!(matches!(records[0].network, NetworkPrefix::V4 { .. }));
    assert!(matches!(records[1].network, NetworkPrefix::V6 { .. }));
    assert_eq!("Azure-uksouth", records[0].region.as_ref().unwrap().as_str());
    assert_eq!("AzureAD", records[0].service.as_ref().unwrap().as_str());
}

#[test]
fn azure_empty_labels_yield_none() {
    let ranges = AzureIpRanges {
        change_number: 1,
        cloud: "Public".to_string(),
        values: vec![AzureService {
            name: "bare".to_string(),
            id: "bare".to_string(),
            properties: AzureServiceProperties {
                change_number: 1,
                region: "".to_string(),
                region_id: 0,
                platform: "Azure".to_string(),
                system_service: "".to_string(),
                address_prefixes: vec!["10.1.0.0/16".to_string()],
            },
        }],
    };
    let records = process_azure_ranges(&ranges);
    assert_eq!(1, records.len());
    assert!(records[0].region.is_none());
    assert!(records[0].service.is_none());
}

fn o365_entry(area: &str, ips: &[&str]) -> Office365ServiceInfo {
    Office365ServiceInfo {
        id: 1,
        service_area: area.to_string(),
        service_area_display_name: area.to_string(),
        urls: vec![],
        ips: ips.iter().map(|s| s.to_string()).collect(),
        tcp_ports: Some("443".to_string()),
        udp_ports: None,
        express_route: false,
        category: "Optimize".to_string(),
        required: true,
    }
}

#[test]
fn o365_colon_marks_the_wide_family() {
    let services = vec![o365_entry(
        "Exchange",
        &["13.107.6.152/31", "2603:1006::/40", "no-slash", "1.2.3.4/33", "::1/129"],
    )];
    let records = process_o365(&services);
    // the overlong lengths and the slashless entry are discarded
    assert_eq!(2, records.len());
    assert_eq!(NetworkPrefix::V4 { addr: 0x0D6B0698, prefix: 31 }, records[0].network);
    assert!(matches!(records[1].network, NetworkPrefix::V6 { .. }));
    assert_eq!("Exchange", records[0].service.as_ref().unwrap().as_str());
    assert!(records[0].region.is_none());
}

#[test]
fn o365_common_area_gets_suite_label() {
    let services = vec![o365_entry("Common", &["13.107.6.152/31"])];
    let records = process_o365(&services);
    assert_eq!(1, records.len());
    assert_eq!("O365 Common", records[0].service.as_ref().unwrap().as_str());
}
