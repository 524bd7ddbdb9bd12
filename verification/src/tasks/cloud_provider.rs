use vstd::prelude::*;
use crate::aws::{AwsIpRanges, AwsService, AwsServiceV, Aws6Service, Aws6ServiceV, aws_region_label};
use crate::azure::{AzureIpRanges, AzureService, AzureServiceV, azure_region_label,
    azure_service_canon};
use crate::common::{
    ip4_net_addr, ip4_net_len, ip4_net_valid, ip6_net_addr, ip6_net_len, ip6_net_valid,
    parse_ip4_network, parse_ip6_network,
};
use crate::net::NetworkPrefix;
use crate::text::{LogString, str_eq};

verus! {

// ---------------------------------------------------------------------------
// Normalizing the two providers' range documents into one record shape.
// Each advertised prefix that parses — and whose length fits its
// family — yields one record; its region and service labels are each
// independently optional. The caller inserts these records into its
// store one by one, so re-running a normalizer over the same snapshot
// re-inserts the same pairs.
// ---------------------------------------------------------------------------
/// One normalized range: a family-tagged prefix with an optional region
/// label and an optional service label.
pub struct CloudNetworkRecord {
    pub network: NetworkPrefix,
    pub region: Option<LogString>,
    pub service: Option<LogString>,
}

/// The text of one normalized range.
pub struct CloudRecV {
    pub network: NetworkPrefix,
    pub region: Option<Seq<char>>,
    pub service: Option<Seq<char>>,
}

impl View for CloudNetworkRecord {
    type V = CloudRecV;

    open spec fn view(&self) -> CloudRecV {
        CloudRecV {
            network: self.network,
            region: match self.region {
                Some(ref l) => Some(l@),
                None => None,
            },
            service: match self.service {
                Some(ref l) => Some(l@),
                None => None,
            },
        }
    }
}

/// The views of a batch of normalized ranges.
pub open spec fn cloud_views(rs: Seq<CloudNetworkRecord>) -> Seq<CloudRecV> {
    rs.map_values(|r: CloudNetworkRecord| r@)
}

/// What one v4 entry yields: nothing when its prefix does not parse;
/// otherwise a record whose region is the prefixed label when the entry
/// names one, and whose service is the name itself unless it is empty or
/// the provider's own catch-all name, which stands for no specific
/// service.
pub open spec fn aws_v4_record(e: AwsServiceV) -> Option<CloudRecV> {
    if ip4_net_valid(e.ip_prefix) {
        Some(
            CloudRecV {
                network: NetworkPrefix::V4 {
                    addr: ip4_net_addr(e.ip_prefix) as u32,
                    prefix: ip4_net_len(e.ip_prefix) as u8,
                },
                region: if e.region.len() > 0 {
                    Some(aws_region_label(e.region))
                } else {
                    None
                },
                service: if e.service != "AMAZON"@ && e.service.len() > 0 {
                    Some(e.service)
                } else {
                    None
                },
            },
        )
    } else {
        None
    }
}

pub open spec fn aws_v6_record(e: Aws6ServiceV) -> Option<CloudRecV> {
    if ip6_net_valid(e.ipv6_prefix) {
        Some(
            CloudRecV {
                network: NetworkPrefix::V6 {
                    addr: ip6_net_addr(e.ipv6_prefix) as u128,
                    prefix: ip6_net_len(e.ipv6_prefix) as u8,
                },
                region: if e.region.len() > 0 {
                    Some(aws_region_label(e.region))
                } else {
                    None
                },
                service: if e.service != "AMAZON"@ && e.service.len() > 0 {
                    Some(e.service)
                } else {
                    None
                },
            },
        )
    } else {
        None
    }
}

pub open spec fn aws_v4_fold(es: Seq<AwsServiceV>) -> Seq<CloudRecV>
    decreases es.len(),
{
    if es.len() == 0 {
        Seq::empty()
    } else {
        let prev = aws_v4_fold(es.drop_last());
        match aws_v4_record(es.last()) {
            Some(r) => prev.push(r),
            None => prev,
        }
    }
}

pub open spec fn aws_v6_fold(es: Seq<Aws6ServiceV>) -> Seq<CloudRecV>
    decreases es.len(),
{
    if es.len() == 0 {
        Seq::empty()
    } else {
        let prev = aws_v6_fold(es.drop_last());
        match aws_v6_record(es.last()) {
            Some(r) => prev.push(r),
            None => prev,
        }
    }
}

/// Every record of the published document: the v4 entries' records,
/// then the v6 entries'.
pub open spec fn aws_records_spec(p4: Seq<AwsServiceV>, p6: Seq<Aws6ServiceV>) -> Seq<CloudRecV> {
    aws_v4_fold(p4) + aws_v6_fold(p6)
}

/// Normalizes one fetched range document into records.
pub fn process_aws_ranges(ranges: &AwsIpRanges) -> (r: Vec<CloudNetworkRecord>)
    ensures
        cloud_views(r@) == aws_records_spec(
            ranges.prefixes@.map_values(|e: AwsService| e@),
            ranges.ipv6_prefixes@.map_values(|e: Aws6Service| e@),
        ),
{
    let ghost p4 = ranges.prefixes@.map_values(|e: AwsService| e@);
    let ghost p6 = ranges.ipv6_prefixes@.map_values(|e: Aws6Service| e@);
    let mut out: Vec<CloudNetworkRecord> = Vec::new();
    let mut i: usize = 0;
    proof {
        assert(p4.take(0) =~= Seq::<AwsServiceV>::empty());
        assert(cloud_views(out@) =~= aws_v4_fold(p4.take(0)));
    }
    while i < ranges.prefixes.len()
        invariant
            p4 == ranges.prefixes@.map_values(|e: AwsService| e@),
            i <= p4.len(),
            cloud_views(out@) == aws_v4_fold(p4.take(i as int)),
        decreases p4.len() - i,
    {
        let ghost pre = cloud_views(out@);
        let entry = &ranges.prefixes[i];
        proof {
            assert(p4[i as int] == entry@);
            assert(p4.take(i as int + 1).drop_last() =~= p4.take(i as int));
            assert(p4.take(i as int + 1).last() == p4[i as int]);
        }
        match parse_ip4_network(entry.ip_prefix.as_str()) {
            Some((addr, prefix)) => {
                let region = if !entry.region.as_str().is_empty() {
                    Some(crate::aws::static_region(entry.region.clone()))
                } else {
                    None
                };
                let service = if !str_eq(entry.service.as_str(), "AMAZON")
                    && !entry.service.as_str().is_empty() {
                    Some(crate::aws::static_service(entry.service.clone()))
                } else {
                    None
                };
                out.push(
                    CloudNetworkRecord { network: NetworkPrefix::V4 { addr, prefix }, region, service },
                );
                proof {
                    assert(cloud_views(out@) =~= pre.push(aws_v4_record(p4[i as int]).unwrap()));
                }
            },
            None => {},
        }
        i = i + 1;
    }
    proof {
        assert(p4.take(p4.len() as int) =~= p4);
    }
    let ghost base = cloud_views(out@);
    let mut j: usize = 0;
    proof {
        assert(p6.take(0) =~= Seq::<Aws6ServiceV>::empty());
        assert(base + aws_v6_fold(p6.take(0)) =~= base);
    }
    while j < ranges.ipv6_prefixes.len()
        invariant
            p6 == ranges.ipv6_prefixes@.map_values(|e: Aws6Service| e@),
            j <= p6.len(),
            base == aws_v4_fold(p4),
            cloud_views(out@) == base + aws_v6_fold(p6.take(j as int)),
        decreases p6.len() - j,
    {
        let ghost pre = cloud_views(out@);
        let entry = &ranges.ipv6_prefixes[j];
        proof {
            assert(p6[j as int] == entry@);
            assert(p6.take(j as int + 1).drop_last() =~= p6.take(j as int));
            assert(p6.take(j as int + 1).last() == p6[j as int]);
        }
        match parse_ip6_network(entry.ipv6_prefix.as_str()) {
            Some((addr, prefix)) => {
                let region = if !entry.region.as_str().is_empty() {
                    Some(crate::aws::static_region(entry.region.clone()))
                } else {
                    None
                };
                let service = if !str_eq(entry.service.as_str(), "AMAZON")
                    && !entry.service.as_str().is_empty() {
                    Some(crate::aws::static_service(entry.service.clone()))
                } else {
                    None
                };
                out.push(
                    CloudNetworkRecord { network: NetworkPrefix::V6 { addr, prefix }, region, service },
                );
                proof {
                    assert(cloud_views(out@) =~= pre.push(aws_v6_record(p6[j as int]).unwrap()));
                    assert(base + (aws_v6_fold(p6.take(j as int)).push(
                        aws_v6_record(p6[j as int]).unwrap(),
                    )) =~= (base + aws_v6_fold(p6.take(j as int))).push(
                        aws_v6_record(p6[j as int]).unwrap(),
                    ));
                }
            },
            None => {},
        }
        j = j + 1;
    }
    proof {
        assert(p6.take(p6.len() as int) =~= p6);
    }
    out
}

/// What one prefix of a service entry yields: the family is decided by
/// whichever parse succeeds, the narrow form tried first; the labels
/// come canonicalized from the entry, each only when non-empty.
pub open spec fn azure_prefix_record(
    region: Seq<char>,
    service: Seq<char>,
    p: Seq<char>,
) -> Option<CloudRecV> {
    let reg = if region.len() > 0 {
        Some(azure_region_label(region))
    } else {
        None
    };
    let svc = if service.len() > 0 {
        Some(azure_service_canon(service))
    } else {
        None
    };
    if ip4_net_valid(p) {
        Some(
            CloudRecV {
                network: NetworkPrefix::V4 {
                    addr: ip4_net_addr(p) as u32,
                    prefix: ip4_net_len(p) as u8,
                },
                region: reg,
                service: svc,
            },
        )
    } else if ip6_net_valid(p) {
        Some(
            CloudRecV {
                network: NetworkPrefix::V6 {
                    addr: ip6_net_addr(p) as u128,
                    prefix: ip6_net_len(p) as u8,
                },
                region: reg,
                service: svc,
            },
        )
    } else {
        None
    }
}

pub open spec fn azure_prefixes_fold(
    region: Seq<char>,
    service: Seq<char>,
    ps: Seq<Seq<char>>,
) -> Seq<CloudRecV>
    decreases ps.len(),
{
    if ps.len() == 0 {
        Seq::empty()
    } else {
        let prev = azure_prefixes_fold(region, service, ps.drop_last());
        match azure_prefix_record(region, service, ps.last()) {
            Some(r) => prev.push(r),
            None => prev,
        }
    }
}

/// Every record of the published document, entry by entry, each entry's
/// prefixes in order.
pub open spec fn azure_records_spec(values: Seq<AzureServiceV>) -> Seq<CloudRecV>
    decreases values.len(),
{
    if values.len() == 0 {
        Seq::empty()
    } else {
        let e = values.last();
        azure_records_spec(values.drop_last()) + azure_prefixes_fold(
            e.properties.region,
            e.properties.system_service,
            e.properties.address_prefixes,
        )
    }
}

/// Normalizes one fetched service-tag document into records.
pub fn process_azure_ranges(ranges: &AzureIpRanges) -> (r: Vec<CloudNetworkRecord>)
    ensures
        cloud_views(r@) == azure_records_spec(ranges.values@.map_values(|e: AzureService| e@)),
{
    let ghost vs = ranges.values@.map_values(|e: AzureService| e@);
    let mut out: Vec<CloudNetworkRecord> = Vec::new();
    let mut i: usize = 0;
    proof {
        assert(vs.take(0) =~= Seq::<AzureServiceV>::empty());
        assert(cloud_views(out@) =~= azure_records_spec(vs.take(0)));
    }
    while i < ranges.values.len()
        invariant
            vs == ranges.values@.map_values(|e: AzureService| e@),
            i <= vs.len(),
            cloud_views(out@) == azure_records_spec(vs.take(i as int)),
        decreases vs.len() - i,
    {
        let ghost outer_pre = cloud_views(out@);
        let entry = &ranges.values[i];
        let ghost ev = vs[i as int];
        proof {
            assert(vs[i as int] == entry@);
            assert(vs.take(i as int + 1).drop_last() =~= vs.take(i as int));
            assert(vs.take(i as int + 1).last() == vs[i as int]);
        }
        let ghost ps = ev.properties.address_prefixes;
        let mut j: usize = 0;
        proof {
            assert(ps.take(0) =~= Seq::<Seq<char>>::empty());
            assert(outer_pre + azure_prefixes_fold(ev.properties.region,
                ev.properties.system_service, ps.take(0)) =~= outer_pre);
        }
        while j < entry.properties.address_prefixes.len()
            invariant
                ev == vs[i as int],
                0 <= i < vs.len(),
                vs[i as int] == ranges.values@[i as int]@,
                ev.properties.address_prefixes == ps,
                ps == ranges.values@[i as int].properties.address_prefixes@.map_values(
                    |s: String| s@,
                ),
                entry == &ranges.values@[i as int],
                j <= ps.len(),
                cloud_views(out@) == outer_pre + azure_prefixes_fold(
                    ev.properties.region,
                    ev.properties.system_service,
                    ps.take(j as int),
                ),
            decreases ps.len() - j,
        {
            let ghost pre = cloud_views(out@);
            let ptext = &entry.properties.address_prefixes[j];
            proof {
                assert(ps[j as int] == ptext@);
                assert(ps.take(j as int + 1).drop_last() =~= ps.take(j as int));
                assert(ps.take(j as int + 1).last() == ps[j as int]);
            }
            let parsed: Option<NetworkPrefix> = match parse_ip4_network(ptext.as_str()) {
                Some((addr, prefix)) => Some(NetworkPrefix::V4 { addr, prefix }),
                None => match parse_ip6_network(ptext.as_str()) {
                    Some((addr, prefix)) => Some(NetworkPrefix::V6 { addr, prefix }),
                    None => None,
                },
            };
            match parsed {
                Some(network) => {
                    let region = if !entry.properties.region.as_str().is_empty() {
                        Some(crate::azure::static_region(entry.properties.region.as_str()))
                    } else {
                        None
                    };
                    let service = if !entry.properties.system_service.as_str().is_empty() {
                        Some(
                            crate::azure::static_service(entry.properties.system_service.as_str()),
                        )
                    } else {
                        None
                    };
                    out.push(CloudNetworkRecord { network, region, service });
                    proof {
                        let rec = azure_prefix_record(
                            ev.properties.region,
                            ev.properties.system_service,
                            ps[j as int],
                        ).unwrap();
                        assert(cloud_views(out@) =~= pre.push(rec));
                        assert(outer_pre + (azure_prefixes_fold(ev.properties.region,
                            ev.properties.system_service, ps.take(j as int)).push(rec)) =~= (
                        outer_pre + azure_prefixes_fold(ev.properties.region,
                            ev.properties.system_service, ps.take(j as int))).push(rec));
                    }
                },
                None => {},
            }
            j = j + 1;
        }
        proof {
            assert(ps.take(ps.len() as int) =~= ps);
        }
        i = i + 1;
    }
    proof {
        assert(vs.take(vs.len() as int) =~= vs);
    }
    out
}

} // verus!
