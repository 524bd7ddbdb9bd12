use vstd::prelude::*;
use vstd::string::StrSliceExecFns;
use crate::net::{ipv4_from_str, ipv6_from_str, NetworkPrefix, valid_ipv4, valid_ipv6, ipv4_of,
    ipv6_of};
use crate::num::{parse_u8_str, parses_as_uint, uint_of};
use crate::o365::{Office365ServiceInfo, Office365ServiceInfoV, o365_service_canon, static_service};
use crate::tasks::cloud_provider::{cloud_views, CloudNetworkRecord, CloudRecV};
use crate::text::LogString;

verus! {

// ---------------------------------------------------------------------------
// Normalizing the endpoint catalog's `address/prefixLength` strings into
// the shared record shape. The string divides at its last slash; a colon
// in the address marks the wide family, a dotted address the narrow one;
// a length beyond the family's bit width discards the record.
// ---------------------------------------------------------------------------
/// Index of the last `sep` in `s`, or -1 when none occurs.
pub open spec fn last_sep_idx(s: Seq<char>, sep: char) -> int
    decreases s.len(),
{
    if s.len() == 0 {
        -1
    } else if s.last() == sep {
        s.len() - 1
    } else {
        last_sep_idx(s.drop_last(), sep)
    }
}

pub open spec fn has_char(s: Seq<char>, c: char) -> bool {
    exists|i: int| 0 <= i < s.len() && s[i] == c
}

/// What one published address string yields under a given service-area
/// label: nothing without a slash, a readable length, and a parsable
/// address of the family its shape names; otherwise one service record.
pub open spec fn o365_ip_record(label: Seq<char>, text: Seq<char>) -> Option<CloudRecV> {
    let j = last_sep_idx(text, '/');
    if j < 0 {
        None
    } else {
        let ip = text.take(j);
        let lenpart = text.skip(j + 1);
        if !parses_as_uint(lenpart, 255) {
            None
        } else if has_char(ip, ':') {
            if valid_ipv6(ip) && uint_of(lenpart) <= 128 {
                Some(
                    CloudRecV {
                        network: NetworkPrefix::V6 {
                            addr: ipv6_of(ip) as u128,
                            prefix: uint_of(lenpart) as u8,
                        },
                        region: None,
                        service: Some(label),
                    },
                )
            } else {
                None
            }
        } else {
            if valid_ipv4(ip) && uint_of(lenpart) <= 32 {
                Some(
                    CloudRecV {
                        network: NetworkPrefix::V4 {
                            addr: ipv4_of(ip) as u32,
                            prefix: uint_of(lenpart) as u8,
                        },
                        region: None,
                        service: Some(label),
                    },
                )
            } else {
                None
            }
        }
    }
}

pub open spec fn o365_ips_fold(label: Seq<char>, ips: Seq<Seq<char>>) -> Seq<CloudRecV>
    decreases ips.len(),
{
    if ips.len() == 0 {
        Seq::empty()
    } else {
        let prev = o365_ips_fold(label, ips.drop_last());
        match o365_ip_record(label, ips.last()) {
            Some(r) => prev.push(r),
            None => prev,
        }
    }
}

/// Every record of the catalog, entry by entry, each entry's addresses
/// under its canonicalized service-area label.
pub open spec fn o365_records_spec(services: Seq<Office365ServiceInfoV>) -> Seq<CloudRecV>
    decreases services.len(),
{
    if services.len() == 0 {
        Seq::empty()
    } else {
        let e = services.last();
        o365_records_spec(services.drop_last()) + o365_ips_fold(
            o365_service_canon(e.service_area),
            e.ips,
        )
    }
}

/// When `sep` stands at `j` with none after it, `j` is the last.
proof fn lemma_last_sep_at(s: Seq<char>, sep: char, j: int)
    requires
        0 <= j < s.len(),
        s[j] == sep,
        forall|k: int| j < k < s.len() ==> s[k] != sep,
    ensures
        last_sep_idx(s, sep) == j,
    decreases s.len(),
{
    if s.last() == sep {
    } else {
        lemma_last_sep_at(s.drop_last(), sep, j);
    }
}

/// With no `sep` anywhere there is no last one.
proof fn lemma_last_sep_none(s: Seq<char>, sep: char)
    requires
        forall|k: int| 0 <= k < s.len() ==> s[k] != sep,
    ensures
        last_sep_idx(s, sep) == -1,
    decreases s.len(),
{
    if s.len() > 0 {
        lemma_last_sep_none(s.drop_last(), sep);
    }
}

/// Finds the index of the last `sep` in `s`, if any.
fn rscan_sep(s: &str, sep: char) -> (r: Option<usize>)
    ensures
        r matches Some(j) ==> j < s@.len() && last_sep_idx(s@, sep) == j,
        r is None ==> last_sep_idx(s@, sep) == -1,
{
    let len = s.unicode_len();
    let mut j = len;
    loop
        invariant
            len == s@.len(),
            j <= len,
            forall|k: int| j <= k < len ==> s@[k] != sep,
        ensures
            (j == 0 && last_sep_idx(s@, sep) == -1) || (0 < j <= len && s@[j - 1] == sep
                && last_sep_idx(s@, sep) == j - 1),
        decreases j,
    {
        if j == 0 {
            proof {
                lemma_last_sep_none(s@, sep);
            }
            break ;
        }
        let c = s.get_char(j - 1);
        if c == sep {
            proof {
                lemma_last_sep_at(s@, sep, j - 1);
            }
            break ;
        }
        j = j - 1;
    }
    if j == 0 {
        None
    } else {
        Some(j - 1)
    }
}

/// Whether `c` occurs in `s`.
fn contains_char(s: &str, c: char) -> (r: bool)
    ensures
        r == has_char(s@, c),
{
    let len = s.unicode_len();
    let mut i: usize = 0;
    loop
        invariant
            len == s@.len(),
            i <= len,
            forall|k: int| 0 <= k < i ==> s@[k] != c,
        ensures
            (i < len && s@[i as int] == c && has_char(s@, c)) || (i == len && !has_char(
                s@,
                c,
            )),
        decreases len - i,
    {
        if i == len {
            break ;
        }
        if s.get_char(i) == c {
            break ;
        }
        i = i + 1;
    }
    i < len
}

/// Reads one published address string into a record under the given
/// label.
fn o365_ip_to_record(label: &LogString, text: &str) -> (r: Option<CloudNetworkRecord>)
    ensures
        (match r {
            Some(rec) => Some(rec@),
            None => None,
        }) == o365_ip_record(label@, text@),
{
    let len = text.unicode_len();
    let j = match rscan_sep(text, '/') {
        Some(j) => j,
        None => {
            return None;
        },
    };
    let ip = text.substring_char(0, j);
    let lenpart = text.substring_char(j + 1, len);
    proof {
        assert(ip@ =~= text@.take(j as int));
        assert(lenpart@ =~= text@.skip(j as int + 1));
    }
    let netlen = match parse_u8_str(lenpart) {
        Some(v) => v,
        None => {
            return None;
        },
    };
    if contains_char(ip, ':') {
        if netlen > 128 {
            return None;
        }
        match ipv6_from_str(ip) {
            Some(addr) => Some(
                CloudNetworkRecord {
                    network: NetworkPrefix::V6 { addr, prefix: netlen },
                    region: None,
                    service: Some(label.clone()),
                },
            ),
            None => None,
        }
    } else {
        if netlen > 32 {
            return None;
        }
        match ipv4_from_str(ip) {
            Some(addr) => Some(
                CloudNetworkRecord {
                    network: NetworkPrefix::V4 { addr, prefix: netlen },
                    region: None,
                    service: Some(label.clone()),
                },
            ),
            None => None,
        }
    }
}

/// Normalizes the fetched endpoint catalog into records, each address
/// under its entry's canonicalized service-area label.
pub fn process_o365(services: &Vec<Office365ServiceInfo>) -> (r: Vec<CloudNetworkRecord>)
    ensures
        cloud_views(r@) == o365_records_spec(
            services@.map_values(|e: Office365ServiceInfo| e@),
        ),
{
    let ghost vs = services@.map_values(|e: Office365ServiceInfo| e@);
    let mut out: Vec<CloudNetworkRecord> = Vec::new();
    let mut i: usize = 0;
    proof {
        assert(vs.take(0) =~= Seq::<Office365ServiceInfoV>::empty());
        assert(cloud_views(out@) =~= o365_records_spec(vs.take(0)));
    }
    while i < services.len()
        invariant
            vs == services@.map_values(|e: Office365ServiceInfo| e@),
            i <= vs.len(),
            cloud_views(out@) == o365_records_spec(vs.take(i as int)),
        decreases vs.len() - i,
    {
        let ghost outer_pre = cloud_views(out@);
        let entry = &services[i];
        let ghost ev = vs[i as int];
        proof {
            assert(vs[i as int] == entry@);
            assert(vs.take(i as int + 1).drop_last() =~= vs.take(i as int));
            assert(vs.take(i as int + 1).last() == vs[i as int]);
        }
        let label = static_service(entry.service_area.as_str());
        let ghost ips = ev.ips;
        let mut j: usize = 0;
        proof {
            assert(ips.take(0) =~= Seq::<Seq<char>>::empty());
            assert(outer_pre + o365_ips_fold(label@, ips.take(0)) =~= outer_pre);
        }
        while j < entry.ips.len()
            invariant
                ev == vs[i as int],
                0 <= i < vs.len(),
                vs[i as int] == services@[i as int]@,
                ev.ips == ips,
                ips == services@[i as int].ips@.map_values(|s: String| s@),
                entry == &services@[i as int],
                label@ == o365_service_canon(ev.service_area),
                j <= ips.len(),
                cloud_views(out@) == outer_pre + o365_ips_fold(label@, ips.take(j as int)),
            decreases ips.len() - j,
        {
            let ghost pre = cloud_views(out@);
            let text = &entry.ips[j];
            proof {
                assert(ips[j as int] == text@);
                assert(ips.take(j as int + 1).drop_last() =~= ips.take(j as int));
                assert(ips.take(j as int + 1).last() == ips[j as int]);
            }
            match o365_ip_to_record(&label, text.as_str()) {
                Some(rec) => {
                    out.push(rec);
                    proof {
                        let specrec = o365_ip_record(label@, ips[j as int]).unwrap();
                        assert(cloud_views(out@) =~= pre.push(specrec));
                        assert(outer_pre + (o365_ips_fold(label@, ips.take(j as int)).push(
                            specrec,
                        )) =~= (outer_pre + o365_ips_fold(label@, ips.take(j as int))).push(
                            specrec,
                        ));
                    }
                },
                None => {},
            }
            j = j + 1;
        }
        proof {
            assert(ips.take(ips.len() as int) =~= ips);
        }
        i = i + 1;
    }
    proof {
        assert(vs.take(vs.len() as int) =~= vs);
    }
    out
}

} // verus!
