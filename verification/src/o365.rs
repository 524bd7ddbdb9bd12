use vstd::prelude::*;
use crate::text::{LogString, str_eq};

verus! {

/// One service-area entry of the endpoint catalog: the service-area
/// labels, the published URLs and `address/prefixLength` strings, the
/// ports, and the routing flags.
pub struct Office365ServiceInfo {
    pub id: u32,
    pub service_area: String,
    pub service_area_display_name: String,
    pub urls: Vec<String>,
    pub ips: Vec<String>,
    pub tcp_ports: Option<String>,
    pub udp_ports: Option<String>,
    pub express_route: bool,
    pub category: String,
    pub required: bool,
}


/// The text of one catalog entry's fields.
pub struct Office365ServiceInfoV {
    pub id: u32,
    pub service_area: Seq<char>,
    pub service_area_display_name: Seq<char>,
    pub urls: Seq<Seq<char>>,
    pub ips: Seq<Seq<char>>,
    pub tcp_ports: Option<Seq<char>>,
    pub udp_ports: Option<Seq<char>>,
    pub express_route: bool,
    pub category: Seq<char>,
    pub required: bool,
}

impl View for Office365ServiceInfo {
    type V = Office365ServiceInfoV;

    open spec fn view(&self) -> Office365ServiceInfoV {
        Office365ServiceInfoV {
            id: self.id,
            service_area: self.service_area@,
            service_area_display_name: self.service_area_display_name@,
            urls: self.urls@.map_values(|s: String| s@),
            ips: self.ips@.map_values(|s: String| s@),
            tcp_ports: match self.tcp_ports {
                Some(ref s) => Some(s@),
                None => None,
            },
            udp_ports: match self.udp_ports {
                Some(ref s) => Some(s@),
                None => None,
            },
            express_route: self.express_route,
            category: self.category@,
            required: self.required,
        }
    }
}

/// The label a service-area name maps to: the catch-all area takes its
/// suite-qualified label; every other name keeps its text.
pub open spec fn o365_service_canon(s: Seq<char>) -> Seq<char> {
    if s == "Common"@ {
        "O365 Common"@
    } else {
        s
    }
}

/// Canonicalizes a service-area name. The recurring names come back as
/// shared constants; the catch-all area gets its suite-qualified label;
/// anything else is copied as-is.
pub fn static_service(service: &str) -> (r: LogString)
    ensures
        r@ == o365_service_canon(service@),
{
    if str_eq(service, "Common") {
        return LogString::Borrowed("O365 Common");
    }
    if str_eq(service, "Exchange") {
        return LogString::Borrowed("Exchange");
    }
    if str_eq(service, "Skype") {
        return LogString::Borrowed("Skype");
    }
    if str_eq(service, "SharePoint") {
        return LogString::Borrowed("SharePoint");
    }
    LogString::Owned(service.to_owned())
}

} // verus!
