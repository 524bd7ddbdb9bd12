use vstd::prelude::*;
use crate::text::{LogString, str_eq};

verus! {

/// The vendor's published range document: a version token, a date, and
/// one entry per advertised prefix for each address family.
pub struct AwsIpRanges {
    pub sync_token: String,
    pub create_date: String,
    pub prefixes: Vec<AwsService>,
    pub ipv6_prefixes: Vec<Aws6Service>,
}

/// One advertised IPv4 prefix with its region and service labels.
pub struct AwsService {
    pub ip_prefix: String,
    pub region: String,
    pub service: String,
    pub network_border_group: String,
}

/// One advertised IPv6 prefix with its region and service labels.
pub struct Aws6Service {
    pub ipv6_prefix: String,
    pub region: String,
    pub service: String,
    pub network_border_group: String,
}


/// The text of one v4 entry's fields.
pub struct AwsServiceV {
    pub ip_prefix: Seq<char>,
    pub region: Seq<char>,
    pub service: Seq<char>,
    pub network_border_group: Seq<char>,
}

impl View for AwsService {
    type V = AwsServiceV;

    open spec fn view(&self) -> AwsServiceV {
        AwsServiceV {
            ip_prefix: self.ip_prefix@,
            region: self.region@,
            service: self.service@,
            network_border_group: self.network_border_group@,
        }
    }
}

/// The text of one v6 entry's fields.
pub struct Aws6ServiceV {
    pub ipv6_prefix: Seq<char>,
    pub region: Seq<char>,
    pub service: Seq<char>,
    pub network_border_group: Seq<char>,
}

impl View for Aws6Service {
    type V = Aws6ServiceV;

    open spec fn view(&self) -> Aws6ServiceV {
        Aws6ServiceV {
            ipv6_prefix: self.ipv6_prefix@,
            region: self.region@,
            service: self.service@,
            network_border_group: self.network_border_group@,
        }
    }
}

/// Canonicalizes a service name: the recurring names come back as shared
/// constants, anything else as an owned copy. The text is never altered.
pub fn static_service(service: String) -> (r: LogString)
    ensures
        r@ == service@,
{
    if str_eq(service.as_str(), "AMAZON") {
        return LogString::Borrowed("AMAZON");
    }
    if str_eq(service.as_str(), "AMAZON_APPFLOW") {
        return LogString::Borrowed("AMAZON_APPFLOW");
    }
    if str_eq(service.as_str(), "AMAZON_CONNECT") {
        return LogString::Borrowed("AMAZON_CONNECT");
    }
    if str_eq(service.as_str(), "API_GATEWAY") {
        return LogString::Borrowed("API_GATEWAY");
    }
    if str_eq(service.as_str(), "CHIME_MEETINGS") {
        return LogString::Borrowed("CHIME_MEETINGS");
    }
    if str_eq(service.as_str(), "CHIME_VOICECONNECTOR") {
        return LogString::Borrowed("CHIME_VOICECONNECTOR");
    }
    if str_eq(service.as_str(), "CLOUD9") {
        return LogString::Borrowed("CLOUD9");
    }
    if str_eq(service.as_str(), "CLOUDFRONT") {
        return LogString::Borrowed("CLOUDFRONT");
    }
    if str_eq(service.as_str(), "CLOUDFRONT_ORIGIN_FACING") {
        return LogString::Borrowed("CLOUDFRONT_ORIGIN_FACING");
    }
    if str_eq(service.as_str(), "CODEBUILD") {
        return LogString::Borrowed("CODEBUILD");
    }
    if str_eq(service.as_str(), "DYNAMODB") {
        return LogString::Borrowed("DYNAMODB");
    }
    if str_eq(service.as_str(), "EBS") {
        return LogString::Borrowed("EBS");
    }
    if str_eq(service.as_str(), "EC2") {
        return LogString::Borrowed("EC2");
    }
    if str_eq(service.as_str(), "EC2_INSTANCE_CONNECT") {
        return LogString::Borrowed("EC2_INSTANCE_CONNECT");
    }
    if str_eq(service.as_str(), "GLOBALACCELERATOR") {
        return LogString::Borrowed("GLOBALACCELERATOR");
    }
    if str_eq(service.as_str(), "KINESIS_VIDEO_STREAMS") {
        return LogString::Borrowed("KINESIS_VIDEO_STREAMS");
    }
    if str_eq(service.as_str(), "ROUTE53") {
        return LogString::Borrowed("ROUTE53");
    }
    if str_eq(service.as_str(), "ROUTE53_HEALTHCHECKS") {
        return LogString::Borrowed("ROUTE53_HEALTHCHECKS");
    }
    if str_eq(service.as_str(), "ROUTE53_HEALTHCHECKS_PUBLISHING") {
        return LogString::Borrowed("ROUTE53_HEALTHCHECKS_PUBLISHING");
    }
    if str_eq(service.as_str(), "ROUTE53_RESOLVER") {
        return LogString::Borrowed("ROUTE53_RESOLVER");
    }
    if str_eq(service.as_str(), "S3") {
        return LogString::Borrowed("S3");
    }
    if str_eq(service.as_str(), "WORKSPACES_GATEWAYS") {
        return LogString::Borrowed("WORKSPACES_GATEWAYS");
    }
    LogString::Owned(service)
}

/// The region codes that have a shared, prefixed label.
pub open spec fn aws_region_known(s: Seq<char>) -> bool {
    ||| s == "ap-east-1"@
    ||| s == "ap-northeast-1"@
    ||| s == "ap-northeast-2"@
    ||| s == "ap-northeast-3"@
    ||| s == "ap-south-1"@
    ||| s == "ap-southeast-1"@
    ||| s == "ap-southeast-2"@
    ||| s == "ca-central-1"@
    ||| s == "cn-north-1"@
    ||| s == "cn-northwest-1"@
    ||| s == "eu-central-1"@
    ||| s == "eu-central-2"@
    ||| s == "eu-north-1"@
    ||| s == "eu-south-1"@
    ||| s == "eu-south-2"@
    ||| s == "eu-west-1"@
    ||| s == "eu-west-2"@
    ||| s == "eu-west-3"@
    ||| s == "me-central-1"@
    ||| s == "me-south-1"@
    ||| s == "sa-east-1"@
    ||| s == "us-east-1"@
    ||| s == "us-east-2"@
    ||| s == "us-gov-east-1"@
    ||| s == "us-gov-west-1"@
    ||| s == "us-west-1"@
    ||| s == "us-west-2"@
    ||| s == "GLOBAL"@
}

/// The label a region code maps to: a known code gains the provider
/// prefix; an unknown code keeps its text.
pub open spec fn aws_region_label(s: Seq<char>) -> Seq<char> {
    if aws_region_known(s) {
        "AWS-"@ + s
    } else {
        s
    }
}

/// Canonicalizes a region code. A known code comes back as the shared
/// label carrying the provider prefix; an unknown code is copied as-is.
pub fn static_region(region: String) -> (r: LogString)
    ensures
        r@ == aws_region_label(region@),
{
    if str_eq(region.as_str(), "ap-east-1") {
        proof {
            reveal_strlit("AWS-ap-east-1");
            reveal_strlit("AWS-");
            reveal_strlit("ap-east-1");
            assert("AWS-ap-east-1"@ =~= "AWS-"@ + "ap-east-1"@);
        }
        return LogString::Borrowed("AWS-ap-east-1");
    }
    if str_eq(region.as_str(), "ap-northeast-1") {
        proof {
            reveal_strlit("AWS-ap-northeast-1");
            reveal_strlit("AWS-");
            reveal_strlit("ap-northeast-1");
            assert("AWS-ap-northeast-1"@ =~= "AWS-"@ + "ap-northeast-1"@);
        }
        return LogString::Borrowed("AWS-ap-northeast-1");
    }
    if str_eq(region.as_str(), "ap-northeast-2") {
        proof {
            reveal_strlit("AWS-ap-northeast-2");
            reveal_strlit("AWS-");
            reveal_strlit("ap-northeast-2");
            assert("AWS-ap-northeast-2"@ =~= "AWS-"@ + "ap-northeast-2"@);
        }
        return LogString::Borrowed("AWS-ap-northeast-2");
    }
    if str_eq(region.as_str(), "ap-northeast-3") {
        proof {
            reveal_strlit("AWS-ap-northeast-3");
            reveal_strlit("AWS-");
            reveal_strlit("ap-northeast-3");
            assert("AWS-ap-northeast-3"@ =~= "AWS-"@ + "ap-northeast-3"@);
        }
        return LogString::Borrowed("AWS-ap-northeast-3");
    }
    if str_eq(region.as_str(), "ap-south-1") {
        proof {
            reveal_strlit("AWS-ap-south-1");
            reveal_strlit("AWS-");
            reveal_strlit("ap-south-1");
            assert("AWS-ap-south-1"@ =~= "AWS-"@ + "ap-south-1"@);
        }
        return LogString::Borrowed("AWS-ap-south-1");
    }
    if str_eq(region.as_str(), "ap-southeast-1") {
        proof {
            reveal_strlit("AWS-ap-southeast-1");
            reveal_strlit("AWS-");
            reveal_strlit("ap-southeast-1");
            assert("AWS-ap-southeast-1"@ =~= "AWS-"@ + "ap-southeast-1"@);
        }
        return LogString::Borrowed("AWS-ap-southeast-1");
    }
    if str_eq(region.as_str(), "ap-southeast-2") {
        proof {
            reveal_strlit("AWS-ap-southeast-2");
            reveal_strlit("AWS-");
            reveal_strlit("ap-southeast-2");
            assert("AWS-ap-southeast-2"@ =~= "AWS-"@ + "ap-southeast-2"@);
        }
        return LogString::Borrowed("AWS-ap-southeast-2");
    }
    if str_eq(region.as_str(), "ca-central-1") {
        proof {
            reveal_strlit("AWS-ca-central-1");
            reveal_strlit("AWS-");
            reveal_strlit("ca-central-1");
            assert("AWS-ca-central-1"@ =~= "AWS-"@ + "ca-central-1"@);
        }
        return LogString::Borrowed("AWS-ca-central-1");
    }
    if str_eq(region.as_str(), "cn-north-1") {
        proof {
            reveal_strlit("AWS-cn-north-1");
            reveal_strlit("AWS-");
            reveal_strlit("cn-north-1");
            assert("AWS-cn-north-1"@ =~= "AWS-"@ + "cn-north-1"@);
        }
        return LogString::Borrowed("AWS-cn-north-1");
    }
    if str_eq(region.as_str(), "cn-northwest-1") {
        proof {
            reveal_strlit("AWS-cn-northwest-1");
            reveal_strlit("AWS-");
            reveal_strlit("cn-northwest-1");
            assert("AWS-cn-northwest-1"@ =~= "AWS-"@ + "cn-northwest-1"@);
        }
        return LogString::Borrowed("AWS-cn-northwest-1");
    }
    if str_eq(region.as_str(), "eu-central-1") {
        proof {
            reveal_strlit("AWS-eu-central-1");
            reveal_strlit("AWS-");
            reveal_strlit("eu-central-1");
            assert("AWS-eu-central-1"@ =~= "AWS-"@ + "eu-central-1"@);
        }
        return LogString::Borrowed("AWS-eu-central-1");
    }
    if str_eq(region.as_str(), "eu-central-2") {
        proof {
            reveal_strlit("AWS-eu-central-2");
            reveal_strlit("AWS-");
            reveal_strlit("eu-central-2");
            assert("AWS-eu-central-2"@ =~= "AWS-"@ + "eu-central-2"@);
        }
        return LogString::Borrowed("AWS-eu-central-2");
    }
    if str_eq(region.as_str(), "eu-north-1") {
        proof {
            reveal_strlit("AWS-eu-north-1");
            reveal_strlit("AWS-");
            reveal_strlit("eu-north-1");
            assert("AWS-eu-north-1"@ =~= "AWS-"@ + "eu-north-1"@);
        }
        return LogString::Borrowed("AWS-eu-north-1");
    }
    if str_eq(region.as_str(), "eu-south-1") {
        proof {
            reveal_strlit("AWS-eu-south-1");
            reveal_strlit("AWS-");
            reveal_strlit("eu-south-1");
            assert("AWS-eu-south-1"@ =~= "AWS-"@ + "eu-south-1"@);
        }
        return LogString::Borrowed("AWS-eu-south-1");
    }
    if str_eq(region.as_str(), "eu-south-2") {
        proof {
            reveal_strlit("AWS-eu-south-2");
            reveal_strlit("AWS-");
            reveal_strlit("eu-south-2");
            assert("AWS-eu-south-2"@ =~= "AWS-"@ + "eu-south-2"@);
        }
        return LogString::Borrowed("AWS-eu-south-2");
    }
    if str_eq(region.as_str(), "eu-west-1") {
        proof {
            reveal_strlit("AWS-eu-west-1");
            reveal_strlit("AWS-");
            reveal_strlit("eu-west-1");
            assert("AWS-eu-west-1"@ =~= "AWS-"@ + "eu-west-1"@);
        }
        return LogString::Borrowed("AWS-eu-west-1");
    }
    if str_eq(region.as_str(), "eu-west-2") {
        proof {
            reveal_strlit("AWS-eu-west-2");
            reveal_strlit("AWS-");
            reveal_strlit("eu-west-2");
            assert("AWS-eu-west-2"@ =~= "AWS-"@ + "eu-west-2"@);
        }
        return LogString::Borrowed("AWS-eu-west-2");
    }
    if str_eq(region.as_str(), "eu-west-3") {
        proof {
            reveal_strlit("AWS-eu-west-3");
            reveal_strlit("AWS-");
            reveal_strlit("eu-west-3");
            assert("AWS-eu-west-3"@ =~= "AWS-"@ + "eu-west-3"@);
        }
        return LogString::Borrowed("AWS-eu-west-3");
    }
    if str_eq(region.as_str(), "me-central-1") {
        proof {
            reveal_strlit("AWS-me-central-1");
            reveal_strlit("AWS-");
            reveal_strlit("me-central-1");
            assert("AWS-me-central-1"@ =~= "AWS-"@ + "me-central-1"@);
        }
        return LogString::Borrowed("AWS-me-central-1");
    }
    if str_eq(region.as_str(), "me-south-1") {
        proof {
            reveal_strlit("AWS-me-south-1");
            reveal_strlit("AWS-");
            reveal_strlit("me-south-1");
            assert("AWS-me-south-1"@ =~= "AWS-"@ + "me-south-1"@);
        }
        return LogString::Borrowed("AWS-me-south-1");
    }
    if str_eq(region.as_str(), "sa-east-1") {
        proof {
            reveal_strlit("AWS-sa-east-1");
            reveal_strlit("AWS-");
            reveal_strlit("sa-east-1");
            assert("AWS-sa-east-1"@ =~= "AWS-"@ + "sa-east-1"@);
        }
        return LogString::Borrowed("AWS-sa-east-1");
    }
    if str_eq(region.as_str(), "us-east-1") {
        proof {
            reveal_strlit("AWS-us-east-1");
            reveal_strlit("AWS-");
            reveal_strlit("us-east-1");
            assert("AWS-us-east-1"@ =~= "AWS-"@ + "us-east-1"@);
        }
        return LogString::Borrowed("AWS-us-east-1");
    }
    if str_eq(region.as_str(), "us-east-2") {
        proof {
            reveal_strlit("AWS-us-east-2");
            reveal_strlit("AWS-");
            reveal_strlit("us-east-2");
            assert("AWS-us-east-2"@ =~= "AWS-"@ + "us-east-2"@);
        }
        return LogString::Borrowed("AWS-us-east-2");
    }
    if str_eq(region.as_str(), "us-gov-east-1") {
        proof {
            reveal_strlit("AWS-us-gov-east-1");
            reveal_strlit("AWS-");
            reveal_strlit("us-gov-east-1");
            assert("AWS-us-gov-east-1"@ =~= "AWS-"@ + "us-gov-east-1"@);
        }
        return LogString::Borrowed("AWS-us-gov-east-1");
    }
    if str_eq(region.as_str(), "us-gov-west-1") {
        proof {
            reveal_strlit("AWS-us-gov-west-1");
            reveal_strlit("AWS-");
            reveal_strlit("us-gov-west-1");
            assert("AWS-us-gov-west-1"@ =~= "AWS-"@ + "us-gov-west-1"@);
        }
        return LogString::Borrowed("AWS-us-gov-west-1");
    }
    if str_eq(region.as_str(), "us-west-1") {
        proof {
            reveal_strlit("AWS-us-west-1");
            reveal_strlit("AWS-");
            reveal_strlit("us-west-1");
            assert("AWS-us-west-1"@ =~= "AWS-"@ + "us-west-1"@);
        }
        return LogString::Borrowed("AWS-us-west-1");
    }
    if str_eq(region.as_str(), "us-west-2") {
        proof {
            reveal_strlit("AWS-us-west-2");
            reveal_strlit("AWS-");
            reveal_strlit("us-west-2");
            assert("AWS-us-west-2"@ =~= "AWS-"@ + "us-west-2"@);
        }
        return LogString::Borrowed("AWS-us-west-2");
    }
    if str_eq(region.as_str(), "GLOBAL") {
        proof {
            reveal_strlit("AWS-GLOBAL");
            reveal_strlit("AWS-");
            reveal_strlit("GLOBAL");
            assert("AWS-GLOBAL"@ =~= "AWS-"@ + "GLOBAL"@);
        }
        return LogString::Borrowed("AWS-GLOBAL");
    }
    LogString::Owned(region)
}

} // verus!
