use vstd::prelude::*;
use crate::text::{LogString, str_eq};

verus! {

/// The vendor's published service-tag document: a change counter, the
/// cloud's name, and one entry per named service.
pub struct AzureIpRanges {
    pub change_number: u32,
    pub cloud: String,
    pub values: Vec<AzureService>,
}

/// One named service entry.
pub struct AzureService {
    pub name: String,
    pub id: String,
    pub properties: AzureServiceProperties,
}

/// The body of a service entry: its region and service labels, and the
/// address prefixes (both families mixed) that it spans.
pub struct AzureServiceProperties {
    pub change_number: u32,
    pub region: String,
    pub region_id: u32,
    pub platform: String,
    pub system_service: String,
    pub address_prefixes: Vec<String>,
}


/// The text of one service entry.
pub struct AzureServiceV {
    pub name: Seq<char>,
    pub id: Seq<char>,
    pub properties: AzureServicePropertiesV,
}

impl View for AzureService {
    type V = AzureServiceV;

    open spec fn view(&self) -> AzureServiceV {
        AzureServiceV { name: self.name@, id: self.id@, properties: self.properties@ }
    }
}

/// The text of an entry's body.
pub struct AzureServicePropertiesV {
    pub change_number: u32,
    pub region: Seq<char>,
    pub region_id: u32,
    pub platform: Seq<char>,
    pub system_service: Seq<char>,
    pub address_prefixes: Seq<Seq<char>>,
}

impl View for AzureServiceProperties {
    type V = AzureServicePropertiesV;

    open spec fn view(&self) -> AzureServicePropertiesV {
        AzureServicePropertiesV {
            change_number: self.change_number,
            region: self.region@,
            region_id: self.region_id,
            platform: self.platform@,
            system_service: self.system_service@,
            address_prefixes: self.address_prefixes@.map_values(|s: String| s@),
        }
    }
}

/// The region codes that have a shared, prefixed label.
pub open spec fn azure_region_known(s: Seq<char>) -> bool {
    ||| s == "australiacentral"@
    ||| s == "australiacentral2"@
    ||| s == "australiaeast"@
    ||| s == "australiasoutheast"@
    ||| s == "brazilsouth"@
    ||| s == "brazilse"@
    ||| s == "canadacentral"@
    ||| s == "canadaeast"@
    ||| s == "centralindia"@
    ||| s == "centralus"@
    ||| s == "centraluseuap"@
    ||| s == "eastasia"@
    ||| s == "eastus"@
    ||| s == "eastus2"@
    ||| s == "eastus2euap"@
    ||| s == "centralfrance"@
    ||| s == "southfrance"@
    ||| s == "germanyn"@
    ||| s == "germanywc"@
    ||| s == "japaneast"@
    ||| s == "japanwest"@
    ||| s == "jioindiacentral"@
    ||| s == "jioindiawest"@
    ||| s == "koreacentral"@
    ||| s == "northcentralus"@
    ||| s == "northeurope"@
    ||| s == "norwaye"@
    ||| s == "norwayw"@
    ||| s == "qatarcentral"@
    ||| s == "southafricanorth"@
    ||| s == "southafricawest"@
    ||| s == "southcentralus"@
    ||| s == "southindia"@
    ||| s == "southeastasia"@
    ||| s == "swedencentral"@
    ||| s == "swedensouth"@
    ||| s == "switzerlandn"@
    ||| s == "switzerlandw"@
    ||| s == "uaecentral"@
    ||| s == "uaenorth"@
    ||| s == "uknorth"@
    ||| s == "uksouth"@
    ||| s == "uksouth2"@
    ||| s == "ukwest"@
    ||| s == "westcentralus"@
    ||| s == "westeurope"@
    ||| s == "westindia"@
    ||| s == "westus"@
    ||| s == "westus2"@
    ||| s == "westus3"@
    ||| s == "koreasouth"@
    ||| s == "usstagec"@
    ||| s == "brazilne"@
    ||| s == "northeurope2"@
}

/// The label a region code maps to: a known code gains the provider
/// prefix; an unknown code keeps its text.
pub open spec fn azure_region_label(s: Seq<char>) -> Seq<char> {
    if azure_region_known(s) {
        "Azure-"@ + s
    } else {
        s
    }
}

/// Canonicalizes a region code. A known code comes back as the shared
/// label carrying the provider prefix; an unknown code is copied as-is.
pub fn static_region(region: &str) -> (r: LogString)
    ensures
        r@ == azure_region_label(region@),
{
    if str_eq(region, "australiacentral") {
        proof {
            reveal_strlit("Azure-australiacentral");
            reveal_strlit("Azure-");
            reveal_strlit("australiacentral");
            assert("Azure-australiacentral"@ =~= "Azure-"@ + "australiacentral"@);
        }
        return LogString::Borrowed("Azure-australiacentral");
    }
    if str_eq(region, "australiacentral2") {
        proof {
            reveal_strlit("Azure-australiacentral2");
            reveal_strlit("Azure-");
            reveal_strlit("australiacentral2");
            assert("Azure-australiacentral2"@ =~= "Azure-"@ + "australiacentral2"@);
        }
        return LogString::Borrowed("Azure-australiacentral2");
    }
    if str_eq(region, "australiaeast") {
        proof {
            reveal_strlit("Azure-australiaeast");
            reveal_strlit("Azure-");
            reveal_strlit("australiaeast");
            assert("Azure-australiaeast"@ =~= "Azure-"@ + "australiaeast"@);
        }
        return LogString::Borrowed("Azure-australiaeast");
    }
    if str_eq(region, "australiasoutheast") {
        proof {
            reveal_strlit("Azure-australiasoutheast");
            reveal_strlit("Azure-");
            reveal_strlit("australiasoutheast");
            assert("Azure-australiasoutheast"@ =~= "Azure-"@ + "australiasoutheast"@);
        }
        return LogString::Borrowed("Azure-australiasoutheast");
    }
    if str_eq(region, "brazilsouth") {
        proof {
            reveal_strlit("Azure-brazilsouth");
            reveal_strlit("Azure-");
            reveal_strlit("brazilsouth");
            assert("Azure-brazilsouth"@ =~= "Azure-"@ + "brazilsouth"@);
        }
        return LogString::Borrowed("Azure-brazilsouth");
    }
    if str_eq(region, "brazilse") {
        proof {
            reveal_strlit("Azure-brazilse");
            reveal_strlit("Azure-");
            reveal_strlit("brazilse");
            assert("Azure-brazilse"@ =~= "Azure-"@ + "brazilse"@);
        }
        return LogString::Borrowed("Azure-brazilse");
    }
    if str_eq(region, "canadacentral") {
        proof {
            reveal_strlit("Azure-canadacentral");
            reveal_strlit("Azure-");
            reveal_strlit("canadacentral");
            assert("Azure-canadacentral"@ =~= "Azure-"@ + "canadacentral"@);
        }
        return LogString::Borrowed("Azure-canadacentral");
    }
    if str_eq(region, "canadaeast") {
        proof {
            reveal_strlit("Azure-canadaeast");
            reveal_strlit("Azure-");
            reveal_strlit("canadaeast");
            assert("Azure-canadaeast"@ =~= "Azure-"@ + "canadaeast"@);
        }
        return LogString::Borrowed("Azure-canadaeast");
    }
    if str_eq(region, "centralindia") {
        proof {
            reveal_strlit("Azure-centralindia");
            reveal_strlit("Azure-");
            reveal_strlit("centralindia");
            assert("Azure-centralindia"@ =~= "Azure-"@ + "centralindia"@);
        }
        return LogString::Borrowed("Azure-centralindia");
    }
    if str_eq(region, "centralus") {
        proof {
            reveal_strlit("Azure-centralus");
            reveal_strlit("Azure-");
            reveal_strlit("centralus");
            assert("Azure-centralus"@ =~= "Azure-"@ + "centralus"@);
        }
        return LogString::Borrowed("Azure-centralus");
    }
    if str_eq(region, "centraluseuap") {
        proof {
            reveal_strlit("Azure-centraluseuap");
            reveal_strlit("Azure-");
            reveal_strlit("centraluseuap");
            assert("Azure-centraluseuap"@ =~= "Azure-"@ + "centraluseuap"@);
        }
        return LogString::Borrowed("Azure-centraluseuap");
    }
    if str_eq(region, "eastasia") {
        proof {
            reveal_strlit("Azure-eastasia");
            reveal_strlit("Azure-");
            reveal_strlit("eastasia");
            assert("Azure-eastasia"@ =~= "Azure-"@ + "eastasia"@);
        }
        return LogString::Borrowed("Azure-eastasia");
    }
    if str_eq(region, "eastus") {
        proof {
            reveal_strlit("Azure-eastus");
            reveal_strlit("Azure-");
            reveal_strlit("eastus");
            assert("Azure-eastus"@ =~= "Azure-"@ + "eastus"@);
        }
        return LogString::Borrowed("Azure-eastus");
    }
    if str_eq(region, "eastus2") {
        proof {
            reveal_strlit("Azure-eastus2");
            reveal_strlit("Azure-");
            reveal_strlit("eastus2");
            assert("Azure-eastus2"@ =~= "Azure-"@ + "eastus2"@);
        }
        return LogString::Borrowed("Azure-eastus2");
    }
    if str_eq(region, "eastus2euap") {
        proof {
            reveal_strlit("Azure-eastus2euap");
            reveal_strlit("Azure-");
            reveal_strlit("eastus2euap");
            assert("Azure-eastus2euap"@ =~= "Azure-"@ + "eastus2euap"@);
        }
        return LogString::Borrowed("Azure-eastus2euap");
    }
    if str_eq(region, "centralfrance") {
        proof {
            reveal_strlit("Azure-centralfrance");
            reveal_strlit("Azure-");
            reveal_strlit("centralfrance");
            assert("Azure-centralfrance"@ =~= "Azure-"@ + "centralfrance"@);
        }
        return LogString::Borrowed("Azure-centralfrance");
    }
    if str_eq(region, "southfrance") {
        proof {
            reveal_strlit("Azure-southfrance");
            reveal_strlit("Azure-");
            reveal_strlit("southfrance");
            assert("Azure-southfrance"@ =~= "Azure-"@ + "southfrance"@);
        }
        return LogString::Borrowed("Azure-southfrance");
    }
    if str_eq(region, "germanyn") {
        proof {
            reveal_strlit("Azure-germanyn");
            reveal_strlit("Azure-");
            reveal_strlit("germanyn");
            assert("Azure-germanyn"@ =~= "Azure-"@ + "germanyn"@);
        }
        return LogString::Borrowed("Azure-germanyn");
    }
    if str_eq(region, "germanywc") {
        proof {
            reveal_strlit("Azure-germanywc");
            reveal_strlit("Azure-");
            reveal_strlit("germanywc");
            assert("Azure-germanywc"@ =~= "Azure-"@ + "germanywc"@);
        }
        return LogString::Borrowed("Azure-germanywc");
    }
    if str_eq(region, "japaneast") {
        proof {
            reveal_strlit("Azure-japaneast");
            reveal_strlit("Azure-");
            reveal_strlit("japaneast");
            assert("Azure-japaneast"@ =~= "Azure-"@ + "japaneast"@);
        }
        return LogString::Borrowed("Azure-japaneast");
    }
    if str_eq(region, "japanwest") {
        proof {
            reveal_strlit("Azure-japanwest");
            reveal_strlit("Azure-");
            reveal_strlit("japanwest");
            assert("Azure-japanwest"@ =~= "Azure-"@ + "japanwest"@);
        }
        return LogString::Borrowed("Azure-japanwest");
    }
    if str_eq(region, "jioindiacentral") {
        proof {
            reveal_strlit("Azure-jioindiacentral");
            reveal_strlit("Azure-");
            reveal_strlit("jioindiacentral");
            assert("Azure-jioindiacentral"@ =~= "Azure-"@ + "jioindiacentral"@);
        }
        return LogString::Borrowed("Azure-jioindiacentral");
    }
    if str_eq(region, "jioindiawest") {
        proof {
            reveal_strlit("Azure-jioindiawest");
            reveal_strlit("Azure-");
            reveal_strlit("jioindiawest");
            assert("Azure-jioindiawest"@ =~= "Azure-"@ + "jioindiawest"@);
        }
        return LogString::Borrowed("Azure-jioindiawest");
    }
    if str_eq(region, "koreacentral") {
        proof {
            reveal_strlit("Azure-koreacentral");
            reveal_strlit("Azure-");
            reveal_strlit("koreacentral");
            assert("Azure-koreacentral"@ =~= "Azure-"@ + "koreacentral"@);
        }
        return LogString::Borrowed("Azure-koreacentral");
    }
    if str_eq(region, "northcentralus") {
        proof {
            reveal_strlit("Azure-northcentralus");
            reveal_strlit("Azure-");
            reveal_strlit("northcentralus");
            assert("Azure-northcentralus"@ =~= "Azure-"@ + "northcentralus"@);
        }
        return LogString::Borrowed("Azure-northcentralus");
    }
    if str_eq(region, "northeurope") {
        proof {
            reveal_strlit("Azure-northeurope");
            reveal_strlit("Azure-");
            reveal_strlit("northeurope");
            assert("Azure-northeurope"@ =~= "Azure-"@ + "northeurope"@);
        }
        return LogString::Borrowed("Azure-northeurope");
    }
    if str_eq(region, "norwaye") {
        proof {
            reveal_strlit("Azure-norwaye");
            reveal_strlit("Azure-");
            reveal_strlit("norwaye");
            assert("Azure-norwaye"@ =~= "Azure-"@ + "norwaye"@);
        }
        return LogString::Borrowed("Azure-norwaye");
    }
    if str_eq(region, "norwayw") {
        proof {
            reveal_strlit("Azure-norwayw");
            reveal_strlit("Azure-");
            reveal_strlit("norwayw");
            assert("Azure-norwayw"@ =~= "Azure-"@ + "norwayw"@);
        }
        return LogString::Borrowed("Azure-norwayw");
    }
    if str_eq(region, "qatarcentral") {
        proof {
            reveal_strlit("Azure-qatarcentral");
            reveal_strlit("Azure-");
            reveal_strlit("qatarcentral");
            assert("Azure-qatarcentral"@ =~= "Azure-"@ + "qatarcentral"@);
        }
        return LogString::Borrowed("Azure-qatarcentral");
    }
    if str_eq(region, "southafricanorth") {
        proof {
            reveal_strlit("Azure-southafricanorth");
            reveal_strlit("Azure-");
            reveal_strlit("southafricanorth");
            assert("Azure-southafricanorth"@ =~= "Azure-"@ + "southafricanorth"@);
        }
        return LogString::Borrowed("Azure-southafricanorth");
    }
    if str_eq(region, "southafricawest") {
        proof {
            reveal_strlit("Azure-southafricawest");
            reveal_strlit("Azure-");
            reveal_strlit("southafricawest");
            assert("Azure-southafricawest"@ =~= "Azure-"@ + "southafricawest"@);
        }
        return LogString::Borrowed("Azure-southafricawest");
    }
    if str_eq(region, "southcentralus") {
        proof {
            reveal_strlit("Azure-southcentralus");
            reveal_strlit("Azure-");
            reveal_strlit("southcentralus");
            assert("Azure-southcentralus"@ =~= "Azure-"@ + "southcentralus"@);
        }
        return LogString::Borrowed("Azure-southcentralus");
    }
    if str_eq(region, "southindia") {
        proof {
            reveal_strlit("Azure-southindia");
            reveal_strlit("Azure-");
            reveal_strlit("southindia");
            assert("Azure-southindia"@ =~= "Azure-"@ + "southindia"@);
        }
        return LogString::Borrowed("Azure-southindia");
    }
    if str_eq(region, "southeastasia") {
        proof {
            reveal_strlit("Azure-southeastasia");
            reveal_strlit("Azure-");
            reveal_strlit("southeastasia");
            assert("Azure-southeastasia"@ =~= "Azure-"@ + "southeastasia"@);
        }
        return LogString::Borrowed("Azure-southeastasia");
    }
    if str_eq(region, "swedencentral") {
        proof {
            reveal_strlit("Azure-swedencentral");
            reveal_strlit("Azure-");
            reveal_strlit("swedencentral");
            assert("Azure-swedencentral"@ =~= "Azure-"@ + "swedencentral"@);
        }
        return LogString::Borrowed("Azure-swedencentral");
    }
    if str_eq(region, "swedensouth") {
        proof {
            reveal_strlit("Azure-swedensouth");
            reveal_strlit("Azure-");
            reveal_strlit("swedensouth");
            assert("Azure-swedensouth"@ =~= "Azure-"@ + "swedensouth"@);
        }
        return LogString::Borrowed("Azure-swedensouth");
    }
    if str_eq(region, "switzerlandn") {
        proof {
            reveal_strlit("Azure-switzerlandn");
            reveal_strlit("Azure-");
            reveal_strlit("switzerlandn");
            assert("Azure-switzerlandn"@ =~= "Azure-"@ + "switzerlandn"@);
        }
        return LogString::Borrowed("Azure-switzerlandn");
    }
    if str_eq(region, "switzerlandw") {
        proof {
            reveal_strlit("Azure-switzerlandw");
            reveal_strlit("Azure-");
            reveal_strlit("switzerlandw");
            assert("Azure-switzerlandw"@ =~= "Azure-"@ + "switzerlandw"@);
        }
        return LogString::Borrowed("Azure-switzerlandw");
    }
    if str_eq(region, "uaecentral") {
        proof {
            reveal_strlit("Azure-uaecentral");
            reveal_strlit("Azure-");
            reveal_strlit("uaecentral");
            assert("Azure-uaecentral"@ =~= "Azure-"@ + "uaecentral"@);
        }
        return LogString::Borrowed("Azure-uaecentral");
    }
    if str_eq(region, "uaenorth") {
        proof {
            reveal_strlit("Azure-uaenorth");
            reveal_strlit("Azure-");
            reveal_strlit("uaenorth");
            assert("Azure-uaenorth"@ =~= "Azure-"@ + "uaenorth"@);
        }
        return LogString::Borrowed("Azure-uaenorth");
    }
    if str_eq(region, "uknorth") {
        proof {
            reveal_strlit("Azure-uknorth");
            reveal_strlit("Azure-");
            reveal_strlit("uknorth");
            assert("Azure-uknorth"@ =~= "Azure-"@ + "uknorth"@);
        }
        return LogString::Borrowed("Azure-uknorth");
    }
    if str_eq(region, "uksouth") {
        proof {
            reveal_strlit("Azure-uksouth");
            reveal_strlit("Azure-");
            reveal_strlit("uksouth");
            assert("Azure-uksouth"@ =~= "Azure-"@ + "uksouth"@);
        }
        return LogString::Borrowed("Azure-uksouth");
    }
    if str_eq(region, "uksouth2") {
        proof {
            reveal_strlit("Azure-uksouth2");
            reveal_strlit("Azure-");
            reveal_strlit("uksouth2");
            assert("Azure-uksouth2"@ =~= "Azure-"@ + "uksouth2"@);
        }
        return LogString::Borrowed("Azure-uksouth2");
    }
    if str_eq(region, "ukwest") {
        proof {
            reveal_strlit("Azure-ukwest");
            reveal_strlit("Azure-");
            reveal_strlit("ukwest");
            assert("Azure-ukwest"@ =~= "Azure-"@ + "ukwest"@);
        }
        return LogString::Borrowed("Azure-ukwest");
    }
    if str_eq(region, "westcentralus") {
        proof {
            reveal_strlit("Azure-westcentralus");
            reveal_strlit("Azure-");
            reveal_strlit("westcentralus");
            assert("Azure-westcentralus"@ =~= "Azure-"@ + "westcentralus"@);
        }
        return LogString::Borrowed("Azure-westcentralus");
    }
    if str_eq(region, "westeurope") {
        proof {
            reveal_strlit("Azure-westeurope");
            reveal_strlit("Azure-");
            reveal_strlit("westeurope");
            assert("Azure-westeurope"@ =~= "Azure-"@ + "westeurope"@);
        }
        return LogString::Borrowed("Azure-westeurope");
    }
    if str_eq(region, "westindia") {
        proof {
            reveal_strlit("Azure-westindia");
            reveal_strlit("Azure-");
            reveal_strlit("westindia");
            assert("Azure-westindia"@ =~= "Azure-"@ + "westindia"@);
        }
        return LogString::Borrowed("Azure-westindia");
    }
    if str_eq(region, "westus") {
        proof {
            reveal_strlit("Azure-westus");
            reveal_strlit("Azure-");
            reveal_strlit("westus");
            assert("Azure-westus"@ =~= "Azure-"@ + "westus"@);
        }
        return LogString::Borrowed("Azure-westus");
    }
    if str_eq(region, "westus2") {
        proof {
            reveal_strlit("Azure-westus2");
            reveal_strlit("Azure-");
            reveal_strlit("westus2");
            assert("Azure-westus2"@ =~= "Azure-"@ + "westus2"@);
        }
        return LogString::Borrowed("Azure-westus2");
    }
    if str_eq(region, "westus3") {
        proof {
            reveal_strlit("Azure-westus3");
            reveal_strlit("Azure-");
            reveal_strlit("westus3");
            assert("Azure-westus3"@ =~= "Azure-"@ + "westus3"@);
        }
        return LogString::Borrowed("Azure-westus3");
    }
    if str_eq(region, "koreasouth") {
        proof {
            reveal_strlit("Azure-koreasouth");
            reveal_strlit("Azure-");
            reveal_strlit("koreasouth");
            assert("Azure-koreasouth"@ =~= "Azure-"@ + "koreasouth"@);
        }
        return LogString::Borrowed("Azure-koreasouth");
    }
    if str_eq(region, "usstagec") {
        proof {
            reveal_strlit("Azure-usstagec");
            reveal_strlit("Azure-");
            reveal_strlit("usstagec");
            assert("Azure-usstagec"@ =~= "Azure-"@ + "usstagec"@);
        }
        return LogString::Borrowed("Azure-usstagec");
    }
    if str_eq(region, "brazilne") {
        proof {
            reveal_strlit("Azure-brazilne");
            reveal_strlit("Azure-");
            reveal_strlit("brazilne");
            assert("Azure-brazilne"@ =~= "Azure-"@ + "brazilne"@);
        }
        return LogString::Borrowed("Azure-brazilne");
    }
    if str_eq(region, "northeurope2") {
        proof {
            reveal_strlit("Azure-northeurope2");
            reveal_strlit("Azure-");
            reveal_strlit("northeurope2");
            assert("Azure-northeurope2"@ =~= "Azure-"@ + "northeurope2"@);
        }
        return LogString::Borrowed("Azure-northeurope2");
    }
    LogString::Owned(region.to_owned())
}

/// Whether a label already starts with the provider's name.
pub open spec fn azure_prefixed(s: Seq<char>) -> bool {
    s.len() >= 5 && s.subrange(0, 5) == "Azure"@
}

/// The shared label for a known service name: the name itself when it
/// already starts with the provider's name, else the name behind it.
pub open spec fn azure_service_label(s: Seq<char>) -> Seq<char> {
    if azure_prefixed(s) {
        s
    } else {
        "Azure"@ + s
    }
}

/// The service names that have a shared label.
pub open spec fn azure_service_known(s: Seq<char>) -> bool {
    ||| s == "ActionGroup"@
    ||| s == "ApplicationInsightsAvailability"@
    ||| s == "AutonomousDevelopmentPlatform"@
    ||| s == "AzureAD"@
    ||| s == "AzureAPIForFHIR"@
    ||| s == "AzureAdvancedThreatProtection"@
    ||| s == "AzureApiManagement"@
    ||| s == "AzureAppConfiguration"@
    ||| s == "AzureAppService"@
    ||| s == "AzureAppServiceManagement"@
    ||| s == "AzureArcInfrastructure"@
    ||| s == "AzureAttestation"@
    ||| s == "AzureAutomation"@
    ||| s == "AzureBackup"@
    ||| s == "AzureBotService"@
    ||| s == "AzureCognitiveSearch"@
    ||| s == "AzureConnectors"@
    ||| s == "AzureContainerRegistry"@
    ||| s == "AzureCosmosDB"@
    ||| s == "AzureDataExplorerManagement"@
    ||| s == "AzureDataLake"@
    ||| s == "AzureDatabricks"@
    ||| s == "AzureDevOps"@
    ||| s == "AzureDevSpaces"@
    ||| s == "AzureDigitalTwins"@
    ||| s == "AzureEventGrid"@
    ||| s == "AzureEventHub"@
    ||| s == "AzureInformationProtection"@
    ||| s == "AzureIoTHub"@
    ||| s == "AzureKeyVault"@
    ||| s == "AzureLoadTestingInstanceManagement"@
    ||| s == "AzureMachineLearning"@
    ||| s == "AzureMonitor"@
    ||| s == "AzureOpenDatasets"@
    ||| s == "AzurePortal"@
    ||| s == "AzureResourceManager"@
    ||| s == "AzureSQL"@
    ||| s == "AzureSecurityCenter"@
    ||| s == "AzureSentinel"@
    ||| s == "AzureServiceBus"@
    ||| s == "AzureSignalR"@
    ||| s == "AzureSiteRecovery"@
    ||| s == "AzureSphereSecureService_Prod"@
    ||| s == "AzureStack"@
    ||| s == "AzureStorage"@
    ||| s == "AzureTrafficManager"@
    ||| s == "AzureUpdateDelivery"@
    ||| s == "AzureWebPubSub"@
    ||| s == "BatchNodeManagement"@
    ||| s == "ChaosStudio"@
    ||| s == "CognitiveServicesManagement"@
    ||| s == "DataFactory"@
    ||| s == "Dynamics365BusinessCentral"@
    ||| s == "Dynamics365ForMarketingEmail"@
    ||| s == "EOPExtPublished"@
    ||| s == "GatewayManager"@
    ||| s == "Grafana"@
    ||| s == "HDInsight"@
    ||| s == "LogicApps"@
    ||| s == "M365ManagementActivityApi"@
    ||| s == "M365ManagementActivityApiWebhook"@
    ||| s == "MicrosoftAzureFluidRelay"@
    ||| s == "MicrosoftCloudAppSecurity"@
    ||| s == "MicrosoftContainerRegistry"@
    ||| s == "MicrosoftDefenderForEndpoint"@
    ||| s == "OneDsCollector"@
    ||| s == "PowerBI"@
    ||| s == "PowerPlatformInfra"@
    ||| s == "PowerPlatformPlex"@
    ||| s == "PowerQueryOnline"@
    ||| s == "SCCservice"@
    ||| s == "ServiceFabric"@
    ||| s == "SqlManagement"@
    ||| s == "StorageSyncService"@
    ||| s == "WindowsAdminCenter"@
    ||| s == "WindowsVirtualDesktop"@
    ||| s == "AzureFrontDoor"@
    ||| s == "AzureIdentity"@
}

/// The label a service name maps to: a known name takes its shared
/// label; an unknown name keeps its text.
pub open spec fn azure_service_canon(s: Seq<char>) -> Seq<char> {
    if azure_service_known(s) {
        azure_service_label(s)
    } else {
        s
    }
}

/// Canonicalizes a service name. A known name comes back as its shared
/// label; an unknown name is copied as-is.
pub fn static_service(service: &str) -> (r: LogString)
    ensures
        r@ == azure_service_canon(service@),
{
    if str_eq(service, "ActionGroup") {
        proof {
            reveal_strlit("AzureActionGroup");
            reveal_strlit("Azure");
            reveal_strlit("ActionGroup");
            assert("ActionGroup"@.subrange(0, 5)[1] != "Azure"@[1]);
            assert(!azure_prefixed("ActionGroup"@));
            assert("AzureActionGroup"@ =~= "Azure"@ + "ActionGroup"@);
        }
        return LogString::Borrowed("AzureActionGroup");
    }
    if str_eq(service, "ApplicationInsightsAvailability") {
        proof {
            reveal_strlit("AzureApplicationInsightsAvailability");
            reveal_strlit("Azure");
            reveal_strlit("ApplicationInsightsAvailability");
            assert("ApplicationInsightsAvailability"@.subrange(0, 5)[1] != "Azure"@[1]);
            assert(!azure_prefixed("ApplicationInsightsAvailability"@));
            assert("AzureApplicationInsightsAvailability"@ =~= "Azure"@ + "ApplicationInsightsAvailability"@);
        }
        return LogString::Borrowed("AzureApplicationInsightsAvailability");
    }
    if str_eq(service, "AutonomousDevelopmentPlatform") {
        proof {
            reveal_strlit("AzureAutonomousDevelopmentPlatform");
            reveal_strlit("Azure");
            reveal_strlit("AutonomousDevelopmentPlatform");
            assert("AutonomousDevelopmentPlatform"@.subrange(0, 5)[1] != "Azure"@[1]);
            assert(!azure_prefixed("AutonomousDevelopmentPlatform"@));
            assert("AzureAutonomousDevelopmentPlatform"@ =~= "Azure"@ + "AutonomousDevelopmentPlatform"@);
        }
        return LogString::Borrowed("AzureAutonomousDevelopmentPlatform");
    }
    if str_eq(service, "AzureAD") {
        proof {
            reveal_strlit("AzureAD");
            reveal_strlit("Azure");
            assert("AzureAD"@.subrange(0, 5) =~= "Azure"@);
        }
        return LogString::Borrowed("AzureAD");
    }
    if str_eq(service, "AzureAPIForFHIR") {
        proof {
            reveal_strlit("AzureAPIForFHIR");
            reveal_strlit("Azure");
            assert("AzureAPIForFHIR"@.subrange(0, 5) =~= "Azure"@);
        }
        return LogString::Borrowed("AzureAPIForFHIR");
    }
    if str_eq(service, "AzureAdvancedThreatProtection") {
        proof {
            reveal_strlit("AzureAdvancedThreatProtection");
            reveal_strlit("Azure");
            assert("AzureAdvancedThreatProtection"@.subrange(0, 5) =~= "Azure"@);
        }
        return LogString::Borrowed("AzureAdvancedThreatProtection");
    }
    if str_eq(service, "AzureApiManagement") {
        proof {
            reveal_strlit("AzureApiManagement");
            reveal_strlit("Azure");
            assert("AzureApiManagement"@.subrange(0, 5) =~= "Azure"@);
        }
        return LogString::Borrowed("AzureApiManagement");
    }
    if str_eq(service, "AzureAppConfiguration") {
        proof {
            reveal_strlit("AzureAppConfiguration");
            reveal_strlit("Azure");
            assert("AzureAppConfiguration"@.subrange(0, 5) =~= "Azure"@);
        }
        return LogString::Borrowed("AzureAppConfiguration");
    }
    if str_eq(service, "AzureAppService") {
        proof {
            reveal_strlit("AzureAppService");
            reveal_strlit("Azure");
            assert("AzureAppService"@.subrange(0, 5) =~= "Azure"@);
        }
        return LogString::Borrowed("AzureAppService");
    }
    if str_eq(service, "AzureAppServiceManagement") {
        proof {
            reveal_strlit("AzureAppServiceManagement");
            reveal_strlit("Azure");
            assert("AzureAppServiceManagement"@.subrange(0, 5) =~= "Azure"@);
        }
        return LogString::Borrowed("AzureAppServiceManagement");
    }
    if str_eq(service, "AzureArcInfrastructure") {
        proof {
            reveal_strlit("AzureArcInfrastructure");
            reveal_strlit("Azure");
            assert("AzureArcInfrastructure"@.subrange(0, 5) =~= "Azure"@);
        }
        return LogString::Borrowed("AzureArcInfrastructure");
    }
    if str_eq(service, "AzureAttestation") {
        proof {
            reveal_strlit("AzureAttestation");
            reveal_strlit("Azure");
            assert("AzureAttestation"@.subrange(0, 5) =~= "Azure"@);
        }
        return LogString::Borrowed("AzureAttestation");
    }
    if str_eq(service, "AzureAutomation") {
        proof {
            reveal_strlit("AzureAutomation");
            reveal_strlit("Azure");
            assert("AzureAutomation"@.subrange(0, 5) =~= "Azure"@);
        }
        return LogString::Borrowed("AzureAutomation");
    }
    if str_eq(service, "AzureBackup") {
        proof {
            reveal_strlit("AzureBackup");
            reveal_strlit("Azure");
            assert("AzureBackup"@.subrange(0, 5) =~= "Azure"@);
        }
        return LogString::Borrowed("AzureBackup");
    }
    if str_eq(service, "AzureBotService") {
        proof {
            reveal_strlit("AzureBotService");
            reveal_strlit("Azure");
            assert("AzureBotService"@.subrange(0, 5) =~= "Azure"@);
        }
        return LogString::Borrowed("AzureBotService");
    }
    if str_eq(service, "AzureCognitiveSearch") {
        proof {
            reveal_strlit("AzureCognitiveSearch");
            reveal_strlit("Azure");
            assert("AzureCognitiveSearch"@.subrange(0, 5) =~= "Azure"@);
        }
        return LogString::Borrowed("AzureCognitiveSearch");
    }
    if str_eq(service, "AzureConnectors") {
        proof {
            reveal_strlit("AzureConnectors");
            reveal_strlit("Azure");
            assert("AzureConnectors"@.subrange(0, 5) =~= "Azure"@);
        }
        return LogString::Borrowed("AzureConnectors");
    }
    if str_eq(service, "AzureContainerRegistry") {
        proof {
            reveal_strlit("AzureContainerRegistry");
            reveal_strlit("Azure");
            assert("AzureContainerRegistry"@.subrange(0, 5) =~= "Azure"@);
        }
        return LogString::Borrowed("AzureContainerRegistry");
    }
    if str_eq(service, "AzureCosmosDB") {
        proof {
            reveal_strlit("AzureCosmosDB");
            reveal_strlit("Azure");
            assert("AzureCosmosDB"@.subrange(0, 5) =~= "Azure"@);
        }
        return LogString::Borrowed("AzureCosmosDB");
    }
    if str_eq(service, "AzureDataExplorerManagement") {
        proof {
            reveal_strlit("AzureDataExplorerManagement");
            reveal_strlit("Azure");
            assert("AzureDataExplorerManagement"@.subrange(0, 5) =~= "Azure"@);
        }
        return LogString::Borrowed("AzureDataExplorerManagement");
    }
    if str_eq(service, "AzureDataLake") {
        proof {
            reveal_strlit("AzureDataLake");
            reveal_strlit("Azure");
            assert("AzureDataLake"@.subrange(0, 5) =~= "Azure"@);
        }
        return LogString::Borrowed("AzureDataLake");
    }
    if str_eq(service, "AzureDatabricks") {
        proof {
            reveal_strlit("AzureDatabricks");
            reveal_strlit("Azure");
            assert("AzureDatabricks"@.subrange(0, 5) =~= "Azure"@);
        }
        return LogString::Borrowed("AzureDatabricks");
    }
    if str_eq(service, "AzureDevOps") {
        proof {
            reveal_strlit("AzureDevOps");
            reveal_strlit("Azure");
            assert("AzureDevOps"@.subrange(0, 5) =~= "Azure"@);
        }
        return LogString::Borrowed("AzureDevOps");
    }
    if str_eq(service, "AzureDevSpaces") {
        proof {
            reveal_strlit("AzureDevSpaces");
            reveal_strlit("Azure");
            assert("AzureDevSpaces"@.subrange(0, 5) =~= "Azure"@);
        }
        return LogString::Borrowed("AzureDevSpaces");
    }
    if str_eq(service, "AzureDigitalTwins") {
        proof {
            reveal_strlit("AzureDigitalTwins");
            reveal_strlit("Azure");
            assert("AzureDigitalTwins"@.subrange(0, 5) =~= "Azure"@);
        }
        return LogString::Borrowed("AzureDigitalTwins");
    }
    if str_eq(service, "AzureEventGrid") {
        proof {
            reveal_strlit("AzureEventGrid");
            reveal_strlit("Azure");
            assert("AzureEventGrid"@.subrange(0, 5) =~= "Azure"@);
        }
        return LogString::Borrowed("AzureEventGrid");
    }
    if str_eq(service, "AzureEventHub") {
        proof {
            reveal_strlit("AzureEventHub");
            reveal_strlit("Azure");
            assert("AzureEventHub"@.subrange(0, 5) =~= "Azure"@);
        }
        return LogString::Borrowed("AzureEventHub");
    }
    if str_eq(service, "AzureInformationProtection") {
        proof {
            reveal_strlit("AzureInformationProtection");
            reveal_strlit("Azure");
            assert("AzureInformationProtection"@.subrange(0, 5) =~= "Azure"@);
        }
        return LogString::Borrowed("AzureInformationProtection");
    }
    if str_eq(service, "AzureIoTHub") {
        proof {
            reveal_strlit("AzureIoTHub");
            reveal_strlit("Azure");
            assert("AzureIoTHub"@.subrange(0, 5) =~= "Azure"@);
        }
        return LogString::Borrowed("AzureIoTHub");
    }
    if str_eq(service, "AzureKeyVault") {
        proof {
            reveal_strlit("AzureKeyVault");
            reveal_strlit("Azure");
            assert("AzureKeyVault"@.subrange(0, 5) =~= "Azure"@);
        }
        return LogString::Borrowed("AzureKeyVault");
    }
    if str_eq(service, "AzureLoadTestingInstanceManagement") {
        proof {
            reveal_strlit("AzureLoadTestingInstanceManagement");
            reveal_strlit("Azure");
            assert("AzureLoadTestingInstanceManagement"@.subrange(0, 5) =~= "Azure"@);
        }
        return LogString::Borrowed("AzureLoadTestingInstanceManagement");
    }
    if str_eq(service, "AzureMachineLearning") {
        proof {
            reveal_strlit("AzureMachineLearning");
            reveal_strlit("Azure");
            assert("AzureMachineLearning"@.subrange(0, 5) =~= "Azure"@);
        }
        return LogString::Borrowed("AzureMachineLearning");
    }
    if str_eq(service, "AzureMonitor") {
        proof {
            reveal_strlit("AzureMonitor");
            reveal_strlit("Azure");
            assert("AzureMonitor"@.subrange(0, 5) =~= "Azure"@);
        }
        return LogString::Borrowed("AzureMonitor");
    }
    if str_eq(service, "AzureOpenDatasets") {
        proof {
            reveal_strlit("AzureOpenDatasets");
            reveal_strlit("Azure");
            assert("AzureOpenDatasets"@.subrange(0, 5) =~= "Azure"@);
        }
        return LogString::Borrowed("AzureOpenDatasets");
    }
    if str_eq(service, "AzurePortal") {
        proof {
            reveal_strlit("AzurePortal");
            reveal_strlit("Azure");
            assert("AzurePortal"@.subrange(0, 5) =~= "Azure"@);
        }
        return LogString::Borrowed("AzurePortal");
    }
    if str_eq(service, "AzureResourceManager") {
        proof {
            reveal_strlit("AzureResourceManager");
            reveal_strlit("Azure");
            assert("AzureResourceManager"@.subrange(0, 5) =~= "Azure"@);
        }
        return LogString::Borrowed("AzureResourceManager");
    }
    if str_eq(service, "AzureSQL") {
        proof {
            reveal_strlit("AzureSQL");
            reveal_strlit("Azure");
            assert("AzureSQL"@.subrange(0, 5) =~= "Azure"@);
        }
        return LogString::Borrowed("AzureSQL");
    }
    if str_eq(service, "AzureSecurityCenter") {
        proof {
            reveal_strlit("AzureSecurityCenter");
            reveal_strlit("Azure");
            assert("AzureSecurityCenter"@.subrange(0, 5) =~= "Azure"@);
        }
        return LogString::Borrowed("AzureSecurityCenter");
    }
    if str_eq(service, "AzureSentinel") {
        proof {
            reveal_strlit("AzureSentinel");
            reveal_strlit("Azure");
            assert("AzureSentinel"@.subrange(0, 5) =~= "Azure"@);
        }
        return LogString::Borrowed("AzureSentinel");
    }
    if str_eq(service, "AzureServiceBus") {
        proof {
            reveal_strlit("AzureServiceBus");
            reveal_strlit("Azure");
            assert("AzureServiceBus"@.subrange(0, 5) =~= "Azure"@);
        }
        return LogString::Borrowed("AzureServiceBus");
    }
    if str_eq(service, "AzureSignalR") {
        proof {
            reveal_strlit("AzureSignalR");
            reveal_strlit("Azure");
            assert("AzureSignalR"@.subrange(0, 5) =~= "Azure"@);
        }
        return LogString::Borrowed("AzureSignalR");
    }
    if str_eq(service, "AzureSiteRecovery") {
        proof {
            reveal_strlit("AzureSiteRecovery");
            reveal_strlit("Azure");
            assert("AzureSiteRecovery"@.subrange(0, 5) =~= "Azure"@);
        }
        return LogString::Borrowed("AzureSiteRecovery");
    }
    if str_eq(service, "AzureSphereSecureService_Prod") {
        proof {
            reveal_strlit("AzureSphereSecureService_Prod");
            reveal_strlit("Azure");
            assert("AzureSphereSecureService_Prod"@.subrange(0, 5) =~= "Azure"@);
        }
        return LogString::Borrowed("AzureSphereSecureService_Prod");
    }
    if str_eq(service, "AzureStack") {
        proof {
            reveal_strlit("AzureStack");
            reveal_strlit("Azure");
            assert("AzureStack"@.subrange(0, 5) =~= "Azure"@);
        }
        return LogString::Borrowed("AzureStack");
    }
    if str_eq(service, "AzureStorage") {
        proof {
            reveal_strlit("AzureStorage");
            reveal_strlit("Azure");
            assert("AzureStorage"@.subrange(0, 5) =~= "Azure"@);
        }
        return LogString::Borrowed("AzureStorage");
    }
    if str_eq(service, "AzureTrafficManager") {
        proof {
            reveal_strlit("AzureTrafficManager");
            reveal_strlit("Azure");
            assert("AzureTrafficManager"@.subrange(0, 5) =~= "Azure"@);
        }
        return LogString::Borrowed("AzureTrafficManager");
    }
    if str_eq(service, "AzureUpdateDelivery") {
        proof {
            reveal_strlit("AzureUpdateDelivery");
            reveal_strlit("Azure");
            assert("AzureUpdateDelivery"@.subrange(0, 5) =~= "Azure"@);
        }
        return LogString::Borrowed("AzureUpdateDelivery");
    }
    if str_eq(service, "AzureWebPubSub") {
        proof {
            reveal_strlit("AzureWebPubSub");
            reveal_strlit("Azure");
            assert("AzureWebPubSub"@.subrange(0, 5) =~= "Azure"@);
        }
        return LogString::Borrowed("AzureWebPubSub");
    }
    if str_eq(service, "BatchNodeManagement") {
        proof {
            reveal_strlit("AzureBatchNodeManagement");
            reveal_strlit("Azure");
            reveal_strlit("BatchNodeManagement");
            assert("BatchNodeManagement"@.subrange(0, 5)[0] != "Azure"@[0]);
            assert(!azure_prefixed("BatchNodeManagement"@));
            assert("AzureBatchNodeManagement"@ =~= "Azure"@ + "BatchNodeManagement"@);
        }
        return LogString::Borrowed("AzureBatchNodeManagement");
    }
    if str_eq(service, "ChaosStudio") {
        proof {
            reveal_strlit("AzureChaosStudio");
            reveal_strlit("Azure");
            reveal_strlit("ChaosStudio");
            assert("ChaosStudio"@.subrange(0, 5)[0] != "Azure"@[0]);
            assert(!azure_prefixed("ChaosStudio"@));
            assert("AzureChaosStudio"@ =~= "Azure"@ + "ChaosStudio"@);
        }
        return LogString::Borrowed("AzureChaosStudio");
    }
    if str_eq(service, "CognitiveServicesManagement") {
        proof {
            reveal_strlit("AzureCognitiveServicesManagement");
            reveal_strlit("Azure");
            reveal_strlit("CognitiveServicesManagement");
            assert("CognitiveServicesManagement"@.subrange(0, 5)[0] != "Azure"@[0]);
            assert(!azure_prefixed("CognitiveServicesManagement"@));
            assert("AzureCognitiveServicesManagement"@ =~= "Azure"@ + "CognitiveServicesManagement"@);
        }
        return LogString::Borrowed("AzureCognitiveServicesManagement");
    }
    if str_eq(service, "DataFactory") {
        proof {
            reveal_strlit("AzureDataFactory");
            reveal_strlit("Azure");
            reveal_strlit("DataFactory");
            assert("DataFactory"@.subrange(0, 5)[0] != "Azure"@[0]);
            assert(!azure_prefixed("DataFactory"@));
            assert("AzureDataFactory"@ =~= "Azure"@ + "DataFactory"@);
        }
        return LogString::Borrowed("AzureDataFactory");
    }
    if str_eq(service, "Dynamics365BusinessCentral") {
        proof {
            reveal_strlit("AzureDynamics365BusinessCentral");
            reveal_strlit("Azure");
            reveal_strlit("Dynamics365BusinessCentral");
            assert("Dynamics365BusinessCentral"@.subrange(0, 5)[0] != "Azure"@[0]);
            assert(!azure_prefixed("Dynamics365BusinessCentral"@));
            assert("AzureDynamics365BusinessCentral"@ =~= "Azure"@ + "Dynamics365BusinessCentral"@);
        }
        return LogString::Borrowed("AzureDynamics365BusinessCentral");
    }
    if str_eq(service, "Dynamics365ForMarketingEmail") {
        proof {
            reveal_strlit("AzureDynamics365ForMarketingEmail");
            reveal_strlit("Azure");
            reveal_strlit("Dynamics365ForMarketingEmail");
            assert("Dynamics365ForMarketingEmail"@.subrange(0, 5)[0] != "Azure"@[0]);
            assert(!azure_prefixed("Dynamics365ForMarketingEmail"@));
            assert("AzureDynamics365ForMarketingEmail"@ =~= "Azure"@ + "Dynamics365ForMarketingEmail"@);
        }
        return LogString::Borrowed("AzureDynamics365ForMarketingEmail");
    }
    if str_eq(service, "EOPExtPublished") {
        proof {
            reveal_strlit("AzureEOPExtPublished");
            reveal_strlit("Azure");
            reveal_strlit("EOPExtPublished");
            assert("EOPExtPublished"@.subrange(0, 5)[0] != "Azure"@[0]);
            assert(!azure_prefixed("EOPExtPublished"@));
            assert("AzureEOPExtPublished"@ =~= "Azure"@ + "EOPExtPublished"@);
        }
        return LogString::Borrowed("AzureEOPExtPublished");
    }
    if str_eq(service, "GatewayManager") {
        proof {
            reveal_strlit("AzureGatewayManager");
            reveal_strlit("Azure");
            reveal_strlit("GatewayManager");
            assert("GatewayManager"@.subrange(0, 5)[0] != "Azure"@[0]);
            assert(!azure_prefixed("GatewayManager"@));
            assert("AzureGatewayManager"@ =~= "Azure"@ + "GatewayManager"@);
        }
        return LogString::Borrowed("AzureGatewayManager");
    }
    if str_eq(service, "Grafana") {
        proof {
            reveal_strlit("AzureGrafana");
            reveal_strlit("Azure");
            reveal_strlit("Grafana");
            assert("Grafana"@.subrange(0, 5)[0] != "Azure"@[0]);
            assert(!azure_prefixed("Grafana"@));
            assert("AzureGrafana"@ =~= "Azure"@ + "Grafana"@);
        }
        return LogString::Borrowed("AzureGrafana");
    }
    if str_eq(service, "HDInsight") {
        proof {
            reveal_strlit("AzureHDInsight");
            reveal_strlit("Azure");
            reveal_strlit("HDInsight");
            assert("HDInsight"@.subrange(0, 5)[0] != "Azure"@[0]);
            assert(!azure_prefixed("HDInsight"@));
            assert("AzureHDInsight"@ =~= "Azure"@ + "HDInsight"@);
        }
        return LogString::Borrowed("AzureHDInsight");
    }
    if str_eq(service, "LogicApps") {
        proof {
            reveal_strlit("AzureLogicApps");
            reveal_strlit("Azure");
            reveal_strlit("LogicApps");
            assert("LogicApps"@.subrange(0, 5)[0] != "Azure"@[0]);
            assert(!azure_prefixed("LogicApps"@));
            assert("AzureLogicApps"@ =~= "Azure"@ + "LogicApps"@);
        }
        return LogString::Borrowed("AzureLogicApps");
    }
    if str_eq(service, "M365ManagementActivityApi") {
        proof {
            reveal_strlit("AzureM365ManagementActivityApi");
            reveal_strlit("Azure");
            reveal_strlit("M365ManagementActivityApi");
            assert("M365ManagementActivityApi"@.subrange(0, 5)[0] != "Azure"@[0]);
            assert(!azure_prefixed("M365ManagementActivityApi"@));
            assert("AzureM365ManagementActivityApi"@ =~= "Azure"@ + "M365ManagementActivityApi"@);
        }
        return LogString::Borrowed("AzureM365ManagementActivityApi");
    }
    if str_eq(service, "M365ManagementActivityApiWebhook") {
        proof {
            reveal_strlit("AzureM365ManagementActivityApiWebhook");
            reveal_strlit("Azure");
            reveal_strlit("M365ManagementActivityApiWebhook");
            assert("M365ManagementActivityApiWebhook"@.subrange(0, 5)[0] != "Azure"@[0]);
            assert(!azure_prefixed("M365ManagementActivityApiWebhook"@));
            assert("AzureM365ManagementActivityApiWebhook"@ =~= "Azure"@ + "M365ManagementActivityApiWebhook"@);
        }
        return LogString::Borrowed("AzureM365ManagementActivityApiWebhook");
    }
    if str_eq(service, "MicrosoftAzureFluidRelay") {
        proof {
            reveal_strlit("AzureMicrosoftAzureFluidRelay");
            reveal_strlit("Azure");
            reveal_strlit("MicrosoftAzureFluidRelay");
            assert("MicrosoftAzureFluidRelay"@.subrange(0, 5)[0] != "Azure"@[0]);
            assert(!azure_prefixed("MicrosoftAzureFluidRelay"@));
            assert("AzureMicrosoftAzureFluidRelay"@ =~= "Azure"@ + "MicrosoftAzureFluidRelay"@);
        }
        return LogString::Borrowed("AzureMicrosoftAzureFluidRelay");
    }
    if str_eq(service, "MicrosoftCloudAppSecurity") {
        proof {
            reveal_strlit("AzureMicrosoftCloudAppSecurity");
            reveal_strlit("Azure");
            reveal_strlit("MicrosoftCloudAppSecurity");
            assert("MicrosoftCloudAppSecurity"@.subrange(0, 5)[0] != "Azure"@[0]);
            assert(!azure_prefixed("MicrosoftCloudAppSecurity"@));
            assert("AzureMicrosoftCloudAppSecurity"@ =~= "Azure"@ + "MicrosoftCloudAppSecurity"@);
        }
        return LogString::Borrowed("AzureMicrosoftCloudAppSecurity");
    }
    if str_eq(service, "MicrosoftContainerRegistry") {
        proof {
            reveal_strlit("AzureMicrosoftContainerRegistry");
            reveal_strlit("Azure");
            reveal_strlit("MicrosoftContainerRegistry");
            assert("MicrosoftContainerRegistry"@.subrange(0, 5)[0] != "Azure"@[0]);
            assert(!azure_prefixed("MicrosoftContainerRegistry"@));
            assert("AzureMicrosoftContainerRegistry"@ =~= "Azure"@ + "MicrosoftContainerRegistry"@);
        }
        return LogString::Borrowed("AzureMicrosoftContainerRegistry");
    }
    if str_eq(service, "MicrosoftDefenderForEndpoint") {
        proof {
            reveal_strlit("AzureMicrosoftDefenderForEndpoint");
            reveal_strlit("Azure");
            reveal_strlit("MicrosoftDefenderForEndpoint");
            assert("MicrosoftDefenderForEndpoint"@.subrange(0, 5)[0] != "Azure"@[0]);
            assert(!azure_prefixed("MicrosoftDefenderForEndpoint"@));
            assert("AzureMicrosoftDefenderForEndpoint"@ =~= "Azure"@ + "MicrosoftDefenderForEndpoint"@);
        }
        return LogString::Borrowed("AzureMicrosoftDefenderForEndpoint");
    }
    if str_eq(service, "OneDsCollector") {
        proof {
            reveal_strlit("AzureOneDsCollector");
            reveal_strlit("Azure");
            reveal_strlit("OneDsCollector");
            assert("OneDsCollector"@.subrange(0, 5)[0] != "Azure"@[0]);
            assert(!azure_prefixed("OneDsCollector"@));
            assert("AzureOneDsCollector"@ =~= "Azure"@ + "OneDsCollector"@);
        }
        return LogString::Borrowed("AzureOneDsCollector");
    }
    if str_eq(service, "PowerBI") {
        proof {
            reveal_strlit("AzurePowerBI");
            reveal_strlit("Azure");
            reveal_strlit("PowerBI");
            assert("PowerBI"@.subrange(0, 5)[0] != "Azure"@[0]);
            assert(!azure_prefixed("PowerBI"@));
            assert("AzurePowerBI"@ =~= "Azure"@ + "PowerBI"@);
        }
        return LogString::Borrowed("AzurePowerBI");
    }
    if str_eq(service, "PowerPlatformInfra") {
        proof {
            reveal_strlit("AzurePowerPlatformInfra");
            reveal_strlit("Azure");
            reveal_strlit("PowerPlatformInfra");
            assert("PowerPlatformInfra"@.subrange(0, 5)[0] != "Azure"@[0]);
            assert(!azure_prefixed("PowerPlatformInfra"@));
            assert("AzurePowerPlatformInfra"@ =~= "Azure"@ + "PowerPlatformInfra"@);
        }
        return LogString::Borrowed("AzurePowerPlatformInfra");
    }
    if str_eq(service, "PowerPlatformPlex") {
        proof {
            reveal_strlit("AzurePowerPlatformPlex");
            reveal_strlit("Azure");
            reveal_strlit("PowerPlatformPlex");
            assert("PowerPlatformPlex"@.subrange(0, 5)[0] != "Azure"@[0]);
            assert(!azure_prefixed("PowerPlatformPlex"@));
            assert("AzurePowerPlatformPlex"@ =~= "Azure"@ + "PowerPlatformPlex"@);
        }
        return LogString::Borrowed("AzurePowerPlatformPlex");
    }
    if str_eq(service, "PowerQueryOnline") {
        proof {
            reveal_strlit("AzurePowerQueryOnline");
            reveal_strlit("Azure");
            reveal_strlit("PowerQueryOnline");
            assert("PowerQueryOnline"@.subrange(0, 5)[0] != "Azure"@[0]);
            assert(!azure_prefixed("PowerQueryOnline"@));
            assert("AzurePowerQueryOnline"@ =~= "Azure"@ + "PowerQueryOnline"@);
        }
        return LogString::Borrowed("AzurePowerQueryOnline");
    }
    if str_eq(service, "SCCservice") {
        proof {
            reveal_strlit("AzureSCCservice");
            reveal_strlit("Azure");
            reveal_strlit("SCCservice");
            assert("SCCservice"@.subrange(0, 5)[0] != "Azure"@[0]);
            assert(!azure_prefixed("SCCservice"@));
            assert("AzureSCCservice"@ =~= "Azure"@ + "SCCservice"@);
        }
        return LogString::Borrowed("AzureSCCservice");
    }
    if str_eq(service, "ServiceFabric") {
        proof {
            reveal_strlit("AzureServiceFabric");
            reveal_strlit("Azure");
            reveal_strlit("ServiceFabric");
            assert("ServiceFabric"@.subrange(0, 5)[0] != "Azure"@[0]);
            assert(!azure_prefixed("ServiceFabric"@));
            assert("AzureServiceFabric"@ =~= "Azure"@ + "ServiceFabric"@);
        }
        return LogString::Borrowed("AzureServiceFabric");
    }
    if str_eq(service, "SqlManagement") {
        proof {
            reveal_strlit("AzureSqlManagement");
            reveal_strlit("Azure");
            reveal_strlit("SqlManagement");
            assert("SqlManagement"@.subrange(0, 5)[0] != "Azure"@[0]);
            assert(!azure_prefixed("SqlManagement"@));
            assert("AzureSqlManagement"@ =~= "Azure"@ + "SqlManagement"@);
        }
        return LogString::Borrowed("AzureSqlManagement");
    }
    if str_eq(service, "StorageSyncService") {
        proof {
            reveal_strlit("AzureStorageSyncService");
            reveal_strlit("Azure");
            reveal_strlit("StorageSyncService");
            assert("StorageSyncService"@.subrange(0, 5)[0] != "Azure"@[0]);
            assert(!azure_prefixed("StorageSyncService"@));
            assert("AzureStorageSyncService"@ =~= "Azure"@ + "StorageSyncService"@);
        }
        return LogString::Borrowed("AzureStorageSyncService");
    }
    if str_eq(service, "WindowsAdminCenter") {
        proof {
            reveal_strlit("AzureWindowsAdminCenter");
            reveal_strlit("Azure");
            reveal_strlit("WindowsAdminCenter");
            assert("WindowsAdminCenter"@.subrange(0, 5)[0] != "Azure"@[0]);
            assert(!azure_prefixed("WindowsAdminCenter"@));
            assert("AzureWindowsAdminCenter"@ =~= "Azure"@ + "WindowsAdminCenter"@);
        }
        return LogString::Borrowed("AzureWindowsAdminCenter");
    }
    if str_eq(service, "WindowsVirtualDesktop") {
        proof {
            reveal_strlit("AzureWindowsVirtualDesktop");
            reveal_strlit("Azure");
            reveal_strlit("WindowsVirtualDesktop");
            assert("WindowsVirtualDesktop"@.subrange(0, 5)[0] != "Azure"@[0]);
            assert(!azure_prefixed("WindowsVirtualDesktop"@));
            assert("AzureWindowsVirtualDesktop"@ =~= "Azure"@ + "WindowsVirtualDesktop"@);
        }
        return LogString::Borrowed("AzureWindowsVirtualDesktop");
    }
    if str_eq(service, "AzureFrontDoor") {
        proof {
            reveal_strlit("AzureFrontDoor");
            reveal_strlit("Azure");
            assert("AzureFrontDoor"@.subrange(0, 5) =~= "Azure"@);
        }
        return LogString::Borrowed("AzureFrontDoor");
    }
    if str_eq(service, "AzureIdentity") {
        proof {
            reveal_strlit("AzureIdentity");
            reveal_strlit("Azure");
            assert("AzureIdentity"@.subrange(0, 5) =~= "Azure"@);
        }
        return LogString::Borrowed("AzureIdentity");
    }
    LogString::Owned(service.to_owned())
}

} // verus!
