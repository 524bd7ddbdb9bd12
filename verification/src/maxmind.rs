use std::collections::HashMap;
use vstd::prelude::*;
use crate::common::{ip4_net_addr, ip4_net_len, ip4_net_valid, ip6_net_addr, ip6_net_len, ip6_net_valid, parse_ip4_network, parse_ip6_network};
use crate::csv::{csv_split, plain_split, seq_views, split_column_values, split_plain};
use crate::err::TempErr;
use crate::net::NetworkPrefix;
use crate::num::{parses_as_uint, uint_of, uint_digits, parse_u32_str, parse_u32_or_zero, lemma_dec_value_nonneg};
use crate::text::{LogString, str_eq, strip_quotes, remove_quotes};

verus! {

// ---------------------------------------------------------------------------
// Canonicalization tables for the reference data. Known values come back
// as shared process-lifetime constants; unknown values as owned copies.
// ---------------------------------------------------------------------------
/// Canonicalizes a continent code. The text is never altered.
pub fn get_static_continent_code(continent_code: &str) -> (r: LogString)
    ensures
        r@ == continent_code@,
{
    if str_eq(continent_code, "AF") {
        return LogString::Borrowed("AF");
    }
    if str_eq(continent_code, "AS") {
        return LogString::Borrowed("AS");
    }
    if str_eq(continent_code, "EU") {
        return LogString::Borrowed("EU");
    }
    if str_eq(continent_code, "OC") {
        return LogString::Borrowed("OC");
    }
    if str_eq(continent_code, "AN") {
        return LogString::Borrowed("AN");
    }
    if str_eq(continent_code, "SA") {
        return LogString::Borrowed("SA");
    }
    if str_eq(continent_code, "NA") {
        return LogString::Borrowed("NA");
    }
    LogString::Owned(continent_code.to_owned())
}

/// The canonical text of a continent name: the vendor sometimes ships
/// the two two-word names wrapped in literal quotes, and those map to
/// the unquoted names; everything else keeps its text.
pub open spec fn continent_name_canon(s: Seq<char>) -> Seq<char> {
    if s == "\"South America\""@ {
        "South America"@
    } else if s == "\"North America\""@ {
        "North America"@
    } else {
        s
    }
}

/// Canonicalizes a continent name to a shared constant where one exists.
pub fn get_static_continent_name(continent_code: &str) -> (r: LogString)
    ensures
        r@ == continent_name_canon(continent_code@),
{
    if str_eq(continent_code, "\"South America\"") {
        proof {
            reveal_strlit("\"South America\"");
            reveal_strlit("\"North America\"");
            assert("\"South America\""@[1] == 'S');
            assert("\"North America\""@[1] == 'N');
            assert("\"South America\""@ != "\"North America\""@);
        }
        return LogString::Borrowed("South America");
    }
    if str_eq(continent_code, "\"North America\"") {
        proof {
            reveal_strlit("\"South America\"");
            reveal_strlit("\"North America\"");
            assert("\"South America\""@[1] == 'S');
            assert("\"North America\""@[1] == 'N');
        }
        return LogString::Borrowed("North America");
    }
    if str_eq(continent_code, "Africa") {
        return LogString::Borrowed("Africa");
    }
    if str_eq(continent_code, "Asia") {
        return LogString::Borrowed("Asia");
    }
    if str_eq(continent_code, "Europe") {
        return LogString::Borrowed("Europe");
    }
    if str_eq(continent_code, "Oceania") {
        return LogString::Borrowed("Oceania");
    }
    if str_eq(continent_code, "Antartica") {
        return LogString::Borrowed("Antartica");
    }
    if str_eq(continent_code, "South America") {
        return LogString::Borrowed("South America");
    }
    if str_eq(continent_code, "North America") {
        return LogString::Borrowed("North America");
    }
    LogString::Owned(continent_code.to_owned())
}

/// Canonicalizes a country ISO code. The text is never altered.
pub fn get_static_country_iso_name(country_name: &str) -> (r: LogString)
    ensures
        r@ == country_name@,
{
    if str_eq(country_name, "RW") {
        return LogString::Borrowed("RW");
    }
    if str_eq(country_name, "SO") {
        return LogString::Borrowed("SO");
    }
    if str_eq(country_name, "YE") {
        return LogString::Borrowed("YE");
    }
    if str_eq(country_name, "IQ") {
        return LogString::Borrowed("IQ");
    }
    if str_eq(country_name, "SA") {
        return LogString::Borrowed("SA");
    }
    if str_eq(country_name, "IR") {
        return LogString::Borrowed("IR");
    }
    if str_eq(country_name, "CY") {
        return LogString::Borrowed("CY");
    }
    if str_eq(country_name, "TZ") {
        return LogString::Borrowed("TZ");
    }
    if str_eq(country_name, "SY") {
        return LogString::Borrowed("SY");
    }
    if str_eq(country_name, "AM") {
        return LogString::Borrowed("AM");
    }
    if str_eq(country_name, "KE") {
        return LogString::Borrowed("KE");
    }
    if str_eq(country_name, "CD") {
        return LogString::Borrowed("CD");
    }
    if str_eq(country_name, "DJ") {
        return LogString::Borrowed("DJ");
    }
    if str_eq(country_name, "UG") {
        return LogString::Borrowed("UG");
    }
    if str_eq(country_name, "CF") {
        return LogString::Borrowed("CF");
    }
    if str_eq(country_name, "SC") {
        return LogString::Borrowed("SC");
    }
    if str_eq(country_name, "JO") {
        return LogString::Borrowed("JO");
    }
    if str_eq(country_name, "LB") {
        return LogString::Borrowed("LB");
    }
    if str_eq(country_name, "KW") {
        return LogString::Borrowed("KW");
    }
    if str_eq(country_name, "OM") {
        return LogString::Borrowed("OM");
    }
    if str_eq(country_name, "QA") {
        return LogString::Borrowed("QA");
    }
    if str_eq(country_name, "BH") {
        return LogString::Borrowed("BH");
    }
    if str_eq(country_name, "AE") {
        return LogString::Borrowed("AE");
    }
    if str_eq(country_name, "IL") {
        return LogString::Borrowed("IL");
    }
    if str_eq(country_name, "TR") {
        return LogString::Borrowed("TR");
    }
    if str_eq(country_name, "ET") {
        return LogString::Borrowed("ET");
    }
    if str_eq(country_name, "ER") {
        return LogString::Borrowed("ER");
    }
    if str_eq(country_name, "EG") {
        return LogString::Borrowed("EG");
    }
    if str_eq(country_name, "SD") {
        return LogString::Borrowed("SD");
    }
    if str_eq(country_name, "GR") {
        return LogString::Borrowed("GR");
    }
    if str_eq(country_name, "BI") {
        return LogString::Borrowed("BI");
    }
    if str_eq(country_name, "EE") {
        return LogString::Borrowed("EE");
    }
    if str_eq(country_name, "LV") {
        return LogString::Borrowed("LV");
    }
    if str_eq(country_name, "AZ") {
        return LogString::Borrowed("AZ");
    }
    if str_eq(country_name, "LT") {
        return LogString::Borrowed("LT");
    }
    if str_eq(country_name, "SJ") {
        return LogString::Borrowed("SJ");
    }
    if str_eq(country_name, "GE") {
        return LogString::Borrowed("GE");
    }
    if str_eq(country_name, "MD") {
        return LogString::Borrowed("MD");
    }
    if str_eq(country_name, "BY") {
        return LogString::Borrowed("BY");
    }
    if str_eq(country_name, "FI") {
        return LogString::Borrowed("FI");
    }
    if str_eq(country_name, "AX") {
        return LogString::Borrowed("AX");
    }
    if str_eq(country_name, "UA") {
        return LogString::Borrowed("UA");
    }
    if str_eq(country_name, "MK") {
        return LogString::Borrowed("MK");
    }
    if str_eq(country_name, "HU") {
        return LogString::Borrowed("HU");
    }
    if str_eq(country_name, "BG") {
        return LogString::Borrowed("BG");
    }
    if str_eq(country_name, "AL") {
        return LogString::Borrowed("AL");
    }
    if str_eq(country_name, "PL") {
        return LogString::Borrowed("PL");
    }
    if str_eq(country_name, "RO") {
        return LogString::Borrowed("RO");
    }
    if str_eq(country_name, "XK") {
        return LogString::Borrowed("XK");
    }
    if str_eq(country_name, "ZW") {
        return LogString::Borrowed("ZW");
    }
    if str_eq(country_name, "ZM") {
        return LogString::Borrowed("ZM");
    }
    if str_eq(country_name, "KM") {
        return LogString::Borrowed("KM");
    }
    if str_eq(country_name, "MW") {
        return LogString::Borrowed("MW");
    }
    if str_eq(country_name, "LS") {
        return LogString::Borrowed("LS");
    }
    if str_eq(country_name, "BW") {
        return LogString::Borrowed("BW");
    }
    if str_eq(country_name, "MU") {
        return LogString::Borrowed("MU");
    }
    if str_eq(country_name, "SZ") {
        return LogString::Borrowed("SZ");
    }
    if str_eq(country_name, "RE") {
        return LogString::Borrowed("RE");
    }
    if str_eq(country_name, "ZA") {
        return LogString::Borrowed("ZA");
    }
    if str_eq(country_name, "YT") {
        return LogString::Borrowed("YT");
    }
    if str_eq(country_name, "MZ") {
        return LogString::Borrowed("MZ");
    }
    if str_eq(country_name, "MG") {
        return LogString::Borrowed("MG");
    }
    if str_eq(country_name, "AF") {
        return LogString::Borrowed("AF");
    }
    if str_eq(country_name, "PK") {
        return LogString::Borrowed("PK");
    }
    if str_eq(country_name, "BD") {
        return LogString::Borrowed("BD");
    }
    if str_eq(country_name, "TM") {
        return LogString::Borrowed("TM");
    }
    if str_eq(country_name, "TJ") {
        return LogString::Borrowed("TJ");
    }
    if str_eq(country_name, "LK") {
        return LogString::Borrowed("LK");
    }
    if str_eq(country_name, "BT") {
        return LogString::Borrowed("BT");
    }
    if str_eq(country_name, "IN") {
        return LogString::Borrowed("IN");
    }
    if str_eq(country_name, "MV") {
        return LogString::Borrowed("MV");
    }
    if str_eq(country_name, "IO") {
        return LogString::Borrowed("IO");
    }
    if str_eq(country_name, "NP") {
        return LogString::Borrowed("NP");
    }
    if str_eq(country_name, "MM") {
        return LogString::Borrowed("MM");
    }
    if str_eq(country_name, "UZ") {
        return LogString::Borrowed("UZ");
    }
    if str_eq(country_name, "KZ") {
        return LogString::Borrowed("KZ");
    }
    if str_eq(country_name, "KG") {
        return LogString::Borrowed("KG");
    }
    if str_eq(country_name, "TF") {
        return LogString::Borrowed("TF");
    }
    if str_eq(country_name, "HM") {
        return LogString::Borrowed("HM");
    }
    if str_eq(country_name, "CC") {
        return LogString::Borrowed("CC");
    }
    if str_eq(country_name, "PW") {
        return LogString::Borrowed("PW");
    }
    if str_eq(country_name, "VN") {
        return LogString::Borrowed("VN");
    }
    if str_eq(country_name, "TH") {
        return LogString::Borrowed("TH");
    }
    if str_eq(country_name, "ID") {
        return LogString::Borrowed("ID");
    }
    if str_eq(country_name, "LA") {
        return LogString::Borrowed("LA");
    }
    if str_eq(country_name, "TW") {
        return LogString::Borrowed("TW");
    }
    if str_eq(country_name, "PH") {
        return LogString::Borrowed("PH");
    }
    if str_eq(country_name, "MY") {
        return LogString::Borrowed("MY");
    }
    if str_eq(country_name, "CN") {
        return LogString::Borrowed("CN");
    }
    if str_eq(country_name, "HK") {
        return LogString::Borrowed("HK");
    }
    if str_eq(country_name, "BN") {
        return LogString::Borrowed("BN");
    }
    if str_eq(country_name, "MO") {
        return LogString::Borrowed("MO");
    }
    if str_eq(country_name, "KH") {
        return LogString::Borrowed("KH");
    }
    if str_eq(country_name, "KR") {
        return LogString::Borrowed("KR");
    }
    if str_eq(country_name, "JP") {
        return LogString::Borrowed("JP");
    }
    if str_eq(country_name, "KP") {
        return LogString::Borrowed("KP");
    }
    if str_eq(country_name, "SG") {
        return LogString::Borrowed("SG");
    }
    if str_eq(country_name, "CK") {
        return LogString::Borrowed("CK");
    }
    if str_eq(country_name, "TL") {
        return LogString::Borrowed("TL");
    }
    if str_eq(country_name, "RU") {
        return LogString::Borrowed("RU");
    }
    if str_eq(country_name, "MN") {
        return LogString::Borrowed("MN");
    }
    if str_eq(country_name, "AU") {
        return LogString::Borrowed("AU");
    }
    if str_eq(country_name, "CX") {
        return LogString::Borrowed("CX");
    }
    if str_eq(country_name, "MH") {
        return LogString::Borrowed("MH");
    }
    if str_eq(country_name, "FM") {
        return LogString::Borrowed("FM");
    }
    if str_eq(country_name, "PG") {
        return LogString::Borrowed("PG");
    }
    if str_eq(country_name, "SB") {
        return LogString::Borrowed("SB");
    }
    if str_eq(country_name, "TV") {
        return LogString::Borrowed("TV");
    }
    if str_eq(country_name, "NR") {
        return LogString::Borrowed("NR");
    }
    if str_eq(country_name, "VU") {
        return LogString::Borrowed("VU");
    }
    if str_eq(country_name, "NC") {
        return LogString::Borrowed("NC");
    }
    if str_eq(country_name, "NF") {
        return LogString::Borrowed("NF");
    }
    if str_eq(country_name, "NZ") {
        return LogString::Borrowed("NZ");
    }
    if str_eq(country_name, "FJ") {
        return LogString::Borrowed("FJ");
    }
    if str_eq(country_name, "LY") {
        return LogString::Borrowed("LY");
    }
    if str_eq(country_name, "CM") {
        return LogString::Borrowed("CM");
    }
    if str_eq(country_name, "SN") {
        return LogString::Borrowed("SN");
    }
    if str_eq(country_name, "CG") {
        return LogString::Borrowed("CG");
    }
    if str_eq(country_name, "PT") {
        return LogString::Borrowed("PT");
    }
    if str_eq(country_name, "LR") {
        return LogString::Borrowed("LR");
    }
    if str_eq(country_name, "CI") {
        return LogString::Borrowed("CI");
    }
    if str_eq(country_name, "GH") {
        return LogString::Borrowed("GH");
    }
    if str_eq(country_name, "GQ") {
        return LogString::Borrowed("GQ");
    }
    if str_eq(country_name, "NG") {
        return LogString::Borrowed("NG");
    }
    if str_eq(country_name, "BF") {
        return LogString::Borrowed("BF");
    }
    if str_eq(country_name, "TG") {
        return LogString::Borrowed("TG");
    }
    if str_eq(country_name, "GW") {
        return LogString::Borrowed("GW");
    }
    if str_eq(country_name, "MR") {
        return LogString::Borrowed("MR");
    }
    if str_eq(country_name, "BJ") {
        return LogString::Borrowed("BJ");
    }
    if str_eq(country_name, "GA") {
        return LogString::Borrowed("GA");
    }
    if str_eq(country_name, "SL") {
        return LogString::Borrowed("SL");
    }
    if str_eq(country_name, "ST") {
        return LogString::Borrowed("ST");
    }
    if str_eq(country_name, "GI") {
        return LogString::Borrowed("GI");
    }
    if str_eq(country_name, "GM") {
        return LogString::Borrowed("GM");
    }
    if str_eq(country_name, "GN") {
        return LogString::Borrowed("GN");
    }
    if str_eq(country_name, "TD") {
        return LogString::Borrowed("TD");
    }
    if str_eq(country_name, "NE") {
        return LogString::Borrowed("NE");
    }
    if str_eq(country_name, "ML") {
        return LogString::Borrowed("ML");
    }
    if str_eq(country_name, "EH") {
        return LogString::Borrowed("EH");
    }
    if str_eq(country_name, "TN") {
        return LogString::Borrowed("TN");
    }
    if str_eq(country_name, "ES") {
        return LogString::Borrowed("ES");
    }
    if str_eq(country_name, "MA") {
        return LogString::Borrowed("MA");
    }
    if str_eq(country_name, "MT") {
        return LogString::Borrowed("MT");
    }
    if str_eq(country_name, "DZ") {
        return LogString::Borrowed("DZ");
    }
    if str_eq(country_name, "FO") {
        return LogString::Borrowed("FO");
    }
    if str_eq(country_name, "DK") {
        return LogString::Borrowed("DK");
    }
    if str_eq(country_name, "IS") {
        return LogString::Borrowed("IS");
    }
    if str_eq(country_name, "GB") {
        return LogString::Borrowed("GB");
    }
    if str_eq(country_name, "CH") {
        return LogString::Borrowed("CH");
    }
    if str_eq(country_name, "SE") {
        return LogString::Borrowed("SE");
    }
    if str_eq(country_name, "NL") {
        return LogString::Borrowed("NL");
    }
    if str_eq(country_name, "AT") {
        return LogString::Borrowed("AT");
    }
    if str_eq(country_name, "BE") {
        return LogString::Borrowed("BE");
    }
    if str_eq(country_name, "DE") {
        return LogString::Borrowed("DE");
    }
    if str_eq(country_name, "LU") {
        return LogString::Borrowed("LU");
    }
    if str_eq(country_name, "IE") {
        return LogString::Borrowed("IE");
    }
    if str_eq(country_name, "MC") {
        return LogString::Borrowed("MC");
    }
    if str_eq(country_name, "FR") {
        return LogString::Borrowed("FR");
    }
    if str_eq(country_name, "AD") {
        return LogString::Borrowed("AD");
    }
    if str_eq(country_name, "LI") {
        return LogString::Borrowed("LI");
    }
    if str_eq(country_name, "JE") {
        return LogString::Borrowed("JE");
    }
    if str_eq(country_name, "IM") {
        return LogString::Borrowed("IM");
    }
    if str_eq(country_name, "GG") {
        return LogString::Borrowed("GG");
    }
    if str_eq(country_name, "SK") {
        return LogString::Borrowed("SK");
    }
    if str_eq(country_name, "CZ") {
        return LogString::Borrowed("CZ");
    }
    if str_eq(country_name, "NO") {
        return LogString::Borrowed("NO");
    }
    if str_eq(country_name, "VA") {
        return LogString::Borrowed("VA");
    }
    if str_eq(country_name, "SM") {
        return LogString::Borrowed("SM");
    }
    if str_eq(country_name, "IT") {
        return LogString::Borrowed("IT");
    }
    if str_eq(country_name, "SI") {
        return LogString::Borrowed("SI");
    }
    if str_eq(country_name, "ME") {
        return LogString::Borrowed("ME");
    }
    if str_eq(country_name, "HR") {
        return LogString::Borrowed("HR");
    }
    if str_eq(country_name, "BA") {
        return LogString::Borrowed("BA");
    }
    if str_eq(country_name, "AO") {
        return LogString::Borrowed("AO");
    }
    if str_eq(country_name, "NA") {
        return LogString::Borrowed("NA");
    }
    if str_eq(country_name, "SH") {
        return LogString::Borrowed("SH");
    }
    if str_eq(country_name, "BV") {
        return LogString::Borrowed("BV");
    }
    if str_eq(country_name, "BB") {
        return LogString::Borrowed("BB");
    }
    if str_eq(country_name, "CV") {
        return LogString::Borrowed("CV");
    }
    if str_eq(country_name, "GY") {
        return LogString::Borrowed("GY");
    }
    if str_eq(country_name, "GF") {
        return LogString::Borrowed("GF");
    }
    if str_eq(country_name, "SR") {
        return LogString::Borrowed("SR");
    }
    if str_eq(country_name, "PM") {
        return LogString::Borrowed("PM");
    }
    if str_eq(country_name, "GL") {
        return LogString::Borrowed("GL");
    }
    if str_eq(country_name, "PY") {
        return LogString::Borrowed("PY");
    }
    if str_eq(country_name, "UY") {
        return LogString::Borrowed("UY");
    }
    if str_eq(country_name, "BR") {
        return LogString::Borrowed("BR");
    }
    if str_eq(country_name, "FK") {
        return LogString::Borrowed("FK");
    }
    if str_eq(country_name, "GS") {
        return LogString::Borrowed("GS");
    }
    if str_eq(country_name, "JM") {
        return LogString::Borrowed("JM");
    }
    if str_eq(country_name, "DO") {
        return LogString::Borrowed("DO");
    }
    if str_eq(country_name, "CU") {
        return LogString::Borrowed("CU");
    }
    if str_eq(country_name, "MQ") {
        return LogString::Borrowed("MQ");
    }
    if str_eq(country_name, "BS") {
        return LogString::Borrowed("BS");
    }
    if str_eq(country_name, "BM") {
        return LogString::Borrowed("BM");
    }
    if str_eq(country_name, "AI") {
        return LogString::Borrowed("AI");
    }
    if str_eq(country_name, "TT") {
        return LogString::Borrowed("TT");
    }
    if str_eq(country_name, "KN") {
        return LogString::Borrowed("KN");
    }
    if str_eq(country_name, "DM") {
        return LogString::Borrowed("DM");
    }
    if str_eq(country_name, "AG") {
        return LogString::Borrowed("AG");
    }
    if str_eq(country_name, "LC") {
        return LogString::Borrowed("LC");
    }
    if str_eq(country_name, "TC") {
        return LogString::Borrowed("TC");
    }
    if str_eq(country_name, "AW") {
        return LogString::Borrowed("AW");
    }
    if str_eq(country_name, "VG") {
        return LogString::Borrowed("VG");
    }
    if str_eq(country_name, "VC") {
        return LogString::Borrowed("VC");
    }
    if str_eq(country_name, "MS") {
        return LogString::Borrowed("MS");
    }
    if str_eq(country_name, "MF") {
        return LogString::Borrowed("MF");
    }
    if str_eq(country_name, "BL") {
        return LogString::Borrowed("BL");
    }
    if str_eq(country_name, "GP") {
        return LogString::Borrowed("GP");
    }
    if str_eq(country_name, "GD") {
        return LogString::Borrowed("GD");
    }
    if str_eq(country_name, "KY") {
        return LogString::Borrowed("KY");
    }
    if str_eq(country_name, "BZ") {
        return LogString::Borrowed("BZ");
    }
    if str_eq(country_name, "SV") {
        return LogString::Borrowed("SV");
    }
    if str_eq(country_name, "GT") {
        return LogString::Borrowed("GT");
    }
    if str_eq(country_name, "HN") {
        return LogString::Borrowed("HN");
    }
    if str_eq(country_name, "NI") {
        return LogString::Borrowed("NI");
    }
    if str_eq(country_name, "CR") {
        return LogString::Borrowed("CR");
    }
    if str_eq(country_name, "VE") {
        return LogString::Borrowed("VE");
    }
    if str_eq(country_name, "EC") {
        return LogString::Borrowed("EC");
    }
    if str_eq(country_name, "CO") {
        return LogString::Borrowed("CO");
    }
    if str_eq(country_name, "PA") {
        return LogString::Borrowed("PA");
    }
    if str_eq(country_name, "HT") {
        return LogString::Borrowed("HT");
    }
    if str_eq(country_name, "AR") {
        return LogString::Borrowed("AR");
    }
    if str_eq(country_name, "CL") {
        return LogString::Borrowed("CL");
    }
    if str_eq(country_name, "BO") {
        return LogString::Borrowed("BO");
    }
    if str_eq(country_name, "PE") {
        return LogString::Borrowed("PE");
    }
    if str_eq(country_name, "MX") {
        return LogString::Borrowed("MX");
    }
    if str_eq(country_name, "PF") {
        return LogString::Borrowed("PF");
    }
    if str_eq(country_name, "PN") {
        return LogString::Borrowed("PN");
    }
    if str_eq(country_name, "KI") {
        return LogString::Borrowed("KI");
    }
    if str_eq(country_name, "TK") {
        return LogString::Borrowed("TK");
    }
    if str_eq(country_name, "TO") {
        return LogString::Borrowed("TO");
    }
    if str_eq(country_name, "WF") {
        return LogString::Borrowed("WF");
    }
    if str_eq(country_name, "WS") {
        return LogString::Borrowed("WS");
    }
    if str_eq(country_name, "NU") {
        return LogString::Borrowed("NU");
    }
    if str_eq(country_name, "MP") {
        return LogString::Borrowed("MP");
    }
    if str_eq(country_name, "GU") {
        return LogString::Borrowed("GU");
    }
    if str_eq(country_name, "PR") {
        return LogString::Borrowed("PR");
    }
    if str_eq(country_name, "VI") {
        return LogString::Borrowed("VI");
    }
    if str_eq(country_name, "UM") {
        return LogString::Borrowed("UM");
    }
    if str_eq(country_name, "AS") {
        return LogString::Borrowed("AS");
    }
    if str_eq(country_name, "CA") {
        return LogString::Borrowed("CA");
    }
    if str_eq(country_name, "US") {
        return LogString::Borrowed("US");
    }
    if str_eq(country_name, "PS") {
        return LogString::Borrowed("PS");
    }
    if str_eq(country_name, "RS") {
        return LogString::Borrowed("RS");
    }
    if str_eq(country_name, "AQ") {
        return LogString::Borrowed("AQ");
    }
    if str_eq(country_name, "SX") {
        return LogString::Borrowed("SX");
    }
    if str_eq(country_name, "CW") {
        return LogString::Borrowed("CW");
    }
    if str_eq(country_name, "BQ") {
        return LogString::Borrowed("BQ");
    }
    if str_eq(country_name, "SS") {
        return LogString::Borrowed("SS");
    }
    LogString::Owned(country_name.to_owned())
}

/// The canonical text of a country display name: one vendor value ships
/// wrapped in literal quotes and maps to its unquoted name; every other
/// value — known or not — keeps its text exactly.
pub open spec fn country_name_canon(s: Seq<char>) -> Seq<char> {
    if s == "\"Bonaire, Sint Eustatius, and Saba\""@ {
        "Bonaire, Sint Eustatius, and Saba"@
    } else {
        s
    }
}

/// Canonicalizes a country display name to a shared constant where one
/// exists. A value outside the table comes back as an owned copy with
/// its text unaltered.
pub fn get_static_country_name(country_name: &str) -> (r: LogString)
    ensures
        r@ == country_name_canon(country_name@),
{
    if str_eq(country_name, "\"Bonaire, Sint Eustatius, and Saba\"") {
        return LogString::Borrowed("Bonaire, Sint Eustatius, and Saba");
    }
    if str_eq(country_name, "") {
        return LogString::Borrowed("");
    }
    if str_eq(country_name, "Rwanda") {
        return LogString::Borrowed("Rwanda");
    }
    if str_eq(country_name, "Somalia") {
        return LogString::Borrowed("Somalia");
    }
    if str_eq(country_name, "Yemen") {
        return LogString::Borrowed("Yemen");
    }
    if str_eq(country_name, "Iraq") {
        return LogString::Borrowed("Iraq");
    }
    if str_eq(country_name, "Saudi Arabia") {
        return LogString::Borrowed("Saudi Arabia");
    }
    if str_eq(country_name, "Iran") {
        return LogString::Borrowed("Iran");
    }
    if str_eq(country_name, "Cyprus") {
        return LogString::Borrowed("Cyprus");
    }
    if str_eq(country_name, "Tanzania") {
        return LogString::Borrowed("Tanzania");
    }
    if str_eq(country_name, "Syria") {
        return LogString::Borrowed("Syria");
    }
    if str_eq(country_name, "Armenia") {
        return LogString::Borrowed("Armenia");
    }
    if str_eq(country_name, "Kenya") {
        return LogString::Borrowed("Kenya");
    }
    if str_eq(country_name, "DR Congo") {
        return LogString::Borrowed("DR Congo");
    }
    if str_eq(country_name, "Djibouti") {
        return LogString::Borrowed("Djibouti");
    }
    if str_eq(country_name, "Uganda") {
        return LogString::Borrowed("Uganda");
    }
    if str_eq(country_name, "Central African Republic") {
        return LogString::Borrowed("Central African Republic");
    }
    if str_eq(country_name, "Seychelles") {
        return LogString::Borrowed("Seychelles");
    }
    if str_eq(country_name, "Jordan") {
        return LogString::Borrowed("Jordan");
    }
    if str_eq(country_name, "Lebanon") {
        return LogString::Borrowed("Lebanon");
    }
    if str_eq(country_name, "Kuwait") {
        return LogString::Borrowed("Kuwait");
    }
    if str_eq(country_name, "Oman") {
        return LogString::Borrowed("Oman");
    }
    if str_eq(country_name, "Qatar") {
        return LogString::Borrowed("Qatar");
    }
    if str_eq(country_name, "Bahrain") {
        return LogString::Borrowed("Bahrain");
    }
    if str_eq(country_name, "United Arab Emirates") {
        return LogString::Borrowed("United Arab Emirates");
    }
    if str_eq(country_name, "Israel") {
        return LogString::Borrowed("Israel");
    }
    if str_eq(country_name, "Turkey") {
        return LogString::Borrowed("Turkey");
    }
    if str_eq(country_name, "Ethiopia") {
        return LogString::Borrowed("Ethiopia");
    }
    if str_eq(country_name, "Eritrea") {
        return LogString::Borrowed("Eritrea");
    }
    if str_eq(country_name, "Egypt") {
        return LogString::Borrowed("Egypt");
    }
    if str_eq(country_name, "Sudan") {
        return LogString::Borrowed("Sudan");
    }
    if str_eq(country_name, "Greece") {
        return LogString::Borrowed("Greece");
    }
    if str_eq(country_name, "Burundi") {
        return LogString::Borrowed("Burundi");
    }
    if str_eq(country_name, "Estonia") {
        return LogString::Borrowed("Estonia");
    }
    if str_eq(country_name, "Latvia") {
        return LogString::Borrowed("Latvia");
    }
    if str_eq(country_name, "Azerbaijan") {
        return LogString::Borrowed("Azerbaijan");
    }
    if str_eq(country_name, "Lithuania") {
        return LogString::Borrowed("Lithuania");
    }
    if str_eq(country_name, "Svalbard and Jan Mayen") {
        return LogString::Borrowed("Svalbard and Jan Mayen");
    }
    if str_eq(country_name, "Georgia") {
        return LogString::Borrowed("Georgia");
    }
    if str_eq(country_name, "Moldova") {
        return LogString::Borrowed("Moldova");
    }
    if str_eq(country_name, "Belarus") {
        return LogString::Borrowed("Belarus");
    }
    if str_eq(country_name, "Finland") {
        return LogString::Borrowed("Finland");
    }
    if str_eq(country_name, "Åland Islands") {
        return LogString::Borrowed("Åland Islands");
    }
    if str_eq(country_name, "Ukraine") {
        return LogString::Borrowed("Ukraine");
    }
    if str_eq(country_name, "North Macedonia") {
        return LogString::Borrowed("North Macedonia");
    }
    if str_eq(country_name, "Hungary") {
        return LogString::Borrowed("Hungary");
    }
    if str_eq(country_name, "Bulgaria") {
        return LogString::Borrowed("Bulgaria");
    }
    if str_eq(country_name, "Albania") {
        return LogString::Borrowed("Albania");
    }
    if str_eq(country_name, "Poland") {
        return LogString::Borrowed("Poland");
    }
    if str_eq(country_name, "Romania") {
        return LogString::Borrowed("Romania");
    }
    if str_eq(country_name, "Kosovo") {
        return LogString::Borrowed("Kosovo");
    }
    if str_eq(country_name, "Zimbabwe") {
        return LogString::Borrowed("Zimbabwe");
    }
    if str_eq(country_name, "Zambia") {
        return LogString::Borrowed("Zambia");
    }
    if str_eq(country_name, "Comoros") {
        return LogString::Borrowed("Comoros");
    }
    if str_eq(country_name, "Malawi") {
        return LogString::Borrowed("Malawi");
    }
    if str_eq(country_name, "Lesotho") {
        return LogString::Borrowed("Lesotho");
    }
    if str_eq(country_name, "Botswana") {
        return LogString::Borrowed("Botswana");
    }
    if str_eq(country_name, "Mauritius") {
        return LogString::Borrowed("Mauritius");
    }
    if str_eq(country_name, "Eswatini") {
        return LogString::Borrowed("Eswatini");
    }
    if str_eq(country_name, "Réunion") {
        return LogString::Borrowed("Réunion");
    }
    if str_eq(country_name, "South Africa") {
        return LogString::Borrowed("South Africa");
    }
    if str_eq(country_name, "Mayotte") {
        return LogString::Borrowed("Mayotte");
    }
    if str_eq(country_name, "Mozambique") {
        return LogString::Borrowed("Mozambique");
    }
    if str_eq(country_name, "Madagascar") {
        return LogString::Borrowed("Madagascar");
    }
    if str_eq(country_name, "Afghanistan") {
        return LogString::Borrowed("Afghanistan");
    }
    if str_eq(country_name, "Pakistan") {
        return LogString::Borrowed("Pakistan");
    }
    if str_eq(country_name, "Bangladesh") {
        return LogString::Borrowed("Bangladesh");
    }
    if str_eq(country_name, "Turkmenistan") {
        return LogString::Borrowed("Turkmenistan");
    }
    if str_eq(country_name, "Tajikistan") {
        return LogString::Borrowed("Tajikistan");
    }
    if str_eq(country_name, "Sri Lanka") {
        return LogString::Borrowed("Sri Lanka");
    }
    if str_eq(country_name, "Bhutan") {
        return LogString::Borrowed("Bhutan");
    }
    if str_eq(country_name, "India") {
        return LogString::Borrowed("India");
    }
    if str_eq(country_name, "Maldives") {
        return LogString::Borrowed("Maldives");
    }
    if str_eq(country_name, "British Indian Ocean Territory") {
        return LogString::Borrowed("British Indian Ocean Territory");
    }
    if str_eq(country_name, "Nepal") {
        return LogString::Borrowed("Nepal");
    }
    if str_eq(country_name, "Myanmar") {
        return LogString::Borrowed("Myanmar");
    }
    if str_eq(country_name, "Uzbekistan") {
        return LogString::Borrowed("Uzbekistan");
    }
    if str_eq(country_name, "Kazakhstan") {
        return LogString::Borrowed("Kazakhstan");
    }
    if str_eq(country_name, "Kyrgyzstan") {
        return LogString::Borrowed("Kyrgyzstan");
    }
    if str_eq(country_name, "French Southern Territories") {
        return LogString::Borrowed("French Southern Territories");
    }
    if str_eq(country_name, "Heard and McDonald Islands") {
        return LogString::Borrowed("Heard and McDonald Islands");
    }
    if str_eq(country_name, "Cocos (Keeling) Islands") {
        return LogString::Borrowed("Cocos (Keeling) Islands");
    }
    if str_eq(country_name, "Palau") {
        return LogString::Borrowed("Palau");
    }
    if str_eq(country_name, "Vietnam") {
        return LogString::Borrowed("Vietnam");
    }
    if str_eq(country_name, "Thailand") {
        return LogString::Borrowed("Thailand");
    }
    if str_eq(country_name, "Indonesia") {
        return LogString::Borrowed("Indonesia");
    }
    if str_eq(country_name, "Laos") {
        return LogString::Borrowed("Laos");
    }
    if str_eq(country_name, "Taiwan") {
        return LogString::Borrowed("Taiwan");
    }
    if str_eq(country_name, "Philippines") {
        return LogString::Borrowed("Philippines");
    }
    if str_eq(country_name, "Malaysia") {
        return LogString::Borrowed("Malaysia");
    }
    if str_eq(country_name, "China") {
        return LogString::Borrowed("China");
    }
    if str_eq(country_name, "Hong Kong") {
        return LogString::Borrowed("Hong Kong");
    }
    if str_eq(country_name, "Brunei") {
        return LogString::Borrowed("Brunei");
    }
    if str_eq(country_name, "Macao") {
        return LogString::Borrowed("Macao");
    }
    if str_eq(country_name, "Cambodia") {
        return LogString::Borrowed("Cambodia");
    }
    if str_eq(country_name, "South Korea") {
        return LogString::Borrowed("South Korea");
    }
    if str_eq(country_name, "Japan") {
        return LogString::Borrowed("Japan");
    }
    if str_eq(country_name, "North Korea") {
        return LogString::Borrowed("North Korea");
    }
    if str_eq(country_name, "Singapore") {
        return LogString::Borrowed("Singapore");
    }
    if str_eq(country_name, "Cook Islands") {
        return LogString::Borrowed("Cook Islands");
    }
    if str_eq(country_name, "Timor-Leste") {
        return LogString::Borrowed("Timor-Leste");
    }
    if str_eq(country_name, "Russia") {
        return LogString::Borrowed("Russia");
    }
    if str_eq(country_name, "Mongolia") {
        return LogString::Borrowed("Mongolia");
    }
    if str_eq(country_name, "Australia") {
        return LogString::Borrowed("Australia");
    }
    if str_eq(country_name, "Christmas Island") {
        return LogString::Borrowed("Christmas Island");
    }
    if str_eq(country_name, "Marshall Islands") {
        return LogString::Borrowed("Marshall Islands");
    }
    if str_eq(country_name, "Federated States of Micronesia") {
        return LogString::Borrowed("Federated States of Micronesia");
    }
    if str_eq(country_name, "Papua New Guinea") {
        return LogString::Borrowed("Papua New Guinea");
    }
    if str_eq(country_name, "Solomon Islands") {
        return LogString::Borrowed("Solomon Islands");
    }
    if str_eq(country_name, "Tuvalu") {
        return LogString::Borrowed("Tuvalu");
    }
    if str_eq(country_name, "Nauru") {
        return LogString::Borrowed("Nauru");
    }
    if str_eq(country_name, "Vanuatu") {
        return LogString::Borrowed("Vanuatu");
    }
    if str_eq(country_name, "New Caledonia") {
        return LogString::Borrowed("New Caledonia");
    }
    if str_eq(country_name, "Norfolk Island") {
        return LogString::Borrowed("Norfolk Island");
    }
    if str_eq(country_name, "New Zealand") {
        return LogString::Borrowed("New Zealand");
    }
    if str_eq(country_name, "Fiji") {
        return LogString::Borrowed("Fiji");
    }
    if str_eq(country_name, "Libya") {
        return LogString::Borrowed("Libya");
    }
    if str_eq(country_name, "Cameroon") {
        return LogString::Borrowed("Cameroon");
    }
    if str_eq(country_name, "Senegal") {
        return LogString::Borrowed("Senegal");
    }
    if str_eq(country_name, "Congo Republic") {
        return LogString::Borrowed("Congo Republic");
    }
    if str_eq(country_name, "Portugal") {
        return LogString::Borrowed("Portugal");
    }
    if str_eq(country_name, "Liberia") {
        return LogString::Borrowed("Liberia");
    }
    if str_eq(country_name, "Ivory Coast") {
        return LogString::Borrowed("Ivory Coast");
    }
    if str_eq(country_name, "Ghana") {
        return LogString::Borrowed("Ghana");
    }
    if str_eq(country_name, "Equatorial Guinea") {
        return LogString::Borrowed("Equatorial Guinea");
    }
    if str_eq(country_name, "Nigeria") {
        return LogString::Borrowed("Nigeria");
    }
    if str_eq(country_name, "Burkina Faso") {
        return LogString::Borrowed("Burkina Faso");
    }
    if str_eq(country_name, "Togo") {
        return LogString::Borrowed("Togo");
    }
    if str_eq(country_name, "Guinea-Bissau") {
        return LogString::Borrowed("Guinea-Bissau");
    }
    if str_eq(country_name, "Mauritania") {
        return LogString::Borrowed("Mauritania");
    }
    if str_eq(country_name, "Benin") {
        return LogString::Borrowed("Benin");
    }
    if str_eq(country_name, "Gabon") {
        return LogString::Borrowed("Gabon");
    }
    if str_eq(country_name, "Sierra Leone") {
        return LogString::Borrowed("Sierra Leone");
    }
    if str_eq(country_name, "São Tomé and Príncipe") {
        return LogString::Borrowed("São Tomé and Príncipe");
    }
    if str_eq(country_name, "Gibraltar") {
        return LogString::Borrowed("Gibraltar");
    }
    if str_eq(country_name, "Gambia") {
        return LogString::Borrowed("Gambia");
    }
    if str_eq(country_name, "Guinea") {
        return LogString::Borrowed("Guinea");
    }
    if str_eq(country_name, "Chad") {
        return LogString::Borrowed("Chad");
    }
    if str_eq(country_name, "Niger") {
        return LogString::Borrowed("Niger");
    }
    if str_eq(country_name, "Mali") {
        return LogString::Borrowed("Mali");
    }
    if str_eq(country_name, "Western Sahara") {
        return LogString::Borrowed("Western Sahara");
    }
    if str_eq(country_name, "Tunisia") {
        return LogString::Borrowed("Tunisia");
    }
    if str_eq(country_name, "Spain") {
        return LogString::Borrowed("Spain");
    }
    if str_eq(country_name, "Morocco") {
        return LogString::Borrowed("Morocco");
    }
    if str_eq(country_name, "Malta") {
        return LogString::Borrowed("Malta");
    }
    if str_eq(country_name, "Algeria") {
        return LogString::Borrowed("Algeria");
    }
    if str_eq(country_name, "Faroe Islands") {
        return LogString::Borrowed("Faroe Islands");
    }
    if str_eq(country_name, "Denmark") {
        return LogString::Borrowed("Denmark");
    }
    if str_eq(country_name, "Iceland") {
        return LogString::Borrowed("Iceland");
    }
    if str_eq(country_name, "United Kingdom") {
        return LogString::Borrowed("United Kingdom");
    }
    if str_eq(country_name, "Switzerland") {
        return LogString::Borrowed("Switzerland");
    }
    if str_eq(country_name, "Sweden") {
        return LogString::Borrowed("Sweden");
    }
    if str_eq(country_name, "Netherlands") {
        return LogString::Borrowed("Netherlands");
    }
    if str_eq(country_name, "Austria") {
        return LogString::Borrowed("Austria");
    }
    if str_eq(country_name, "Belgium") {
        return LogString::Borrowed("Belgium");
    }
    if str_eq(country_name, "Germany") {
        return LogString::Borrowed("Germany");
    }
    if str_eq(country_name, "Luxembourg") {
        return LogString::Borrowed("Luxembourg");
    }
    if str_eq(country_name, "Ireland") {
        return LogString::Borrowed("Ireland");
    }
    if str_eq(country_name, "Monaco") {
        return LogString::Borrowed("Monaco");
    }
    if str_eq(country_name, "France") {
        return LogString::Borrowed("France");
    }
    if str_eq(country_name, "Andorra") {
        return LogString::Borrowed("Andorra");
    }
    if str_eq(country_name, "Liechtenstein") {
        return LogString::Borrowed("Liechtenstein");
    }
    if str_eq(country_name, "Jersey") {
        return LogString::Borrowed("Jersey");
    }
    if str_eq(country_name, "Isle of Man") {
        return LogString::Borrowed("Isle of Man");
    }
    if str_eq(country_name, "Guernsey") {
        return LogString::Borrowed("Guernsey");
    }
    if str_eq(country_name, "Slovakia") {
        return LogString::Borrowed("Slovakia");
    }
    if str_eq(country_name, "Czechia") {
        return LogString::Borrowed("Czechia");
    }
    if str_eq(country_name, "Norway") {
        return LogString::Borrowed("Norway");
    }
    if str_eq(country_name, "Vatican City") {
        return LogString::Borrowed("Vatican City");
    }
    if str_eq(country_name, "San Marino") {
        return LogString::Borrowed("San Marino");
    }
    if str_eq(country_name, "Italy") {
        return LogString::Borrowed("Italy");
    }
    if str_eq(country_name, "Slovenia") {
        return LogString::Borrowed("Slovenia");
    }
    if str_eq(country_name, "Montenegro") {
        return LogString::Borrowed("Montenegro");
    }
    if str_eq(country_name, "Croatia") {
        return LogString::Borrowed("Croatia");
    }
    if str_eq(country_name, "Bosnia and Herzegovina") {
        return LogString::Borrowed("Bosnia and Herzegovina");
    }
    if str_eq(country_name, "Angola") {
        return LogString::Borrowed("Angola");
    }
    if str_eq(country_name, "Namibia") {
        return LogString::Borrowed("Namibia");
    }
    if str_eq(country_name, "Saint Helena") {
        return LogString::Borrowed("Saint Helena");
    }
    if str_eq(country_name, "Bouvet Island") {
        return LogString::Borrowed("Bouvet Island");
    }
    if str_eq(country_name, "Barbados") {
        return LogString::Borrowed("Barbados");
    }
    if str_eq(country_name, "Cabo Verde") {
        return LogString::Borrowed("Cabo Verde");
    }
    if str_eq(country_name, "Guyana") {
        return LogString::Borrowed("Guyana");
    }
    if str_eq(country_name, "French Guiana") {
        return LogString::Borrowed("French Guiana");
    }
    if str_eq(country_name, "Suriname") {
        return LogString::Borrowed("Suriname");
    }
    if str_eq(country_name, "Saint Pierre and Miquelon") {
        return LogString::Borrowed("Saint Pierre and Miquelon");
    }
    if str_eq(country_name, "Greenland") {
        return LogString::Borrowed("Greenland");
    }
    if str_eq(country_name, "Paraguay") {
        return LogString::Borrowed("Paraguay");
    }
    if str_eq(country_name, "Uruguay") {
        return LogString::Borrowed("Uruguay");
    }
    if str_eq(country_name, "Brazil") {
        return LogString::Borrowed("Brazil");
    }
    if str_eq(country_name, "Falkland Islands") {
        return LogString::Borrowed("Falkland Islands");
    }
    if str_eq(country_name, "South Georgia and the South Sandwich Islands") {
        return LogString::Borrowed("South Georgia and the South Sandwich Islands");
    }
    if str_eq(country_name, "Jamaica") {
        return LogString::Borrowed("Jamaica");
    }
    if str_eq(country_name, "Dominican Republic") {
        return LogString::Borrowed("Dominican Republic");
    }
    if str_eq(country_name, "Cuba") {
        return LogString::Borrowed("Cuba");
    }
    if str_eq(country_name, "Martinique") {
        return LogString::Borrowed("Martinique");
    }
    if str_eq(country_name, "Bahamas") {
        return LogString::Borrowed("Bahamas");
    }
    if str_eq(country_name, "Bermuda") {
        return LogString::Borrowed("Bermuda");
    }
    if str_eq(country_name, "Anguilla") {
        return LogString::Borrowed("Anguilla");
    }
    if str_eq(country_name, "Trinidad and Tobago") {
        return LogString::Borrowed("Trinidad and Tobago");
    }
    if str_eq(country_name, "St Kitts and Nevis") {
        return LogString::Borrowed("St Kitts and Nevis");
    }
    if str_eq(country_name, "Dominica") {
        return LogString::Borrowed("Dominica");
    }
    if str_eq(country_name, "Antigua and Barbuda") {
        return LogString::Borrowed("Antigua and Barbuda");
    }
    if str_eq(country_name, "Saint Lucia") {
        return LogString::Borrowed("Saint Lucia");
    }
    if str_eq(country_name, "Turks and Caicos Islands") {
        return LogString::Borrowed("Turks and Caicos Islands");
    }
    if str_eq(country_name, "Aruba") {
        return LogString::Borrowed("Aruba");
    }
    if str_eq(country_name, "British Virgin Islands") {
        return LogString::Borrowed("British Virgin Islands");
    }
    if str_eq(country_name, "St Vincent and Grenadines") {
        return LogString::Borrowed("St Vincent and Grenadines");
    }
    if str_eq(country_name, "Montserrat") {
        return LogString::Borrowed("Montserrat");
    }
    if str_eq(country_name, "Saint Martin") {
        return LogString::Borrowed("Saint Martin");
    }
    if str_eq(country_name, "Saint Barthélemy") {
        return LogString::Borrowed("Saint Barthélemy");
    }
    if str_eq(country_name, "Guadeloupe") {
        return LogString::Borrowed("Guadeloupe");
    }
    if str_eq(country_name, "Grenada") {
        return LogString::Borrowed("Grenada");
    }
    if str_eq(country_name, "Cayman Islands") {
        return LogString::Borrowed("Cayman Islands");
    }
    if str_eq(country_name, "Belize") {
        return LogString::Borrowed("Belize");
    }
    if str_eq(country_name, "El Salvador") {
        return LogString::Borrowed("El Salvador");
    }
    if str_eq(country_name, "Guatemala") {
        return LogString::Borrowed("Guatemala");
    }
    if str_eq(country_name, "Honduras") {
        return LogString::Borrowed("Honduras");
    }
    if str_eq(country_name, "Nicaragua") {
        return LogString::Borrowed("Nicaragua");
    }
    if str_eq(country_name, "Costa Rica") {
        return LogString::Borrowed("Costa Rica");
    }
    if str_eq(country_name, "Venezuela") {
        return LogString::Borrowed("Venezuela");
    }
    if str_eq(country_name, "Ecuador") {
        return LogString::Borrowed("Ecuador");
    }
    if str_eq(country_name, "Colombia") {
        return LogString::Borrowed("Colombia");
    }
    if str_eq(country_name, "Panama") {
        return LogString::Borrowed("Panama");
    }
    if str_eq(country_name, "Haiti") {
        return LogString::Borrowed("Haiti");
    }
    if str_eq(country_name, "Argentina") {
        return LogString::Borrowed("Argentina");
    }
    if str_eq(country_name, "Chile") {
        return LogString::Borrowed("Chile");
    }
    if str_eq(country_name, "Bolivia") {
        return LogString::Borrowed("Bolivia");
    }
    if str_eq(country_name, "Peru") {
        return LogString::Borrowed("Peru");
    }
    if str_eq(country_name, "Mexico") {
        return LogString::Borrowed("Mexico");
    }
    if str_eq(country_name, "French Polynesia") {
        return LogString::Borrowed("French Polynesia");
    }
    if str_eq(country_name, "Pitcairn Islands") {
        return LogString::Borrowed("Pitcairn Islands");
    }
    if str_eq(country_name, "Kiribati") {
        return LogString::Borrowed("Kiribati");
    }
    if str_eq(country_name, "Tokelau") {
        return LogString::Borrowed("Tokelau");
    }
    if str_eq(country_name, "Tonga") {
        return LogString::Borrowed("Tonga");
    }
    if str_eq(country_name, "Wallis and Futuna") {
        return LogString::Borrowed("Wallis and Futuna");
    }
    if str_eq(country_name, "Samoa") {
        return LogString::Borrowed("Samoa");
    }
    if str_eq(country_name, "Niue") {
        return LogString::Borrowed("Niue");
    }
    if str_eq(country_name, "Northern Mariana Islands") {
        return LogString::Borrowed("Northern Mariana Islands");
    }
    if str_eq(country_name, "Guam") {
        return LogString::Borrowed("Guam");
    }
    if str_eq(country_name, "Puerto Rico") {
        return LogString::Borrowed("Puerto Rico");
    }
    if str_eq(country_name, "U.S. Virgin Islands") {
        return LogString::Borrowed("U.S. Virgin Islands");
    }
    if str_eq(country_name, "U.S. Outlying Islands") {
        return LogString::Borrowed("U.S. Outlying Islands");
    }
    if str_eq(country_name, "American Samoa") {
        return LogString::Borrowed("American Samoa");
    }
    if str_eq(country_name, "Canada") {
        return LogString::Borrowed("Canada");
    }
    if str_eq(country_name, "United States") {
        return LogString::Borrowed("United States");
    }
    if str_eq(country_name, "Palestine") {
        return LogString::Borrowed("Palestine");
    }
    if str_eq(country_name, "Serbia") {
        return LogString::Borrowed("Serbia");
    }
    if str_eq(country_name, "Antarctica") {
        return LogString::Borrowed("Antarctica");
    }
    if str_eq(country_name, "Sint Maarten") {
        return LogString::Borrowed("Sint Maarten");
    }
    if str_eq(country_name, "Curaçao") {
        return LogString::Borrowed("Curaçao");
    }
    if str_eq(country_name, "South Sudan") {
        return LogString::Borrowed("South Sudan");
    }
    LogString::Owned(country_name.to_owned())
}

/// Canonicalizes an autonomous-system organization name. The text is
/// never altered.
pub fn static_principal_asns(asn: &str) -> (r: LogString)
    ensures
        r@ == asn@,
{
    if str_eq(asn, "ATT-INTERNET4") {
        return LogString::Borrowed("ATT-INTERNET4");
    }
    if str_eq(asn, "UUNET") {
        return LogString::Borrowed("UUNET");
    }
    if str_eq(asn, "Chinanet") {
        return LogString::Borrowed("Chinanet");
    }
    if str_eq(asn, "COGENT-174") {
        return LogString::Borrowed("COGENT-174");
    }
    if str_eq(asn, "Turk Telekom") {
        return LogString::Borrowed("Turk Telekom");
    }
    if str_eq(asn, "DNIC-ASBLK-00721-00726") {
        return LogString::Borrowed("DNIC-ASBLK-00721-00726");
    }
    if str_eq(asn, "Korea Telecom") {
        return LogString::Borrowed("Korea Telecom");
    }
    if str_eq(asn, "LEVEL3") {
        return LogString::Borrowed("LEVEL3");
    }
    if str_eq(asn, "CENTURYLINK-US-LEGACY-QWEST") {
        return LogString::Borrowed("CENTURYLINK-US-LEGACY-QWEST");
    }
    if str_eq(asn, "Akamai International B.V.") {
        return LogString::Borrowed("Akamai International B.V.");
    }
    if str_eq(asn, "LVLT-3549") {
        return LogString::Borrowed("LVLT-3549");
    }
    if str_eq(asn, "SPRINTLINK") {
        return LogString::Borrowed("SPRINTLINK");
    }
    if str_eq(asn, "AKAMAI-AS") {
        return LogString::Borrowed("AKAMAI-AS");
    }
    if str_eq(asn, "COMCAST-7922") {
        return LogString::Borrowed("COMCAST-7922");
    }
    if str_eq(asn, "AMAZON-02") {
        return LogString::Borrowed("AMAZON-02");
    }
    if str_eq(asn, "SK Broadband Co Ltd") {
        return LogString::Borrowed("SK Broadband Co Ltd");
    }
    if str_eq(asn, "LG DACOM Corporation") {
        return LogString::Borrowed("LG DACOM Corporation");
    }
    if str_eq(asn, "DNIC-AS-00749") {
        return LogString::Borrowed("DNIC-AS-00749");
    }
    if str_eq(asn, "Rostelecom") {
        return LogString::Borrowed("Rostelecom");
    }
    if str_eq(asn, "FRONTIER-FRTR") {
        return LogString::Borrowed("FRONTIER-FRTR");
    }
    if str_eq(asn, "China Mobile Communications Group Co., Ltd.") {
        return LogString::Borrowed("China Mobile Communications Group Co., Ltd.");
    }
    if str_eq(asn, "WINDSTREAM") {
        return LogString::Borrowed("WINDSTREAM");
    }
    if str_eq(asn, "CENTURYLINK-LEGACY-SAVVIS") {
        return LogString::Borrowed("CENTURYLINK-LEGACY-SAVVIS");
    }
    if str_eq(asn, "GTT Communications Inc.") {
        return LogString::Borrowed("GTT Communications Inc.");
    }
    if str_eq(asn, "ASN-CXA-ALL-CCI-22773-RDC") {
        return LogString::Borrowed("ASN-CXA-ALL-CCI-22773-RDC");
    }
    if str_eq(asn, "M247 Europe SRL") {
        return LogString::Borrowed("M247 Europe SRL");
    }
    if str_eq(asn, "XO-AS15") {
        return LogString::Borrowed("XO-AS15");
    }
    if str_eq(asn, "EGIHOSTING") {
        return LogString::Borrowed("EGIHOSTING");
    }
    if str_eq(asn, "China Mobile communications corporation") {
        return LogString::Borrowed("China Mobile communications corporation");
    }
    if str_eq(asn, "DNIC-ASBLK-05800-06055") {
        return LogString::Borrowed("DNIC-ASBLK-05800-06055");
    }
    if str_eq(asn, "ZAYO-6461") {
        return LogString::Borrowed("ZAYO-6461");
    }
    if str_eq(asn, "DNIC-ASBLK-27032-27159") {
        return LogString::Borrowed("DNIC-ASBLK-27032-27159");
    }
    if str_eq(asn, "CHINA UNICOM China169 Backbone") {
        return LogString::Borrowed("CHINA UNICOM China169 Backbone");
    }
    if str_eq(asn, "Ipxo Uk Limited") {
        return LogString::Borrowed("Ipxo Uk Limited");
    }
    if str_eq(asn, "PVimpelCom") {
        return LogString::Borrowed("PVimpelCom");
    }
    if str_eq(asn, "BELLSOUTH-NET-BLK") {
        return LogString::Borrowed("BELLSOUTH-NET-BLK");
    }
    if str_eq(asn, "DNIC-ASBLK-00306-00371") {
        return LogString::Borrowed("DNIC-ASBLK-00306-00371");
    }
    if str_eq(asn, "NTT-LTD-2914") {
        return LogString::Borrowed("NTT-LTD-2914");
    }
    if str_eq(asn, "BACOM") {
        return LogString::Borrowed("BACOM");
    }
    if str_eq(asn, "Telmex Colombia S.A.") {
        return LogString::Borrowed("Telmex Colombia S.A.");
    }
    if str_eq(asn, "JSC ER-Telecom Holding") {
        return LogString::Borrowed("JSC ER-Telecom Holding");
    }
    if str_eq(asn, "A1 Bulgaria EAD") {
        return LogString::Borrowed("A1 Bulgaria EAD");
    }
    if str_eq(asn, "UCSD") {
        return LogString::Borrowed("UCSD");
    }
    if str_eq(asn, "AFCONC-BLOCK1-AS") {
        return LogString::Borrowed("AFCONC-BLOCK1-AS");
    }
    if str_eq(asn, "Mega Cable, S.A. de C.V.") {
        return LogString::Borrowed("Mega Cable, S.A. de C.V.");
    }
    if str_eq(asn, "Orange") {
        return LogString::Borrowed("Orange");
    }
    if str_eq(asn, "TELUS Communications") {
        return LogString::Borrowed("TELUS Communications");
    }
    if str_eq(asn, "China Unicom Beijing Province Network") {
        return LogString::Borrowed("China Unicom Beijing Province Network");
    }
    if str_eq(asn, "OOO Network of data-centers Selectel") {
        return LogString::Borrowed("OOO Network of data-centers Selectel");
    }
    if str_eq(asn, "CHARTER-20115") {
        return LogString::Borrowed("CHARTER-20115");
    }
    if str_eq(asn, "Uninet S.A. de C.V.") {
        return LogString::Borrowed("Uninet S.A. de C.V.");
    }
    if str_eq(asn, "Datacamp Limited") {
        return LogString::Borrowed("Datacamp Limited");
    }
    if str_eq(asn, "TOTAL PLAY TELECOMUNICACIONES SA DE CV") {
        return LogString::Borrowed("TOTAL PLAY TELECOMUNICACIONES SA DE CV");
    }
    if str_eq(asn, "TPG Telecom Limited") {
        return LogString::Borrowed("TPG Telecom Limited");
    }
    if str_eq(asn, "Superonline Iletisim Hizmetleri A.S.") {
        return LogString::Borrowed("Superonline Iletisim Hizmetleri A.S.");
    }
    if str_eq(asn, "TELEFONICA BRASIL S.A") {
        return LogString::Borrowed("TELEFONICA BRASIL S.A");
    }
    if str_eq(asn, "Host Europe GmbH") {
        return LogString::Borrowed("Host Europe GmbH");
    }
    if str_eq(asn, "PJSC MegaFon") {
        return LogString::Borrowed("PJSC MegaFon");
    }
    if str_eq(asn, "China Telecom Group") {
        return LogString::Borrowed("China Telecom Group");
    }
    if str_eq(asn, "TWC-10796-MIDWEST") {
        return LogString::Borrowed("TWC-10796-MIDWEST");
    }
    if str_eq(asn, "CABLEONE") {
        return LogString::Borrowed("CABLEONE");
    }
    if str_eq(asn, "HostRoyale Technologies Pvt Ltd") {
        return LogString::Borrowed("HostRoyale Technologies Pvt Ltd");
    }
    if str_eq(asn, "Bharti Airtel Ltd., Telemedia Services") {
        return LogString::Borrowed("Bharti Airtel Ltd., Telemedia Services");
    }
    if str_eq(asn, "DACOM-PUBNETPLUS") {
        return LogString::Borrowed("DACOM-PUBNETPLUS");
    }
    if str_eq(asn, "Axtel, S.A.B. de C.V.") {
        return LogString::Borrowed("Axtel, S.A.B. de C.V.");
    }
    if str_eq(asn, "SERVER-MANIA") {
        return LogString::Borrowed("SERVER-MANIA");
    }
    if str_eq(asn, "Sify Limited") {
        return LogString::Borrowed("Sify Limited");
    }
    if str_eq(asn, "MTS PJSC") {
        return LogString::Borrowed("MTS PJSC");
    }
    if str_eq(asn, "Iran Telecommunication Company PJS") {
        return LogString::Borrowed("Iran Telecommunication Company PJS");
    }
    if str_eq(asn, "MICROSOFT-CORP-MSN-AS-BLOCK") {
        return LogString::Borrowed("MICROSOFT-CORP-MSN-AS-BLOCK");
    }
    if str_eq(asn, "AMAZON-AES") {
        return LogString::Borrowed("AMAZON-AES");
    }
    if str_eq(asn, "China Networks Inter-Exchange") {
        return LogString::Borrowed("China Networks Inter-Exchange");
    }
    if str_eq(asn, "ASN-QUADRANET-GLOBAL") {
        return LogString::Borrowed("ASN-QUADRANET-GLOBAL");
    }
    if str_eq(asn, "Deutsche Telekom AG") {
        return LogString::Borrowed("Deutsche Telekom AG");
    }
    if str_eq(asn, "Avatel Telecom, SA") {
        return LogString::Borrowed("Avatel Telecom, SA");
    }
    if str_eq(asn, "Vodafone Net Iletisim Hizmetleri Anonim Sirketi") {
        return LogString::Borrowed("Vodafone Net Iletisim Hizmetleri Anonim Sirketi");
    }
    if str_eq(asn, "CELLCO-PART") {
        return LogString::Borrowed("CELLCO-PART");
    }
    if str_eq(asn, "Clouvider Limited") {
        return LogString::Borrowed("Clouvider Limited");
    }
    if str_eq(asn, "British Telecommunications PLC") {
        return LogString::Borrowed("British Telecommunications PLC");
    }
    if str_eq(asn, "BHARTI Airtel Ltd.") {
        return LogString::Borrowed("BHARTI Airtel Ltd.");
    }
    if str_eq(asn, "COGECO-PEER1") {
        return LogString::Borrowed("COGECO-PEER1");
    }
    if str_eq(asn, "Telecom Italia") {
        return LogString::Borrowed("Telecom Italia");
    }
    if str_eq(asn, "ZEN-ECN") {
        return LogString::Borrowed("ZEN-ECN");
    }
    LogString::Owned(asn.to_owned())
}

// ---------------------------------------------------------------------------
// Reference rows and the joined per-network record.
// ---------------------------------------------------------------------------
/// Country attributes for one geoname id, from the country reference table.
pub struct CountryInfo {
    pub continent_code: LogString,
    pub continent_name: LogString,
    pub country_iso_code: LogString,
    pub country_name: LogString,
}

/// The text of a country row's fields.
#[verifier::ext_equal]
pub struct CountryInfoV {
    pub continent_code: Seq<char>,
    pub continent_name: Seq<char>,
    pub country_iso_code: Seq<char>,
    pub country_name: Seq<char>,
}

impl View for CountryInfo {
    type V = CountryInfoV;

    open spec fn view(&self) -> CountryInfoV {
        CountryInfoV {
            continent_code: self.continent_code@,
            continent_name: self.continent_name@,
            country_iso_code: self.country_iso_code@,
            country_name: self.country_name@,
        }
    }
}

impl Clone for CountryInfo {
    fn clone(&self) -> (r: Self)
        ensures
            r == *self,
    {
        CountryInfo {
            continent_code: self.continent_code.clone(),
            continent_name: self.continent_name.clone(),
            country_iso_code: self.country_iso_code.clone(),
            country_name: self.country_name.clone(),
        }
    }
}

pub open spec fn empty_country_v() -> CountryInfoV {
    CountryInfoV {
        continent_code: Seq::empty(),
        continent_name: Seq::empty(),
        country_iso_code: Seq::empty(),
        country_name: Seq::empty(),
    }
}

impl Default for CountryInfo {
    fn default() -> (r: Self)
        ensures
            r@ == empty_country_v(),
    {
        CountryInfo {
            continent_code: LogString::empty(),
            continent_name: LogString::empty(),
            country_iso_code: LogString::empty(),
            country_name: LogString::empty(),
        }
    }
}

/// City attributes for one geoname id, from the city reference table.
pub struct CityInfo {
    pub city_name: LogString,
    pub country_name: LogString,
}

/// The text of a city row's fields.
#[verifier::ext_equal]
pub struct CityInfoV {
    pub city_name: Seq<char>,
    pub country_name: Seq<char>,
}

impl View for CityInfo {
    type V = CityInfoV;

    open spec fn view(&self) -> CityInfoV {
        CityInfoV { city_name: self.city_name@, country_name: self.country_name@ }
    }
}

impl Clone for CityInfo {
    fn clone(&self) -> (r: Self)
        ensures
            r == *self,
    {
        CityInfo { city_name: self.city_name.clone(), country_name: self.country_name.clone() }
    }
}

pub open spec fn empty_city_v() -> CityInfoV {
    CityInfoV { city_name: Seq::empty(), country_name: Seq::empty() }
}

impl Default for CityInfo {
    fn default() -> (r: Self)
        ensures
            r@ == empty_city_v(),
    {
        CityInfo { city_name: LogString::empty(), country_name: LogString::empty() }
    }
}

/// The joined metadata for one network. The coordinate columns are kept
/// as their raw text: turning them into numbers is the caller's concern,
/// and zero text stands for the dataset's unknown-coordinate convention.
/// `longitude` is never populated by the block pass: the column matcher
/// tests the `network` name a second time where the vendor schema has a
/// `longitude` column — a known discrepancy, kept visible rather than
/// silently guessed away.
pub struct GeoIpInfo {
    pub city: LogString,
    pub country: LogString,
    pub country_iso: LogString,
    pub isp: LogString,
    pub asn: u32,
    pub latitude: String,
    pub longitude: String,
}

/// The text and number of one record's fields.
#[verifier::ext_equal]
pub struct GeoIpInfoV {
    pub city: Seq<char>,
    pub country: Seq<char>,
    pub country_iso: Seq<char>,
    pub isp: Seq<char>,
    pub asn: u32,
    pub latitude: Seq<char>,
    pub longitude: Seq<char>,
}

impl View for GeoIpInfo {
    type V = GeoIpInfoV;

    open spec fn view(&self) -> GeoIpInfoV {
        GeoIpInfoV {
            city: self.city@,
            country: self.country@,
            country_iso: self.country_iso@,
            isp: self.isp@,
            asn: self.asn,
            latitude: self.latitude@,
            longitude: self.longitude@,
        }
    }
}

impl Clone for GeoIpInfo {
    fn clone(&self) -> (r: Self)
        ensures
            r == *self,
    {
        GeoIpInfo {
            city: self.city.clone(),
            country: self.country.clone(),
            country_iso: self.country_iso.clone(),
            isp: self.isp.clone(),
            asn: self.asn,
            latitude: self.latitude.clone(),
            longitude: self.longitude.clone(),
        }
    }
}

pub open spec fn empty_geo_v() -> GeoIpInfoV {
    GeoIpInfoV {
        city: Seq::empty(),
        country: Seq::empty(),
        country_iso: Seq::empty(),
        isp: Seq::empty(),
        asn: 0,
        latitude: Seq::empty(),
        longitude: Seq::empty(),
    }
}

impl Default for GeoIpInfo {
    fn default() -> (r: Self)
        ensures
            r@ == empty_geo_v(),
    {
        GeoIpInfo {
            city: LogString::empty(),
            country: LogString::empty(),
            country_iso: LogString::empty(),
            isp: LogString::empty(),
            asn: 0,
            latitude: String::new(),
            longitude: String::new(),
        }
    }
}

// ---------------------------------------------------------------------------
// Row folds. Column names are taken from the header row, so a row is
// read as a left-to-right fold over (name, value) pairs: the header's
// order, not a fixed schema, governs interpretation, and a repeated
// column name simply steps the fold twice.
// ---------------------------------------------------------------------------
pub open spec fn min_len(a: Seq<Seq<char>>, b: Seq<Seq<char>>) -> int {
    if a.len() <= b.len() {
        a.len() as int
    } else {
        b.len() as int
    }
}

/// The id under which a row files itself: the last `geoname_id` column
/// whose value reads as a number. A row with no readable id is skipped
/// by the table folds, never filed under a default.
pub open spec fn geoname_id_fold(
    names: Seq<Seq<char>>,
    values: Seq<Seq<char>>,
    i: int,
    acc: Option<u32>,
) -> Option<u32>
    decreases min_len(names, values) - i,
{
    if 0 <= i < min_len(names, values) {
        let acc2 = if names[i] == "geoname_id"@ && parses_as_uint(values[i], u32::MAX as int) {
            Some(uint_of(values[i]) as u32)
        } else {
            acc
        };
        geoname_id_fold(names, values, i + 1, acc2)
    } else {
        acc
    }
}

/// One column's effect on a country row.
pub open spec fn country_row_step(
    name: Seq<char>,
    value: Seq<char>,
    acc: CountryInfoV,
) -> CountryInfoV {
    if name == "continent_code"@ {
        CountryInfoV { continent_code: value, ..acc }
    } else if name == "continent_name"@ {
        CountryInfoV { continent_name: continent_name_canon(value), ..acc }
    } else if name == "country_iso_code"@ {
        CountryInfoV { country_iso_code: value, ..acc }
    } else if name == "country_name"@ {
        CountryInfoV { country_name: country_name_canon(value), ..acc }
    } else {
        acc
    }
}

pub open spec fn country_row_fold(
    names: Seq<Seq<char>>,
    values: Seq<Seq<char>>,
    i: int,
    acc: CountryInfoV,
) -> CountryInfoV
    decreases min_len(names, values) - i,
{
    if 0 <= i < min_len(names, values) {
        country_row_fold(names, values, i + 1, country_row_step(names[i], values[i], acc))
    } else {
        acc
    }
}

/// One column's effect on a city row. The city name is only kept when
/// the caller enabled city resolution; the country column is read either
/// way.
pub open spec fn city_row_step(
    name: Seq<char>,
    value: Seq<char>,
    enable_city: bool,
    acc: CityInfoV,
) -> CityInfoV {
    if name == "city_name"@ {
        if enable_city {
            CityInfoV { city_name: remove_quotes(value), ..acc }
        } else {
            acc
        }
    } else if name == "country_name"@ {
        CityInfoV { country_name: country_name_canon(value), ..acc }
    } else {
        acc
    }
}

pub open spec fn city_row_fold(
    names: Seq<Seq<char>>,
    values: Seq<Seq<char>>,
    enable_city: bool,
    i: int,
    acc: CityInfoV,
) -> CityInfoV
    decreases min_len(names, values) - i,
{
    if 0 <= i < min_len(names, values) {
        city_row_fold(
            names,
            values,
            enable_city,
            i + 1,
            city_row_step(names[i], values[i], enable_city, acc),
        )
    } else {
        acc
    }
}

/// The country reference table: each readable row filed under its id,
/// later rows overwriting earlier ones.
pub open spec fn country_table(names: Seq<Seq<char>>, lines: Seq<Seq<char>>) -> Map<
    u32,
    CountryInfoV,
>
    decreases lines.len(),
{
    if lines.len() == 0 {
        Map::empty()
    } else {
        let m = country_table(names, lines.drop_last());
        let vals = csv_split(lines.last());
        match geoname_id_fold(names, vals, 0, None) {
            Some(id) => m.insert(id, country_row_fold(names, vals, 0, empty_country_v())),
            None => m,
        }
    }
}

/// The city reference table.
pub open spec fn city_table(
    names: Seq<Seq<char>>,
    lines: Seq<Seq<char>>,
    enable_city: bool,
) -> Map<u32, CityInfoV>
    decreases lines.len(),
{
    if lines.len() == 0 {
        Map::empty()
    } else {
        let m = city_table(names, lines.drop_last(), enable_city);
        let vals = csv_split(lines.last());
        match geoname_id_fold(names, vals, 0, None) {
            Some(id) => m.insert(id, city_row_fold(names, vals, enable_city, 0, empty_city_v())),
            None => m,
        }
    }
}

/// Reads one country reference row.
#[verifier::rlimit(60)]
fn country_row(names: &Vec<String>, values: &Vec<String>) -> (r: (Option<u32>, CountryInfo))
    ensures
        r.0 == geoname_id_fold(seq_views(names@), seq_views(values@), 0, None),
        r.1@ == country_row_fold(seq_views(names@), seq_views(values@), 0, empty_country_v()),
{
    let ghost nv = seq_views(names@);
    let ghost vv = seq_views(values@);
    let n = if names.len() <= values.len() {
        names.len()
    } else {
        values.len()
    };
    let mut ido: Option<u32> = None;
    let mut info = CountryInfo::default();
    let mut i: usize = 0;
    while i < n
        invariant
            nv == seq_views(names@),
            vv == seq_views(values@),
            n == min_len(nv, vv),
            n <= names@.len(),
            n <= values@.len(),
            i <= n,
            geoname_id_fold(nv, vv, 0, None) == geoname_id_fold(nv, vv, i as int, ido),
            country_row_fold(nv, vv, 0, empty_country_v()) == country_row_fold(
                nv,
                vv,
                i as int,
                info@,
            ),
        decreases n - i,
    {
        let name = names[i].as_str();
        let value = values[i].as_str();
        let ghost pre_info = info@;
        proof {
            assert(nv[i as int] == names@[i as int]@);
            assert(vv[i as int] == values@[i as int]@);
        }
        if str_eq(name, "geoname_id") {
            match parse_u32_str(value) {
                Some(v) => {
                    ido = Some(v);
                },
                None => {},
            }
        } else if str_eq(name, "continent_code") {
            info.continent_code = get_static_continent_code(value);
        } else if str_eq(name, "continent_name") {
            info.continent_name = get_static_continent_name(value);
        } else if str_eq(name, "country_iso_code") {
            info.country_iso_code = get_static_country_iso_name(value);
        } else if str_eq(name, "country_name") {
            info.country_name = get_static_country_name(value);
        }
        proof {
            // the step function tells the column names apart by text
            reveal_strlit("geoname_id");
            reveal_strlit("continent_code");
            reveal_strlit("continent_name");
            reveal_strlit("country_iso_code");
            reveal_strlit("country_name");
            assert("geoname_id"@.len() == 10);
            assert("continent_code"@.len() == 14);
            assert("continent_name"@.len() == 14);
            assert("country_iso_code"@.len() == 16);
            assert("country_name"@.len() == 12);
            assert("continent_code"@[10] == 'c');
            assert("continent_name"@[10] == 'n');
            assert(info@ =~= country_row_step(nv[i as int], vv[i as int], pre_info));
            assert(country_row_fold(nv, vv, i as int, pre_info) == country_row_fold(
                nv,
                vv,
                i as int + 1,
                info@,
            ));
        }
        i = i + 1;
    }
    (ido, info)
}

/// Reads one city reference row.
#[verifier::rlimit(60)]
fn city_row(names: &Vec<String>, values: &Vec<String>, enable_city: bool) -> (r: (
    Option<u32>,
    CityInfo,
))
    ensures
        r.0 == geoname_id_fold(seq_views(names@), seq_views(values@), 0, None),
        r.1@ == city_row_fold(
            seq_views(names@),
            seq_views(values@),
            enable_city,
            0,
            empty_city_v(),
        ),
{
    let ghost nv = seq_views(names@);
    let ghost vv = seq_views(values@);
    let n = if names.len() <= values.len() {
        names.len()
    } else {
        values.len()
    };
    let mut ido: Option<u32> = None;
    let mut info = CityInfo::default();
    let mut i: usize = 0;
    while i < n
        invariant
            nv == seq_views(names@),
            vv == seq_views(values@),
            n == min_len(nv, vv),
            n <= names@.len(),
            n <= values@.len(),
            i <= n,
            geoname_id_fold(nv, vv, 0, None) == geoname_id_fold(nv, vv, i as int, ido),
            city_row_fold(nv, vv, enable_city, 0, empty_city_v()) == city_row_fold(
                nv,
                vv,
                enable_city,
                i as int,
                info@,
            ),
        decreases n - i,
    {
        let name = names[i].as_str();
        let value = values[i].as_str();
        let ghost pre_info = info@;
        proof {
            assert(nv[i as int] == names@[i as int]@);
            assert(vv[i as int] == values@[i as int]@);
        }
        if str_eq(name, "geoname_id") {
            match parse_u32_str(value) {
                Some(v) => {
                    ido = Some(v);
                },
                None => {},
            }
        } else if str_eq(name, "city_name") {
            if enable_city {
                info.city_name = LogString::Owned(strip_quotes(value));
            }
        } else if str_eq(name, "country_name") {
            info.country_name = get_static_country_name(value);
        }
        proof {
            // the step function tells the column names apart by text
            reveal_strlit("geoname_id");
            reveal_strlit("city_name");
            reveal_strlit("country_name");
            assert("geoname_id"@.len() == 10);
            assert("city_name"@.len() == 9);
            assert("country_name"@.len() == 12);
            assert(info@ =~= city_row_step(nv[i as int], vv[i as int], enable_city, pre_info));
            assert(city_row_fold(nv, vv, enable_city, i as int, pre_info) == city_row_fold(
                nv,
                vv,
                enable_city,
                i as int + 1,
                info@,
            ));
        }
        i = i + 1;
    }
    (ido, info)
}

/// Builds the geoname-id-to-country map from the country reference
/// table's header and data lines. A row whose id does not read as a
/// number is skipped; reading continues with the next row.
pub fn process_maxmind_geo_lite2_country_csv(header: &str, lines: &Vec<String>) -> (m: HashMap<
    u32,
    CountryInfo,
>)
    ensures
        m@.map_values(|c: CountryInfo| c@) == country_table(
            plain_split(header@),
            seq_views(lines@),
        ),
{
    broadcast use vstd::std_specs::hash::group_hash_axioms;

    let names = split_plain(header);
    let mut m: HashMap<u32, CountryInfo> = HashMap::new();
    let mut li: usize = 0;
    proof {
        assert(seq_views(lines@).take(0) =~= Seq::<Seq<char>>::empty());
        assert(m@.map_values(|c: CountryInfo| c@) =~= country_table(
            plain_split(header@),
            seq_views(lines@).take(0),
        ));
    }
    while li < lines.len()
        invariant
            seq_views(names@) == plain_split(header@),
            li <= lines@.len(),
            m@.map_values(|c: CountryInfo| c@) == country_table(
                plain_split(header@),
                seq_views(lines@).take(li as int),
            ),
        decreases lines@.len() - li,
    {
        broadcast use vstd::std_specs::hash::group_hash_axioms;

        let ghost pre = m@.map_values(|c: CountryInfo| c@);
        let values = split_column_values(lines[li].as_str());
        let (ido, info) = country_row(&names, &values);
        proof {
            assert(seq_views(lines@).take(li as int + 1).drop_last() =~= seq_views(lines@).take(
                li as int,
            ));
            assert(seq_views(lines@).take(li as int + 1).last() == lines@[li as int]@);
        }
        match ido {
            Some(id) => {
                m.insert(id, info);
                proof {
                    assert(m@.map_values(|c: CountryInfo| c@) =~= pre.insert(id, info@));
                }
            },
            None => {},
        }
        li = li + 1;
    }
    proof {
        assert(seq_views(lines@).take(lines@.len() as int) =~= seq_views(lines@));
    }
    m
}

/// Builds the geoname-id-to-city map from the city reference table's
/// header and data lines. With city resolution disabled the city name
/// stays empty, but the row's country column is still read.
pub fn process_maxmind_geo_lite2_city_csv(header: &str, lines: &Vec<String>, enable_city: bool) -> (m:
    HashMap<u32, CityInfo>)
    ensures
        m@.map_values(|c: CityInfo| c@) == city_table(
            plain_split(header@),
            seq_views(lines@),
            enable_city,
        ),
{
    broadcast use vstd::std_specs::hash::group_hash_axioms;

    let names = split_plain(header);
    let mut m: HashMap<u32, CityInfo> = HashMap::new();
    let mut li: usize = 0;
    proof {
        assert(seq_views(lines@).take(0) =~= Seq::<Seq<char>>::empty());
        assert(m@.map_values(|c: CityInfo| c@) =~= city_table(
            plain_split(header@),
            seq_views(lines@).take(0),
            enable_city,
        ));
    }
    while li < lines.len()
        invariant
            seq_views(names@) == plain_split(header@),
            li <= lines@.len(),
            m@.map_values(|c: CityInfo| c@) == city_table(
                plain_split(header@),
                seq_views(lines@).take(li as int),
                enable_city,
            ),
        decreases lines@.len() - li,
    {
        broadcast use vstd::std_specs::hash::group_hash_axioms;

        let ghost pre = m@.map_values(|c: CityInfo| c@);
        let values = split_column_values(lines[li].as_str());
        let (ido, info) = city_row(&names, &values, enable_city);
        proof {
            assert(seq_views(lines@).take(li as int + 1).drop_last() =~= seq_views(lines@).take(
                li as int,
            ));
            assert(seq_views(lines@).take(li as int + 1).last() == lines@[li as int]@);
        }
        match ido {
            Some(id) => {
                m.insert(id, info);
                proof {
                    assert(m@.map_values(|c: CityInfo| c@) =~= pre.insert(id, info@));
                }
            },
            None => {},
        }
        li = li + 1;
    }
    proof {
        assert(seq_views(lines@).take(lines@.len() as int) =~= seq_views(lines@));
    }
    m
}



// ---------------------------------------------------------------------------
// The per-build map from a literal network string to its record. The key
// is the CIDR text exactly as the block file carries it — unparsed at
// this stage. Backed by a vector of entries so the build's insertion
// order is kept; an insert under a present key replaces that entry in
// place.
// ---------------------------------------------------------------------------
pub struct NetworkTable {
    pub entries: Vec<(String, GeoIpInfo)>,
}

/// The views of a table's entries, in order.
pub open spec fn entry_views(es: Seq<(String, GeoIpInfo)>) -> Seq<(Seq<char>, GeoIpInfoV)> {
    es.map_values(|e: (String, GeoIpInfo)| (e.0@, e.1@))
}

/// Index of the first entry keyed `key` at or after `i`, or -1.
pub open spec fn find_key_from(es: Seq<(Seq<char>, GeoIpInfoV)>, key: Seq<char>, i: int) -> int
    decreases es.len() - i,
{
    if i < 0 || i >= es.len() {
        -1
    } else if es[i].0 == key {
        i
    } else {
        find_key_from(es, key, i + 1)
    }
}

pub open spec fn find_key(es: Seq<(Seq<char>, GeoIpInfoV)>, key: Seq<char>) -> int {
    find_key_from(es, key, 0)
}

/// Insert-or-replace on the entry list.
pub open spec fn entries_insert(
    es: Seq<(Seq<char>, GeoIpInfoV)>,
    key: Seq<char>,
    value: GeoIpInfoV,
) -> Seq<(Seq<char>, GeoIpInfoV)> {
    let i = find_key(es, key);
    if i >= 0 {
        es.update(i, (key, value))
    } else {
        es.push((key, value))
    }
}

pub open spec fn entry_keys(es: Seq<(Seq<char>, GeoIpInfoV)>) -> Seq<Seq<char>> {
    es.map_values(|e: (Seq<char>, GeoIpInfoV)| e.0)
}

pub proof fn lemma_find_key_from_bounds(es: Seq<(Seq<char>, GeoIpInfoV)>, key: Seq<char>, i: int)
    requires
        0 <= i <= es.len(),
    ensures
        find_key_from(es, key, i) == -1 || i <= find_key_from(es, key, i) < es.len(),
        find_key_from(es, key, i) >= 0 ==> es[find_key_from(es, key, i)].0 == key,
    decreases es.len() - i,
{
    if i < es.len() && es[i].0 != key {
        lemma_find_key_from_bounds(es, key, i + 1);
    }
}

impl View for NetworkTable {
    type V = Seq<(Seq<char>, GeoIpInfoV)>;

    open spec fn view(&self) -> Seq<(Seq<char>, GeoIpInfoV)> {
        entry_views(self.entries@)
    }
}

impl NetworkTable {
    pub fn new() -> (r: Self)
        ensures
            r@ == Seq::<(Seq<char>, GeoIpInfoV)>::empty(),
    {
        let r = NetworkTable { entries: Vec::new() };
        proof {
            assert(r@ =~= Seq::<(Seq<char>, GeoIpInfoV)>::empty());
        }
        r
    }

    pub fn len(&self) -> (r: usize)
        ensures
            r == self@.len(),
    {
        self.entries.len()
    }

    /// Index of the entry keyed `key`, if one is present.
    fn find_idx(&self, key: &str) -> (r: Option<usize>)
        ensures
            r matches Some(i) ==> find_key(self@, key@) == i && i < self@.len(),
            r is None ==> find_key(self@, key@) == -1,
    {
        let n = self.entries.len();
        let ghost es = self@;
        let mut i: usize = 0;
        loop
            invariant_except_break
                find_key(es, key@) == find_key_from(es, key@, i as int),
            invariant
                es == self@,
                n == es.len(),
                i <= n,
            ensures
                (i < n && find_key(es, key@) == i) || (i == n && find_key(es, key@) == -1),
            decreases n - i,
        {
            if i == n {
                break ;
            }
            proof {
                assert(es[i as int] == (self.entries@[i as int].0@, self.entries@[i as int].1@));
            }
            if str_eq(self.entries[i].0.as_str(), key) {
                break ;
            }
            i = i + 1;
        }
        if i == n {
            None
        } else {
            Some(i)
        }
    }

    /// Inserts a record under a literal network string, replacing any
    /// present entry with that key in place.
    pub fn insert(&mut self, key: String, value: GeoIpInfo)
        ensures
            final(self)@ == entries_insert(old(self)@, key@, value@),
    {
        let ghost es = self@;
        let ghost kv = key@;
        let ghost rv = value@;
        match self.find_idx(key.as_str()) {
            Some(i) => {
                self.entries.set(i, (key, value));
                proof {
                    assert(self@ =~= es.update(find_key(es, kv), (kv, rv)));
                }
            },
            None => {
                self.entries.push((key, value));
                proof {
                    assert(self@ =~= es.push((kv, rv)));
                }
            },
        }
    }

    /// Writes the autonomous-system number and organization into the
    /// record keyed `key`, if one is present. A key with no record is
    /// dropped: it never creates one.
    pub fn set_asn(&mut self, key: &str, asn: u32, isp: LogString)
        ensures
            find_key(old(self)@, key@) == -1 ==> final(self)@ == old(self)@,
            find_key(old(self)@, key@) >= 0 ==> final(self)@ == old(self)@.update(
                find_key(old(self)@, key@),
                (
                    old(self)@[find_key(old(self)@, key@)].0,
                    (GeoIpInfoV {
                        asn: asn,
                        isp: isp@,
                        ..old(self)@[find_key(old(self)@, key@)].1
                    }),
                ),
            ),
    {
        let ghost es = self@;
        match self.find_idx(key) {
            Some(i) => {
                proof {
                    lemma_find_key_from_bounds(es, key@, 0);
                    assert(es[i as int] == (
                        self.entries@[i as int].0@,
                        self.entries@[i as int].1@,
                    ));
                }
                let k2 = self.entries[i].0.clone();
                let cur = self.entries[i].1.clone();
                let updated = GeoIpInfo {
                    asn: asn,
                    isp: isp,
                    city: cur.city,
                    country: cur.country,
                    country_iso: cur.country_iso,
                    latitude: cur.latitude,
                    longitude: cur.longitude,
                };
                self.entries.set(i, (k2, updated));
                proof {
                    assert(self@ =~= es.update(
                        i as int,
                        (es[i as int].0, (GeoIpInfoV { asn: asn, isp: isp@, ..es[i as int].1 })),
                    ));
                }
            },
            None => {},
        }
    }
}


// ---------------------------------------------------------------------------
// The block passes. A city-block row resolves its geoname ids against
// the two reference maps — a missing id is not an error, it simply
// leaves fields empty — and files the record under the row's literal
// network string. The ASN pass then writes number and organization into
// records that already exist; a network with no geo record is dropped.
// ---------------------------------------------------------------------------
/// The id a block row's column denotes: an unreadable value falls back
/// to zero, which the reference tables never resolve specially — a
/// lookup miss, scoped to this row.
pub open spec fn block_id_of(value: Seq<char>) -> u32 {
    if parses_as_uint(value, u32::MAX as int) {
        uint_of(value) as u32
    } else {
        0
    }
}

/// One column's effect on a city-block record. The city lookup always
/// overwrites the city name; the country is filled only while still
/// empty — first the city row's country, then the registered country —
/// and the ISO code only from the registered country, only while still
/// empty. The latitude column is carried as raw text. No column fills
/// `longitude`: the matcher tests the `network` name where the vendor
/// schema has a `longitude` column, a discrepancy kept visible here.
pub open spec fn city_block_row_step(
    name: Seq<char>,
    value: Seq<char>,
    city: Map<u32, CityInfoV>,
    country: Map<u32, CountryInfoV>,
    acc: GeoIpInfoV,
) -> GeoIpInfoV {
    if name == "geoname_id"@ {
        let id = block_id_of(value);
        if city.contains_key(id) {
            let ci = city[id];
            let acc2 = GeoIpInfoV { city: ci.city_name, ..acc };
            if acc2.country.len() == 0 && ci.country_name.len() > 0 {
                GeoIpInfoV { country: ci.country_name, ..acc2 }
            } else {
                acc2
            }
        } else {
            acc
        }
    } else if name == "registered_country_geoname_id"@ {
        let id = block_id_of(value);
        if country.contains_key(id) {
            let co = country[id];
            let acc2 = if acc.country.len() == 0 && co.country_name.len() > 0 {
                GeoIpInfoV { country: co.country_name, ..acc }
            } else {
                acc
            };
            if acc2.country_iso.len() == 0 && co.country_iso_code.len() > 0 {
                GeoIpInfoV { country_iso: co.country_iso_code, ..acc2 }
            } else {
                acc2
            }
        } else {
            acc
        }
    } else if name == "latitude"@ {
        GeoIpInfoV { latitude: value, ..acc }
    } else {
        acc
    }
}

pub open spec fn city_block_row_fold(
    names: Seq<Seq<char>>,
    values: Seq<Seq<char>>,
    city: Map<u32, CityInfoV>,
    country: Map<u32, CountryInfoV>,
    i: int,
    acc: GeoIpInfoV,
) -> GeoIpInfoV
    decreases min_len(names, values) - i,
{
    if 0 <= i < min_len(names, values) {
        city_block_row_fold(
            names,
            values,
            city,
            country,
            i + 1,
            city_block_row_step(names[i], values[i], city, country, acc),
        )
    } else {
        acc
    }
}

/// The literal network string a row files itself under: the last
/// `network` column, or empty when the row has none.
pub open spec fn network_fold(
    names: Seq<Seq<char>>,
    values: Seq<Seq<char>>,
    i: int,
    acc: Seq<char>,
) -> Seq<char>
    decreases min_len(names, values) - i,
{
    if 0 <= i < min_len(names, values) {
        let acc2 = if names[i] == "network"@ {
            values[i]
        } else {
            acc
        };
        network_fold(names, values, i + 1, acc2)
    } else {
        acc
    }
}

/// The table built by one city-block pass over `lines`, starting from
/// `es`.
pub open spec fn city_block_table(
    names: Seq<Seq<char>>,
    lines: Seq<Seq<char>>,
    city: Map<u32, CityInfoV>,
    country: Map<u32, CountryInfoV>,
    es: Seq<(Seq<char>, GeoIpInfoV)>,
) -> Seq<(Seq<char>, GeoIpInfoV)>
    decreases lines.len(),
{
    if lines.len() == 0 {
        es
    } else {
        let prev = city_block_table(names, lines.drop_last(), city, country, es);
        let vals = csv_split(lines.last());
        entries_insert(
            prev,
            network_fold(names, vals, 0, Seq::empty()),
            city_block_row_fold(names, vals, city, country, 0, empty_geo_v()),
        )
    }
}

/// The autonomous-system number a row carries: the last matching column,
/// an unreadable value falling back to zero.
pub open spec fn asn_num_fold(
    names: Seq<Seq<char>>,
    values: Seq<Seq<char>>,
    i: int,
    acc: u32,
) -> u32
    decreases min_len(names, values) - i,
{
    if 0 <= i < min_len(names, values) {
        let acc2 = if names[i] == "autonomous_system_number"@ {
            block_id_of(values[i])
        } else {
            acc
        };
        asn_num_fold(names, values, i + 1, acc2)
    } else {
        acc
    }
}

/// The organization name a row carries.
pub open spec fn asn_org_fold(
    names: Seq<Seq<char>>,
    values: Seq<Seq<char>>,
    i: int,
    acc: Seq<char>,
) -> Seq<char>
    decreases min_len(names, values) - i,
{
    if 0 <= i < min_len(names, values) {
        let acc2 = if names[i] == "autonomous_system_organization"@ {
            values[i]
        } else {
            acc
        };
        asn_org_fold(names, values, i + 1, acc2)
    } else {
        acc
    }
}

/// The table after one ASN pass over `lines`: number and organization
/// written into the records whose network string already has an entry;
/// every other row dropped.
pub open spec fn asn_table(
    names: Seq<Seq<char>>,
    lines: Seq<Seq<char>>,
    es: Seq<(Seq<char>, GeoIpInfoV)>,
) -> Seq<(Seq<char>, GeoIpInfoV)>
    decreases lines.len(),
{
    if lines.len() == 0 {
        es
    } else {
        let prev = asn_table(names, lines.drop_last(), es);
        let vals = csv_split(lines.last());
        let net = network_fold(names, vals, 0, Seq::empty());
        let j = find_key(prev, net);
        if j >= 0 {
            prev.update(
                j,
                (
                    prev[j].0,
                    (GeoIpInfoV {
                        asn: asn_num_fold(names, vals, 0, 0),
                        isp: asn_org_fold(names, vals, 0, Seq::empty()),
                        ..prev[j].1
                    }),
                ),
            )
        } else {
            prev
        }
    }
}

/// Reads one city-block row: the literal network string it files under,
/// and the record joined from the reference maps.
#[verifier::rlimit(60)]
fn city_block_row(
    names: &Vec<String>,
    values: &Vec<String>,
    geo_city: &HashMap<u32, CityInfo>,
    geo_country: &HashMap<u32, CountryInfo>,
) -> (r: (String, GeoIpInfo))
    ensures
        r.0@ == network_fold(seq_views(names@), seq_views(values@), 0, Seq::empty()),
        r.1@ == city_block_row_fold(
            seq_views(names@),
            seq_views(values@),
            geo_city@.map_values(|c: CityInfo| c@),
            geo_country@.map_values(|c: CountryInfo| c@),
            0,
            empty_geo_v(),
        ),
{
    broadcast use vstd::std_specs::hash::group_hash_axioms;

    let ghost nv = seq_views(names@);
    let ghost vv = seq_views(values@);
    let ghost cityv = geo_city@.map_values(|c: CityInfo| c@);
    let ghost countryv = geo_country@.map_values(|c: CountryInfo| c@);
    let n = if names.len() <= values.len() {
        names.len()
    } else {
        values.len()
    };
    let mut network = String::new();
    let mut info = GeoIpInfo::default();
    let mut i: usize = 0;
    while i < n
        invariant
            nv == seq_views(names@),
            vv == seq_views(values@),
            cityv == geo_city@.map_values(|c: CityInfo| c@),
            countryv == geo_country@.map_values(|c: CountryInfo| c@),
            n == min_len(nv, vv),
            n <= names@.len(),
            n <= values@.len(),
            i <= n,
            network_fold(nv, vv, 0, Seq::empty()) == network_fold(nv, vv, i as int, network@),
            city_block_row_fold(nv, vv, cityv, countryv, 0, empty_geo_v())
                == city_block_row_fold(nv, vv, cityv, countryv, i as int, info@),
        decreases n - i,
    {
        broadcast use vstd::std_specs::hash::group_hash_axioms;

        let name = names[i].as_str();
        let value = values[i].as_str();
        let ghost pre_info = info@;
        let ghost pre_net = network@;
        proof {
            assert(nv[i as int] == names@[i as int]@);
            assert(vv[i as int] == values@[i as int]@);
        }
        if str_eq(name, "network") {
            network = value.to_owned();
        } else if str_eq(name, "geoname_id") {
            let id = parse_u32_or_zero(value);
            match geo_city.get(&id) {
                Some(ci) => {
                    proof {
                        assert(cityv.contains_key(id));
                        assert(cityv[id] == ci@);
                    }
                    info.city = ci.city_name.clone();
                    if info.country.is_empty() && !ci.country_name.is_empty() {
                        info.country = ci.country_name.clone();
                    }
                },
                None => {
                    proof {
                        assert(!cityv.contains_key(id));
                    }
                },
            }
        } else if str_eq(name, "registered_country_geoname_id") {
            let id = parse_u32_or_zero(value);
            match geo_country.get(&id) {
                Some(co) => {
                    proof {
                        assert(countryv.contains_key(id));
                        assert(countryv[id] == co@);
                    }
                    if info.country.is_empty() && !co.country_name.is_empty() {
                        info.country = co.country_name.clone();
                    }
                    if info.country_iso.is_empty() && !co.country_iso_code.is_empty() {
                        info.country_iso = co.country_iso_code.clone();
                    }
                },
                None => {
                    proof {
                        assert(!countryv.contains_key(id));
                    }
                },
            }
        } else if str_eq(name, "latitude") {
            info.latitude = value.to_owned();
        }
        proof {
            // the step functions tell the column names apart by text
            reveal_strlit("network");
            reveal_strlit("geoname_id");
            reveal_strlit("registered_country_geoname_id");
            reveal_strlit("latitude");
            assert("network"@.len() == 7);
            assert("geoname_id"@.len() == 10);
            assert("registered_country_geoname_id"@.len() == 29);
            assert("latitude"@.len() == 8);
            assert(info@ =~= city_block_row_step(nv[i as int], vv[i as int], cityv, countryv,
                pre_info));
            assert(network@ == (if nv[i as int] == "network"@ {
                vv[i as int]
            } else {
                pre_net
            }));
            assert(city_block_row_fold(nv, vv, cityv, countryv, i as int, pre_info)
                == city_block_row_fold(nv, vv, cityv, countryv, i as int + 1, info@));
            assert(network_fold(nv, vv, i as int, pre_net) == network_fold(
                nv,
                vv,
                i as int + 1,
                network@,
            ));
        }
        i = i + 1;
    }
    (network, info)
}

/// Reads one ASN-block row: the network string, the number and the
/// canonicalized organization name.
fn asn_row(names: &Vec<String>, values: &Vec<String>) -> (r: (String, u32, LogString))
    ensures
        r.0@ == network_fold(seq_views(names@), seq_views(values@), 0, Seq::empty()),
        r.1 == asn_num_fold(seq_views(names@), seq_views(values@), 0, 0),
        r.2@ == asn_org_fold(seq_views(names@), seq_views(values@), 0, Seq::empty()),
{
    let ghost nv = seq_views(names@);
    let ghost vv = seq_views(values@);
    let n = if names.len() <= values.len() {
        names.len()
    } else {
        values.len()
    };
    let mut network = String::new();
    let mut num: u32 = 0;
    let mut org = LogString::Borrowed("");
    proof {
        reveal_strlit("");
        assert(org@ =~= Seq::<char>::empty());
    }
    let mut i: usize = 0;
    while i < n
        invariant
            nv == seq_views(names@),
            vv == seq_views(values@),
            n == min_len(nv, vv),
            n <= names@.len(),
            n <= values@.len(),
            i <= n,
            network_fold(nv, vv, 0, Seq::empty()) == network_fold(nv, vv, i as int, network@),
            asn_num_fold(nv, vv, 0, 0) == asn_num_fold(nv, vv, i as int, num),
            asn_org_fold(nv, vv, 0, Seq::empty()) == asn_org_fold(nv, vv, i as int, org@),
        decreases n - i,
    {
        let name = names[i].as_str();
        let value = values[i].as_str();
        let ghost pre_net = network@;
        let ghost pre_num = num;
        let ghost pre_org = org@;
        proof {
            assert(nv[i as int] == names@[i as int]@);
            assert(vv[i as int] == values@[i as int]@);
        }
        if str_eq(name, "autonomous_system_number") {
            num = parse_u32_or_zero(value);
        } else if str_eq(name, "autonomous_system_organization") {
            org = static_principal_asns(value);
        } else if str_eq(name, "network") {
            network = value.to_owned();
        }
        proof {
            reveal_strlit("network");
            reveal_strlit("autonomous_system_number");
            reveal_strlit("autonomous_system_organization");
            assert("network"@.len() == 7);
            assert("autonomous_system_number"@.len() == 24);
            assert("autonomous_system_organization"@.len() == 30);
            assert(network_fold(nv, vv, i as int, pre_net) == network_fold(
                nv,
                vv,
                i as int + 1,
                network@,
            ));
            assert(asn_num_fold(nv, vv, i as int, pre_num) == asn_num_fold(
                nv,
                vv,
                i as int + 1,
                num,
            ));
            assert(asn_org_fold(nv, vv, i as int, pre_org) == asn_org_fold(
                nv,
                vv,
                i as int + 1,
                org@,
            ));
        }
        i = i + 1;
    }
    (network, num, org)
}

/// Streams the city-block lines into a fresh table keyed by each row's
/// literal network string, resolving geoname ids against the two
/// reference maps with the fill-if-empty precedence of the row step.
pub fn process_maxmind_geo_lite2_city_block_csv(
    header: &str,
    lines: &Vec<String>,
    geo_city: &HashMap<u32, CityInfo>,
    geo_country: &HashMap<u32, CountryInfo>,
) -> (nt: NetworkTable)
    ensures
        nt@ == city_block_table(
            plain_split(header@),
            seq_views(lines@),
            geo_city@.map_values(|c: CityInfo| c@),
            geo_country@.map_values(|c: CountryInfo| c@),
            Seq::empty(),
        ),
{
    let ghost cityv = geo_city@.map_values(|c: CityInfo| c@);
    let ghost countryv = geo_country@.map_values(|c: CountryInfo| c@);
    let names = split_plain(header);
    let mut nt = NetworkTable::new();
    let mut li: usize = 0;
    proof {
        assert(seq_views(lines@).take(0) =~= Seq::<Seq<char>>::empty());
    }
    while li < lines.len()
        invariant
            seq_views(names@) == plain_split(header@),
            cityv == geo_city@.map_values(|c: CityInfo| c@),
            countryv == geo_country@.map_values(|c: CountryInfo| c@),
            li <= lines@.len(),
            nt@ == city_block_table(
                plain_split(header@),
                seq_views(lines@).take(li as int),
                cityv,
                countryv,
                Seq::empty(),
            ),
        decreases lines@.len() - li,
    {
        let values = split_column_values(lines[li].as_str());
        let (network, info) = city_block_row(&names, &values, geo_city, geo_country);
        proof {
            assert(seq_views(lines@).take(li as int + 1).drop_last() =~= seq_views(lines@).take(
                li as int,
            ));
            assert(seq_views(lines@).take(li as int + 1).last() == lines@[li as int]@);
        }
        nt.insert(network, info);
        li = li + 1;
    }
    proof {
        assert(seq_views(lines@).take(lines@.len() as int) =~= seq_views(lines@));
    }
    nt
}

/// Streams the ASN-block lines over an existing table, writing number
/// and organization into records already present. A row whose network
/// string has no record changes nothing — enrichment is additive only.
pub fn process_maxmind_geo_lite2_asn_block_csv(
    header: &str,
    lines: &Vec<String>,
    networks: &mut NetworkTable,
)
    ensures
        final(networks)@ == asn_table(plain_split(header@), seq_views(lines@), old(networks)@),
{
    let ghost es0 = networks@;
    let names = split_plain(header);
    let mut li: usize = 0;
    proof {
        assert(seq_views(lines@).take(0) =~= Seq::<Seq<char>>::empty());
    }
    while li < lines.len()
        invariant
            seq_views(names@) == plain_split(header@),
            li <= lines@.len(),
            networks@ == asn_table(plain_split(header@), seq_views(lines@).take(li as int), es0),
        decreases lines@.len() - li,
    {
        let values = split_column_values(lines[li].as_str());
        let (network, num, org) = asn_row(&names, &values);
        let ghost names_v = plain_split(header@);
        let ghost vals_v = seq_views(values@);
        let ghost orgv = org@;
        let ghost netv = network@;
        let ghost pre_table = networks@;
        proof {
            assert(seq_views(lines@).take(li as int + 1).drop_last() =~= seq_views(lines@).take(
                li as int,
            ));
            assert(seq_views(lines@).take(li as int + 1).last() == lines@[li as int]@);
        }
        networks.set_asn(network.as_str(), num, org);
        proof {
            assert(vals_v == csv_split(seq_views(lines@).take(li as int + 1).last()));
            assert(netv == network_fold(names_v, vals_v, 0, Seq::empty()));
            assert(num == asn_num_fold(names_v, vals_v, 0, 0));
            assert(orgv == asn_org_fold(names_v, vals_v, 0, Seq::empty()));
            let j = find_key(pre_table, netv);
            lemma_find_key_from_bounds(pre_table, netv, 0);
            if j >= 0 {
                assert(networks@ == pre_table.update(
                    j,
                    (pre_table[j].0, (GeoIpInfoV { asn: num, isp: orgv, ..pre_table[j].1 })),
                ));
            } else {
                assert(networks@ == pre_table);
            }
            assert(networks@ =~= asn_table(
                plain_split(header@),
                seq_views(lines@).take(li as int + 1),
                es0,
            ));
        }
        li = li + 1;
    }
    proof {
        assert(seq_views(lines@).take(lines@.len() as int) =~= seq_views(lines@));
    }
}


// ---------------------------------------------------------------------------
// The full build: join the reference tables, run the block and ASN
// passes for each address family, then parse every network string into
// a family-tagged prefix. A string that fails to parse, or whose prefix
// length exceeds its family's bit width, discards that record.
// ---------------------------------------------------------------------------
/// The records of a table whose keys read as v4 network strings, in
/// table order; unparsable keys are dropped.
pub open spec fn v4_records(es: Seq<(Seq<char>, GeoIpInfoV)>) -> Seq<(NetworkPrefix, GeoIpInfoV)>
    decreases es.len(),
{
    if es.len() == 0 {
        Seq::empty()
    } else {
        let prev = v4_records(es.drop_last());
        let e = es.last();
        if ip4_net_valid(e.0) {
            prev.push(
                (
                    NetworkPrefix::V4 {
                        addr: ip4_net_addr(e.0) as u32,
                        prefix: ip4_net_len(e.0) as u8,
                    },
                    e.1,
                ),
            )
        } else {
            prev
        }
    }
}

/// The records of a table whose keys read as v6 network strings.
pub open spec fn v6_records(es: Seq<(Seq<char>, GeoIpInfoV)>) -> Seq<(NetworkPrefix, GeoIpInfoV)>
    decreases es.len(),
{
    if es.len() == 0 {
        Seq::empty()
    } else {
        let prev = v6_records(es.drop_last());
        let e = es.last();
        if ip6_net_valid(e.0) {
            prev.push(
                (
                    NetworkPrefix::V6 {
                        addr: ip6_net_addr(e.0) as u128,
                        prefix: ip6_net_len(e.0) as u8,
                    },
                    e.1,
                ),
            )
        } else {
            prev
        }
    }
}

/// The views of a batch of parsed records.
pub open spec fn record_views(rs: Seq<(NetworkPrefix, GeoIpInfo)>) -> Seq<
    (NetworkPrefix, GeoIpInfoV),
> {
    rs.map_values(|r: (NetworkPrefix, GeoIpInfo)| (r.0, r.1@))
}

/// The dataset one build produces from the six files' contents.
pub open spec fn geo_dataset_records(
    country_header: Seq<char>,
    country_lines: Seq<Seq<char>>,
    city_header: Seq<char>,
    city_lines: Seq<Seq<char>>,
    block4_header: Seq<char>,
    block4_lines: Seq<Seq<char>>,
    block6_header: Seq<char>,
    block6_lines: Seq<Seq<char>>,
    asn4_header: Seq<char>,
    asn4_lines: Seq<Seq<char>>,
    asn6_header: Seq<char>,
    asn6_lines: Seq<Seq<char>>,
    enable_city: bool,
) -> Seq<(NetworkPrefix, GeoIpInfoV)> {
    let countries = country_table(plain_split(country_header), country_lines);
    let cities = city_table(plain_split(city_header), city_lines, enable_city);
    let t4 = asn_table(
        plain_split(asn4_header),
        asn4_lines,
        city_block_table(plain_split(block4_header), block4_lines, cities, countries, Seq::empty()),
    );
    let t6 = asn_table(
        plain_split(asn6_header),
        asn6_lines,
        city_block_table(plain_split(block6_header), block6_lines, cities, countries, Seq::empty()),
    );
    v4_records(t4) + v6_records(t6)
}

/// Every parsed record carries a well-formed prefix: the parsers bound
/// each length by its family's bit width.
pub proof fn lemma_v4_records_wf(es: Seq<(Seq<char>, GeoIpInfoV)>)
    ensures
        forall|i: int| 0 <= i < v4_records(es).len() ==> (#[trigger] v4_records(es)[i]).0.wf(),
    decreases es.len(),
{
    if es.len() > 0 {
        lemma_v4_records_wf(es.drop_last());
        let e = es.last();
        if ip4_net_valid(e.0) {
            lemma_dec_value_nonneg(uint_digits(e.0.skip(crate::common::slash_idx(e.0) + 1)));
            assert(0 <= ip4_net_len(e.0) <= 32);
            let rec = (
                NetworkPrefix::V4 {
                    addr: ip4_net_addr(e.0) as u32,
                    prefix: ip4_net_len(e.0) as u8,
                },
                e.1,
            );
            assert(rec.0.wf());
            assert(v4_records(es) == v4_records(es.drop_last()).push(rec));
            assert forall|i: int| 0 <= i < v4_records(es).len() implies (#[trigger] v4_records(
                es,
            )[i]).0.wf() by {
                if i < v4_records(es).len() - 1 {
                    assert(v4_records(es)[i] == v4_records(es.drop_last())[i]);
                } else {
                    assert(v4_records(es)[i] == rec);
                }
            }
        } else {
            assert(v4_records(es) == v4_records(es.drop_last()));
        }
    }
}

pub proof fn lemma_v6_records_wf(es: Seq<(Seq<char>, GeoIpInfoV)>)
    ensures
        forall|i: int| 0 <= i < v6_records(es).len() ==> (#[trigger] v6_records(es)[i]).0.wf(),
    decreases es.len(),
{
    if es.len() > 0 {
        lemma_v6_records_wf(es.drop_last());
        let e = es.last();
        if ip6_net_valid(e.0) {
            lemma_dec_value_nonneg(uint_digits(e.0.skip(crate::common::slash_idx(e.0) + 1)));
            assert(0 <= ip6_net_len(e.0) <= 128);
            let rec = (
                NetworkPrefix::V6 {
                    addr: ip6_net_addr(e.0) as u128,
                    prefix: ip6_net_len(e.0) as u8,
                },
                e.1,
            );
            assert(rec.0.wf());
            assert(v6_records(es) == v6_records(es.drop_last()).push(rec));
            assert forall|i: int| 0 <= i < v6_records(es).len() implies (#[trigger] v6_records(
                es,
            )[i]).0.wf() by {
                if i < v6_records(es).len() - 1 {
                    assert(v6_records(es)[i] == v6_records(es.drop_last())[i]);
                } else {
                    assert(v6_records(es)[i] == rec);
                }
            }
        } else {
            assert(v6_records(es) == v6_records(es.drop_last()));
        }
    }
}

/// Appends the v4-parsable records of a table.
fn append_v4_records(nt: &NetworkTable, out: &mut Vec<(NetworkPrefix, GeoIpInfo)>)
    ensures
        record_views(final(out)@) == record_views(old(out)@) + v4_records(nt@),
{
    let ghost es = nt@;
    let ghost base = record_views(out@);
    let n = nt.entries.len();
    let mut i: usize = 0;
    proof {
        assert(es.take(0) =~= Seq::<(Seq<char>, GeoIpInfoV)>::empty());
        assert(base + v4_records(es.take(0)) =~= base);
    }
    while i < n
        invariant
            es == nt@,
            n == es.len(),
            i <= n,
            record_views(out@) == base + v4_records(es.take(i as int)),
        decreases n - i,
    {
        let ghost pre = record_views(out@);
        proof {
            assert(es[i as int] == (nt.entries@[i as int].0@, nt.entries@[i as int].1@));
            assert(es.take(i as int + 1).drop_last() =~= es.take(i as int));
            assert(es.take(i as int + 1).last() == es[i as int]);
        }
        match parse_ip4_network(nt.entries[i].0.as_str()) {
            Some((addr, prefix)) => {
                out.push((NetworkPrefix::V4 { addr, prefix }, nt.entries[i].1.clone()));
                proof {
                    assert(record_views(out@) =~= pre.push(
                        (
                            NetworkPrefix::V4 {
                                addr: ip4_net_addr(es[i as int].0) as u32,
                                prefix: ip4_net_len(es[i as int].0) as u8,
                            },
                            es[i as int].1,
                        ),
                    ));
                    assert(base + v4_records(es.take(i as int + 1)) =~= record_views(out@));
                }
            },
            None => {},
        }
        i = i + 1;
    }
    proof {
        assert(es.take(n as int) =~= es);
    }
}

/// Appends the v6-parsable records of a table.
fn append_v6_records(nt: &NetworkTable, out: &mut Vec<(NetworkPrefix, GeoIpInfo)>)
    ensures
        record_views(final(out)@) == record_views(old(out)@) + v6_records(nt@),
{
    let ghost es = nt@;
    let ghost base = record_views(out@);
    let n = nt.entries.len();
    let mut i: usize = 0;
    proof {
        assert(es.take(0) =~= Seq::<(Seq<char>, GeoIpInfoV)>::empty());
        assert(base + v6_records(es.take(0)) =~= base);
    }
    while i < n
        invariant
            es == nt@,
            n == es.len(),
            i <= n,
            record_views(out@) == base + v6_records(es.take(i as int)),
        decreases n - i,
    {
        let ghost pre = record_views(out@);
        proof {
            assert(es[i as int] == (nt.entries@[i as int].0@, nt.entries@[i as int].1@));
            assert(es.take(i as int + 1).drop_last() =~= es.take(i as int));
            assert(es.take(i as int + 1).last() == es[i as int]);
        }
        match parse_ip6_network(nt.entries[i].0.as_str()) {
            Some((addr, prefix)) => {
                out.push((NetworkPrefix::V6 { addr, prefix }, nt.entries[i].1.clone()));
                proof {
                    assert(record_views(out@) =~= pre.push(
                        (
                            NetworkPrefix::V6 {
                                addr: ip6_net_addr(es[i as int].0) as u128,
                                prefix: ip6_net_len(es[i as int].0) as u8,
                            },
                            es[i as int].1,
                        ),
                    ));
                    assert(base + v6_records(es.take(i as int + 1)) =~= record_views(out@));
                }
            },
            None => {},
        }
        i = i + 1;
    }
    proof {
        assert(es.take(n as int) =~= es);
    }
}

/// Runs one whole build over the six files' lines: joins the reference
/// tables, assembles the per-family network tables, merges the ASN
/// blocks, and parses every network string into a family-tagged prefix.
/// The result is the batch the caller hands to its store as one full
/// replacement; every prefix in it is well-formed.
pub fn process_maxmind_geo_lite2_csv(
    country_header: &str,
    country_lines: &Vec<String>,
    city_header: &str,
    city_lines: &Vec<String>,
    block4_header: &str,
    block4_lines: &Vec<String>,
    block6_header: &str,
    block6_lines: &Vec<String>,
    asn4_header: &str,
    asn4_lines: &Vec<String>,
    asn6_header: &str,
    asn6_lines: &Vec<String>,
    enable_city: bool,
) -> (r: Vec<(NetworkPrefix, GeoIpInfo)>)
    ensures
        record_views(r@) == geo_dataset_records(
            country_header@,
            seq_views(country_lines@),
            city_header@,
            seq_views(city_lines@),
            block4_header@,
            seq_views(block4_lines@),
            block6_header@,
            seq_views(block6_lines@),
            asn4_header@,
            seq_views(asn4_lines@),
            asn6_header@,
            seq_views(asn6_lines@),
            enable_city,
        ),
        forall|i: int| 0 <= i < r@.len() ==> (#[trigger] r@[i].0).wf(),
{
    let geonames_country = process_maxmind_geo_lite2_country_csv(country_header, country_lines);
    let geonames_city = process_maxmind_geo_lite2_city_csv(city_header, city_lines, enable_city);
    let mut networks4 = process_maxmind_geo_lite2_city_block_csv(
        block4_header,
        block4_lines,
        &geonames_city,
        &geonames_country,
    );
    let mut networks6 = process_maxmind_geo_lite2_city_block_csv(
        block6_header,
        block6_lines,
        &geonames_city,
        &geonames_country,
    );
    process_maxmind_geo_lite2_asn_block_csv(asn4_header, asn4_lines, &mut networks4);
    process_maxmind_geo_lite2_asn_block_csv(asn6_header, asn6_lines, &mut networks6);
    let mut records: Vec<(NetworkPrefix, GeoIpInfo)> = Vec::new();
    proof {
        assert(record_views(records@) =~= Seq::<(NetworkPrefix, GeoIpInfoV)>::empty());
    }
    append_v4_records(&networks4, &mut records);
    append_v6_records(&networks6, &mut records);
    proof {
        assert(Seq::<(NetworkPrefix, GeoIpInfoV)>::empty() + v4_records(networks4@) =~= v4_records(
            networks4@,
        ));
        lemma_v4_records_wf(networks4@);
        lemma_v6_records_wf(networks6@);
        assert forall|i: int| 0 <= i < records@.len() implies (#[trigger] records@[i].0).wf() by {
            let n4 = v4_records(networks4@);
            let n6 = v6_records(networks6@);
            assert(record_views(records@) == n4 + n6);
            assert(record_views(records@).len() == records@.len());
            assert(records@.len() == n4.len() + n6.len());
            assert(record_views(records@)[i] == (n4 + n6)[i]);
            if i < n4.len() {
                assert((n4 + n6)[i] == n4[i]);
            } else {
                assert((n4 + n6)[i] == n6[i - n4.len()]);
            }
            assert(record_views(records@)[i].0 == records@[i].0);
        }
    }
    records
}


// ---------------------------------------------------------------------------
// Laws of the join.
// ---------------------------------------------------------------------------
/// ASN enrichment is additive only: an ASN pass never changes which
/// network strings have records, nor how many there are. A row whose
/// network string has no record is dropped — the table's keys after the
/// pass are exactly the keys before it.
pub proof fn lemma_asn_merge_preserves_keys(
    names: Seq<Seq<char>>,
    lines: Seq<Seq<char>>,
    es: Seq<(Seq<char>, GeoIpInfoV)>,
)
    ensures
        asn_table(names, lines, es).len() == es.len(),
        entry_keys(asn_table(names, lines, es)) == entry_keys(es),
    decreases lines.len(),
{
    if lines.len() > 0 {
        lemma_asn_merge_preserves_keys(names, lines.drop_last(), es);
        let prev = asn_table(names, lines.drop_last(), es);
        let vals = csv_split(lines.last());
        let net = network_fold(names, vals, 0, Seq::empty());
        let j = find_key(prev, net);
        lemma_find_key_from_bounds(prev, net, 0);
        if j >= 0 {
            assert(entry_keys(asn_table(names, lines, es)) =~= entry_keys(prev));
        }
    }
}

/// Just the country field's evolution over a block row: the only columns
/// that can touch it are the two geoname lookups, and each fills it only
/// while it is still empty.
pub open spec fn country_after(
    names: Seq<Seq<char>>,
    values: Seq<Seq<char>>,
    city: Map<u32, CityInfoV>,
    country: Map<u32, CountryInfoV>,
    i: int,
    c: Seq<char>,
) -> Seq<char>
    decreases min_len(names, values) - i,
{
    if 0 <= i < min_len(names, values) {
        let c2 = if names[i] == "geoname_id"@ {
            let id = block_id_of(values[i]);
            if city.contains_key(id) && c.len() == 0 && city[id].country_name.len() > 0 {
                city[id].country_name
            } else {
                c
            }
        } else if names[i] == "registered_country_geoname_id"@ {
            let id = block_id_of(values[i]);
            if country.contains_key(id) && c.len() == 0 && country[id].country_name.len() > 0 {
                country[id].country_name
            } else {
                c
            }
        } else {
            c
        };
        country_after(names, values, city, country, i + 1, c2)
    } else {
        c
    }
}

/// The block-row fold's country field follows `country_after`.
proof fn lemma_fold_country_only(
    names: Seq<Seq<char>>,
    values: Seq<Seq<char>>,
    city: Map<u32, CityInfoV>,
    country: Map<u32, CountryInfoV>,
    i: int,
    acc: GeoIpInfoV,
)
    ensures
        city_block_row_fold(names, values, city, country, i, acc).country == country_after(
            names,
            values,
            city,
            country,
            i,
            acc.country,
        ),
    decreases min_len(names, values) - i,
{
    if 0 <= i < min_len(names, values) {
        lemma_fold_country_only(
            names,
            values,
            city,
            country,
            i + 1,
            city_block_row_step(names[i], values[i], city, country, acc),
        );
    }
}

/// Columns that are neither geoname lookup leave the country field alone.
proof fn lemma_country_after_plain(
    names: Seq<Seq<char>>,
    values: Seq<Seq<char>>,
    city: Map<u32, CityInfoV>,
    country: Map<u32, CountryInfoV>,
    i: int,
    j: int,
    c: Seq<char>,
)
    requires
        0 <= i <= j <= min_len(names, values),
        forall|k: int|
            i <= k < j ==> #[trigger] names[k] != "geoname_id"@ && names[k]
                != "registered_country_geoname_id"@,
    ensures
        country_after(names, values, city, country, i, c) == country_after(
            names,
            values,
            city,
            country,
            j,
            c,
        ),
    decreases j - i,
{
    if i < j {
        lemma_country_after_plain(names, values, city, country, i + 1, j, c);
    }
}

/// A nonempty country survives the rest of the row untouched.
proof fn lemma_country_after_frozen(
    names: Seq<Seq<char>>,
    values: Seq<Seq<char>>,
    city: Map<u32, CityInfoV>,
    country: Map<u32, CountryInfoV>,
    i: int,
    c: Seq<char>,
)
    requires
        c.len() > 0,
    ensures
        country_after(names, values, city, country, i, c) == c,
    decreases min_len(names, values) - i,
{
    if 0 <= i < min_len(names, values) {
        lemma_country_after_frozen(names, values, city, country, i + 1, c);
    }
}

/// Join precedence. For a block row whose header carries one city
/// lookup column before one registered-country column, and whose ids
/// both resolve: when the city row's country is empty, the registered
/// country fills the record; when both carry a country, the city-derived
/// one — set first — wins.
pub proof fn lemma_join_precedence(
    names: Seq<Seq<char>>,
    values: Seq<Seq<char>>,
    city: Map<u32, CityInfoV>,
    country: Map<u32, CountryInfoV>,
    a: int,
    b: int,
)
    requires
        0 <= a < b < min_len(names, values),
        names[a] == "geoname_id"@,
        names[b] == "registered_country_geoname_id"@,
        forall|k: int|
            0 <= k < min_len(names, values) && k != a ==> #[trigger] names[k] != "geoname_id"@,
        forall|k: int|
            0 <= k < min_len(names, values) && k != b ==> #[trigger] names[k]
                != "registered_country_geoname_id"@,
        city.contains_key(block_id_of(values[a])),
        country.contains_key(block_id_of(values[b])),
        country[block_id_of(values[b])].country_name.len() > 0,
    ensures
        city[block_id_of(values[a])].country_name.len() == 0 ==> city_block_row_fold(
            names,
            values,
            city,
            country,
            0,
            empty_geo_v(),
        ).country == country[block_id_of(values[b])].country_name,
        city[block_id_of(values[a])].country_name.len() > 0 ==> city_block_row_fold(
            names,
            values,
            city,
            country,
            0,
            empty_geo_v(),
        ).country == city[block_id_of(values[a])].country_name,
{
    let e = Seq::<char>::empty();
    lemma_fold_country_only(names, values, city, country, 0, empty_geo_v());
    lemma_country_after_plain(names, values, city, country, 0, a, e);
    let cc = city[block_id_of(values[a])].country_name;
    let c2 = if cc.len() > 0 {
        cc
    } else {
        e
    };
    assert(country_after(names, values, city, country, a, e) == country_after(
        names,
        values,
        city,
        country,
        a + 1,
        c2,
    ));
    lemma_country_after_plain(names, values, city, country, a + 1, b, c2);
    let rc = country[block_id_of(values[b])].country_name;
    let c3 = if c2.len() == 0 {
        rc
    } else {
        c2
    };
    assert(country_after(names, values, city, country, b, c2) == country_after(
        names,
        values,
        city,
        country,
        b + 1,
        c3,
    ));
    lemma_country_after_frozen(names, values, city, country, b + 1, c3);
}


// ---------------------------------------------------------------------------
// The extraction walk. Vendor archives unpack into a directory that may
// wrap the data files in a single subdirectory, possibly several levels
// deep. The walk descends one level at a time, deciding from the
// level's listing alone.
// ---------------------------------------------------------------------------
/// One directory entry as the walk sees it: its name, and whether it is
/// itself a directory.
pub struct DirEntryInfo {
    pub name: String,
    pub is_dir: bool,
}

/// The decision for one level of the walk. Descend when the level holds
/// exactly one entry and that entry is a subdirectory; stop when the
/// level holds no subdirectory at all; and refuse loudly — an archive
/// failure — when a subdirectory stands beside other entries, rather
/// than silently picking one.
pub fn decide_descend(entries: &Vec<DirEntryInfo>) -> (r: Result<Option<usize>, TempErr>)
    ensures
        (entries@.len() == 1 && entries@[0].is_dir) ==> r == Ok::<Option<usize>, TempErr>(
            Some(0usize),
        ),
        (forall|i: int| 0 <= i < entries@.len() ==> !(#[trigger] entries@[i]).is_dir) ==> r
            == Ok::<Option<usize>, TempErr>(None),
        ((exists|i: int| 0 <= i < entries@.len() && (#[trigger] entries@[i]).is_dir) && !(
        entries@.len() == 1 && entries@[0].is_dir)) ==> r == Err::<Option<usize>, TempErr>(
            TempErr::Archive,
        ),
{
    let n = entries.len();
    if n == 1 && entries[0].is_dir {
        return Ok(Some(0));
    }
    let mut i: usize = 0;
    while i < n
        invariant
            n == entries@.len(),
            i <= n,
            forall|k: int| 0 <= k < i ==> !(#[trigger] entries@[k]).is_dir,
            !(entries@.len() == 1 && entries@[0].is_dir),
        decreases n - i,
    {
        if entries[i].is_dir {
            return Err(TempErr::Archive);
        }
        i = i + 1;
    }
    Ok(None)
}

} // verus!
