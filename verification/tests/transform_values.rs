use hpdp_types::constants::{XacmlDataTypesStrings, STR_INTEGER, STR_STRING, STR_TIME, STR_X_500_NAME};
use hpdp_types::intermediate::{IntermediateAttributeValueType, IntermediateTypes};
use hpdp_types::lexical::{parse_int, split_chars, trim};
use hpdp_types::transform::{
    Transform, TransformDate, TransformDateTime, TransformDayTimeDuration, TransformDnsName, TransformLoadout,
    TransformTime, TransformX500Name, TransformYearMonthDuration,
};
use hpdp_types::xacml_types::{AttributeValueType, AttributeValueWithId};

fn value(data_type: &str, text: &str) -> AttributeValueWithId {
    AttributeValueWithId {
        rule_id: "r1".to_string(),
        id: "subject-id".to_string(),
        att_val: AttributeValueType { data_type: data_type.to_string(), text: Some(text.to_string()) },
    }
}

#[test]
fn transform_time_to_seconds() {
    assert_eq!(TransformTime::transform("01:02:03".to_string()), 3723);
    assert_eq!(TransformTime::transform(" 23 : 59 : 59 ".to_string()), 86399);
    assert_eq!(TransformTime::transform("00:00:00".to_string()), 0);
}

#[test]
fn transform_date_counts_from_year_one() {
    assert_eq!(TransformDate::transform("0001-01-01".to_string()), 0);
    assert_eq!(TransformDate::transform("0001-01-02".to_string()), 86400);
    assert_eq!(TransformDate::transform("2000-01-01".to_string()), 63082281600);
}

#[test]
fn transform_date_time_in_utc() {
    assert_eq!(TransformDateTime::transform("2000-01-01T00:00:00Z".to_string()), 63082281600);
    assert_eq!(TransformDateTime::transform("2000-01-01T01:00:00+01:00".to_string()), 63082281600);
    assert_eq!(TransformDateTime::transform("2000-01-01T00:00:10Z".to_string()), 63082281610);
}

#[test]
fn transform_day_time_duration() {
    assert_eq!(TransformDayTimeDuration::transform("1D02H03M04S".to_string()), 93784);
    assert_eq!(TransformDayTimeDuration::transform("5".to_string()), 432000);
}

#[test]
fn transform_year_month_duration() {
    assert_eq!(TransformYearMonthDuration::transform("P1Y2M".to_string()), 14);
    assert_eq!(TransformYearMonthDuration::transform("-P1Y".to_string()), -12);
    assert_eq!(TransformYearMonthDuration::transform("P3M".to_string()), 3);
    assert_eq!(TransformYearMonthDuration::transform("P".to_string()), 0);
}

#[test]
fn transform_dns_name() {
    assert_eq!(TransformDnsName::transform("123:80-443".to_string()), ("123".to_string(), 80, 443));
    assert_eq!(TransformDnsName::transform("123:".to_string()), ("123".to_string(), 1, 18));
    assert_eq!(TransformDnsName::transform("7:8080".to_string()), ("7".to_string(), 8080, 18));
}

#[test]
fn transform_x500_name_maps_each_attribute_to_itself() {
    let n = TransformX500Name::transform("cn=John,o=Org".to_string());
    assert_eq!(n.entries, vec![("cn".to_string(), "cn".to_string()), ("o".to_string(), "o".to_string())]);
    let n = TransformX500Name::transform("cn=a,cn=b".to_string());
    assert_eq!(n.entries, vec![("cn".to_string(), "cn".to_string())]);
}

#[test]
fn transform_attribute_values_by_data_type() {
    let v = value(STR_INTEGER, "  42 ");
    let r = IntermediateAttributeValueType::transform(&v);
    assert_eq!(r.data_type, STR_INTEGER.to_string());
    assert_eq!(r.att_id, "subject-id".to_string());
    assert_eq!(r.text, IntermediateTypes::Integer(42));

    let v = value(STR_STRING, " alice ");
    assert_eq!(IntermediateAttributeValueType::transform(&v).text, IntermediateTypes::String("alice".to_string()));

    let v = value(STR_TIME, "10:00:00");
    assert_eq!(IntermediateAttributeValueType::transform(&v).text, IntermediateTypes::Time(36000));

    let v = value("http://www.w3.org/2001/XMLSchema#boolean", "True");
    assert_eq!(IntermediateAttributeValueType::transform(&v).text, IntermediateTypes::Boolean(true));
    let v = value("http://www.w3.org/2001/XMLSchema#boolean", "true");
    assert_eq!(IntermediateAttributeValueType::transform(&v).text, IntermediateTypes::Boolean(false));

    let v = value("urn:oasis:names:tc:xacml:1.0:data-type:rfc822Name", "bob@example.com");
    assert_eq!(
        IntermediateAttributeValueType::transform(&v).text,
        IntermediateTypes::Rfc822Name("bob".to_string(), "example.com".to_string())
    );

    let v = value(STR_X_500_NAME, "cn=x");
    match IntermediateAttributeValueType::transform(&v).text {
        IntermediateTypes::X500Name(n) => assert_eq!(n.entries, vec![("cn".to_string(), "cn".to_string())]),
        other => panic!("{:?}", other),
    }
}

#[test]
fn transform_loadout_keeps_keys_and_order() {
    let input = vec![(7u128, value(STR_INTEGER, "1")), (3u128, value(STR_STRING, "x"))];
    let r = TransformLoadout::transform(input);
    assert_eq!(r.len(), 2);
    assert_eq!(r[0].0, 7);
    assert_eq!(r[0].1.text, IntermediateTypes::Integer(1));
    assert_eq!(r[1].0, 3);
    assert_eq!(r[1].1.text, IntermediateTypes::String("x".to_string()));
}

#[test]
fn data_type_identifiers_round_trip() {
    let all = [
        XacmlDataTypesStrings::String,
        XacmlDataTypesStrings::Integer,
        XacmlDataTypesStrings::Double,
        XacmlDataTypesStrings::Boolean,
        XacmlDataTypesStrings::Time,
        XacmlDataTypesStrings::Date,
        XacmlDataTypesStrings::DateTime,
        XacmlDataTypesStrings::DayTimeDuration,
        XacmlDataTypesStrings::YearMonthDuration,
        XacmlDataTypesStrings::AnyUri,
        XacmlDataTypesStrings::HexBinary,
        XacmlDataTypesStrings::Base64Binary,
        XacmlDataTypesStrings::Rfc822Name,
        XacmlDataTypesStrings::X500Name,
        XacmlDataTypesStrings::DnsName,
        XacmlDataTypesStrings::IpAddress,
    ];
    for t in all {
        let s = t.to_string();
        assert_eq!(XacmlDataTypesStrings::from_str(&s), Ok(t));
    }
}

#[test]
fn unknown_data_type_is_reported() {
    let r = XacmlDataTypesStrings::from_str("http://example.com#nothing");
    assert_eq!(r.map_err(|e| e.name), Err("http://example.com#nothing".to_string()));
}

#[test]
fn lexical_trim_and_split() {
    assert_eq!(trim("\t a b \n"), "a b".to_string());
    let cs: Vec<char> = "a,,bc".chars().collect();
    let seps = vec![','];
    assert_eq!(split_chars(&cs, &seps), vec![(0, 1), (2, 2), (3, 5)]);
}

#[test]
fn lexical_parse_int_bounds() {
    let cs: Vec<char> = "-120".chars().collect();
    assert_eq!(parse_int(&cs, 0, 4, true, -1000, 1000), Some(-120));
    assert_eq!(parse_int(&cs, 0, 4, false, 0, 1000), None);
    assert_eq!(parse_int(&cs, 1, 4, false, 0, 100), None);
    assert_eq!(parse_int(&cs, 1, 4, false, 0, 120), Some(120));
    let bad: Vec<char> = "1x".chars().collect();
    assert_eq!(parse_int(&bad, 0, 2, false, 0, 100), None);
}

#[test]
fn trim_agrees_with_std_whitespace_on_every_char() {
    for n in 0u32..=0x10FFFF {
        if let Some(c) = char::from_u32(n) {
            let s = format!("{}x{}", c, c);
            let expected = if c.is_whitespace() { "x".to_string() } else { s.clone() };
            assert_eq!(trim(&s), expected, "code point {:#x}", n);
        }
    }
}

#[test]
fn transform_binary_values_keep_utf8_bytes() {
    let text = "aé€😀";
    let v = value("http://www.w3.org/2001/XMLSchema#base64Binary", text);
    assert_eq!(
        IntermediateAttributeValueType::transform(&v).text,
        IntermediateTypes::Base64Binary(text.as_bytes().to_vec())
    );
    let v = value("http://www.w3.org/2001/XMLSchema#hexBinary", text);
    assert_eq!(
        IntermediateAttributeValueType::transform(&v).text,
        IntermediateTypes::HexBinary(text.as_bytes().to_vec())
    );
}

fn reference_dns(s: &str) -> (String, u32, u32) {
    let re = regex::Regex::new(r"^(?P<hostname>\d+):(?P<startport>\d+)?-?(?P<endport>\d+)?$").unwrap();
    let caps = re.captures(s).unwrap();
    (
        caps.name("hostname").map(|m| m.as_str().to_string()).unwrap(),
        caps.name("startport").map(|m| m.as_str().parse::<i32>().ok()).flatten().map_or(1, |v| v as u32),
        caps.name("endport").map(|m| m.as_str().parse::<i32>().ok()).flatten().map_or(2 ^ 16, |v| v as u32),
    )
}

fn reference_year_month(s: &str) -> i64 {
    let re = regex::Regex::new(r"^(?P<sign>-)?P(?:(?P<years>\d+)Y)?(?:(?P<months>\d+)M)?$").unwrap();
    let caps = re.captures(s).unwrap();
    let years: Option<u32> = caps.name("years").map(|m| m.as_str().parse().ok()).flatten();
    let months: Option<u32> = caps.name("months").map(|m| m.as_str().parse().ok()).flatten();
    let total = (years.map_or(0u32, |v| v) as i64) * 12 + (months.map_or(0u32, |v| v) as i64);
    total * if caps.name("sign").is_some() { -1 } else { 1 }
}

#[test]
fn dns_names_with_unicode_digits_follow_the_grammar() {
    for s in ["123:80-443", "123:", "7:8080", "٣:80", "١٢:٤٥-80", "9:-٧", "12:99999999999-5", "𝟗:1-𝟐", "0:-"] {
        assert_eq!(TransformDnsName::transform(s.to_string()), reference_dns(s), "{:?}", s);
    }
}

#[test]
fn year_month_durations_with_unicode_digits_follow_the_grammar() {
    for s in ["P1Y2M", "-P1Y", "P3M", "P", "P٣Y2M", "-P5Y٤M", "P99999999999Y1M", "P०M"] {
        assert_eq!(TransformYearMonthDuration::transform(s.to_string()), reference_year_month(s), "{:?}", s);
    }
}

#[test]
fn try_transform_reports_texts_that_do_not_convert() {
    assert_eq!(TransformDate::try_transform("2020-01-01".to_string()), Some(TransformDate::transform("2020-01-01".to_string())));
    assert_eq!(TransformDate::try_transform("2020-13-01".to_string()), None);
    assert_eq!(TransformDate::try_transform("yesterday".to_string()), None);
    assert_eq!(
        TransformDateTime::try_transform("2020-01-01T00:00:00Z".to_string()),
        Some(TransformDateTime::transform("2020-01-01T00:00:00Z".to_string()))
    );
    assert_eq!(TransformDateTime::try_transform("2020-01-01".to_string()), None);

    let ok = IntermediateAttributeValueType::try_transform(&value(STR_INTEGER, " 42 ")).expect("converts");
    assert_eq!(ok.text, IntermediateTypes::Integer(42));
    assert!(IntermediateAttributeValueType::try_transform(&value(STR_INTEGER, "4x2")).is_none());
    assert!(IntermediateAttributeValueType::try_transform(&value(STR_TIME, "10:00")).is_none());
    assert!(IntermediateAttributeValueType::try_transform(&value(STR_TIME, "10:00:00")).is_some());
    assert!(IntermediateAttributeValueType::try_transform(&value("urn:unknown", "x")).is_none());
    assert!(IntermediateAttributeValueType::try_transform(&value("http://www.w3.org/2001/XMLSchema#date", "2020-02-30")).is_none());
    assert_eq!(
        IntermediateAttributeValueType::try_transform(&value("http://www.w3.org/2001/XMLSchema#date", "2020-02-03"))
            .map(|v| v.text),
        Some(IntermediateTypes::Date(TransformDate::transform("2020-02-03".to_string())))
    );
    assert!(IntermediateAttributeValueType::try_transform(&value("urn:oasis:names:tc:xacml:2.0:data-type:dnsName", "a:1")).is_none());
    assert!(IntermediateAttributeValueType::try_transform(&value("urn:oasis:names:tc:xacml:1.0:data-type:rfc822Name", "bob")).is_none());
    assert!(IntermediateAttributeValueType::try_transform(&value("http://www.w3.org/2001/XMLSchema#dayTimeDuration", "1D02H03M04S")).is_some());
    assert!(IntermediateAttributeValueType::try_transform(&value("http://www.w3.org/2001/XMLSchema#dayTimeDuration", "1D02H")).is_none());
}
