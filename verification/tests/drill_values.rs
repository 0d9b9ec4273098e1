use hpdp_types::constants::{STR_INTEGER, STR_STRING};
use hpdp_types::intermediate::IntermediateTypes;
use hpdp_types::transform::{Transform, TransformLoadout};
use hpdp_types::xacml_types::{
    EffectType,
    AllOfType, AnyOfType, AttributeDesignatorType, AttributeSelectorType, AttributeValueType, Loadout,
    MatchContent47Type, MatchType, PolicyContent41Type, PolicySetContent31Type, PolicySetType, PolicyType,
    RuleType, TargetType,
};

fn matching(id: &str, data_type: &str, text: &str) -> MatchType {
    MatchType {
        match_id: "urn:oasis:names:tc:xacml:1.0:function:string-equal".to_string(),
        attribute_value: AttributeValueType { data_type: data_type.to_string(), text: Some(text.to_string()) },
        content_47: MatchContent47Type::AttributeDesignator(AttributeDesignatorType {
            category: "cat".to_string(),
            attribute_id: id.to_string(),
            data_type: data_type.to_string(),
            issuer: None,
            must_be_present: false,
        }),
    }
}

fn rule(rule_id: &str, matches: Vec<MatchType>) -> PolicyContent41Type {
    PolicyContent41Type::Rule(RuleType {
        rule_id: rule_id.to_string(),
        effect: EffectType::Permit,
        target: Some(TargetType {
            content: vec![AnyOfType { content: vec![AllOfType { content: matches }] }],
        }),
    })
}

fn key_text(k: u128) -> String {
    let h = format!("{:032x}", k);
    format!("{}-{}-{}-{}-{}", &h[0..8], &h[8..12], &h[12..16], &h[16..20], &h[20..32])
}

fn texts_of_policy(p: &PolicyType) -> Vec<String> {
    let mut out = Vec::new();
    for c in &p.content_41 {
        if let PolicyContent41Type::Rule(r) = c {
            if let Some(t) = &r.target {
                for any in &t.content {
                    for all in &any.content {
                        for m in &all.content {
                            out.push(m.attribute_value.text.clone().unwrap());
                        }
                    }
                }
            }
        }
    }
    out
}

#[test]
fn drill_policy_extracts_values_and_writes_keys() {
    let p = PolicyType {
        policy_id: "p".to_string(),
        content_41: vec![
            rule(" r1 ", vec![matching("role", STR_STRING, "  admin "), matching("age", STR_INTEGER, "42")]),
            PolicyContent41Type::Other,
            rule("r2", vec![matching("dept", STR_STRING, "ops")]),
        ],
    };
    let mut l = Loadout::Policy(p);
    let r = l.drill_for_attributes_values_and_transform_values();
    assert_eq!(r.len(), 3);
    let views: Vec<(String, String, String, Option<String>)> = r
        .iter()
        .map(|(_, e)| (e.rule_id.clone(), e.id.clone(), e.att_val.data_type.clone(), e.att_val.text.clone()))
        .collect();
    assert_eq!(
        views,
        vec![
            ("r1".to_string(), "role".to_string(), STR_STRING.to_string(), Some("admin".to_string())),
            ("r1".to_string(), "age".to_string(), STR_INTEGER.to_string(), Some("42".to_string())),
            ("r2".to_string(), "dept".to_string(), STR_STRING.to_string(), Some("ops".to_string())),
        ]
    );
    let p = match &l {
        Loadout::Policy(p) => p,
        _ => panic!("kind changed"),
    };
    let written = texts_of_policy(p);
    let expected: Vec<String> = r.iter().map(|(k, _)| key_text(*k)).collect();
    assert_eq!(written, expected);
    for (k, _) in &r {
        assert_eq!((k >> 76) & 15, 4);
        assert_eq!((k >> 62) & 3, 2);
    }
    assert_ne!(r[0].0, r[1].0);
}

#[test]
fn drill_then_transform_gives_plain_values_by_key() {
    let p = PolicyType {
        policy_id: "p".to_string(),
        content_41: vec![rule("r", vec![matching("age", STR_INTEGER, " 42 "), matching("name", STR_STRING, "bob")])],
    };
    let mut l = Loadout::Policy(p);
    let drilled = l.drill_for_attributes_values_and_transform_values();
    let keys: Vec<u128> = drilled.iter().map(|(k, _)| *k).collect();
    let plain = TransformLoadout::transform(drilled);
    assert_eq!(plain.len(), 2);
    assert_eq!(plain[0].0, keys[0]);
    assert_eq!(plain[0].1.text, IntermediateTypes::Integer(42));
    assert_eq!(plain[1].1.text, IntermediateTypes::String("bob".to_string()));
    assert_eq!(plain[1].1.att_id, "name".to_string());
}

#[test]
fn drill_policy_set_visits_nested_sets_in_order() {
    let inner = PolicySetType {
        policy_set_id: "inner".to_string(),
        content_31: vec![PolicySetContent31Type::Policy(PolicyType {
            policy_id: "p2".to_string(),
            content_41: vec![rule("deep", vec![matching("b", STR_STRING, "2")])],
        })],
    };
    let outer = PolicySetType {
        policy_set_id: "outer".to_string(),
        content_31: vec![
            PolicySetContent31Type::Policy(PolicyType {
                policy_id: "p1".to_string(),
                content_41: vec![rule("top", vec![matching("a", STR_STRING, "1")])],
            }),
            PolicySetContent31Type::Other,
            PolicySetContent31Type::PolicySet(inner),
        ],
    };
    let mut l = Loadout::PolicySet(outer);
    let r = l.drill_for_attributes_values_and_transform_values();
    let ids: Vec<(String, String)> = r.iter().map(|(_, e)| (e.rule_id.clone(), e.id.clone())).collect();
    assert_eq!(ids, vec![("top".to_string(), "a".to_string()), ("deep".to_string(), "b".to_string())]);
    match &l {
        Loadout::PolicySet(ps) => {
            assert_eq!(ps.policy_set_id, "outer".to_string());
            assert_eq!(ps.content_31.len(), 3);
        }
        _ => panic!("kind changed"),
    }
}

#[test]
fn drill_match_with_attribute_selector_uses_its_context() {
    let mut m = MatchType {
        match_id: "f".to_string(),
        attribute_value: AttributeValueType { data_type: STR_STRING.to_string(), text: None },
        content_47: MatchContent47Type::AttributeSelector(AttributeSelectorType {
            category: "c".to_string(),
            path: "/a".to_string(),
            data_type: STR_STRING.to_string(),
            context_selector_id: Some("ctx".to_string()),
        }),
    };
    let (k, e) = m.drill_for_attributes_values_and_transform_values();
    assert_eq!(e.id, "ctx".to_string());
    assert_eq!(e.rule_id, String::new());
    assert_eq!(e.att_val.text, None);
    assert_eq!(m.attribute_value.text, Some(key_text(k)));
}

#[test]
fn drill_rule_without_target_extracts_nothing() {
    let mut r = RuleType { rule_id: "r".to_string(), effect: EffectType::Deny, target: None };
    assert!(r.drill_for_attributes_values_and_transform_values().is_empty());
}
