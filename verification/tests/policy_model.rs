use hpdp_types::cipher::{Cipher, EncryptedTypes, HRfc822Name};
use hpdp_types::constants::{
    PolicyCombiningAlg, RuleCombiningAlg, XacmlFunction, STR_INTEGER, STR_RFC_822_NAME, STR_STRING,
};
use hpdp_types::reduce::pairwise_reduce;
use hpdp_types::xacml_types::{
    EffectType,
    nb_rules_p, nb_rules_ps, AllOfType, AnyOfType, AttributeDesignatorType, AttributeValueType, Loadout,
    MatchContent47Type, MatchType, PolicyContent41Type, PolicySetContent31Type, PolicySetType, PolicyType,
    RuleType, TargetType,
};

fn designator(id: &str) -> AttributeDesignatorType {
    AttributeDesignatorType {
        category: "urn:oasis:names:tc:xacml:1.0:subject-category:access-subject".to_string(),
        attribute_id: id.to_string(),
        data_type: STR_STRING.to_string(),
        issuer: None,
        must_be_present: true,
    }
}

fn matching(id: &str) -> MatchType {
    MatchType {
        match_id: XacmlFunction::StringEqual.urn().to_string(),
        attribute_value: AttributeValueType { data_type: STR_STRING.to_string(), text: Some("v".to_string()) },
        content_47: MatchContent47Type::AttributeDesignator(designator(id)),
    }
}

fn rule(ids: &[&[&str]]) -> PolicyContent41Type {
    let any_of = AnyOfType {
        content: ids.iter().map(|all| AllOfType { content: all.iter().map(|id| matching(id)).collect() }).collect(),
    };
    PolicyContent41Type::Rule(RuleType {
        rule_id: "r".to_string(),
        effect: EffectType::Permit,
        target: Some(TargetType { content: vec![any_of] }),
    })
}

fn bare_rule() -> PolicyContent41Type {
    PolicyContent41Type::Rule(RuleType { rule_id: "bare".to_string(), effect: EffectType::Deny, target: None })
}

fn policy(contents: Vec<PolicyContent41Type>) -> PolicyType {
    PolicyType { policy_id: "p".to_string(), content_41: contents }
}

#[test]
fn nb_rules_of_a_policy() {
    let p = policy(vec![rule(&[&["a"]]), PolicyContent41Type::Other, bare_rule()]);
    assert_eq!(nb_rules_p(&p), 2);
    assert_eq!(Loadout::Policy(p).nb_rules(), 2);
}

#[test]
fn nb_rules_of_a_policy_set_counts_direct_policies_only() {
    let inner = PolicySetType {
        policy_set_id: "inner".to_string(),
        content_31: vec![PolicySetContent31Type::Policy(policy(vec![bare_rule(), bare_rule()]))],
    };
    let outer = PolicySetType {
        policy_set_id: "outer".to_string(),
        content_31: vec![
            PolicySetContent31Type::Policy(policy(vec![bare_rule()])),
            PolicySetContent31Type::PolicySet(inner),
            PolicySetContent31Type::Other,
        ],
    };
    assert_eq!(nb_rules_ps(&outer), 3);
    assert_eq!(Loadout::PolicySet(outer).nb_rules(), 1);
}

#[test]
fn attribute_ids_of_the_first_designators() {
    let p = policy(vec![rule(&[&["a", "b"], &["c"]]), bare_rule(), rule(&[&["d"]])]);
    let l = Loadout::Policy(p);
    assert_eq!(l.get_attributes_ids_of_n_first_rules(2), vec!["a".to_string(), "b".to_string()]);
    assert_eq!(
        l.get_attributes_ids_of_n_first_rules(10),
        vec!["a".to_string(), "b".to_string(), "c".to_string(), "d".to_string()]
    );
    assert_eq!(l.get_attributes_ids_of_n_first_rules(0), Vec::<String>::new());
}

#[test]
fn copies_keep_every_field() {
    let v = AttributeValueType { data_type: STR_INTEGER.to_string(), text: Some("12".to_string()) };
    let c = v.get_copy();
    assert_eq!(c.data_type, v.data_type);
    assert_eq!(c.text, v.text);
    let d = designator("id");
    let e = d.get_copy();
    assert_eq!(e.attribute_id, "id".to_string());
    assert_eq!(e.category, d.category);
    assert_eq!(e.must_be_present, true);
}

#[test]
fn designators_compare_by_presence_flag() {
    let a = designator("a");
    let b = designator("b");
    assert!(a == b);
    let mut c = designator("a");
    c.must_be_present = false;
    assert!(a != c);
}

#[test]
fn function_urns_round_trip() {
    for f in XacmlFunction::all() {
        let u = f.urn();
        let back = if matches!(
            f,
            XacmlFunction::AnyOf(_)
                | XacmlFunction::AllOf(_)
                | XacmlFunction::AnyOfAny(_)
                | XacmlFunction::AllOfAny(_)
                | XacmlFunction::AnyOfAll(_)
                | XacmlFunction::AllOfAll(_)
        ) {
            XacmlFunction::from_urn(u, Some(XacmlFunction::StringEqual.urn()))
        } else {
            XacmlFunction::from_urn(u, None)
        };
        let back = back.expect("known urn");
        assert_eq!(back.urn(), u);
    }
}

#[test]
fn quantifier_urn_carries_its_predicate() {
    let f = XacmlFunction::from_urn(
        "urn:oasis:names:tc:xacml:1.0:function:any-of",
        Some("urn:oasis:names:tc:xacml:1.0:function:integer-equal"),
    );
    assert_eq!(f, Some(XacmlFunction::AnyOf(Some(Box::new(XacmlFunction::IntegerEqual)))));
    assert_eq!(XacmlFunction::from_urn("urn:nope", None), None);
}

#[test]
fn combining_algorithm_identifiers() {
    assert_eq!(
        RuleCombiningAlg::DenyOverrides.as_str(),
        "urn:oasis:names:tc:xacml:3.0:rule-combining-algorithm:deny-overrides"
    );
    assert_eq!(
        PolicyCombiningAlg::PermitOverrides.as_str(),
        "urn:oasis:names:tc:xacml:3.0:policy-combining-algorithm:permit-overrides"
    );
}

#[test]
fn pairwise_reduce_combines_level_by_level() {
    let r = pairwise_reduce(vec![1, 2, 3, 4, 5], |a: i32, b: i32| a + b);
    assert_eq!(r, Some(15));
    let order = pairwise_reduce(
        vec!["a".to_string(), "b".to_string(), "c".to_string()],
        |a: String, b: String| format!("({}{})", a, b),
    );
    assert_eq!(order, Some("((ab)c)".to_string()));
    assert_eq!(pairwise_reduce(Vec::<i32>::new(), |a: i32, b: i32| a + b), None);
}

#[test]
fn pairwise_reduce_conjunction_and_disjunction() {
    let and = pairwise_reduce(vec![true, true, false, true], |a: bool, b: bool| a && b);
    assert_eq!(and, Some(false));
    let or = pairwise_reduce(vec![false, false, true], |a: bool, b: bool| a || b);
    assert_eq!(or, Some(true));
}

#[test]
fn serialised_type_identifiers() {
    assert_eq!(EncryptedTypes::Integer(Cipher::Input(1)).get_type(), STR_INTEGER.to_string());
    assert_eq!(EncryptedTypes::String(Cipher::Input(1)).get_type(), STR_STRING.to_string());
    let n = EncryptedTypes::Rfc822Name(HRfc822Name::new(Cipher::Input(1), Cipher::Input(2)));
    assert_eq!(n.get_type(), STR_RFC_822_NAME.to_string());
}

#[test]
fn pairwise_reduce_call_order() {
    let calls = std::cell::RefCell::new(Vec::<(String, String)>::new());
    let v: Vec<String> = vec!["a", "b", "c", "d", "e"].into_iter().map(String::from).collect();
    let r = pairwise_reduce(v, |x: String, y: String| {
        calls.borrow_mut().push((x.clone(), y.clone()));
        format!("({}{})", x, y)
    });
    assert_eq!(r, Some("(((ab)(cd))e)".to_string()));
    let expected: Vec<(String, String)> = vec![("a", "b"), ("c", "d"), ("(ab)", "(cd)"), ("((ab)(cd))", "e")]
        .into_iter()
        .map(|(x, y)| (x.to_string(), y.to_string()))
        .collect();
    assert_eq!(*calls.borrow(), expected);
}

#[test]
fn combining_algorithm_identifiers_are_distinct() {
    let rules = [
        RuleCombiningAlg::DenyOverrides,
        RuleCombiningAlg::PermitOverrides,
        RuleCombiningAlg::FirstApplicable,
        RuleCombiningAlg::OrderedDenyOverrides,
        RuleCombiningAlg::OrderedPermitOverrides,
        RuleCombiningAlg::DenyUnlessPermit,
        RuleCombiningAlg::PermitUnlessDeny,
    ];
    for a in rules.iter() {
        for b in rules.iter() {
            assert_eq!(a.as_str() == b.as_str(), a == b);
        }
    }
    let policies = [
        PolicyCombiningAlg::DenyOverrides,
        PolicyCombiningAlg::PermitOverrides,
        PolicyCombiningAlg::FirstApplicable,
        PolicyCombiningAlg::OnlyOneApplicable,
        PolicyCombiningAlg::OrderedDenyOverrides,
        PolicyCombiningAlg::OrderedPermitOverrides,
        PolicyCombiningAlg::DenyUnlessPermit,
        PolicyCombiningAlg::PermitUnlessDeny,
    ];
    for a in policies.iter() {
        for b in policies.iter() {
            assert_eq!(a.as_str() == b.as_str(), a == b);
        }
    }
}

#[test]
fn function_urns_are_distinct_up_to_inner_predicates() {
    let all = XacmlFunction::all();
    for (i, f) in all.iter().enumerate() {
        for (j, g) in all.iter().enumerate() {
            assert_eq!(f.urn() == g.urn(), i == j, "{:?} {:?}", f, g);
        }
    }
    assert_eq!(
        XacmlFunction::AnyOf(Some(Box::new(XacmlFunction::StringEqual))).urn(),
        XacmlFunction::AnyOf(None).urn()
    );
    assert_eq!(XacmlFunction::AnyOf(None).urn(), "urn:oasis:names:tc:xacml:1.0:function:any-of");
}
