use hpdp_types::cipher::{Cipher, Clear};
use hpdp_types::encrypt::Encryptor;
use hpdp_types::xacml_types::{
    EffectType, Loadout, PolicyContent41Type, PolicySetContent31Type, PolicySetType, PolicyType, RuleType,
};

fn rule(id: &str, effect: EffectType) -> PolicyContent41Type {
    PolicyContent41Type::Rule(RuleType { rule_id: id.to_string(), effect, target: None })
}

#[test]
fn effects_of_a_policy_are_encrypted_in_order() {
    let p = PolicyType {
        policy_id: "p".to_string(),
        content_41: vec![rule("a", EffectType::Permit), PolicyContent41Type::Other, rule("b", EffectType::Deny)],
    };
    let mut l = Loadout::Policy(p);
    let mut pk = Encryptor::new();
    let r = l.encrypt_effect(&mut pk);
    assert_eq!(r.len(), 2);
    assert_eq!(r[0].1, Cipher::Input(0));
    assert_eq!(r[1].1, Cipher::Input(1));
    assert_eq!(pk.plaintexts, vec![Clear::Bool(true), Clear::Bool(false)]);
    match &l {
        Loadout::Policy(p) => {
            let effects: Vec<EffectType> = p
                .content_41
                .iter()
                .filter_map(|c| if let PolicyContent41Type::Rule(r) = c { Some(r.effect) } else { None })
                .collect();
            assert_eq!(effects, vec![EffectType::EncryptedDecision(r[0].0), EffectType::EncryptedDecision(r[1].0)]);
        }
        _ => panic!("kind changed"),
    }
}

#[test]
fn effects_of_nested_policy_sets_are_encrypted() {
    let inner = PolicySetType {
        policy_set_id: "inner".to_string(),
        content_31: vec![PolicySetContent31Type::Policy(PolicyType {
            policy_id: "p2".to_string(),
            content_41: vec![rule("c", EffectType::Deny)],
        })],
    };
    let outer = PolicySetType {
        policy_set_id: "outer".to_string(),
        content_31: vec![
            PolicySetContent31Type::PolicySet(inner),
            PolicySetContent31Type::Policy(PolicyType {
                policy_id: "p1".to_string(),
                content_41: vec![rule("d", EffectType::Permit)],
            }),
        ],
    };
    let mut l = Loadout::PolicySet(outer);
    let mut pk = Encryptor::new();
    let r = l.encrypt_effect(&mut pk);
    assert_eq!(r.len(), 2);
    assert_eq!(pk.plaintexts, vec![Clear::Bool(false), Clear::Bool(true)]);
}

#[test]
fn rule_effect_encryption_records_the_key() {
    let mut r = RuleType { rule_id: "x".to_string(), effect: EffectType::Permit, target: None };
    let mut pk = Encryptor::new();
    let out = r.encrypt_effect(&mut pk);
    assert_eq!(out.len(), 1);
    assert_eq!(r.effect, EffectType::EncryptedDecision(out[0].0));
    assert_eq!(pk.plaintexts, vec![Clear::Bool(true)]);
}
