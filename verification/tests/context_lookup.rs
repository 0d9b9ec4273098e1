use std::collections::HashMap;

use hpdp_types::cipher::{Cipher, EncryptedTypes};
use hpdp_types::context::{map_of_pairs, Context};
use hpdp_types::intermediate::IntermediateTypes;
use hpdp_types::mixed::MixedTypes;
use hpdp_types::xacml_types::{AttributeType, AttributeValueType, AttributesType, Request};

fn key_text(k: u128) -> String {
    let h = format!("{:032x}", k);
    format!("{}-{}-{}-{}-{}", &h[0..8], &h[8..12], &h[12..16], &h[16..20], &h[20..32])
}

fn attribute(id: &str, texts: Vec<Option<String>>) -> AttributeType {
    AttributeType {
        attribute_id: id.to_string(),
        attribute_value: texts
            .into_iter()
            .map(|t| AttributeValueType { data_type: "http://www.w3.org/2001/XMLSchema#string".to_string(), text: t })
            .collect(),
    }
}

fn context() -> Context {
    let request = Request {
        attributes: vec![
            AttributesType { category: "c1".to_string(), attribute: vec![attribute("role", vec![None])] },
            AttributesType {
                category: "c2".to_string(),
                attribute: vec![
                    attribute("dept", vec![Some(key_text(0xabc))]),
                    attribute("role", vec![None, Some(key_text(0x123)), Some(key_text(0x999))]),
                ],
            },
        ],
    };
    Context {
        request,
        req_enc_attributes: HashMap::from([
            (0xabc, vec![MixedTypes::IntermediateType(IntermediateTypes::String("ops".to_string()))]),
            (0x123, vec![MixedTypes::EncryptedType(EncryptedTypes::String(Cipher::Input(5)))]),
        ]),
        pol_enc_attributes: HashMap::from([(0x77, MixedTypes::IntermediateType(IntermediateTypes::Integer(3)))]),
        encrypted_effects: HashMap::from([(0x55, Cipher::Input(9))]),
        enc_true: Cipher::Input(1),
        enc_false: Cipher::Input(0),
    }
}

#[test]
fn context_request_attribute_found_through_its_key() {
    let c = context();
    let role = c.get_req_attr("role").expect("role has a key");
    assert_eq!(role, &vec![MixedTypes::EncryptedType(EncryptedTypes::String(Cipher::Input(5)))]);
    let dept = c.get_req_attr("dept").expect("dept has a key");
    assert_eq!(dept, &vec![MixedTypes::IntermediateType(IntermediateTypes::String("ops".to_string()))]);
    assert!(c.get_req_attr("missing").is_none());
}

#[test]
fn context_policy_attribute_and_effect_by_key() {
    let c = context();
    assert_eq!(
        c.get_policy_attr_from_uuid(&key_text(0x77)),
        Some(&MixedTypes::IntermediateType(IntermediateTypes::Integer(3)))
    );
    assert!(c.get_policy_attr_from_uuid("00000000-0000-0000-0000-000000000078").is_none());
    assert_eq!(c.get_effect(&0x55), Some(&Cipher::Input(9)));
    assert!(c.get_effect(&0x56).is_none());
}

#[test]
fn extracted_pairs_become_a_map_later_entries_winning() {
    let m = map_of_pairs(vec![(1u128, "a"), (2u128, "b"), (1u128, "c")]);
    assert_eq!(m.len(), 2);
    assert_eq!(m.get(&1), Some(&"c"));
    assert_eq!(m.get(&2), Some(&"b"));
    assert!(map_of_pairs(Vec::<(u128, u8)>::new()).is_empty());
}
