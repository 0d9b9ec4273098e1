use hpdp_types::cipher::{Cipher, Clear, EncryptedTypes, HOp};
use hpdp_types::intermediate::IntermediateTypes;
use hpdp_types::mixed::{
    evaluate_function_mixed, evaluate_function_mixed_consume, evaluate_function_mixed_consume_no_option,
    evaluate_function_mixed_no_option, DispatchError, MixedTypes,
};
use hpdp_types::plain::DispatchError as EvalError;

const F: &str = "urn:oasis:names:tc:xacml:1.0:function:";

fn urn(name: &str) -> String {
    format!("{}{}", F, name)
}

fn plain_int(x: i64) -> MixedTypes {
    MixedTypes::IntermediateType(IntermediateTypes::Integer(x))
}

fn enc_int(h: u64) -> MixedTypes {
    MixedTypes::EncryptedType(EncryptedTypes::Integer(Cipher::Input(h)))
}

#[test]
fn mixed_all_plain_uses_the_plain_evaluator() {
    let r = evaluate_function_mixed_consume(&urn("integer-add"), None, vec![Some(plain_int(2)), Some(plain_int(3))]);
    assert_eq!(r, Ok(plain_int(5)));
}

#[test]
fn mixed_one_encrypted_encrypts_the_others_trivially() {
    let r = evaluate_function_mixed_consume_no_option(&urn("integer-equal"), None, vec![enc_int(1), plain_int(7)]);
    assert_eq!(
        r,
        Ok(MixedTypes::EncryptedType(EncryptedTypes::Boolean(Cipher::Binary(
            HOp::Eq,
            Box::new(Cipher::Input(1)),
            Box::new(Cipher::Trivial(Clear::Int(7))),
        ))))
    );
}

#[test]
fn mixed_borrowed_arguments() {
    let a = plain_int(7);
    let b = enc_int(4);
    let r = evaluate_function_mixed(&urn("integer-greater-than"), None, vec![Some(&a), Some(&b)]);
    assert_eq!(
        r,
        Ok(MixedTypes::EncryptedType(EncryptedTypes::Boolean(Cipher::Binary(
            HOp::Gt,
            Box::new(Cipher::Trivial(Clear::Int(7))),
            Box::new(Cipher::Input(4)),
        ))))
    );
    let r = evaluate_function_mixed_no_option(&urn("integer-subtract"), None, vec![&a, &a]);
    assert_eq!(r, Ok(plain_int(0)));
}

#[test]
fn mixed_plain_error_is_wrapped() {
    let a = plain_int(1);
    let r = evaluate_function_mixed(&urn("integer-add"), None, vec![Some(&a)]);
    assert_eq!(
        r,
        Err(DispatchError::PlainDispatchError(EvalError::ArityMismatch {
            func: hpdp_types::constants::XacmlFunction::IntegerAdd,
            expected: 2,
            got: 1,
        }))
    );
}

#[test]
fn mixed_encrypted_error_is_wrapped() {
    let r = evaluate_function_mixed_consume(&urn("integer-mod"), None, vec![Some(enc_int(1)), Some(plain_int(2))]);
    assert_eq!(
        r,
        Err(DispatchError::EncryptedDispatchError(EvalError::UnsupportedFunction {
            func: hpdp_types::constants::XacmlFunction::IntegerMod,
        }))
    );
}

#[test]
fn mixed_unknown_urn_comes_from_the_evaluator_that_runs() {
    let r = evaluate_function_mixed_consume("urn:example:none", None, vec![Some(plain_int(1))]);
    assert!(matches!(r, Err(DispatchError::PlainDispatchError(EvalError::NotFoundOperatorFromUrn { .. }))));
    let r = evaluate_function_mixed_consume("urn:example:none", None, vec![Some(enc_int(1))]);
    assert!(matches!(r, Err(DispatchError::EncryptedDispatchError(EvalError::NotFoundOperatorFromUrn { .. }))));
}

#[test]
fn mixed_missing_arguments_stay_missing() {
    let t = MixedTypes::EncryptedType(EncryptedTypes::Boolean(Cipher::Input(1)));
    let r = evaluate_function_mixed_consume(&urn("and"), None, vec![Some(t), None]);
    assert!(matches!(r, Err(DispatchError::EncryptedDispatchError(EvalError::Indeterminate { .. }))));
}

#[test]
fn mixed_duplicate_keeps_the_value() {
    let m = enc_int(3);
    assert_eq!(m.duplicate(), m);
    let p = plain_int(3);
    assert_eq!(p.duplicate(), p);
}
