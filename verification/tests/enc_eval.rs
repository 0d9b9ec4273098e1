use hpdp_types::cipher::{Cipher, Clear, EncryptedTypes, HOp, HRfc822Name, HX500Name};
use hpdp_types::constants::XacmlFunction;
use hpdp_types::enc_bags::{
    apply_bool_vec_op_from_owned_args, apply_string_at_least_one_member_of, apply_string_bag_size,
    apply_string_is_in, apply_string_one_and_only,
};
use hpdp_types::enc_dispatch::{
    apply_all_of, apply_all_of_all, apply_any_of, apply_any_of_all, apply_any_of_any, apply_all_of_any,
    eval_binary, eval_unary, evaluate_function, evaluate_function_consume, resolve_tfhe_op,
};
use hpdp_types::intermediate::IntermediateTypes;
use hpdp_types::plain::DispatchError;
use hpdp_types::plain_bags::apply_plain_bool_vec_op_from_owned_args;
use hpdp_types::plain_dispatch::eval_plain_binary;

const F: &str = "urn:oasis:names:tc:xacml:1.0:function:";

fn urn(name: &str) -> String {
    format!("{}{}", F, name)
}

/// A decrypted scalar.
#[derive(Debug, Clone, PartialEq)]
enum Pv {
    Int(i128),
    Bool(bool),
    Str(String),
    Bytes(Vec<u8>),
}

fn clear(c: &Clear) -> Pv {
    match c {
        Clear::Int(x) => Pv::Int(*x),
        Clear::Bool(b) => Pv::Bool(*b),
        Clear::Str(s) => Pv::Str(s.clone()),
        Clear::Bytes(b) => Pv::Bytes(b.clone()),
    }
}

/// Runs a computation over the plaintexts `env` of the input handles.
fn run(c: &Cipher, env: &[(u64, Pv)]) -> Pv {
    match c {
        Cipher::Input(h) => env.iter().find(|(k, _)| k == h).map(|(_, v)| v.clone()).expect("unknown handle"),
        Cipher::Trivial(v) => clear(v),
        Cipher::Unary(op, a) => match (op, run(a, env)) {
            (HOp::Abs, Pv::Int(x)) => Pv::Int(x.abs()),
            (HOp::Not, Pv::Bool(b)) => Pv::Bool(!b),
            (_, x) => x,
        },
        Cipher::Binary(op, a, b) => match (run(a, env), run(b, env)) {
            (Pv::Int(x), Pv::Int(y)) => match op {
                HOp::Eq => Pv::Bool(x == y),
                HOp::Gt => Pv::Bool(x > y),
                HOp::Ge => Pv::Bool(x >= y),
                HOp::Lt => Pv::Bool(x < y),
                HOp::Le => Pv::Bool(x <= y),
                HOp::Add => Pv::Int(x + y),
                HOp::Sub => Pv::Int(x - y),
                HOp::Mul => Pv::Int(x * y),
                HOp::Div => Pv::Int(x / y),
                _ => Pv::Bool(false),
            },
            (Pv::Bool(x), Pv::Bool(y)) => match op {
                HOp::Eq => Pv::Bool(x == y),
                HOp::And => Pv::Bool(x && y),
                HOp::Or => Pv::Bool(x || y),
                _ => Pv::Bool(false),
            },
            (Pv::Str(x), Pv::Str(y)) => match op {
                HOp::Eq => Pv::Bool(x == y),
                HOp::EqIgnoreCase => Pv::Bool(x.eq_ignore_ascii_case(&y)),
                HOp::Concat => Pv::Str(format!("{}{}", x, y)),
                HOp::Contains => Pv::Bool(x.contains(y.as_str())),
                HOp::StartsWith => Pv::Bool(x.starts_with(y.as_str())),
                HOp::EndsWith => Pv::Bool(x.ends_with(y.as_str())),
                _ => Pv::Bool(false),
            },
            (Pv::Bytes(x), Pv::Bytes(y)) => match op {
                HOp::ArrayEq => Pv::Bool(x == y),
                _ => Pv::Bool(false),
            },
            _ => Pv::Bool(false),
        },
        Cipher::Select(c, a, b) => {
            if run(c, env) == Pv::Bool(true) {
                run(a, env)
            } else {
                run(b, env)
            }
        }
    }
}

fn input(h: u64) -> Cipher {
    Cipher::Input(h)
}

fn ebool_of(r: Result<EncryptedTypes, DispatchError>, env: &[(u64, Pv)]) -> bool {
    match r {
        Ok(EncryptedTypes::Boolean(c)) => match run(&c, env) {
            Pv::Bool(b) => b,
            other => panic!("not a truth value: {:?}", other),
        },
        other => panic!("not an encrypted truth value: {:?}", other),
    }
}

fn estr(h: u64) -> EncryptedTypes {
    EncryptedTypes::String(input(h))
}

fn ebag(vs: Vec<EncryptedTypes>) -> EncryptedTypes {
    EncryptedTypes::Bag(vs)
}

#[test]
fn enc_integer_equal_builds_one_comparison() {
    let a = EncryptedTypes::Integer(input(1));
    let b = EncryptedTypes::Integer(input(2));
    let r = evaluate_function(&urn("integer-equal"), None, vec![Some(&a), Some(&b)]);
    assert_eq!(
        r,
        Ok(EncryptedTypes::Boolean(Cipher::Binary(HOp::Eq, Box::new(input(1)), Box::new(input(2)))))
    );
}

#[test]
fn enc_integer_arithmetic_decrypts_to_plain_result() {
    let a = EncryptedTypes::Integer(input(1));
    let b = EncryptedTypes::Integer(input(2));
    let env = [(1, Pv::Int(20)), (2, Pv::Int(-6))];
    match eval_binary(XacmlFunction::IntegerSubtract, &a, &b) {
        Ok(EncryptedTypes::Integer(c)) => assert_eq!(run(&c, &env), Pv::Int(26)),
        other => panic!("{:?}", other),
    }
    match eval_binary(XacmlFunction::IntegerMultiply, &a, &b) {
        Ok(EncryptedTypes::Integer(c)) => assert_eq!(run(&c, &env), Pv::Int(-120)),
        other => panic!("{:?}", other),
    }
}

#[test]
fn enc_integer_less_than_or_equal_is_served() {
    let a = EncryptedTypes::Integer(input(1));
    let b = EncryptedTypes::Integer(input(2));
    let r = eval_binary(XacmlFunction::IntegerLessThanOrEqual, &a, &b);
    assert!(ebool_of(r, &[(1, Pv::Int(3)), (2, Pv::Int(3))]));
}

#[test]
fn enc_integer_mod_is_not_served() {
    let a = EncryptedTypes::Integer(input(1));
    let b = EncryptedTypes::Integer(input(2));
    let r = eval_binary(XacmlFunction::IntegerMod, &a, &b);
    assert_eq!(r, Err(DispatchError::UnsupportedFunction { func: XacmlFunction::IntegerMod }));
    assert_eq!(
        resolve_tfhe_op(&XacmlFunction::IntegerMod),
        Err(DispatchError::UnsupportedFunction { func: XacmlFunction::IntegerMod })
    );
}

#[test]
fn enc_not_and_abs() {
    let t = EncryptedTypes::Boolean(input(1));
    assert!(!ebool_of(eval_unary(XacmlFunction::Not, &t), &[(1, Pv::Bool(true))]));
    let x = EncryptedTypes::Integer(input(2));
    match eval_unary(XacmlFunction::IntegerAbs, &x) {
        Ok(EncryptedTypes::Integer(c)) => assert_eq!(run(&c, &[(2, Pv::Int(-4))]), Pv::Int(4)),
        other => panic!("{:?}", other),
    }
}

#[test]
fn enc_type_mismatch() {
    let a = EncryptedTypes::Integer(input(1));
    let b = estr(2);
    let r = eval_binary(XacmlFunction::IntegerEqual, &a, &b);
    assert!(matches!(r, Err(DispatchError::TypeMismatch { func: XacmlFunction::IntegerEqual, .. })));
}

#[test]
fn enc_unknown_urn() {
    let r = evaluate_function_consume("urn:example:nothing", None, vec![]);
    assert_eq!(
        r,
        Err(DispatchError::NotFoundOperatorFromUrn {
            message: "Did not find the operator from the URN ",
            not_found: "urn:example:nothing".to_string(),
        })
    );
}

#[test]
fn enc_string_functions_decrypt() {
    let env = [(1, Pv::Str("Hello".to_string())), (2, Pv::Str("hello".to_string()))];
    let a = estr(1);
    let b = estr(2);
    assert!(!ebool_of(eval_binary(XacmlFunction::StringEqual, &a, &b), &env));
    assert!(ebool_of(eval_binary(XacmlFunction::StringEqualIgnoreCase, &a, &b), &env));
    match eval_binary(XacmlFunction::StringConcatenate, &a, &b) {
        Ok(EncryptedTypes::String(c)) => assert_eq!(run(&c, &env), Pv::Str("Hellohello".to_string())),
        other => panic!("{:?}", other),
    }
}

#[test]
fn enc_string_bag_functions() {
    let env = [(1, Pv::Str("a".to_string())), (2, Pv::Str("b".to_string())), (3, Pv::Str("b".to_string()))];
    let bag = ebag(vec![estr(1), estr(2)]);
    assert_eq!(
        apply_string_bag_size(XacmlFunction::StringBagSize, &bag),
        Ok(EncryptedTypes::Integer(Cipher::Trivial(Clear::Int(2))))
    );
    assert!(ebool_of(apply_string_is_in(XacmlFunction::StringIsIn, &estr(3), &bag), &env));
    let other = [(1, Pv::Str("a".to_string())), (2, Pv::Str("b".to_string())), (3, Pv::Str("c".to_string()))];
    assert!(!ebool_of(apply_string_is_in(XacmlFunction::StringIsIn, &estr(3), &bag), &other));
    let f = XacmlFunction::StringAtLeastOneMemberOf;
    assert!(ebool_of(apply_string_at_least_one_member_of(f, &ebag(vec![estr(3)]), &bag), &env));
}

#[test]
fn enc_string_one_and_only_accepts_a_bare_string() {
    let r = apply_string_one_and_only(XacmlFunction::StringOneAndOnly, &estr(7));
    assert_eq!(r, Ok(estr(7)));
    let r = apply_string_one_and_only(XacmlFunction::StringOneAndOnly, &ebag(vec![estr(1), estr(2)]));
    assert_eq!(
        r,
        Err(DispatchError::Indeterminate {
            func: XacmlFunction::StringOneAndOnly,
            reason: "string-one-and-only requires exactly one value in the bag",
        })
    );
}

#[test]
fn enc_and_or_fold() {
    let env = [(1, Pv::Bool(true)), (2, Pv::Bool(false)), (3, Pv::Bool(true))];
    let args = || {
        vec![
            Some(EncryptedTypes::Boolean(input(1))),
            Some(EncryptedTypes::Boolean(input(2))),
            Some(EncryptedTypes::Boolean(input(3))),
        ]
    };
    assert!(!ebool_of(apply_bool_vec_op_from_owned_args(XacmlFunction::And, args()), &env));
    assert!(ebool_of(apply_bool_vec_op_from_owned_args(XacmlFunction::Or, args()), &env));
    let all_true = [(1, Pv::Bool(true)), (2, Pv::Bool(true)), (3, Pv::Bool(true))];
    assert!(ebool_of(apply_bool_vec_op_from_owned_args(XacmlFunction::And, args()), &all_true));
}

#[test]
fn enc_quantifiers_agree_with_plain() {
    let ig = || Some(Box::new(XacmlFunction::IntegerGreaterThan));
    let vals: [i64; 4] = [1, 5, 3, 4];
    let env: Vec<(u64, Pv)> = vals.iter().enumerate().map(|(i, v)| (i as u64, Pv::Int(*v as i128))).collect();
    let eb1 = ebag(vec![EncryptedTypes::Integer(input(0)), EncryptedTypes::Integer(input(1))]);
    let eb2 = ebag(vec![EncryptedTypes::Integer(input(2)), EncryptedTypes::Integer(input(3))]);
    let pb1 = IntermediateTypes::Bag(vec![IntermediateTypes::Integer(1), IntermediateTypes::Integer(5)]);
    let pb2 = IntermediateTypes::Bag(vec![IntermediateTypes::Integer(3), IntermediateTypes::Integer(4)]);
    let cases: Vec<XacmlFunction> = vec![
        XacmlFunction::AnyOfAny(ig()),
        XacmlFunction::AllOfAny(ig()),
        XacmlFunction::AnyOfAll(ig()),
        XacmlFunction::AllOfAll(ig()),
    ];
    for f in cases {
        let plain = match eval_plain_binary(f.copy(), &pb1, &pb2) {
            Ok(IntermediateTypes::Boolean(b)) => b,
            other => panic!("{:?}", other),
        };
        let enc = match &f {
            XacmlFunction::AnyOfAny(_) => apply_any_of_any(f.copy(), &eb1, &eb2),
            XacmlFunction::AllOfAny(_) => apply_all_of_any(f.copy(), &eb1, &eb2),
            XacmlFunction::AnyOfAll(_) => apply_any_of_all(f.copy(), &eb1, &eb2),
            _ => apply_all_of_all(f.copy(), &eb1, &eb2),
        };
        assert_eq!(ebool_of(enc, &env), plain, "{:?}", f);
    }
}

#[test]
fn enc_any_of_and_all_of() {
    let se = || Some(Box::new(XacmlFunction::StringEqual));
    let env = [(1, Pv::Str("x".to_string())), (2, Pv::Str("y".to_string())), (3, Pv::Str("x".to_string()))];
    let bag = ebag(vec![estr(2), estr(3)]);
    assert!(ebool_of(apply_any_of(XacmlFunction::AnyOf(se()), &estr(1), &bag), &env));
    assert!(!ebool_of(apply_all_of(XacmlFunction::AllOf(se()), &estr(1), &bag), &env));
    let r = evaluate_function(&urn("any-of"), Some(&urn("string-equal")), vec![Some(&estr(1)), Some(&bag)]);
    assert!(ebool_of(r, &env));
}

#[test]
fn enc_all_of_without_inner_function() {
    let bag = ebag(vec![estr(2)]);
    assert_eq!(
        apply_all_of(XacmlFunction::AllOf(None), &estr(1), &bag),
        Err(DispatchError::AbsentInnerFunction { message: "no inner function found in all-of function evaluation" })
    );
}

#[test]
fn enc_rfc822_name_equal() {
    let a = EncryptedTypes::Rfc822Name(HRfc822Name::new(input(1), input(2)));
    let b = EncryptedTypes::Rfc822Name(HRfc822Name::new(input(3), input(4)));
    let env = [
        (1, Pv::Str("bob".to_string())),
        (2, Pv::Str("example.com".to_string())),
        (3, Pv::Str("bob".to_string())),
        (4, Pv::Str("example.com".to_string())),
    ];
    assert!(ebool_of(eval_binary(XacmlFunction::Rfc822NameEqual, &a, &b), &env));
}

#[test]
fn enc_x500_name_equal() {
    let a = EncryptedTypes::X500Name(HX500Name::new(vec![("cn".to_string(), input(1)), ("o".to_string(), input(2))]));
    let b = EncryptedTypes::X500Name(HX500Name::new(vec![("o".to_string(), input(4)), ("cn".to_string(), input(3))]));
    let same = [
        (1, Pv::Str("alice".to_string())),
        (2, Pv::Str("org".to_string())),
        (3, Pv::Str("alice".to_string())),
        (4, Pv::Str("org".to_string())),
    ];
    assert!(ebool_of(eval_binary(XacmlFunction::X500NameEqual, &a, &b), &same));
    let differ = [
        (1, Pv::Str("alice".to_string())),
        (2, Pv::Str("org".to_string())),
        (3, Pv::Str("alice".to_string())),
        (4, Pv::Str("other".to_string())),
    ];
    assert!(!ebool_of(eval_binary(XacmlFunction::X500NameEqual, &a, &b), &differ));
}

#[test]
fn enc_type_labels() {
    assert_eq!(EncryptedTypes::Integer(input(1)).ty(), "Int64");
    assert_eq!(estr(1).ty(), "String(FheAsciiString)");
}

#[test]
fn enc_trivial_encryption_decrypts_to_the_value() {
    let p = IntermediateTypes::Integer(42);
    match p.trivial_enc() {
        EncryptedTypes::Integer(c) => assert_eq!(run(&c, &[]), Pv::Int(42)),
        other => panic!("{:?}", other),
    }
    let s = IntermediateTypes::String("abc".to_string());
    match s.trivial_enc() {
        EncryptedTypes::String(c) => assert_eq!(run(&c, &[]), Pv::Str("abc".to_string())),
        other => panic!("{:?}", other),
    }
}

#[test]
fn enc_duplicate_is_equal() {
    let b = ebag(vec![estr(1), EncryptedTypes::Integer(Cipher::Binary(HOp::Add, Box::new(input(2)), Box::new(input(3))))]);
    assert_eq!(b.duplicate(), b);
}

#[test]
fn encrypted_and_plain_and_fail_alike() {
    let plain = apply_plain_bool_vec_op_from_owned_args(
        XacmlFunction::And,
        vec![Some(IntermediateTypes::Boolean(true)), Some(IntermediateTypes::Integer(1))],
    );
    let enc = apply_bool_vec_op_from_owned_args(
        XacmlFunction::And,
        vec![Some(EncryptedTypes::Boolean(Cipher::Input(0))), Some(EncryptedTypes::Integer(Cipher::Input(1)))],
    );
    match (plain, enc) {
        (
            Err(DispatchError::TypeMismatch { func: f1, expected: e1, .. }),
            Err(DispatchError::TypeMismatch { func: f2, expected: e2, .. }),
        ) => {
            assert_eq!(f1, XacmlFunction::And);
            assert_eq!(f2, XacmlFunction::And);
            assert_eq!(e1, e2);
        }
        other => panic!("{:?}", other),
    }
    let plain = apply_plain_bool_vec_op_from_owned_args(XacmlFunction::Or, vec![Some(IntermediateTypes::Boolean(true)), None]);
    let enc = apply_bool_vec_op_from_owned_args(XacmlFunction::Or, vec![Some(EncryptedTypes::Boolean(Cipher::Input(0))), None]);
    assert_eq!(plain.unwrap_err(), enc.unwrap_err());
    let plain = apply_plain_bool_vec_op_from_owned_args(XacmlFunction::Or, vec![]);
    let enc = apply_bool_vec_op_from_owned_args(XacmlFunction::Or, vec![]);
    assert_eq!(plain.unwrap_err(), enc.unwrap_err());
}

#[test]
fn owned_and_borrowed_evaluators_agree() {
    let a = EncryptedTypes::Integer(Cipher::Input(0));
    let b = EncryptedTypes::Integer(Cipher::Input(1));
    let urn = XacmlFunction::IntegerAdd.urn();
    let owned = evaluate_function_consume(urn, None, vec![Some(a.duplicate()), Some(b.duplicate())]);
    let borrowed = evaluate_function(urn, None, vec![Some(&a), Some(&b)]);
    assert_eq!(owned, borrowed);
}
