use hpdp_types::cipher::{Cipher, Clear, EncryptedTypes, HOp};
use hpdp_types::encrypt::Encryptor;
use hpdp_types::enc_dispatch::eval_binary;
use hpdp_types::constants::XacmlFunction;
use hpdp_types::intermediate::{IntermediateTypes, X500Name};

/// Runs a computation over the plaintexts the key holder recorded.
fn run(c: &Cipher, env: &[Clear]) -> Clear {
    match c {
        Cipher::Input(h) => match &env[*h as usize] {
            Clear::Int(x) => Clear::Int(*x),
            Clear::Bool(b) => Clear::Bool(*b),
            Clear::Str(s) => Clear::Str(s.clone()),
            Clear::Bytes(b) => Clear::Bytes(b.clone()),
        },
        Cipher::Trivial(v) => match v {
            Clear::Int(x) => Clear::Int(*x),
            Clear::Bool(b) => Clear::Bool(*b),
            Clear::Str(s) => Clear::Str(s.clone()),
            Clear::Bytes(b) => Clear::Bytes(b.clone()),
        },
        Cipher::Binary(op, a, b) => match (run(a, env), run(b, env)) {
            (Clear::Int(x), Clear::Int(y)) => match op {
                HOp::Add => Clear::Int(x + y),
                HOp::Eq => Clear::Bool(x == y),
                HOp::Gt => Clear::Bool(x > y),
                _ => panic!("not exercised"),
            },
            (Clear::Str(x), Clear::Str(y)) => match op {
                HOp::Eq => Clear::Bool(x == y),
                _ => panic!("not exercised"),
            },
            _ => panic!("not exercised"),
        },
        _ => panic!("not exercised"),
    }
}

#[test]
fn encryption_issues_fresh_handles_in_order() {
    let mut pk = Encryptor::new();
    let a = EncryptedTypes::encrypt(&IntermediateTypes::Integer(7), &mut pk);
    let b = EncryptedTypes::encrypt(&IntermediateTypes::String("  hi ".to_string()), &mut pk);
    assert_eq!(a, EncryptedTypes::Integer(Cipher::Input(0)));
    assert_eq!(b, EncryptedTypes::String(Cipher::Input(1)));
    assert_eq!(pk.plaintexts, vec![Clear::Int(7), Clear::Str("hi".to_string())]);
}

#[test]
fn encryption_of_compound_values() {
    let mut pk = Encryptor::new();
    let dns = IntermediateTypes::DnsName(" host ".to_string(), 80, 443);
    let r = EncryptedTypes::encrypt(&dns, &mut pk);
    match r {
        EncryptedTypes::DnsName(n) => {
            assert_eq!(n.adr, Cipher::Input(0));
            assert_eq!(n.start_port, Cipher::Input(1));
            assert_eq!(n.end_port, Cipher::Input(2));
        }
        other => panic!("{:?}", other),
    }
    let name = IntermediateTypes::X500Name(X500Name {
        entries: vec![("cn".to_string(), " alice ".to_string()), ("o".to_string(), "org".to_string())],
    });
    match EncryptedTypes::encrypt(&name, &mut pk) {
        EncryptedTypes::X500Name(n) => {
            assert_eq!(n.val, vec![("cn".to_string(), Cipher::Input(3)), ("o".to_string(), Cipher::Input(4))]);
        }
        other => panic!("{:?}", other),
    }
    let bag = IntermediateTypes::Bag(vec![IntermediateTypes::Boolean(true), IntermediateTypes::Nothing, IntermediateTypes::Integer(-2)]);
    assert_eq!(
        EncryptedTypes::encrypt(&bag, &mut pk),
        EncryptedTypes::Bag(vec![
            EncryptedTypes::Boolean(Cipher::Input(5)),
            EncryptedTypes::Nothing,
            EncryptedTypes::Integer(Cipher::Input(6)),
        ])
    );
    assert_eq!(
        pk.plaintexts,
        vec![
            Clear::Str("host".to_string()),
            Clear::Int(80),
            Clear::Int(443),
            Clear::Str("alice".to_string()),
            Clear::Str("org".to_string()),
            Clear::Bool(true),
            Clear::Int(-2),
        ]
    );
}

#[test]
fn encrypted_evaluation_decrypts_to_the_plain_result() {
    let mut pk = Encryptor::new();
    let a = EncryptedTypes::encrypt(&IntermediateTypes::Integer(40), &mut pk);
    let b = EncryptedTypes::encrypt(&IntermediateTypes::Integer(2), &mut pk);
    match eval_binary(XacmlFunction::IntegerAdd, &a, &b) {
        Ok(EncryptedTypes::Integer(c)) => assert_eq!(run(&c, &pk.plaintexts), Clear::Int(42)),
        other => panic!("{:?}", other),
    }
    let s = EncryptedTypes::encrypt(&IntermediateTypes::String(" x ".to_string()), &mut pk);
    let t = EncryptedTypes::encrypt(&IntermediateTypes::String("x".to_string()), &mut pk);
    match eval_binary(XacmlFunction::StringEqual, &s, &t) {
        Ok(EncryptedTypes::Boolean(c)) => assert_eq!(run(&c, &pk.plaintexts), Clear::Bool(true)),
        other => panic!("{:?}", other),
    }
}
