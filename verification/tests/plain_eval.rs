use hpdp_types::constants::XacmlFunction;
use hpdp_types::intermediate::{IntermediateTypes, X500Name};
use hpdp_types::plain::DispatchError;
use hpdp_types::plain_bags::{
    apply_plain_bool_vec_op_from_owned_args, apply_plain_string_at_least_one_member_of,
    apply_plain_string_bag_size, apply_plain_string_is_in, apply_plain_string_one_and_only,
};
use hpdp_types::plain_dispatch::{
    apply_plain_all_of, apply_plain_all_of_all, apply_plain_any_of, apply_plain_any_of_all,
    apply_plain_any_of_any, eval_plain_binary, eval_plain_ternary, eval_plain_unary,
    evaluate_function_plain, evaluate_function_plain_consume, resolve_plain_op,
};

const F: &str = "urn:oasis:names:tc:xacml:1.0:function:";

fn urn(name: &str) -> String {
    format!("{}{}", F, name)
}

fn st(x: &str) -> IntermediateTypes {
    IntermediateTypes::String(x.to_string())
}

fn ival(x: i64) -> IntermediateTypes {
    IntermediateTypes::Integer(x)
}

fn boolean(b: bool) -> IntermediateTypes {
    IntermediateTypes::Boolean(b)
}

fn bag(vs: Vec<IntermediateTypes>) -> IntermediateTypes {
    IntermediateTypes::Bag(vs)
}

fn x500(pairs: &[(&str, &str)]) -> IntermediateTypes {
    IntermediateTypes::X500Name(X500Name {
        entries: pairs.iter().map(|(k, v)| (k.to_string(), v.to_string())).collect(),
    })
}

#[test]
fn plain_integer_add_by_urn() {
    let a = ival(2);
    let b = ival(3);
    let r = evaluate_function_plain(&urn("integer-add"), None, vec![Some(&a), Some(&b)]);
    assert_eq!(r, Ok(ival(5)));
}

#[test]
fn plain_integer_subtract_and_multiply() {
    let r = evaluate_function_plain_consume(&urn("integer-subtract"), None, vec![Some(ival(2)), Some(ival(7))]);
    assert_eq!(r, Ok(ival(-5)));
    let r = evaluate_function_plain_consume(&urn("integer-multiply"), None, vec![Some(ival(-4)), Some(ival(6))]);
    assert_eq!(r, Ok(ival(-24)));
}

#[test]
fn plain_integer_divide_truncates() {
    let r = eval_plain_binary(XacmlFunction::IntegerDivide, &ival(-7), &ival(2));
    assert_eq!(r, Ok(ival(-3)));
}

#[test]
fn plain_integer_divide_by_zero_is_a_type_mismatch() {
    let r = eval_plain_binary(XacmlFunction::IntegerDivide, &ival(7), &ival(0));
    assert_eq!(
        r,
        Err(DispatchError::TypeMismatch {
            func: XacmlFunction::IntegerDivide,
            expected: "Int64/NormalInteger with non-zero divisor",
            got: "divisor = 0",
        })
    );
}

#[test]
fn plain_integer_mod_keeps_sign_of_dividend() {
    let r = eval_plain_binary(XacmlFunction::IntegerMod, &ival(-7), &ival(3));
    assert_eq!(r, Ok(ival(-1)));
}

#[test]
fn plain_integer_comparisons() {
    let r = evaluate_function_plain_consume(&urn("integer-greater-than"), None, vec![Some(ival(4)), Some(ival(3))]);
    assert_eq!(r, Ok(boolean(true)));
    let r = eval_plain_binary(XacmlFunction::IntegerLessThan, &ival(4), &ival(3));
    assert_eq!(r, Ok(boolean(false)));
}

#[test]
fn plain_integer_less_than_or_equal_is_served() {
    let r = eval_plain_binary(XacmlFunction::IntegerLessThanOrEqual, &ival(1), &ival(2));
    assert_eq!(r, Ok(boolean(true)));
    let r = eval_plain_binary(XacmlFunction::IntegerLessThanOrEqual, &ival(2), &ival(2));
    assert_eq!(r, Ok(boolean(true)));
    let r = eval_plain_binary(XacmlFunction::IntegerLessThanOrEqual, &ival(3), &ival(2));
    assert_eq!(r, Ok(boolean(false)));
    let r = evaluate_function_plain_consume(&urn("integer-less-than-or-equal"), None, vec![Some(ival(1)), Some(ival(2))]);
    assert_eq!(r, Ok(boolean(true)));
}

#[test]
fn plain_type_mismatch_reports_mixed() {
    let r = eval_plain_binary(XacmlFunction::IntegerAdd, &ival(1), &st("x"));
    assert_eq!(
        r,
        Err(DispatchError::TypeMismatch {
            func: XacmlFunction::IntegerAdd,
            expected: "Int64/NormalInteger, Int64/NormalInteger",
            got: "Mixed",
        })
    );
}

#[test]
fn plain_integer_abs_and_not() {
    assert_eq!(eval_plain_unary(XacmlFunction::IntegerAbs, &ival(-9)), Ok(ival(9)));
    assert_eq!(eval_plain_unary(XacmlFunction::Not, &boolean(true)), Ok(boolean(false)));
}

#[test]
fn plain_integer_abs_near_the_minimum() {
    let a = ival(i64::MIN + 1);
    assert_eq!(eval_plain_unary(XacmlFunction::IntegerAbs, &a), Ok(ival(i64::MAX)));
}

#[test]
fn plain_unknown_urn() {
    let a = ival(1);
    let r = evaluate_function_plain("urn:example:nothing", None, vec![Some(&a)]);
    assert_eq!(
        r,
        Err(DispatchError::NotFoundOperatorFromUrn {
            message: "Did not find the operator from the URN ",
            not_found: "urn:example:nothing".to_string(),
        })
    );
}

#[test]
fn plain_unsupported_function() {
    let r = evaluate_function_plain_consume(&urn("round"), None, vec![Some(IntermediateTypes::Double(5))]);
    assert_eq!(r, Err(DispatchError::UnsupportedFunction { func: XacmlFunction::Round }));
}

#[test]
fn plain_arity_mismatch() {
    let a = ival(1);
    let r = evaluate_function_plain(&urn("integer-add"), None, vec![Some(&a)]);
    assert_eq!(r, Err(DispatchError::ArityMismatch { func: XacmlFunction::IntegerAdd, expected: 2, got: 1 }));
}

#[test]
fn plain_missing_argument_is_indeterminate() {
    let b = ival(1);
    let r = evaluate_function_plain(&urn("integer-add"), None, vec![None, Some(&b)]);
    assert_eq!(
        r,
        Err(DispatchError::Indeterminate { func: XacmlFunction::IntegerAdd, reason: "missing first binary argument" })
    );
}

#[test]
fn plain_string_functions() {
    let r = eval_plain_binary(XacmlFunction::StringEqual, &st("abc"), &st("abc"));
    assert_eq!(r, Ok(boolean(true)));
    let r = eval_plain_binary(XacmlFunction::StringEqualIgnoreCase, &st("AbC"), &st("aBc"));
    assert_eq!(r, Ok(boolean(true)));
    let r = eval_plain_binary(XacmlFunction::StringConcatenate, &st("foo"), &st("bar"));
    assert_eq!(r, Ok(st("foobar")));
    let r = eval_plain_binary(XacmlFunction::StringStartsWith, &st("foobar"), &st("foo"));
    assert_eq!(r, Ok(boolean(true)));
    let r = eval_plain_binary(XacmlFunction::StringStartsWith, &st("foo"), &st("foobar"));
    assert_eq!(r, Ok(boolean(false)));
    let r = eval_plain_binary(XacmlFunction::StringEndsWith, &st("foobar"), &st("bar"));
    assert_eq!(r, Ok(boolean(true)));
    let r = eval_plain_binary(XacmlFunction::StringContains, &st("foobar"), &st("oba"));
    assert_eq!(r, Ok(boolean(true)));
}

#[test]
fn plain_time_in_range() {
    let t = IntermediateTypes::Time(10);
    let s = IntermediateTypes::Time(5);
    let e = IntermediateTypes::Time(20);
    assert_eq!(eval_plain_ternary(XacmlFunction::TimeInRange, &t, &s, &e), Ok(boolean(true)));
    let late = IntermediateTypes::Time(21);
    assert_eq!(eval_plain_ternary(XacmlFunction::TimeInRange, &late, &s, &e), Ok(boolean(false)));
}

#[test]
fn plain_if_else_by_urn() {
    let r = evaluate_function_plain_consume(
        "urn:oasis:names:tc:xacml:1.0:function:ifelse",
        None,
        vec![Some(boolean(false)), Some(boolean(true)), Some(boolean(false))],
    );
    assert_eq!(r, Ok(boolean(false)));
    let r = eval_plain_ternary(XacmlFunction::IfElse, &boolean(true), &ival(1), &ival(2));
    assert_eq!(
        r,
        Err(DispatchError::TypeMismatch { func: XacmlFunction::IfElse, expected: "Bool, Bool", got: "Mixed" })
    );
}

#[test]
fn plain_datetime_add_duration() {
    let d = IntermediateTypes::DateTime(100);
    let dur = IntermediateTypes::DayTimeDuration(50);
    let r = eval_plain_binary(XacmlFunction::DateTimeAddDayTimeDuration, &d, &dur);
    assert_eq!(r, Ok(IntermediateTypes::DateTime(150)));
    let ym = IntermediateTypes::YearMonthDuration(7);
    let r = eval_plain_binary(XacmlFunction::DateTimeSubtractYearMonthDuration, &d, &ym);
    assert_eq!(r, Ok(IntermediateTypes::DateTime(93)));
}

#[test]
fn plain_x500_name_equal() {
    let a = x500(&[("cn", "alice"), ("o", "org")]);
    let b = x500(&[("o", "org"), ("cn", "alice")]);
    assert_eq!(eval_plain_binary(XacmlFunction::X500NameEqual, &a, &b), Ok(boolean(true)));
    let c = x500(&[("cn", "alice")]);
    assert_eq!(
        eval_plain_binary(XacmlFunction::X500NameEqual, &a, &c),
        Err(DispatchError::X500NameNotAllFieldsSupplied { message: "the set of keys is not equal" })
    );
}

#[test]
fn plain_rfc822_name_domain_is_case_insensitive() {
    let a = IntermediateTypes::Rfc822Name("bob".to_string(), "Example.COM".to_string());
    let b = IntermediateTypes::Rfc822Name("bob".to_string(), "example.com".to_string());
    assert_eq!(eval_plain_binary(XacmlFunction::Rfc822NameEqual, &a, &b), Ok(boolean(true)));
    let c = IntermediateTypes::Rfc822Name("Bob".to_string(), "example.com".to_string());
    assert_eq!(eval_plain_binary(XacmlFunction::Rfc822NameEqual, &a, &c), Ok(boolean(false)));
}

#[test]
fn plain_string_bag_functions() {
    let b = bag(vec![st("a"), st("b"), st("c")]);
    assert_eq!(apply_plain_string_bag_size(XacmlFunction::StringBagSize, &b), Ok(ival(3)));
    assert_eq!(apply_plain_string_is_in(XacmlFunction::StringIsIn, &st("b"), &b), Ok(boolean(true)));
    assert_eq!(apply_plain_string_is_in(XacmlFunction::StringIsIn, &st("z"), &b), Ok(boolean(false)));
    let one = bag(vec![st("only")]);
    assert_eq!(apply_plain_string_one_and_only(XacmlFunction::StringOneAndOnly, &one), Ok(st("only")));
    assert_eq!(
        apply_plain_string_one_and_only(XacmlFunction::StringOneAndOnly, &b),
        Err(DispatchError::Indeterminate {
            func: XacmlFunction::StringOneAndOnly,
            reason: "string-one-and-only requires exactly one value in the bag",
        })
    );
}

#[test]
fn plain_string_bag_of_non_strings_is_refused() {
    let b = bag(vec![st("a"), ival(1)]);
    assert_eq!(
        apply_plain_string_bag_size(XacmlFunction::StringBagSize, &b),
        Err(DispatchError::TypeMismatch {
            func: XacmlFunction::StringBagSize,
            expected: "Bag(String)",
            got: "Int64/NormalInteger",
        })
    );
}

#[test]
fn plain_string_at_least_one_member_of() {
    let l = bag(vec![st("a"), st("b")]);
    let r = bag(vec![st("c"), st("b")]);
    let f = XacmlFunction::StringAtLeastOneMemberOf;
    assert_eq!(apply_plain_string_at_least_one_member_of(f, &l, &r), Ok(boolean(true)));
    let r2 = bag(vec![st("c")]);
    let f = XacmlFunction::StringAtLeastOneMemberOf;
    assert_eq!(apply_plain_string_at_least_one_member_of(f, &l, &r2), Ok(boolean(false)));
}

#[test]
fn plain_string_bag_by_urn() {
    let r = evaluate_function_plain_consume(&urn("string-bag"), None, vec![Some(st("x")), Some(st("y"))]);
    assert_eq!(r, Ok(bag(vec![st("x"), st("y")])));
    let r = evaluate_function_plain_consume(&urn("string-bag"), None, vec![Some(st("x")), None]);
    assert_eq!(
        r,
        Err(DispatchError::Indeterminate { func: XacmlFunction::StringBag, reason: "missing argument in string-bag" })
    );
}

#[test]
fn plain_and_or_over_many_arguments() {
    let args = vec![Some(boolean(true)), Some(boolean(false)), Some(boolean(true))];
    assert_eq!(apply_plain_bool_vec_op_from_owned_args(XacmlFunction::And, args), Ok(boolean(false)));
    let args = vec![Some(boolean(false)), Some(boolean(false)), Some(boolean(true))];
    assert_eq!(apply_plain_bool_vec_op_from_owned_args(XacmlFunction::Or, args), Ok(boolean(true)));
    assert_eq!(
        apply_plain_bool_vec_op_from_owned_args(XacmlFunction::And, vec![]),
        Err(DispatchError::ArityMismatch { func: XacmlFunction::And, expected: 1, got: 0 })
    );
    let args = vec![Some(IntermediateTypes::Nothing)];
    assert_eq!(apply_plain_bool_vec_op_from_owned_args(XacmlFunction::Or, args), Ok(IntermediateTypes::Nothing));
}

#[test]
fn plain_any_of_by_urn() {
    let v = st("a");
    let b = bag(vec![st("b"), st("a")]);
    let r = evaluate_function_plain(&urn("any-of"), Some(&urn("string-equal")), vec![Some(&v), Some(&b)]);
    assert_eq!(r, Ok(boolean(true)));
}

#[test]
fn plain_quantifiers() {
    let se = || Some(Box::new(XacmlFunction::StringEqual));
    let ig = || Some(Box::new(XacmlFunction::IntegerGreaterThan));
    let b = bag(vec![st("a"), st("a")]);
    assert_eq!(apply_plain_all_of(XacmlFunction::AllOf(se()), &st("a"), &b), Ok(boolean(true)));
    assert_eq!(apply_plain_any_of(XacmlFunction::AnyOf(se()), &st("z"), &b), Ok(boolean(false)));
    let b1 = bag(vec![ival(1), ival(5)]);
    let b2 = bag(vec![ival(3), ival(4)]);
    assert_eq!(apply_plain_any_of_any(XacmlFunction::AnyOfAny(ig()), &b1, &b2), Ok(boolean(true)));
    assert_eq!(apply_plain_all_of_all(XacmlFunction::AllOfAll(ig()), &b1, &b2), Ok(boolean(false)));
    // any-of-all: every element of the second bag is exceeded by some element of the first
    assert_eq!(apply_plain_any_of_all(XacmlFunction::AnyOfAll(ig()), &b1, &b2), Ok(boolean(true)));
}

#[test]
fn plain_quantifier_without_inner_function() {
    let b = bag(vec![st("a")]);
    assert_eq!(
        apply_plain_any_of(XacmlFunction::AnyOf(None), &st("a"), &b),
        Err(DispatchError::AbsentInnerFunction { message: "no inner function found in any-of function evaluation" })
    );
}

#[test]
fn plain_resolve_reports_unsupported() {
    assert!(resolve_plain_op(&XacmlFunction::IntegerAdd).is_ok());
    assert_eq!(
        resolve_plain_op(&XacmlFunction::Floor),
        Err(DispatchError::UnsupportedFunction { func: XacmlFunction::Floor })
    );
}

#[test]
fn plain_type_labels() {
    assert_eq!(ival(1).ty(), "Int64/NormalInteger");
    assert_eq!(st("a").ty(), "String");
    assert_eq!(bag(vec![]).ty(), "Bag(IntermediateTypes)");
}

#[test]
fn plain_string_tests_agree_with_std() {
    let samples = ["", "a", "ab", "abc", "bab", "Ab", "ABC", "é", "aé", "éa", "xyzab"];
    for x in samples.iter() {
        for y in samples.iter() {
            let r = eval_plain_binary(XacmlFunction::StringStartsWith, &st(x), &st(y));
            assert_eq!(r, Ok(boolean(x.starts_with(y))), "starts {:?} {:?}", x, y);
            let r = eval_plain_binary(XacmlFunction::StringEndsWith, &st(x), &st(y));
            assert_eq!(r, Ok(boolean(x.ends_with(y))), "ends {:?} {:?}", x, y);
            let r = eval_plain_binary(XacmlFunction::StringContains, &st(x), &st(y));
            assert_eq!(r, Ok(boolean(x.contains(y))), "contains {:?} {:?}", x, y);
            let r = eval_plain_binary(XacmlFunction::StringEqual, &st(x), &st(y));
            assert_eq!(r, Ok(boolean(x == y)), "equal {:?} {:?}", x, y);
            let r = eval_plain_binary(XacmlFunction::StringEqualIgnoreCase, &st(x), &st(y));
            assert_eq!(r, Ok(boolean(x.eq_ignore_ascii_case(y))), "ignore case {:?} {:?}", x, y);
        }
    }
}

#[test]
fn plain_at_least_one_member_of_is_symmetric() {
    let l = bag(vec![st("a"), st("b")]);
    let r = bag(vec![st("c"), st("b")]);
    let f = || XacmlFunction::StringAtLeastOneMemberOf;
    assert_eq!(eval_plain_binary(f(), &l, &r), Ok(boolean(true)));
    assert_eq!(eval_plain_binary(f(), &r, &l), Ok(boolean(true)));
    let r2 = bag(vec![st("c")]);
    assert_eq!(eval_plain_binary(f(), &l, &r2), Ok(boolean(false)));
    assert_eq!(eval_plain_binary(f(), &r2, &l), Ok(boolean(false)));
}

#[test]
fn owned_and_borrowed_plain_evaluators_agree() {
    let cases: Vec<(&str, Vec<Option<IntermediateTypes>>)> = vec![
        ("integer-add", vec![Some(ival(1)), Some(ival(2))]),
        ("integer-less-than-or-equal", vec![Some(ival(3)), Some(ival(2))]),
        ("string-equal", vec![Some(st("a")), None]),
        ("integer-divide", vec![Some(ival(1)), Some(ival(0))]),
    ];
    for (name, args) in cases {
        let owned = evaluate_function_plain_consume(&urn(name), None, args.iter().map(|a| a.as_ref().map(|v| v.duplicate())).collect());
        let borrowed = evaluate_function_plain(&urn(name), None, args.iter().map(|a| a.as_ref()).collect());
        assert_eq!(owned, borrowed, "{}", name);
    }
}
