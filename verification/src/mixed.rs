//! Evaluation over arguments of which some may be encrypted and some plain.
//!
//! Where no argument is encrypted the plain evaluator runs. As soon as one
//! argument is encrypted, every plain argument is encrypted trivially and the
//! encrypted evaluator runs over all of them.

use vstd::prelude::*;
use crate::agreement::{encrypts, encrypts_args, lemma_encrypted_call_agrees, lemma_trivial_encrypts, refinable};
use crate::cipher::{ClearV, EValue, EncryptedTypes, trivial_value};
use crate::constants::{opt_view, XacmlFunction};
use crate::enc::erv;
use crate::enc_bags::owned_eargs;
use crate::enc_dispatch::evaluate_function_consume;
use crate::enc_spec::{EOutcome, eargs_fit, esem_call};
use crate::intermediate::{IntermediateTypes, Value};
use crate::plain::rv;
use crate::plain_bags::borrowed_args;
use crate::plain_dispatch::evaluate_function_plain;
use crate::plain_spec::sem_call;

verus! {

/// An attribute value that is either encrypted or plain.
#[derive(Debug, PartialEq)]
pub enum MixedTypes {
    EncryptedType(EncryptedTypes),
    IntermediateType(IntermediateTypes),
}

/// Why a mixed evaluation failed: the error of the evaluator that ran.
#[derive(Debug, PartialEq)]
pub enum DispatchError {
    EncryptedDispatchError(crate::plain::DispatchError),
    PlainDispatchError(crate::plain::DispatchError),
}

/// The outcome of a mixed evaluation, by the evaluator that produced it.
pub enum MixedOutcome {
    Encrypted(EOutcome),
    Plain(Result<Value, crate::plain::DispatchError>),
    Unspecified,
}

/// The model of a mixed evaluation's result.
pub open spec fn mrv(r: Result<MixedTypes, DispatchError>) -> MixedOutcome {
    match r {
        Ok(MixedTypes::EncryptedType(e)) => MixedOutcome::Encrypted(Ok(e.value())),
        Err(DispatchError::EncryptedDispatchError(e)) => MixedOutcome::Encrypted(Err(e)),
        Ok(MixedTypes::IntermediateType(p)) => MixedOutcome::Plain(Ok(p.value())),
        Err(DispatchError::PlainDispatchError(e)) => MixedOutcome::Plain(Err(e)),
    }
}

/// The model of a mixed value.
pub enum MValue {
    Encrypted(EValue),
    Plain(Value),
}

impl MixedTypes {
    /// The model of this value.
    pub open spec fn value(self) -> MValue {
        match self {
            MixedTypes::EncryptedType(e) => MValue::Encrypted(e.value()),
            MixedTypes::IntermediateType(p) => MValue::Plain(p.value()),
        }
    }
}

/// The models of owned, possibly missing arguments.
pub open spec fn owned_margs(args: Seq<Option<MixedTypes>>) -> Seq<Option<MValue>> {
    args.map_values(|o: Option<MixedTypes>| match o {
        Some(m) => Some(m.value()),
        None => None,
    })
}

/// Whether an argument is present and encrypted.
pub open spec fn is_encrypted(o: Option<MValue>) -> bool {
    o matches Some(MValue::Encrypted(_))
}

/// Whether some argument is present and encrypted.
pub open spec fn any_encrypted(args: Seq<Option<MValue>>) -> bool {
    exists|i: int| 0 <= i < args.len() && is_encrypted(#[trigger] args[i])
}

/// The encrypted form of an argument: itself if encrypted, its trivial
/// encryption if plain.
pub open spec fn lift(m: MValue) -> EValue {
    match m {
        MValue::Encrypted(e) => e,
        MValue::Plain(p) => trivial_value(p),
    }
}

/// The arguments handed to the encrypted evaluator.
pub open spec fn lifted_args(args: Seq<Option<MValue>>) -> Seq<Option<EValue>> {
    args.map_values(|o: Option<MValue>| match o {
        Some(m) => Some(lift(m)),
        None => None,
    })
}

/// The arguments handed to the plain evaluator (where none is encrypted).
pub open spec fn plain_args(args: Seq<Option<MValue>>) -> Seq<Option<Value>> {
    args.map_values(|o: Option<MValue>| match o {
        Some(MValue::Plain(p)) => Some(p),
        _ => None,
    })
}

/// What the evaluator that runs needs of the arguments of `f`.
pub open spec fn mixed_fits(f: XacmlFunction, args: Seq<Option<MValue>>) -> bool {
    if any_encrypted(args) {
        !(f is StringBag || f is And || f is Or) ==> eargs_fit(f, lifted_args(args))
    } else {
        sem_call(f, plain_args(args)) is Some
    }
}

/// The outcome of calling `f` over mixed arguments: where some argument is
/// encrypted, the outcome of the encrypted evaluator (`esem_call`, as
/// `evaluate_function_consume` states it) over the arguments with each plain
/// one trivially encrypted; otherwise the outcome of the plain evaluator
/// (`sem_call`, as `evaluate_function_plain` states it) over the plain values.
pub open spec fn mixed_call(f: XacmlFunction, args: Seq<Option<MValue>>) -> MixedOutcome {
    if any_encrypted(args) {
        MixedOutcome::Encrypted(esem_call(f, lifted_args(args)))
    } else {
        match sem_call(f, plain_args(args)) {
            Some(o) => MixedOutcome::Plain(o),
            None => MixedOutcome::Unspecified,
        }
    }
}

/// The error for a URN that names no function, from the evaluator that ran.
pub open spec fn urn_not_found(r: Result<MixedTypes, DispatchError>, urn: Seq<char>, args: Seq<Option<MValue>>) -> bool {
    let inner = if any_encrypted(args) {
        match r {
            Err(DispatchError::EncryptedDispatchError(e)) => Some(e),
            _ => None,
        }
    } else {
        match r {
            Err(DispatchError::PlainDispatchError(e)) => Some(e),
            _ => None,
        }
    };
    inner matches Some(crate::plain::DispatchError::NotFoundOperatorFromUrn { message, not_found })
        && message == "Did not find the operator from the URN " && not_found@ == urn
}

/// The arguments of a call that passes every argument as present.
pub open spec fn all_present(args: Seq<MixedTypes>) -> Seq<Option<MValue>> {
    args.map_values(|m: MixedTypes| Some(m.value()))
}

/// The arguments of a call that passes borrowed, possibly missing arguments.
pub open spec fn borrowed_margs(args: Seq<Option<&MixedTypes>>) -> Seq<Option<MValue>> {
    args.map_values(|o: Option<&MixedTypes>| match o {
        Some(m) => Some(m.value()),
        None => None,
    })
}

/// The arguments of a call that passes borrowed arguments, all present.
pub open spec fn borrowed_present(args: Seq<&MixedTypes>) -> Seq<Option<MValue>> {
    args.map_values(|m: &MixedTypes| Some(m.value()))
}

impl MixedTypes {
    /// A copy of this value.
    pub fn duplicate(&self) -> (r: MixedTypes)
        ensures
            r.value() == self.value(),
    {
        match self {
            MixedTypes::EncryptedType(e) => MixedTypes::EncryptedType(e.duplicate()),
            MixedTypes::IntermediateType(p) => MixedTypes::IntermediateType(p.duplicate()),
        }
    }
}

/// The encrypted form of one argument.
fn lift_one(m: &MixedTypes) -> (r: EncryptedTypes)
    ensures
        r.value() == lift(m.value()),
{
    match m {
        MixedTypes::EncryptedType(e) => e.duplicate(),
        MixedTypes::IntermediateType(p) => p.trivial_enc(),
    }
}

/// Whether some argument is present and encrypted.
fn find_encrypted(args: &Vec<Option<MixedTypes>>) -> (b: bool)
    ensures
        b == any_encrypted(owned_margs(args@)),
{
    let mut i: usize = 0;
    while i < args.len()
        invariant
            i <= args.len(),
            forall|j: int| 0 <= j < i ==> !is_encrypted(#[trigger] owned_margs(args@)[j]),
        decreases args.len() - i,
    {
        if let Some(MixedTypes::EncryptedType(_)) = &args[i] {
            assert(is_encrypted(owned_margs(args@)[i as int]));
            return true;
        }
        i = i + 1;
    }
    false
}

/// Runs the evaluator that the arguments call for.
fn evaluate_mixed_args(urn: &str, urn2: Option<&str>, arguments: &Vec<Option<MixedTypes>>) -> (r: Result<MixedTypes, DispatchError>)
    requires
        XacmlFunction::urn_accepted(urn@, opt_view(urn2)),
        match XacmlFunction::spec_from_urn(urn@, opt_view(urn2)) {
            Some(f) => mixed_fits(f, owned_margs(arguments@)),
            None => true,
        },
    ensures
        match XacmlFunction::spec_from_urn(urn@, opt_view(urn2)) {
            Some(f) => mrv(r) == mixed_call(f, owned_margs(arguments@)),
            None => urn_not_found(r, urn@, owned_margs(arguments@)),
        },
{
    if find_encrypted(arguments) {
        let mut encrypted: Vec<Option<EncryptedTypes>> = Vec::new();
        let mut i: usize = 0;
        while i < arguments.len()
            invariant
                i <= arguments.len(),
                encrypted.len() == i,
                owned_eargs(encrypted@) =~= lifted_args(owned_margs(arguments@)).subrange(0, i as int),
            decreases arguments.len() - i,
        {
            let e = match &arguments[i] {
                Some(m) => Some(lift_one(m)),
                None => None,
            };
            encrypted.push(e);
            assert(owned_eargs(encrypted@) =~= lifted_args(owned_margs(arguments@)).subrange(0, i + 1));
            i = i + 1;
        }
        assert(owned_eargs(encrypted@) =~= lifted_args(owned_margs(arguments@)).subrange(0, arguments@.len() as int));
        assert(lifted_args(owned_margs(arguments@)).subrange(0, arguments@.len() as int) =~= lifted_args(owned_margs(arguments@)));
        match evaluate_function_consume(urn, urn2, encrypted) {
            Ok(v) => Ok(MixedTypes::EncryptedType(v)),
            Err(e) => Err(DispatchError::EncryptedDispatchError(e)),
        }
    } else {
        let mut plain: Vec<Option<&IntermediateTypes>> = Vec::new();
        let mut i: usize = 0;
        while i < arguments.len()
            invariant
                i <= arguments.len(),
                plain.len() == i,
                !any_encrypted(owned_margs(arguments@)),
                borrowed_args(plain@) =~= plain_args(owned_margs(arguments@)).subrange(0, i as int),
            decreases arguments.len() - i,
        {
            let p = match &arguments[i] {
                Some(MixedTypes::IntermediateType(v)) => Some(v),
                Some(MixedTypes::EncryptedType(_)) => {
                    assert(is_encrypted(owned_margs(arguments@)[i as int]));
                    None
                },
                None => None,
            };
            plain.push(p);
            assert(borrowed_args(plain@) =~= plain_args(owned_margs(arguments@)).subrange(0, i + 1));
            i = i + 1;
        }
        assert(plain_args(owned_margs(arguments@)).subrange(0, arguments@.len() as int) =~= plain_args(owned_margs(arguments@)));
        let r = evaluate_function_plain(urn, urn2, plain);
        match r {
            Ok(v) => Ok(MixedTypes::IntermediateType(v)),
            Err(e) => Err(DispatchError::PlainDispatchError(e)),
        }
    }
}

/// Evaluates the function named by `urn` (and `urn2`, for a quantified
/// function) over owned, possibly missing arguments: with the encrypted
/// evaluator if some argument is encrypted (plain ones are encrypted
/// trivially), with the plain evaluator otherwise.
pub fn evaluate_function_mixed_consume(urn: &str, urn2: Option<&str>, arguments: Vec<Option<MixedTypes>>) -> (r: Result<MixedTypes, DispatchError>)
    requires
        XacmlFunction::urn_accepted(urn@, opt_view(urn2)),
        match XacmlFunction::spec_from_urn(urn@, opt_view(urn2)) {
            Some(f) => mixed_fits(f, owned_margs(arguments@)),
            None => true,
        },
    ensures
        match XacmlFunction::spec_from_urn(urn@, opt_view(urn2)) {
            Some(f) => mrv(r) == mixed_call(f, owned_margs(arguments@)),
            None => urn_not_found(r, urn@, owned_margs(arguments@)),
        },
{
    evaluate_mixed_args(urn, urn2, &arguments)
}

/// As [`evaluate_function_mixed_consume`], over owned arguments that are all
/// present.
pub fn evaluate_function_mixed_consume_no_option(urn: &str, urn2: Option<&str>, arguments: Vec<MixedTypes>) -> (r: Result<MixedTypes, DispatchError>)
    requires
        XacmlFunction::urn_accepted(urn@, opt_view(urn2)),
        match XacmlFunction::spec_from_urn(urn@, opt_view(urn2)) {
            Some(f) => mixed_fits(f, all_present(arguments@)),
            None => true,
        },
    ensures
        match XacmlFunction::spec_from_urn(urn@, opt_view(urn2)) {
            Some(f) => mrv(r) == mixed_call(f, all_present(arguments@)),
            None => urn_not_found(r, urn@, all_present(arguments@)),
        },
{
    let mut args: Vec<Option<MixedTypes>> = Vec::new();
    let mut i: usize = 0;
    while i < arguments.len()
        invariant
            i <= arguments.len(),
            args.len() == i,
            owned_margs(args@) =~= all_present(arguments@).subrange(0, i as int),
        decreases arguments.len() - i,
    {
        let d = arguments[i].duplicate();
        args.push(Some(d));
        assert(owned_margs(args@) =~= all_present(arguments@).subrange(0, i + 1));
        i = i + 1;
    }
    assert(all_present(arguments@).subrange(0, arguments@.len() as int) =~= all_present(arguments@));
    evaluate_mixed_args(urn, urn2, &args)
}

/// As [`evaluate_function_mixed_consume`], over borrowed, possibly missing
/// arguments.
pub fn evaluate_function_mixed(urn: &str, urn2: Option<&str>, arguments: Vec<Option<&MixedTypes>>) -> (r: Result<MixedTypes, DispatchError>)
    requires
        XacmlFunction::urn_accepted(urn@, opt_view(urn2)),
        match XacmlFunction::spec_from_urn(urn@, opt_view(urn2)) {
            Some(f) => mixed_fits(f, borrowed_margs(arguments@)),
            None => true,
        },
    ensures
        match XacmlFunction::spec_from_urn(urn@, opt_view(urn2)) {
            Some(f) => mrv(r) == mixed_call(f, borrowed_margs(arguments@)),
            None => urn_not_found(r, urn@, borrowed_margs(arguments@)),
        },
{
    let mut args: Vec<Option<MixedTypes>> = Vec::new();
    let mut i: usize = 0;
    while i < arguments.len()
        invariant
            i <= arguments.len(),
            args.len() == i,
            owned_margs(args@) =~= borrowed_margs(arguments@).subrange(0, i as int),
        decreases arguments.len() - i,
    {
        let d = match arguments[i] {
            Some(m) => Some(m.duplicate()),
            None => None,
        };
        args.push(d);
        assert(owned_margs(args@) =~= borrowed_margs(arguments@).subrange(0, i + 1));
        i = i + 1;
    }
    assert(borrowed_margs(arguments@).subrange(0, arguments@.len() as int) =~= borrowed_margs(arguments@));
    evaluate_mixed_args(urn, urn2, &args)
}

/// As [`evaluate_function_mixed_consume`], over borrowed arguments that are
/// all present.
pub fn evaluate_function_mixed_no_option(urn: &str, urn2: Option<&str>, arguments: Vec<&MixedTypes>) -> (r: Result<MixedTypes, DispatchError>)
    requires
        XacmlFunction::urn_accepted(urn@, opt_view(urn2)),
        match XacmlFunction::spec_from_urn(urn@, opt_view(urn2)) {
            Some(f) => mixed_fits(f, borrowed_present(arguments@)),
            None => true,
        },
    ensures
        match XacmlFunction::spec_from_urn(urn@, opt_view(urn2)) {
            Some(f) => mrv(r) == mixed_call(f, borrowed_present(arguments@)),
            None => urn_not_found(r, urn@, borrowed_present(arguments@)),
        },
{
    let mut args: Vec<Option<MixedTypes>> = Vec::new();
    let mut i: usize = 0;
    while i < arguments.len()
        invariant
            i <= arguments.len(),
            args.len() == i,
            owned_margs(args@) =~= borrowed_present(arguments@).subrange(0, i as int),
        decreases arguments.len() - i,
    {
        let d = arguments[i].duplicate();
        args.push(Some(d));
        assert(owned_margs(args@) =~= borrowed_present(arguments@).subrange(0, i + 1));
        i = i + 1;
    }
    assert(borrowed_present(arguments@).subrange(0, arguments@.len() as int) =~= borrowed_present(arguments@));
    evaluate_mixed_args(urn, urn2, &args)
}

/// Pointwise correspondence of mixed arguments with plain values: an
/// encrypted argument encrypts the value, a plain argument is the value.
pub open spec fn mixed_encrypts(margs: Seq<Option<MValue>>, env: Map<u64, ClearV>, args: Seq<Option<Value>>) -> bool {
    margs.len() == args.len() && forall|i: int| 0 <= i < margs.len() ==> match (#[trigger] margs[i], args[i]) {
        (Some(MValue::Encrypted(e)), Some(v)) => encrypts(e, env, v),
        (Some(MValue::Plain(p)), Some(v)) => p == v,
        (None, None) => true,
        _ => false,
    }
}

/// Mixed evaluation agrees with plain evaluation. Take mixed arguments that
/// stand for the plain values `args` (each encrypted one encrypts its value,
/// each plain one is its value), for a function in which no e-mail name
/// equality or integer-mod occurs. If no argument is encrypted, the mixed
/// outcome is the plain outcome over `args`; otherwise, whenever the plain
/// evaluation succeeds, the encrypted evaluation succeeds too and its result
/// is an encryption of the plain result.
pub proof fn lemma_mixed_call_agrees(
    f: XacmlFunction,
    env: Map<u64, ClearV>,
    margs: Seq<Option<MValue>>,
    args: Seq<Option<Value>>,
)
    requires
        refinable(f),
        mixed_encrypts(margs, env, args),
        mixed_fits(f, margs),
    ensures
        match mixed_call(f, margs) {
            MixedOutcome::Plain(o) => sem_call(f, args) == Some(o),
            MixedOutcome::Encrypted(r) => sem_call(f, args) matches Some(Ok(v)) ==> r is Ok && encrypts(
                r->Ok_0,
                env,
                v,
            ),
            MixedOutcome::Unspecified => false,
        },
{
    if any_encrypted(margs) {
        let eargs = lifted_args(margs);
        assert forall|i: int| 0 <= i < eargs.len() implies match (#[trigger] eargs[i], args[i]) {
            (Some(e), Some(v)) => encrypts(e, env, v),
            (None, None) => true,
            _ => false,
        } by {
            assert(match (margs[i], args[i]) {
                (Some(MValue::Encrypted(e)), Some(v)) => encrypts(e, env, v),
                (Some(MValue::Plain(p)), Some(v)) => p == v,
                (None, None) => true,
                _ => false,
            });
            if let Some(MValue::Plain(p)) = margs[i] {
                lemma_trivial_encrypts(p, env);
            }
        }
        assert(encrypts_args(eargs, env, args));
        if sem_call(f, args) matches Some(Ok(_)) {
            lemma_encrypted_call_agrees(f, env, eargs, args);
        }
    } else {
        assert forall|i: int| 0 <= i < args.len() implies #[trigger] plain_args(margs)[i] == args[i] by {
            assert(match (margs[i], args[i]) {
                (Some(MValue::Encrypted(e)), Some(v)) => encrypts(e, env, v),
                (Some(MValue::Plain(p)), Some(v)) => p == v,
                (None, None) => true,
                _ => false,
            });
            assert(!is_encrypted(margs[i]));
        }
        assert(plain_args(margs) =~= args);
    }
}

} // verus!
