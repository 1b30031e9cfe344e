//! Checks on the inputs that cross into a session.
//!
//! The limits themselves belong to the embedding application and come through
//! [`InputRules`]. What happens on either verdict is decided here.
use crate::error::FfiValidationError;
use vstd::prelude::*;

verus! {

/// The limits on inputs: each rule accepts a value or names what is wrong with it.
pub trait InputRules {
    /// Is this an amount in satoshis that can exist?
    fn amount_sat(amount_sat: u64) -> Result<(), FfiValidationError>;

    /// May a session last this many seconds?
    fn expiration_secs(seconds: u64) -> Result<(), FfiValidationError>;

    /// Is this an acceptable fee rate in sat/kwu?
    fn fee_rate_sat_per_kwu(value: u64) -> Result<(), FfiValidationError>;

    /// The fee rate in sat/kwu of an acceptable fee rate in sat/vB.
    fn fee_rate_sat_per_vb(value: u64) -> Result<u64, FfiValidationError>;

    /// May `script` stand in `field`?
    fn script(field: &str, script: &Vec<u8>, allow_empty: bool) -> Result<(), FfiValidationError>;

    /// May `script` stand in `field`, where a script may also be absent?
    fn optional_script(field: &str, script: &Vec<u8>) -> Result<(), FfiValidationError>;

    /// Is this an acceptable witness stack?
    fn witness_stack(witness: &Vec<Vec<u8>>) -> Result<(), FfiValidationError>;

    /// Is this an acceptable weight?
    fn weight_units(weight_units: u64) -> Result<(), FfiValidationError>;
}

/// `value` if the rules accepted it, else what they said.
pub open spec fn ruled<T>(verdict: Result<(), FfiValidationError>, value: T) -> Result<
    T,
    FfiValidationError,
> {
    match verdict {
        Ok(()) => Ok(value),
        Err(e) => Err(e),
    }
}

/// Passes an amount that the rules accept.
pub fn validate_amount_sat<R: InputRules>(amount_sat: u64) -> (r: Result<u64, FfiValidationError>)
    ensures
        exists|v: Result<(), FfiValidationError>| #[trigger]
            call_ensures(R::amount_sat, (amount_sat,), v) && r == ruled(v, amount_sat),
{
    match R::amount_sat(amount_sat) {
        Ok(()) => Ok(amount_sat),
        Err(e) => Err(e),
    }
}

/// Passes an expiration that the rules accept.
pub fn validate_expiration_secs<R: InputRules>(seconds: u64) -> (r: Result<u64, FfiValidationError>)
    ensures
        exists|v: Result<(), FfiValidationError>| #[trigger]
            call_ensures(R::expiration_secs, (seconds,), v) && r == ruled(v, seconds),
{
    match R::expiration_secs(seconds) {
        Ok(()) => Ok(seconds),
        Err(e) => Err(e),
    }
}

/// Passes a fee rate in sat/kwu that the rules accept.
pub fn validate_fee_rate_sat_per_kwu<R: InputRules>(value: u64) -> (r: Result<
    u64,
    FfiValidationError,
>)
    ensures
        exists|v: Result<(), FfiValidationError>| #[trigger]
            call_ensures(R::fee_rate_sat_per_kwu, (value,), v) && r == ruled(v, value),
{
    match R::fee_rate_sat_per_kwu(value) {
        Ok(()) => Ok(value),
        Err(e) => Err(e),
    }
}

/// What validating an optional fee rate in sat/kwu may return: nothing is
/// asked of an absent one.
pub open spec fn kwu_validated<R: InputRules>(
    value: Option<u64>,
    r: Result<Option<u64>, FfiValidationError>,
) -> bool {
    match value {
        None => r == Ok::<Option<u64>, FfiValidationError>(None),
        Some(rate) => exists|v: Result<(), FfiValidationError>| #[trigger]
            call_ensures(R::fee_rate_sat_per_kwu, (rate,), v) && r == ruled(v, Some(rate)),
    }
}

/// Passes an optional fee rate in sat/kwu that the rules accept.
pub fn validate_fee_rate_sat_per_kwu_opt<R: InputRules>(value: Option<u64>) -> (r: Result<
    Option<u64>,
    FfiValidationError,
>)
    ensures
        kwu_validated::<R>(value, r),
{
    match value {
        None => Ok(None),
        Some(rate) => match R::fee_rate_sat_per_kwu(rate) {
            Ok(()) => Ok(Some(rate)),
            Err(e) => Err(e),
        },
    }
}

/// What validating an optional fee rate in sat/vB may return, in sat/kwu:
/// nothing is asked of an absent one.
pub open spec fn vb_validated<R: InputRules>(
    value: Option<u64>,
    r: Result<Option<u64>, FfiValidationError>,
) -> bool {
    match value {
        None => r == Ok::<Option<u64>, FfiValidationError>(None),
        Some(rate) => exists|v: Result<u64, FfiValidationError>| #[trigger]
            call_ensures(R::fee_rate_sat_per_vb, (rate,), v) && r == (match v {
                Ok(kwu) => Ok::<Option<u64>, FfiValidationError>(Some(kwu)),
                Err(e) => Err(e),
            }),
    }
}

/// Passes an optional fee rate in sat/vB that the rules accept, in sat/kwu.
pub fn validate_fee_rate_sat_per_vb_opt<R: InputRules>(value: Option<u64>) -> (r: Result<
    Option<u64>,
    FfiValidationError,
>)
    ensures
        vb_validated::<R>(value, r),
{
    match value {
        None => Ok(None),
        Some(rate) => match R::fee_rate_sat_per_vb(rate) {
            Ok(kwu) => Ok(Some(kwu)),
            Err(e) => Err(e),
        },
    }
}

/// Passes a script that the rules accept in `field`.
pub fn validate_script_vec<R: InputRules>(field: &str, script: Vec<u8>, allow_empty: bool) -> (r:
    Result<Vec<u8>, FfiValidationError>)
    ensures
        exists|v: Result<(), FfiValidationError>| #[trigger]
            call_ensures(R::script, (field, &script, allow_empty), v) && r == ruled(v, script),
{
    match R::script(field, &script, allow_empty) {
        Ok(()) => Ok(script),
        Err(e) => Err(e),
    }
}

/// What validating an optional script may return: nothing is asked of an
/// absent one.
pub open spec fn script_validated<R: InputRules>(
    field: &str,
    script: Option<Vec<u8>>,
    r: Result<Option<Vec<u8>>, FfiValidationError>,
) -> bool {
    match script {
        None => r == Ok::<Option<Vec<u8>>, FfiValidationError>(None),
        Some(bytes) => exists|v: Result<(), FfiValidationError>| #[trigger]
            call_ensures(R::optional_script, (field, &bytes), v) && r == ruled(v, Some(bytes)),
    }
}

/// Passes an optional script that the rules accept in `field`.
pub fn validate_optional_script<R: InputRules>(field: &str, script: Option<Vec<u8>>) -> (r: Result<
    Option<Vec<u8>>,
    FfiValidationError,
>)
    ensures
        script_validated::<R>(field, script, r),
{
    match script {
        None => Ok(None),
        Some(bytes) => match R::optional_script(field, &bytes) {
            Ok(()) => Ok(Some(bytes)),
            Err(e) => Err(e),
        },
    }
}

/// Passes a weight that the rules accept.
pub fn validate_weight_units<R: InputRules>(weight_units: u64) -> (r: Result<
    u64,
    FfiValidationError,
>)
    ensures
        exists|v: Result<(), FfiValidationError>| #[trigger]
            call_ensures(R::weight_units, (weight_units,), v) && r == ruled(v, weight_units),
{
    match R::weight_units(weight_units) {
        Ok(()) => Ok(weight_units),
        Err(e) => Err(e),
    }
}

/// What passes a check is what was handed in, and the rule was asked about it
/// and accepted it; an error is what the rule said. This holds of amounts,
/// expirations, fee rates in sat/kwu and weights.
pub proof fn law_numbers_pass_unaltered<R: InputRules>(
    value: u64,
    r: Result<u64, FfiValidationError>,
)
    ensures
        call_ensures(validate_amount_sat::<R>, (value,), r) ==> match r {
            Ok(passed) => passed == value && call_ensures(R::amount_sat, (value,), Ok(())),
            Err(e) => call_ensures(R::amount_sat, (value,), Err(e)),
        },
        call_ensures(validate_expiration_secs::<R>, (value,), r) ==> match r {
            Ok(passed) => passed == value && call_ensures(R::expiration_secs, (value,), Ok(())),
            Err(e) => call_ensures(R::expiration_secs, (value,), Err(e)),
        },
        call_ensures(validate_fee_rate_sat_per_kwu::<R>, (value,), r) ==> match r {
            Ok(passed) => passed == value && call_ensures(
                R::fee_rate_sat_per_kwu,
                (value,),
                Ok(()),
            ),
            Err(e) => call_ensures(R::fee_rate_sat_per_kwu, (value,), Err(e)),
        },
        call_ensures(validate_weight_units::<R>, (value,), r) ==> match r {
            Ok(passed) => passed == value && call_ensures(R::weight_units, (value,), Ok(())),
            Err(e) => call_ensures(R::weight_units, (value,), Err(e)),
        },
{
    lemma_one_way_to_accept::<R>();
}

/// An absent fee rate passes as absent. A rate in sat/kwu that is present
/// passes as it is, if the rule accepts it.
pub proof fn law_optional_kwu_rates_pass_unaltered<R: InputRules>(
    value: Option<u64>,
    r: Result<Option<u64>, FfiValidationError>,
)
    requires
        call_ensures(validate_fee_rate_sat_per_kwu_opt::<R>, (value,), r),
    ensures
        r matches Ok(passed) ==> passed == value,
        value is None ==> r is Ok,
        value matches Some(rate) ==> match r {
            Ok(_) => call_ensures(R::fee_rate_sat_per_kwu, (rate,), Ok(())),
            Err(e) => call_ensures(R::fee_rate_sat_per_kwu, (rate,), Err(e)),
        },
{
    lemma_one_way_to_accept::<R>();
}

/// An absent fee rate passes as absent. A rate in sat/vB that is present passes
/// as the rate in sat/kwu that the rule gives for it.
pub proof fn law_optional_vb_rates_pass_as_the_rule_says<R: InputRules>(
    value: Option<u64>,
    r: Result<Option<u64>, FfiValidationError>,
)
    requires
        call_ensures(validate_fee_rate_sat_per_vb_opt::<R>, (value,), r),
    ensures
        value is None ==> r == Ok::<Option<u64>, FfiValidationError>(None),
        value matches Some(rate) ==> match r {
            Ok(passed) => passed matches Some(kwu) && call_ensures(
                R::fee_rate_sat_per_vb,
                (rate,),
                Ok(kwu),
            ),
            Err(e) => call_ensures(R::fee_rate_sat_per_vb, (rate,), Err(e)),
        },
{
    lemma_one_way_to_accept::<R>();
}

/// A script that passes is the script that was handed in, and the rule was
/// asked about it by the name of its field.
pub proof fn law_scripts_pass_unaltered<R: InputRules>(
    field: &str,
    script: Vec<u8>,
    allow_empty: bool,
    r: Result<Vec<u8>, FfiValidationError>,
)
    requires
        call_ensures(validate_script_vec::<R>, (field, script, allow_empty), r),
    ensures
        match r {
            Ok(passed) => passed == script && call_ensures(
                R::script,
                (field, &script, allow_empty),
                Ok(()),
            ),
            Err(e) => call_ensures(R::script, (field, &script, allow_empty), Err(e)),
        },
{
    lemma_one_way_to_accept::<R>();
}

/// An absent script passes as absent. One that is present passes as it is, if
/// the rule accepts it by the name of its field.
pub proof fn law_optional_scripts_pass_unaltered<R: InputRules>(
    field: &str,
    script: Option<Vec<u8>>,
    r: Result<Option<Vec<u8>>, FfiValidationError>,
)
    requires
        call_ensures(validate_optional_script::<R>, (field, script), r),
    ensures
        r matches Ok(passed) ==> passed == script,
        script is None ==> r is Ok,
        script matches Some(bytes) ==> match r {
            Ok(_) => call_ensures(R::optional_script, (field, &bytes), Ok(())),
            Err(e) => call_ensures(R::optional_script, (field, &bytes), Err(e)),
        },
{
    lemma_one_way_to_accept::<R>();
}

proof fn lemma_unit_verdict(v: Result<(), FfiValidationError>)
    requires
        v is Ok,
    ensures
        v == Ok::<(), FfiValidationError>(()),
{
    assert(v->Ok_0 == ());
}

/// A rule has one way to accept a value.
pub proof fn lemma_one_way_to_accept<R: InputRules>()
    ensures
        forall|x: u64, v: Result<(), FfiValidationError>| #[trigger]
            call_ensures(R::amount_sat, (x,), v) && v is Ok ==> v == Ok::<
                (),
                FfiValidationError,
            >(()),
        forall|x: u64, v: Result<(), FfiValidationError>| #[trigger]
            call_ensures(R::expiration_secs, (x,), v) && v is Ok ==> v == Ok::<
                (),
                FfiValidationError,
            >(()),
        forall|x: u64, v: Result<(), FfiValidationError>| #[trigger]
            call_ensures(R::fee_rate_sat_per_kwu, (x,), v) && v is Ok ==> v == Ok::<
                (),
                FfiValidationError,
            >(()),
        forall|field: &str, x: &Vec<u8>, empty: bool, v: Result<(), FfiValidationError>| #[trigger]
            call_ensures(R::script, (field, x, empty), v) && v is Ok ==> v == Ok::<
                (),
                FfiValidationError,
            >(()),
        forall|field: &str, x: &Vec<u8>, v: Result<(), FfiValidationError>| #[trigger]
            call_ensures(R::optional_script, (field, x), v) && v is Ok ==> v == Ok::<
                (),
                FfiValidationError,
            >(()),
        forall|x: &Vec<Vec<u8>>, v: Result<(), FfiValidationError>| #[trigger]
            call_ensures(R::witness_stack, (x,), v) && v is Ok ==> v == Ok::<
                (),
                FfiValidationError,
            >(()),
        forall|x: u64, v: Result<(), FfiValidationError>| #[trigger]
            call_ensures(R::weight_units, (x,), v) && v is Ok ==> v == Ok::<
                (),
                FfiValidationError,
            >(()),
{
    assert forall|x: u64, v: Result<(), FfiValidationError>| #[trigger]
        call_ensures(R::amount_sat, (x,), v) && v is Ok implies v == Ok::<
        (),
        FfiValidationError,
    >(()) by {
        lemma_unit_verdict(v);
    }
    assert forall|x: u64, v: Result<(), FfiValidationError>| #[trigger]
        call_ensures(R::expiration_secs, (x,), v) && v is Ok implies v == Ok::<
        (),
        FfiValidationError,
    >(()) by {
        lemma_unit_verdict(v);
    }
    assert forall|x: u64, v: Result<(), FfiValidationError>| #[trigger]
        call_ensures(R::fee_rate_sat_per_kwu, (x,), v) && v is Ok implies v == Ok::<
        (),
        FfiValidationError,
    >(()) by {
        lemma_unit_verdict(v);
    }
    assert forall|field: &str, x: &Vec<u8>, empty: bool, v: Result<(), FfiValidationError>|
        #[trigger] call_ensures(R::script, (field, x, empty), v) && v is Ok implies v == Ok::<
        (),
        FfiValidationError,
    >(()) by {
        lemma_unit_verdict(v);
    }
    assert forall|field: &str, x: &Vec<u8>, v: Result<(), FfiValidationError>| #[trigger]
        call_ensures(R::optional_script, (field, x), v) && v is Ok implies v == Ok::<
        (),
        FfiValidationError,
    >(()) by {
        lemma_unit_verdict(v);
    }
    assert forall|x: &Vec<Vec<u8>>, v: Result<(), FfiValidationError>| #[trigger]
        call_ensures(R::witness_stack, (x,), v) && v is Ok implies v == Ok::<
        (),
        FfiValidationError,
    >(()) by {
        lemma_unit_verdict(v);
    }
    assert forall|x: u64, v: Result<(), FfiValidationError>| #[trigger]
        call_ensures(R::weight_units, (x,), v) && v is Ok implies v == Ok::<
        (),
        FfiValidationError,
    >(()) by {
        lemma_unit_verdict(v);
    }
}

} // verus!
