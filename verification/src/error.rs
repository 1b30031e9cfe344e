//! Errors shared by both roles.
use crate::text::{decimal, decimal_text, Message};
use vstd::prelude::*;
use vstd::string::*;

verus! {

/// Error arising due to the specific implementation around a session, e.g.
/// database errors, network failures, wallet errors.
#[derive(Debug)]
pub struct ImplementationError {
    /// What went wrong.
    pub msg: String,
}

impl ImplementationError {
    /// Wraps an error of the implementation, keeping its message.
    pub fn new<X: Message>(e: X) -> (r: Self)
        ensures
            r.text() == e.text(),
    {
        ImplementationError { msg: e.message() }
    }
}

impl Message for ImplementationError {
    open spec fn text(&self) -> Seq<char> {
        self.msg@
    }

    fn message(&self) -> (r: String) {
        self.msg.clone()
    }
}

/// Error reading or writing JSON.
#[derive(Debug)]
pub struct SerdeJsonError {
    /// What went wrong.
    pub msg: String,
}

impl Message for SerdeJsonError {
    open spec fn text(&self) -> Seq<char> {
        "Error de/serializing JSON object: "@ + self.msg@
    }

    fn message(&self) -> (r: String) {
        "Error de/serializing JSON object: ".to_owned().concat(self.msg.as_str())
    }
}

/// An input was refused before it reached the protocol.
#[derive(Debug)]
pub enum FfiValidationError {
    /// An amount is above what can exist.
    AmountOutOfRange { amount_sat: u64, max_sat: u64 },
    /// A script that must not be empty is.
    ScriptEmpty { field: String },
    /// A script is too long.
    ScriptTooLarge { field: String, len: u64, max: u64 },
    /// A witness stack has too many items.
    WitnessItemsTooMany { count: u64, max: u64 },
    /// An item of a witness stack is too long.
    WitnessItemTooLarge { index: u64, len: u64, max: u64 },
    /// The items of a witness stack are too long together.
    WitnessTooLarge { len: u64, max: u64 },
    /// A weight is too large.
    WeightOutOfRange { weight_units: u64, max_wu: u64 },
    /// A fee rate is too large.
    FeeRateOutOfRange { value: u64, unit: String },
    /// An expiration is too far away.
    ExpirationOutOfRange { seconds: u64, max: u64 },
}

impl Message for FfiValidationError {
    open spec fn text(&self) -> Seq<char> {
        match self {
            FfiValidationError::AmountOutOfRange { amount_sat, max_sat } => "Amount out of range: "@
                + decimal(*amount_sat as nat) + " sats (max "@ + decimal(*max_sat as nat) + ")"@,
            FfiValidationError::ScriptEmpty { field } => field@ + " script is empty"@,
            FfiValidationError::ScriptTooLarge { field, len, max } => field@
                + " script too large: "@ + decimal(*len as nat) + " bytes (max "@ + decimal(
                *max as nat,
            ) + ")"@,
            FfiValidationError::WitnessItemsTooMany { count, max } => "Witness stack has "@
                + decimal(*count as nat) + " items (max "@ + decimal(*max as nat) + ")"@,
            FfiValidationError::WitnessItemTooLarge { index, len, max } => "Witness item "@
                + decimal(*index as nat) + " too large: "@ + decimal(*len as nat) + " bytes (max "@
                + decimal(*max as nat) + ")"@,
            FfiValidationError::WitnessTooLarge { len, max } => "Witness stack too large: "@
                + decimal(*len as nat) + " bytes (max "@ + decimal(*max as nat) + ")"@,
            FfiValidationError::WeightOutOfRange { weight_units, max_wu } =>
            "Weight out of range: "@ + decimal(*weight_units as nat) + " wu (max "@ + decimal(
                *max_wu as nat,
            ) + ")"@,
            FfiValidationError::FeeRateOutOfRange { value, unit } => "Fee rate out of range: "@
                + decimal(*value as nat) + " "@ + unit@,
            FfiValidationError::ExpirationOutOfRange { seconds, max } =>
            "Expiration out of range: "@ + decimal(*seconds as nat) + " seconds (max "@ + decimal(
                *max as nat,
            ) + ")"@,
        }
    }

    fn message(&self) -> (r: String) {
        match self {
            FfiValidationError::AmountOutOfRange { amount_sat, max_sat } => limit_text(
                "Amount out of range: ",
                *amount_sat,
                " sats (max ",
                *max_sat,
            ),
            FfiValidationError::ScriptEmpty { field } => field.clone().concat(" script is empty"),
            FfiValidationError::ScriptTooLarge { field, len, max } => {
                let mut s = field.clone().concat(" script too large: ");
                s.append(decimal_text(*len).as_str());
                s.append(" bytes (max ");
                s.append(decimal_text(*max).as_str());
                s.append(")");
                s
            },
            FfiValidationError::WitnessItemsTooMany { count, max } => limit_text(
                "Witness stack has ",
                *count,
                " items (max ",
                *max,
            ),
            FfiValidationError::WitnessItemTooLarge { index, len, max } => {
                let mut s = "Witness item ".to_owned();
                s.append(decimal_text(*index).as_str());
                s.append(" too large: ");
                s.append(decimal_text(*len).as_str());
                s.append(" bytes (max ");
                s.append(decimal_text(*max).as_str());
                s.append(")");
                s
            },
            FfiValidationError::WitnessTooLarge { len, max } => limit_text(
                "Witness stack too large: ",
                *len,
                " bytes (max ",
                *max,
            ),
            FfiValidationError::WeightOutOfRange { weight_units, max_wu } => limit_text(
                "Weight out of range: ",
                *weight_units,
                " wu (max ",
                *max_wu,
            ),
            FfiValidationError::FeeRateOutOfRange { value, unit } => {
                let mut s = "Fee rate out of range: ".to_owned();
                s.append(decimal_text(*value).as_str());
                s.append(" ");
                s.append(unit.as_str());
                s
            },
            FfiValidationError::ExpirationOutOfRange { seconds, max } => limit_text(
                "Expiration out of range: ",
                *seconds,
                " seconds (max ",
                *max,
            ),
        }
    }
}

fn limit_text(what: &str, value: u64, unit: &str, max: u64) -> (r: String)
    ensures
        r@ == what@ + decimal(value as nat) + unit@ + decimal(max as nat) + ")"@,
{
    let mut s = what.to_owned();
    s.append(decimal_text(value).as_str());
    s.append(unit);
    s.append(decimal_text(max).as_str());
    s.append(")");
    s
}

/// Error reported by a callback of the embedding application.
#[derive(Debug, PartialEq, Eq)]
pub enum ForeignError {
    /// The callback failed.
    InternalError(String),
}

impl Message for ForeignError {
    open spec fn text(&self) -> Seq<char> {
        match self {
            ForeignError::InternalError(msg) => "Internal error: "@ + msg@,
        }
    }

    fn message(&self) -> (r: String) {
        match self {
            ForeignError::InternalError(msg) => "Internal error: ".to_owned().concat(msg.as_str()),
        }
    }
}

/// Why a provisional was not confirmed. The same for both roles.
#[derive(Debug, Clone, Copy, PartialEq, Eq, Structural)]
pub enum ProvisionalConfirmError {
    /// The provisional was already confirmed and consumed.
    AlreadyConsumed,
    /// The producing event is not yet durable in the supplied buffer. Drain
    /// more events through storage and confirm again: the provisional is still
    /// reusable.
    NotYetPersisted,
    /// The supplied buffer is not the one the provisional was minted against.
    /// Retrying with the same buffer will never succeed.
    WrongBuffer,
}

impl Message for ProvisionalConfirmError {
    open spec fn text(&self) -> Seq<char> {
        match self {
            ProvisionalConfirmError::AlreadyConsumed =>
            "Provisional was already confirmed and consumed"@,
            ProvisionalConfirmError::NotYetPersisted =>
            "Event not yet persisted in buffer; drain and retry"@,
            ProvisionalConfirmError::WrongBuffer =>
            "Provisional confirmed against the wrong EventBuffer"@,
        }
    }

    fn message(&self) -> (r: String) {
        match self {
            ProvisionalConfirmError::AlreadyConsumed =>
            "Provisional was already confirmed and consumed".to_owned(),
            ProvisionalConfirmError::NotYetPersisted =>
            "Event not yet persisted in buffer; drain and retry".to_owned(),
            ProvisionalConfirmError::WrongBuffer =>
            "Provisional confirmed against the wrong EventBuffer".to_owned(),
        }
    }
}

/// What a refused input is told names the value and the limit, each in its
/// place.
pub proof fn law_refusals_name_value_and_limit(e: FfiValidationError, msg: String)
    requires
        call_ensures(<FfiValidationError as Message>::message, (&e,), msg),
    ensures
        match e {
            FfiValidationError::AmountOutOfRange { amount_sat, max_sat } => msg@
                == "Amount out of range: "@ + decimal(amount_sat as nat) + " sats (max "@ + decimal(
                max_sat as nat,
            ) + ")"@,
            FfiValidationError::ScriptEmpty { field } => msg@ == field@ + " script is empty"@,
            FfiValidationError::ScriptTooLarge { field, len, max } => msg@ == field@
                + " script too large: "@ + decimal(len as nat) + " bytes (max "@ + decimal(
                max as nat,
            ) + ")"@,
            FfiValidationError::WitnessItemsTooMany { count, max } => msg@ == "Witness stack has "@
                + decimal(count as nat) + " items (max "@ + decimal(max as nat) + ")"@,
            FfiValidationError::WitnessItemTooLarge { index, len, max } => msg@ == "Witness item "@
                + decimal(index as nat) + " too large: "@ + decimal(len as nat) + " bytes (max "@
                + decimal(max as nat) + ")"@,
            FfiValidationError::WitnessTooLarge { len, max } => msg@
                == "Witness stack too large: "@ + decimal(len as nat) + " bytes (max "@ + decimal(
                max as nat,
            ) + ")"@,
            FfiValidationError::WeightOutOfRange { weight_units, max_wu } => msg@
                == "Weight out of range: "@ + decimal(weight_units as nat) + " wu (max "@ + decimal(
                max_wu as nat,
            ) + ")"@,
            FfiValidationError::FeeRateOutOfRange { value, unit } => msg@
                == "Fee rate out of range: "@ + decimal(value as nat) + " "@ + unit@,
            FfiValidationError::ExpirationOutOfRange { seconds, max } => msg@
                == "Expiration out of range: "@ + decimal(seconds as nat) + " seconds (max "@
                + decimal(max as nat) + ")"@,
        },
{
}

/// The errors that both roles share say what they are and what went wrong.
pub proof fn law_shared_errors_say_what_went_wrong(
    implementation: ImplementationError,
    serde: SerdeJsonError,
    foreign: ForeignError,
    confirm: ProvisionalConfirmError,
    msg: String,
)
    ensures
        call_ensures(<ImplementationError as Message>::message, (&implementation,), msg) ==> msg@
            == implementation.msg@,
        call_ensures(<SerdeJsonError as Message>::message, (&serde,), msg) ==> msg@
            == "Error de/serializing JSON object: "@ + serde.msg@,
        call_ensures(<ForeignError as Message>::message, (&foreign,), msg) ==> msg@
            == "Internal error: "@ + foreign->InternalError_0@,
        call_ensures(<ProvisionalConfirmError as Message>::message, (&confirm,), msg) ==> msg@ == (
        match confirm {
            ProvisionalConfirmError::AlreadyConsumed =>
            "Provisional was already confirmed and consumed"@,
            ProvisionalConfirmError::NotYetPersisted =>
            "Event not yet persisted in buffer; drain and retry"@,
            ProvisionalConfirmError::WrongBuffer =>
            "Provisional confirmed against the wrong EventBuffer"@,
        }),
{
}

/// An error of the implementation keeps the message of the error that it wraps.
pub proof fn law_wrapped_errors_keep_their_message<X: Message>(
    e: X,
    wrapped: ImplementationError,
)
    requires
        call_ensures(ImplementationError::new::<X>, (e,), wrapped),
    ensures
        wrapped.msg@ == e.text(),
{
}

} // verus!
