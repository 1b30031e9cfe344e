//! How errors read.
use payjoin_session::error::{
    FfiValidationError, ForeignError, ImplementationError, ProvisionalConfirmError, SerdeJsonError,
};
use payjoin_session::text::{decimal_text, Message};

#[test]
fn validation_errors_read_as_they_should() {
    let field = || "f".to_string();
    let cases = vec![
        (
            FfiValidationError::AmountOutOfRange { amount_sat: 12, max_sat: 10 },
            "Amount out of range: 12 sats (max 10)",
        ),
        (FfiValidationError::ScriptEmpty { field: field() }, "f script is empty"),
        (
            FfiValidationError::ScriptTooLarge { field: field(), len: 5, max: 4 },
            "f script too large: 5 bytes (max 4)",
        ),
        (
            FfiValidationError::WitnessItemsTooMany { count: 3, max: 2 },
            "Witness stack has 3 items (max 2)",
        ),
        (
            FfiValidationError::WitnessItemTooLarge { index: 0, len: 9, max: 8 },
            "Witness item 0 too large: 9 bytes (max 8)",
        ),
        (
            FfiValidationError::WitnessTooLarge { len: 7, max: 6 },
            "Witness stack too large: 7 bytes (max 6)",
        ),
        (
            FfiValidationError::WeightOutOfRange { weight_units: 2, max_wu: 1 },
            "Weight out of range: 2 wu (max 1)",
        ),
        (
            FfiValidationError::FeeRateOutOfRange { value: 11, unit: "sat/kwu".to_string() },
            "Fee rate out of range: 11 sat/kwu",
        ),
        (
            FfiValidationError::ExpirationOutOfRange { seconds: 100, max: 99 },
            "Expiration out of range: 100 seconds (max 99)",
        ),
    ];
    for (e, text) in cases {
        assert_eq!(e.message(), text);
    }
}

#[test]
fn shared_errors_read_as_they_should() {
    assert_eq!(ForeignError::InternalError("x".to_string()).message(), "Internal error: x");
    assert_eq!(
        ImplementationError::new(ForeignError::InternalError("x".to_string())).message(),
        "Internal error: x"
    );
    assert_eq!(
        SerdeJsonError { msg: "x".to_string() }.message(),
        "Error de/serializing JSON object: x"
    );
    assert_eq!(
        ProvisionalConfirmError::AlreadyConsumed.message(),
        "Provisional was already confirmed and consumed"
    );
    assert_eq!(
        ProvisionalConfirmError::NotYetPersisted.message(),
        "Event not yet persisted in buffer; drain and retry"
    );
    assert_eq!(
        ProvisionalConfirmError::WrongBuffer.message(),
        "Provisional confirmed against the wrong EventBuffer"
    );
}

#[test]
fn numbers_are_written_in_decimal() {
    for n in [0, 9, 10, 1_234_567_890, u64::MAX] {
        assert_eq!(decimal_text(n), n.to_string());
    }
}
