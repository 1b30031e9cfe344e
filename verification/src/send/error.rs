//! Errors of the sender role.
use crate::error::FfiValidationError;
use crate::persist::ApiError;
use crate::session::ReplayError;
use crate::text::{DebugText, Message};
use vstd::prelude::*;
use vstd::std_specs::convert::FromSpecImpl;
use vstd::string::*;

verus! {

/// Error building a sender. This error is unrecoverable.
#[derive(Debug)]
pub struct BuildSenderError {
    /// What went wrong.
    pub msg: String,
}

impl Message for BuildSenderError {
    open spec fn text(&self) -> Seq<char> {
        "Error initializing the sender: "@ + self.msg@
    }

    fn message(&self) -> (r: String) {
        "Error initializing the sender: ".to_owned().concat(self.msg.as_str())
    }
}

impl BuildSenderError {
    /// Keeps the message of an error.
    pub fn from_message<X: Message>(e: X) -> (r: Self)
        ensures
            r.msg@ == e.text(),
    {
        BuildSenderError { msg: e.message() }
    }
}

/// Why the protocol did not build a sender.
#[derive(Debug)]
pub struct BuildFailure {
    /// What went wrong.
    pub msg: String,
}

impl Message for BuildFailure {
    open spec fn text(&self) -> Seq<char> {
        self.msg@
    }

    fn message(&self) -> (r: String) {
        self.msg.clone()
    }
}

/// PSBT parsing error surfaced at the sender boundary.
#[derive(Debug)]
pub enum PsbtParseError {
    /// The provided PSBT string could not be parsed.
    InvalidPsbt(String),
}

impl Message for PsbtParseError {
    open spec fn text(&self) -> Seq<char> {
        match self {
            PsbtParseError::InvalidPsbt(msg) => "Invalid PSBT: "@ + msg@,
        }
    }

    fn message(&self) -> (r: String) {
        match self {
            PsbtParseError::InvalidPsbt(msg) => "Invalid PSBT: ".to_owned().concat(msg.as_str()),
        }
    }
}

/// Raised when inputs provided to the sender are malformed or the build fails.
#[derive(Debug)]
pub enum SenderInputError {
    /// The PSBT could not be parsed.
    Psbt(PsbtParseError),
    /// The protocol refused to build a sender.
    Build(BuildSenderError),
    /// An input was refused before it reached the protocol.
    FfiValidation(FfiValidationError),
}

impl Message for SenderInputError {
    open spec fn text(&self) -> Seq<char> {
        match self {
            SenderInputError::Psbt(e) => e.text(),
            SenderInputError::Build(e) => e.text(),
            SenderInputError::FfiValidation(e) => e.text(),
        }
    }

    fn message(&self) -> (r: String) {
        match self {
            SenderInputError::Psbt(e) => e.message(),
            SenderInputError::Build(e) => e.message(),
            SenderInputError::FfiValidation(e) => e.message(),
        }
    }
}

impl From<FfiValidationError> for SenderInputError {
    fn from(value: FfiValidationError) -> (r: Self) {
        SenderInputError::FfiValidation(value)
    }
}

impl FromSpecImpl<FfiValidationError> for SenderInputError {
    open spec fn obeys_from_spec() -> bool {
        true
    }

    open spec fn from_spec(value: FfiValidationError) -> Self {
        SenderInputError::FfiValidation(value)
    }
}

/// Error returned when a request could not be created.
#[derive(Debug)]
pub struct CreateRequestError {
    /// What went wrong.
    pub msg: String,
}

impl Message for CreateRequestError {
    open spec fn text(&self) -> Seq<char> {
        self.msg@
    }

    fn message(&self) -> (r: String) {
        self.msg.clone()
    }
}

/// Error of payload encapsulation.
#[derive(Debug)]
pub struct EncapsulationError {
    /// What went wrong.
    pub msg: String,
}

impl Message for EncapsulationError {
    open spec fn text(&self) -> Seq<char> {
        self.msg@
    }

    fn message(&self) -> (r: String) {
        self.msg.clone()
    }
}

/// Error of a malformed response.
#[derive(Debug)]
pub struct ValidationError {
    /// What went wrong.
    pub msg: String,
}

impl Message for ValidationError {
    open spec fn text(&self) -> Seq<char> {
        self.msg@
    }

    fn message(&self) -> (r: String) {
        self.msg.clone()
    }
}

/// A well-known error that can be safely displayed to end users.
#[derive(Debug)]
pub struct WellKnownError {
    /// What went wrong.
    pub msg: String,
}

impl Message for WellKnownError {
    open spec fn text(&self) -> Seq<char> {
        self.msg@
    }

    fn message(&self) -> (r: String) {
        self.msg.clone()
    }
}

/// What stands behind the failure of a response.
#[derive(Debug)]
pub enum ResponseCause {
    /// An error defined by the protocol.
    WellKnown(WellKnownError),
    /// The response is malformed.
    Validation(ValidationError),
    /// An error that the protocol does not define.
    Unrecognized { error_code: String, message: String },
}

/// The failure of a response, as the protocol reports it.
#[derive(Debug)]
pub struct ResponseFailure {
    /// What stands behind it.
    pub cause: ResponseCause,
    /// How the protocol puts it.
    pub msg: String,
}

impl Message for ResponseFailure {
    open spec fn text(&self) -> Seq<char> {
        self.msg@
    }

    fn message(&self) -> (r: String) {
        self.msg.clone()
    }
}

/// An error returned by the receiver.
#[derive(Debug)]
pub enum ResponseError {
    /// Errors defined by the protocol.
    WellKnown(WellKnownError),
    /// Errors caused by malformed responses.
    Validation(ValidationError),
    /// Errors that the protocol does not define.
    ///
    /// It is not safe to display them to end users, as they could be used to
    /// phish. Only display them in debug logs.
    Unrecognized { error_code: String, msg: String },
}

impl From<ResponseFailure> for ResponseError {
    fn from(value: ResponseFailure) -> (r: Self) {
        match value.cause {
            ResponseCause::WellKnown(e) => ResponseError::WellKnown(e),
            ResponseCause::Validation(e) => ResponseError::Validation(e),
            ResponseCause::Unrecognized { error_code, message } => ResponseError::Unrecognized {
                error_code,
                msg: message,
            },
        }
    }
}

impl FromSpecImpl<ResponseFailure> for ResponseError {
    open spec fn obeys_from_spec() -> bool {
        true
    }

    open spec fn from_spec(value: ResponseFailure) -> Self {
        match value.cause {
            ResponseCause::WellKnown(e) => ResponseError::WellKnown(e),
            ResponseCause::Validation(e) => ResponseError::Validation(e),
            ResponseCause::Unrecognized { error_code, message } => ResponseError::Unrecognized {
                error_code,
                msg: message,
            },
        }
    }
}

impl Message for ResponseError {
    open spec fn text(&self) -> Seq<char> {
        match self {
            ResponseError::WellKnown(e) => "A receiver error occurred: "@ + e.text(),
            ResponseError::Validation(e) => "An error occurred due to a malformed response: "@
                + e.text(),
            ResponseError::Unrecognized { .. } => "An unrecognized error occurred"@,
        }
    }

    fn message(&self) -> (r: String) {
        match self {
            ResponseError::WellKnown(e) => "A receiver error occurred: ".to_owned().concat(
                e.message().as_str(),
            ),
            ResponseError::Validation(e) =>
            "An error occurred due to a malformed response: ".to_owned().concat(
                e.message().as_str(),
            ),
            ResponseError::Unrecognized { .. } => "An unrecognized error occurred".to_owned(),
        }
    }
}

/// Discriminator for the protocol-level error inside [`SenderApiError`].
#[derive(Debug, Clone, Copy, PartialEq, Eq, Structural)]
pub enum SenderErrorKind {
    /// Encapsulation error processing the directory response.
    Encapsulation,
    /// Structured error returned by the receiver.
    Response,
}

impl DebugText for SenderErrorKind {
    open spec fn debug(&self) -> Seq<char> {
        match self {
            SenderErrorKind::Encapsulation => "Encapsulation"@,
            SenderErrorKind::Response => "Response"@,
        }
    }

    fn debug_text(&self) -> (r: String) {
        match self {
            SenderErrorKind::Encapsulation => "Encapsulation".to_owned(),
            SenderErrorKind::Response => "Response".to_owned(),
        }
    }
}

/// Surface-level error of the sender's actions. Storage errors are not
/// represented here: those surface from the caller's drain loop.
#[derive(Debug)]
pub enum SenderApiError {
    /// Retry the action from the same state.
    Transient { kind: SenderErrorKind, msg: String },
    /// The session is terminally closed.
    Fatal { kind: SenderErrorKind, msg: String },
}

/// What a [`SenderApiError`] says.
pub enum SenderApiErrorView {
    /// Retry the action from the same state.
    Transient { kind: SenderErrorKind, msg: Seq<char> },
    /// The session is terminally closed.
    Fatal { kind: SenderErrorKind, msg: Seq<char> },
}

impl View for SenderApiError {
    type V = SenderApiErrorView;

    open spec fn view(&self) -> SenderApiErrorView {
        match self {
            SenderApiError::Transient { kind, msg } => SenderApiErrorView::Transient {
                kind: *kind,
                msg: msg@,
            },
            SenderApiError::Fatal { kind, msg } => SenderApiErrorView::Fatal {
                kind: *kind,
                msg: msg@,
            },
        }
    }
}

/// How the error of a transition surfaces: its severity is kept, an error
/// state is dropped, and the message is that of the error.
pub open spec fn sender_api_error<X: Message>(
    kind: SenderErrorKind,
    err: ApiError<X>,
) -> SenderApiErrorView {
    match err {
        ApiError::Transient(e) => SenderApiErrorView::Transient { kind, msg: e.text() },
        ApiError::Fatal(e) => SenderApiErrorView::Fatal { kind, msg: e.text() },
        ApiError::FatalWithState(e, _) => SenderApiErrorView::Fatal { kind, msg: e.text() },
    }
}

impl SenderApiError {
    /// Converts the error of processing the acknowledgement of the directory.
    pub fn from_api_error_encapsulation(err: ApiError<EncapsulationError>) -> (r: Self)
        ensures
            r@ == sender_api_error(SenderErrorKind::Encapsulation, err),
    {
        match err {
            ApiError::Transient(e) => SenderApiError::Transient {
                kind: SenderErrorKind::Encapsulation,
                msg: e.message(),
            },
            ApiError::Fatal(e) => SenderApiError::Fatal {
                kind: SenderErrorKind::Encapsulation,
                msg: e.message(),
            },
            ApiError::FatalWithState(e, _) => SenderApiError::Fatal {
                kind: SenderErrorKind::Encapsulation,
                msg: e.message(),
            },
        }
    }

    /// Converts the error of processing the answer of the receiver.
    pub fn from_api_error_response(err: ApiError<ResponseFailure>) -> (r: Self)
        ensures
            r@ == sender_api_error(SenderErrorKind::Response, err),
    {
        match err {
            ApiError::Transient(e) => SenderApiError::Transient {
                kind: SenderErrorKind::Response,
                msg: e.message(),
            },
            ApiError::Fatal(e) => SenderApiError::Fatal {
                kind: SenderErrorKind::Response,
                msg: e.message(),
            },
            ApiError::FatalWithState(e, _) => SenderApiError::Fatal {
                kind: SenderErrorKind::Response,
                msg: e.message(),
            },
        }
    }
}

/// An error surfaces as retryable exactly if the protocol said so, whatever it
/// is about.
pub proof fn law_severity_is_kept<X: Message>(kind: SenderErrorKind, err: ApiError<X>)
    ensures
        sender_api_error(kind, err) is Transient <==> err is Transient,
        sender_api_error(kind, err) matches SenderApiErrorView::Transient { kind: k, .. } ==> k
            == kind,
        sender_api_error(kind, err) matches SenderApiErrorView::Fatal { kind: k, .. } ==> k == kind,
{
}

impl Message for SenderApiError {
    open spec fn text(&self) -> Seq<char> {
        match self {
            SenderApiError::Transient { kind, msg } => "Transient "@ + kind.debug() + " error: "@
                + msg@,
            SenderApiError::Fatal { kind, msg } => "Fatal "@ + kind.debug() + " error: "@ + msg@,
        }
    }

    fn message(&self) -> (r: String) {
        match self {
            SenderApiError::Transient { kind, msg } => {
                let mut s = "Transient ".to_owned();
                s.append(kind.debug_text().as_str());
                s.append(" error: ");
                s.append(msg.as_str());
                s
            },
            SenderApiError::Fatal { kind, msg } => {
                let mut s = "Fatal ".to_owned();
                s.append(kind.debug_text().as_str());
                s.append(" error: ");
                s.append(msg.as_str());
                s
            },
        }
    }
}

/// Error that may occur when the sender session event log is replayed.
#[derive(Debug)]
pub enum SenderReplayError {
    /// Replay-time error (invalid event sequence, etc.).
    Replay(String),
}

impl From<ReplayError> for SenderReplayError {
    fn from(value: ReplayError) -> (r: Self) {
        SenderReplayError::Replay(value.display)
    }
}

impl FromSpecImpl<ReplayError> for SenderReplayError {
    open spec fn obeys_from_spec() -> bool {
        true
    }

    open spec fn from_spec(value: ReplayError) -> Self {
        SenderReplayError::Replay(value.display)
    }
}

impl Message for SenderReplayError {
    open spec fn text(&self) -> Seq<char> {
        match self {
            SenderReplayError::Replay(msg) => "Replay error: "@ + msg@,
        }
    }

    fn message(&self) -> (r: String) {
        match self {
            SenderReplayError::Replay(msg) => "Replay error: ".to_owned().concat(msg.as_str()),
        }
    }
}

/// The cause of a failed response is kept as it is; of an unknown error, both
/// the code and the message.
pub proof fn law_causes_are_kept(failure: ResponseFailure, r: ResponseError)
    requires
        call_ensures(<ResponseError as From<ResponseFailure>>::from, (failure,), r),
    ensures
        match failure.cause {
            ResponseCause::WellKnown(e) => r == ResponseError::WellKnown(e),
            ResponseCause::Validation(e) => r == ResponseError::Validation(e),
            ResponseCause::Unrecognized { error_code: code, message } => (
            r matches ResponseError::Unrecognized { error_code, msg } && error_code == code && msg
                == message),
        },
{
}

/// An error that is wrapped is found inside, under the name that is its own.
pub proof fn law_wrapped_errors_are_found_inside<X: Message>(
    validation: FfiValidationError,
    input: SenderInputError,
    replay: ReplayError,
    log: SenderReplayError,
    e: X,
    build: BuildSenderError,
)
    ensures
        call_ensures(<SenderInputError as From<FfiValidationError>>::from, (validation,), input)
            ==> input == SenderInputError::FfiValidation(validation),
        call_ensures(<SenderReplayError as From<ReplayError>>::from, (replay,), log) ==> log
            == SenderReplayError::Replay(replay.display),
        call_ensures(BuildSenderError::from_message::<X>, (e,), build) ==> build.msg@ == e.text(),
{
}

/// The error of a transition surfaces with its severity, the kind of the action
/// and its own words. A state that came with it is dropped.
pub proof fn law_transition_errors_surface(
    encapsulation: ApiError<EncapsulationError>,
    response: ApiError<ResponseFailure>,
    r: SenderApiError,
)
    ensures
        call_ensures(SenderApiError::from_api_error_encapsulation, (encapsulation,), r)
            ==> match encapsulation {
            ApiError::Transient(e) => r matches SenderApiError::Transient { kind, msg } && kind
                is Encapsulation && msg@ == e.msg@,
            ApiError::Fatal(e) => r matches SenderApiError::Fatal { kind, msg } && kind
                is Encapsulation && msg@ == e.msg@,
            ApiError::FatalWithState(e, _) => r matches SenderApiError::Fatal { kind, msg } && kind
                is Encapsulation && msg@ == e.msg@,
        },
        call_ensures(SenderApiError::from_api_error_response, (response,), r) ==> match response {
            ApiError::Transient(e) => r matches SenderApiError::Transient { kind, msg } && kind
                is Response && msg@ == e.msg@,
            ApiError::Fatal(e) => r matches SenderApiError::Fatal { kind, msg } && kind is Response
                && msg@ == e.msg@,
            ApiError::FatalWithState(e, _) => r matches SenderApiError::Fatal { kind, msg } && kind
                is Response && msg@ == e.msg@,
        },
{
}

/// The errors of the sender say what they are and what went wrong. What a
/// receiver says in an unknown error is kept from people.
pub proof fn law_sender_errors_say_what_went_wrong(
    build: BuildSenderError,
    psbt: PsbtParseError,
    input: SenderInputError,
    response: ResponseError,
    log: SenderReplayError,
    api: SenderApiError,
    kind: SenderErrorKind,
    msg: String,
)
    ensures
        call_ensures(<BuildSenderError as Message>::message, (&build,), msg) ==> msg@
            == "Error initializing the sender: "@ + build.msg@,
        call_ensures(<PsbtParseError as Message>::message, (&psbt,), msg) ==> msg@
            == "Invalid PSBT: "@ + psbt->InvalidPsbt_0@,
        call_ensures(<SenderInputError as Message>::message, (&input,), msg) ==> msg@ == (
        match input {
            SenderInputError::Psbt(e) => "Invalid PSBT: "@ + e->InvalidPsbt_0@,
            SenderInputError::Build(e) => "Error initializing the sender: "@ + e.msg@,
            SenderInputError::FfiValidation(e) => e.text(),
        }),
        call_ensures(<ResponseError as Message>::message, (&response,), msg) ==> msg@ == (
        match response {
            ResponseError::WellKnown(e) => "A receiver error occurred: "@ + e.msg@,
            ResponseError::Validation(e) => "An error occurred due to a malformed response: "@
                + e.msg@,
            ResponseError::Unrecognized { .. } => "An unrecognized error occurred"@,
        }),
        call_ensures(<SenderReplayError as Message>::message, (&log,), msg) ==> msg@
            == "Replay error: "@ + log->Replay_0@,
        call_ensures(<SenderErrorKind as DebugText>::debug_text, (&kind,), msg) ==> msg@ == (
        match kind {
            SenderErrorKind::Encapsulation => "Encapsulation"@,
            SenderErrorKind::Response => "Response"@,
        }),
        call_ensures(<SenderApiError as Message>::message, (&api,), msg) ==> msg@ == (match api {
            SenderApiError::Transient { kind: k, msg: why } => "Transient "@ + (match k {
                SenderErrorKind::Encapsulation => "Encapsulation"@,
                SenderErrorKind::Response => "Response"@,
            }) + " error: "@ + why@,
            SenderApiError::Fatal { kind: k, msg: why } => "Fatal "@ + (match k {
                SenderErrorKind::Encapsulation => "Encapsulation"@,
                SenderErrorKind::Response => "Response"@,
            }) + " error: "@ + why@,
        }),
{
}

/// What the protocol reports is passed on in its own words.
pub proof fn law_reports_are_passed_on(
    build: BuildFailure,
    request: CreateRequestError,
    encapsulation: EncapsulationError,
    validation: ValidationError,
    well_known: WellKnownError,
    response: ResponseFailure,
    msg: String,
)
    ensures
        call_ensures(<BuildFailure as Message>::message, (&build,), msg) ==> msg@ == build.msg@,
        call_ensures(<CreateRequestError as Message>::message, (&request,), msg) ==> msg@
            == request.msg@,
        call_ensures(<EncapsulationError as Message>::message, (&encapsulation,), msg) ==> msg@
            == encapsulation.msg@,
        call_ensures(<ValidationError as Message>::message, (&validation,), msg) ==> msg@
            == validation.msg@,
        call_ensures(<WellKnownError as Message>::message, (&well_known,), msg) ==> msg@
            == well_known.msg@,
        call_ensures(<ResponseFailure as Message>::message, (&response,), msg) ==> msg@
            == response.msg@,
{
}

} // verus!
