//! Errors of the receiver role.
use crate::error::{FfiValidationError, ForeignError, ImplementationError};
use crate::persist::ApiError;
use crate::receive::engine::{ReceiverEngine, ReceiverStates};
use crate::session::{IntoUrlError, ReplayError};
use crate::text::{decimal, decimal_text, DebugText, Message};
use vstd::prelude::*;
use vstd::std_specs::convert::{FromSpec, FromSpecImpl};
use vstd::string::*;

verus! {

/// The replyable error type of the receiver.
#[derive(Debug)]
pub struct ProtocolError {
    /// What went wrong.
    pub msg: String,
}

impl Message for ProtocolError {
    open spec fn text(&self) -> Seq<char> {
        self.msg@
    }

    fn message(&self) -> (r: String) {
        self.msg.clone()
    }
}

/// The format in which an error is replied to the sender.
pub struct JsonReply<C: ReceiverStates>(pub C::JsonReply);

impl<C: ReceiverEngine> JsonReply<C> {
    /// The reply for an error of the protocol.
    pub fn from_protocol_error(value: ProtocolError) -> (r: Self)
        ensures
            call_ensures(C::json_reply, (&value,), r.0),
    {
        JsonReply(C::json_reply(&value))
    }
}

/// Error of a session typestate change.
#[derive(Debug)]
pub struct SessionError {
    /// What went wrong.
    pub msg: String,
}

impl Message for SessionError {
    open spec fn text(&self) -> Seq<char> {
        self.msg@
    }

    fn message(&self) -> (r: String) {
        self.msg.clone()
    }
}

/// Protocol error raised during output substitution.
#[derive(Debug)]
pub struct OutputSubstitutionProtocolError {
    /// What went wrong.
    pub msg: String,
}

impl Message for OutputSubstitutionProtocolError {
    open spec fn text(&self) -> Seq<char> {
        self.msg@
    }

    fn message(&self) -> (r: String) {
        self.msg.clone()
    }
}

/// Error of coin selection, in both renderings.
#[derive(Debug)]
pub struct SelectionError {
    /// The message for people.
    pub msg: String,
    /// The rendering for diagnostics.
    pub debug: String,
}

impl Message for SelectionError {
    open spec fn text(&self) -> Seq<char> {
        self.msg@
    }

    fn message(&self) -> (r: String) {
        self.msg.clone()
    }
}

/// Error of input contribution, in both renderings.
#[derive(Debug)]
pub struct InputContributionError {
    /// The message for people.
    pub msg: String,
    /// The rendering for diagnostics.
    pub debug: String,
}

impl Message for InputContributionError {
    open spec fn text(&self) -> Seq<char> {
        self.msg@
    }

    fn message(&self) -> (r: String) {
        self.msg.clone()
    }
}

/// Error validating a PSBT input.
#[derive(Debug)]
pub struct PsbtInputError {
    /// What went wrong.
    pub msg: String,
}

impl Message for PsbtInputError {
    open spec fn text(&self) -> Seq<char> {
        self.msg@
    }

    fn message(&self) -> (r: String) {
        self.msg.clone()
    }
}

/// What stands behind the failure of a receiver.
#[derive(Debug)]
pub enum ReceiveCause {
    /// Error in a protocol function.
    Protocol(ProtocolError),
    /// Error of the implementation around the session.
    Implementation(ImplementationError),
    /// Something else.
    Other,
}

/// The failure of a receiver, as the protocol reports it.
#[derive(Debug)]
pub struct ReceiveFailure {
    /// What stands behind it.
    pub cause: ReceiveCause,
    /// How the protocol puts it.
    pub msg: String,
}

impl Message for ReceiveFailure {
    open spec fn text(&self) -> Seq<char> {
        self.msg@
    }

    fn message(&self) -> (r: String) {
        self.msg.clone()
    }
}

/// The top-level error type of the receiver.
#[derive(Debug)]
pub enum ReceiverError {
    /// Error in a protocol function.
    Protocol(ProtocolError),
    /// Error of the implementation around the session, e.g. database errors,
    /// network failures, wallet errors.
    Implementation(ImplementationError),
    /// Error converting a value into a URL.
    IntoUrl(IntoUrlError),
    /// Anything else.
    Unexpected,
}

impl Message for ReceiverError {
    open spec fn text(&self) -> Seq<char> {
        match self {
            ReceiverError::Protocol(e) => "Protocol error: "@ + e.text(),
            ReceiverError::Implementation(e) => "Implementation error: "@ + e.text(),
            ReceiverError::IntoUrl(e) => "IntoUrl error: "@ + e.text(),
            ReceiverError::Unexpected => "An unexpected error occurred"@,
        }
    }

    fn message(&self) -> (r: String) {
        match self {
            ReceiverError::Protocol(e) => "Protocol error: ".to_owned().concat(
                e.message().as_str(),
            ),
            ReceiverError::Implementation(e) => "Implementation error: ".to_owned().concat(
                e.message().as_str(),
            ),
            ReceiverError::IntoUrl(e) => "IntoUrl error: ".to_owned().concat(e.message().as_str()),
            ReceiverError::Unexpected => "An unexpected error occurred".to_owned(),
        }
    }
}

impl From<ReceiveFailure> for ReceiverError {
    fn from(value: ReceiveFailure) -> (r: Self) {
        match value.cause {
            ReceiveCause::Protocol(e) => ReceiverError::Protocol(e),
            ReceiveCause::Implementation(e) => ReceiverError::Implementation(e),
            ReceiveCause::Other => ReceiverError::Unexpected,
        }
    }
}

impl FromSpecImpl<ReceiveFailure> for ReceiverError {
    open spec fn obeys_from_spec() -> bool {
        true
    }

    open spec fn from_spec(value: ReceiveFailure) -> Self {
        match value.cause {
            ReceiveCause::Protocol(e) => ReceiverError::Protocol(e),
            ReceiveCause::Implementation(e) => ReceiverError::Implementation(e),
            ReceiveCause::Other => ReceiverError::Unexpected,
        }
    }
}

impl From<ProtocolError> for ReceiverError {
    fn from(value: ProtocolError) -> (r: Self) {
        ReceiverError::Protocol(value)
    }
}

impl FromSpecImpl<ProtocolError> for ReceiverError {
    open spec fn obeys_from_spec() -> bool {
        true
    }

    open spec fn from_spec(value: ProtocolError) -> Self {
        ReceiverError::Protocol(value)
    }
}

impl From<ImplementationError> for ReceiverError {
    fn from(value: ImplementationError) -> (r: Self) {
        ReceiverError::Implementation(value)
    }
}

impl FromSpecImpl<ImplementationError> for ReceiverError {
    open spec fn obeys_from_spec() -> bool {
        true
    }

    open spec fn from_spec(value: ImplementationError) -> Self {
        ReceiverError::Implementation(value)
    }
}

impl From<IntoUrlError> for ReceiverError {
    fn from(value: IntoUrlError) -> (r: Self) {
        ReceiverError::IntoUrl(value)
    }
}

impl FromSpecImpl<IntoUrlError> for ReceiverError {
    open spec fn obeys_from_spec() -> bool {
        true
    }

    open spec fn from_spec(value: IntoUrlError) -> Self {
        ReceiverError::IntoUrl(value)
    }
}

/// Discriminator for the error inside [`ReceiverApiError`]. Mirrors the
/// variants of [`ReceiverError`], so a caller can match on the kind without
/// parsing the message.
#[derive(Debug, Clone, Copy, PartialEq, Eq, Structural)]
pub enum ReceiverErrorKind {
    /// Error in a protocol function.
    Protocol,
    /// Error of the implementation around the session.
    Implementation,
    /// Error converting a value into a URL.
    IntoUrl,
    /// Anything else.
    Unexpected,
}

impl ReceiverErrorKind {
    /// The kind of `err`.
    pub open spec fn of(err: ReceiverError) -> Self {
        match err {
            ReceiverError::Protocol(_) => ReceiverErrorKind::Protocol,
            ReceiverError::Implementation(_) => ReceiverErrorKind::Implementation,
            ReceiverError::IntoUrl(_) => ReceiverErrorKind::IntoUrl,
            ReceiverError::Unexpected => ReceiverErrorKind::Unexpected,
        }
    }

    /// Tells the kind of an error.
    pub fn from_receiver_error(err: &ReceiverError) -> (r: Self)
        ensures
            r == ReceiverErrorKind::of(*err),
    {
        match err {
            ReceiverError::Protocol(_) => ReceiverErrorKind::Protocol,
            ReceiverError::Implementation(_) => ReceiverErrorKind::Implementation,
            ReceiverError::IntoUrl(_) => ReceiverErrorKind::IntoUrl,
            ReceiverError::Unexpected => ReceiverErrorKind::Unexpected,
        }
    }
}

impl DebugText for ReceiverErrorKind {
    open spec fn debug(&self) -> Seq<char> {
        match self {
            ReceiverErrorKind::Protocol => "Protocol"@,
            ReceiverErrorKind::Implementation => "Implementation"@,
            ReceiverErrorKind::IntoUrl => "IntoUrl"@,
            ReceiverErrorKind::Unexpected => "Unexpected"@,
        }
    }

    fn debug_text(&self) -> (r: String) {
        match self {
            ReceiverErrorKind::Protocol => "Protocol".to_owned(),
            ReceiverErrorKind::Implementation => "Implementation".to_owned(),
            ReceiverErrorKind::IntoUrl => "IntoUrl".to_owned(),
            ReceiverErrorKind::Unexpected => "Unexpected".to_owned(),
        }
    }
}

/// An error that can be replied to the sender.
pub struct HasReplyableError<C: ReceiverStates>(pub C::HasReplyableError);

/// Surface-level error of the receiver's actions. Storage errors are not
/// represented here: those surface from the caller's drain loop.
pub enum ReceiverApiError<C: ReceiverStates> {
    /// Retry the action from the same state.
    Transient { kind: ReceiverErrorKind, msg: String },
    /// The session is terminally closed.
    Fatal { kind: ReceiverErrorKind, msg: String },
    /// Fatal error that also led to [`HasReplyableError`], by which the caller
    /// can reply to the sender.
    FatalWithReplyableState {
        kind: ReceiverErrorKind,
        msg: String,
        state: HasReplyableError<C>,
    },
    /// An input was refused before it reached the protocol.
    InputValidation(FfiValidationError),
    /// An input could not be decoded.
    InputDeserialization { msg: String },
}

/// What a [`ReceiverApiError`] says.
pub enum ReceiverApiErrorView<C: ReceiverStates> {
    /// Retry the action from the same state.
    Transient { kind: ReceiverErrorKind, msg: Seq<char> },
    /// The session is terminally closed.
    Fatal { kind: ReceiverErrorKind, msg: Seq<char> },
    /// The session can reply to the sender.
    FatalWithReplyableState {
        kind: ReceiverErrorKind,
        msg: Seq<char>,
        state: HasReplyableError<C>,
    },
    /// An input was refused before it reached the protocol.
    InputValidation(FfiValidationError),
    /// An input could not be decoded.
    InputDeserialization { msg: Seq<char> },
}

impl<C: ReceiverStates> View for ReceiverApiError<C> {
    type V = ReceiverApiErrorView<C>;

    open spec fn view(&self) -> ReceiverApiErrorView<C> {
        match *self {
            ReceiverApiError::Transient { kind, msg } => ReceiverApiErrorView::Transient {
                kind,
                msg: msg@,
            },
            ReceiverApiError::Fatal { kind, msg } => ReceiverApiErrorView::Fatal { kind, msg: msg@ },
            ReceiverApiError::FatalWithReplyableState { kind, msg, state } =>
            ReceiverApiErrorView::FatalWithReplyableState { kind, msg: msg@, state },
            ReceiverApiError::InputValidation(e) => ReceiverApiErrorView::InputValidation(e),
            ReceiverApiError::InputDeserialization { msg } =>
            ReceiverApiErrorView::InputDeserialization { msg: msg@ },
        }
    }
}

impl<C: ReceiverStates> ReceiverApiErrorView<C> {
    /// How a retryable `err` surfaces.
    pub open spec fn transient(err: ReceiverError) -> Self {
        ReceiverApiErrorView::Transient { kind: ReceiverErrorKind::of(err), msg: err.text() }
    }

    /// How a terminal `err` surfaces.
    pub open spec fn fatal(err: ReceiverError) -> Self {
        ReceiverApiErrorView::Fatal { kind: ReceiverErrorKind::of(err), msg: err.text() }
    }

    /// How a terminal `err` that can be replied surfaces.
    pub open spec fn replyable(err: ReceiverError, state: C::HasReplyableError) -> Self {
        ReceiverApiErrorView::FatalWithReplyableState {
            kind: ReceiverErrorKind::of(err),
            msg: err.text(),
            state: HasReplyableError(state),
        }
    }

    /// How the error of a transition without an error state surfaces.
    pub open spec fn of_api_error<X>(err: ApiError<X>) -> Self where ReceiverError: From<X> {
        match err {
            ApiError::Transient(e) => Self::transient(
                <ReceiverError as FromSpec<X>>::from_spec(e),
            ),
            ApiError::Fatal(e) => Self::fatal(<ReceiverError as FromSpec<X>>::from_spec(e)),
            ApiError::FatalWithState(e, _) => Self::fatal(
                <ReceiverError as FromSpec<X>>::from_spec(e),
            ),
        }
    }

    /// How the error of a transition with an error state surfaces.
    pub open spec fn of_replyable_api_error<X>(err: ApiError<X, C::HasReplyableError>) -> Self where
        ReceiverError: From<X>,
     {
        match err {
            ApiError::Transient(e) => Self::transient(
                <ReceiverError as FromSpec<X>>::from_spec(e),
            ),
            ApiError::Fatal(e) => Self::fatal(<ReceiverError as FromSpec<X>>::from_spec(e)),
            ApiError::FatalWithState(e, state) => Self::replyable(
                <ReceiverError as FromSpec<X>>::from_spec(e),
                state,
            ),
        }
    }
}

impl<C: ReceiverStates> ReceiverApiError<C> {
    /// Converts the error of a transition that has no error state.
    pub(crate) fn from_api_error<X>(err: ApiError<X>) -> (r: Self) where ReceiverError: From<X>
        ensures
            <ReceiverError as FromSpec<X>>::obeys_from_spec() ==> r@ == ReceiverApiErrorView::<
                C,
            >::of_api_error(err),
    {
        match err {
            ApiError::Transient(e) => {
                let wrapped = ReceiverError::from(e);
                ReceiverApiError::Transient {
                    kind: ReceiverErrorKind::from_receiver_error(&wrapped),
                    msg: wrapped.message(),
                }
            },
            ApiError::Fatal(e) | ApiError::FatalWithState(e, _) => {
                let wrapped = ReceiverError::from(e);
                ReceiverApiError::Fatal {
                    kind: ReceiverErrorKind::from_receiver_error(&wrapped),
                    msg: wrapped.message(),
                }
            },
        }
    }

    /// Converts the error of a transition that has an error state.
    pub(crate) fn from_api_error_with_replyable_state<X>(
        err: ApiError<X, C::HasReplyableError>,
    ) -> (r: Self) where ReceiverError: From<X>
        ensures
            <ReceiverError as FromSpec<X>>::obeys_from_spec() ==> r@ == ReceiverApiErrorView::<
                C,
            >::of_replyable_api_error(err),
    {
        match err {
            ApiError::Transient(e) => {
                let wrapped = ReceiverError::from(e);
                ReceiverApiError::Transient {
                    kind: ReceiverErrorKind::from_receiver_error(&wrapped),
                    msg: wrapped.message(),
                }
            },
            ApiError::Fatal(e) => {
                let wrapped = ReceiverError::from(e);
                ReceiverApiError::Fatal {
                    kind: ReceiverErrorKind::from_receiver_error(&wrapped),
                    msg: wrapped.message(),
                }
            },
            ApiError::FatalWithState(e, state) => {
                let wrapped = ReceiverError::from(e);
                ReceiverApiError::FatalWithReplyableState {
                    kind: ReceiverErrorKind::from_receiver_error(&wrapped),
                    msg: wrapped.message(),
                    state: HasReplyableError(state),
                }
            },
        }
    }

    /// Converts an error of decoding.
    pub fn from_foreign_error(value: ForeignError) -> (r: Self)
        ensures
            r@ == (ReceiverApiErrorView::<C>::InputDeserialization { msg: value.text() }),
    {
        ReceiverApiError::InputDeserialization { msg: value.message() }
    }
}

/// An error surfaces as retryable exactly if the protocol said so, and with a
/// state to reply from exactly if the protocol left one. Its kind is that of the
/// error it stands for.
pub proof fn law_severity_is_kept<C: ReceiverStates>(
    plain: ApiError<ProtocolError>,
    check: ApiError<ReceiveFailure, C::HasReplyableError>,
)
    ensures
        ReceiverApiErrorView::<C>::of_api_error(plain) is Transient <==> plain is Transient,
        ReceiverApiErrorView::<C>::of_api_error(plain) is Transient
            || ReceiverApiErrorView::<C>::of_api_error(plain) is Fatal,
        ReceiverApiErrorView::<C>::of_replyable_api_error(check) is Transient <==> check is Transient,
        ReceiverApiErrorView::<C>::of_replyable_api_error(check) is Fatal <==> check is Fatal,
        ReceiverApiErrorView::<C>::of_replyable_api_error(check) is FatalWithReplyableState
            <==> check is FatalWithState,
        check matches ApiError::FatalWithState(_, state) ==> (
        ReceiverApiErrorView::<C>::of_replyable_api_error(
            check,
        ) matches ReceiverApiErrorView::FatalWithReplyableState { state: kept, .. } && kept.0
            == state),
{
}

impl<C: ReceiverStates> From<FfiValidationError> for ReceiverApiError<C> {
    fn from(value: FfiValidationError) -> (r: Self) {
        ReceiverApiError::InputValidation(value)
    }
}

impl<C: ReceiverStates> FromSpecImpl<FfiValidationError> for ReceiverApiError<C> {
    open spec fn obeys_from_spec() -> bool {
        true
    }

    open spec fn from_spec(value: FfiValidationError) -> Self {
        ReceiverApiError::InputValidation(value)
    }
}

/// `what` and the kind, then `mid` and the message.
fn kind_text(what: &str, kind: &ReceiverErrorKind, mid: &str, msg: &String) -> (r: String)
    ensures
        r@ == what@ + kind.debug() + mid@ + msg@,
{
    let mut s = what.to_owned();
    s.append(kind.debug_text().as_str());
    s.append(mid);
    s.append(msg.as_str());
    s
}

impl<C: ReceiverStates> Message for ReceiverApiError<C> {
    open spec fn text(&self) -> Seq<char> {
        match self {
            ReceiverApiError::Transient { kind, msg } => "Transient "@ + kind.debug() + " error: "@
                + msg@,
            ReceiverApiError::Fatal { kind, msg } => "Fatal "@ + kind.debug() + " error: "@ + msg@,
            ReceiverApiError::FatalWithReplyableState { kind, msg, .. } => "Fatal "@ + kind.debug()
                + " error with replyable state: "@ + msg@,
            ReceiverApiError::InputValidation(e) => "Input validation error: "@ + e.text(),
            ReceiverApiError::InputDeserialization { msg } => "Input deserialization error: "@
                + msg@,
        }
    }

    fn message(&self) -> (r: String) {
        match self {
            ReceiverApiError::Transient { kind, msg } => kind_text(
                "Transient ",
                kind,
                " error: ",
                msg,
            ),
            ReceiverApiError::Fatal { kind, msg } => kind_text("Fatal ", kind, " error: ", msg),
            ReceiverApiError::FatalWithReplyableState { kind, msg, .. } => kind_text(
                "Fatal ",
                kind,
                " error with replyable state: ",
                msg,
            ),
            ReceiverApiError::InputValidation(e) => "Input validation error: ".to_owned().concat(
                e.message().as_str(),
            ),
            ReceiverApiError::InputDeserialization { msg } =>
            "Input deserialization error: ".to_owned().concat(msg.as_str()),
        }
    }
}

/// Error parsing a Bitcoin address.
#[derive(Debug)]
pub struct AddressParseError {
    /// What is wrong with it.
    pub msg: String,
}

impl Message for AddressParseError {
    open spec fn text(&self) -> Seq<char> {
        "Invalid Bitcoin address: "@ + self.msg@
    }

    fn message(&self) -> (r: String) {
        "Invalid Bitcoin address: ".to_owned().concat(self.msg.as_str())
    }
}

/// Error building a receiver session.
#[derive(Debug)]
pub enum ReceiverBuilderError {
    /// The Bitcoin address is invalid.
    InvalidAddress(AddressParseError),
    /// The directory is not a URL.
    IntoUrl(IntoUrlError),
}

impl Message for ReceiverBuilderError {
    open spec fn text(&self) -> Seq<char> {
        match self {
            ReceiverBuilderError::InvalidAddress(e) => "Invalid Bitcoin address: "@ + e.text(),
            ReceiverBuilderError::IntoUrl(e) => "Invalid directory URL: "@ + e.text(),
        }
    }

    fn message(&self) -> (r: String) {
        match self {
            ReceiverBuilderError::InvalidAddress(e) => "Invalid Bitcoin address: ".to_owned().concat(
                e.message().as_str(),
            ),
            ReceiverBuilderError::IntoUrl(e) => "Invalid directory URL: ".to_owned().concat(
                e.message().as_str(),
            ),
        }
    }
}

impl From<IntoUrlError> for ReceiverBuilderError {
    fn from(value: IntoUrlError) -> (r: Self) {
        ReceiverBuilderError::IntoUrl(value)
    }
}

impl FromSpecImpl<IntoUrlError> for ReceiverBuilderError {
    open spec fn obeys_from_spec() -> bool {
        true
    }

    open spec fn from_spec(value: IntoUrlError) -> Self {
        ReceiverBuilderError::IntoUrl(value)
    }
}

/// Error of output substitution.
#[derive(Debug)]
pub enum OutputSubstitutionError {
    /// The protocol refused it.
    Protocol(OutputSubstitutionProtocolError),
    /// An input was refused before it reached the protocol.
    FfiValidation(FfiValidationError),
}

impl Message for OutputSubstitutionError {
    open spec fn text(&self) -> Seq<char> {
        match self {
            OutputSubstitutionError::Protocol(e) => e.text(),
            OutputSubstitutionError::FfiValidation(e) => e.text(),
        }
    }

    fn message(&self) -> (r: String) {
        match self {
            OutputSubstitutionError::Protocol(e) => e.message(),
            OutputSubstitutionError::FfiValidation(e) => e.message(),
        }
    }
}

impl From<OutputSubstitutionProtocolError> for OutputSubstitutionError {
    fn from(value: OutputSubstitutionProtocolError) -> (r: Self) {
        OutputSubstitutionError::Protocol(value)
    }
}

impl FromSpecImpl<OutputSubstitutionProtocolError> for OutputSubstitutionError {
    open spec fn obeys_from_spec() -> bool {
        true
    }

    open spec fn from_spec(value: OutputSubstitutionProtocolError) -> Self {
        OutputSubstitutionError::Protocol(value)
    }
}

impl From<FfiValidationError> for OutputSubstitutionError {
    fn from(value: FfiValidationError) -> (r: Self) {
        OutputSubstitutionError::FfiValidation(value)
    }
}

impl FromSpecImpl<FfiValidationError> for OutputSubstitutionError {
    open spec fn obeys_from_spec() -> bool {
        true
    }

    open spec fn from_spec(value: FfiValidationError) -> Self {
        OutputSubstitutionError::FfiValidation(value)
    }
}

/// Error constructing an input pair.
#[derive(Debug)]
pub enum InputPairError {
    /// The outpoint could not be parsed.
    InvalidOutPoint { txid: String, vout: u32 },
    /// The protocol refused the PSBT input.
    InvalidPsbtInput(PsbtInputError),
    /// The input was refused before it reached the protocol.
    FfiValidation(FfiValidationError),
}

impl InputPairError {
    /// The error for an outpoint that could not be parsed.
    pub fn invalid_outpoint(txid: String, vout: u32) -> (r: Self)
        ensures
            r == (InputPairError::InvalidOutPoint { txid, vout }),
    {
        InputPairError::InvalidOutPoint { txid, vout }
    }
}

impl Message for InputPairError {
    open spec fn text(&self) -> Seq<char> {
        match self {
            InputPairError::InvalidOutPoint { txid, vout } => "Invalid outpoint (txid="@ + txid@
                + ", vout="@ + decimal(*vout as nat) + ")"@,
            InputPairError::InvalidPsbtInput(e) => "Invalid PSBT input: "@ + e.text(),
            InputPairError::FfiValidation(e) => "Invalid input: "@ + e.text(),
        }
    }

    fn message(&self) -> (r: String) {
        match self {
            InputPairError::InvalidOutPoint { txid, vout } => {
                let mut s = "Invalid outpoint (txid=".to_owned();
                s.append(txid.as_str());
                s.append(", vout=");
                s.append(decimal_text(*vout as u64).as_str());
                s.append(")");
                s
            },
            InputPairError::InvalidPsbtInput(e) => "Invalid PSBT input: ".to_owned().concat(
                e.message().as_str(),
            ),
            InputPairError::FfiValidation(e) => "Invalid input: ".to_owned().concat(
                e.message().as_str(),
            ),
        }
    }
}

impl From<FfiValidationError> for InputPairError {
    fn from(value: FfiValidationError) -> (r: Self) {
        InputPairError::FfiValidation(value)
    }
}

impl FromSpecImpl<FfiValidationError> for InputPairError {
    open spec fn obeys_from_spec() -> bool {
        true
    }

    open spec fn from_spec(value: FfiValidationError) -> Self {
        InputPairError::FfiValidation(value)
    }
}

/// Error replaying a receiver's event log.
#[derive(Debug)]
pub enum ReceiverReplayError {
    /// The events do not make a session.
    Replay(String),
    /// A stored event could not be decoded.
    StorageSerde(String),
}

impl ReceiverReplayError {
    /// The error for a stored event that could not be decoded.
    pub(crate) fn storage_serde(msg: String) -> (r: Self)
        ensures
            r == ReceiverReplayError::StorageSerde(msg),
    {
        ReceiverReplayError::StorageSerde(msg)
    }
}

impl From<ReplayError> for ReceiverReplayError {
    fn from(value: ReplayError) -> (r: Self) {
        ReceiverReplayError::Replay(value.display)
    }
}

impl FromSpecImpl<ReplayError> for ReceiverReplayError {
    open spec fn obeys_from_spec() -> bool {
        true
    }

    open spec fn from_spec(value: ReplayError) -> Self {
        ReceiverReplayError::Replay(value.display)
    }
}

impl Message for ReceiverReplayError {
    open spec fn text(&self) -> Seq<char> {
        match self {
            ReceiverReplayError::Replay(msg) => "Replay error: "@ + msg@,
            ReceiverReplayError::StorageSerde(msg) => "Stored event JSON deserialization error: "@
                + msg@,
        }
    }

    fn message(&self) -> (r: String) {
        match self {
            ReceiverReplayError::Replay(msg) => "Replay error: ".to_owned().concat(msg.as_str()),
            ReceiverReplayError::StorageSerde(msg) =>
            "Stored event JSON deserialization error: ".to_owned().concat(msg.as_str()),
        }
    }
}

/// The cause of a failure decides what it surfaces as, and is kept as it is.
pub proof fn law_causes_are_kept(
    failure: ReceiveFailure,
    r: ReceiverError,
)
    requires
        call_ensures(<ReceiverError as From<ReceiveFailure>>::from, (failure,), r),
    ensures
        match failure.cause {
            ReceiveCause::Protocol(e) => r == ReceiverError::Protocol(e),
            ReceiveCause::Implementation(e) => r == ReceiverError::Implementation(e),
            ReceiveCause::Other => r is Unexpected,
        },
{
}

/// An error that is wrapped is found inside, under the name that is its own.
pub proof fn law_wrapped_errors_are_found_inside<C: ReceiverStates>(
    protocol: ProtocolError,
    implementation: ImplementationError,
    url: IntoUrlError,
    validation: FfiValidationError,
    substitution: OutputSubstitutionProtocolError,
    replay: ReplayError,
    txid: String,
    vout: u32,
    r: ReceiverError,
    builder: ReceiverBuilderError,
    outputs: OutputSubstitutionError,
    pair: InputPairError,
    api: ReceiverApiError<C>,
    log: ReceiverReplayError,
)
    ensures
        call_ensures(<ReceiverError as From<ProtocolError>>::from, (protocol,), r) ==> r
            == ReceiverError::Protocol(protocol),
        call_ensures(<ReceiverError as From<ImplementationError>>::from, (implementation,), r)
            ==> r == ReceiverError::Implementation(implementation),
        call_ensures(<ReceiverError as From<IntoUrlError>>::from, (url,), r) ==> r
            == ReceiverError::IntoUrl(url),
        call_ensures(<ReceiverBuilderError as From<IntoUrlError>>::from, (url,), builder)
            ==> builder == ReceiverBuilderError::IntoUrl(url),
        call_ensures(
            <OutputSubstitutionError as From<OutputSubstitutionProtocolError>>::from,
            (substitution,),
            outputs,
        ) ==> outputs == OutputSubstitutionError::Protocol(substitution),
        call_ensures(
            <OutputSubstitutionError as From<FfiValidationError>>::from,
            (validation,),
            outputs,
        ) ==> outputs == OutputSubstitutionError::FfiValidation(validation),
        call_ensures(<InputPairError as From<FfiValidationError>>::from, (validation,), pair)
            ==> pair == InputPairError::FfiValidation(validation),
        call_ensures(InputPairError::invalid_outpoint, (txid, vout), pair) ==> pair == (
        InputPairError::InvalidOutPoint { txid, vout }),
        call_ensures(<ReceiverApiError<C> as From<FfiValidationError>>::from, (validation,), api)
            ==> api == ReceiverApiError::<C>::InputValidation(validation),
        call_ensures(<ReceiverReplayError as From<ReplayError>>::from, (replay,), log) ==> log
            == ReceiverReplayError::Replay(replay.display),
{
}

/// The kind of an error is that of its variant, and is written by its name.
pub proof fn law_kinds_follow_the_error(err: ReceiverError, kind: ReceiverErrorKind, name: String)
    requires
        call_ensures(ReceiverErrorKind::from_receiver_error, (&err,), kind),
        call_ensures(<ReceiverErrorKind as DebugText>::debug_text, (&kind,), name),
    ensures
        match err {
            ReceiverError::Protocol(_) => kind is Protocol && name@ == "Protocol"@,
            ReceiverError::Implementation(_) => kind is Implementation && name@
                == "Implementation"@,
            ReceiverError::IntoUrl(_) => kind is IntoUrl && name@ == "IntoUrl"@,
            ReceiverError::Unexpected => kind is Unexpected && name@ == "Unexpected"@,
        },
{
}

/// The errors of the receiver say what they are and what went wrong.
pub proof fn law_receiver_errors_say_what_went_wrong(
    top: ReceiverError,
    builder: ReceiverBuilderError,
    address: AddressParseError,
    pair: InputPairError,
    log: ReceiverReplayError,
    outputs: OutputSubstitutionError,
    msg: String,
)
    ensures
        call_ensures(<ReceiverError as Message>::message, (&top,), msg) ==> msg@ == (match top {
            ReceiverError::Protocol(e) => "Protocol error: "@ + e.msg@,
            ReceiverError::Implementation(e) => "Implementation error: "@ + e.msg@,
            ReceiverError::IntoUrl(e) => "IntoUrl error: "@ + e.msg@,
            ReceiverError::Unexpected => "An unexpected error occurred"@,
        }),
        call_ensures(<AddressParseError as Message>::message, (&address,), msg) ==> msg@
            == "Invalid Bitcoin address: "@ + address.msg@,
        call_ensures(<ReceiverBuilderError as Message>::message, (&builder,), msg) ==> msg@ == (
        match builder {
            ReceiverBuilderError::InvalidAddress(e) => "Invalid Bitcoin address: "@ + (
            "Invalid Bitcoin address: "@ + e.msg@),
            ReceiverBuilderError::IntoUrl(e) => "Invalid directory URL: "@ + e.msg@,
        }),
        call_ensures(<InputPairError as Message>::message, (&pair,), msg) ==> msg@ == (match pair {
            InputPairError::InvalidOutPoint { txid, vout } => "Invalid outpoint (txid="@ + txid@
                + ", vout="@ + decimal(vout as nat) + ")"@,
            InputPairError::InvalidPsbtInput(e) => "Invalid PSBT input: "@ + e.msg@,
            InputPairError::FfiValidation(e) => "Invalid input: "@ + e.text(),
        }),
        call_ensures(<ReceiverReplayError as Message>::message, (&log,), msg) ==> msg@ == (
        match log {
            ReceiverReplayError::Replay(why) => "Replay error: "@ + why@,
            ReceiverReplayError::StorageSerde(why) => "Stored event JSON deserialization error: "@
                + why@,
        }),
        call_ensures(<OutputSubstitutionError as Message>::message, (&outputs,), msg) ==> msg@ == (
        match outputs {
            OutputSubstitutionError::Protocol(e) => e.msg@,
            OutputSubstitutionError::FfiValidation(e) => e.text(),
        }),
{
}

/// What the protocol reports is passed on in its own words.
pub proof fn law_reports_are_passed_on(
    protocol: ProtocolError,
    session: SessionError,
    outputs: OutputSubstitutionProtocolError,
    selection: SelectionError,
    contribution: InputContributionError,
    psbt: PsbtInputError,
    failure: ReceiveFailure,
    msg: String,
)
    ensures
        call_ensures(<ProtocolError as Message>::message, (&protocol,), msg) ==> msg@
            == protocol.msg@,
        call_ensures(<SessionError as Message>::message, (&session,), msg) ==> msg@ == session.msg@,
        call_ensures(<OutputSubstitutionProtocolError as Message>::message, (&outputs,), msg)
            ==> msg@ == outputs.msg@,
        call_ensures(<SelectionError as Message>::message, (&selection,), msg) ==> msg@
            == selection.msg@,
        call_ensures(<InputContributionError as Message>::message, (&contribution,), msg) ==> msg@
            == contribution.msg@,
        call_ensures(<PsbtInputError as Message>::message, (&psbt,), msg) ==> msg@ == psbt.msg@,
        call_ensures(<ReceiveFailure as Message>::message, (&failure,), msg) ==> msg@
            == failure.msg@,
{
}

/// The error of an action says how grave it is, of what kind, and what went
/// wrong.
pub proof fn law_api_errors_say_how_grave_they_are<C: ReceiverStates>(
    e: ReceiverApiError<C>,
    msg: String,
)
    requires
        call_ensures(<ReceiverApiError<C> as Message>::message, (&e,), msg),
    ensures
        match e {
            ReceiverApiError::Transient { kind, msg: why } => msg@ == "Transient "@ + kind_name(
                kind,
            ) + " error: "@ + why@,
            ReceiverApiError::Fatal { kind, msg: why } => msg@ == "Fatal "@ + kind_name(kind)
                + " error: "@ + why@,
            ReceiverApiError::FatalWithReplyableState { kind, msg: why, .. } => msg@ == "Fatal "@
                + kind_name(kind) + " error with replyable state: "@ + why@,
            ReceiverApiError::InputValidation(e) => msg@ == "Input validation error: "@ + e.text(),
            ReceiverApiError::InputDeserialization { msg: why } => msg@
                == "Input deserialization error: "@ + why@,
        },
{
}

/// The name of a kind of error.
pub open spec fn kind_name(kind: ReceiverErrorKind) -> Seq<char> {
    match kind {
        ReceiverErrorKind::Protocol => "Protocol"@,
        ReceiverErrorKind::Implementation => "Implementation"@,
        ReceiverErrorKind::IntoUrl => "IntoUrl"@,
        ReceiverErrorKind::Unexpected => "Unexpected"@,
    }
}

/// The reply to the sender is made by the protocol of the error itself.
pub proof fn law_replies_are_the_protocols<C: ReceiverEngine>(
    error: ProtocolError,
    reply: JsonReply<C>,
    foreign: ForeignError,
    api: ReceiverApiError<C>,
)
    ensures
        call_ensures(JsonReply::<C>::from_protocol_error, (error,), reply) ==> call_ensures(
            C::json_reply,
            (&error,),
            reply.0,
        ),
        call_ensures(ReceiverApiError::<C>::from_foreign_error, (foreign,), api) ==> (
        api matches ReceiverApiError::InputDeserialization { msg } && msg@ == "Internal error: "@
            + foreign->InternalError_0@),
{
}

} // verus!
