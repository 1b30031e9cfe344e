//! Errors surfaced by the session drivers.
use crate::persist::ApiError;
use crate::text::{DebugText, Message};
use vstd::prelude::*;
use vstd::string::*;

verus! {

/// Errors surfaced by the session drivers.
///
/// `Error` is intentionally coarse: the errors of the protocol are collapsed
/// into a handful of buckets to keep match arms manageable. The original
/// message is kept in the payload for diagnostics.
#[derive(Debug)]
pub enum Error {
    /// A payjoin protocol-level error (encapsulation, directory response,
    /// state machine violation, etc.).
    Payjoin(String),
    /// A failure of the wallet.
    Wallet(String),
    /// The session has already terminated (done or failed). All later `poll`
    /// and `feed_*` calls return this error.
    Terminated,
}

/// Whether `e` is a protocol error that says `msg`.
pub open spec fn is_payjoin(e: Error, msg: Seq<char>) -> bool {
    e matches Error::Payjoin(m) && m@ == msg
}

/// Whether `e` is a wallet error that says `msg`.
pub open spec fn is_wallet(e: Error, msg: Seq<char>) -> bool {
    e matches Error::Wallet(m) && m@ == msg
}

/// How the outcome of a transition reads once it is folded into an [`Error`].
pub open spec fn api_text<X: Message, S: DebugText>(e: ApiError<X, S>) -> Seq<char> {
    match e {
        ApiError::Transient(err) => "transient: "@ + err.text(),
        ApiError::Fatal(err) => "fatal: "@ + err.text(),
        ApiError::FatalWithState(err, st) => "fatal "@ + err.text() + " ("@ + st.debug() + ")"@,
    }
}

impl Error {
    /// A protocol error that says `msg`.
    pub(crate) fn because(msg: &str) -> (r: Self)
        ensures
            is_payjoin(r, msg@),
    {
        Error::Payjoin(msg.to_owned())
    }

    /// Folds an error of the protocol into `Error::Payjoin`.
    pub fn payjoin<X: Message>(e: X) -> (r: Self)
        ensures
            is_payjoin(r, e.text()),
    {
        Error::Payjoin(e.message())
    }

    /// Folds the error of a transition into `Error::Payjoin`. The error state,
    /// where there is one, goes into the message.
    pub fn from_api<X: Message, S: DebugText>(e: ApiError<X, S>) -> (r: Self)
        ensures
            is_payjoin(r, api_text(e)),
    {
        match e {
            ApiError::Transient(err) => Error::Payjoin(
                "transient: ".to_owned().concat(err.message().as_str()),
            ),
            ApiError::Fatal(err) => Error::Payjoin(
                "fatal: ".to_owned().concat(err.message().as_str()),
            ),
            ApiError::FatalWithState(err, st) => {
                let mut s = "fatal ".to_owned();
                s.append(err.message().as_str());
                s.append(" (");
                s.append(st.debug_text().as_str());
                s.append(")");
                Error::Payjoin(s)
            },
        }
    }
}

impl Message for Error {
    open spec fn text(&self) -> Seq<char> {
        match self {
            Error::Payjoin(s) => "payjoin protocol error: "@ + s@,
            Error::Wallet(s) => "wallet error: "@ + s@,
            Error::Terminated => "session already terminated"@,
        }
    }

    fn message(&self) -> (r: String) {
        match self {
            Error::Payjoin(s) => "payjoin protocol error: ".to_owned().concat(s.as_str()),
            Error::Wallet(s) => "wallet error: ".to_owned().concat(s.as_str()),
            Error::Terminated => "session already terminated".to_owned(),
        }
    }
}

/// An error of the protocol is kept as one, in its own words.
pub proof fn law_protocol_errors_keep_their_words<X: Message>(e: X, r: Error)
    requires
        call_ensures(Error::payjoin::<X>, (e,), r),
    ensures
        r matches Error::Payjoin(msg) && msg@ == e.text(),
{
}

/// The error of a transition is kept as one of the protocol. It says how grave
/// it was, what went wrong and, where it left a state, which.
pub proof fn law_transition_errors_keep_their_words<X: Message, S: DebugText>(
    e: ApiError<X, S>,
    r: Error,
)
    requires
        call_ensures(Error::from_api::<X, S>, (e,), r),
    ensures
        r is Payjoin,
        match e {
            ApiError::Transient(x) => r->Payjoin_0@ == "transient: "@ + x.text(),
            ApiError::Fatal(x) => r->Payjoin_0@ == "fatal: "@ + x.text(),
            ApiError::FatalWithState(x, s) => r->Payjoin_0@ == "fatal "@ + x.text() + " ("@
                + s.debug() + ")"@,
        },
{
}

/// An error says whose it is and what went wrong.
pub proof fn law_errors_say_whose_they_are(e: Error, msg: String)
    requires
        call_ensures(<Error as Message>::message, (&e,), msg),
    ensures
        match e {
            Error::Payjoin(why) => msg@ == "payjoin protocol error: "@ + why@,
            Error::Wallet(why) => msg@ == "wallet error: "@ + why@,
            Error::Terminated => msg@ == "session already terminated"@,
        },
{
}

} // verus!
