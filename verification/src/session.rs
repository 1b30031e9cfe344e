//! Values that both roles exchange with the protocol and the directory.
use crate::text::Message;
use vstd::prelude::*;
use vstd::string::*;

verus! {

/// An event of a session log. `P` is what the protocol needs to replay an
/// advance, `O` how the session can end.
#[derive(Debug)]
pub enum SessionEvent<P, O> {
    /// The session moved on to another state.
    Advanced(P),
    /// The session ended.
    Closed(O),
}

/// An HTTP request to be sent by the caller.
#[derive(Debug)]
pub struct Request {
    /// Where to send it.
    pub url: String,
    /// Value of the `Content-Type` header.
    pub content_type: String,
    /// The body.
    pub body: Vec<u8>,
}

/// A payjoin URI in text.
#[derive(Debug)]
pub struct PjUri {
    /// The text.
    pub uri: String,
}

impl Clone for PjUri {
    fn clone(&self) -> (r: Self)
        ensures
            r == *self,
    {
        PjUri { uri: self.uri.clone() }
    }
}

/// The OHTTP key configuration of a directory, in its text encoding.
#[derive(Debug)]
pub struct OhttpKeys {
    /// The text.
    pub encoded: String,
}

impl Clone for OhttpKeys {
    fn clone(&self) -> (r: Self)
        ensures
            r == *self,
    {
        OhttpKeys { encoded: self.encoded.clone() }
    }
}

/// Error converting a value into a URL.
#[derive(Debug)]
pub struct IntoUrlError {
    /// What is wrong with it.
    pub msg: String,
}

impl Message for IntoUrlError {
    open spec fn text(&self) -> Seq<char> {
        self.msg@
    }

    fn message(&self) -> (r: String) {
        self.msg.clone()
    }
}

/// A fee rate that is too large to be represented.
#[derive(Debug, Clone, Copy, PartialEq, Eq, Structural)]
pub enum FeeRateError {
    /// The fee rate in sat/vB that overflows.
    Overflow(u64),
}

impl FeeRateError {
    /// The error for a fee rate of `sat_per_vb`.
    pub fn overflow(sat_per_vb: u64) -> (r: Self)
        ensures
            r == FeeRateError::Overflow(sat_per_vb),
    {
        FeeRateError::Overflow(sat_per_vb)
    }
}

/// Why a session log could not be replayed, in both renderings.
#[derive(Debug)]
pub struct ReplayError {
    /// The message for people.
    pub display: String,
    /// The rendering for diagnostics.
    pub debug: String,
}

impl Message for ReplayError {
    open spec fn text(&self) -> Seq<char> {
        self.display@
    }

    fn message(&self) -> (r: String) {
        self.display.clone()
    }
}

/// A URL that cannot be made and a log that cannot be replayed say why.
pub proof fn law_session_errors_say_what_went_wrong(
    url: IntoUrlError,
    replay: ReplayError,
    msg: String,
)
    ensures
        call_ensures(<IntoUrlError as Message>::message, (&url,), msg) ==> msg@ == url.msg@,
        call_ensures(<ReplayError as Message>::message, (&replay,), msg) ==> msg@
            == replay.display@,
{
}

/// A copy of a URI and of keys is the same text, and a fee rate that overflows
/// is named.
pub proof fn law_copies_are_the_same(
    uri: &PjUri,
    uri_copy: PjUri,
    keys: &OhttpKeys,
    keys_copy: OhttpKeys,
    sat_per_vb: u64,
    e: FeeRateError,
)
    ensures
        call_ensures(<PjUri as Clone>::clone, (uri,), uri_copy) ==> uri_copy.uri == uri.uri,
        call_ensures(<OhttpKeys as Clone>::clone, (keys,), keys_copy) ==> keys_copy.encoded
            == keys.encoded,
        call_ensures(FeeRateError::overflow, (sat_per_vb,), e) ==> e->Overflow_0 == sat_per_vb,
{
}

} // verus!
