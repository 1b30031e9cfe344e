//! Sans-IO drivers for whole sessions.
//!
//! There is one per role: [`receiver::ReceiverSession`] and
//! [`sender::SenderSession`]. Each owns the stages of the protocol, the polling
//! cycle and the events that have to be saved. The caller drives it by
//! exchanging requests and response bodies with whatever HTTP transport it
//! has, and by taking the decisions that need a wallet. What the caller can rely
//! on is proved in [`receiver_laws`] and [`sender_laws`].
use crate::runtime::error::Error;
use crate::session::Request;
use vstd::prelude::*;

pub mod ceremony;
pub mod error;
pub mod psbt;
pub mod receiver;
pub mod receiver_laws;
pub mod sender;
pub mod sender_laws;

verus! {

/// What the caller should do to drive a session forward. `E` is the type of
/// the role's events.
#[derive(Debug)]
pub enum Step<E> {
    /// Persist these events atomically before continuing: they represent one
    /// logical state advance. Save them in order, then call `poll` again.
    ///
    /// If the session crashes before the caller has persisted them, it can be
    /// recovered by replaying the log that was saved before.
    Save(Vec<E>),
    /// Send this HTTP request, then feed the response body back via
    /// `feed_response`.
    SendRequest(Request),
    /// The directory had no payload yet. Sleep, then call `poll` again. No
    /// particular delay is enforced.
    Backoff,
    /// The session reached its terminal success state.
    Done,
    /// The session failed terminally. Later `poll` calls will return
    /// [`Error::Terminated`].
    Failed(Error),
}

/// The fee rates, in sat/kwu, that the receiver allows for its proposal.
///
/// No `min` means that the least rate that is relayed will do; no `max` means
/// that the receiver will not pay for any of the network fee.
#[derive(Debug, Clone, Copy)]
pub struct FeeRange {
    /// Lowest effective fee rate the receiver accepts on the proposal.
    pub min: Option<u64>,
    /// Highest effective fee rate the receiver is willing to pay for what it
    /// contributes.
    pub max: Option<u64>,
}

impl Default for FeeRange {
    fn default() -> (r: Self)
        ensures
            r == (FeeRange { min: None, max: None }),
    {
        FeeRange { min: None, max: None }
    }
}

} // verus!
