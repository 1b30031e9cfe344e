//! What the sender's sessions ask of the payjoin protocol.
use crate::chain::Psbt;
use crate::persist::{Advance, OptionalTransition, Transition};
use crate::send::error::{BuildFailure, CreateRequestError, EncapsulationError, ResponseFailure};
use crate::session::{PjUri, ReplayError, Request, SessionEvent};
use crate::validation::InputRules;
use vstd::prelude::*;
use vstd::string::*;

verus! {

/// How a sender session can end.
#[derive(Debug)]
pub enum SessionOutcome {
    /// The receiver's proposal arrived and passed the sender's checks.
    Success(Psbt),
    /// The session failed.
    Failure,
    /// The session was cancelled.
    Cancel,
}

impl SessionOutcome {
    /// The rendering for diagnostics of an outcome other than success.
    pub open spec fn name(self) -> Seq<char> {
        match self {
            SessionOutcome::Success(_) => "Success"@,
            SessionOutcome::Failure => "Failure"@,
            SessionOutcome::Cancel => "Cancel"@,
        }
    }

    /// The name of the outcome.
    pub fn name_text(&self) -> (r: &'static str)
        ensures
            r@ == self.name(),
    {
        match self {
            SessionOutcome::Success(_) => "Success",
            SessionOutcome::Failure => "Failure",
            SessionOutcome::Cancel => "Cancel",
        }
    }
}

/// The values of the protocol that a sender session carries without looking inside.
pub trait SenderStates: Sized {
    /// What an event needs to replay an advance.
    type Payload;

    /// The original PSBT is ready to be posted.
    type WithReplyKey;

    /// The original PSBT is posted; the proposal is awaited.
    type PollingForProposal;

    /// What decrypts the response to a request.
    type Context;

    /// What a replayed log says of its session.
    type History;

    /// A summary of where a session stands.
    type Status;

    /// The endpoint part of a payjoin URI.
    type PjParam;

    /// What validates the response of a receiver of the first protocol version.
    type V1Context;
}

/// An event of a sender session.
pub type SenderEvent<C> = SessionEvent<<C as SenderStates>::Payload, SessionOutcome>;

/// The event by which a sender session is closed as a failure.
pub open spec fn failure_event<C: SenderStates>() -> SenderEvent<C> {
    SessionEvent::Closed(SessionOutcome::Failure)
}

/// Makes the event by which a sender session is closed as a failure.
pub(crate) fn closing_failure<C: SenderStates>() -> (r: SenderEvent<C>)
    ensures
        r == failure_event::<C>(),
{
    SessionEvent::Closed(SessionOutcome::Failure)
}

/// What came of posting the original PSBT.
pub type PostReply<C> = Transition<
    SenderEvent<C>,
    <C as SenderStates>::PollingForProposal,
    EncapsulationError,
>;

/// What came of a poll for the proposal.
pub type PollReply<C> = OptionalTransition<
    SenderEvent<C>,
    Psbt,
    <C as SenderStates>::PollingForProposal,
    ResponseFailure,
>;

/// What the protocol replays a sender's log into.
pub enum CoreSendSession<C: SenderStates> {
    /// The original PSBT is ready to be posted.
    WithReplyKey(C::WithReplyKey),
    /// The proposal is awaited.
    PollingForProposal(C::PollingForProposal),
    /// The session ended.
    Closed(SessionOutcome),
}

/// What a sender session can tell of itself.
#[derive(Debug)]
pub struct SenderTerms {
    /// The receiver's mailbox.
    pub endpoint: String,
    /// When the session expires, in seconds since the Unix epoch.
    pub expiration_unix_secs: u64,
}

/// What a sender is built from.
#[derive(Debug)]
pub struct SenderParams {
    /// The sender's original, signed and finalized, PSBT.
    pub psbt: Psbt,
    /// Where to pay.
    pub uri: PjUri,
    /// Whether the receiver may not substitute outputs, whatever the URI says.
    pub disable_output_substitution: bool,
}

impl Clone for SenderParams {
    fn clone(&self) -> (r: Self)
        ensures
            r == *self,
    {
        SenderParams {
            psbt: self.psbt.clone(),
            uri: self.uri.clone(),
            disable_output_substitution: self.disable_output_substitution,
        }
    }
}

/// The sender's side of the payjoin protocol. Nothing is taken for granted of
/// its answers.
pub trait SenderEngine: SenderStates + InputRules {
    /// Builds a sender with the recommended fee contribution.
    fn build_recommended(params: &SenderParams, min_fee_rate: u64) -> Result<
        Advance<Self::Payload, Self::WithReplyKey>,
        BuildFailure,
    >;

    /// Builds a sender that offers the receiver to pay for its input.
    fn build_with_additional_fee(
        params: &SenderParams,
        max_fee_contribution: u64,
        change_index: Option<usize>,
        min_fee_rate: u64,
        clamp_fee_contribution: bool,
    ) -> Result<Advance<Self::Payload, Self::WithReplyKey>, BuildFailure>;

    /// Builds a sender that offers the receiver nothing.
    fn build_non_incentivizing(params: &SenderParams, min_fee_rate: u64) -> Result<
        Advance<Self::Payload, Self::WithReplyKey>,
        BuildFailure,
    >;

    /// Makes the request that posts the original PSBT.
    fn create_v2_post_request(session: &Self::WithReplyKey, ohttp_relay: &String) -> Result<
        (Request, Self::Context),
        CreateRequestError,
    >;

    /// Reads the directory's response to the posted original PSBT.
    fn process_post_response(
        session: &Self::WithReplyKey,
        response: &[u8],
        ctx: &Self::Context,
    ) -> PostReply<Self>;

    /// Makes the request that polls for the proposal.
    fn create_poll_request(session: &Self::PollingForProposal, ohttp_relay: &String) -> Result<
        (Request, Self::Context),
        CreateRequestError,
    >;

    /// Reads the directory's response to a poll.
    fn process_poll_response(
        session: &Self::PollingForProposal,
        response: &[u8],
        ctx: &Self::Context,
    ) -> PollReply<Self>;

    /// Replays a session log.
    fn replay_event_log(events: Vec<SenderEvent<Self>>) -> Result<
        (CoreSendSession<Self>, Self::History),
        ReplayError,
    >;

    /// Reads an event from JSON.
    fn event_from_json(json: &String) -> Result<SenderEvent<Self>, String>;

    /// Writes an event as JSON.
    fn event_to_json(event: &SenderEvent<Self>) -> Result<String, String>;

    /// The terms of a session that has not posted the original PSBT yet.
    fn terms_with_reply_key(session: &Self::WithReplyKey) -> SenderTerms;

    /// The terms of a session that waits for the proposal.
    fn terms_polling(session: &Self::PollingForProposal) -> SenderTerms;

    /// The original transaction of a session that has not posted it yet.
    fn fallback_with_reply_key(session: &Self::WithReplyKey) -> Vec<u8>;

    /// The original transaction of a session that waits for the proposal.
    fn fallback_polling(session: &Self::PollingForProposal) -> Vec<u8>;

    /// The original transaction of a replayed session.
    fn history_fallback_tx(history: &Self::History) -> Vec<u8>;

    /// The endpoint of a replayed session.
    fn history_pj_param(history: &Self::History) -> Self::PjParam;

    /// Where a replayed session stands.
    fn history_status(history: &Self::History) -> Self::Status;

    /// Reads the response of a receiver of the first protocol version.
    fn process_v1_response(ctx: &Self::V1Context, response: &[u8]) -> Result<Psbt, ResponseFailure>;
}

/// A session that is closed as a failure is closed as that, and not as
/// cancelled or successful.
pub proof fn law_failures_close_as_failures<C: SenderStates>()
    ensures
        failure_event::<C>() matches SessionEvent::Closed(outcome) && outcome is Failure,
{
}

/// Each way to end is named by itself.
pub proof fn law_outcomes_are_named(outcome: SessionOutcome, name: &'static str)
    requires
        call_ensures(SessionOutcome::name_text, (&outcome,), name),
    ensures
        match outcome {
            SessionOutcome::Success(_) => name@ == "Success"@,
            SessionOutcome::Failure => name@ == "Failure"@,
            SessionOutcome::Cancel => name@ == "Cancel"@,
        },
{
}

} // verus!
