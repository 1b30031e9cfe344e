//! Building a sender session, and its states.
//!
//! Each action records its events in the caller's buffer, whether it succeeds
//! or not, and hands out the next state or an error.
use crate::chain::{psbt_defect, psbt_written, Psbt};
use crate::error::{FfiValidationError, ProvisionalConfirmError};
use crate::persist::{
    Advance, OptionalTransition, OptionalTransitionOutcome, ProvisionalView,
};
use crate::send::buffer::{ProvisionalPsbt, ProvisionalWithReplyKey, SenderEventBuffer};
use crate::send::engine::{
    closing_failure, failure_event, PollReply, PostReply, SenderEngine, SenderEvent, SenderParams,
    SenderStates, SenderTerms, SessionOutcome,
};
use crate::send::error::{
    sender_api_error, BuildFailure, BuildSenderError, CreateRequestError, PsbtParseError,
    ResponseError, ResponseFailure, SenderApiError, SenderErrorKind, SenderInputError,
};
use crate::session::{PjUri, Request};
use crate::staging::{handed_out, one_event, NumberedBufferView, StagedView};
use crate::text::Message;
use crate::validation::{validate_amount_sat, validate_fee_rate_sat_per_kwu};
use vstd::prelude::*;
use vstd::std_specs::convert::FromSpec;

verus! {

/// A buffer of sender events.
pub type Buffer<C> = NumberedBufferView<SenderEvent<C>>;

/// Gathers what a sender session is created from.
#[derive(Debug)]
pub struct SenderBuilder {
    /// What was gathered so far.
    pub params: SenderParams,
}

impl Clone for SenderBuilder {
    fn clone(&self) -> (r: Self)
        ensures
            r == *self,
    {
        SenderBuilder { params: self.params.clone() }
    }
}

/// What the protocol answers when it is asked to build a sender.
pub type Built<C> = Result<
    Advance<<C as SenderStates>::Payload, <C as SenderStates>::WithReplyKey>,
    BuildFailure,
>;

/// What building a sender does to the buffer and returns: the session waits for
/// the event that created it.
pub open spec fn sender_staged<C: SenderEngine>(
    answer: Built<C>,
    before: Buffer<C>,
    after: Buffer<C>,
    r: Result<ProvisionalWithReplyKey<C>, SenderInputError>,
) -> bool {
    match answer {
        Ok(advance) => {
            &&& after == before.push(SenderEvent::<C>::Advanced(advance.event))
            &&& r matches Ok(provisional) && provisional@ == (StagedView {
                held: Some(
                    ProvisionalView { inner: advance.state, needs_committed: after.log.pushed() },
                ),
                buffer_id: before.id,
            })
        },
        Err(e) => {
            &&& after == before
            &&& r matches Err(SenderInputError::Build(err)) && err.msg@ == e.text()
        },
    }
}

/// Whether `r` refuses an input, with the buffer left as it was.
pub open spec fn input_refused<C: SenderStates>(
    err: FfiValidationError,
    before: Buffer<C>,
    after: Buffer<C>,
    r: Result<ProvisionalWithReplyKey<C>, SenderInputError>,
) -> bool {
    r == Err::<ProvisionalWithReplyKey<C>, SenderInputError>(SenderInputError::FfiValidation(err))
        && after == before
}

/// What an action that failed has recorded. A session that is closed by it is
/// closed as a failure, and what can be retried leaves no trace.
pub open spec fn failure_recorded<C: SenderStates>(
    before: Buffer<C>,
    after: Buffer<C>,
    err: SenderApiError,
) -> bool {
    match err {
        SenderApiError::Fatal { .. } => after == before.push(failure_event::<C>()),
        SenderApiError::Transient { .. } => after == before,
    }
}

/// Records and stages what the protocol built.
pub fn stage_sender<C: SenderEngine>(answer: Built<C>, buf: &mut SenderEventBuffer<C>) -> (r: Result<
    ProvisionalWithReplyKey<C>,
    SenderInputError,
>)
    requires
        old(buf)@.log.pushed() < u64::MAX,
    ensures
        sender_staged(answer, old(buf)@, final(buf)@, r),
{
    match answer {
        Ok(advance) => {
            buf.push(SenderEvent::<C>::Advanced(advance.event));
            Ok(ProvisionalWithReplyKey::staged(buf.hold(advance.state)))
        },
        Err(e) => Err(SenderInputError::Build(BuildSenderError::from_message(e))),
    }
}

impl SenderBuilder {
    /// Creates a builder from the original PSBT, in base64, and the URI to pay.
    pub fn new(psbt: String, uri: PjUri) -> (r: Result<Self, SenderInputError>)
        ensures
            match psbt_defect(psbt@) {
                None => r matches Ok(b) && b.params.psbt@ == psbt@ && b.params == (SenderParams {
                    psbt: b.params.psbt,
                    uri,
                    disable_output_substitution: false,
                }),
                Some(msg) => r matches Err(SenderInputError::Psbt(PsbtParseError::InvalidPsbt(m)))
                    && m@ == msg,
            },
    {
        Self::with_psbt(Psbt::parse(psbt), uri)
    }

    /// Creates a builder from a PSBT that was parsed already.
    pub fn with_psbt(psbt: Result<Psbt, String>, uri: PjUri) -> (r: Result<Self, SenderInputError>)
        ensures
            r == (match psbt {
                Ok(psbt) => Ok::<SenderBuilder, SenderInputError>(
                    SenderBuilder {
                        params: SenderParams { psbt, uri, disable_output_substitution: false },
                    },
                ),
                Err(msg) => Err(SenderInputError::Psbt(PsbtParseError::InvalidPsbt(msg))),
            }),
    {
        match psbt {
            Ok(psbt) => Ok(
                SenderBuilder {
                    params: SenderParams { psbt, uri, disable_output_substitution: false },
                },
            ),
            Err(msg) => Err(SenderInputError::Psbt(PsbtParseError::InvalidPsbt(msg))),
        }
    }

    /// Disables output substitution even if the receiver did not.
    pub fn always_disable_output_substitution(&self) -> (r: Self)
        ensures
            r == (SenderBuilder {
                params: SenderParams { disable_output_substitution: true, ..self.params },
            }),
    {
        let mut next = self.clone();
        next.params.disable_output_substitution = true;
        next
    }

    /// Builds with the recommended fee contribution. Pushes the event that
    /// creates the session into `buf` and holds the session back: nothing can
    /// be posted to the directory until that event is durable and the
    /// provisional is confirmed.
    pub fn build_recommended<C: SenderEngine>(
        &self,
        min_fee_rate_sat_per_kwu: u64,
        buf: &mut SenderEventBuffer<C>,
    ) -> (r: Result<ProvisionalWithReplyKey<C>, SenderInputError>)
        requires
            old(buf)@.log.pushed() < u64::MAX,
        ensures
            exists|rate: Result<(), FfiValidationError>| #[trigger]
                call_ensures(C::fee_rate_sat_per_kwu, (min_fee_rate_sat_per_kwu,), rate)
                    && match rate {
                    Err(e) => input_refused(e, old(buf)@, final(buf)@, r),
                    Ok(()) => exists|answer: Built<C>| #[trigger]
                        call_ensures(
                            C::build_recommended,
                            (&self.params, min_fee_rate_sat_per_kwu),
                            answer,
                        ) && sender_staged(answer, old(buf)@, final(buf)@, r),
                },
    {
        match validate_fee_rate_sat_per_kwu::<C>(min_fee_rate_sat_per_kwu) {
            Ok(rate) => stage_sender(C::build_recommended(&self.params, rate), buf),
            Err(e) => Err(SenderInputError::from(e)),
        }
    }

    /// Offers the receiver to pay for its input, up to
    /// `max_fee_contribution_sats`. See [`Self::build_recommended`] for what is
    /// held back.
    pub fn build_with_additional_fee<C: SenderEngine>(
        &self,
        max_fee_contribution_sats: u64,
        change_index: Option<u8>,
        min_fee_rate_sat_per_kwu: u64,
        clamp_fee_contribution: bool,
        buf: &mut SenderEventBuffer<C>,
    ) -> (r: Result<ProvisionalWithReplyKey<C>, SenderInputError>)
        requires
            old(buf)@.log.pushed() < u64::MAX,
        ensures
            exists|amount: Result<(), FfiValidationError>| #[trigger]
                call_ensures(C::amount_sat, (max_fee_contribution_sats,), amount) && match amount {
                    Err(e) => input_refused(e, old(buf)@, final(buf)@, r),
                    Ok(()) => exists|rate: Result<(), FfiValidationError>| #[trigger]
                        call_ensures(C::fee_rate_sat_per_kwu, (min_fee_rate_sat_per_kwu,), rate)
                            && match rate {
                            Err(e) => input_refused(e, old(buf)@, final(buf)@, r),
                            Ok(()) => exists|answer: Built<C>| #[trigger]
                                call_ensures(
                                    C::build_with_additional_fee,
                                    (
                                        &self.params,
                                        max_fee_contribution_sats,
                                        index_of(change_index),
                                        min_fee_rate_sat_per_kwu,
                                        clamp_fee_contribution,
                                    ),
                                    answer,
                                ) && sender_staged(answer, old(buf)@, final(buf)@, r),
                        },
                },
    {
        let amount: u64 = match validate_amount_sat::<C>(max_fee_contribution_sats) {
            Ok(amount) => amount,
            Err(e) => {
                return Err(SenderInputError::from(e));
            },
        };
        let rate: u64 = match validate_fee_rate_sat_per_kwu::<C>(min_fee_rate_sat_per_kwu) {
            Ok(rate) => rate,
            Err(e) => {
                return Err(SenderInputError::from(e));
            },
        };
        let change: Option<usize> = match change_index {
            Some(i) => Some(i as usize),
            None => None,
        };
        let answer = C::build_with_additional_fee(
            &self.params,
            amount,
            change,
            rate,
            clamp_fee_contribution,
        );
        stage_sender(answer, buf)
    }

    /// Performs the payjoin without incentivizing the payee. See
    /// [`Self::build_recommended`] for what is held back.
    pub fn build_non_incentivizing<C: SenderEngine>(
        &self,
        min_fee_rate_sat_per_kwu: u64,
        buf: &mut SenderEventBuffer<C>,
    ) -> (r: Result<ProvisionalWithReplyKey<C>, SenderInputError>)
        requires
            old(buf)@.log.pushed() < u64::MAX,
        ensures
            exists|rate: Result<(), FfiValidationError>| #[trigger]
                call_ensures(C::fee_rate_sat_per_kwu, (min_fee_rate_sat_per_kwu,), rate)
                    && match rate {
                    Err(e) => input_refused(e, old(buf)@, final(buf)@, r),
                    Ok(()) => exists|answer: Built<C>| #[trigger]
                        call_ensures(
                            C::build_non_incentivizing,
                            (&self.params, min_fee_rate_sat_per_kwu),
                            answer,
                        ) && sender_staged(answer, old(buf)@, final(buf)@, r),
                },
    {
        match validate_fee_rate_sat_per_kwu::<C>(min_fee_rate_sat_per_kwu) {
            Ok(rate) => stage_sender(C::build_non_incentivizing(&self.params, rate), buf),
            Err(e) => Err(SenderInputError::from(e)),
        }
    }
}

/// The index of an output, as the protocol takes it.
pub open spec fn index_of(change_index: Option<u8>) -> Option<usize> {
    match change_index {
        Some(i) => Some(i as usize),
        None => None,
    }
}

/// A request, with what decrypts its response.
pub struct RequestOhttpContext<C: SenderStates> {
    /// The request.
    pub request: Request,
    /// What decrypts the response.
    pub ohttp_ctx: C::Context,
}

/// What a request, or the reason why there is none, is handed out as.
pub open spec fn paired<C: SenderStates>(
    request: Result<(Request, C::Context), CreateRequestError>,
) -> Result<RequestOhttpContext<C>, CreateRequestError> {
    match request {
        Ok(pair) => Ok(RequestOhttpContext { request: pair.0, ohttp_ctx: pair.1 }),
        Err(e) => Err(e),
    }
}

/// The original PSBT is ready to be posted.
pub struct WithReplyKey<C: SenderStates>(pub C::WithReplyKey);

impl<C: SenderEngine> WithReplyKey<C> {
    /// Cancels the session: pushes the event that closes it into `buf` and
    /// returns the original transaction in consensus encoding, which should be
    /// broadcast to complete the payment without payjoin.
    ///
    /// This is a terminal action. The caller is expected to drain `buf`.
    pub fn cancel(&self, buf: &mut SenderEventBuffer<C>) -> (r: Vec<u8>)
        requires
            old(buf)@.log.pushed() < u64::MAX,
        ensures
            final(buf)@ == old(buf)@.push(SenderEvent::<C>::Closed(SessionOutcome::Cancel)),
            call_ensures(C::fallback_with_reply_key, (&self.0,), r),
    {
        buf.push_cancel();
        C::fallback_with_reply_key(&self.0)
    }

    /// Makes the request that posts the original PSBT.
    ///
    /// It must not be retried or reused on failure: sending the same ciphertext
    /// again breaks the privacy of the relay.
    pub fn create_v2_post_request(&self, ohttp_relay: String) -> (r: Result<
        RequestOhttpContext<C>,
        CreateRequestError,
    >)
        ensures
            exists|request| #[trigger]
                call_ensures(C::create_v2_post_request, (&self.0, &ohttp_relay), request) && r
                    == paired::<C>(request),
    {
        match C::create_v2_post_request(&self.0, &ohttp_relay) {
            Ok((request, ohttp_ctx)) => Ok(RequestOhttpContext { request, ohttp_ctx }),
            Err(e) => Err(e),
        }
    }

    /// Reads the directory's response to the original PSBT.
    pub fn process_response(
        &self,
        response: &[u8],
        post_ctx: &C::Context,
        buf: &mut SenderEventBuffer<C>,
    ) -> (r: Result<PollingForProposal<C>, SenderApiError>)
        requires
            old(buf)@.log.pushed() < u64::MAX,
        ensures
            match r {
                Ok(_) => one_event(old(buf)@, final(buf)@),
                Err(e) => failure_recorded::<C>(old(buf)@, final(buf)@, e),
            },
            exists|t: PostReply<C>| #[trigger]
                call_ensures(C::process_post_response, (&self.0, response, post_ctx), t)
                    && final(buf)@ == old(buf)@.record(t.action(failure_event::<C>()))
                        && match t.outcome() {
                    Ok(next) => r == Ok::<PollingForProposal<C>, SenderApiError>(
                        PollingForProposal(next),
                    ),
                    Err(e) => r matches Err(err) && err@ == sender_api_error(
                        SenderErrorKind::Encapsulation,
                        e,
                    ),
                },
    {
        let t = C::process_post_response(&self.0, response, post_ctx);
        let (action, outcome) = t.deconstruct(closing_failure::<C>());
        buf.record(action);
        match outcome {
            Ok(next) => Ok(PollingForProposal(next)),
            Err(e) => Err(SenderApiError::from_api_error_encapsulation(e)),
        }
    }

    /// The receiver's mailbox.
    pub fn endpoint(&self) -> (r: String)
        ensures
            exists|terms: SenderTerms| #[trigger]
                call_ensures(C::terms_with_reply_key, (&self.0,), terms) && r == terms.endpoint,
    {
        C::terms_with_reply_key(&self.0).endpoint
    }

    /// When the session expires, in seconds since the Unix epoch.
    pub fn expiration_unix_secs(&self) -> (r: u64)
        ensures
            exists|terms: SenderTerms| #[trigger]
                call_ensures(C::terms_with_reply_key, (&self.0,), terms) && r
                    == terms.expiration_unix_secs,
    {
        C::terms_with_reply_key(&self.0).expiration_unix_secs
    }
}

/// A request to a receiver of the first protocol version, with what validates
/// its response.
pub struct RequestV1Context<C: SenderStates> {
    /// The request.
    pub request: Request,
    /// What validates the response.
    pub context: V1Context<C>,
}

/// What validates the response of a receiver of the first protocol version.
pub struct V1Context<C: SenderStates>(pub C::V1Context);

impl<C: SenderEngine> V1Context<C> {
    /// Reads the response; the proposal is handed out in base64.
    pub fn process_response(&self, response: &[u8]) -> (r: Result<String, ResponseError>)
        ensures
            exists|answer: Result<Psbt, ResponseFailure>| #[trigger]
                call_ensures(C::process_v1_response, (&self.0, response), answer) && match answer {
                    Ok(psbt) => r matches Ok(text) && psbt_written(psbt@, text@),
                    Err(e) => r == Err::<String, ResponseError>(
                        <ResponseError as FromSpec<ResponseFailure>>::from_spec(e),
                    ),
                },
    {
        match C::process_v1_response(&self.0, response) {
            Ok(psbt) => Ok(psbt.to_base64()),
            Err(e) => Err(ResponseError::from(e)),
        }
    }
}

/// The original PSBT is posted; the proposal is awaited.
pub struct PollingForProposal<C: SenderStates>(pub C::PollingForProposal);

/// What came of polling the directory for the proposal.
pub enum PollingForProposalTransitionOutcome<C: SenderStates> {
    /// The receiver's proposal arrived. It waits for its event to become
    /// durable; then sign and broadcast it.
    Progress { inner: ProvisionalPsbt },
    /// No response yet; resume polling from the current state.
    Stasis { inner: PollingForProposal<C> },
}

/// What a polled answer does to the buffer and is handed out as.
pub open spec fn poll_taken<C: SenderEngine>(
    t: PollReply<C>,
    before: Buffer<C>,
    after: Buffer<C>,
    r: Result<PollingForProposalTransitionOutcome<C>, SenderApiError>,
) -> bool {
    &&& after == before.record(t.action(failure_event::<C>()))
    &&& match t.outcome() {
        Ok(OptionalTransitionOutcome::Progress(psbt)) => r matches Ok(
            PollingForProposalTransitionOutcome::Progress { inner },
        ) && inner@ == (StagedView {
            held: Some(ProvisionalView { inner: psbt, needs_committed: after.log.pushed() }),
            buffer_id: before.id,
        }),
        Ok(OptionalTransitionOutcome::Stasis(s)) => r == Ok::<
            PollingForProposalTransitionOutcome<C>,
            SenderApiError,
        >(PollingForProposalTransitionOutcome::Stasis { inner: PollingForProposal(s) }),
        Err(e) => r matches Err(err) && err@ == sender_api_error(SenderErrorKind::Response, e),
    }
}

/// A proposal arrives with an event of its own, which is queued last, and
/// cannot be had before that event is durable: it is refused as long as the
/// event is queued, and is handed out once the buffer has been drained.
pub proof fn law_arrived_proposal_waits_for_its_event<C: SenderEngine>(
    t: PollReply<C>,
    before: Buffer<C>,
    after: Buffer<C>,
    provisional: ProvisionalPsbt,
    n: nat,
    early: StagedView<Psbt>,
    early_r: Result<Psbt, ProvisionalConfirmError>,
    late: StagedView<Psbt>,
    late_r: Result<Psbt, ProvisionalConfirmError>,
)
    requires
        poll_taken::<C>(
            t,
            before,
            after,
            Ok(PollingForProposalTransitionOutcome::Progress { inner: provisional }),
        ),
        n < after.log.pending.len(),
        handed_out(provisional@, after.commit(n), early, early_r),
        handed_out(early, after.commit(after.log.pending.len()), late, late_r),
    ensures
        t matches OptionalTransition::Progress(event, psbt) && {
            &&& after == before.push(event)
            &&& early_r == Err::<Psbt, ProvisionalConfirmError>(
                ProvisionalConfirmError::NotYetPersisted,
            )
            &&& late_r == Ok::<Psbt, ProvisionalConfirmError>(psbt)
        },
{
}

impl<C: SenderEngine> PollingForProposal<C> {
    /// Cancels the session: pushes the event that closes it into `buf` and
    /// returns the original transaction in consensus encoding, which should be
    /// broadcast to complete the payment without payjoin.
    ///
    /// This is a terminal action. The caller is expected to drain `buf`.
    pub fn cancel(&self, buf: &mut SenderEventBuffer<C>) -> (r: Vec<u8>)
        requires
            old(buf)@.log.pushed() < u64::MAX,
        ensures
            final(buf)@ == old(buf)@.push(SenderEvent::<C>::Closed(SessionOutcome::Cancel)),
            call_ensures(C::fallback_polling, (&self.0,), r),
    {
        buf.push_cancel();
        C::fallback_polling(&self.0)
    }

    /// Makes the request that polls for the proposal.
    pub fn create_poll_request(&self, ohttp_relay: String) -> (r: Result<
        RequestOhttpContext<C>,
        CreateRequestError,
    >)
        ensures
            exists|request| #[trigger]
                call_ensures(C::create_poll_request, (&self.0, &ohttp_relay), request) && r
                    == paired::<C>(request),
    {
        match C::create_poll_request(&self.0, &ohttp_relay) {
            Ok((request, ohttp_ctx)) => Ok(RequestOhttpContext { request, ohttp_ctx }),
            Err(e) => Err(e),
        }
    }

    /// Reads the directory's response to a poll. It may progress to the
    /// proposal or remain in stasis if there is none yet.
    pub fn process_response(
        &self,
        response: &[u8],
        ohttp_ctx: &C::Context,
        buf: &mut SenderEventBuffer<C>,
    ) -> (r: Result<PollingForProposalTransitionOutcome<C>, SenderApiError>)
        requires
            old(buf)@.log.pushed() < u64::MAX,
        ensures
            match r {
                Ok(PollingForProposalTransitionOutcome::Progress { .. }) => one_event(
                    old(buf)@,
                    final(buf)@,
                ),
                Ok(PollingForProposalTransitionOutcome::Stasis { .. }) => final(buf)@ == old(buf)@,
                Err(e) => failure_recorded::<C>(old(buf)@, final(buf)@, e),
            },
            exists|t: PollReply<C>| #[trigger]
                call_ensures(C::process_poll_response, (&self.0, response, ohttp_ctx), t)
                    && poll_taken(t, old(buf)@, final(buf)@, r),
    {
        let t = C::process_poll_response(&self.0, response, ohttp_ctx);
        let (action, outcome) = t.deconstruct(closing_failure::<C>());
        buf.record(action);
        match outcome {
            Ok(OptionalTransitionOutcome::Progress(psbt)) => Ok(
                PollingForProposalTransitionOutcome::Progress {
                    inner: ProvisionalPsbt::staged(buf.hold(psbt)),
                },
            ),
            Ok(OptionalTransitionOutcome::Stasis(s)) => Ok(
                PollingForProposalTransitionOutcome::Stasis { inner: PollingForProposal(s) },
            ),
            Err(e) => Err(SenderApiError::from_api_error_response(e)),
        }
    }

    /// The receiver's mailbox.
    pub fn endpoint(&self) -> (r: String)
        ensures
            exists|terms: SenderTerms| #[trigger]
                call_ensures(C::terms_polling, (&self.0,), terms) && r == terms.endpoint,
    {
        C::terms_polling(&self.0).endpoint
    }

    /// When the session expires, in seconds since the Unix epoch.
    pub fn expiration_unix_secs(&self) -> (r: u64)
        ensures
            exists|terms: SenderTerms| #[trigger]
                call_ensures(C::terms_polling, (&self.0,), terms) && r
                    == terms.expiration_unix_secs,
    {
        C::terms_polling(&self.0).expiration_unix_secs
    }
}

} // verus!
