//! What callers of the sender role can rely on, call by call.
use crate::chain::{psbt_defect, psbt_text, Psbt};
use crate::persist::Advance;
use crate::send::buffer::{ProvisionalWithReplyKey, SenderEventBuffer, SenderSessionEvent};
use crate::send::engine::{
    CoreSendSession, PollReply, PostReply, SenderEngine, SenderEvent, SenderParams, SenderStates,
    SenderTerms, SessionOutcome,
};
use crate::send::error::{
    BuildFailure, CreateRequestError, PsbtParseError, ResponseCause, ResponseError, ResponseFailure,
    SenderApiError, SenderInputError, SenderReplayError,
};
use crate::send::replay::{
    replay_sender_event_log, PjParam, SendSession, SenderReplayResult, SenderSessionHistory,
    SenderSessionOutcome, SenderSessionStatus,
};
use crate::send::states::{
    poll_taken, stage_sender, Built, PollingForProposal, PollingForProposalTransitionOutcome,
    RequestOhttpContext, SenderBuilder, V1Context, WithReplyKey,
};
use crate::session::{PjUri, ReplayError, Request, SessionEvent};
use crate::staging::{queued, waits_behind, BufferIds, NumberedBufferView};
use crate::validation::lemma_one_way_to_accept;
use vstd::prelude::*;

verus! {

/// A builder holds the PSBT and the URI that were given, and leaves outputs
/// free to be substituted. It is refused only for what the parser says.
pub proof fn law_builders_hold_what_was_given(
    psbt: String,
    uri: PjUri,
    r: Result<SenderBuilder, SenderInputError>,
)
    requires
        call_ensures(SenderBuilder::new, (psbt, uri), r),
    ensures
        r is Ok <==> psbt_defect(psbt@) is None,
        r matches Ok(b) ==> b.params.psbt@ == psbt@ && b.params.uri == uri
            && !b.params.disable_output_substitution,
        r matches Err(e) ==> (e matches SenderInputError::Psbt(PsbtParseError::InvalidPsbt(msg))
            && psbt_defect(psbt@) == Some(msg@)),
{
}

/// A builder from a parsed PSBT holds it as it is.
pub proof fn law_builders_hold_what_was_parsed(
    psbt: Result<Psbt, String>,
    uri: PjUri,
    r: Result<SenderBuilder, SenderInputError>,
)
    requires
        call_ensures(SenderBuilder::with_psbt, (psbt, uri), r),
    ensures
        psbt matches Ok(p) ==> (r matches Ok(b) && b.params.psbt == p && b.params.uri == uri
            && !b.params.disable_output_substitution),
        psbt matches Err(msg) ==> r == Err::<SenderBuilder, SenderInputError>(
            SenderInputError::Psbt(PsbtParseError::InvalidPsbt(msg)),
        ),
{
}

/// Disabling output substitution changes nothing else, and doing it twice is
/// doing it once.
pub proof fn law_substitution_stays_disabled(
    builder: &SenderBuilder,
    once: SenderBuilder,
    twice: SenderBuilder,
)
    requires
        call_ensures(SenderBuilder::always_disable_output_substitution, (builder,), once),
        call_ensures(SenderBuilder::always_disable_output_substitution, (&once,), twice),
    ensures
        once.params.disable_output_substitution,
        once.params.psbt == builder.params.psbt,
        once.params.uri == builder.params.uri,
        twice == once,
{
}

/// A sender is built from what the builder holds, at the least fee rate that
/// was given, which the rules accepted. It waits behind the one event that
/// created it. Whatever refuses it leaves the buffer as it was and is named.
pub proof fn law_build_recommended_asks_with_the_callers_values<C: SenderEngine>(
    builder: &SenderBuilder,
    min_fee_rate_sat_per_kwu: u64,
    before: NumberedBufferView<SenderEvent<C>>,
    after: NumberedBufferView<SenderEvent<C>>,
    r: Result<ProvisionalWithReplyKey<C>, SenderInputError>,
)
    requires
        exists|buf: &mut SenderEventBuffer<C>| #[trigger]
            call_ensures(
                SenderBuilder::build_recommended::<C>,
                (builder, min_fee_rate_sat_per_kwu, buf),
                r,
            ) && (*buf)@ == before && (*final(buf))@ == after,
    ensures
        r matches Ok(provisional) ==> {
            &&& call_ensures(C::fee_rate_sat_per_kwu, (min_fee_rate_sat_per_kwu,), Ok(()))
            &&& exists|advance: Advance<C::Payload, C::WithReplyKey>| #[trigger]
                call_ensures(
                    C::build_recommended,
                    (&builder.params, min_fee_rate_sat_per_kwu),
                    Ok::<Advance<C::Payload, C::WithReplyKey>, BuildFailure>(advance),
                ) && queued(before, after, SessionEvent::Advanced(advance.event)) && waits_behind(
                    provisional@,
                    after,
                    advance.state,
                )
        },
        r is Err ==> after == before,
        r matches Err(SenderInputError::Build(err)) ==> exists|e: BuildFailure| #[trigger]
            call_ensures(
                C::build_recommended,
                (&builder.params, min_fee_rate_sat_per_kwu),
                Err::<Advance<C::Payload, C::WithReplyKey>, BuildFailure>(e),
            ) && err.msg@ == e.msg@,
        r matches Err(SenderInputError::FfiValidation(e)) ==> call_ensures(
            C::fee_rate_sat_per_kwu,
            (min_fee_rate_sat_per_kwu,),
            Err(e),
        ),
        r matches Err(e) ==> e !is Psbt,
{
    lemma_one_way_to_accept::<C>();
}

/// A sender that offers nothing is built from what the builder holds, at the
/// least fee rate that was given, which the rules accepted. It waits behind the
/// one event that created it. Whatever refuses it leaves the buffer as it was
/// and is named.
pub proof fn law_build_non_incentivizing_asks_with_the_callers_values<C: SenderEngine>(
    builder: &SenderBuilder,
    min_fee_rate_sat_per_kwu: u64,
    before: NumberedBufferView<SenderEvent<C>>,
    after: NumberedBufferView<SenderEvent<C>>,
    r: Result<ProvisionalWithReplyKey<C>, SenderInputError>,
)
    requires
        exists|buf: &mut SenderEventBuffer<C>| #[trigger]
            call_ensures(
                SenderBuilder::build_non_incentivizing::<C>,
                (builder, min_fee_rate_sat_per_kwu, buf),
                r,
            ) && (*buf)@ == before && (*final(buf))@ == after,
    ensures
        r matches Ok(provisional) ==> {
            &&& call_ensures(C::fee_rate_sat_per_kwu, (min_fee_rate_sat_per_kwu,), Ok(()))
            &&& exists|advance: Advance<C::Payload, C::WithReplyKey>| #[trigger]
                call_ensures(
                    C::build_non_incentivizing,
                    (&builder.params, min_fee_rate_sat_per_kwu),
                    Ok::<Advance<C::Payload, C::WithReplyKey>, BuildFailure>(advance),
                ) && queued(before, after, SessionEvent::Advanced(advance.event)) && waits_behind(
                    provisional@,
                    after,
                    advance.state,
                )
        },
        r is Err ==> after == before,
        r matches Err(SenderInputError::Build(err)) ==> exists|e: BuildFailure| #[trigger]
            call_ensures(
                C::build_non_incentivizing,
                (&builder.params, min_fee_rate_sat_per_kwu),
                Err::<Advance<C::Payload, C::WithReplyKey>, BuildFailure>(e),
            ) && err.msg@ == e.msg@,
        r matches Err(SenderInputError::FfiValidation(e)) ==> call_ensures(
            C::fee_rate_sat_per_kwu,
            (min_fee_rate_sat_per_kwu,),
            Err(e),
        ),
        r matches Err(e) ==> e !is Psbt,
{
    lemma_one_way_to_accept::<C>();
}

/// A sender that offers to pay for the receiver's input is built from what the
/// builder holds, with the contribution, the index of the change, the least fee
/// rate and the choice to clamp that were given; the rules accepted the amount
/// and the rate. It waits behind the one event that created it. Whatever
/// refuses it leaves the buffer as it was and is named.
pub proof fn law_build_with_additional_fee_asks_with_the_callers_values<C: SenderEngine>(
    builder: &SenderBuilder,
    max_fee_contribution_sats: u64,
    change_index: Option<u8>,
    change: Option<usize>,
    min_fee_rate_sat_per_kwu: u64,
    clamp_fee_contribution: bool,
    before: NumberedBufferView<SenderEvent<C>>,
    after: NumberedBufferView<SenderEvent<C>>,
    r: Result<ProvisionalWithReplyKey<C>, SenderInputError>,
)
    requires
        exists|buf: &mut SenderEventBuffer<C>| #[trigger]
            call_ensures(SenderBuilder::build_with_additional_fee::<C>, (
                builder,
                max_fee_contribution_sats,
                change_index,
                min_fee_rate_sat_per_kwu,
                clamp_fee_contribution,
                buf,
            ), r) && (*buf)@ == before && (*final(buf))@ == after,
        change is Some <==> change_index is Some,
        change_index matches Some(i) ==> change->0 == i,
    ensures
        r matches Ok(provisional) ==> {
            &&& call_ensures(C::fee_rate_sat_per_kwu, (min_fee_rate_sat_per_kwu,), Ok(()))
            &&& call_ensures(C::amount_sat, (max_fee_contribution_sats,), Ok(()))
            &&& exists|advance: Advance<C::Payload, C::WithReplyKey>| #[trigger]
                call_ensures(
                    C::build_with_additional_fee,
                    (
                    &builder.params,
                    max_fee_contribution_sats,
                    change,
                    min_fee_rate_sat_per_kwu,
                    clamp_fee_contribution,
                ),
                    Ok::<Advance<C::Payload, C::WithReplyKey>, BuildFailure>(advance),
                ) && queued(before, after, SessionEvent::Advanced(advance.event)) && waits_behind(
                    provisional@,
                    after,
                    advance.state,
                )
        },
        r is Err ==> after == before,
        r matches Err(SenderInputError::Build(err)) ==> exists|e: BuildFailure| #[trigger]
            call_ensures(
                C::build_with_additional_fee,
                (
                    &builder.params,
                    max_fee_contribution_sats,
                    change,
                    min_fee_rate_sat_per_kwu,
                    clamp_fee_contribution,
                ),
                Err::<Advance<C::Payload, C::WithReplyKey>, BuildFailure>(e),
            ) && err.msg@ == e.msg@,
        r matches Err(SenderInputError::FfiValidation(e)) ==> call_ensures(
            C::amount_sat,
            (max_fee_contribution_sats,),
            Err(e),
        ) || (call_ensures(C::amount_sat, (max_fee_contribution_sats,), Ok(())) && call_ensures(
            C::fee_rate_sat_per_kwu,
            (min_fee_rate_sat_per_kwu,),
            Err(e),
        )),
        r matches Err(e) ==> e !is Psbt,
{
    lemma_one_way_to_accept::<C>();
}

/// Cancelling queues the event that closes the session as cancelled, and
/// gives the original transaction to fall back on.
pub proof fn law_unposted_cancel_closes_the_session<C: SenderEngine>(
    session: &WithReplyKey<C>,
    before: NumberedBufferView<SenderEvent<C>>,
    after: NumberedBufferView<SenderEvent<C>>,
    r: Vec<u8>,
)
    requires
        exists|buf: &mut SenderEventBuffer<C>| #[trigger]
            call_ensures(WithReplyKey::<C>::cancel, (session, buf), r)
                && (*buf)@ == before && (*final(buf))@ == after,
    ensures
        queued(before, after, SessionEvent::Closed(SessionOutcome::Cancel)),
        call_ensures(C::fallback_with_reply_key, (&session.0,), r),
{
}

/// Cancelling queues the event that closes the session as cancelled, and
/// gives the original transaction to fall back on.
pub proof fn law_polling_cancel_closes_the_session<C: SenderEngine>(
    session: &PollingForProposal<C>,
    before: NumberedBufferView<SenderEvent<C>>,
    after: NumberedBufferView<SenderEvent<C>>,
    r: Vec<u8>,
)
    requires
        exists|buf: &mut SenderEventBuffer<C>| #[trigger]
            call_ensures(PollingForProposal::<C>::cancel, (session, buf), r)
                && (*buf)@ == before && (*final(buf))@ == after,
    ensures
        queued(before, after, SessionEvent::Closed(SessionOutcome::Cancel)),
        call_ensures(C::fallback_polling, (&session.0,), r),
{
}

/// The request is made for this session and the relay that was given, and is
/// handed out as the protocol made it, with what decrypts its response.
pub proof fn law_post_requests_are_the_protocols<C: SenderEngine>(
    session: &WithReplyKey<C>,
    ohttp_relay: String,
    r: Result<RequestOhttpContext<C>, CreateRequestError>,
)
    requires
        call_ensures(WithReplyKey::<C>::create_v2_post_request, (session, ohttp_relay), r),
    ensures
        match r {
            Ok(sent) => call_ensures(
                C::create_v2_post_request,
                (&session.0, &ohttp_relay),
                Ok((sent.request, sent.ohttp_ctx)),
            ),
            Err(e) => call_ensures(C::create_v2_post_request, (&session.0, &ohttp_relay), Err(e)),
        },
{
    let request = choose|request: Result<(Request, C::Context), CreateRequestError>| #[trigger]
        call_ensures(
            C::create_v2_post_request,
            (&session.0, &ohttp_relay),
            request,
        ) && match request {
            Ok(pair) => r == Ok::<RequestOhttpContext<C>, CreateRequestError>(
                RequestOhttpContext { request: pair.0, ohttp_ctx: pair.1 },
            ),
            Err(e) => r == Err::<RequestOhttpContext<C>, CreateRequestError>(e),
        };
    if let Ok(pair) = request {
        assert(pair == (pair.0, pair.1));
    }
}

/// The request is made for this session and the relay that was given, and is
/// handed out as the protocol made it, with what decrypts its response.
pub proof fn law_poll_requests_are_the_protocols<C: SenderEngine>(
    session: &PollingForProposal<C>,
    ohttp_relay: String,
    r: Result<RequestOhttpContext<C>, CreateRequestError>,
)
    requires
        call_ensures(PollingForProposal::<C>::create_poll_request, (session, ohttp_relay), r),
    ensures
        match r {
            Ok(sent) => call_ensures(
                C::create_poll_request,
                (&session.0, &ohttp_relay),
                Ok((sent.request, sent.ohttp_ctx)),
            ),
            Err(e) => call_ensures(C::create_poll_request, (&session.0, &ohttp_relay), Err(e)),
        },
{
    let request = choose|request: Result<(Request, C::Context), CreateRequestError>| #[trigger]
        call_ensures(C::create_poll_request, (&session.0, &ohttp_relay), request) && match request {
            Ok(pair) => r == Ok::<RequestOhttpContext<C>, CreateRequestError>(
                RequestOhttpContext { request: pair.0, ohttp_ctx: pair.1 },
            ),
            Err(e) => r == Err::<RequestOhttpContext<C>, CreateRequestError>(e),
        };
    if let Ok(pair) = request {
        assert(pair == (pair.0, pair.1));
    }
}

/// The mailbox and the expiration are those that the protocol names, each for
/// what it is.
pub proof fn law_unposted_terms_are_told_apart<C: SenderEngine>(
    session: &WithReplyKey<C>,
    terms: SenderTerms,
    endpoint: String,
    expiration: u64,
)
    requires
        forall|t: SenderTerms| #[trigger]
            call_ensures(C::terms_with_reply_key, (&session.0,), t) ==> t == terms,
        call_ensures(WithReplyKey::<C>::endpoint, (session,), endpoint),
        call_ensures(WithReplyKey::<C>::expiration_unix_secs, (session,), expiration),
    ensures
        endpoint == terms.endpoint,
        expiration == terms.expiration_unix_secs,
{
}

/// The mailbox and the expiration are those that the protocol names, each for
/// what it is.
pub proof fn law_polling_terms_are_told_apart<C: SenderEngine>(
    session: &PollingForProposal<C>,
    terms: SenderTerms,
    endpoint: String,
    expiration: u64,
)
    requires
        forall|t: SenderTerms| #[trigger]
            call_ensures(C::terms_polling, (&session.0,), t) ==> t == terms,
        call_ensures(PollingForProposal::<C>::endpoint, (session,), endpoint),
        call_ensures(PollingForProposal::<C>::expiration_unix_secs, (session,), expiration),
    ensures
        endpoint == terms.endpoint,
        expiration == terms.expiration_unix_secs,
{
}

/// The answer to the original PSBT is read by the protocol as it came, and
/// nothing but its reading decides: a session that goes on leaves its event, one
/// that fails for good is closed as a failure, and one that may be retried
/// leaves nothing. The error keeps its severity and its words.
pub proof fn law_acknowledgements_are_read_by_the_protocol<C: SenderEngine>(
    session: &WithReplyKey<C>,
    response: &[u8],
    ctx: &C::Context,
    before: NumberedBufferView<SenderEvent<C>>,
    after: NumberedBufferView<SenderEvent<C>>,
    r: Result<PollingForProposal<C>, SenderApiError>,
)
    requires
        exists|buf: &mut SenderEventBuffer<C>| #[trigger]
            call_ensures(WithReplyKey::<C>::process_response, (session, response, ctx, buf), r)
                && (*buf)@ == before && (*final(buf))@ == after,
    ensures
        exists|t: PostReply<C>| #[trigger]
            call_ensures(C::process_post_response, (&session.0, response, ctx), t)
                && {
                &&& t is Success ==> queued(before, after, t->Success_0) && (r matches Ok(s) && s.0
                    == t->Success_1)
                &&& t is Transient ==> after == before && (r matches Err(
                    SenderApiError::Transient { kind, msg },
                ) && kind is Encapsulation && msg@ == t->Transient_0.msg@)
                &&& t is Fatal ==> queued(
                    before,
                    after,
                    SessionEvent::Closed(SessionOutcome::Failure),
                ) && (r matches Err(SenderApiError::Fatal { kind, msg }) && kind is Encapsulation
                    && msg@ == t->Fatal_0.msg@)
            },
{
}

/// The answer to a poll is read by the protocol as it came, and nothing but its
/// reading decides: a proposal waits behind its event, one that is not there yet
/// leaves nothing, nor does a failure that may be retried, and one for good
/// closes the session as a failure. The error keeps its severity and its words.
pub proof fn law_answers_are_read_by_the_protocol<C: SenderEngine>(
    session: &PollingForProposal<C>,
    response: &[u8],
    ctx: &C::Context,
    before: NumberedBufferView<SenderEvent<C>>,
    after: NumberedBufferView<SenderEvent<C>>,
    r: Result<PollingForProposalTransitionOutcome<C>, SenderApiError>,
)
    requires
        exists|buf: &mut SenderEventBuffer<C>| #[trigger]
            call_ensures(
                PollingForProposal::<C>::process_response,
                (session, response, ctx, buf),
                r,
            ) && (*buf)@ == before && (*final(buf))@ == after,
    ensures
        exists|t: PollReply<C>| #[trigger]
            call_ensures(C::process_poll_response, (&session.0, response, ctx), t) && {
                &&& t is Progress ==> queued(before, after, t->Progress_0) && (r matches Ok(
                    PollingForProposalTransitionOutcome::Progress { inner },
                ) && waits_behind(inner@, after, t->Progress_1))
                &&& t is Stasis ==> after == before && (r matches Ok(
                    PollingForProposalTransitionOutcome::Stasis { inner },
                ) && inner.0 == t->Stasis_0)
                &&& t is Transient ==> after == before && (r matches Err(
                    SenderApiError::Transient { kind, msg },
                ) && kind is Response && msg@ == t->Transient_0.msg@)
                &&& t is Fatal ==> queued(
                    before,
                    after,
                    SessionEvent::Closed(SessionOutcome::Failure),
                ) && (r matches Err(SenderApiError::Fatal { kind, msg }) && kind is Response
                    && msg@ == t->Fatal_0.msg@)
            },
{
    let t = choose|t: PollReply<C>| #[trigger]
        call_ensures(C::process_poll_response, (&session.0, response, ctx), t) && poll_taken(
            t,
            before,
            after,
            r,
        );
    assert(call_ensures(C::process_poll_response, (&session.0, response, ctx), t));
}

/// What the protocol built waits behind its event; what it refused leaves the
/// buffer as it was.
pub proof fn law_built_senders_wait_for_their_event<C: SenderEngine>(
    answer: Built<C>,
    before: NumberedBufferView<SenderEvent<C>>,
    after: NumberedBufferView<SenderEvent<C>>,
    r: Result<ProvisionalWithReplyKey<C>, SenderInputError>,
)
    requires
        exists|buf: &mut SenderEventBuffer<C>| #[trigger]
            call_ensures(stage_sender::<C>, (answer, buf), r)
                && (*buf)@ == before && (*final(buf))@ == after,
    ensures
        answer is Ok <==> r is Ok,
        answer matches Ok(advance) ==> queued(before, after, SessionEvent::Advanced(advance.event))
            && waits_behind(r->Ok_0@, after, advance.state),
        answer matches Err(e) ==> after == before && (r->Err_0 matches SenderInputError::Build(err)
            && err.msg@ == e.msg@),
{
}

/// The answer of a receiver of the first version is read by the protocol as it
/// came. A proposal is written out as it is, and an error keeps its cause.
pub proof fn law_first_version_answers_keep_their_cause<C: SenderEngine>(
    context: &V1Context<C>,
    response: &[u8],
    r: Result<String, ResponseError>,
)
    requires
        call_ensures(V1Context::<C>::process_response, (context, response), r),
    ensures
        exists|answer: Result<Psbt, ResponseFailure>| #[trigger]
            call_ensures(C::process_v1_response, (&context.0, response), answer) && match answer {
                Ok(psbt) => r matches Ok(text) && text@ == psbt_text(psbt@),
                Err(e) => r matches Err(err) && match e.cause {
                    ResponseCause::WellKnown(x) => err == ResponseError::WellKnown(x),
                    ResponseCause::Validation(x) => err == ResponseError::Validation(x),
                    ResponseCause::Unrecognized { error_code, message } => err == (
                    ResponseError::Unrecognized { error_code, msg: message }),
                },
            },
{
}

/// Replaying keeps what the protocol says of the session: the events reach it
/// in their order, each state keeps its kind and what it holds, and a session
/// that ended keeps its outcome. The history comes out as it is, and the events
/// are counted.
pub proof fn law_replaying_keeps_the_session<C: SenderEngine>(
    events: Vec<SenderSessionEvent<C>>,
    r: Result<SenderReplayResult<C>, SenderReplayError>,
)
    requires
        call_ensures(replay_sender_event_log::<C>, (events,), r),
    ensures
        exists|
            log: Vec<SenderEvent<C>>,
            answer: Result<(CoreSendSession<C>, C::History), ReplayError>,
        | #[trigger]
            call_ensures(C::replay_event_log, (log,), answer) && {
                &&& log@.len() == events@.len()
                &&& forall|i: int|
                    0 <= i < log@.len() ==> #[trigger] log@[i] == events@[i].0
                &&& answer is Ok <==> r is Ok
                &&& r matches Ok(result) ==> result@.event_count == events@.len()
                    && result@.session_history.0 == answer->Ok_0.1
                &&& answer matches Ok((CoreSendSession::WithReplyKey(s), _)) ==> (
                r->Ok_0@.state matches SendSession::WithReplyKey { inner } && inner.0 == s)
                &&& answer matches Ok((CoreSendSession::PollingForProposal(s), _)) ==> (
                r->Ok_0@.state matches SendSession::PollingForProposal { inner } && inner.0 == s)
                &&& answer matches Ok((CoreSendSession::Closed(outcome), _)) ==> (
                r->Ok_0@.state matches SendSession::Closed { inner } && inner.0 == outcome)
                &&& answer matches Err(e) ==> (r->Err_0 matches SenderReplayError::Replay(msg)
                    && msg == e.display)
            },
{
    assert(events.len() == events@.len());
}

/// What a replayed session shows and hands over is what it holds; the buffer
/// for its next events counts those of the log as durable.
pub proof fn law_replayed_sessions_come_apart<C: SenderStates>(
    result: SenderReplayResult<C>,
    state: &SendSession<C>,
    history: &SenderSessionHistory<C>,
    count: u64,
    parts: (SendSession<C>, SenderSessionHistory<C>),
    ids_before: nat,
    ids_after: nat,
    buffer: SenderEventBuffer<C>,
)
    requires
        call_ensures(SenderReplayResult::<C>::state, (&result,), state),
        call_ensures(SenderReplayResult::<C>::session_history, (&result,), history),
        call_ensures(SenderReplayResult::<C>::event_count, (&result,), count),
        call_ensures(SenderReplayResult::<C>::into_parts, (result,), parts),
        exists|ids: &mut BufferIds| #[trigger]
            call_ensures(SenderReplayResult::<C>::into_buffer, (&result, ids), buffer) && (*ids)@
                == ids_before && (*final(ids))@ == ids_after,
    ensures
        *state == result@.state,
        *history == result@.session_history,
        count == result@.event_count,
        parts.0 == *state,
        parts.1 == *history,
        buffer@.log.pending.len() == 0,
        buffer@.log.committed == count,
        buffer@.id == ids_before,
        ids_after == ids_before + 1,
{
}

/// The three ways in which a session can end are told apart, and the proposal
/// is shown exactly if it arrived, as it is.
pub proof fn law_outcomes_are_told_apart(
    outcome: &SenderSessionOutcome,
    success: bool,
    failure: bool,
    cancelled: bool,
    psbt: Option<String>,
)
    requires
        call_ensures(SenderSessionOutcome::is_success, (outcome,), success),
        call_ensures(SenderSessionOutcome::is_failure, (outcome,), failure),
        call_ensures(SenderSessionOutcome::is_cancelled, (outcome,), cancelled),
        call_ensures(SenderSessionOutcome::success_psbt_base64, (outcome,), psbt),
    ensures
        success || failure || cancelled,
        !(success && failure) && !(failure && cancelled) && !(success && cancelled),
        success <==> outcome.0 is Success,
        failure <==> outcome.0 is Failure,
        cancelled <==> outcome.0 is Cancel,
        psbt is Some <==> success,
        outcome.0 matches SessionOutcome::Success(p) ==> psbt->0@ == psbt_text(p@),
{
}

/// Wrapping an outcome and taking it out again gives the outcome.
pub proof fn law_outcomes_are_wrapped_as_they_are(
    outcome: SessionOutcome,
    wrapped: SenderSessionOutcome,
    back: SessionOutcome,
)
    requires
        call_ensures(
            <SenderSessionOutcome as From<SessionOutcome>>::from,
            (outcome,),
            wrapped,
        ),
        call_ensures(<SessionOutcome as From<SenderSessionOutcome>>::from, (wrapped,), back),
    ensures
        wrapped.0 == outcome,
        back == outcome,
{
}

/// What the history of a session tells is what the protocol says of it.
pub proof fn law_history_is_the_protocols<C: SenderEngine>(
    history: &SenderSessionHistory<C>,
    tx: Vec<u8>,
    param: PjParam<C>,
    status: SenderSessionStatus<C>,
)
    ensures
        call_ensures(SenderSessionHistory::<C>::fallback_tx, (history,), tx) ==> call_ensures(
            C::history_fallback_tx,
            (&history.0,),
            tx,
        ),
        call_ensures(SenderSessionHistory::<C>::pj_param, (history,), param) ==> call_ensures(
            C::history_pj_param,
            (&history.0,),
            param.0,
        ),
        call_ensures(SenderSessionHistory::<C>::status, (history,), status) ==> call_ensures(
            C::history_status,
            (&history.0,),
            status.inner,
        ),
{
}

/// A copy of what a sender is built from is the same in every field.
pub proof fn law_copied_parameters_are_the_same(
    params: &SenderParams,
    copy: SenderParams,
    builder: &SenderBuilder,
    next: SenderBuilder,
)
    ensures
        call_ensures(<SenderParams as Clone>::clone, (params,), copy) ==> copy.psbt == params.psbt
            && copy.uri == params.uri && copy.disable_output_substitution
            == params.disable_output_substitution,
        call_ensures(<SenderBuilder as Clone>::clone, (builder,), next) ==> next.params
            == builder.params,
{
}

/// What a log is replayed into keeps its kind and what it holds.
pub proof fn law_replayed_states_keep_their_kind<C: SenderStates>(
    session: CoreSendSession<C>,
    state: SendSession<C>,
)
    requires
        call_ensures(<SendSession<C> as From<CoreSendSession<C>>>::from, (session,), state),
    ensures
        match session {
            CoreSendSession::WithReplyKey(s) => (state matches SendSession::WithReplyKey { inner }
                && inner.0 == s),
            CoreSendSession::PollingForProposal(s) => (
            state matches SendSession::PollingForProposal { inner } && inner.0 == s),
            CoreSendSession::Closed(outcome) => (state matches SendSession::Closed { inner }
                && inner.0 == outcome),
        },
{
}

} // verus!
