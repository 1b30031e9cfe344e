//! What callers of a [`SenderSession`] can rely on, call by call.
use crate::chain::{psbt_fee, psbt_tx, ExtractError, Psbt};
use crate::persist::{Advance, ApiError, OptionalTransitionOutcome};
use crate::runtime::error::Error;
use crate::runtime::sender::{
    consumed, extracted, poll_answered, poll_sent, post_acknowledged, post_sent, settle,
    SenderSession, SenderSessionView, SenderState, SenderStep,
};
use crate::send::engine::{
    failure_event, CoreSendSession, PollReply, PostReply, SenderEngine, SenderEvent, SenderParams,
    SessionOutcome,
};
use crate::send::error::{BuildFailure, CreateRequestError, EncapsulationError, ResponseFailure};
use crate::session::{PjUri, ReplayError, Request, SessionEvent};
use vstd::prelude::*;

verus! {

/// No call changes the relay of a session.
pub proof fn law_calls_keep_the_relay<C: SenderEngine>(
    before: SenderSessionView<C>,
    step: SenderStep<C>,
    body: Vec<u8>,
    signed: Psbt,
    r: Result<(), Error>,
    after: SenderSessionView<C>,
)
    requires
        (exists|s: &mut SenderSession<C>| #[trigger]
            call_ensures(SenderSession::<C>::poll, (s,), step) && (*s)@ == before
                && (*final(s))@ == after) || (exists|s: &mut SenderSession<C>| #[trigger]
            call_ensures(SenderSession::<C>::feed_response, (s, body), r) && (*s)@ == before
                && (*final(s))@ == after) || (exists|s: &mut SenderSession<C>| #[trigger]
            call_ensures(SenderSession::<C>::feed_signed_psbt, (s, signed), r) && (*s)@ == before
                && (*final(s))@ == after),
    ensures
        after.ohttp_relay == before.ohttp_relay,
{
}

/// While events wait to be saved, a poll hands out all of them, in order, and
/// does nothing else. Otherwise it holds back nothing. A poll never touches the
/// transaction.
pub proof fn law_poll_saves_before_it_acts<C: SenderEngine>(
    before: SenderSessionView<C>,
    step: SenderStep<C>,
    after: SenderSessionView<C>,
)
    requires
        exists|s: &mut SenderSession<C>| #[trigger]
            call_ensures(SenderSession::<C>::poll, (s,), step) && (*s)@ == before
                && (*final(s))@ == after,
    ensures
        after.events.len() == 0,
        after.result == before.result,
        before.events.len() > 0 <==> step is Save,
        step matches SenderStep::Save(events) ==> events@ == before.events && after.state
            == before.state,
{
}

/// What a poll does in each state, when no event waits to be saved. A session
/// that posts or polls asks the protocol for the request by its own relay; the
/// request goes to the caller as it is. After an empty answer the caller waits
/// once. The proposal to be signed is shown as often as it is asked for. The
/// end is reported and then the session is terminated.
pub proof fn law_each_state_has_its_step<C: SenderEngine>(
    before: SenderSessionView<C>,
    step: SenderStep<C>,
    after: SenderSessionView<C>,
)
    requires
        exists|s: &mut SenderSession<C>| #[trigger]
            call_ensures(SenderSession::<C>::poll, (s,), step) && (*s)@ == before
                && (*final(s))@ == after,
        before.events.len() == 0,
    ensures
        before.state matches SenderState::PostingOriginal(session) ==> match step {
            SenderStep::SendRequest(req) => after.state is AwaitingPostAck
                && after.state->AwaitingPostAck_session == session && call_ensures(
                C::create_v2_post_request,
                (&session, &before.ohttp_relay),
                Ok((req, after.state->AwaitingPostAck_ctx)),
            ),
            SenderStep::Failed(Error::Payjoin(msg)) => after.state is Terminated && exists|
                e: CreateRequestError,
            | #[trigger]
                call_ensures(
                    C::create_v2_post_request,
                    (&session, &before.ohttp_relay),
                    Err::<(Request, C::Context), CreateRequestError>(e),
                ) && msg@ == e.msg@,
            _ => false,
        },
        before.state matches SenderState::PollingProposal { session, pending_backoff: true }
            ==> step is Backoff && after.state == (SenderState::<C>::PollingProposal {
            session,
            pending_backoff: false,
        }),
        before.state matches SenderState::PollingProposal { session, pending_backoff: false }
            ==> match step {
            SenderStep::SendRequest(req) => after.state is AwaitingProposalPoll
                && after.state->AwaitingProposalPoll_session == session && call_ensures(
                C::create_poll_request,
                (&session, &before.ohttp_relay),
                Ok((req, after.state->AwaitingProposalPoll_ctx)),
            ),
            SenderStep::Failed(Error::Payjoin(msg)) => after.state is Terminated && exists|
                e: CreateRequestError,
            | #[trigger]
                call_ensures(
                    C::create_poll_request,
                    (&session, &before.ohttp_relay),
                    Err::<(Request, C::Context), CreateRequestError>(e),
                ) && msg@ == e.msg@,
            _ => false,
        },
        before.state matches SenderState::NeedSignedPsbt { proposal } ==> step
            == SenderStep::<C>::SignAndFinalize(proposal) && after.state == before.state,
        before.state is AwaitingPostAck || before.state is AwaitingProposalPoll ==> after.state
            is Terminated && (step matches SenderStep::Failed(Error::Payjoin(msg)) && msg@
            == "called poll() while awaiting a response"@),
        before.state is Done ==> after.state is Terminated && step is Done,
        before.state matches SenderState::Failed(e) ==> after.state is Terminated && step
            == SenderStep::<C>::Failed(e),
        before.state is Terminated ==> after.state is Terminated && step
            == SenderStep::<C>::Failed(Error::Terminated),
{
    if let SenderState::PostingOriginal(session) = before.state {
        let request = choose|request: Result<(Request, C::Context), CreateRequestError>| #[trigger]
            call_ensures(C::create_v2_post_request, (&session, &before.ohttp_relay), request)
                && post_sent(session, request, after.state, step);
        if let Ok(sent) = request {
            assert(sent == (sent.0, sent.1));
        }
    } else if before.state is PollingProposal && !before.state->PollingProposal_pending_backoff {
        let session = before.state->PollingProposal_session;
        let request = choose|request: Result<(Request, C::Context), CreateRequestError>| #[trigger]
            call_ensures(C::create_poll_request, (&session, &before.ohttp_relay), request)
                && poll_sent(session, request, after.state, step);
        if let Ok(sent) = request {
            assert(sent == (sent.0, sent.1));
        }
    }
}

/// Where the protocol gives a request, the caller is told to send it and the
/// session then awaits the response.
pub proof fn law_requests_are_sent<C: SenderEngine>(
    before: SenderSessionView<C>,
    step: SenderStep<C>,
    after: SenderSessionView<C>,
)
    requires
        exists|s: &mut SenderSession<C>| #[trigger]
            call_ensures(SenderSession::<C>::poll, (s,), step) && (*s)@ == before
                && (*final(s))@ == after,
        before.events.len() == 0,
        forall|session: C::WithReplyKey, r: Result<(Request, C::Context), CreateRequestError>|
            #[trigger] call_ensures(C::create_v2_post_request, (&session, &before.ohttp_relay), r)
                ==> r is Ok,
        forall|session: C::PollingForProposal, r: Result<(Request, C::Context), CreateRequestError>|
            #[trigger] call_ensures(C::create_poll_request, (&session, &before.ohttp_relay), r)
                ==> r is Ok,
    ensures
        before.state is PostingOriginal ==> step is SendRequest && after.state is AwaitingPostAck,
        before.state is PollingProposal && !before.state->PollingProposal_pending_backoff ==> step
            is SendRequest && after.state is AwaitingProposalPoll,
{
}

/// What a response does in the states that await none. It fails the session,
/// even one whose proposal waits to be signed; and a session at its end
/// refuses every response and stays as it is. No response touches the
/// transaction.
pub proof fn law_unawaited_responses<C: SenderEngine>(
    before: SenderSessionView<C>,
    body: Vec<u8>,
    r: Result<(), Error>,
    after: SenderSessionView<C>,
)
    requires
        exists|s: &mut SenderSession<C>| #[trigger]
            call_ensures(SenderSession::<C>::feed_response, (s, body), r) && (*s)@ == before
                && (*final(s))@ == after,
    ensures
        after.result == before.result,
        before.state is PostingOriginal || before.state is PollingProposal || before.state
            is NeedSignedPsbt ==> {
            &&& r is Ok
            &&& after.events == before.events
            &&& after.state matches SenderState::Failed(Error::Payjoin(msg)) && msg@
                == "feed_response called in an unexpected state"@
        },
        before.state is Done || before.state is Failed || before.state is Terminated ==> {
            &&& r == Err::<(), Error>(Error::Terminated)
            &&& after.events == before.events
            &&& after.state == before.state
        },
{
    assert(before.events + Seq::<SenderEvent<C>>::empty() =~= before.events);
}

/// What the answer to the original PSBT does. The protocol reads the body as it
/// came. Accepted: the session polls for the proposal at once. Refused: the
/// session fails, and a fatal failure closes it with an event.
pub proof fn law_acknowledgements_are_read_by_the_protocol<C: SenderEngine>(
    before: SenderSessionView<C>,
    body: Vec<u8>,
    r: Result<(), Error>,
    after: SenderSessionView<C>,
)
    requires
        exists|s: &mut SenderSession<C>| #[trigger]
            call_ensures(SenderSession::<C>::feed_response, (s, body), r) && (*s)@ == before
                && (*final(s))@ == after,
        before.state is AwaitingPostAck,
    ensures
        r is Ok,
        exists|bytes: &[u8], t: PostReply<C>| #[trigger]
            call_ensures(
                C::process_post_response,
                (&before.state->AwaitingPostAck_session, bytes, &before.state->AwaitingPostAck_ctx),
                t,
            ) && bytes@ == body@ && {
                &&& t is Success ==> after.events =~= before.events.push(t->Success_0)
                    && after.state == (SenderState::<C>::PollingProposal {
                    session: t->Success_1,
                    pending_backoff: false,
                })
                &&& t is Transient ==> after.events =~= before.events && (
                after.state matches SenderState::Failed(Error::Payjoin(msg)) && msg@
                    == "transient: "@ + t->Transient_0.msg@)
                &&& t is Fatal ==> after.events =~= before.events.push(
                    SessionEvent::Closed(SessionOutcome::Failure),
                ) && (after.state matches SenderState::Failed(Error::Payjoin(msg)) && msg@
                    == "fatal: "@ + t->Fatal_0.msg@)
            },
{
    let session = before.state->AwaitingPostAck_session;
    let ctx = before.state->AwaitingPostAck_ctx;
    let recorded = choose|recorded: Seq<SenderEvent<C>>|
        after.events == before.events + recorded && #[trigger] consumed(
            before.state,
            body@,
            after.state,
            recorded,
        );
    let (bytes, t) = choose|bytes: &[u8], t: PostReply<C>|
        bytes@ == body@ && #[trigger] call_ensures(
            C::process_post_response,
            (&session, bytes, &ctx),
            t,
        ) && recorded == t.events(failure_event::<C>()) && post_acknowledged::<C>(
            t.outcome(),
            after.state,
        );
    assert(call_ensures(C::process_post_response, (&session, bytes, &ctx), t));
}

/// What the answer to a poll does. The protocol reads the body as it came. The
/// proposal arrived: it waits to be signed, as it is. Nothing arrived: the
/// session polls again after a wait. It failed: so does the session, and a
/// fatal failure closes it with an event.
pub proof fn law_answers_are_read_by_the_protocol<C: SenderEngine>(
    before: SenderSessionView<C>,
    body: Vec<u8>,
    r: Result<(), Error>,
    after: SenderSessionView<C>,
)
    requires
        exists|s: &mut SenderSession<C>| #[trigger]
            call_ensures(SenderSession::<C>::feed_response, (s, body), r) && (*s)@ == before
                && (*final(s))@ == after,
        before.state is AwaitingProposalPoll,
    ensures
        r is Ok,
        exists|bytes: &[u8], t: PollReply<C>| #[trigger]
            call_ensures(
                C::process_poll_response,
                (
                    &before.state->AwaitingProposalPoll_session,
                    bytes,
                    &before.state->AwaitingProposalPoll_ctx,
                ),
                t,
            ) && bytes@ == body@ && {
                &&& t is Progress ==> after.events =~= before.events.push(t->Progress_0)
                    && after.state == (SenderState::<C>::NeedSignedPsbt {
                    proposal: t->Progress_1,
                })
                &&& t is Stasis ==> after.events =~= before.events && after.state == (
                SenderState::<C>::PollingProposal { session: t->Stasis_0, pending_backoff: true })
                &&& t is Transient ==> after.events =~= before.events && (
                after.state matches SenderState::Failed(Error::Payjoin(msg)) && msg@
                    == "transient: "@ + t->Transient_0.msg@)
                &&& t is Fatal ==> after.events =~= before.events.push(
                    SessionEvent::Closed(SessionOutcome::Failure),
                ) && (after.state matches SenderState::Failed(Error::Payjoin(msg)) && msg@
                    == "fatal: "@ + t->Fatal_0.msg@)
            },
{
    let session = before.state->AwaitingProposalPoll_session;
    let ctx = before.state->AwaitingProposalPoll_ctx;
    let recorded = choose|recorded: Seq<SenderEvent<C>>|
        after.events == before.events + recorded && #[trigger] consumed(
            before.state,
            body@,
            after.state,
            recorded,
        );
    let (bytes, t) = choose|bytes: &[u8], t: PollReply<C>|
        bytes@ == body@ && #[trigger] call_ensures(
            C::process_poll_response,
            (&session, bytes, &ctx),
            t,
        ) && recorded == t.events(failure_event::<C>()) && poll_answered::<C>(
            t.outcome(),
            after.state,
        );
    assert(call_ensures(C::process_poll_response, (&session, bytes, &ctx), t));
}

/// What a signed PSBT does. Where one is awaited, the session is done exactly
/// if its fee is known and its transaction can be extracted, and both are then
/// those of the signed PSBT; else it fails for what is wrong with it. Nowhere
/// else does a signed PSBT change anything. It leaves no event.
pub proof fn law_signed_proposals_are_settled<C: SenderEngine>(
    before: SenderSessionView<C>,
    signed: Psbt,
    r: Result<(), Error>,
    after: SenderSessionView<C>,
)
    requires
        exists|s: &mut SenderSession<C>| #[trigger]
            call_ensures(SenderSession::<C>::feed_signed_psbt, (s, signed), r) && (*s)@ == before
                && (*final(s))@ == after,
    ensures
        after.events == before.events,
        before.state is NeedSignedPsbt <==> r is Ok,
        before.state is NeedSignedPsbt ==> (after.state is Done <==> psbt_fee(signed@) is Ok
            && psbt_tx(signed@) is Ok),
        before.state is NeedSignedPsbt && after.state is Done ==> (after.result matches Some(
            (tx, sats),
        ) && tx@ == psbt_tx(signed@)->Ok_0 && sats == psbt_fee(signed@)->Ok_0),
        before.state is NeedSignedPsbt && psbt_fee(signed@) is Err ==> after.result
            == before.result && (after.state matches SenderState::Failed(Error::Payjoin(msg))
            && msg@ == psbt_fee(signed@)->Err_0),
        before.state is NeedSignedPsbt && psbt_fee(signed@) is Ok && psbt_tx(signed@) is Err
            ==> after.result == before.result && (after.state matches SenderState::Failed(
            Error::Wallet(msg),
        ) && msg@ == "extract_tx after signing: "@ + psbt_tx(signed@)->Err_0),
        before.state !is NeedSignedPsbt ==> after.state == before.state && after.result
            == before.result,
        before.state is Done || before.state is Failed || before.state is Terminated ==> r
            == Err::<(), Error>(Error::Terminated),
        before.state is PostingOriginal || before.state is AwaitingPostAck || before.state
            is PollingProposal || before.state is AwaitingProposalPoll ==> (r matches Err(
            Error::Payjoin(msg),
        ) && msg@ == "feed_signed_psbt called in an unexpected state"@),
{
}

/// A finished transaction comes out with its fee; an unknown fee is the
/// protocol's fault and a failed extraction the wallet's.
pub proof fn law_faults_are_sorted(
    outcome: Result<(Vec<u8>, u64), ExtractError>,
    r: Result<(Vec<u8>, u64), Error>,
)
    requires
        call_ensures(settle, (outcome,), r),
    ensures
        match outcome {
            Ok((tx, sats)) => r == Ok::<(Vec<u8>, u64), Error>((tx, sats)),
            Err(ExtractError::Fee(m)) => r matches Err(Error::Payjoin(msg)) && msg@ == m@,
            Err(ExtractError::Extract(m)) => r matches Err(Error::Wallet(msg)) && msg@
                == "extract_tx after signing: "@ + m@,
        },
{
}

/// What a session tells of its transaction is what it holds: both the
/// transaction and the fee, or neither.
pub proof fn law_sessions_show_their_result<C: SenderEngine>(
    session: &SenderSession<C>,
    tx: Option<&Vec<u8>>,
    fee: Option<u64>,
)
    requires
        call_ensures(SenderSession::<C>::final_tx, (session,), tx),
        call_ensures(SenderSession::<C>::fee, (session,), fee),
    ensures
        tx is Some <==> session@.result is Some,
        fee is Some <==> session@.result is Some,
        session@.result matches Some((bytes, sats)) ==> *tx->0 == bytes && fee->0 == sats,
{
}

/// A new session is built from the caller's own PSBT and URI with the least fee
/// rate that was given, with outputs free to be substituted, and goes through
/// the relay that was given. It posts first, and holds back the one event that
/// created it. An error is what the protocol says.
pub proof fn law_new_sessions_have_the_callers_terms<C: SenderEngine>(
    psbt: Psbt,
    uri: PjUri,
    ohttp_relay: String,
    min_fee_rate: u64,
    r: Result<SenderSession<C>, Error>,
)
    requires
        call_ensures(SenderSession::<C>::new, (psbt, uri, ohttp_relay, min_fee_rate), r),
    ensures
        exists|
            params: SenderParams,
            answer: Result<Advance<C::Payload, C::WithReplyKey>, BuildFailure>,
        | #[trigger]
            call_ensures(C::build_recommended, (&params, min_fee_rate), answer) && {
                &&& params.psbt == psbt
                &&& params.uri == uri
                &&& !params.disable_output_substitution
                &&& answer is Ok <==> r is Ok
                &&& r matches Ok(s) ==> s@.ohttp_relay == ohttp_relay && s@.result is None
                    && s@.events == seq![
                    SessionEvent::<C::Payload, SessionOutcome>::Advanced(answer->Ok_0.event),
                ] && s@.state == SenderState::<C>::PostingOriginal(answer->Ok_0.state)
                &&& r matches Err(e) ==> (e matches Error::Payjoin(msg) && msg@
                    == answer->Err_0.msg@)
            },
{
}

/// Where a resumed session goes on, for every answer of the protocol to its
/// log: it posts if it had not been acknowledged, polls if no proposal had
/// arrived, asks for the signature of the proposal that had arrived, and
/// otherwise reports how it had been closed. It has the relay that its caller
/// gave, holds back no event and has no transaction yet.
pub proof fn law_resumed_sessions_go_on_where_they_stood<C: SenderEngine>(
    ohttp_relay: String,
    replayed: Result<(CoreSendSession<C>, C::History), ReplayError>,
    r: Result<SenderSession<C>, Error>,
)
    requires
        call_ensures(SenderSession::<C>::from_replay, (ohttp_relay, replayed), r),
    ensures
        replayed is Ok <==> r is Ok,
        replayed matches Err(e) ==> (r matches Err(Error::Payjoin(msg)) && msg@ == e.debug@),
        r matches Ok(s) ==> s@.ohttp_relay == ohttp_relay && s@.events.len() == 0 && s@.result
            is None,
        replayed matches Ok((CoreSendSession::WithReplyKey(s), _)) ==> r->Ok_0@.state
            == SenderState::<C>::PostingOriginal(s),
        replayed matches Ok((CoreSendSession::PollingForProposal(s), _)) ==> r->Ok_0@.state == (
        SenderState::<C>::PollingProposal { session: s, pending_backoff: false }),
        replayed matches Ok((CoreSendSession::Closed(SessionOutcome::Success(psbt)), _))
            ==> r->Ok_0@.state == (SenderState::<C>::NeedSignedPsbt { proposal: psbt }),
        replayed matches Ok((CoreSendSession::Closed(SessionOutcome::Failure), _)) ==> (
        r->Ok_0@.state matches SenderState::Failed(Error::Payjoin(msg)) && msg@
            == "session previously closed: "@ + "Failure"@),
        replayed matches Ok((CoreSendSession::Closed(SessionOutcome::Cancel), _)) ==> (
        r->Ok_0@.state matches SenderState::Failed(Error::Payjoin(msg)) && msg@
            == "session previously closed: "@ + "Cancel"@),
{
}

/// To resume from a log is to go on from what the protocol replays it into,
/// whatever fee rate is named.
pub proof fn law_resuming_is_replaying<C: SenderEngine>(
    events: Vec<SenderEvent<C>>,
    ohttp_relay: String,
    min_fee_rate: u64,
    answer: Result<(CoreSendSession<C>, C::History), ReplayError>,
    r: Result<SenderSession<C>, Error>,
)
    requires
        forall|a: Result<(CoreSendSession<C>, C::History), ReplayError>| #[trigger]
            call_ensures(C::replay_event_log, (events,), a) ==> a == answer,
        call_ensures(
            SenderSession::<C>::resume_from_events,
            (events, ohttp_relay, min_fee_rate),
            r,
        ),
    ensures
        answer is Ok <==> r is Ok,
        r matches Ok(s) ==> s@.ohttp_relay == ohttp_relay && s@.events.len() == 0 && s@.result
            is None,
        answer matches Ok((CoreSendSession::WithReplyKey(s), _)) ==> r->Ok_0@.state
            == SenderState::<C>::PostingOriginal(s),
        answer matches Ok((CoreSendSession::PollingForProposal(s), _)) ==> r->Ok_0@.state == (
        SenderState::<C>::PollingProposal { session: s, pending_backoff: false }),
        answer matches Ok((CoreSendSession::Closed(SessionOutcome::Success(psbt)), _))
            ==> r->Ok_0@.state == (SenderState::<C>::NeedSignedPsbt { proposal: psbt }),
        answer matches Ok((CoreSendSession::Closed(outcome), _)) ==> (outcome !is Success
            ==> r->Ok_0@.state is Failed),
{
}

/// What the request that posts the original PSBT leads to: it is sent and its
/// answer is awaited by the same session, or what went wrong is reported and the
/// session is terminated.
pub proof fn law_post_requests_are_awaited<C: SenderEngine>(
    session: C::WithReplyKey,
    request: Result<(Request, C::Context), CreateRequestError>,
    r: (SenderState<C>, SenderStep<C>),
)
    requires
        call_ensures(SenderState::<C>::after_post, (session, request), r),
    ensures
        match request {
            Ok((req, ctx)) => r.0 == (SenderState::<C>::AwaitingPostAck { session, ctx }) && r.1
                == SenderStep::<C>::SendRequest(req),
            Err(e) => r.0 is Terminated && (r.1 matches SenderStep::Failed(Error::Payjoin(msg))
                && msg@ == e.msg@),
        },
{
}

/// What the request that polls for the proposal leads to: it is sent and its
/// answer is awaited by the same session, or what went wrong is reported and the
/// session is terminated.
pub proof fn law_poll_requests_are_awaited<C: SenderEngine>(
    session: C::PollingForProposal,
    request: Result<(Request, C::Context), CreateRequestError>,
    r: (SenderState<C>, SenderStep<C>),
)
    requires
        call_ensures(SenderState::<C>::after_poll, (session, request), r),
    ensures
        match request {
            Ok((req, ctx)) => r.0 == (SenderState::<C>::AwaitingProposalPoll { session, ctx })
                && r.1 == SenderStep::<C>::SendRequest(req),
            Err(e) => r.0 is Terminated && (r.1 matches SenderStep::Failed(Error::Payjoin(msg))
                && msg@ == e.msg@),
        },
{
}

/// Where an acknowledgement of the original PSBT leads: to polling at once, or
/// to failure, which says how grave it was.
pub proof fn law_acknowledged_sessions_poll_at_once<C: SenderEngine>(
    outcome: Result<C::PollingForProposal, ApiError<EncapsulationError>>,
    r: SenderState<C>,
)
    requires
        call_ensures(SenderState::<C>::after_acknowledgement, (outcome,), r),
    ensures
        outcome matches Ok(session) ==> r == (SenderState::<C>::PollingProposal {
            session,
            pending_backoff: false,
        }),
        outcome matches Err(ApiError::Transient(e)) ==> (r matches SenderState::Failed(
            Error::Payjoin(msg),
        ) && msg@ == "transient: "@ + e.msg@),
        outcome matches Err(ApiError::Fatal(e)) ==> (r matches SenderState::Failed(
            Error::Payjoin(msg),
        ) && msg@ == "fatal: "@ + e.msg@),
        outcome matches Err(ApiError::FatalWithState(e, _)) ==> (r matches SenderState::Failed(
            Error::Payjoin(msg),
        ) && msg@ == "fatal "@ + e.msg@ + " ("@ + "()"@ + ")"@),
{
}

/// Where an answer to a poll leads: to the signature of the proposal that came,
/// to another poll after a wait, or to failure, which says how grave it was.
pub proof fn law_answered_sessions_ask_for_the_signature<C: SenderEngine>(
    outcome: Result<
        OptionalTransitionOutcome<Psbt, C::PollingForProposal>,
        ApiError<ResponseFailure>,
    >,
    r: SenderState<C>,
)
    requires
        call_ensures(SenderState::<C>::after_answer, (outcome,), r),
    ensures
        outcome matches Ok(OptionalTransitionOutcome::Progress(psbt)) ==> r == (SenderState::<
            C,
        >::NeedSignedPsbt { proposal: psbt }),
        outcome matches Ok(OptionalTransitionOutcome::Stasis(session)) ==> r == (SenderState::<
            C,
        >::PollingProposal { session, pending_backoff: true }),
        outcome matches Err(ApiError::Transient(e)) ==> (r matches SenderState::Failed(
            Error::Payjoin(msg),
        ) && msg@ == "transient: "@ + e.msg@),
        outcome matches Err(ApiError::Fatal(e)) ==> (r matches SenderState::Failed(
            Error::Payjoin(msg),
        ) && msg@ == "fatal: "@ + e.msg@),
        outcome matches Err(ApiError::FatalWithState(e, _)) ==> (r matches SenderState::Failed(
            Error::Payjoin(msg),
        ) && msg@ == "fatal "@ + e.msg@ + " ("@ + "()"@ + ")"@),
{
}

/// Where a replayed session goes on: in the state that it was in, and at the
/// signature if its proposal had arrived.
pub proof fn law_replayed_states_go_on<C: SenderEngine>(
    session: CoreSendSession<C>,
    r: SenderState<C>,
)
    requires
        call_ensures(SenderState::<C>::after_replay, (session,), r),
    ensures
        match session {
            CoreSendSession::WithReplyKey(s) => r == SenderState::<C>::PostingOriginal(s),
            CoreSendSession::PollingForProposal(s) => r == (SenderState::<C>::PollingProposal {
                session: s,
                pending_backoff: false,
            }),
            CoreSendSession::Closed(SessionOutcome::Success(psbt)) => r == (SenderState::<
                C,
            >::NeedSignedPsbt { proposal: psbt }),
            CoreSendSession::Closed(SessionOutcome::Failure) => r matches SenderState::Failed(
                Error::Payjoin(msg),
            ) && msg@ == "session previously closed: "@ + "Failure"@,
            CoreSendSession::Closed(SessionOutcome::Cancel) => r matches SenderState::Failed(
                Error::Payjoin(msg),
            ) && msg@ == "session previously closed: "@ + "Cancel"@,
        },
{
}

/// What the protocol built becomes a session that posts first, through the
/// relay that was given, and holds back the one event that created it.
pub proof fn law_built_sessions_post_first<C: SenderEngine>(
    ohttp_relay: String,
    answer: Result<Advance<C::Payload, C::WithReplyKey>, BuildFailure>,
    r: Result<SenderSession<C>, Error>,
)
    requires
        call_ensures(SenderSession::<C>::from_build, (ohttp_relay, answer), r),
    ensures
        answer is Ok <==> r is Ok,
        answer matches Ok(a) ==> {
            &&& r->Ok_0@.ohttp_relay == ohttp_relay
            &&& r->Ok_0@.result is None
            &&& r->Ok_0@.state == SenderState::<C>::PostingOriginal(a.state)
            &&& r->Ok_0@.events.len() == 1
            &&& r->Ok_0@.events[0] == SessionEvent::<C::Payload, SessionOutcome>::Advanced(a.event)
        },
        answer matches Err(e) ==> (r->Err_0 matches Error::Payjoin(msg) && msg@ == e.msg@),
{
}

} // verus!
