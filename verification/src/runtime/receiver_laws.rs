//! What callers of a [`ReceiverSession`] can rely on, call by call.
use crate::persist::Advance;
use crate::receive::builder::ReceiverBuilder;
use crate::receive::engine::{
    failure_event, CoreReceiveSession, PollReply, ReceiverEngine, ReceiverEvent, ReceiverReply,
    SessionOutcome,
};
use crate::receive::error::{ProtocolError, ReceiveFailure};
use crate::runtime::ceremony::{
    acceptable, law_willing_parties_make_a_proposal, original_processed, passed, willing, Events,
    Passage, ReceiverWallet,
};
use crate::runtime::error::Error;
use crate::runtime::receiver::{
    consumed, fed, law_only_processed_payloads_are_posted, poll_answered, poll_sent, polled,
    post_sent, ReceiverSession, ReceiverSessionView, ReceiverState,
};
use crate::runtime::{FeeRange, Step};
use crate::session::{PjUri, ReplayError, Request, SessionEvent};
use vstd::prelude::*;

verus! {

/// Neither a poll nor a response changes the terms of a session: its wallet,
/// its fee range, its relay and its URI.
pub proof fn law_calls_keep_the_terms<C: ReceiverEngine, W: ReceiverWallet<Input = C::InputPair>>(
    before: ReceiverSessionView<C, W>,
    step: Step<ReceiverEvent<C>>,
    body: Vec<u8>,
    r: Result<(), Error>,
    after: ReceiverSessionView<C, W>,
)
    requires
        (exists|s: &mut ReceiverSession<C, W>| #[trigger]
            call_ensures(ReceiverSession::<C, W>::poll, (s,), step) && (*s)@ == before
                && (*final(s))@ == after) || (exists|s: &mut ReceiverSession<C, W>| #[trigger]
            call_ensures(ReceiverSession::<C, W>::feed_response, (s, body), r) && (*s)@ == before
                && (*final(s))@ == after),
    ensures
        after.wallet == before.wallet,
        after.fee_range == before.fee_range,
        after.ohttp_relay == before.ohttp_relay,
        after.pj_uri == before.pj_uri,
{
}

/// While events wait to be saved, a poll hands out all of them, in order, and
/// does nothing else. Otherwise it holds back nothing.
pub proof fn law_poll_saves_before_it_acts<
    C: ReceiverEngine,
    W: ReceiverWallet<Input = C::InputPair>,
>(
    before: ReceiverSessionView<C, W>,
    step: Step<ReceiverEvent<C>>,
    after: ReceiverSessionView<C, W>,
)
    requires
        exists|s: &mut ReceiverSession<C, W>| #[trigger]
            call_ensures(ReceiverSession::<C, W>::poll, (s,), step) && (*s)@ == before
                && (*final(s))@ == after,
    ensures
        after.events.len() == 0,
        before.events.len() > 0 <==> step is Save,
        step matches Step::Save(events) ==> events@ == before.events && after.state
            == before.state,
{
}

/// What a poll does in each state, when no event waits to be saved. A session
/// that polls or posts asks the protocol for the request by its own relay; the
/// request goes to the caller as it is. After an empty answer the caller waits
/// once. The end is reported and then the session is terminated.
pub proof fn law_each_state_has_its_step<
    C: ReceiverEngine,
    W: ReceiverWallet<Input = C::InputPair>,
>(
    before: ReceiverSessionView<C, W>,
    step: Step<ReceiverEvent<C>>,
    after: ReceiverSessionView<C, W>,
)
    requires
        exists|s: &mut ReceiverSession<C, W>| #[trigger]
            call_ensures(ReceiverSession::<C, W>::poll, (s,), step) && (*s)@ == before
                && (*final(s))@ == after,
        before.events.len() == 0,
    ensures
        before.state matches ReceiverState::Polling { session, pending_backoff: true } ==> step
            is Backoff && after.state == (ReceiverState::<C>::Polling {
            session,
            pending_backoff: false,
        }),
        before.state matches ReceiverState::Polling { session, pending_backoff: false }
            ==> match step {
            Step::SendRequest(req) => after.state is AwaitingPoll
                && after.state->AwaitingPoll_session == session && call_ensures(
                C::create_poll_request,
                (&session, &before.ohttp_relay),
                Ok((req, after.state->AwaitingPoll_ctx)),
            ),
            Step::Failed(Error::Payjoin(msg)) => after.state is Terminated && exists|
                e: ReceiveFailure,
            | #[trigger]
                call_ensures(
                    C::create_poll_request,
                    (&session, &before.ohttp_relay),
                    Err::<(Request, C::Context), ReceiveFailure>(e),
                ) && msg@ == e.msg@,
            _ => false,
        },
        before.state matches ReceiverState::Posting(proposal) ==> match step {
            Step::SendRequest(req) => after.state is AwaitingPostAck && exists|ctx: C::Context|
                #[trigger] call_ensures(
                    C::create_post_request,
                    (&proposal, &before.ohttp_relay),
                    Ok::<(Request, C::Context), ReceiveFailure>((req, ctx)),
                ),
            Step::Failed(Error::Payjoin(msg)) => after.state is Terminated && exists|
                e: ReceiveFailure,
            | #[trigger]
                call_ensures(
                    C::create_post_request,
                    (&proposal, &before.ohttp_relay),
                    Err::<(Request, C::Context), ReceiveFailure>(e),
                ) && msg@ == e.msg@,
            _ => false,
        },
        before.state is AwaitingPoll || before.state is AwaitingPostAck ==> after.state
            is Terminated && (step matches Step::Failed(Error::Payjoin(msg)) && msg@
            == "called poll() while awaiting a response"@),
        before.state is Done ==> after.state is Terminated && step is Done,
        before.state matches ReceiverState::Failed(e) ==> after.state is Terminated && step
            == Step::<ReceiverEvent<C>>::Failed(e),
        before.state is Terminated ==> after.state is Terminated && step == Step::<
            ReceiverEvent<C>,
        >::Failed(Error::Terminated),
{
    if before.state is Polling && !before.state->Polling_pending_backoff {
        let session = before.state->Polling_session;
        let request = choose|request: Result<(Request, C::Context), ReceiveFailure>| #[trigger]
            call_ensures(C::create_poll_request, (&session, &before.ohttp_relay), request)
                && poll_sent(session, request, after.state, step);
        if let Ok(sent) = request {
            assert(sent == (sent.0, sent.1));
        }
    } else if let ReceiverState::Posting(proposal) = before.state {
        let request = choose|request: Result<(Request, C::Context), ReceiveFailure>| #[trigger]
            call_ensures(C::create_post_request, (&proposal, &before.ohttp_relay), request)
                && post_sent::<C>(request, after.state, step);
        match request {
            Ok(sent) => {
                let req = step->SendRequest_0;
                let ctx = sent.1;
                assert(sent == (req, ctx));
                assert(call_ensures(
                    C::create_post_request,
                    (&proposal, &before.ohttp_relay),
                    Ok::<(Request, C::Context), ReceiveFailure>((req, ctx)),
                ));
            },
            Err(e) => {
                assert(call_ensures(
                    C::create_post_request,
                    (&proposal, &before.ohttp_relay),
                    Err::<(Request, C::Context), ReceiveFailure>(e),
                ));
            },
        }
    }
}

/// Where the protocol gives a request, the caller is told to send it and the
/// session then awaits the response.
pub proof fn law_requests_are_sent<C: ReceiverEngine, W: ReceiverWallet<Input = C::InputPair>>(
    before: ReceiverSessionView<C, W>,
    step: Step<ReceiverEvent<C>>,
    after: ReceiverSessionView<C, W>,
)
    requires
        exists|s: &mut ReceiverSession<C, W>| #[trigger]
            call_ensures(ReceiverSession::<C, W>::poll, (s,), step) && (*s)@ == before
                && (*final(s))@ == after,
        before.events.len() == 0,
        forall|session: C::Initialized, r: Result<(Request, C::Context), ReceiveFailure>|
            #[trigger] call_ensures(C::create_poll_request, (&session, &before.ohttp_relay), r)
                ==> r is Ok,
        forall|proposal: C::PayjoinProposal, r: Result<(Request, C::Context), ReceiveFailure>|
            #[trigger] call_ensures(C::create_post_request, (&proposal, &before.ohttp_relay), r)
                ==> r is Ok,
    ensures
        before.state is Polling && !before.state->Polling_pending_backoff ==> step is SendRequest
            && after.state is AwaitingPoll,
        before.state is Posting ==> step is SendRequest && after.state is AwaitingPostAck,
{
}

/// What a response does in the states that do not await an answer to a poll.
/// The acknowledgement of the proposal completes the session, whatever it
/// says; a response that nobody awaits fails it; and a session at its end
/// refuses every response and stays as it is.
pub proof fn law_responses_outside_a_poll<
    C: ReceiverEngine,
    W: ReceiverWallet<Input = C::InputPair>,
>(
    before: ReceiverSessionView<C, W>,
    body: Vec<u8>,
    r: Result<(), Error>,
    after: ReceiverSessionView<C, W>,
)
    requires
        exists|s: &mut ReceiverSession<C, W>| #[trigger]
            call_ensures(ReceiverSession::<C, W>::feed_response, (s, body), r) && (*s)@ == before
                && (*final(s))@ == after,
        before.state !is AwaitingPoll,
    ensures
        after.events == before.events,
        match before.state {
            ReceiverState::AwaitingPostAck => r is Ok && after.state is Done,
            ReceiverState::Polling { .. } => r is Ok && (after.state matches ReceiverState::Failed(
                Error::Payjoin(msg),
            ) && msg@ == "feed_response called in an unexpected state"@),
            ReceiverState::Posting(_) => r is Ok && (after.state matches ReceiverState::Failed(
                Error::Payjoin(msg),
            ) && msg@ == "feed_response called in an unexpected state"@),
            ReceiverState::AwaitingPoll { .. } => true,
            ReceiverState::Done => r == Err::<(), Error>(Error::Terminated) && after.state is Done,
            ReceiverState::Failed(e) => r == Err::<(), Error>(Error::Terminated) && after.state
                == ReceiverState::<C>::Failed(e),
            ReceiverState::Terminated => r == Err::<(), Error>(Error::Terminated)
                && after.state is Terminated,
        },
{
    assert(before.events + Events::<C>::empty() =~= before.events);
}

/// What the answer to a poll does. The protocol reads the body as it came.
/// Nothing arrived: the session polls again after a wait. It failed: so does
/// the session, and a fatal failure closes it with an event. The original
/// payload arrived: its event comes first, then those of the stages that it
/// goes through under the terms of the session, and the session posts the
/// proposal or fails with what stopped it.
pub proof fn law_answers_are_processed_under_the_sessions_terms<
    C: ReceiverEngine,
    W: ReceiverWallet<Input = C::InputPair>,
>(
    before: ReceiverSessionView<C, W>,
    body: Vec<u8>,
    r: Result<(), Error>,
    after: ReceiverSessionView<C, W>,
)
    requires
        exists|s: &mut ReceiverSession<C, W>| #[trigger]
            call_ensures(ReceiverSession::<C, W>::feed_response, (s, body), r) && (*s)@ == before
                && (*final(s))@ == after,
        before.state is AwaitingPoll,
    ensures
        r is Ok,
        exists|bytes: &[u8], t: PollReply<C>| #[trigger]
            call_ensures(
                C::process_poll_response,
                (&before.state->AwaitingPoll_session, bytes, &before.state->AwaitingPoll_ctx),
                t,
            ) && bytes@ == body@ && {
                &&& t is Progress ==> exists|
                    rest: Events<C>,
                    processed: Result<C::PayjoinProposal, Error>,
                | #[trigger]
                    original_processed::<C, W>(
                        before.wallet,
                        before.fee_range,
                        t->Progress_1,
                        rest,
                        processed,
                    ) && after.events == before.events + (seq![t->Progress_0] + rest)
                        && match processed {
                        Ok(proposal) => after.state == ReceiverState::<C>::Posting(proposal),
                        Err(e) => after.state == ReceiverState::<C>::Failed(e),
                    }
                &&& t is Stasis ==> after.events == before.events && after.state == (
                ReceiverState::<C>::Polling { session: t->Stasis_0, pending_backoff: true })
                &&& t is Transient ==> after.events == before.events && (
                after.state matches ReceiverState::Failed(Error::Payjoin(msg)) && msg@
                    == "Transient error: "@ + t->Transient_0.msg@)
                &&& t is Fatal ==> after.events == before.events.push(
                    SessionEvent::Closed(SessionOutcome::Failure),
                ) && (after.state matches ReceiverState::Failed(Error::Payjoin(msg)) && msg@
                    == "Fatal error: "@ + t->Fatal_0.msg@)
            },
{
    let session = before.state->AwaitingPoll_session;
    let ctx = before.state->AwaitingPoll_ctx;
    assert(fed(before, body@, after, r));
    let recorded = choose|recorded: Events<C>|
        after.events == before.events + recorded && #[trigger] consumed::<C, W>(
            before.wallet,
            before.fee_range,
            before.state,
            body@,
            after.state,
            recorded,
        );
    assert(consumed::<C, W>(
        before.wallet,
        before.fee_range,
        before.state,
        body@,
        after.state,
        recorded,
    ));
    let (bytes, t, rest) = choose|bytes: &[u8], t: PollReply<C>, rest: Events<C>|
        bytes@ == body@ && #[trigger] call_ensures(
            C::process_poll_response,
            (&session, bytes, &ctx),
            t,
        ) && recorded == t.events(failure_event::<C>()) + rest && #[trigger] poll_answered::<C, W>(
            before.wallet,
            before.fee_range,
            t.outcome(),
            after.state,
            rest,
        );
    assert(poll_answered::<C, W>(
        before.wallet,
        before.fee_range,
        t.outcome(),
        after.state,
        rest,
    ));
    if t is Progress {
        assert(recorded == seq![t->Progress_0] + rest);
    } else {
        assert(recorded =~= t.events(failure_event::<C>()));
        assert(after.events =~= before.events + t.events(failure_event::<C>()));
        if t is Fatal {
            assert(after.events =~= before.events.push(failure_event::<C>()));
        } else {
            assert(after.events =~= before.events);
        }
    }
    assert(call_ensures(C::process_poll_response, (&session, bytes, &ctx), t));
}

/// Where everyone agrees, an answer to a poll leads to a proposal: if the
/// directory brings an original payload that is acceptable, and the wallet and
/// the protocol are willing under the terms of the session, then the session
/// goes on to post a proposal, and nine events wait to be saved for it.
pub proof fn law_agreement_leads_to_a_proposal<
    C: ReceiverEngine,
    W: ReceiverWallet<Input = C::InputPair>,
>(
    before: ReceiverSessionView<C, W>,
    body: Vec<u8>,
    r: Result<(), Error>,
    after: ReceiverSessionView<C, W>,
)
    requires
        exists|s: &mut ReceiverSession<C, W>| #[trigger]
            call_ensures(ReceiverSession::<C, W>::feed_response, (s, body), r) && (*s)@ == before
                && (*final(s))@ == after,
        before.state is AwaitingPoll,
        forall|bytes: &[u8], t: PollReply<C>|
            bytes@ == body@ && #[trigger] call_ensures(
                C::process_poll_response,
                (&before.state->AwaitingPoll_session, bytes, &before.state->AwaitingPoll_ctx),
                t,
            ) ==> t is Progress && acceptable::<C, W>(before.wallet, t->Progress_1),
        willing::<C, W>(before.wallet, before.fee_range),
    ensures
        r is Ok,
        after.state is Posting,
        after.events.len() == before.events.len() + 9,
{
    law_answers_are_processed_under_the_sessions_terms::<C, W>(before, body, r, after);
    let (bytes, t) = choose|bytes: &[u8], t: PollReply<C>| #[trigger]
        call_ensures(
            C::process_poll_response,
            (&before.state->AwaitingPoll_session, bytes, &before.state->AwaitingPoll_ctx),
            t,
        ) && bytes@ == body@ && (t is Progress ==> exists|
            rest: Events<C>,
            processed: Result<C::PayjoinProposal, Error>,
        | #[trigger]
            original_processed::<C, W>(
                before.wallet,
                before.fee_range,
                t->Progress_1,
                rest,
                processed,
            ) && after.events == before.events + (seq![t->Progress_0] + rest) && match processed {
                Ok(proposal) => after.state == ReceiverState::<C>::Posting(proposal),
                Err(e) => after.state == ReceiverState::<C>::Failed(e),
            });
    let arrival = t->Progress_0;
    let unchecked = t->Progress_1;
    let (rest, processed) = choose|rest: Events<C>, processed: Result<C::PayjoinProposal, Error>|
        #[trigger] original_processed::<C, W>(
            before.wallet,
            before.fee_range,
            unchecked,
            rest,
            processed,
        ) && after.events == before.events + (seq![arrival] + rest) && match processed {
            Ok(proposal) => after.state == ReceiverState::<C>::Posting(proposal),
            Err(e) => after.state == ReceiverState::<C>::Failed(e),
        };
    law_willing_parties_make_a_proposal::<C, W>(
        before.wallet,
        before.fee_range,
        unchecked,
        rest,
        processed,
    );
}

/// A new session has the terms that its caller gave, polls first, and holds
/// back the one event that created it. The URI is that of the session that the
/// protocol created from the builder's parameters.
pub proof fn law_new_sessions_have_the_callers_terms<
    C: ReceiverEngine,
    W: ReceiverWallet<Input = C::InputPair>,
>(
    builder: ReceiverBuilder,
    ohttp_relay: String,
    wallet: W,
    fee_range: FeeRange,
    r: Result<ReceiverSession<C, W>, Error>,
)
    requires
        call_ensures(
            ReceiverSession::<C, W>::new,
            (builder, ohttp_relay, wallet, fee_range),
            r,
        ),
    ensures
        r is Ok,
        r->Ok_0@.wallet == wallet,
        r->Ok_0@.fee_range.min == fee_range.min,
        r->Ok_0@.fee_range.max == fee_range.max,
        r->Ok_0@.ohttp_relay == ohttp_relay,
        exists|a: Advance<C::Payload, C::Initialized>, uri: PjUri| #[trigger]
            call_ensures(C::create, (&builder.params,), a) && #[trigger] call_ensures(
                C::pj_uri,
                (&a.state,),
                uri,
            ) && r->Ok_0@.pj_uri == uri.uri && r->Ok_0@.events == seq![
                SessionEvent::<C::Payload, SessionOutcome<C::Proceeds>>::Advanced(a.event),
            ] && r->Ok_0@.state == (ReceiverState::<C>::Polling {
                session: a.state,
                pending_backoff: false,
            }),
{
}

/// A resumed session has the terms that its caller gave, for every log that
/// resumes, and holds back no event: all of them are in the log.
pub proof fn law_resumed_sessions_have_the_callers_terms<
    C: ReceiverEngine,
    W: ReceiverWallet<Input = C::InputPair>,
>(
    events: Vec<ReceiverEvent<C>>,
    ohttp_relay: String,
    wallet: W,
    fee_range: FeeRange,
    r: Result<ReceiverSession<C, W>, Error>,
)
    requires
        call_ensures(
            ReceiverSession::<C, W>::resume_from_events,
            (events, ohttp_relay, wallet, fee_range),
            r,
        ),
        r is Ok,
    ensures
        r->Ok_0@.wallet == wallet,
        r->Ok_0@.fee_range.min == fee_range.min,
        r->Ok_0@.fee_range.max == fee_range.max,
        r->Ok_0@.ohttp_relay == ohttp_relay,
        r->Ok_0@.events.len() == 0,
        exists|session: CoreReceiveSession<C>, history: C::History, uri: PjUri| #[trigger]
            call_ensures(
                C::replay_event_log,
                (events,),
                Ok::<(CoreReceiveSession<C>, C::History), ReplayError>((session, history)),
            ) && #[trigger] call_ensures(C::history_pj_uri, (&history,), uri) && r->Ok_0@.pj_uri
                == uri.uri,
{
}

/// Where a resumed session goes on, for every answer of the protocol to its
/// log: it polls if no payload had arrived, posts the proposal if it had been
/// made, reports success if it had been paid, and otherwise reports how it had
/// been closed. A log that stops between the stages, or that does not make a
/// session, is refused for that reason.
pub proof fn law_resumed_sessions_go_on_where_they_stood<
    C: ReceiverEngine,
    W: ReceiverWallet<Input = C::InputPair>,
>(
    ohttp_relay: String,
    wallet: W,
    fee_range: FeeRange,
    replayed: Result<(CoreReceiveSession<C>, C::History), ReplayError>,
    r: Result<ReceiverSession<C, W>, Error>,
)
    requires
        call_ensures(
            ReceiverSession::<C, W>::from_replay,
            (ohttp_relay, wallet, fee_range, replayed),
            r,
        ),
    ensures
        match replayed {
            Err(e) => r matches Err(Error::Payjoin(msg)) && msg@ == e.debug@,
            Ok((CoreReceiveSession::Initialized(session), _)) => r is Ok && r->Ok_0@.state == (
            ReceiverState::<C>::Polling { session, pending_backoff: false }),
            Ok((CoreReceiveSession::PayjoinProposal(proposal), _)) => r is Ok && r->Ok_0@.state
                == ReceiverState::<C>::Posting(proposal),
            Ok((CoreReceiveSession::Closed(SessionOutcome::Success(_)), _)) => r is Ok
                && r->Ok_0@.state is Done,
            Ok((CoreReceiveSession::Closed(SessionOutcome::Failure), _)) => r is Ok && (
            r->Ok_0@.state matches ReceiverState::Failed(Error::Payjoin(msg)) && msg@
                == "session previously closed: "@ + "Failure"@),
            Ok((CoreReceiveSession::Closed(SessionOutcome::Cancel), _)) => r is Ok && (
            r->Ok_0@.state matches ReceiverState::Failed(Error::Payjoin(msg)) && msg@
                == "session previously closed: "@ + "Cancel"@),
            Ok((CoreReceiveSession::Closed(SessionOutcome::Other(how)), _)) => r is Ok && (
            r->Ok_0@.state matches ReceiverState::Failed(Error::Payjoin(msg)) && msg@
                == "session previously closed: "@ + how@),
            Ok((other, _)) => r matches Err(Error::Payjoin(msg)) && exists|debug: String| #[trigger]
                call_ensures(C::debug_session, (&other,), debug) && msg@
                    == "cannot resume from intermediate state "@ + debug@
                    + "; event log was not persisted atomically per `Step::Save` batch"@,
        },
        r matches Ok(s) ==> s@.wallet == wallet && s@.fee_range.min == fee_range.min
            && s@.fee_range.max == fee_range.max && s@.ohttp_relay == ohttp_relay
            && s@.events.len() == 0,
{
}

/// To resume from a log is to go on from what the protocol replays it into.
pub proof fn law_resuming_is_replaying<C: ReceiverEngine, W: ReceiverWallet<Input = C::InputPair>>(
    events: Vec<ReceiverEvent<C>>,
    ohttp_relay: String,
    wallet: W,
    fee_range: FeeRange,
    answer: Result<(CoreReceiveSession<C>, C::History), ReplayError>,
    r: Result<ReceiverSession<C, W>, Error>,
)
    requires
        forall|a: Result<(CoreReceiveSession<C>, C::History), ReplayError>| #[trigger]
            call_ensures(C::replay_event_log, (events,), a) ==> a == answer,
        call_ensures(
            ReceiverSession::<C, W>::resume_from_events,
            (events, ohttp_relay, wallet, fee_range),
            r,
        ),
    ensures
        answer is Err ==> r is Err,
        answer matches Ok((session, _)) ==> (r is Ok <==> session is Initialized
            || session is PayjoinProposal || session is Closed),
        answer matches Ok((CoreReceiveSession::Initialized(s), _)) ==> r->Ok_0@.state == (
        ReceiverState::<C>::Polling { session: s, pending_backoff: false }),
        answer matches Ok((CoreReceiveSession::PayjoinProposal(p), _)) ==> r->Ok_0@.state
            == ReceiverState::<C>::Posting(p),
        answer matches Ok((CoreReceiveSession::Closed(outcome), _)) ==> if outcome is Success {
            r->Ok_0@.state is Done
        } else {
            r->Ok_0@.state is Failed
        },
{
}

/// Whether a poll or a response leads from one view of a session to another.
pub open spec fn called<C: ReceiverEngine, W: ReceiverWallet<Input = C::InputPair>>(
    before: ReceiverSessionView<C, W>,
    after: ReceiverSessionView<C, W>,
) -> bool {
    ||| exists|step: Step<ReceiverEvent<C>>| #[trigger] polled(before, after, step)
    ||| exists|body: Seq<u8>, r: Result<(), Error>| #[trigger] fed(before, body, after, r)
}

proof fn lemma_terms_last<C: ReceiverEngine, W: ReceiverWallet<Input = C::InputPair>>(
    views: Seq<ReceiverSessionView<C, W>>,
    n: int,
)
    requires
        0 <= n < views.len(),
        forall|i: int| 0 <= i < views.len() - 1 ==> called(#[trigger] views[i], views[i + 1]),
    ensures
        views[n].fee_range == views[0].fee_range,
        views[n].wallet == views[0].wallet,
    decreases n,
{
    if n > 0 {
        lemma_terms_last(views, n - 1);
        assert(called(views[n - 1], views[n]));
    }
}

/// Every proposal that a resumed session makes, however many calls later, has
/// passed the check of the fees with the least and the greatest rate that were
/// given when it was resumed, and was signed by the wallet that was given.
pub proof fn law_proposals_keep_to_the_callers_fee_range<
    C: ReceiverEngine,
    W: ReceiverWallet<Input = C::InputPair>,
>(
    events: Vec<ReceiverEvent<C>>,
    ohttp_relay: String,
    wallet: W,
    fee_range: FeeRange,
    session: ReceiverSession<C, W>,
    views: Seq<ReceiverSessionView<C, W>>,
    body: Vec<u8>,
    r: Result<(), Error>,
    after: ReceiverSessionView<C, W>,
    proposal: C::PayjoinProposal,
)
    requires
        call_ensures(
            ReceiverSession::<C, W>::resume_from_events,
            (events, ohttp_relay, wallet, fee_range),
            Ok(session),
        ),
        views.len() > 0,
        views[0] == session@,
        forall|i: int| 0 <= i < views.len() - 1 ==> called(#[trigger] views[i], views[i + 1]),
        exists|s: &mut ReceiverSession<C, W>| #[trigger]
            call_ensures(ReceiverSession::<C, W>::feed_response, (s, body), r)
                && (*s)@ == views.last() && (*final(s))@ == after,
        after.state == ReceiverState::<C>::Posting(proposal),
    ensures
        exists|p: C::WantsFeeRange, t: ReceiverReply<C, C::ProvisionalProposal, ProtocolError>|
            #[trigger] call_ensures(C::apply_fee_range, (&p, fee_range.min, fee_range.max), t)
                && t is Success,
        exists|unchecked: C::UncheckedOriginalPayload, passage: Passage<C>| #[trigger]
            passed::<C, W>(wallet, fee_range, unchecked, passage, proposal),
{
    let before = views.last();
    lemma_terms_last(views, views.len() - 1);
    law_only_processed_payloads_are_posted::<C, W>(before, body@, after, r, proposal);
    let (unchecked, passage) = choose|
        unchecked: C::UncheckedOriginalPayload,
        passage: Passage<C>,
    | #[trigger] passed::<C, W>(before.wallet, before.fee_range, unchecked, passage, proposal);
    assert(before.fee_range.min == fee_range.min && before.fee_range.max == fee_range.max);
    assert(before.fee_range == fee_range);
    assert(before.wallet == wallet);
    assert(passed::<C, W>(wallet, fee_range, unchecked, passage, proposal));
    assert(call_ensures(
        C::apply_fee_range,
        (&passage.inputs.state, fee_range.min, fee_range.max),
        passage.fees,
    ));
    assert(passage.fees is Success);
}

/// The URI that a session shows is the one it was given, and the wallet that
/// it gives back is the one it was lent.
pub proof fn law_sessions_give_back_what_they_hold<
    C: ReceiverEngine,
    W: ReceiverWallet<Input = C::InputPair>,
>(session: ReceiverSession<C, W>, uri: &str, wallet: W)
    requires
        call_ensures(ReceiverSession::<C, W>::pj_uri, (&session,), uri),
        call_ensures(ReceiverSession::<C, W>::into_wallet, (session,), wallet),
    ensures
        uri@ == session@.pj_uri@,
        wallet == session@.wallet,
{
}

/// What a poll request leads to: it is sent and its answer is awaited by the
/// same session, or what went wrong is reported and the session is terminated.
pub proof fn law_poll_requests_are_awaited<C: ReceiverEngine>(
    session: C::Initialized,
    request: Result<(Request, C::Context), ReceiveFailure>,
    r: (ReceiverState<C>, Step<ReceiverEvent<C>>),
)
    requires
        call_ensures(ReceiverState::<C>::after_poll, (session, request), r),
    ensures
        match request {
            Ok((req, ctx)) => r.0 == (ReceiverState::<C>::AwaitingPoll { session, ctx }) && r.1
                == Step::<ReceiverEvent<C>>::SendRequest(req),
            Err(e) => r.0 is Terminated && (r.1 matches Step::Failed(Error::Payjoin(msg)) && msg@
                == e.msg@),
        },
{
}

/// What the request that posts the proposal leads to: it is sent and its
/// acknowledgement is awaited, or what went wrong is reported and the session is
/// terminated.
pub proof fn law_post_requests_are_awaited<C: ReceiverEngine>(
    request: Result<(Request, C::Context), ReceiveFailure>,
    r: (ReceiverState<C>, Step<ReceiverEvent<C>>),
)
    requires
        call_ensures(ReceiverState::<C>::after_post, (request,), r),
    ensures
        match request {
            Ok((req, _)) => r.0 is AwaitingPostAck && r.1 == Step::<
                ReceiverEvent<C>,
            >::SendRequest(req),
            Err(e) => r.0 is Terminated && (r.1 matches Step::Failed(Error::Payjoin(msg)) && msg@
                == e.msg@),
        },
{
}

/// Where a replayed session goes on: in the state that it was in, if there is a
/// way back into it.
pub proof fn law_replayed_states_go_on<C: ReceiverEngine>(
    session: CoreReceiveSession<C>,
    r: Result<ReceiverState<C>, Error>,
)
    requires
        call_ensures(ReceiverState::<C>::after_replay, (session,), r),
    ensures
        r is Ok <==> session is Initialized || session is PayjoinProposal || session is Closed,
        session matches CoreReceiveSession::Initialized(s) ==> r->Ok_0 == (ReceiverState::<
            C,
        >::Polling { session: s, pending_backoff: false }),
        session matches CoreReceiveSession::PayjoinProposal(p) ==> r->Ok_0 == ReceiverState::<
            C,
        >::Posting(p),
        session matches CoreReceiveSession::Closed(outcome) ==> if outcome is Success {
            r->Ok_0 is Done
        } else {
            r->Ok_0 is Failed
        },
{
}

/// Without a word of the caller, no fee range is set.
pub proof fn law_no_fee_range_is_set_by_default(fee_range: FeeRange)
    requires
        call_ensures(<FeeRange as Default>::default, (), fee_range),
    ensures
        fee_range.min is None,
        fee_range.max is None,
{
}

} // verus!
