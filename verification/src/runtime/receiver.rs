//! Sans-IO driver for the receiver role.
use crate::persist::{ApiError, OptionalTransitionOutcome, PersistAction};
use crate::receive::engine::{
    closing_failure, failure_event, CoreReceiveSession, PollReply, ReceiverEngine, ReceiverEvent,
    ReceiverStates, SessionOutcome,
};
use crate::receive::error::{ProtocolError, ReceiveFailure};
use crate::receive::builder::ReceiverBuilder;
use crate::runtime::ceremony::{
    law_a_proposal_has_passed_every_check, law_each_stage_leaves_its_event, original_processed,
    passed, Ceremony, Events, Passage, ReceiverWallet,
};
use crate::runtime::error::{is_payjoin, Error};
use crate::runtime::sender::record;
use crate::runtime::{FeeRange, Step};
use crate::session::{ReplayError, Request};
use crate::text::Message;
use vstd::prelude::*;
use vstd::string::*;

verus! {

/// Where a receiver session stands.
pub enum ReceiverState<C: ReceiverStates> {
    /// Need to poll the directory for the sender's original PSBT.
    ///
    /// `pending_backoff` means that the previous poll brought nothing: the
    /// caller is told to wait once before the next request.
    Polling { session: C::Initialized, pending_backoff: bool },
    /// Poll sent; awaiting the directory's response.
    AwaitingPoll { session: C::Initialized, ctx: C::Context },
    /// Original PSBT received and processed; ready to post the proposal.
    Posting(C::PayjoinProposal),
    /// Proposal sent; awaiting acknowledgement.
    AwaitingPostAck,
    /// Terminal success, not reported yet.
    Done,
    /// Terminal failure, not reported yet.
    Failed(Error),
    /// Terminal, and reported.
    Terminated,
}

impl<C: ReceiverStates> ReceiverState<C> {
    /// Whether the session has come to its end.
    pub open spec fn is_terminal(self) -> bool {
        self is Done || self is Failed || self is Terminated
    }
}

/// What follows from the request that polls for the original PSBT.
pub open spec fn poll_sent<C: ReceiverEngine>(
    session: C::Initialized,
    request: Result<(Request, C::Context), ReceiveFailure>,
    next: ReceiverState<C>,
    step: Step<ReceiverEvent<C>>,
) -> bool {
    match request {
        Ok((req, ctx)) => next == (ReceiverState::<C>::AwaitingPoll { session, ctx }) && step
            == Step::<ReceiverEvent<C>>::SendRequest(req),
        Err(e) => next == ReceiverState::<C>::Terminated && (step matches Step::Failed(err)
            && is_payjoin(err, e.text())),
    }
}

/// What follows from the request that posts the proposal.
pub open spec fn post_sent<C: ReceiverEngine>(
    request: Result<(Request, C::Context), ReceiveFailure>,
    next: ReceiverState<C>,
    step: Step<ReceiverEvent<C>>,
) -> bool {
    match request {
        Ok((req, _)) => next == ReceiverState::<C>::AwaitingPostAck && step == Step::<
            ReceiverEvent<C>,
        >::SendRequest(req),
        Err(e) => next == ReceiverState::<C>::Terminated && (step matches Step::Failed(err)
            && is_payjoin(err, e.text())),
    }
}

/// What a poll does in `state` when no event waits to be saved.
pub open spec fn stepped<C: ReceiverEngine>(
    relay: String,
    state: ReceiverState<C>,
    next: ReceiverState<C>,
    step: Step<ReceiverEvent<C>>,
) -> bool {
    match state {
        ReceiverState::Polling { session, pending_backoff } => if pending_backoff {
            next == (ReceiverState::<C>::Polling { session, pending_backoff: false }) && step
                == Step::<ReceiverEvent<C>>::Backoff
        } else {
            exists|request| #[trigger]
                call_ensures(C::create_poll_request, (&session, &relay), request) && poll_sent(
                    session,
                    request,
                    next,
                    step,
                )
        },
        ReceiverState::Posting(proposal) => exists|request| #[trigger]
            call_ensures(C::create_post_request, (&proposal, &relay), request) && post_sent::<C>(
                request,
                next,
                step,
            ),
        ReceiverState::AwaitingPoll { .. } | ReceiverState::AwaitingPostAck => next
            == ReceiverState::<C>::Terminated && (step matches Step::Failed(err) && is_payjoin(
            err,
            "called poll() while awaiting a response"@,
        )),
        ReceiverState::Done => next == ReceiverState::<C>::Terminated && step == Step::<
            ReceiverEvent<C>,
        >::Done,
        ReceiverState::Failed(err) => next == ReceiverState::<C>::Terminated && step == Step::<
            ReceiverEvent<C>,
        >::Failed(err),
        ReceiverState::Terminated => next == state && step == Step::<ReceiverEvent<C>>::Failed(
            Error::Terminated,
        ),
    }
}

/// Where the session goes once the directory has answered to a poll, and the
/// events that are left to be saved besides that of the answer itself.
pub open spec fn poll_answered<C: ReceiverEngine, W: ReceiverWallet<Input = C::InputPair>>(
    wallet: W,
    fee_range: FeeRange,
    outcome: Result<
        OptionalTransitionOutcome<C::UncheckedOriginalPayload, C::Initialized>,
        ApiError<ProtocolError>,
    >,
    next: ReceiverState<C>,
    rest: Events<C>,
) -> bool {
    match outcome {
        Err(e) => rest == Events::<C>::empty() && (next matches ReceiverState::Failed(err)
            && is_payjoin(err, e.text())),
        Ok(OptionalTransitionOutcome::Stasis(session)) => rest == Events::<C>::empty() && next == (
        ReceiverState::<C>::Polling { session, pending_backoff: true }),
        Ok(OptionalTransitionOutcome::Progress(unchecked)) => exists|
            processed: Result<C::PayjoinProposal, Error>,
        | #[trigger]
            original_processed::<C, W>(wallet, fee_range, unchecked, rest, processed)
                && match processed {
                Ok(proposal) => next == ReceiverState::<C>::Posting(proposal),
                Err(e) => next == ReceiverState::<C>::Failed(e),
            },
    }
}

/// What a response does in a `state` that is not terminal: where it leads, and
/// the events it leaves to be saved.
pub open spec fn consumed<C: ReceiverEngine, W: ReceiverWallet<Input = C::InputPair>>(
    wallet: W,
    fee_range: FeeRange,
    state: ReceiverState<C>,
    body: Seq<u8>,
    next: ReceiverState<C>,
    recorded: Events<C>,
) -> bool {
    match state {
        ReceiverState::AwaitingPoll { session, ctx } => exists|bytes: &[u8], t|
            bytes@ == body && #[trigger] call_ensures(
                C::process_poll_response,
                (&session, bytes, &ctx),
                t,
            ) && exists|rest: Events<C>|
                recorded == t.events(failure_event::<C>()) + rest
                    && #[trigger] poll_answered::<C, W>(
                    wallet,
                    fee_range,
                    t.outcome(),
                    next,
                    rest,
                ),
        ReceiverState::AwaitingPostAck => recorded == Events::<C>::empty() && next
            == ReceiverState::<C>::Done,
        _ => recorded == Events::<C>::empty() && (next matches ReceiverState::Failed(err)
            && is_payjoin(err, "feed_response called in an unexpected state"@)),
    }
}

/// Where a replayed log leaves the session. A log that ends between the stages
/// of one advance cannot be resumed: there is no clean re-entry point there.
pub open spec fn resumed<C: ReceiverEngine>(
    session: CoreReceiveSession<C>,
    r: Result<ReceiverState<C>, Error>,
) -> bool {
    match session {
        CoreReceiveSession::Initialized(s) => r == Ok::<ReceiverState<C>, Error>(
            ReceiverState::Polling { session: s, pending_backoff: false },
        ),
        CoreReceiveSession::PayjoinProposal(s) => r == Ok::<ReceiverState<C>, Error>(
            ReceiverState::Posting(s),
        ),
        CoreReceiveSession::Closed(SessionOutcome::Success(_)) => r == Ok::<
            ReceiverState<C>,
            Error,
        >(ReceiverState::Done),
        CoreReceiveSession::Closed(outcome) => r matches Ok(ReceiverState::Failed(e)) && is_payjoin(
            e,
            "session previously closed: "@ + outcome.name(),
        ),
        _ => exists|debug: String| #[trigger]
            call_ensures(C::debug_session, (&session,), debug) && (r matches Err(e) && is_payjoin(
                e,
                "cannot resume from intermediate state "@ + debug@
                    + "; event log was not persisted atomically per `Step::Save` batch"@,
            )),
    }
}

impl<C: ReceiverEngine> ReceiverState<C> {
    /// The state after the request that polls for the original PSBT was made,
    /// and what the caller is told.
    pub fn after_poll(
        session: C::Initialized,
        request: Result<(Request, C::Context), ReceiveFailure>,
    ) -> (r: (ReceiverState<C>, Step<ReceiverEvent<C>>))
        ensures
            poll_sent(session, request, r.0, r.1),
    {
        match request {
            Ok((req, ctx)) => (
                ReceiverState::AwaitingPoll { session, ctx },
                Step::SendRequest(req),
            ),
            Err(e) => (ReceiverState::Terminated, Step::Failed(Error::payjoin(e))),
        }
    }

    /// The state after the request that posts the proposal was made, and what
    /// the caller is told.
    pub fn after_post(request: Result<(Request, C::Context), ReceiveFailure>) -> (r: (
        ReceiverState<C>,
        Step<ReceiverEvent<C>>,
    ))
        ensures
            post_sent::<C>(request, r.0, r.1),
    {
        match request {
            Ok((req, _ctx)) => (ReceiverState::AwaitingPostAck, Step::SendRequest(req)),
            Err(e) => (ReceiverState::Terminated, Step::Failed(Error::payjoin(e))),
        }
    }

    /// The state in which a replayed session goes on.
    pub fn after_replay(session: CoreReceiveSession<C>) -> (r: Result<ReceiverState<C>, Error>)
        ensures
            resumed(session, r),
    {
        match session {
            CoreReceiveSession::Initialized(s) => Ok(
                ReceiverState::Polling { session: s, pending_backoff: false },
            ),
            CoreReceiveSession::PayjoinProposal(s) => Ok(ReceiverState::Posting(s)),
            CoreReceiveSession::Closed(SessionOutcome::Success(_)) => Ok(ReceiverState::Done),
            CoreReceiveSession::Closed(outcome) => Ok(
                ReceiverState::Failed(
                    Error::Payjoin(
                        "session previously closed: ".to_owned().concat(
                            outcome.name_text().as_str(),
                        ),
                    ),
                ),
            ),
            other => {
                let mut msg = "cannot resume from intermediate state ".to_owned();
                msg.append(C::debug_session(&other).as_str());
                msg.append("; event log was not persisted atomically per `Step::Save` batch");
                Err(Error::Payjoin(msg))
            },
        }
    }
}

/// Sans-IO state machine for the receiver role.
///
/// Drive it by alternating [`Self::poll`], which says what to do next, and
/// [`Self::feed_response`], which takes the directory's reply. The session is
/// done after the proposal has been published to the directory.
///
/// Every advance of the protocol produces an event. The session buffers them
/// and surfaces them via [`Step::Save`]; the caller decides how to persist. To
/// resume after a crash, replay the saved log via [`Self::resume_from_events`].
pub struct ReceiverSession<C: ReceiverEngine, W: ReceiverWallet<Input = C::InputPair>> {
    wallet: W,
    fee_range: FeeRange,
    ohttp_relay: String,
    pj_uri: String,
    state: ReceiverState<C>,
    events: Vec<ReceiverEvent<C>>,
}

/// What a receiver session is.
#[verifier::ext_equal]
pub struct ReceiverSessionView<C: ReceiverEngine, W: ReceiverWallet<Input = C::InputPair>> {
    /// The wallet.
    pub wallet: W,
    /// The fee rates that are allowed.
    pub fee_range: FeeRange,
    /// The relay that requests go through.
    pub ohttp_relay: String,
    /// The URI to share with the sender.
    pub pj_uri: String,
    /// Where the session stands.
    pub state: ReceiverState<C>,
    /// Events that the caller has not been handed yet.
    pub events: Seq<ReceiverEvent<C>>,
}

impl<C: ReceiverEngine, W: ReceiverWallet<Input = C::InputPair>> View for ReceiverSession<C, W> {
    type V = ReceiverSessionView<C, W>;

    closed spec fn view(&self) -> ReceiverSessionView<C, W> {
        ReceiverSessionView {
            wallet: self.wallet,
            fee_range: self.fee_range,
            ohttp_relay: self.ohttp_relay,
            pj_uri: self.pj_uri,
            state: self.state,
            events: self.events@,
        }
    }
}

/// What `ReceiverSession::poll` does to a session and returns.
pub open spec fn polled<C: ReceiverEngine, W: ReceiverWallet<Input = C::InputPair>>(
    before: ReceiverSessionView<C, W>,
    after: ReceiverSessionView<C, W>,
    step: Step<ReceiverEvent<C>>,
) -> bool {
    if before.events.len() > 0 {
        &&& step matches Step::Save(events) && events@ == before.events
        &&& after == (ReceiverSessionView::<C, W> { events: Seq::empty(), ..before })
    } else {
        &&& stepped(before.ohttp_relay, before.state, after.state, step)
        &&& after == (ReceiverSessionView::<C, W> { state: after.state, ..before })
    }
}

/// What `ReceiverSession::feed_response` does to a session and returns.
pub open spec fn fed<C: ReceiverEngine, W: ReceiverWallet<Input = C::InputPair>>(
    before: ReceiverSessionView<C, W>,
    body: Seq<u8>,
    after: ReceiverSessionView<C, W>,
    r: Result<(), Error>,
) -> bool {
    if before.state.is_terminal() {
        r == Err::<(), Error>(Error::Terminated) && after == before
    } else {
        &&& r is Ok
        &&& after == (ReceiverSessionView::<C, W> {
            state: after.state,
            events: after.events,
            ..before
        })
        &&& exists|recorded: Events<C>|
            after.events == before.events + recorded && #[trigger] consumed::<C, W>(
                before.wallet,
                before.fee_range,
                before.state,
                body,
                after.state,
                recorded,
            )
    }
}

/// What `ReceiverSession::resume_from_events` returns for a replayed log.
pub open spec fn woken<C: ReceiverEngine, W: ReceiverWallet<Input = C::InputPair>>(
    ohttp_relay: String,
    wallet: W,
    fee_range: FeeRange,
    replayed: Result<(CoreReceiveSession<C>, C::History), ReplayError>,
    r: Result<ReceiverSession<C, W>, Error>,
) -> bool {
    match replayed {
        Err(e) => r matches Err(err) && is_payjoin(err, e.debug@),
        Ok((session, history)) => exists|state: Result<ReceiverState<C>, Error>, uri| #[trigger]
            resumed(session, state) && #[trigger] call_ensures(C::history_pj_uri, (&history,), uri)
                && match state {
                Err(e) => r == Err::<ReceiverSession<C, W>, Error>(e),
                Ok(state) => r matches Ok(s) && s@ == (ReceiverSessionView::<C, W> {
                    wallet,
                    fee_range,
                    ohttp_relay,
                    pj_uri: uri.uri,
                    state,
                    events: Seq::empty(),
                }),
            },
    }
}

impl<C: ReceiverEngine, W: ReceiverWallet<Input = C::InputPair>> ReceiverSession<C, W> {
    /// Builds a new session. It always succeeds: what can be wrong with the
    /// builder was found when it was made.
    pub fn new(builder: ReceiverBuilder, ohttp_relay: String, wallet: W, fee_range: FeeRange) -> (r:
        Result<Self, Error>)
        ensures
            exists|a, uri| #[trigger]
                call_ensures(C::create, (&builder.params,), a) && #[trigger] call_ensures(
                    C::pj_uri,
                    (&a.state,),
                    uri,
                ) && (r matches Ok(s) && s@ == (ReceiverSessionView::<C, W> {
                    wallet,
                    fee_range,
                    ohttp_relay,
                    pj_uri: uri.uri,
                    state: ReceiverState::Polling { session: a.state, pending_backoff: false },
                    events: seq![ReceiverEvent::<C>::Advanced(a.event)],
                })),
    {
        let a = C::create(&builder.params);
        let uri = C::pj_uri(&a.state);
        let mut events: Vec<ReceiverEvent<C>> = Vec::new();
        record(&mut events, PersistAction::Save(ReceiverEvent::<C>::Advanced(a.event)));
        Ok(
            ReceiverSession {
                wallet,
                fee_range,
                ohttp_relay,
                pj_uri: uri.uri,
                state: ReceiverState::Polling { session: a.state, pending_backoff: false },
                events,
            },
        )
    }

    /// Resumes a session from its event log.
    ///
    /// `events` should be the complete sequence of events recorded from
    /// [`Step::Save`], in order. Each of these batches must have been persisted
    /// atomically: a log that ends partway through one is refused.
    pub fn resume_from_events(
        events: Vec<ReceiverEvent<C>>,
        ohttp_relay: String,
        wallet: W,
        fee_range: FeeRange,
    ) -> (r: Result<Self, Error>)
        ensures
            exists|replayed| #[trigger]
                call_ensures(C::replay_event_log, (events,), replayed) && woken::<C, W>(
                    ohttp_relay,
                    wallet,
                    fee_range,
                    replayed,
                    r,
                ),
    {
        Self::from_replay(ohttp_relay, wallet, fee_range, C::replay_event_log(events))
    }

    /// The session that a replayed log makes.
    pub fn from_replay(
        ohttp_relay: String,
        wallet: W,
        fee_range: FeeRange,
        replayed: Result<(CoreReceiveSession<C>, C::History), ReplayError>,
    ) -> (r: Result<Self, Error>)
        ensures
            woken::<C, W>(ohttp_relay, wallet, fee_range, replayed, r),
    {
        match replayed {
            Ok((session, history)) => {
                let uri = C::history_pj_uri(&history);
                match ReceiverState::after_replay(session) {
                    Ok(state) => Ok(
                        ReceiverSession {
                            wallet,
                            fee_range,
                            ohttp_relay,
                            pj_uri: uri.uri,
                            state,
                            events: Vec::new(),
                        },
                    ),
                    Err(e) => Err(e),
                }
            },
            Err(e) => Err(Error::Payjoin(e.debug)),
        }
    }

    /// The URI the receiver should share with the sender out of band.
    pub fn pj_uri(&self) -> (r: &str)
        ensures
            r@ == self@.pj_uri@,
    {
        self.pj_uri.as_str()
    }

    /// Consumes the session and returns the wallet.
    pub fn into_wallet(self) -> (r: W)
        ensures
            r == self@.wallet,
    {
        self.wallet
    }

    /// Takes the state out, leaving the session terminated.
    fn take_state(&mut self) -> (r: ReceiverState<C>)
        ensures
            r == old(self)@.state,
            final(self)@ == (ReceiverSessionView::<C, W> {
                state: ReceiverState::Terminated,
                ..old(self)@
            }),
    {
        let mut state = ReceiverState::Terminated;
        std::mem::swap(&mut state, &mut self.state);
        state
    }

    /// Takes the buffered events out.
    fn drain_events(&mut self) -> (r: Vec<ReceiverEvent<C>>)
        ensures
            r@ == old(self)@.events,
            final(self)@ == (ReceiverSessionView::<C, W> { events: Seq::empty(), ..old(self)@ }),
    {
        let mut events: Vec<ReceiverEvent<C>> = Vec::new();
        std::mem::swap(&mut events, &mut self.events);
        events
    }

    fn is_terminal(&self) -> (r: bool)
        ensures
            r == self@.state.is_terminal(),
    {
        match &self.state {
            ReceiverState::Done | ReceiverState::Failed(_) | ReceiverState::Terminated => true,
            _ => false,
        }
    }

    /// Advances the state machine and reports what the caller should do next.
    /// It is not to be called while a response is awaited: that fails the
    /// session.
    pub fn poll(&mut self) -> (r: Step<ReceiverEvent<C>>)
        ensures
            polled(old(self)@, final(self)@, r),
    {
        if self.events.len() > 0 {
            return Step::Save(self.drain_events());
        }
        let state = self.take_state();
        let (next, step) = self.step(state);
        self.state = next;
        step
    }

    /// Feeds back the body of the directory's response to the most recent
    /// [`Step::SendRequest`].
    pub fn feed_response(&mut self, bytes: Vec<u8>) -> (r: Result<(), Error>)
        ensures
            fed(old(self)@, bytes@, final(self)@, r),
    {
        if self.is_terminal() {
            return Err(Error::Terminated);
        }
        let state = self.take_state();
        let next = self.consume(state, bytes);
        self.state = next;
        Ok(())
    }

    fn step(&self, state: ReceiverState<C>) -> (r: (ReceiverState<C>, Step<ReceiverEvent<C>>))
        ensures
            stepped(self@.ohttp_relay, state, r.0, r.1),
    {
        match state {
            ReceiverState::Polling { session, pending_backoff } => {
                if pending_backoff {
                    (ReceiverState::Polling { session, pending_backoff: false }, Step::Backoff)
                } else {
                    let request = C::create_poll_request(&session, &self.ohttp_relay);
                    ReceiverState::after_poll(session, request)
                }
            },
            ReceiverState::Posting(proposal) => {
                let request = C::create_post_request(&proposal, &self.ohttp_relay);
                ReceiverState::after_post(request)
            },
            ReceiverState::AwaitingPoll { .. } | ReceiverState::AwaitingPostAck => (
                ReceiverState::Terminated,
                Step::Failed(Error::because("called poll() while awaiting a response")),
            ),
            ReceiverState::Done => (ReceiverState::Terminated, Step::Done),
            ReceiverState::Failed(err) => (ReceiverState::Terminated, Step::Failed(err)),
            ReceiverState::Terminated => (
                ReceiverState::Terminated,
                Step::Failed(Error::Terminated),
            ),
        }
    }

    fn consume(&mut self, state: ReceiverState<C>, bytes: Vec<u8>) -> (r: ReceiverState<C>)
        ensures
            final(self)@ == (ReceiverSessionView::<C, W> {
                events: final(self)@.events,
                ..old(self)@
            }),
            exists|recorded: Events<C>|
                final(self)@.events == old(self)@.events + recorded && #[trigger] consumed::<C, W>(
                    old(self)@.wallet,
                    old(self)@.fee_range,
                    state,
                    bytes@,
                    r,
                    recorded,
                ),
    {
        let ghost none = Events::<C>::empty();
        assert(self.events@ =~= old(self)@.events + none);
        match state {
            ReceiverState::AwaitingPoll { session, ctx } => {
                let t = C::process_poll_response(&session, bytes.as_slice(), &ctx);
                let (action, outcome) = t.deconstruct(closing_failure::<C>());
                let ghost saved = action.events();
                record(&mut self.events, action);
                let next = self.take_answer(outcome);
                proof {
                    let rest = choose|rest: Events<C>|
                        self@.events == old(self)@.events + saved + rest
                            && #[trigger] poll_answered::<C, W>(
                            old(self)@.wallet,
                            old(self)@.fee_range,
                            t.outcome(),
                            next,
                            rest,
                        );
                    assert(self@.events =~= old(self)@.events + (saved + rest));
                    assert(consumed::<C, W>(
                        old(self)@.wallet,
                        old(self)@.fee_range,
                        state,
                        bytes@,
                        next,
                        saved + rest,
                    ));
                }
                next
            },
            ReceiverState::AwaitingPostAck => {
                assert(consumed::<C, W>(
                    old(self)@.wallet,
                    old(self)@.fee_range,
                    state,
                    bytes@,
                    ReceiverState::Done,
                    none,
                ));
                ReceiverState::Done
            },
            _ => {
                let next = ReceiverState::Failed(
                    Error::because("feed_response called in an unexpected state"),
                );
                assert(consumed::<C, W>(
                    old(self)@.wallet,
                    old(self)@.fee_range,
                    state,
                    bytes@,
                    next,
                    none,
                ));
                next
            },
        }
    }

    /// The state after the directory answered to a poll. An original payload
    /// is processed at once.
    fn take_answer(
        &mut self,
        outcome: Result<
            OptionalTransitionOutcome<C::UncheckedOriginalPayload, C::Initialized>,
            ApiError<ProtocolError>,
        >,
    ) -> (r: ReceiverState<C>)
        ensures
            final(self)@ == (ReceiverSessionView::<C, W> {
                events: final(self)@.events,
                ..old(self)@
            }),
            exists|rest: Events<C>|
                final(self)@.events == old(self)@.events + rest && #[trigger] poll_answered::<C, W>(
                    old(self)@.wallet,
                    old(self)@.fee_range,
                    outcome,
                    r,
                    rest,
                ),
    {
        let ghost none = Events::<C>::empty();
        assert(self.events@ =~= old(self)@.events + none);
        let unchecked = match outcome {
            Ok(OptionalTransitionOutcome::Progress(unchecked)) => unchecked,
            Ok(OptionalTransitionOutcome::Stasis(session)) => {
                let next = ReceiverState::Polling { session, pending_backoff: true };
                assert(poll_answered::<C, W>(
                    old(self)@.wallet,
                    old(self)@.fee_range,
                    outcome,
                    next,
                    none,
                ));
                return next;
            },
            Err(e) => {
                let next = ReceiverState::Failed(Error::payjoin(e));
                assert(poll_answered::<C, W>(
                    old(self)@.wallet,
                    old(self)@.fee_range,
                    outcome,
                    next,
                    none,
                ));
                return next;
            },
        };
        let events = self.drain_events();
        let mut ceremony = Ceremony::<C, W> {
            wallet: &self.wallet,
            fee_range: self.fee_range,
            events,
        };
        let processed = ceremony.process_original(unchecked);
        self.events = ceremony.events;
        let next = match processed {
            Ok(proposal) => ReceiverState::Posting(proposal),
            Err(e) => ReceiverState::Failed(e),
        };
        proof {
            let rest = choose|rest: Events<C>|
                self.events@ == old(self)@.events + rest && #[trigger] original_processed::<C, W>(
                    old(self)@.wallet,
                    old(self)@.fee_range,
                    unchecked,
                    rest,
                    processed,
                );
            assert(poll_answered::<C, W>(
                old(self)@.wallet,
                old(self)@.fee_range,
                outcome,
                next,
                rest,
            ));
        }
        next
    }
}

/// Persist before acting: a poll tells the caller to send, to wait or that all
/// is done only when it holds back no event, and a save hands out all of the
/// held back events, in order, and changes nothing else.
pub proof fn law_save_comes_first<C: ReceiverEngine, W: ReceiverWallet<Input = C::InputPair>>(
    before: ReceiverSessionView<C, W>,
    after: ReceiverSessionView<C, W>,
    step: Step<ReceiverEvent<C>>,
)
    requires
        polled(before, after, step),
    ensures
        step !is Save ==> before.events.len() == 0,
        step matches Step::Save(events) ==> {
            &&& events@ == before.events
            &&& events@.len() > 0
            &&& after.events.len() == 0
            &&& after.state == before.state
        },
{
    if before.events.len() == 0 {
        lemma_step_is_no_save(before.ohttp_relay, before.state, after.state, step);
    }
}

proof fn lemma_step_is_no_save<C: ReceiverEngine>(
    relay: String,
    state: ReceiverState<C>,
    next: ReceiverState<C>,
    step: Step<ReceiverEvent<C>>,
)
    requires
        stepped(relay, state, next, step),
    ensures
        step !is Save,
{
}

/// The events that a step hands to the caller.
pub open spec fn handed<C: ReceiverEngine>(step: Step<ReceiverEvent<C>>) -> Seq<ReceiverEvent<C>> {
    match step {
        Step::Save(events) => events@,
        _ => Seq::empty(),
    }
}

/// No event is lost, doubled or reordered: what a poll hands to the caller,
/// followed by what it still holds back, is what was held back before.
pub proof fn law_no_event_is_lost<C: ReceiverEngine, W: ReceiverWallet<Input = C::InputPair>>(
    before: ReceiverSessionView<C, W>,
    after: ReceiverSessionView<C, W>,
    step: Step<ReceiverEvent<C>>,
)
    requires
        polled(before, after, step),
    ensures
        before.events == handed::<C>(step) + after.events,
        step is Save ==> after.events.len() == 0,
{
    if before.events.len() == 0 {
        lemma_step_is_no_save(before.ohttp_relay, before.state, after.state, step);
    }
    assert(before.events =~= handed::<C>(step) + after.events);
}

/// The end of a session is reported once: the poll after that says that the
/// session has terminated.
pub proof fn law_the_end_is_reported_once<
    C: ReceiverEngine,
    W: ReceiverWallet<Input = C::InputPair>,
>(
    before: ReceiverSessionView<C, W>,
    after: ReceiverSessionView<C, W>,
    step: Step<ReceiverEvent<C>>,
    later: ReceiverSessionView<C, W>,
    later_step: Step<ReceiverEvent<C>>,
)
    requires
        before.state.is_terminal(),
        before.events.len() == 0,
        polled(before, after, step),
        polled(after, later, later_step),
    ensures
        before.state is Done ==> step is Done,
        before.state matches ReceiverState::Failed(e) ==> step == Step::<ReceiverEvent<C>>::Failed(
            e,
        ),
        later_step == Step::<ReceiverEvent<C>>::Failed(Error::Terminated),
        later == after,
{
}

/// A failure is final: once a poll has reported one, the session has come to
/// its end, and every later poll says that it has terminated.
pub proof fn law_failure_is_final<C: ReceiverEngine, W: ReceiverWallet<Input = C::InputPair>>(
    before: ReceiverSessionView<C, W>,
    after: ReceiverSessionView<C, W>,
    step: Step<ReceiverEvent<C>>,
    later: ReceiverSessionView<C, W>,
    later_step: Step<ReceiverEvent<C>>,
)
    requires
        polled(before, after, step),
        step is Failed,
        polled(after, later, later_step),
    ensures
        after.state is Terminated,
        later_step == Step::<ReceiverEvent<C>>::Failed(Error::Terminated),
        later == after,
{
}

/// Nothing that is fed to a session that has come to its end changes it.
pub proof fn law_nothing_moves_the_end<C: ReceiverEngine, W: ReceiverWallet<Input = C::InputPair>>(
    before: ReceiverSessionView<C, W>,
    body: Seq<u8>,
    after: ReceiverSessionView<C, W>,
    r: Result<(), Error>,
)
    requires
        before.state.is_terminal(),
        fed(before, body, after, r),
    ensures
        after == before,
        r == Err::<(), Error>(Error::Terminated),
{
}

/// After a poll of the directory that brought nothing, the caller is told to
/// wait exactly once before the next request.
pub proof fn law_one_backoff_per_empty_poll<
    C: ReceiverEngine,
    W: ReceiverWallet<Input = C::InputPair>,
>(
    session: C::Initialized,
    fed_session: ReceiverSessionView<C, W>,
    waited: ReceiverSessionView<C, W>,
    step: Step<ReceiverEvent<C>>,
    later: ReceiverSessionView<C, W>,
    later_step: Step<ReceiverEvent<C>>,
)
    requires
        poll_answered::<C, W>(
            fed_session.wallet,
            fed_session.fee_range,
            Ok(OptionalTransitionOutcome::Stasis(session)),
            fed_session.state,
            Events::<C>::empty(),
        ),
        fed_session.events.len() == 0,
        polled(fed_session, waited, step),
        polled(waited, later, later_step),
    ensures
        step is Backoff,
        later_step is SendRequest || later_step is Failed,
{
}

/// The URI, the wallet, the relay and the fee range of a session never change.
pub proof fn law_terms_never_change<C: ReceiverEngine, W: ReceiverWallet<Input = C::InputPair>>(
    before: ReceiverSessionView<C, W>,
    body: Seq<u8>,
    step: Step<ReceiverEvent<C>>,
    r: Result<(), Error>,
    after: ReceiverSessionView<C, W>,
)
    requires
        polled(before, after, step) || fed(before, body, after, r),
    ensures
        after.pj_uri == before.pj_uri,
        after.wallet == before.wallet,
        after.ohttp_relay == before.ohttp_relay,
        after.fee_range == before.fee_range,
{
}

/// A session posts a proposal only after an answer of the directory brought an
/// original payload that was processed into it.
pub proof fn law_only_processed_payloads_are_posted<
    C: ReceiverEngine,
    W: ReceiverWallet<Input = C::InputPair>,
>(
    before: ReceiverSessionView<C, W>,
    body: Seq<u8>,
    after: ReceiverSessionView<C, W>,
    r: Result<(), Error>,
    proposal: C::PayjoinProposal,
)
    requires
        fed(before, body, after, r),
        after.state == ReceiverState::<C>::Posting(proposal),
    ensures
        exists|unchecked: C::UncheckedOriginalPayload, passage: Passage<C>| #[trigger]
            passed::<C, W>(before.wallet, before.fee_range, unchecked, passage, proposal),
{
    let recorded = choose|recorded: Events<C>|
        after.events == before.events + recorded && #[trigger] consumed::<C, W>(
            before.wallet,
            before.fee_range,
            before.state,
            body,
            after.state,
            recorded,
        );
    assert(consumed::<C, W>(
        before.wallet,
        before.fee_range,
        before.state,
        body,
        after.state,
        recorded,
    ));
    let (unchecked, rest) = choose|
        unchecked: C::UncheckedOriginalPayload,
        rest: Events<C>,
    | #[trigger]
        original_processed::<C, W>(before.wallet, before.fee_range, unchecked, rest, Ok(proposal));
    law_a_proposal_has_passed_every_check::<C, W>(
        before.wallet,
        before.fee_range,
        unchecked,
        rest,
        proposal,
    );
}

/// Whether the answer of the directory in `state` brought the original payload
/// `unchecked`, recorded by `arrival`.
pub open spec fn arrived<C: ReceiverEngine>(
    state: ReceiverState<C>,
    body: Seq<u8>,
    arrival: ReceiverEvent<C>,
    unchecked: C::UncheckedOriginalPayload,
) -> bool {
    state matches ReceiverState::AwaitingPoll { session, ctx } && exists|bytes: &[u8]|
        bytes@ == body && #[trigger] call_ensures(
            C::process_poll_response,
            (&session, bytes, &ctx),
            PollReply::<C>::Progress(arrival, unchecked),
        )
}

/// An original payload that is processed into a proposal leaves nine events to
/// be saved as one batch: that of its arrival, and then those of the stages.
pub proof fn law_processed_original_leaves_nine_events<
    C: ReceiverEngine,
    W: ReceiverWallet<Input = C::InputPair>,
>(
    before: ReceiverSessionView<C, W>,
    body: Seq<u8>,
    after: ReceiverSessionView<C, W>,
    r: Result<(), Error>,
    proposal: C::PayjoinProposal,
)
    requires
        fed(before, body, after, r),
        after.state == ReceiverState::<C>::Posting(proposal),
    ensures
        after.events.len() == before.events.len() + 9,
        exists|arrival, unchecked, passage| #[trigger]
            arrived::<C>(before.state, body, arrival, unchecked) && #[trigger] passed::<C, W>(
                before.wallet,
                before.fee_range,
                unchecked,
                passage,
                proposal,
            ) && after.events == before.events + (seq![arrival] + passage.events()),
{
    let recorded = choose|recorded: Events<C>|
        after.events == before.events + recorded && #[trigger] consumed::<C, W>(
            before.wallet,
            before.fee_range,
            before.state,
            body,
            after.state,
            recorded,
        );
    assert(consumed::<C, W>(
        before.wallet,
        before.fee_range,
        before.state,
        body,
        after.state,
        recorded,
    ));
    let session = before.state->AwaitingPoll_session;
    let ctx = before.state->AwaitingPoll_ctx;
    let (bytes, t, rest) = choose|bytes: &[u8], t: PollReply<C>, rest: Events<C>|
        bytes@ == body && #[trigger] call_ensures(
            C::process_poll_response,
            (&session, bytes, &ctx),
            t,
        ) && recorded == t.events(failure_event::<C>()) + rest
            && #[trigger] poll_answered::<C, W>(
            before.wallet,
            before.fee_range,
            t.outcome(),
            after.state,
            rest,
        );
    let arrival = t->Progress_0;
    let unchecked = t->Progress_1;
    assert(arrived::<C>(before.state, body, arrival, unchecked));
    law_a_proposal_has_passed_every_check::<C, W>(
        before.wallet,
        before.fee_range,
        unchecked,
        rest,
        proposal,
    );
    let passage = choose|passage: Passage<C>| #[trigger]
        passed::<C, W>(before.wallet, before.fee_range, unchecked, passage, proposal) && rest
            == passage.events();
    law_each_stage_leaves_its_event::<C, W>(
        before.wallet,
        before.fee_range,
        unchecked,
        passage,
        proposal,
    );
}

/// A session is done only once its proposal was sent and the directory answered.
pub proof fn law_done_means_posted<C: ReceiverEngine, W: ReceiverWallet<Input = C::InputPair>>(
    before: ReceiverSessionView<C, W>,
    body: Seq<u8>,
    after: ReceiverSessionView<C, W>,
    r: Result<(), Error>,
)
    requires
        fed(before, body, after, r),
        after.state is Done,
        before.state !is Done,
    ensures
        before.state is AwaitingPostAck,
        after.events == before.events,
{
    let recorded = choose|recorded: Events<C>|
        after.events == before.events + recorded && #[trigger] consumed::<C, W>(
            before.wallet,
            before.fee_range,
            before.state,
            body,
            after.state,
            recorded,
        );
    assert(consumed::<C, W>(
        before.wallet,
        before.fee_range,
        before.state,
        body,
        after.state,
        recorded,
    ));
    assert(after.events =~= before.events);
}

/// A log resumes exactly if it ends where a batch of events ends: before the
/// original payload, with the proposal ready, or closed.
pub proof fn law_only_whole_batches_resume<C: ReceiverEngine>(
    session: CoreReceiveSession<C>,
    r: Result<ReceiverState<C>, Error>,
)
    requires
        resumed(session, r),
    ensures
        r is Ok <==> session is Initialized || session is PayjoinProposal || session is Closed,
{
}

} // verus!
