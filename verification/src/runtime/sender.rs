//! Sans-IO driver for the sender role.
//!
//! The sender's only wallet decision, signing the proposal once the receiver
//! returns one, surfaces as [`SenderStep::SignAndFinalize`].
use crate::chain::{psbt_fee, psbt_tx, ExtractError, Psbt};
use crate::persist::{Advance, ApiError, OptionalTransitionOutcome, PersistAction};
use crate::runtime::error::{api_text, is_payjoin, is_wallet, Error};
use crate::send::engine::{
    closing_failure, failure_event, CoreSendSession, SenderEngine, SenderEvent, SenderParams,
    SenderStates, SessionOutcome,
};
use crate::send::error::{BuildFailure, CreateRequestError, EncapsulationError, ResponseFailure};
use crate::session::{PjUri, ReplayError, Request};
use crate::text::Message;
use vstd::prelude::*;
use vstd::string::*;

verus! {

/// What the caller should do next to advance a [`SenderSession`].
pub enum SenderStep<C: SenderStates> {
    /// Persist these session events atomically before continuing.
    Save(Vec<SenderEvent<C>>),
    /// Send this HTTP request, then feed the response body back via
    /// [`SenderSession::feed_response`].
    SendRequest(Request),
    /// The directory had no payload yet. Sleep, then call `poll` again.
    Backoff,
    /// Sign and finalize the proposal, then feed it back via
    /// [`SenderSession::feed_signed_psbt`].
    SignAndFinalize(Psbt),
    /// The session reached its terminal success state. The transaction is now
    /// available via [`SenderSession::final_tx`].
    Done,
    /// The session failed terminally. Later `poll` calls will return
    /// [`Error::Terminated`].
    Failed(Error),
}

/// Where a sender session stands.
pub enum SenderState<C: SenderStates> {
    /// Need to post the original PSBT to the directory.
    PostingOriginal(C::WithReplyKey),
    /// Original PSBT sent; awaiting acknowledgement.
    AwaitingPostAck { session: C::WithReplyKey, ctx: C::Context },
    /// Need to poll the directory for the receiver's proposal.
    PollingProposal { session: C::PollingForProposal, pending_backoff: bool },
    /// Poll sent; awaiting the directory's response.
    AwaitingProposalPoll { session: C::PollingForProposal, ctx: C::Context },
    /// Proposal received and validated; awaiting the signed PSBT.
    NeedSignedPsbt { proposal: Psbt },
    /// Terminal success, not reported yet.
    Done,
    /// Terminal failure, not reported yet.
    Failed(Error),
    /// Terminal, and reported.
    Terminated,
}

impl<C: SenderStates> SenderState<C> {
    /// Whether the session has come to its end.
    pub open spec fn is_terminal(self) -> bool {
        self is Done || self is Failed || self is Terminated
    }
}

/// Whether `state` is a failure whose report will say `msg`.
pub open spec fn fails_with<C: SenderStates>(state: SenderState<C>, msg: Seq<char>) -> bool {
    state matches SenderState::Failed(e) && is_payjoin(e, msg)
}

/// What follows from the request that posts the original PSBT.
pub open spec fn post_sent<C: SenderEngine>(
    session: C::WithReplyKey,
    request: Result<(Request, C::Context), CreateRequestError>,
    next: SenderState<C>,
    step: SenderStep<C>,
) -> bool {
    match request {
        Ok((req, ctx)) => next == (SenderState::<C>::AwaitingPostAck { session, ctx }) && step
            == SenderStep::<C>::SendRequest(req),
        Err(e) => next == SenderState::<C>::Terminated && (step matches SenderStep::Failed(err)
            && is_payjoin(err, e.text())),
    }
}

/// What follows from the request that polls for the proposal.
pub open spec fn poll_sent<C: SenderEngine>(
    session: C::PollingForProposal,
    request: Result<(Request, C::Context), CreateRequestError>,
    next: SenderState<C>,
    step: SenderStep<C>,
) -> bool {
    match request {
        Ok((req, ctx)) => next == (SenderState::<C>::AwaitingProposalPoll { session, ctx }) && step
            == SenderStep::<C>::SendRequest(req),
        Err(e) => next == SenderState::<C>::Terminated && (step matches SenderStep::Failed(err)
            && is_payjoin(err, e.text())),
    }
}

/// What a poll does in `state` when no event waits to be saved.
pub open spec fn stepped<C: SenderEngine>(
    relay: String,
    state: SenderState<C>,
    next: SenderState<C>,
    step: SenderStep<C>,
) -> bool {
    match state {
        SenderState::PostingOriginal(session) => exists|request| #[trigger]
            call_ensures(C::create_v2_post_request, (&session, &relay), request) && post_sent(
                session,
                request,
                next,
                step,
            ),
        SenderState::PollingProposal { session, pending_backoff } => if pending_backoff {
            next == (SenderState::<C>::PollingProposal { session, pending_backoff: false }) && step
                == SenderStep::<C>::Backoff
        } else {
            exists|request| #[trigger]
                call_ensures(C::create_poll_request, (&session, &relay), request) && poll_sent(
                    session,
                    request,
                    next,
                    step,
                )
        },
        SenderState::NeedSignedPsbt { proposal } => next == state && step == SenderStep::<
            C,
        >::SignAndFinalize(proposal),
        SenderState::AwaitingPostAck { .. } | SenderState::AwaitingProposalPoll { .. } => next
            == SenderState::<C>::Terminated && (step matches SenderStep::Failed(err) && is_payjoin(
            err,
            "called poll() while awaiting a response"@,
        )),
        SenderState::Done => next == SenderState::<C>::Terminated && step == SenderStep::<C>::Done,
        SenderState::Failed(err) => next == SenderState::<C>::Terminated && step == SenderStep::<
            C,
        >::Failed(err),
        SenderState::Terminated => next == state && step == SenderStep::<C>::Failed(
            Error::Terminated,
        ),
    }
}

/// Where the session goes once the directory has answered to the original PSBT.
pub open spec fn post_acknowledged<C: SenderEngine>(
    outcome: Result<C::PollingForProposal, ApiError<EncapsulationError>>,
    next: SenderState<C>,
) -> bool {
    match outcome {
        Ok(session) => next == (SenderState::<C>::PollingProposal {
            session,
            pending_backoff: false,
        }),
        Err(e) => fails_with(next, api_text(e)),
    }
}

/// Where the session goes once the directory has answered to a poll.
pub open spec fn poll_answered<C: SenderEngine>(
    outcome: Result<
        OptionalTransitionOutcome<Psbt, C::PollingForProposal>,
        ApiError<ResponseFailure>,
    >,
    next: SenderState<C>,
) -> bool {
    match outcome {
        Ok(OptionalTransitionOutcome::Stasis(session)) => next == (SenderState::<
            C,
        >::PollingProposal { session, pending_backoff: true }),
        Ok(OptionalTransitionOutcome::Progress(psbt)) => next == (SenderState::<
            C,
        >::NeedSignedPsbt { proposal: psbt }),
        Err(e) => fails_with(next, api_text(e)),
    }
}

/// What a response does in a `state` that is not terminal: where it leads, and
/// the events it leaves to be saved.
pub open spec fn consumed<C: SenderEngine>(
    state: SenderState<C>,
    body: Seq<u8>,
    next: SenderState<C>,
    recorded: Seq<SenderEvent<C>>,
) -> bool {
    match state {
        SenderState::AwaitingPostAck { session, ctx } => exists|bytes: &[u8], t|
            bytes@ == body && #[trigger] call_ensures(
                C::process_post_response,
                (&session, bytes, &ctx),
                t,
            ) && recorded == t.events(failure_event::<C>())
                && post_acknowledged::<C>(t.outcome(), next),
        SenderState::AwaitingProposalPoll { session, ctx } => exists|bytes: &[u8], t|
            bytes@ == body && #[trigger] call_ensures(
                C::process_poll_response,
                (&session, bytes, &ctx),
                t,
            ) && recorded == t.events(failure_event::<C>())
                && poll_answered::<C>(t.outcome(), next),
        _ => recorded == Seq::<SenderEvent<C>>::empty() && fails_with(
            next,
            "feed_response called in an unexpected state"@,
        ),
    }
}

/// What a finished transaction, or the reason why there is none, amounts to.
pub open spec fn settled(
    outcome: Result<(Vec<u8>, u64), ExtractError>,
    r: Result<(Vec<u8>, u64), Error>,
) -> bool {
    match outcome {
        Ok(result) => r == Ok::<(Vec<u8>, u64), Error>(result),
        Err(ExtractError::Fee(msg)) => r matches Err(e) && is_payjoin(e, msg@),
        Err(ExtractError::Extract(msg)) => r matches Err(e) && is_wallet(
            e,
            "extract_tx after signing: "@ + msg@,
        ),
    }
}

/// What comes of the signed PSBT with text `signed`: the transaction and its fee, or the error.
pub open spec fn extracted(signed: Seq<char>, r: Result<(Vec<u8>, u64), Error>) -> bool {
    match psbt_fee(signed) {
        Err(msg) => r matches Err(e) && is_payjoin(e, msg),
        Ok(fee) => match psbt_tx(signed) {
            Err(msg) => r matches Err(e) && is_wallet(e, "extract_tx after signing: "@ + msg),
            Ok(tx) => r matches Ok((bytes, sats)) && bytes@ == tx && sats == fee,
        },
    }
}

/// Where a replayed log leaves the session.
pub open spec fn resumed<C: SenderStates>(
    session: CoreSendSession<C>,
    state: SenderState<C>,
) -> bool {
    match session {
        CoreSendSession::WithReplyKey(s) => state == SenderState::<C>::PostingOriginal(s),
        CoreSendSession::PollingForProposal(s) => state == (SenderState::<C>::PollingProposal {
            session: s,
            pending_backoff: false,
        }),
        CoreSendSession::Closed(SessionOutcome::Success(psbt)) => state == (SenderState::<
            C,
        >::NeedSignedPsbt { proposal: psbt }),
        CoreSendSession::Closed(outcome) => fails_with(
            state,
            "session previously closed: "@ + outcome.name(),
        ),
    }
}

impl<C: SenderEngine> SenderState<C> {
    /// The state after the request that posts the original PSBT was made, and
    /// what the caller is told.
    pub fn after_post(
        session: C::WithReplyKey,
        request: Result<(Request, C::Context), CreateRequestError>,
    ) -> (r: (SenderState<C>, SenderStep<C>))
        ensures
            post_sent(session, request, r.0, r.1),
    {
        match request {
            Ok((req, ctx)) => (
                SenderState::AwaitingPostAck { session, ctx },
                SenderStep::SendRequest(req),
            ),
            Err(e) => (SenderState::Terminated, SenderStep::Failed(Error::payjoin(e))),
        }
    }

    /// The state after the request that polls for the proposal was made, and
    /// what the caller is told.
    pub fn after_poll(
        session: C::PollingForProposal,
        request: Result<(Request, C::Context), CreateRequestError>,
    ) -> (r: (SenderState<C>, SenderStep<C>))
        ensures
            poll_sent(session, request, r.0, r.1),
    {
        match request {
            Ok((req, ctx)) => (
                SenderState::AwaitingProposalPoll { session, ctx },
                SenderStep::SendRequest(req),
            ),
            Err(e) => (SenderState::Terminated, SenderStep::Failed(Error::payjoin(e))),
        }
    }

    /// The state after the directory answered to the original PSBT.
    pub fn after_acknowledgement(
        outcome: Result<C::PollingForProposal, ApiError<EncapsulationError>>,
    ) -> (r: SenderState<C>)
        ensures
            post_acknowledged(outcome, r),
    {
        match outcome {
            Ok(session) => SenderState::PollingProposal { session, pending_backoff: false },
            Err(e) => SenderState::Failed(Error::from_api(e)),
        }
    }

    /// The state after the directory answered to a poll.
    pub fn after_answer(
        outcome: Result<
            OptionalTransitionOutcome<Psbt, C::PollingForProposal>,
            ApiError<ResponseFailure>,
        >,
    ) -> (r: SenderState<C>)
        ensures
            poll_answered(outcome, r),
    {
        match outcome {
            Ok(OptionalTransitionOutcome::Stasis(session)) => SenderState::PollingProposal {
                session,
                pending_backoff: true,
            },
            Ok(OptionalTransitionOutcome::Progress(psbt)) => SenderState::NeedSignedPsbt {
                proposal: psbt,
            },
            Err(e) => SenderState::Failed(Error::from_api(e)),
        }
    }

    /// The state in which a replayed session goes on.
    pub fn after_replay(session: CoreSendSession<C>) -> (r: SenderState<C>)
        ensures
            resumed(session, r),
    {
        match session {
            CoreSendSession::WithReplyKey(s) => SenderState::PostingOriginal(s),
            CoreSendSession::PollingForProposal(s) => SenderState::PollingProposal {
                session: s,
                pending_backoff: false,
            },
            CoreSendSession::Closed(SessionOutcome::Success(psbt)) => SenderState::NeedSignedPsbt {
                proposal: psbt,
            },
            CoreSendSession::Closed(outcome) => SenderState::Failed(
                Error::Payjoin(
                    "session previously closed: ".to_owned().concat(outcome.name_text()),
                ),
            ),
        }
    }
}

/// Sans-IO state machine for the sender role.
///
/// Every advance of the protocol produces an event. The session buffers them
/// and surfaces them via [`SenderStep::Save`]; the caller decides how to
/// persist. To resume after a crash, replay the saved log via
/// [`Self::resume_from_events`].
pub struct SenderSession<C: SenderEngine> {
    ohttp_relay: String,
    state: SenderState<C>,
    result: Option<(Vec<u8>, u64)>,
    events: Vec<SenderEvent<C>>,
}

/// What a sender session is.
#[verifier::ext_equal]
pub struct SenderSessionView<C: SenderEngine> {
    /// The relay that requests go through.
    pub ohttp_relay: String,
    /// Where the session stands.
    pub state: SenderState<C>,
    /// The finished transaction and its fee.
    pub result: Option<(Vec<u8>, u64)>,
    /// Events that the caller has not been handed yet.
    pub events: Seq<SenderEvent<C>>,
}

impl<C: SenderEngine> View for SenderSession<C> {
    type V = SenderSessionView<C>;

    closed spec fn view(&self) -> SenderSessionView<C> {
        SenderSessionView {
            ohttp_relay: self.ohttp_relay,
            state: self.state,
            result: self.result,
            events: self.events@,
        }
    }
}

/// What `SenderSession::new` returns for an answer of the protocol.
pub open spec fn built<C: SenderEngine>(
    ohttp_relay: String,
    answer: Result<Advance<C::Payload, C::WithReplyKey>, BuildFailure>,
    r: Result<SenderSession<C>, Error>,
) -> bool {
    match answer {
        Ok(advance) => r matches Ok(s) && s@ == (SenderSessionView::<C> {
            ohttp_relay,
            state: SenderState::PostingOriginal(advance.state),
            result: None,
            events: seq![SenderEvent::<C>::Advanced(advance.event)],
        }),
        Err(e) => r matches Err(err) && is_payjoin(err, e.text()),
    }
}

/// What `SenderSession::resume_from_events` returns for a replayed log.
pub open spec fn woken<C: SenderEngine>(
    ohttp_relay: String,
    replayed: Result<(CoreSendSession<C>, C::History), ReplayError>,
    r: Result<SenderSession<C>, Error>,
) -> bool {
    match replayed {
        Ok((session, _)) => r matches Ok(s) && {
            &&& s@.ohttp_relay == ohttp_relay
            &&& resumed(session, s@.state)
            &&& s@.result is None
            &&& s@.events == Seq::<SenderEvent<C>>::empty()
        },
        Err(e) => r matches Err(err) && is_payjoin(err, e.debug@),
    }
}

/// What `SenderSession::poll` does to a session and returns.
pub open spec fn polled<C: SenderEngine>(
    before: SenderSessionView<C>,
    after: SenderSessionView<C>,
    step: SenderStep<C>,
) -> bool {
    if before.events.len() > 0 {
        &&& step matches SenderStep::Save(events) && events@ == before.events
        &&& after == (SenderSessionView::<C> { events: Seq::empty(), ..before })
    } else {
        &&& stepped(before.ohttp_relay, before.state, after.state, step)
        &&& after == (SenderSessionView::<C> { state: after.state, ..before })
    }
}

/// What `SenderSession::feed_response` does to a session and returns.
pub open spec fn fed<C: SenderEngine>(
    before: SenderSessionView<C>,
    body: Seq<u8>,
    after: SenderSessionView<C>,
    r: Result<(), Error>,
) -> bool {
    if before.state.is_terminal() {
        r == Err::<(), Error>(Error::Terminated) && after == before
    } else {
        &&& r is Ok
        &&& after.ohttp_relay == before.ohttp_relay
        &&& after.result == before.result
        &&& exists|recorded: Seq<SenderEvent<C>>|
            after.events == before.events + recorded && #[trigger] consumed(
                before.state,
                body,
                after.state,
                recorded,
            )
    }
}

/// What `SenderSession::feed_signed_psbt` does to a session and returns.
pub open spec fn signed_fed<C: SenderEngine>(
    before: SenderSessionView<C>,
    signed: Seq<char>,
    after: SenderSessionView<C>,
    r: Result<(), Error>,
) -> bool {
    if before.state.is_terminal() {
        r == Err::<(), Error>(Error::Terminated) && after == before
    } else if before.state is NeedSignedPsbt {
        &&& r is Ok
        &&& after.ohttp_relay == before.ohttp_relay
        &&& after.events == before.events
        &&& exists|outcome| #[trigger]
            extracted(signed, outcome) && match outcome {
                Ok(result) => after.state == SenderState::<C>::Done && after.result == Some(result),
                Err(e) => after.state == SenderState::<C>::Failed(e) && after.result
                    == before.result,
            }
    } else {
        &&& r matches Err(e) && is_payjoin(e, "feed_signed_psbt called in an unexpected state"@)
        &&& after == before
    }
}

impl<C: SenderEngine> SenderSession<C> {
    /// Builds a new session.
    ///
    /// `psbt` is the sender's original (signed and finalized) PSBT paying
    /// `uri`. `min_fee_rate` is the lowest fee rate, in sat/kwu, that the
    /// sender will accept in the proposal.
    pub fn new(psbt: Psbt, uri: PjUri, ohttp_relay: String, min_fee_rate: u64) -> (r: Result<
        Self,
        Error,
    >)
        ensures
            exists|params: SenderParams, answer| #[trigger]
                call_ensures(C::build_recommended, (&params, min_fee_rate), answer) && params == (
                SenderParams { psbt, uri, disable_output_substitution: false }) && built(
                    ohttp_relay,
                    answer,
                    r,
                ),
    {
        let params = SenderParams { psbt, uri, disable_output_substitution: false };
        Self::from_build(ohttp_relay, C::build_recommended(&params, min_fee_rate))
    }

    /// The session that the protocol's answer to a build makes.
    pub fn from_build(
        ohttp_relay: String,
        answer: Result<Advance<C::Payload, C::WithReplyKey>, BuildFailure>,
    ) -> (r: Result<Self, Error>)
        ensures
            built(ohttp_relay, answer, r),
    {
        match answer {
            Ok(advance) => {
                let mut events: Vec<SenderEvent<C>> = Vec::new();
                record(&mut events, PersistAction::Save(SenderEvent::<C>::Advanced(advance.event)));
                Ok(
                    SenderSession {
                        ohttp_relay,
                        state: SenderState::PostingOriginal(advance.state),
                        result: None,
                        events,
                    },
                )
            },
            Err(e) => Err(Error::payjoin(e)),
        }
    }

    /// Resumes a session from its event log.
    ///
    /// `events` should be the complete sequence of events recorded from
    /// [`SenderStep::Save`], in order. If the log ends in success, the session
    /// goes on at the signing of the proposal: the caller must produce the
    /// signed PSBT again.
    pub fn resume_from_events(
        events: Vec<SenderEvent<C>>,
        ohttp_relay: String,
        _min_fee_rate: u64,
    ) -> (r: Result<Self, Error>)
        ensures
            exists|replayed| #[trigger]
                call_ensures(C::replay_event_log, (events,), replayed) && woken(
                    ohttp_relay,
                    replayed,
                    r,
                ),
    {
        Self::from_replay(ohttp_relay, C::replay_event_log(events))
    }

    /// The session that a replayed log makes.
    pub fn from_replay(
        ohttp_relay: String,
        replayed: Result<(CoreSendSession<C>, C::History), ReplayError>,
    ) -> (r: Result<Self, Error>)
        ensures
            woken(ohttp_relay, replayed, r),
    {
        match replayed {
            Ok((session, _history)) => Ok(
                SenderSession {
                    ohttp_relay,
                    state: SenderState::after_replay(session),
                    result: None,
                    events: Vec::new(),
                },
            ),
            Err(e) => Err(Error::Payjoin(e.debug)),
        }
    }

    /// The transaction to broadcast, in consensus encoding, once the session is done.
    pub fn final_tx(&self) -> (r: Option<&Vec<u8>>)
        ensures
            match self@.result {
                Some((tx, _)) => r == Some(&tx),
                None => r is None,
            },
    {
        match &self.result {
            Some((tx, _)) => Some(tx),
            None => None,
        }
    }

    /// The network fee in satoshis, once the session is done.
    pub fn fee(&self) -> (r: Option<u64>)
        ensures
            match self@.result {
                Some((_, fee)) => r == Some(fee),
                None => r is None,
            },
    {
        match &self.result {
            Some((_, fee)) => Some(*fee),
            None => None,
        }
    }

    /// Takes the state out, leaving the session terminated.
    fn take_state(&mut self) -> (r: SenderState<C>)
        ensures
            r == old(self)@.state,
            final(self)@ == (SenderSessionView::<C> {
                state: SenderState::Terminated,
                ..old(self)@
            }),
    {
        let mut state = SenderState::Terminated;
        std::mem::swap(&mut state, &mut self.state);
        state
    }

    /// Advances the state machine and reports what the caller should do next.
    /// It is not to be called while a response is awaited: that fails the
    /// session.
    pub fn poll(&mut self) -> (r: SenderStep<C>)
        ensures
            polled(old(self)@, final(self)@, r),
    {
        if self.events.len() > 0 {
            let mut events: Vec<SenderEvent<C>> = Vec::new();
            std::mem::swap(&mut events, &mut self.events);
            return SenderStep::Save(events);
        }
        let state = self.take_state();
        let (next, step) = self.step(state);
        self.state = next;
        step
    }

    /// Feeds back the body of the directory's response to the most recent
    /// [`SenderStep::SendRequest`].
    pub fn feed_response(&mut self, bytes: Vec<u8>) -> (r: Result<(), Error>)
        ensures
            fed(old(self)@, bytes@, final(self)@, r),
    {
        if self.is_terminal() {
            return Err(Error::Terminated);
        }
        let state = self.take_state();
        let next = self.consume_response(state, bytes);
        self.state = next;
        Ok(())
    }

    /// Feeds back the signed and finalized PSBT from
    /// [`SenderStep::SignAndFinalize`]. Every input must be signed and
    /// finalized: the transaction is extracted next.
    pub fn feed_signed_psbt(&mut self, signed: Psbt) -> (r: Result<(), Error>)
        ensures
            signed_fed(old(self)@, signed@, final(self)@, r),
    {
        if self.is_terminal() {
            return Err(Error::Terminated);
        }
        match &self.state {
            SenderState::NeedSignedPsbt { .. } => {},
            _ => {
                return Err(Error::because("feed_signed_psbt called in an unexpected state"));
            },
        }
        match self.extract(signed) {
            Ok(result) => {
                self.result = Some(result);
                self.state = SenderState::Done;
            },
            Err(e) => {
                self.state = SenderState::Failed(e);
            },
        }
        Ok(())
    }

    fn is_terminal(&self) -> (r: bool)
        ensures
            r == self@.state.is_terminal(),
    {
        match &self.state {
            SenderState::Done | SenderState::Failed(_) | SenderState::Terminated => true,
            _ => false,
        }
    }

    fn step(&self, state: SenderState<C>) -> (r: (SenderState<C>, SenderStep<C>))
        ensures
            stepped(self@.ohttp_relay, state, r.0, r.1),
    {
        match state {
            SenderState::PostingOriginal(session) => {
                let request = C::create_v2_post_request(&session, &self.ohttp_relay);
                SenderState::after_post(session, request)
            },
            SenderState::PollingProposal { session, pending_backoff } => {
                if pending_backoff {
                    (
                        SenderState::PollingProposal { session, pending_backoff: false },
                        SenderStep::Backoff,
                    )
                } else {
                    let request = C::create_poll_request(&session, &self.ohttp_relay);
                    SenderState::after_poll(session, request)
                }
            },
            SenderState::NeedSignedPsbt { proposal } => (
                SenderState::NeedSignedPsbt { proposal: proposal.clone() },
                SenderStep::SignAndFinalize(proposal),
            ),
            SenderState::AwaitingPostAck { .. } | SenderState::AwaitingProposalPoll { .. } => (
                SenderState::Terminated,
                SenderStep::Failed(Error::because("called poll() while awaiting a response")),
            ),
            SenderState::Done => (SenderState::Terminated, SenderStep::Done),
            SenderState::Failed(err) => (SenderState::Terminated, SenderStep::Failed(err)),
            SenderState::Terminated => (
                SenderState::Terminated,
                SenderStep::Failed(Error::Terminated),
            ),
        }
    }

    fn consume_response(&mut self, state: SenderState<C>, bytes: Vec<u8>) -> (r: SenderState<C>)
        ensures
            final(self)@.ohttp_relay == old(self)@.ohttp_relay,
            final(self)@.result == old(self)@.result,
            exists|recorded: Seq<SenderEvent<C>>|
                final(self)@.events == old(self)@.events + recorded && #[trigger] consumed(
                    state,
                    bytes@,
                    r,
                    recorded,
                ),
    {
        match state {
            SenderState::AwaitingPostAck { session, ctx } => {
                let t = C::process_post_response(&session, bytes.as_slice(), &ctx);
                let (action, outcome) = t.deconstruct(closing_failure::<C>());
                let ghost recorded = action.events();
                record(&mut self.events, action);
                let next = SenderState::after_acknowledgement(outcome);
                assert(consumed(state, bytes@, next, recorded));
                next
            },
            SenderState::AwaitingProposalPoll { session, ctx } => {
                let t = C::process_poll_response(&session, bytes.as_slice(), &ctx);
                let (action, outcome) = t.deconstruct(closing_failure::<C>());
                let ghost recorded = action.events();
                record(&mut self.events, action);
                let next = SenderState::after_answer(outcome);
                assert(consumed(state, bytes@, next, recorded));
                next
            },
            _ => {
                let next = SenderState::<C>::Failed(
                    Error::because("feed_response called in an unexpected state"),
                );
                assert(consumed(state, bytes@, next, Seq::<SenderEvent<C>>::empty()));
                next
            },
        }
    }

    fn extract(&self, signed: Psbt) -> (r: Result<(Vec<u8>, u64), Error>)
        ensures
            extracted(signed@, r),
    {
        settle(signed.sign_off())
    }
}

/// Sorts the reasons why a signed PSBT gave no transaction: a fee that cannot
/// be computed is the protocol's, the rest is the wallet's.
pub fn settle(outcome: Result<(Vec<u8>, u64), ExtractError>) -> (r: Result<(Vec<u8>, u64), Error>)
    ensures
        settled(outcome, r),
{
    match outcome {
        Ok(result) => Ok(result),
        Err(ExtractError::Fee(msg)) => Err(Error::Payjoin(msg)),
        Err(ExtractError::Extract(msg)) => Err(
            Error::Wallet("extract_tx after signing: ".to_owned().concat(msg.as_str())),
        ),
    }
}

/// Appends the event of `action`, if it has one, to the buffered events.
pub(crate) fn record<E>(events: &mut Vec<E>, action: PersistAction<E>)
    ensures
        final(events)@ == old(events)@ + action.events(),
{
    match action {
        PersistAction::Save(e) | PersistAction::SaveAndClose(e) => {
            events.push(e);
            assert(events@ =~= old(events)@ + seq![e]);
        },
        PersistAction::NoOp => {
            assert(events@ =~= old(events)@ + Seq::<E>::empty());
        },
    }
}

/// Persist before acting: a poll tells the caller to send, to sign, to wait or
/// that all is done only when it holds back no event, and a save hands out all
/// of the held back events, in order, and changes nothing else.
pub proof fn law_save_comes_first<C: SenderEngine>(
    before: SenderSessionView<C>,
    after: SenderSessionView<C>,
    step: SenderStep<C>,
)
    requires
        polled(before, after, step),
    ensures
        step !is Save ==> before.events.len() == 0,
        step matches SenderStep::Save(events) ==> {
            &&& events@ == before.events
            &&& events@.len() > 0
            &&& after.events.len() == 0
            &&& after.state == before.state
            &&& after.result == before.result
        },
{
    if before.events.len() == 0 {
        lemma_step_is_no_save(before.ohttp_relay, before.state, after.state, step);
    }
}

proof fn lemma_step_is_no_save<C: SenderEngine>(
    relay: String,
    state: SenderState<C>,
    next: SenderState<C>,
    step: SenderStep<C>,
)
    requires
        stepped(relay, state, next, step),
    ensures
        step !is Save,
{
}

/// The events that a step hands to the caller.
pub open spec fn handed<C: SenderEngine>(step: SenderStep<C>) -> Seq<SenderEvent<C>> {
    match step {
        SenderStep::Save(events) => events@,
        _ => Seq::empty(),
    }
}

/// No event is lost, doubled or reordered: what a poll hands to the caller,
/// followed by what it still holds back, is what was held back before.
pub proof fn law_no_event_is_lost<C: SenderEngine>(
    before: SenderSessionView<C>,
    after: SenderSessionView<C>,
    step: SenderStep<C>,
)
    requires
        polled(before, after, step),
    ensures
        before.events == handed::<C>(step) + after.events,
        step is Save ==> after.events.len() == 0,
{
    if before.events.len() == 0 {
        lemma_step_is_no_save(before.ohttp_relay, before.state, after.state, step);
    }
    assert(before.events =~= handed::<C>(step) + after.events);
}

/// The end of a session is reported once: the poll after that says that the
/// session has terminated, and so does everything that is fed to it.
pub proof fn law_the_end_is_reported_once<C: SenderEngine>(
    before: SenderSessionView<C>,
    after: SenderSessionView<C>,
    step: SenderStep<C>,
    later: SenderSessionView<C>,
    later_step: SenderStep<C>,
)
    requires
        before.state.is_terminal(),
        before.events.len() == 0,
        polled(before, after, step),
        polled(after, later, later_step),
    ensures
        before.state is Done ==> step is Done,
        before.state matches SenderState::Failed(e) ==> step == SenderStep::<C>::Failed(e),
        later_step == SenderStep::<C>::Failed(Error::Terminated),
        later == after,
        after.result == before.result,
{
}

/// A failure is final: once a poll has reported one, the session has come to
/// its end, and every later poll says that it has terminated.
pub proof fn law_failure_is_final<C: SenderEngine>(
    before: SenderSessionView<C>,
    after: SenderSessionView<C>,
    step: SenderStep<C>,
    later: SenderSessionView<C>,
    later_step: SenderStep<C>,
)
    requires
        polled(before, after, step),
        step is Failed,
        polled(after, later, later_step),
    ensures
        after.state is Terminated,
        later_step == SenderStep::<C>::Failed(Error::Terminated),
        later == after,
{
}

/// Every advance of the protocol leaves one event to be saved: the
/// acknowledgement of the original PSBT and the arrival of the proposal. A poll
/// of the directory that brought nothing leaves none.
pub proof fn law_every_advance_leaves_one_event<C: SenderEngine>(
    before: SenderSessionView<C>,
    body: Seq<u8>,
    after: SenderSessionView<C>,
    r: Result<(), Error>,
)
    requires
        fed(before, body, after, r),
    ensures
        before.state is AwaitingPostAck && after.state is PollingProposal ==> exists|
            e: SenderEvent<C>,
        |
            after.events == #[trigger] before.events.push(e),
        after.state is NeedSignedPsbt ==> exists|e: SenderEvent<C>|
            after.events == #[trigger] before.events.push(e),
        before.state is AwaitingProposalPoll && after.state is PollingProposal ==> after.events
            == before.events,
{
    if !before.state.is_terminal() {
        let recorded = choose|recorded: Seq<SenderEvent<C>>|
            after.events == before.events + recorded && #[trigger] consumed(
                before.state,
                body,
                after.state,
                recorded,
            );
        assert(consumed(before.state, body, after.state, recorded));
        if recorded.len() == 1 {
            assert(after.events =~= before.events.push(recorded[0]));
        }
        if recorded.len() == 0 {
            assert(after.events =~= before.events);
        }
    }
}

/// Nothing that is fed to a session that has come to its end changes it.
pub proof fn law_nothing_moves_the_end<C: SenderEngine>(
    before: SenderSessionView<C>,
    body: Seq<u8>,
    signed: Seq<char>,
    after: SenderSessionView<C>,
    r: Result<(), Error>,
)
    requires
        before.state.is_terminal(),
        fed(before, body, after, r) || signed_fed(before, signed, after, r),
    ensures
        after == before,
        r == Err::<(), Error>(Error::Terminated),
{
}

/// After a poll of the directory that brought nothing, the caller is told to
/// wait exactly once before the next request.
pub proof fn law_one_backoff_per_empty_poll<C: SenderEngine>(
    session: C::PollingForProposal,
    fed_session: SenderSessionView<C>,
    waited: SenderSessionView<C>,
    step: SenderStep<C>,
    later: SenderSessionView<C>,
    later_step: SenderStep<C>,
)
    requires
        poll_answered::<C>(
            Ok(OptionalTransitionOutcome::Stasis(session)),
            fed_session.state,
        ),
        fed_session.events.len() == 0,
        polled(fed_session, waited, step),
        polled(waited, later, later_step),
    ensures
        step is Backoff,
        later_step is SendRequest || later_step is Failed,
{
}

/// What holds of every session: a finished transaction is there from the
/// moment the session is done, and not before.
pub open spec fn result_comes_with_done<C: SenderEngine>(v: SenderSessionView<C>) -> bool {
    &&& v.state is Done ==> v.result is Some
    &&& v.result is Some ==> v.state is Done || v.state is Terminated
}

/// New and resumed sessions have no transaction yet, and every operation keeps
/// to it that there is one from the moment the session is done, and not before.
pub proof fn law_result_comes_with_done<C: SenderEngine>(
    before: SenderSessionView<C>,
    body: Seq<u8>,
    signed: Seq<char>,
    step: SenderStep<C>,
    r: Result<(), Error>,
    after: SenderSessionView<C>,
)
    requires
        result_comes_with_done(before),
        polled(before, after, step) || fed(before, body, after, r) || signed_fed(
            before,
            signed,
            after,
            r,
        ),
    ensures
        result_comes_with_done(after),
{
    if fed(before, body, after, r) && !before.state.is_terminal() {
        let recorded = choose|recorded: Seq<SenderEvent<C>>|
            after.events == before.events + recorded && #[trigger] consumed(
                before.state,
                body,
                after.state,
                recorded,
            );
        assert(consumed(before.state, body, after.state, recorded));
    }
}

/// A session starts without a transaction, whether it is new or resumed.
pub proof fn law_sessions_start_without_result<C: SenderEngine>(
    ohttp_relay: String,
    answer: Result<Advance<C::Payload, C::WithReplyKey>, BuildFailure>,
    replayed: Result<(CoreSendSession<C>, C::History), ReplayError>,
    r: Result<SenderSession<C>, Error>,
)
    requires
        built(ohttp_relay, answer, r) || woken(ohttp_relay, replayed, r),
        r is Ok,
    ensures
        r->Ok_0@.result is None,
        result_comes_with_done(r->Ok_0@),
{
}

/// A log that ends in success leads back to the signing of the same proposal,
/// and the signed PSBT then decides the session as if it had never slept.
pub proof fn law_closed_success_asks_for_the_signature_again<C: SenderEngine>(
    ohttp_relay: String,
    proposal: Psbt,
    history: C::History,
    session: SenderSession<C>,
    after: SenderSessionView<C>,
    step: SenderStep<C>,
)
    requires
        woken(
            ohttp_relay,
            Ok((CoreSendSession::Closed(SessionOutcome::Success(proposal)), history)),
            Ok(session),
        ),
        polled(session@, after, step),
    ensures
        step == SenderStep::<C>::SignAndFinalize(proposal),
        after == session@,
{
}

/// The sender never signs what the protocol has not passed: a session asks for
/// a signature only of the proposal that it holds, and it comes to hold one
/// only from an answer of the directory that the protocol accepted.
pub proof fn law_only_accepted_proposals_are_signed<C: SenderEngine>(
    before: SenderSessionView<C>,
    body: Seq<u8>,
    after: SenderSessionView<C>,
    r: Result<(), Error>,
    proposal: Psbt,
)
    requires
        fed(before, body, after, r),
        after.state == (SenderState::<C>::NeedSignedPsbt { proposal }),
    ensures
        before.state matches SenderState::AwaitingProposalPoll { session, ctx } && exists|
            bytes: &[u8],
            t,
        |
            bytes@ == body && #[trigger] call_ensures(
                C::process_poll_response,
                (&session, bytes, &ctx),
                t,
            ) && t.outcome() == Ok::<
                OptionalTransitionOutcome<Psbt, C::PollingForProposal>,
                ApiError<ResponseFailure>,
            >(OptionalTransitionOutcome::Progress(proposal)),
{
    let recorded = choose|recorded: Seq<SenderEvent<C>>|
        after.events == before.events + recorded && #[trigger] consumed(
            before.state,
            body,
            after.state,
            recorded,
        );
    assert(consumed(before.state, body, after.state, recorded));
}

} // verus!
