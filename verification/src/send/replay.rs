//! Waking up a sender session from its log.
use crate::chain::psbt_written;
use crate::collect::map_all;
use crate::send::buffer::{SenderEventBuffer, SenderSessionEvent};
use crate::send::engine::{
    CoreSendSession, SenderEngine, SenderEvent, SenderStates, SessionOutcome,
};
use crate::send::error::SenderReplayError;
use crate::send::states::{PollingForProposal, WithReplyKey};
use crate::session::ReplayError;
use crate::staging::{opened, BufferIds};
use vstd::prelude::*;
use vstd::std_specs::convert::{FromSpec, FromSpecImpl};

verus! {

/// How a sender session ended.
#[derive(Debug)]
pub struct SenderSessionOutcome(pub SessionOutcome);

impl From<SessionOutcome> for SenderSessionOutcome {
    fn from(value: SessionOutcome) -> (r: Self) {
        SenderSessionOutcome(value)
    }
}

impl FromSpecImpl<SessionOutcome> for SenderSessionOutcome {
    open spec fn obeys_from_spec() -> bool {
        true
    }

    open spec fn from_spec(value: SessionOutcome) -> Self {
        SenderSessionOutcome(value)
    }
}

impl From<SenderSessionOutcome> for SessionOutcome {
    fn from(value: SenderSessionOutcome) -> (r: Self) {
        value.0
    }
}

impl FromSpecImpl<SenderSessionOutcome> for SessionOutcome {
    open spec fn obeys_from_spec() -> bool {
        true
    }

    open spec fn from_spec(value: SenderSessionOutcome) -> Self {
        value.0
    }
}

impl SenderSessionOutcome {
    /// Did the proposal arrive?
    pub fn is_success(&self) -> (r: bool)
        ensures
            r == (self.0 is Success),
    {
        match &self.0 {
            SessionOutcome::Success(_) => true,
            _ => false,
        }
    }

    /// The proposal in base64, if it arrived.
    pub fn success_psbt_base64(&self) -> (r: Option<String>)
        ensures
            match self.0 {
                SessionOutcome::Success(psbt) => r matches Some(text) && psbt_written(psbt@, text@),
                _ => r is None,
            },
    {
        match &self.0 {
            SessionOutcome::Success(psbt) => Some(psbt.to_base64()),
            _ => None,
        }
    }

    /// Did the session fail?
    pub fn is_failure(&self) -> (r: bool)
        ensures
            r == (self.0 is Failure),
    {
        match &self.0 {
            SessionOutcome::Failure => true,
            _ => false,
        }
    }

    /// Was the session cancelled?
    pub fn is_cancelled(&self) -> (r: bool)
        ensures
            r == (self.0 is Cancel),
    {
        match &self.0 {
            SessionOutcome::Cancel => true,
            _ => false,
        }
    }
}

/// Where a sender session stands.
pub enum SendSession<C: SenderStates> {
    /// The original PSBT is ready to be posted.
    WithReplyKey { inner: WithReplyKey<C> },
    /// The proposal is awaited.
    PollingForProposal { inner: PollingForProposal<C> },
    /// The session ended.
    Closed { inner: SenderSessionOutcome },
}

impl<C: SenderStates> From<CoreSendSession<C>> for SendSession<C> {
    fn from(value: CoreSendSession<C>) -> (r: Self) {
        match value {
            CoreSendSession::WithReplyKey(s) => SendSession::WithReplyKey {
                inner: WithReplyKey(s),
            },
            CoreSendSession::PollingForProposal(s) => SendSession::PollingForProposal {
                inner: PollingForProposal(s),
            },
            CoreSendSession::Closed(outcome) => SendSession::Closed {
                inner: SenderSessionOutcome(outcome),
            },
        }
    }
}

impl<C: SenderStates> FromSpecImpl<CoreSendSession<C>> for SendSession<C> {
    open spec fn obeys_from_spec() -> bool {
        true
    }

    open spec fn from_spec(value: CoreSendSession<C>) -> Self {
        match value {
            CoreSendSession::WithReplyKey(s) => SendSession::WithReplyKey {
                inner: WithReplyKey(s),
            },
            CoreSendSession::PollingForProposal(s) => SendSession::PollingForProposal {
                inner: PollingForProposal(s),
            },
            CoreSendSession::Closed(outcome) => SendSession::Closed {
                inner: SenderSessionOutcome(outcome),
            },
        }
    }
}

/// A summary of where a sender session stands.
pub struct SenderSessionStatus<C: SenderStates> {
    /// The summary.
    pub inner: C::Status,
}

/// The endpoint part of a payjoin URI.
pub struct PjParam<C: SenderStates>(pub C::PjParam);

/// What a replayed log says of its session.
pub struct SenderSessionHistory<C: SenderStates>(pub C::History);

impl<C: SenderEngine> SenderSessionHistory<C> {
    /// The original transaction in consensus encoding.
    pub fn fallback_tx(&self) -> (r: Vec<u8>)
        ensures
            call_ensures(C::history_fallback_tx, (&self.0,), r),
    {
        C::history_fallback_tx(&self.0)
    }

    /// The endpoint of the session.
    pub fn pj_param(&self) -> (r: PjParam<C>)
        ensures
            call_ensures(C::history_pj_param, (&self.0,), r.0),
    {
        PjParam(C::history_pj_param(&self.0))
    }

    /// Where the session stands.
    pub fn status(&self) -> (r: SenderSessionStatus<C>)
        ensures
            call_ensures(C::history_status, (&self.0,), r.inner),
    {
        SenderSessionStatus { inner: C::history_status(&self.0) }
    }
}

/// A session as its log leaves it.
pub struct SenderReplayResult<C: SenderStates> {
    state: SendSession<C>,
    session_history: SenderSessionHistory<C>,
    event_count: u64,
}

/// What a replayed session is.
pub struct SenderReplayResultView<C: SenderStates> {
    /// Where the session stands.
    pub state: SendSession<C>,
    /// What the log says of it.
    pub session_history: SenderSessionHistory<C>,
    /// Number of events in the log.
    pub event_count: u64,
}

impl<C: SenderStates> View for SenderReplayResult<C> {
    type V = SenderReplayResultView<C>;

    closed spec fn view(&self) -> SenderReplayResultView<C> {
        SenderReplayResultView {
            state: self.state,
            session_history: self.session_history,
            event_count: self.event_count,
        }
    }
}

impl<C: SenderStates> SenderReplayResult<C> {
    /// Where the session stands.
    pub fn state(&self) -> (r: &SendSession<C>)
        ensures
            *r == self@.state,
    {
        &self.state
    }

    /// What the log says of the session.
    pub fn session_history(&self) -> (r: &SenderSessionHistory<C>)
        ensures
            *r == self@.session_history,
    {
        &self.session_history
    }

    /// Number of events that were replayed.
    pub fn event_count(&self) -> (r: u64)
        ensures
            r == self@.event_count,
    {
        self.event_count
    }

    /// Constructs a buffer with a fresh id whose count of durable events is
    /// that of the replayed log.
    pub fn into_buffer(&self, ids: &mut BufferIds) -> (r: SenderEventBuffer<C>)
        requires
            old(ids)@ < u64::MAX,
        ensures
            opened(old(ids)@, final(ids)@, self@.event_count as nat, r@),
    {
        SenderEventBuffer::after_replay(ids, self.event_count)
    }

    /// Takes the result apart.
    pub fn into_parts(self) -> (r: (SendSession<C>, SenderSessionHistory<C>))
        ensures
            r == (self@.state, self@.session_history),
    {
        (self.state, self.session_history)
    }
}

/// What `replay_sender_event_log` returns for an answer of the protocol.
pub open spec fn log_replayed<C: SenderEngine>(
    event_count: u64,
    answer: Result<(CoreSendSession<C>, C::History), ReplayError>,
    r: Result<SenderReplayResult<C>, SenderReplayError>,
) -> bool {
    match answer {
        Ok((session, history)) => r matches Ok(result) && result@ == (SenderReplayResultView::<C> {
            state: <SendSession<C> as FromSpec<CoreSendSession<C>>>::from_spec(session),
            session_history: SenderSessionHistory(history),
            event_count,
        }),
        Err(e) => r == Err::<SenderReplayResult<C>, SenderReplayError>(
            SenderReplayError::Replay(e.display),
        ),
    }
}

/// Replays a log into the state that it leaves the session in. The caller loads
/// its events from storage however it likes, and reads each of them with
/// [`SenderSessionEvent::from_json`].
pub fn replay_sender_event_log<C: SenderEngine>(events: Vec<SenderSessionEvent<C>>) -> (r: Result<
    SenderReplayResult<C>,
    SenderReplayError,
>)
    ensures
        exists|log: Vec<SenderEvent<C>>, answer| #[trigger]
            call_ensures(C::replay_event_log, (log,), answer) && log@.len() == events@.len() && (
            forall|i: int| 0 <= i < log@.len() ==> #[trigger] log@[i] == events@[i].0)
                && log_replayed::<C>(events@.len() as u64, answer, r),
{
    let event_count: u64 = events.len() as u64;
    let unwrap = |e: SenderSessionEvent<C>| -> (r: SenderEvent<C>)
        ensures
            r == e.0,
        {
            let SenderSessionEvent(event) = e;
            event
        };
    let answer = C::replay_event_log(map_all(events, unwrap));
    match answer {
        Ok((session, history)) => Ok(
            SenderReplayResult {
                state: SendSession::from(session),
                session_history: SenderSessionHistory(history),
                event_count,
            },
        ),
        Err(e) => Err(SenderReplayError::from(e)),
    }
}

} // verus!
