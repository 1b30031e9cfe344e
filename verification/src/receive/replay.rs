//! Waking up a receiver session from its log.
use crate::collect::map_all;
use crate::receive::buffer::{ReceiverEventBuffer, ReceiverSessionEvent};
use crate::receive::engine::{
    CoreReceiveSession, Outcome, ReceiverEngine, ReceiverEvent, ReceiverStates,
};
use crate::receive::error::{HasReplyableError, ReceiverReplayError};
use crate::receive::states::{
    Initialized, MaybeInputsOwned, MaybeInputsSeen, Monitor, OutputsUnknown, PayjoinProposal,
    ProvisionalProposal, UncheckedOriginalPayload, WantsFeeRange, WantsInputs, WantsOutputs,
};
use crate::session::{PjUri, ReplayError};
use crate::staging::{opened, BufferIds};
use vstd::prelude::*;
use vstd::std_specs::convert::{FromSpec, FromSpecImpl};

verus! {

/// How a receiver session ended.
pub struct ReceiverSessionOutcome<C: ReceiverStates> {
    /// The outcome.
    pub inner: Outcome<C>,
}

/// Where a receiver session stands.
pub enum ReceiveSession<C: ReceiverStates> {
    /// The session was created.
    Initialized { inner: Initialized<C> },
    /// The sender's original payload arrived.
    UncheckedOriginalPayload { inner: UncheckedOriginalPayload<C> },
    /// The original transaction can be broadcast.
    MaybeInputsOwned { inner: MaybeInputsOwned<C> },
    /// The sender spends its own coins.
    MaybeInputsSeen { inner: MaybeInputsSeen<C> },
    /// The sender's coins are new.
    OutputsUnknown { inner: OutputsUnknown<C> },
    /// The outputs that pay the receiver are known.
    WantsOutputs { inner: WantsOutputs<C> },
    /// The outputs are settled.
    WantsInputs { inner: WantsInputs<C> },
    /// The inputs are settled.
    WantsFeeRange { inner: WantsFeeRange<C> },
    /// The proposal has to be signed.
    ProvisionalProposal { inner: ProvisionalProposal<C> },
    /// The proposal is ready to be posted.
    PayjoinProposal { inner: PayjoinProposal<C> },
    /// An error can be replied to the sender.
    HasReplyableError { inner: HasReplyableError<C> },
    /// The payment is awaited.
    Monitor { inner: Monitor<C> },
    /// The session ended.
    Closed { inner: ReceiverSessionOutcome<C> },
}

impl<C: ReceiverStates> From<CoreReceiveSession<C>> for ReceiveSession<C> {
    fn from(value: CoreReceiveSession<C>) -> (r: Self) {
        match value {
            CoreReceiveSession::Initialized(s) => ReceiveSession::Initialized {
                inner: Initialized(s),
            },
            CoreReceiveSession::UncheckedOriginalPayload(s) =>
            ReceiveSession::UncheckedOriginalPayload { inner: UncheckedOriginalPayload(s) },
            CoreReceiveSession::MaybeInputsOwned(s) => ReceiveSession::MaybeInputsOwned {
                inner: MaybeInputsOwned(s),
            },
            CoreReceiveSession::MaybeInputsSeen(s) => ReceiveSession::MaybeInputsSeen {
                inner: MaybeInputsSeen(s),
            },
            CoreReceiveSession::OutputsUnknown(s) => ReceiveSession::OutputsUnknown {
                inner: OutputsUnknown(s),
            },
            CoreReceiveSession::WantsOutputs(s) => ReceiveSession::WantsOutputs {
                inner: WantsOutputs(s),
            },
            CoreReceiveSession::WantsInputs(s) => ReceiveSession::WantsInputs {
                inner: WantsInputs(s),
            },
            CoreReceiveSession::WantsFeeRange(s) => ReceiveSession::WantsFeeRange {
                inner: WantsFeeRange(s),
            },
            CoreReceiveSession::ProvisionalProposal(s) => ReceiveSession::ProvisionalProposal {
                inner: ProvisionalProposal(s),
            },
            CoreReceiveSession::PayjoinProposal(s) => ReceiveSession::PayjoinProposal {
                inner: PayjoinProposal(s),
            },
            CoreReceiveSession::HasReplyableError(s) => ReceiveSession::HasReplyableError {
                inner: HasReplyableError(s),
            },
            CoreReceiveSession::Monitor(s) => ReceiveSession::Monitor { inner: Monitor(s) },
            CoreReceiveSession::Closed(outcome) => ReceiveSession::Closed {
                inner: ReceiverSessionOutcome { inner: outcome },
            },
        }
    }
}

impl<C: ReceiverStates> FromSpecImpl<CoreReceiveSession<C>> for ReceiveSession<C> {
    open spec fn obeys_from_spec() -> bool {
        true
    }

    open spec fn from_spec(value: CoreReceiveSession<C>) -> Self {
        match value {
            CoreReceiveSession::Initialized(s) => ReceiveSession::Initialized {
                inner: Initialized(s),
            },
            CoreReceiveSession::UncheckedOriginalPayload(s) =>
            ReceiveSession::UncheckedOriginalPayload { inner: UncheckedOriginalPayload(s) },
            CoreReceiveSession::MaybeInputsOwned(s) => ReceiveSession::MaybeInputsOwned {
                inner: MaybeInputsOwned(s),
            },
            CoreReceiveSession::MaybeInputsSeen(s) => ReceiveSession::MaybeInputsSeen {
                inner: MaybeInputsSeen(s),
            },
            CoreReceiveSession::OutputsUnknown(s) => ReceiveSession::OutputsUnknown {
                inner: OutputsUnknown(s),
            },
            CoreReceiveSession::WantsOutputs(s) => ReceiveSession::WantsOutputs {
                inner: WantsOutputs(s),
            },
            CoreReceiveSession::WantsInputs(s) => ReceiveSession::WantsInputs {
                inner: WantsInputs(s),
            },
            CoreReceiveSession::WantsFeeRange(s) => ReceiveSession::WantsFeeRange {
                inner: WantsFeeRange(s),
            },
            CoreReceiveSession::ProvisionalProposal(s) => ReceiveSession::ProvisionalProposal {
                inner: ProvisionalProposal(s),
            },
            CoreReceiveSession::PayjoinProposal(s) => ReceiveSession::PayjoinProposal {
                inner: PayjoinProposal(s),
            },
            CoreReceiveSession::HasReplyableError(s) => ReceiveSession::HasReplyableError {
                inner: HasReplyableError(s),
            },
            CoreReceiveSession::Monitor(s) => ReceiveSession::Monitor { inner: Monitor(s) },
            CoreReceiveSession::Closed(outcome) => ReceiveSession::Closed {
                inner: ReceiverSessionOutcome { inner: outcome },
            },
        }
    }
}

/// A summary of where a receiver session stands.
pub struct ReceiverSessionStatus<C: ReceiverStates>(pub C::Status);

/// What a replayed log says of its session.
pub struct ReceiverSessionHistory<C: ReceiverStates>(pub C::History);

impl<C: ReceiverEngine> ReceiverSessionHistory<C> {
    /// The payjoin URI of the session.
    pub fn pj_uri(&self) -> (r: PjUri)
        ensures
            call_ensures(C::history_pj_uri, (&self.0,), r),
    {
        C::history_pj_uri(&self.0)
    }

    /// The original transaction, in consensus encoding, if it arrived.
    pub fn fallback_tx(&self) -> (r: Option<Vec<u8>>)
        ensures
            call_ensures(C::history_fallback_tx, (&self.0,), r),
    {
        C::history_fallback_tx(&self.0)
    }

    /// Where the session stands.
    pub fn status(&self) -> (r: ReceiverSessionStatus<C>)
        ensures
            call_ensures(C::history_status, (&self.0,), r.0),
    {
        ReceiverSessionStatus(C::history_status(&self.0))
    }
}

/// A session as its log leaves it.
pub struct ReplayResult<C: ReceiverStates> {
    state: ReceiveSession<C>,
    session_history: ReceiverSessionHistory<C>,
    event_count: u64,
}

/// What a replayed session is.
pub struct ReplayResultView<C: ReceiverStates> {
    /// Where the session stands.
    pub state: ReceiveSession<C>,
    /// What the log says of it.
    pub session_history: ReceiverSessionHistory<C>,
    /// Number of events in the log.
    pub event_count: u64,
}

impl<C: ReceiverStates> View for ReplayResult<C> {
    type V = ReplayResultView<C>;

    closed spec fn view(&self) -> ReplayResultView<C> {
        ReplayResultView {
            state: self.state,
            session_history: self.session_history,
            event_count: self.event_count,
        }
    }
}

impl<C: ReceiverStates> ReplayResult<C> {
    /// Where the session stands.
    pub fn state(&self) -> (r: &ReceiveSession<C>)
        ensures
            *r == self@.state,
    {
        &self.state
    }

    /// What the log says of the session.
    pub fn session_history(&self) -> (r: &ReceiverSessionHistory<C>)
        ensures
            *r == self@.session_history,
    {
        &self.session_history
    }

    /// Number of events that were replayed.
    pub fn event_count(&self) -> (r: u64)
        ensures
            r == self@.event_count,
    {
        self.event_count
    }

    /// Constructs a buffer with a fresh id whose count of durable events is
    /// that of the replayed log.
    pub fn new_event_buffer(&self, ids: &mut BufferIds) -> (r: ReceiverEventBuffer<C>)
        requires
            old(ids)@ < u64::MAX,
        ensures
            opened(old(ids)@, final(ids)@, self@.event_count as nat, r@),
    {
        ReceiverEventBuffer::after_replay(ids, self.event_count)
    }

    /// Takes the result apart.
    pub fn into_parts(self) -> (r: (ReceiveSession<C>, ReceiverSessionHistory<C>))
        ensures
            r == (self@.state, self@.session_history),
    {
        (self.state, self.session_history)
    }
}

/// Whether the protocol can read an event from `json`.
pub open spec fn readable<C: ReceiverEngine>(json: String) -> bool {
    exists|event: ReceiverEvent<C>| #[trigger]
        call_ensures(C::event_from_json, (&json,), Ok::<ReceiverEvent<C>, String>(event))
}

/// What reading the events of a stored log may return: all of them, in order,
/// or what is wrong with the first that cannot be read.
pub open spec fn events_parsed<C: ReceiverEngine>(
    raw: Seq<String>,
    r: Result<Vec<ReceiverSessionEvent<C>>, ReceiverReplayError>,
) -> bool {
    match r {
        Ok(events) => {
            &&& events@.len() == raw.len()
            &&& forall|i: int|
                0 <= i < raw.len() ==> call_ensures(
                    C::event_from_json,
                    (&raw[i],),
                    Ok::<ReceiverEvent<C>, String>((#[trigger] events@[i]).0),
                )
        },
        Err(e) => exists|i: int, msg: String|
            {
                &&& 0 <= i < raw.len()
                &&& #[trigger] call_ensures(
                    C::event_from_json,
                    (&raw[i],),
                    Err::<ReceiverEvent<C>, String>(msg),
                )
                &&& e == ReceiverReplayError::StorageSerde(msg)
                &&& forall|j: int| 0 <= j < i ==> readable::<C>(#[trigger] raw[j])
            },
    }
}

/// Reads the events of a stored log from JSON.
pub fn parse_receiver_events<C: ReceiverEngine>(raw: Vec<String>) -> (r: Result<
    Vec<ReceiverSessionEvent<C>>,
    ReceiverReplayError,
>)
    ensures
        events_parsed::<C>(raw@, r),
{
    let mut parsed: Vec<ReceiverSessionEvent<C>> = Vec::new();
    let n: usize = raw.len();
    for i in 0..n
        invariant
            n == raw@.len(),
            parsed@.len() == i,
            forall|j: int|
                0 <= j < i ==> call_ensures(
                    C::event_from_json,
                    (&raw@[j],),
                    Ok::<ReceiverEvent<C>, String>((#[trigger] parsed@[j]).0),
                ),
    {
        match C::event_from_json(&raw[i]) {
            Ok(event) => parsed.push(ReceiverSessionEvent(event)),
            Err(msg) => {
                let r = Err(ReceiverReplayError::storage_serde(msg));
                assert(call_ensures(
                    C::event_from_json,
                    (&raw@[i as int],),
                    Err::<ReceiverEvent<C>, String>(msg),
                ));
                assert forall|j: int| 0 <= j < i implies readable::<C>(#[trigger] raw@[j]) by {
                    let event = parsed@[j].0;
                    assert(call_ensures(
                        C::event_from_json,
                        (&raw@[j],),
                        Ok::<ReceiverEvent<C>, String>(event),
                    ));
                }
                assert(events_parsed::<C>(raw@, r));
                return r;
            },
        }
    }
    Ok(parsed)
}

/// What `replay_receiver_event_log` returns for an answer of the protocol.
pub open spec fn log_replayed<C: ReceiverEngine>(
    event_count: u64,
    answer: Result<(CoreReceiveSession<C>, C::History), ReplayError>,
    r: Result<ReplayResult<C>, ReceiverReplayError>,
) -> bool {
    match answer {
        Ok((session, history)) => r matches Ok(result) && result@ == (ReplayResultView::<C> {
            state: <ReceiveSession<C> as FromSpec<CoreReceiveSession<C>>>::from_spec(session),
            session_history: ReceiverSessionHistory(history),
            event_count,
        }),
        Err(e) => r == Err::<ReplayResult<C>, ReceiverReplayError>(
            ReceiverReplayError::Replay(e.display),
        ),
    }
}

/// Replays a log into the state that it leaves the session in. The caller loads
/// its events from storage however it likes.
pub fn replay_receiver_event_log<C: ReceiverEngine>(events: Vec<ReceiverSessionEvent<C>>) -> (r:
    Result<ReplayResult<C>, ReceiverReplayError>)
    ensures
        exists|log: Vec<ReceiverEvent<C>>, answer| #[trigger]
            call_ensures(C::replay_event_log, (log,), answer) && log@.len() == events@.len() && (
            forall|i: int| 0 <= i < log@.len() ==> #[trigger] log@[i] == events@[i].0)
                && log_replayed::<C>(events@.len() as u64, answer, r),
{
    let event_count: u64 = events.len() as u64;
    let unwrap = |e: ReceiverSessionEvent<C>| -> (r: ReceiverEvent<C>)
        ensures
            r == e.0,
        {
            let ReceiverSessionEvent(event) = e;
            event
        };
    let log = map_all(events, unwrap);
    let answer = C::replay_event_log(log);
    match answer {
        Ok((session, history)) => Ok(
            ReplayResult {
                state: ReceiveSession::from(session),
                session_history: ReceiverSessionHistory(history),
                event_count,
            },
        ),
        Err(e) => Err(ReceiverReplayError::from(e)),
    }
}

/// Whether `state` is `session`: of the same kind, and with the same inside.
pub open spec fn same_session<C: ReceiverStates>(
    session: CoreReceiveSession<C>,
    state: ReceiveSession<C>,
) -> bool {
    match (session, state) {
        (CoreReceiveSession::Initialized(s), ReceiveSession::Initialized { inner }) => inner.0 == s,
        (
            CoreReceiveSession::UncheckedOriginalPayload(s),
            ReceiveSession::UncheckedOriginalPayload { inner },
        ) => inner.0 == s,
        (CoreReceiveSession::MaybeInputsOwned(s), ReceiveSession::MaybeInputsOwned { inner }) => inner.0
            == s,
        (CoreReceiveSession::MaybeInputsSeen(s), ReceiveSession::MaybeInputsSeen { inner }) => inner.0
            == s,
        (CoreReceiveSession::OutputsUnknown(s), ReceiveSession::OutputsUnknown { inner }) => inner.0
            == s,
        (CoreReceiveSession::WantsOutputs(s), ReceiveSession::WantsOutputs { inner }) => inner.0
            == s,
        (CoreReceiveSession::WantsInputs(s), ReceiveSession::WantsInputs { inner }) => inner.0 == s,
        (CoreReceiveSession::WantsFeeRange(s), ReceiveSession::WantsFeeRange { inner }) => inner.0
            == s,
        (CoreReceiveSession::ProvisionalProposal(s), ReceiveSession::ProvisionalProposal { inner }) => inner.0
            == s,
        (CoreReceiveSession::PayjoinProposal(s), ReceiveSession::PayjoinProposal { inner }) => inner.0
            == s,
        (CoreReceiveSession::HasReplyableError(s), ReceiveSession::HasReplyableError { inner }) => inner.0
            == s,
        (CoreReceiveSession::Monitor(s), ReceiveSession::Monitor { inner }) => inner.0 == s,
        (CoreReceiveSession::Closed(outcome), ReceiveSession::Closed { inner }) => inner.inner
            == outcome,
        _ => false,
    }
}

/// Replaying keeps what the protocol says of the session: the events reach it
/// in their order, each state keeps its kind and what it holds, and a session
/// that ended keeps its outcome. The history comes out as it is, and the events
/// are counted.
pub proof fn law_replaying_keeps_the_session<C: ReceiverEngine>(
    events: Vec<ReceiverSessionEvent<C>>,
    r: Result<ReplayResult<C>, ReceiverReplayError>,
)
    requires
        call_ensures(replay_receiver_event_log::<C>, (events,), r),
    ensures
        exists|
            log: Vec<ReceiverEvent<C>>,
            answer: Result<(CoreReceiveSession<C>, C::History), ReplayError>,
        | #[trigger]
            call_ensures(C::replay_event_log, (log,), answer) && {
                &&& log@.len() == events@.len()
                &&& forall|i: int| 0 <= i < log@.len() ==> #[trigger] log@[i] == events@[i].0
                &&& match answer {
                    Ok((session, history)) => r is Ok && r->Ok_0@.event_count == events@.len()
                        && r->Ok_0@.session_history.0 == history && same_session(
                        session,
                        r->Ok_0@.state,
                    ),
                    Err(e) => r matches Err(ReceiverReplayError::Replay(msg)) && msg == e.display,
                }
            },
{
    assert(events.len() == events@.len());
}

/// What a replayed session shows and hands over is what it holds; the buffer
/// for its next events counts those of the log as durable.
pub proof fn law_replayed_sessions_come_apart<C: ReceiverStates>(
    result: ReplayResult<C>,
    state: &ReceiveSession<C>,
    history: &ReceiverSessionHistory<C>,
    count: u64,
    parts: (ReceiveSession<C>, ReceiverSessionHistory<C>),
    ids_before: nat,
    ids_after: nat,
    buffer: ReceiverEventBuffer<C>,
)
    requires
        call_ensures(ReplayResult::<C>::state, (&result,), state),
        call_ensures(ReplayResult::<C>::session_history, (&result,), history),
        call_ensures(ReplayResult::<C>::event_count, (&result,), count),
        call_ensures(ReplayResult::<C>::into_parts, (result,), parts),
        exists|ids: &mut BufferIds| #[trigger]
            call_ensures(ReplayResult::<C>::new_event_buffer, (&result, ids), buffer) && (*ids)@
                == ids_before && (*final(ids))@ == ids_after,
    ensures
        *state == result@.state,
        *history == result@.session_history,
        count == result@.event_count,
        parts.0 == *state,
        parts.1 == *history,
        buffer@.log.pending.len() == 0,
        buffer@.log.committed == count,
        buffer@.id == ids_before,
        ids_after == ids_before + 1,
{
}

/// A stored log is read all or not at all: every event in its order, or what is
/// wrong with the first that cannot be read.
pub proof fn law_stored_logs_are_read_in_order<C: ReceiverEngine>(
    raw: Vec<String>,
    r: Result<Vec<ReceiverSessionEvent<C>>, ReceiverReplayError>,
)
    requires
        call_ensures(parse_receiver_events::<C>, (raw,), r),
    ensures
        r matches Ok(events) ==> events@.len() == raw@.len() && forall|i: int|
            0 <= i < raw@.len() ==> call_ensures(
                C::event_from_json,
                (&raw@[i],),
                Ok((#[trigger] events@[i]).0),
            ),
        r matches Err(e) ==> (e matches ReceiverReplayError::StorageSerde(msg) && exists|
            read: Seq<ReceiverEvent<C>>,
        | #[trigger]
            read.len() < raw@.len() && call_ensures(
                C::event_from_json,
                (&raw@[read.len() as int],),
                Err(msg),
            ) && forall|j: int|
                0 <= j < read.len() ==> call_ensures(
                    C::event_from_json,
                    (&raw@[j],),
                    Ok(#[trigger] read[j]),
                )),
        (forall|i: int, event: Result<ReceiverEvent<C>, String>|
            0 <= i < raw@.len() && #[trigger] call_ensures(
                C::event_from_json,
                (&raw@[i],),
                event,
            ) ==> event is Ok) ==> r is Ok,
{
    if let Err(e) = r {
        let (i, msg) = choose|i: int, msg: String|
            {
                &&& 0 <= i < raw@.len()
                &&& #[trigger] call_ensures(
                    C::event_from_json,
                    (&raw@[i],),
                    Err::<ReceiverEvent<C>, String>(msg),
                )
                &&& e == ReceiverReplayError::StorageSerde(msg)
                &&& forall|j: int| 0 <= j < i ==> readable::<C>(#[trigger] raw@[j])
            };
        let read = Seq::new(
            i as nat,
            |j: int|
                choose|event: ReceiverEvent<C>| #[trigger]
                    call_ensures(
                        C::event_from_json,
                        (&raw@[j],),
                        Ok::<ReceiverEvent<C>, String>(event),
                    ),
        );
        assert forall|j: int| 0 <= j < read.len() implies call_ensures(
            C::event_from_json,
            (&raw@[j],),
            Ok(#[trigger] read[j]),
        ) by {
            assert(readable::<C>(raw@[j]));
        }
        assert(read.len() == i);
    }
}

/// What the history of a session tells is what the protocol says of it.
pub proof fn law_history_is_the_protocols<C: ReceiverEngine>(
    history: &ReceiverSessionHistory<C>,
    uri: PjUri,
    tx: Option<Vec<u8>>,
    status: ReceiverSessionStatus<C>,
)
    ensures
        call_ensures(ReceiverSessionHistory::<C>::pj_uri, (history,), uri) ==> call_ensures(
            C::history_pj_uri,
            (&history.0,),
            uri,
        ),
        call_ensures(ReceiverSessionHistory::<C>::fallback_tx, (history,), tx) ==> call_ensures(
            C::history_fallback_tx,
            (&history.0,),
            tx,
        ),
        call_ensures(ReceiverSessionHistory::<C>::status, (history,), status) ==> call_ensures(
            C::history_status,
            (&history.0,),
            status.0,
        ),
{
}

/// What a log is replayed into keeps its kind and what it holds.
pub proof fn law_replayed_states_keep_their_kind<C: ReceiverStates>(
    session: CoreReceiveSession<C>,
    state: ReceiveSession<C>,
)
    requires
        call_ensures(<ReceiveSession<C> as From<CoreReceiveSession<C>>>::from, (session,), state),
    ensures
        same_session(session, state),
{
}

} // verus!
