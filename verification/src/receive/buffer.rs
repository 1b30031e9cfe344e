//! The receiver's events, the buffer they are queued in, and the states that
//! are held back until their event is durable.
use crate::error::{ProvisionalConfirmError, SerdeJsonError};
use crate::persist::{EventBuffer, EventBufferView, PersistAction, ProvisionalView};
use crate::receive::engine::{ReceiverEngine, ReceiverEvent, ReceiverStates, SessionOutcome};
use crate::receive::states::{Initialized, PayjoinProposal};
use crate::staging::{handed_out, opened, BufferIds, NumberedBufferView, Staged, StagedView};
use vstd::prelude::*;

verus! {

/// An event of a receiver session.
pub struct ReceiverSessionEvent<C: ReceiverStates>(pub ReceiverEvent<C>);

/// What writing an event as JSON may return.
pub open spec fn event_written<C: ReceiverEngine>(
    event: ReceiverEvent<C>,
    r: Result<String, SerdeJsonError>,
) -> bool {
    exists|json: Result<String, String>| #[trigger]
        call_ensures(C::event_to_json, (&event,), json) && r == (match json {
            Ok(text) => Ok::<String, SerdeJsonError>(text),
            Err(msg) => Err(SerdeJsonError { msg }),
        })
}

/// What reading an event from JSON may return.
pub open spec fn event_read<C: ReceiverEngine>(
    json: String,
    r: Result<ReceiverSessionEvent<C>, SerdeJsonError>,
) -> bool {
    exists|event: Result<ReceiverEvent<C>, String>| #[trigger]
        call_ensures(C::event_from_json, (&json,), event) && r == (match event {
            Ok(e) => Ok::<ReceiverSessionEvent<C>, SerdeJsonError>(ReceiverSessionEvent(e)),
            Err(msg) => Err(SerdeJsonError { msg }),
        })
}

/// Whether an event can be written as JSON.
pub open spec fn writable<C: ReceiverEngine>(event: ReceiverEvent<C>) -> bool {
    exists|text: String| #[trigger] event_written::<C>(event, Ok::<String, SerdeJsonError>(text))
}

/// Whether `e` is what is wrong with the `i`th of `events`, all before it
/// having been written.
pub open spec fn first_unwritable<C: ReceiverEngine>(
    events: Seq<ReceiverEvent<C>>,
    i: int,
    e: SerdeJsonError,
) -> bool {
    &&& 0 <= i < events.len()
    &&& event_written::<C>(events[i], Err::<String, SerdeJsonError>(e))
    &&& forall|j: int| 0 <= j < i ==> writable::<C>(#[trigger] events[j])
}

/// What writing `events` as JSON may return: all of them, in order, or what is
/// wrong with the first that cannot be written.
pub open spec fn events_written<C: ReceiverEngine>(
    events: Seq<ReceiverEvent<C>>,
    r: Result<Vec<String>, SerdeJsonError>,
) -> bool {
    match r {
        Ok(texts) => texts@.len() == events.len() && forall|i: int|
            0 <= i < events.len() ==> event_written::<C>(
                events[i],
                Ok::<String, SerdeJsonError>(#[trigger] texts@[i]),
            ),
        Err(e) => exists|i: int| #[trigger] first_unwritable::<C>(events, i, e),
    }
}

impl<C: ReceiverEngine> ReceiverSessionEvent<C> {
    /// Writes the event as JSON, for storage.
    pub fn to_json(&self) -> (r: Result<String, SerdeJsonError>)
        ensures
            event_written::<C>(self.0, r),
    {
        match C::event_to_json(&self.0) {
            Ok(text) => Ok(text),
            Err(msg) => Err(SerdeJsonError { msg }),
        }
    }

    /// Reads an event from JSON.
    pub fn from_json(json: String) -> (r: Result<Self, SerdeJsonError>)
        ensures
            event_read::<C>(json, r),
    {
        match C::event_from_json(&json) {
            Ok(event) => Ok(ReceiverSessionEvent(event)),
            Err(msg) => Err(SerdeJsonError { msg }),
        }
    }
}

/// Caller-owned, sans-IO event buffer for receiver session events.
///
/// Actions push events into it; the caller drains it through its storage. It
/// carries an id, so that a provisional can refuse to be confirmed against an
/// unrelated buffer.
pub struct ReceiverEventBuffer<C: ReceiverStates> {
    id: u64,
    inner: EventBuffer<ReceiverSessionEvent<C>>,
}

impl<C: ReceiverStates> View for ReceiverEventBuffer<C> {
    type V = NumberedBufferView<ReceiverEvent<C>>;

    closed spec fn view(&self) -> NumberedBufferView<ReceiverEvent<C>> {
        NumberedBufferView {
            id: self.id,
            log: EventBufferView {
                pending: self.inner@.pending.map_values(|e: ReceiverSessionEvent<C>| e.0),
                committed: self.inner@.committed,
            },
        }
    }
}

impl<C: ReceiverStates> ReceiverEventBuffer<C> {
    /// Constructs an empty buffer with a fresh id.
    pub fn new(ids: &mut BufferIds) -> (r: Self)
        requires
            old(ids)@ < u64::MAX,
        ensures
            opened(old(ids)@, final(ids)@, 0, r@),
    {
        Self::after_replay(ids, 0)
    }

    /// Constructs a buffer with a fresh id for a session whose first `replayed`
    /// events were already persisted before it woke up. Use after replaying a
    /// log.
    pub fn after_replay(ids: &mut BufferIds, replayed: u64) -> (r: Self)
        requires
            old(ids)@ < u64::MAX,
        ensures
            opened(old(ids)@, final(ids)@, replayed as nat, r@),
    {
        let id: u64 = ids.fresh();
        let r = ReceiverEventBuffer { id, inner: EventBuffer::after_replay(replayed) };
        assert(r@.log =~= EventBufferView::<ReceiverEvent<C>>::replayed(replayed as nat));
        r
    }

    /// Returns `true` if no events are queued for persistence.
    pub fn is_empty(&self) -> (r: bool)
        ensures
            r <==> self@.log.pending.len() == 0,
    {
        self.inner.is_empty()
    }

    /// Number of events queued for persistence (not yet committed).
    pub fn len(&self) -> (r: u64)
        ensures
            r == self@.log.pending.len(),
    {
        self.inner.len() as u64
    }

    /// Total of events durably persisted.
    pub fn committed_count(&self) -> (r: u64)
        ensures
            r == self@.log.committed,
    {
        self.inner.committed_count()
    }

    /// Borrows the queued events, oldest first. The buffer stays as it is;
    /// call `commit(n)` after writing the first `n` of these to storage.
    pub fn peek(&self) -> (r: Vec<&ReceiverSessionEvent<C>>)
        ensures
            r@.len() == self@.log.pending.len(),
            forall|i: int| 0 <= i < r@.len() ==> (#[trigger] r@[i]).0 == self@.log.pending[i],
    {
        self.inner.queued()
    }

    /// Drops the first `n` events, or all if there are fewer. Call only after
    /// storage has committed them.
    pub fn commit(&mut self, n: u64)
        ensures
            final(self)@ == old(self)@.commit(n as nat),
    {
        let queued: usize = self.inner.len();
        let k: usize = if n <= queued as u64 {
            n as usize
        } else {
            queued
        };
        self.inner.commit(k);
        assert(self@ =~= old(self)@.commit(n as nat));
    }

    /// Queues an event.
    pub(crate) fn push(&mut self, event: ReceiverEvent<C>)
        requires
            old(self)@.log.pushed() < u64::MAX,
        ensures
            final(self)@ == old(self)@.push(event),
    {
        let seq: u64 = self.inner.push(ReceiverSessionEvent(event));
        assert(self@ =~= old(self)@.push(event));
    }

    /// Queues the event of `action`, if it has one.
    pub(crate) fn record(&mut self, action: PersistAction<ReceiverEvent<C>>)
        requires
            old(self)@.log.pushed() < u64::MAX,
        ensures
            final(self)@ == old(self)@.record(action),
    {
        match action {
            PersistAction::Save(e) | PersistAction::SaveAndClose(e) => {
                self.push(e);
            },
            PersistAction::NoOp => {},
        }
    }

    /// Queues the event by which a session is cancelled.
    pub(crate) fn push_cancel(&mut self)
        requires
            old(self)@.log.pushed() < u64::MAX,
        ensures
            final(self)@ == old(self)@.push(ReceiverEvent::<C>::Closed(SessionOutcome::Cancel)),
    {
        self.push(ReceiverEvent::<C>::Closed(SessionOutcome::Cancel));
    }

    /// Holds `inner` back until all events queued so far are durable.
    pub(crate) fn hold<T>(&self, inner: T) -> (r: Staged<T>)
        ensures
            r@ == (StagedView {
                held: Some(ProvisionalView { inner, needs_committed: self@.log.pushed() }),
                buffer_id: self@.id,
            }),
    {
        Staged::new(inner, self.inner.pushed_count(), self.id)
    }

    /// Hands out what was held back, if it may be.
    pub(crate) fn release<T>(&self, staged: &mut Staged<T>) -> (r: Result<
        T,
        ProvisionalConfirmError,
    >)
        ensures
            handed_out(old(staged)@, self@, final(staged)@, r),
    {
        staged.confirm(self.id, &self.inner)
    }
}

impl<C: ReceiverEngine> ReceiverEventBuffer<C> {
    /// Writes the queued events as JSON, oldest first. The buffer stays as it
    /// is; call `commit(n)` after writing the first `n` of these to storage.
    pub fn peek_json(&self) -> (r: Result<Vec<String>, SerdeJsonError>)
        ensures
            events_written::<C>(self@.log.pending, r),
    {
        let ghost pending = self@.log.pending;
        let events = self.peek();
        let n: usize = events.len();
        let mut texts: Vec<String> = Vec::new();
        for i in 0..n
            invariant
                n == events@.len(),
                pending == self@.log.pending,
                n == pending.len(),
                forall|j: int| 0 <= j < n ==> (#[trigger] events@[j]).0 == pending[j],
                texts@.len() == i,
                forall|j: int|
                    0 <= j < i ==> event_written::<C>(
                        pending[j],
                        Ok::<String, SerdeJsonError>(#[trigger] texts@[j]),
                    ),
        {
            match events[i].to_json() {
                Ok(text) => texts.push(text),
                Err(e) => {
                    assert forall|j: int| 0 <= j < i implies writable::<C>(
                        #[trigger] pending[j],
                    ) by {
                        assert(event_written::<C>(
                            pending[j],
                            Ok::<String, SerdeJsonError>(texts@[j]),
                        ));
                    }
                    assert(first_unwritable::<C>(pending, i as int, e));
                    let r = Err(e);
                    assert(r->Err_0 == e);
                    return r;
                },
            }
        }
        Ok(texts)
    }
}

/// A receiver staged for persistence by `ReceiverBuilder::build`.
///
/// The payjoin URI cannot be observed until the event that created the session
/// is durable in the buffer that it was pushed into. Drain the buffer, then
/// call [`Self::confirm`].
pub struct ProvisionalInitialized<C: ReceiverStates> {
    pub(crate) inner: Staged<C::Initialized>,
}

impl<C: ReceiverStates> View for ProvisionalInitialized<C> {
    type V = StagedView<C::Initialized>;

    closed spec fn view(&self) -> StagedView<C::Initialized> {
        self.inner@
    }
}

impl<C: ReceiverStates> ProvisionalInitialized<C> {
    /// Wraps a staged state.
    pub(crate) fn staged(inner: Staged<C::Initialized>) -> (r: Self)
        ensures
            r@ == inner@,
    {
        ProvisionalInitialized { inner }
    }

    /// Hands out the receiver if its event is durable in `buf`. If it is not
    /// yet, the provisional stays usable for a retry.
    pub fn confirm(&mut self, buf: &ReceiverEventBuffer<C>) -> (r: Result<
        Initialized<C>,
        ProvisionalConfirmError,
    >)
        ensures
            exists|out: Result<C::Initialized, ProvisionalConfirmError>| #[trigger]
                handed_out(old(self)@, buf@, final(self)@, out) && r == (match out {
                    Ok(s) => Ok::<Initialized<C>, ProvisionalConfirmError>(Initialized(s)),
                    Err(e) => Err(e),
                }),
    {
        let out = buf.release(&mut self.inner);
        assert(handed_out(old(self)@, buf@, self@, out));
        match out {
            Ok(session) => Ok(Initialized(session)),
            Err(e) => Err(e),
        }
    }
}

/// A proposal staged for persistence by `ProvisionalProposal::finalize_proposal`
/// or `finalize_signed_proposal`.
///
/// The proposal cannot be posted to the directory until the event that
/// finalized it is durable in the buffer that it was pushed into. Drain the
/// buffer, then call [`Self::confirm`].
pub struct ProvisionalPayjoinProposal<C: ReceiverStates> {
    pub(crate) inner: Staged<C::PayjoinProposal>,
}

impl<C: ReceiverStates> View for ProvisionalPayjoinProposal<C> {
    type V = StagedView<C::PayjoinProposal>;

    closed spec fn view(&self) -> StagedView<C::PayjoinProposal> {
        self.inner@
    }
}

impl<C: ReceiverStates> ProvisionalPayjoinProposal<C> {
    /// Wraps a staged state.
    pub(crate) fn staged(inner: Staged<C::PayjoinProposal>) -> (r: Self)
        ensures
            r@ == inner@,
    {
        ProvisionalPayjoinProposal { inner }
    }

    /// Hands out the proposal if its event is durable in `buf`. If it is not
    /// yet, the provisional stays usable for a retry.
    pub fn confirm(&mut self, buf: &ReceiverEventBuffer<C>) -> (r: Result<
        PayjoinProposal<C>,
        ProvisionalConfirmError,
    >)
        ensures
            exists|out: Result<C::PayjoinProposal, ProvisionalConfirmError>| #[trigger]
                handed_out(old(self)@, buf@, final(self)@, out) && r == (match out {
                    Ok(s) => Ok::<PayjoinProposal<C>, ProvisionalConfirmError>(PayjoinProposal(s)),
                    Err(e) => Err(e),
                }),
    {
        let out = buf.release(&mut self.inner);
        assert(handed_out(old(self)@, buf@, self@, out));
        match out {
            Ok(session) => Ok(PayjoinProposal(session)),
            Err(e) => Err(e),
        }
    }
}

/// A new buffer holds nothing and has an id that no buffer before it was given;
/// one behind a replayed log counts the events of the log as durable.
pub proof fn law_buffers_open_empty<C: ReceiverStates>(replayed: u64)
    ensures
        forall|ids: &mut BufferIds, r: ReceiverEventBuffer<C>| #[trigger]
            call_ensures(ReceiverEventBuffer::<C>::new, (ids,), r) ==> {
                &&& r@.log.pending.len() == 0
                &&& r@.log.committed == 0
                &&& r@.id == (*ids)@
                &&& (*final(ids))@ > r@.id
            },
        forall|ids: &mut BufferIds, r: ReceiverEventBuffer<C>| #[trigger]
            call_ensures(ReceiverEventBuffer::<C>::after_replay, (ids, replayed), r) ==> {
                &&& r@.log.pending.len() == 0
                &&& r@.log.committed == replayed
                &&& r@.id == (*ids)@
                &&& (*final(ids))@ > r@.id
            },
{
}

/// A commit makes the oldest events durable, as many as were named and no more
/// than there are. The others stay queued, in their order, and the buffer
/// keeps its id.
pub proof fn law_commits_take_the_oldest<C: ReceiverStates>(n: u64)
    ensures
        forall|buf: &mut ReceiverEventBuffer<C>, r: ()| #[trigger]
            call_ensures(ReceiverEventBuffer::<C>::commit, (buf, n), r) ==> {
                let before = (*buf)@.log;
                let after = (*final(buf))@.log;
                let gone = after.committed - before.committed;
                &&& (*final(buf))@.id == (*buf)@.id
                &&& n <= before.pending.len() ==> gone == n
                &&& n > before.pending.len() ==> gone == before.pending.len()
                &&& after.pending.len() == before.pending.len() - gone
                &&& forall|i: int|
                    0 <= i < after.pending.len() ==> #[trigger] after.pending[i]
                        == before.pending[gone + i]
            },
{
}

/// What a buffer tells of itself agrees: whether it holds events, how many it
/// holds, which, and how many are durable.
pub proof fn law_buffers_show_what_they_hold<C: ReceiverStates>(
    buf: &ReceiverEventBuffer<C>,
    empty: bool,
    len: u64,
    committed: u64,
    events: Vec<&ReceiverSessionEvent<C>>,
)
    requires
        call_ensures(ReceiverEventBuffer::<C>::is_empty, (buf,), empty),
        call_ensures(ReceiverEventBuffer::<C>::len, (buf,), len),
        call_ensures(ReceiverEventBuffer::<C>::committed_count, (buf,), committed),
        call_ensures(ReceiverEventBuffer::<C>::peek, (buf,), events),
    ensures
        empty <==> events@.len() == 0,
        len == events@.len(),
        events@.len() == buf@.log.pending.len(),
        forall|i: int| 0 <= i < len ==> (#[trigger] events@[i]).0 == buf@.log.pending[i],
        committed == buf@.log.committed,
{
}

/// An event is written and read by the protocol, and nothing is changed on the
/// way: neither the text, nor the event, nor what the protocol says is wrong.
pub proof fn law_events_are_stored_as_the_protocol_writes_them<C: ReceiverEngine>(
    event: &ReceiverSessionEvent<C>,
    written: Result<String, SerdeJsonError>,
    json: String,
    read: Result<ReceiverSessionEvent<C>, SerdeJsonError>,
)
    ensures
        call_ensures(ReceiverSessionEvent::<C>::to_json, (event,), written) ==> match written {
            Ok(text) => call_ensures(C::event_to_json, (&event.0,), Ok(text)),
            Err(e) => call_ensures(C::event_to_json, (&event.0,), Err(e.msg)),
        },
        call_ensures(ReceiverSessionEvent::<C>::from_json, (json,), read) ==> match read {
            Ok(e) => call_ensures(C::event_from_json, (&json,), Ok(e.0)),
            Err(e) => call_ensures(C::event_from_json, (&json,), Err(e.msg)),
        },
{
}

/// Where the protocol reads back what it writes, a stored event is the event
/// that was stored.
pub proof fn law_stored_events_read_back<C: ReceiverEngine>(
    event: &ReceiverSessionEvent<C>,
    text: String,
    read: Result<ReceiverSessionEvent<C>, SerdeJsonError>,
)
    requires
        forall|e: ReceiverEvent<C>, t: String, back: Result<ReceiverEvent<C>, String>|
            #[trigger] call_ensures(C::event_to_json, (&e,), Ok::<String, String>(t))
                && #[trigger] call_ensures(C::event_from_json, (&t,), back) ==> back == Ok::<
                ReceiverEvent<C>,
                String,
            >(e),
        call_ensures(ReceiverSessionEvent::<C>::to_json, (event,), Ok(text)),
        call_ensures(ReceiverSessionEvent::<C>::from_json, (text,), read),
    ensures
        read matches Ok(back) && back.0 == event.0,
{
    assert(call_ensures(C::event_to_json, (&event.0,), Ok::<String, String>(text)));
}

/// A staged receiver is handed out once, and only by the buffer that it was staged
/// in, and only after its event has become durable there. Whatever the reason
/// of a refusal is, it changes nothing.
pub proof fn law_receiver_waits_to_be_confirmed<C: ReceiverStates>(buf: &ReceiverEventBuffer<C>)
    ensures
        forall|
            staged: &mut ProvisionalInitialized<C>,
            r: Result<Initialized<C>, ProvisionalConfirmError>,
        | #[trigger]
            call_ensures(ProvisionalInitialized::<C>::confirm, (staged, buf), r) ==> {
                let before = (*staged)@;
                let after = (*final(staged))@;
                let owner = buf@.id == before.buffer_id;
                let durable = before.held is Some && before.held->0.needs_committed
                    <= buf@.log.committed;
                &&& r is Ok <==> before.held is Some && owner && durable
                &&& r matches Ok(out) ==> after.held is None && after.buffer_id == before.buffer_id
                    && out.0 == before.held->0.inner
                &&& r matches Err(e) ==> after == before && e == (if before.held is None {
                    ProvisionalConfirmError::AlreadyConsumed
                } else if !owner {
                    ProvisionalConfirmError::WrongBuffer
                } else {
                    ProvisionalConfirmError::NotYetPersisted
                })
            },
{
}

/// A staged proposal is handed out once, and only by the buffer that it was staged
/// in, and only after its event has become durable there. Whatever the reason
/// of a refusal is, it changes nothing.
pub proof fn law_proposal_waits_to_be_confirmed<C: ReceiverStates>(buf: &ReceiverEventBuffer<C>)
    ensures
        forall|
            staged: &mut ProvisionalPayjoinProposal<C>,
            r: Result<PayjoinProposal<C>, ProvisionalConfirmError>,
        | #[trigger]
            call_ensures(ProvisionalPayjoinProposal::<C>::confirm, (staged, buf), r) ==> {
                let before = (*staged)@;
                let after = (*final(staged))@;
                let owner = buf@.id == before.buffer_id;
                let durable = before.held is Some && before.held->0.needs_committed
                    <= buf@.log.committed;
                &&& r is Ok <==> before.held is Some && owner && durable
                &&& r matches Ok(out) ==> after.held is None && after.buffer_id == before.buffer_id
                    && out.0 == before.held->0.inner
                &&& r matches Err(e) ==> after == before && e == (if before.held is None {
                    ProvisionalConfirmError::AlreadyConsumed
                } else if !owner {
                    ProvisionalConfirmError::WrongBuffer
                } else {
                    ProvisionalConfirmError::NotYetPersisted
                })
            },
{
}

/// The queued events are written all or none. What is written stands in the
/// order of the queue, one text for each event. What is wrong with an event is
/// what the protocol says of it, and every event before it can be written.
pub proof fn law_queued_events_are_written_in_order<C: ReceiverEngine>(
    buf: &ReceiverEventBuffer<C>,
    r: Result<Vec<String>, SerdeJsonError>,
)
    requires
        call_ensures(ReceiverEventBuffer::<C>::peek_json, (buf,), r),
    ensures
        r matches Ok(texts) ==> texts@.len() == buf@.log.pending.len() && forall|i: int|
            0 <= i < texts@.len() ==> call_ensures(
                C::event_to_json,
                (&buf@.log.pending[i],),
                Ok(#[trigger] texts@[i]),
            ),
        r matches Err(e) ==> exists|texts: Seq<String>| #[trigger]
            texts.len() < buf@.log.pending.len() && call_ensures(
                C::event_to_json,
                (&buf@.log.pending[texts.len() as int],),
                Err(e.msg),
            ) && forall|j: int|
                0 <= j < texts.len() ==> call_ensures(
                    C::event_to_json,
                    (&buf@.log.pending[j],),
                    Ok(#[trigger] texts[j]),
                ),
        (forall|i: int, json: Result<String, String>|
            0 <= i < buf@.log.pending.len() && #[trigger] call_ensures(
                C::event_to_json,
                (&buf@.log.pending[i],),
                json,
            ) ==> json is Ok) ==> r is Ok,
        buf@.log.pending.len() == 0 ==> r is Ok,
{
    let pending = buf@.log.pending;
    if let Ok(texts) = r {
        assert forall|i: int| 0 <= i < texts@.len() implies call_ensures(
            C::event_to_json,
            (&pending[i],),
            Ok(#[trigger] texts@[i]),
        ) by {
            assert(event_written::<C>(pending[i], Ok::<String, SerdeJsonError>(texts@[i])));
        }
    }
    if let Err(e) = r {
        let i = choose|i: int| #[trigger] first_unwritable::<C>(pending, i, e);
        assert(event_written::<C>(pending[i], Err::<String, SerdeJsonError>(e)));
        assert(call_ensures(C::event_to_json, (&pending[i],), Err::<String, String>(e.msg)));
        let texts = Seq::new(
            i as nat,
            |j: int|
                choose|text: String| #[trigger]
                    event_written::<C>(pending[j], Ok::<String, SerdeJsonError>(text)),
        );
        assert forall|j: int| 0 <= j < texts.len() implies call_ensures(
            C::event_to_json,
            (&pending[j],),
            Ok(#[trigger] texts[j]),
        ) by {
            assert(writable::<C>(pending[j]));
            assert(event_written::<C>(pending[j], Ok::<String, SerdeJsonError>(texts[j])));
        }
        assert(texts.len() == i);
    }
}

} // verus!
