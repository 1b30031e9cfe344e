//! The sender's events, the buffer they are queued in, and the values that are
//! held back until their event is durable.
use crate::chain::{psbt_defect, psbt_text, psbt_written, Psbt};
use crate::error::{ProvisionalConfirmError, SerdeJsonError};
use crate::persist::{EventBuffer, EventBufferView, PersistAction, ProvisionalView};
use crate::send::engine::{SenderEngine, SenderEvent, SenderStates, SessionOutcome};
use crate::send::states::WithReplyKey;
use crate::staging::{handed_out, opened, BufferIds, NumberedBufferView, Staged, StagedView};
use vstd::prelude::*;

verus! {

/// An event of a sender session.
pub struct SenderSessionEvent<C: SenderStates>(pub SenderEvent<C>);

/// What writing an event as JSON may return.
pub open spec fn event_written<C: SenderEngine>(
    event: SenderEvent<C>,
    r: Result<String, SerdeJsonError>,
) -> bool {
    exists|json: Result<String, String>| #[trigger]
        call_ensures(C::event_to_json, (&event,), json) && r == (match json {
            Ok(text) => Ok::<String, SerdeJsonError>(text),
            Err(msg) => Err(SerdeJsonError { msg }),
        })
}

/// What reading an event from JSON may return.
pub open spec fn event_read<C: SenderEngine>(
    json: String,
    r: Result<SenderSessionEvent<C>, SerdeJsonError>,
) -> bool {
    exists|event: Result<SenderEvent<C>, String>| #[trigger]
        call_ensures(C::event_from_json, (&json,), event) && r == (match event {
            Ok(e) => Ok::<SenderSessionEvent<C>, SerdeJsonError>(SenderSessionEvent(e)),
            Err(msg) => Err(SerdeJsonError { msg }),
        })
}

impl<C: SenderEngine> SenderSessionEvent<C> {
    /// Writes the event as JSON, for storage.
    pub fn to_json(&self) -> (r: Result<String, SerdeJsonError>)
        ensures
            event_written::<C>(self.0, r),
    {
        match C::event_to_json(&self.0) {
            Ok(text) => Ok(text),
            Err(msg) => Err(SerdeJsonError { msg }),
        }
    }

    /// Reads an event from JSON.
    pub fn from_json(json: String) -> (r: Result<Self, SerdeJsonError>)
        ensures
            event_read::<C>(json, r),
    {
        match C::event_from_json(&json) {
            Ok(event) => Ok(SenderSessionEvent(event)),
            Err(msg) => Err(SerdeJsonError { msg }),
        }
    }
}

/// Caller-owned, sans-IO event buffer for sender session events.
///
/// Actions push events into it; the caller drains it through its storage. It
/// carries an id, so that a provisional can refuse to be confirmed against an
/// unrelated buffer.
pub struct SenderEventBuffer<C: SenderStates> {
    id: u64,
    inner: EventBuffer<SenderSessionEvent<C>>,
}

impl<C: SenderStates> View for SenderEventBuffer<C> {
    type V = NumberedBufferView<SenderEvent<C>>;

    closed spec fn view(&self) -> NumberedBufferView<SenderEvent<C>> {
        NumberedBufferView {
            id: self.id,
            log: EventBufferView {
                pending: self.inner@.pending.map_values(|e: SenderSessionEvent<C>| e.0),
                committed: self.inner@.committed,
            },
        }
    }
}

impl<C: SenderStates> SenderEventBuffer<C> {
    /// Constructs an empty buffer with a fresh id.
    pub fn new(ids: &mut BufferIds) -> (r: Self)
        requires
            old(ids)@ < u64::MAX,
        ensures
            opened(old(ids)@, final(ids)@, 0, r@),
    {
        Self::after_replay(ids, 0)
    }

    /// Constructs a buffer with a fresh id for a session whose first `replayed`
    /// events were already persisted before it woke up. Use after replaying a
    /// log.
    pub fn after_replay(ids: &mut BufferIds, replayed: u64) -> (r: Self)
        requires
            old(ids)@ < u64::MAX,
        ensures
            opened(old(ids)@, final(ids)@, replayed as nat, r@),
    {
        let id: u64 = ids.fresh();
        let r = SenderEventBuffer { id, inner: EventBuffer::after_replay(replayed) };
        assert(r@.log =~= EventBufferView::<SenderEvent<C>>::replayed(replayed as nat));
        r
    }

    /// Returns `true` if no events are queued for persistence.
    pub fn is_empty(&self) -> (r: bool)
        ensures
            r <==> self@.log.pending.len() == 0,
    {
        self.inner.is_empty()
    }

    /// Number of events queued for persistence (not yet committed).
    pub fn len(&self) -> (r: u64)
        ensures
            r == self@.log.pending.len(),
    {
        self.inner.len() as u64
    }

    /// Total of events durably persisted.
    pub fn committed_count(&self) -> (r: u64)
        ensures
            r == self@.log.committed,
    {
        self.inner.committed_count()
    }

    /// Borrows the queued events, oldest first. The buffer stays as it is;
    /// call `commit(n)` after writing the first `n` of these to storage.
    pub fn peek(&self) -> (r: Vec<&SenderSessionEvent<C>>)
        ensures
            r@.len() == self@.log.pending.len(),
            forall|i: int| 0 <= i < r@.len() ==> (#[trigger] r@[i]).0 == self@.log.pending[i],
    {
        self.inner.queued()
    }

    /// Drops the first `n` events, or all if there are fewer. Call only after
    /// storage has committed them.
    pub fn commit(&mut self, n: u64)
        ensures
            final(self)@ == old(self)@.commit(n as nat),
    {
        let queued: usize = self.inner.len();
        let k: usize = if n <= queued as u64 {
            n as usize
        } else {
            queued
        };
        self.inner.commit(k);
        assert(self@ =~= old(self)@.commit(n as nat));
    }

    /// Queues an event.
    pub(crate) fn push(&mut self, event: SenderEvent<C>)
        requires
            old(self)@.log.pushed() < u64::MAX,
        ensures
            final(self)@ == old(self)@.push(event),
    {
        let seq: u64 = self.inner.push(SenderSessionEvent(event));
        assert(self@ =~= old(self)@.push(event));
    }

    /// Queues the event of `action`, if it has one.
    pub(crate) fn record(&mut self, action: PersistAction<SenderEvent<C>>)
        requires
            old(self)@.log.pushed() < u64::MAX,
        ensures
            final(self)@ == old(self)@.record(action),
    {
        match action {
            PersistAction::Save(e) | PersistAction::SaveAndClose(e) => {
                self.push(e);
            },
            PersistAction::NoOp => {},
        }
    }

    /// Queues the event by which a session is cancelled.
    pub(crate) fn push_cancel(&mut self)
        requires
            old(self)@.log.pushed() < u64::MAX,
        ensures
            final(self)@ == old(self)@.push(SenderEvent::<C>::Closed(SessionOutcome::Cancel)),
    {
        self.push(SenderEvent::<C>::Closed(SessionOutcome::Cancel));
    }

    /// Holds `inner` back until all events queued so far are durable.
    pub(crate) fn hold<T>(&self, inner: T) -> (r: Staged<T>)
        ensures
            r@ == (StagedView {
                held: Some(ProvisionalView { inner, needs_committed: self@.log.pushed() }),
                buffer_id: self@.id,
            }),
    {
        Staged::new(inner, self.inner.pushed_count(), self.id)
    }

    /// Hands out what was held back, if it may be.
    pub(crate) fn release<T>(&self, staged: &mut Staged<T>) -> (r: Result<
        T,
        ProvisionalConfirmError,
    >)
        ensures
            handed_out(old(staged)@, self@, final(staged)@, r),
    {
        staged.confirm(self.id, &self.inner)
    }
}

/// A sender staged for persistence by one of the `SenderBuilder::build_*`
/// methods.
///
/// Nothing can be posted to the directory until the event that created the
/// session is durable in the buffer that it was pushed into. Drain the buffer,
/// then call [`Self::confirm`].
pub struct ProvisionalWithReplyKey<C: SenderStates> {
    inner: Staged<C::WithReplyKey>,
}

impl<C: SenderStates> View for ProvisionalWithReplyKey<C> {
    type V = StagedView<C::WithReplyKey>;

    closed spec fn view(&self) -> StagedView<C::WithReplyKey> {
        self.inner@
    }
}

impl<C: SenderStates> ProvisionalWithReplyKey<C> {
    /// Wraps a staged state.
    pub(crate) fn staged(inner: Staged<C::WithReplyKey>) -> (r: Self)
        ensures
            r@ == inner@,
    {
        ProvisionalWithReplyKey { inner }
    }

    /// Hands out the sender if its event is durable in `buf`. If it is not
    /// yet, the provisional stays usable for a retry.
    pub fn confirm(&mut self, buf: &SenderEventBuffer<C>) -> (r: Result<
        WithReplyKey<C>,
        ProvisionalConfirmError,
    >)
        ensures
            exists|out: Result<C::WithReplyKey, ProvisionalConfirmError>| #[trigger]
                handed_out(old(self)@, buf@, final(self)@, out) && r == (match out {
                    Ok(s) => Ok::<WithReplyKey<C>, ProvisionalConfirmError>(WithReplyKey(s)),
                    Err(e) => Err(e),
                }),
    {
        let out = buf.release(&mut self.inner);
        assert(handed_out(old(self)@, buf@, self@, out));
        match out {
            Ok(session) => Ok(WithReplyKey(session)),
            Err(e) => Err(e),
        }
    }
}

/// The receiver's proposal, staged for persistence by
/// `PollingForProposal::process_response`.
///
/// It cannot be signed and broadcast until the event that closed the session is
/// durable in the buffer that it was pushed into.
pub struct ProvisionalPsbt {
    inner: Staged<Psbt>,
}

impl View for ProvisionalPsbt {
    type V = StagedView<Psbt>;

    closed spec fn view(&self) -> StagedView<Psbt> {
        self.inner@
    }
}

impl ProvisionalPsbt {
    /// Wraps a staged proposal.
    pub(crate) fn staged(inner: Staged<Psbt>) -> (r: Self)
        ensures
            r@ == inner@,
    {
        ProvisionalPsbt { inner }
    }

    /// Hands out the proposal in base64 if its event is durable in `buf`. If it
    /// is not yet, the provisional stays usable for a retry.
    pub fn confirm<C: SenderStates>(&mut self, buf: &SenderEventBuffer<C>) -> (r: Result<
        String,
        ProvisionalConfirmError,
    >)
        ensures
            exists|out: Result<Psbt, ProvisionalConfirmError>| #[trigger]
                handed_out(old(self)@, buf@, final(self)@, out) && match out {
                    Ok(psbt) => r matches Ok(text) && psbt_written(psbt@, text@),
                    Err(e) => r == Err::<String, ProvisionalConfirmError>(e),
                },
    {
        let out = buf.release(&mut self.inner);
        assert(handed_out(old(self)@, buf@, self@, out));
        match out {
            Ok(psbt) => Ok(psbt.to_base64()),
            Err(e) => Err(e),
        }
    }
}

/// A new buffer holds nothing and has an id that no buffer before it was given;
/// one behind a replayed log counts the events of the log as durable.
pub proof fn law_buffers_open_empty<C: SenderStates>(replayed: u64)
    ensures
        forall|ids: &mut BufferIds, r: SenderEventBuffer<C>| #[trigger]
            call_ensures(SenderEventBuffer::<C>::new, (ids,), r) ==> {
                &&& r@.log.pending.len() == 0
                &&& r@.log.committed == 0
                &&& r@.id == (*ids)@
                &&& (*final(ids))@ > r@.id
            },
        forall|ids: &mut BufferIds, r: SenderEventBuffer<C>| #[trigger]
            call_ensures(SenderEventBuffer::<C>::after_replay, (ids, replayed), r) ==> {
                &&& r@.log.pending.len() == 0
                &&& r@.log.committed == replayed
                &&& r@.id == (*ids)@
                &&& (*final(ids))@ > r@.id
            },
{
}

/// A commit makes the oldest events durable, as many as were named and no more
/// than there are. The others stay queued, in their order, and the buffer
/// keeps its id.
pub proof fn law_commits_take_the_oldest<C: SenderStates>(n: u64)
    ensures
        forall|buf: &mut SenderEventBuffer<C>, r: ()| #[trigger]
            call_ensures(SenderEventBuffer::<C>::commit, (buf, n), r) ==> {
                let before = (*buf)@.log;
                let after = (*final(buf))@.log;
                let gone = after.committed - before.committed;
                &&& (*final(buf))@.id == (*buf)@.id
                &&& n <= before.pending.len() ==> gone == n
                &&& n > before.pending.len() ==> gone == before.pending.len()
                &&& after.pending.len() == before.pending.len() - gone
                &&& forall|i: int|
                    0 <= i < after.pending.len() ==> #[trigger] after.pending[i]
                        == before.pending[gone + i]
            },
{
}

/// What a buffer tells of itself agrees: whether it holds events, how many it
/// holds, which, and how many are durable.
pub proof fn law_buffers_show_what_they_hold<C: SenderStates>(
    buf: &SenderEventBuffer<C>,
    empty: bool,
    len: u64,
    committed: u64,
    events: Vec<&SenderSessionEvent<C>>,
)
    requires
        call_ensures(SenderEventBuffer::<C>::is_empty, (buf,), empty),
        call_ensures(SenderEventBuffer::<C>::len, (buf,), len),
        call_ensures(SenderEventBuffer::<C>::committed_count, (buf,), committed),
        call_ensures(SenderEventBuffer::<C>::peek, (buf,), events),
    ensures
        empty <==> events@.len() == 0,
        len == events@.len(),
        events@.len() == buf@.log.pending.len(),
        forall|i: int| 0 <= i < len ==> (#[trigger] events@[i]).0 == buf@.log.pending[i],
        committed == buf@.log.committed,
{
}

/// An event is written and read by the protocol, and nothing is changed on the
/// way: neither the text, nor the event, nor what the protocol says is wrong.
pub proof fn law_events_are_stored_as_the_protocol_writes_them<C: SenderEngine>(
    event: &SenderSessionEvent<C>,
    written: Result<String, SerdeJsonError>,
    json: String,
    read: Result<SenderSessionEvent<C>, SerdeJsonError>,
)
    ensures
        call_ensures(SenderSessionEvent::<C>::to_json, (event,), written) ==> match written {
            Ok(text) => call_ensures(C::event_to_json, (&event.0,), Ok(text)),
            Err(e) => call_ensures(C::event_to_json, (&event.0,), Err(e.msg)),
        },
        call_ensures(SenderSessionEvent::<C>::from_json, (json,), read) ==> match read {
            Ok(e) => call_ensures(C::event_from_json, (&json,), Ok(e.0)),
            Err(e) => call_ensures(C::event_from_json, (&json,), Err(e.msg)),
        },
{
}

/// Where the protocol reads back what it writes, a stored event is the event
/// that was stored.
pub proof fn law_stored_events_read_back<C: SenderEngine>(
    event: &SenderSessionEvent<C>,
    text: String,
    read: Result<SenderSessionEvent<C>, SerdeJsonError>,
)
    requires
        forall|e: SenderEvent<C>, t: String, back: Result<SenderEvent<C>, String>|
            #[trigger] call_ensures(C::event_to_json, (&e,), Ok::<String, String>(t))
                && #[trigger] call_ensures(C::event_from_json, (&t,), back) ==> back == Ok::<
                SenderEvent<C>,
                String,
            >(e),
        call_ensures(SenderSessionEvent::<C>::to_json, (event,), Ok(text)),
        call_ensures(SenderSessionEvent::<C>::from_json, (text,), read),
    ensures
        read matches Ok(back) && back.0 == event.0,
{
    assert(call_ensures(C::event_to_json, (&event.0,), Ok::<String, String>(text)));
}

/// A staged sender is handed out once, and only by the buffer that it was staged
/// in, and only after its event has become durable there. Whatever the reason
/// of a refusal is, it changes nothing.
pub proof fn law_sender_waits_to_be_confirmed<C: SenderStates>(buf: &SenderEventBuffer<C>)
    ensures
        forall|
            staged: &mut ProvisionalWithReplyKey<C>,
            r: Result<WithReplyKey<C>, ProvisionalConfirmError>,
        | #[trigger]
            call_ensures(ProvisionalWithReplyKey::<C>::confirm, (staged, buf), r) ==> {
                let before = (*staged)@;
                let after = (*final(staged))@;
                let owner = buf@.id == before.buffer_id;
                let durable = before.held is Some && before.held->0.needs_committed
                    <= buf@.log.committed;
                &&& r is Ok <==> before.held is Some && owner && durable
                &&& r matches Ok(out) ==> after.held is None && after.buffer_id == before.buffer_id
                    && out.0 == before.held->0.inner
                &&& r matches Err(e) ==> after == before && e == (if before.held is None {
                    ProvisionalConfirmError::AlreadyConsumed
                } else if !owner {
                    ProvisionalConfirmError::WrongBuffer
                } else {
                    ProvisionalConfirmError::NotYetPersisted
                })
            },
{
}

/// A staged proposal is handed out once, and only by the buffer that it was staged
/// in, and only after its event has become durable there. Whatever the reason
/// of a refusal is, it changes nothing.
pub proof fn law_proposal_waits_to_be_confirmed<C: SenderStates>(buf: &SenderEventBuffer<C>)
    ensures
        forall|staged: &mut ProvisionalPsbt, r: Result<String, ProvisionalConfirmError>| #[trigger]
            call_ensures(ProvisionalPsbt::confirm::<C>, (staged, buf), r) ==> {
                let before = (*staged)@;
                let after = (*final(staged))@;
                let owner = buf@.id == before.buffer_id;
                let durable = before.held is Some && before.held->0.needs_committed
                    <= buf@.log.committed;
                &&& r is Ok <==> before.held is Some && owner && durable
                &&& r matches Ok(out) ==> after.held is None && after.buffer_id == before.buffer_id
                    && out@ == psbt_text(before.held->0.inner@) && psbt_text(out@) == out@
                    && psbt_defect(out@) is None
                &&& r matches Err(e) ==> after == before && e == (if before.held is None {
                    ProvisionalConfirmError::AlreadyConsumed
                } else if !owner {
                    ProvisionalConfirmError::WrongBuffer
                } else {
                    ProvisionalConfirmError::NotYetPersisted
                })
            },
{
}

} // verus!
