//! Values that wait behind an event of one particular buffer.
use crate::error::ProvisionalConfirmError;
use crate::persist::{
    confirmed, EventBuffer, EventBufferView, PersistAction, Provisional, ProvisionalView,
};
use vstd::prelude::*;

verus! {

/// What a buffer with an id is. The id tells it from the buffers of other
/// sessions.
#[verifier::ext_equal]
pub struct NumberedBufferView<E> {
    /// The id.
    pub id: u64,
    /// The events.
    pub log: EventBufferView<E>,
}

impl<E> NumberedBufferView<E> {
    /// The buffer with `e` queued last.
    pub open spec fn push(self, e: E) -> Self {
        NumberedBufferView { log: self.log.push(e), ..self }
    }

    /// The buffer with the event of `action` queued last, if it has one.
    pub open spec fn record(self, action: PersistAction<E>) -> Self {
        match action {
            PersistAction::Save(e) | PersistAction::SaveAndClose(e) => self.push(e),
            PersistAction::NoOp => self,
        }
    }

    /// The buffer once its first `n` events (or all, if there are fewer) are durable.
    pub open spec fn commit(self, n: nat) -> Self {
        NumberedBufferView { log: self.log.commit(n), ..self }
    }
}

/// Gives every buffer an id of its own. Keep one for all buffers that may meet,
/// such as one in a process.
#[derive(Debug)]
pub struct BufferIds {
    next: u64,
}

impl View for BufferIds {
    type V = nat;

    /// Number of ids given out so far.
    closed spec fn view(&self) -> nat {
        self.next as nat
    }
}

impl BufferIds {
    /// A source that has given out no id yet.
    pub fn new() -> (r: Self)
        ensures
            r@ == 0,
    {
        BufferIds { next: 0 }
    }

    /// Whether there is no id left.
    pub fn is_exhausted(&self) -> (r: bool)
        ensures
            r <==> self@ >= u64::MAX,
    {
        self.next == u64::MAX
    }

    /// Gives out an id that was not given out before.
    pub fn fresh(&mut self) -> (r: u64)
        requires
            old(self)@ < u64::MAX,
        ensures
            r == old(self)@,
            final(self)@ == old(self)@ + 1,
    {
        let id: u64 = self.next;
        self.next = id + 1;
        id
    }
}

/// Whether `buf` is a new buffer behind `replayed` durable events, with the id
/// that was next when `before` ids had been given out.
pub open spec fn opened<E>(
    before: nat,
    after: nat,
    replayed: nat,
    buf: NumberedBufferView<E>,
) -> bool {
    &&& after == before + 1
    &&& buf.id == before
    &&& buf.log == EventBufferView::<E>::replayed(replayed)
}

/// Whether exactly one event was queued.
pub open spec fn one_event<E>(before: NumberedBufferView<E>, after: NumberedBufferView<E>) -> bool {
    exists|e: E| after == #[trigger] before.push(e)
}

/// A value that can be taken out once, and only after the event that produced
/// it is durable in the buffer that it was staged in.
pub struct Staged<T> {
    slot: Option<Provisional<T>>,
    buffer_id: u64,
}

/// What a staged value is.
pub struct StagedView<T> {
    /// The value, as long as it has not been taken.
    pub held: Option<ProvisionalView<T>>,
    /// The id of the buffer that it was staged in.
    pub buffer_id: u64,
}

impl<T> View for Staged<T> {
    type V = StagedView<T>;

    closed spec fn view(&self) -> StagedView<T> {
        StagedView {
            held: match self.slot {
                Some(p) => Some(p@),
                None => None,
            },
            buffer_id: self.buffer_id,
        }
    }
}

/// What asking for a staged value does and returns. An unrelated buffer is
/// refused whatever is durable in it, and a refusal changes nothing.
pub open spec fn handed_out<T, E>(
    before: StagedView<T>,
    buf: NumberedBufferView<E>,
    after: StagedView<T>,
    r: Result<T, ProvisionalConfirmError>,
) -> bool {
    match before.held {
        None => r == Err::<T, ProvisionalConfirmError>(ProvisionalConfirmError::AlreadyConsumed)
            && after == before,
        Some(p) => if buf.id != before.buffer_id {
            r == Err::<T, ProvisionalConfirmError>(ProvisionalConfirmError::WrongBuffer) && after
                == before
        } else if confirmed(buf.log, p.needs_committed) {
            r == Ok::<T, ProvisionalConfirmError>(p.inner) && after == (StagedView::<T> {
                held: None,
                ..before
            })
        } else {
            r == Err::<T, ProvisionalConfirmError>(ProvisionalConfirmError::NotYetPersisted)
                && after == before
        },
    }
}

impl<T> Staged<T> {
    /// Holds `inner` back until the event with sequence number
    /// `needs_committed` is durable in the buffer `buffer_id`.
    pub(crate) fn new(inner: T, needs_committed: u64, buffer_id: u64) -> (r: Self)
        ensures
            r@.held == Some(
                ProvisionalView { inner, needs_committed: needs_committed as nat },
            ),
            r@.buffer_id == buffer_id,
    {
        Staged { slot: Some(Provisional::new(inner, needs_committed)), buffer_id }
    }

    /// Hands the value out if it may be.
    pub(crate) fn confirm<E>(
        &mut self,
        buffer_id: u64,
        buf: &EventBuffer<E>,
    ) -> (r: Result<T, ProvisionalConfirmError>)
        ensures
            handed_out(
                old(self)@,
                NumberedBufferView { id: buffer_id, log: buf@ },
                final(self)@,
                r,
            ),
    {
        let p = match self.slot.take() {
            Some(p) => p,
            None => {
                return Err(ProvisionalConfirmError::AlreadyConsumed);
            },
        };
        if buffer_id != self.buffer_id {
            self.slot = Some(p);
            return Err(ProvisionalConfirmError::WrongBuffer);
        }
        match p.confirm(buf) {
            Ok(inner) => Ok(inner),
            Err(returned) => {
                self.slot = Some(returned);
                Err(ProvisionalConfirmError::NotYetPersisted)
            },
        }
    }
}

/// Persist before expose: a value that is staged behind all events of a buffer
/// is refused as long as one of them is queued, and is handed out once the
/// buffer has been drained.
pub proof fn law_staged_value_waits_for_its_event<T, E>(
    buf: NumberedBufferView<E>,
    inner: T,
    staged: StagedView<T>,
    n: nat,
    early: StagedView<T>,
    early_r: Result<T, ProvisionalConfirmError>,
    late: StagedView<T>,
    late_r: Result<T, ProvisionalConfirmError>,
)
    requires
        staged == (StagedView {
            held: Some(ProvisionalView { inner, needs_committed: buf.log.pushed() }),
            buffer_id: buf.id,
        }),
        n < buf.log.pending.len(),
        handed_out(staged, buf.commit(n), early, early_r),
        handed_out(early, buf.commit(buf.log.pending.len()), late, late_r),
    ensures
        early_r == Err::<T, ProvisionalConfirmError>(ProvisionalConfirmError::NotYetPersisted),
        late_r == Ok::<T, ProvisionalConfirmError>(inner),
{
}

/// A staged value is handed out at most once.
pub proof fn law_handed_out_once<T, E>(
    before: StagedView<T>,
    buf: NumberedBufferView<E>,
    after: StagedView<T>,
    r: Result<T, ProvisionalConfirmError>,
    later_buf: NumberedBufferView<E>,
    later: StagedView<T>,
    later_r: Result<T, ProvisionalConfirmError>,
)
    requires
        handed_out(before, buf, after, r),
        r is Ok,
        handed_out(after, later_buf, later, later_r),
    ensures
        later_r == Err::<T, ProvisionalConfirmError>(ProvisionalConfirmError::AlreadyConsumed),
{
}

/// A staged value that is refused stays as it was: once its own buffer has been
/// drained it is handed out after all.
pub proof fn law_refusal_can_be_retried<T, E>(
    before: StagedView<T>,
    buf: NumberedBufferView<E>,
    after: StagedView<T>,
    r: Result<T, ProvisionalConfirmError>,
    drained: NumberedBufferView<E>,
    later: StagedView<T>,
    later_r: Result<T, ProvisionalConfirmError>,
)
    requires
        before.held is Some,
        handed_out(before, buf, after, r),
        r is Err,
        drained.id == before.buffer_id,
        drained.log.pending.len() == 0,
        drained.log.pushed() >= before.held->0.needs_committed,
        handed_out(after, drained, later, later_r),
    ensures
        later_r == Ok::<T, ProvisionalConfirmError>(before.held->0.inner),
{
}

/// Two buffers that were opened one after the other from one source of ids are
/// told apart. What is staged in the first is refused by the second, whatever
/// is durable there, and is then still handed out by the first.
pub proof fn law_buffers_are_told_apart<T, E>(
    first_before: nat,
    first_after: nat,
    first_replayed: nat,
    first: NumberedBufferView<E>,
    second_before: nat,
    second_after: nat,
    second_replayed: nat,
    second: NumberedBufferView<E>,
    staged: StagedView<T>,
    other: NumberedBufferView<E>,
    after: StagedView<T>,
    r: Result<T, ProvisionalConfirmError>,
    own: NumberedBufferView<E>,
    later: StagedView<T>,
    later_r: Result<T, ProvisionalConfirmError>,
)
    requires
        opened(first_before, first_after, first_replayed, first),
        opened(second_before, second_after, second_replayed, second),
        first_after <= second_before || second_after <= first_before,
        staged.held is Some,
        staged.buffer_id == first.id,
        other.id == second.id,
        handed_out(staged, other, after, r),
        own.id == first.id,
        confirmed(own.log, staged.held->0.needs_committed),
        handed_out(after, own, later, later_r),
    ensures
        first.id != second.id,
        r == Err::<T, ProvisionalConfirmError>(ProvisionalConfirmError::WrongBuffer),
        after == staged,
        later_r == Ok::<T, ProvisionalConfirmError>(staged.held->0.inner),
{
}

/// No amount of persisting in another buffer releases a staged value.
pub proof fn law_other_buffers_release_nothing<T, E>(
    before: StagedView<T>,
    buf: NumberedBufferView<E>,
    after: StagedView<T>,
    r: Result<T, ProvisionalConfirmError>,
)
    requires
        buf.id != before.buffer_id,
        handed_out(before, buf, after, r),
    ensures
        r is Err,
        after == before,
{
}

/// Whether `after` is `before` with `e` queued behind all other events, and
/// nothing else changed.
pub open spec fn queued<E>(
    before: NumberedBufferView<E>,
    after: NumberedBufferView<E>,
    e: E,
) -> bool {
    &&& after.id == before.id
    &&& after.log.committed == before.log.committed
    &&& after.log.pending == before.log.pending.push(e)
}

/// Whether `inner` is held back until every event of `buf` is durable.
pub open spec fn waits_behind<T, E>(
    staged: StagedView<T>,
    buf: NumberedBufferView<E>,
    inner: T,
) -> bool {
    &&& staged.buffer_id == buf.id
    &&& staged.held is Some
    &&& staged.held->0.inner == inner
    &&& staged.held->0.needs_committed == buf.log.committed + buf.log.pending.len()
}

/// A value that waits behind the events of a buffer is handed out by that
/// buffer exactly once, and only when nothing is queued in it any more.
pub proof fn law_waiting_values_are_released_by_a_drain<T, E>(
    staged: StagedView<T>,
    buf: NumberedBufferView<E>,
    inner: T,
    n: nat,
    after: StagedView<T>,
    r: Result<T, ProvisionalConfirmError>,
)
    requires
        waits_behind(staged, buf, inner),
        handed_out(staged, buf.commit(n), after, r),
    ensures
        r is Ok <==> n >= buf.log.pending.len(),
        r matches Ok(out) ==> out == inner && after.held is None,
        r matches Err(e) ==> e == ProvisionalConfirmError::NotYetPersisted && after == staged,
{
}

/// No id is given out twice: each is smaller than all that come later.
pub proof fn law_ids_are_given_out_once(id: u64, before: nat, after: nat)
    requires
        exists|ids: &mut BufferIds| #[trigger]
            call_ensures(BufferIds::fresh, (ids,), id) && (*ids)@ == before && (*final(ids))@
                == after,
    ensures
        before <= id < after,
{
}

/// A new source has given out no id, and one is exhausted exactly if no id is
/// left.
pub proof fn law_sources_start_out_full(ids: BufferIds, some: &BufferIds, exhausted: bool)
    requires
        call_ensures(BufferIds::new, (), ids),
        call_ensures(BufferIds::is_exhausted, (some,), exhausted),
    ensures
        ids@ == 0,
        exhausted <==> some@ >= u64::MAX,
{
}

} // verus!
