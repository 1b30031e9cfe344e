//! State machine persistence for payjoin sessions.
//!
//! The state machines of both roles are driven by events. An event holds all
//! that is needed to move on to the next state, so the whole state of a
//! session can be computed by replaying its events, and a session is recorded
//! as an append-only log of them.
//!
//! [`EventBuffer`] is the part of that log that may not be on disk yet. Its
//! owner drains it in two phases, `peek` and then `commit`, through whatever
//! storage it has. [`Provisional`] keeps a value out of reach until the event
//! that produced it has been committed.
use crate::text::Message;
use std::collections::VecDeque;
use vstd::prelude::*;
use vstd::std_specs::iter::IteratorSpec;
use vstd::string::*;

verus! {

/// Caller-owned, sans-IO event buffer. Transitions push events into it; the
/// caller's persister drains it in two phases.
///
/// The type of event is a parameter, so receiver and sender sessions have
/// buffers that cannot be mistaken for one another.
pub struct EventBuffer<E> {
    pending: VecDeque<E>,
    /// Count of events ever pushed, those before a replay included.
    pushed_total: u64,
}

/// What a buffer is: the events still queued, and how many came before them.
#[verifier::ext_equal]
pub struct EventBufferView<E> {
    /// Events that are not committed yet, oldest first.
    pub pending: Seq<E>,
    /// Number of events that are durable.
    pub committed: nat,
}

impl<E> EventBufferView<E> {
    /// Number of events ever pushed; also the sequence number of the newest.
    pub open spec fn pushed(self) -> nat {
        self.committed + self.pending.len()
    }

    /// The buffer with `e` queued last.
    pub open spec fn push(self, e: E) -> Self {
        EventBufferView { pending: self.pending.push(e), committed: self.committed }
    }

    /// The buffer with the event of `action` queued last, if it has one.
    pub open spec fn record(self, action: PersistAction<E>) -> Self {
        match action {
            PersistAction::Save(e) | PersistAction::SaveAndClose(e) => self.push(e),
            PersistAction::NoOp => self,
        }
    }

    /// The buffer once its first `n` events (or all, if there are fewer) are durable.
    pub open spec fn commit(self, n: nat) -> Self {
        let k = if n <= self.pending.len() {
            n
        } else {
            self.pending.len()
        };
        EventBufferView { pending: self.pending.skip(k as int), committed: self.committed + k }
    }

    /// A buffer with nothing queued behind `replayed` durable events.
    pub open spec fn replayed(replayed: nat) -> Self {
        EventBufferView { pending: Seq::empty(), committed: replayed }
    }
}

impl<E> View for EventBuffer<E> {
    type V = EventBufferView<E>;

    closed spec fn view(&self) -> EventBufferView<E> {
        EventBufferView {
            pending: self.pending@,
            committed: (self.pushed_total - self.pending@.len()) as nat,
        }
    }
}

impl<E> EventBuffer<E> {
    #[verifier::type_invariant]
    spec fn inv(self) -> bool {
        self.pending@.len() <= self.pushed_total
    }

    /// Constructs an empty buffer.
    pub fn new() -> (r: Self)
        ensures
            r@ == EventBufferView::<E>::replayed(0),
    {
        EventBuffer { pending: VecDeque::new(), pushed_total: 0 }
    }

    /// Constructs a buffer for a session whose first `replayed` events were
    /// already persisted before it woke up. Use after replaying a log.
    pub fn after_replay(replayed: u64) -> (r: Self)
        ensures
            r@ == EventBufferView::<E>::replayed(replayed as nat),
    {
        EventBuffer { pending: VecDeque::new(), pushed_total: replayed }
    }

    /// Returns `true` if no events are queued for persistence.
    pub fn is_empty(&self) -> (r: bool)
        ensures
            r <==> self@.pending.len() == 0,
    {
        self.pending.len() == 0
    }

    /// Number of events queued for persistence (not yet committed).
    pub fn len(&self) -> (r: usize)
        ensures
            r == self@.pending.len(),
    {
        self.pending.len()
    }

    /// Total of events durably persisted. [`Provisional::confirm`] reads this.
    pub fn committed_count(&self) -> (r: u64)
        ensures
            r == self@.committed,
    {
        proof {
            use_type_invariant(self);
        }
        self.pushed_total - self.pending.len() as u64
    }

    /// Total of events ever pushed, the replayed ones included.
    pub(crate) fn pushed_count(&self) -> (r: u64)
        ensures
            r == self@.pushed(),
    {
        proof {
            use_type_invariant(self);
        }
        self.pushed_total
    }

    /// Borrows the queued events for writing to storage, oldest first. The
    /// buffer stays as it is until `commit` is called.
    pub fn peek(&self) -> (r: std::collections::vec_deque::Iter<'_, E>)
        ensures
            r.remaining() == self@.pending.as_ref(),
    {
        self.pending.iter()
    }

    /// Borrows the oldest queued event.
    pub(crate) fn front(&self) -> (r: Option<&E>)
        ensures
            match r {
                Some(e) => self@.pending.len() > 0 && *e == self@.pending[0],
                None => self@.pending.len() == 0,
            },
    {
        if self.pending.len() == 0 {
            None
        } else {
            Some(&self.pending[0])
        }
    }

    /// Borrows all queued events, oldest first.
    pub(crate) fn queued(&self) -> (r: Vec<&E>)
        ensures
            r@ == self@.pending.as_ref(),
    {
        let n: usize = self.pending.len();
        let mut out: Vec<&E> = Vec::new();
        for i in 0..n
            invariant
                n == self.pending@.len(),
                out@ == self.pending@.as_ref().take(i as int),
        {
            out.push(&self.pending[i]);
            assert(out@ =~= self.pending@.as_ref().take(i + 1));
        }
        assert(out@ =~= self.pending@.as_ref());
        out
    }

    /// Drops the first `n` events. Call only after storage has committed them.
    ///
    /// If `n` exceeds the number of queued events, the buffer is fully drained.
    pub fn commit(&mut self, n: usize)
        ensures
            final(self)@ == old(self)@.commit(n as nat),
    {
        proof {
            use_type_invariant(&*self);
        }
        let mut queue: VecDeque<E> = VecDeque::new();
        std::mem::swap(&mut queue, &mut self.pending);
        let ghost before = queue@;
        let k: usize = if n <= queue.len() {
            n
        } else {
            queue.len()
        };
        for i in 0..k
            invariant
                k <= before.len(),
                queue@ == before.skip(i as int),
        {
            queue.pop_front();
            assert(queue@ =~= before.skip(i + 1));
        }
        self.pending = queue;
    }

    /// Queues `e` and returns the sequence number assigned to it: the event is
    /// durable once that many events are committed.
    pub fn push(&mut self, e: E) -> (r: u64)
        requires
            old(self)@.pushed() < u64::MAX,
        ensures
            final(self)@ == old(self)@.push(e),
            r == final(self)@.pushed(),
    {
        proof {
            use_type_invariant(&*self);
        }
        let mut queue: VecDeque<E> = VecDeque::new();
        std::mem::swap(&mut queue, &mut self.pending);
        queue.push_back(e);
        self.pushed_total = self.pushed_total + 1;
        self.pending = queue;
        self.pushed_total
    }

    /// Queues the event of `action`, if it has one.
    pub fn record(&mut self, action: PersistAction<E>)
        requires
            old(self)@.pushed() + action.events().len() <= u64::MAX,
        ensures
            final(self)@ == old(self)@.record(action),
    {
        match action {
            PersistAction::Save(e) | PersistAction::SaveAndClose(e) => {
                self.push(e);
            },
            PersistAction::NoOp => {},
        }
    }
}

impl<E> Default for EventBuffer<E> {
    fn default() -> (r: Self)
        ensures
            r@ == EventBufferView::<E>::replayed(0),
    {
        EventBuffer::new()
    }
}

/// Wraps a value that mints an externally visible side effect (a payjoin URI,
/// a request to a directory). The inner value is handed out only after the
/// event that produced it is durable.
///
/// It is a plain value, not a borrow, so it may be held for as long as the
/// caller's storage needs.
pub struct Provisional<T> {
    inner: T,
    needs_committed: u64,
}

/// What a provisional is: the value, and how many events have to be durable.
pub struct ProvisionalView<T> {
    /// The value that is held back.
    pub inner: T,
    /// Sequence number of the event that produced it.
    pub needs_committed: nat,
}

impl<T> View for Provisional<T> {
    type V = ProvisionalView<T>;

    closed spec fn view(&self) -> ProvisionalView<T> {
        ProvisionalView { inner: self.inner, needs_committed: self.needs_committed as nat }
    }
}

impl<T> Provisional<T> {
    /// Holds `inner` back until the event with sequence number `needs_committed` is
    /// durable.
    pub fn new(inner: T, needs_committed: u64) -> (r: Self)
        ensures
            r@ == (ProvisionalView { inner, needs_committed: needs_committed as nat }),
    {
        Provisional { inner, needs_committed }
    }

    /// Queues `event` in `buf` and holds `inner` back until it is durable.
    pub fn stage<E>(inner: T, event: E, buf: &mut EventBuffer<E>) -> (r: Self)
        requires
            old(buf)@.pushed() < u64::MAX,
        ensures
            final(buf)@ == old(buf)@.push(event),
            r@ == (ProvisionalView { inner, needs_committed: final(buf)@.pushed() }),
    {
        let seq: u64 = buf.push(event);
        Provisional::new(inner, seq)
    }

    /// Hands out the inner value once the required event is durable in `buf`.
    /// Otherwise returns `self`, so the caller can persist more and retry.
    pub fn confirm<E>(self, buf: &EventBuffer<E>) -> (r: Result<T, Self>)
        ensures
            confirmed(buf@, self@.needs_committed) ==> r == Ok::<T, Self>(self@.inner),
            !confirmed(buf@, self@.needs_committed) ==> r == Err::<T, Self>(self),
    {
        if buf.committed_count() >= self.needs_committed {
            Ok(self.inner)
        } else {
            Err(self)
        }
    }

    /// Inspects the inner value without consuming.
    ///
    /// Use sparingly: producing externally visible side effects from a
    /// borrowed inner value before [`Self::confirm`] defeats the guarantee.
    pub fn peek_inner(&self) -> (r: &T)
        ensures
            *r == self@.inner,
    {
        &self.inner
    }
}

/// Protocol-level error of an action that records events. Storage errors are
/// not represented here: those surface from the caller's drain loop.
#[derive(Debug)]
pub enum ApiError<X, S = ()> {
    /// Retry from the same state.
    Transient(X),
    /// The session is terminally closed.
    Fatal(X),
    /// Fatal error that also produced a transition to an error state.
    FatalWithState(X, S),
}

impl<X: Message, S> Message for ApiError<X, S> {
    open spec fn text(&self) -> Seq<char> {
        match self {
            ApiError::Transient(e) => "Transient error: "@ + e.text(),
            ApiError::Fatal(e) | ApiError::FatalWithState(e, _) => "Fatal error: "@ + e.text(),
        }
    }

    fn message(&self) -> (r: String) {
        match self {
            ApiError::Transient(e) => "Transient error: ".to_owned().concat(e.message().as_str()),
            ApiError::Fatal(e) | ApiError::FatalWithState(e, _) => "Fatal error: ".to_owned().concat(
                e.message().as_str(),
            ),
        }
    }
}

/// A transition that either reached a new state or stayed where it was.
#[derive(Debug, PartialEq)]
pub enum OptionalTransitionOutcome<NextState, CurrentState> {
    /// The transition returned a next state.
    Progress(NextState),
    /// The transition returned nothing. Resume from the current state.
    Stasis(CurrentState),
}

/// What a transition asks to be written to the session log.
#[derive(Debug)]
pub enum PersistAction<E> {
    /// Append the event.
    Save(E),
    /// Append the event, which closes the session.
    SaveAndClose(E),
    /// Nothing to write.
    NoOp,
}

impl<E> PersistAction<E> {
    /// The events to write, in order.
    pub open spec fn events(self) -> Seq<E> {
        match self {
            PersistAction::Save(e) | PersistAction::SaveAndClose(e) => seq![e],
            PersistAction::NoOp => seq![],
        }
    }
}

/// A transition that moves a session on, or fails. The event that records a
/// move comes with it, so that no move goes unrecorded.
#[derive(Debug)]
pub enum Transition<E, T, X> {
    /// The session moved on.
    Success(E, T),
    /// Nothing moved. Retry from the same state.
    Transient(X),
    /// The session is terminally closed, as a failure.
    Fatal(X),
}

impl<E, T, X> Transition<E, T, X> {
    /// What to write to the session log. `failure` is the event by which a
    /// session is closed as a failure.
    pub open spec fn action(self, failure: E) -> PersistAction<E> {
        match self {
            Transition::Success(e, _) => PersistAction::Save(e),
            Transition::Transient(_) => PersistAction::NoOp,
            Transition::Fatal(_) => PersistAction::SaveAndClose(failure),
        }
    }

    /// The events to write, in order.
    pub open spec fn events(self, failure: E) -> Seq<E> {
        self.action(failure).events()
    }

    /// What came of the transition.
    pub open spec fn outcome(self) -> Result<T, ApiError<X>> {
        match self {
            Transition::Success(_, next) => Ok(next),
            Transition::Transient(err) => Err(ApiError::Transient(err)),
            Transition::Fatal(err) => Err(ApiError::Fatal(err)),
        }
    }

    /// Takes the transition apart: what to persist, and what came of it.
    pub fn deconstruct(self, failure: E) -> (r: (PersistAction<E>, Result<T, ApiError<X>>))
        ensures
            r.0 == self.action(failure),
            r.1 == self.outcome(),
    {
        match self {
            Transition::Success(e, next) => (PersistAction::Save(e), Ok(next)),
            Transition::Transient(err) => (PersistAction::NoOp, Err(ApiError::Transient(err))),
            Transition::Fatal(err) => (
                PersistAction::SaveAndClose(failure),
                Err(ApiError::Fatal(err)),
            ),
        }
    }
}

/// A transition that may also leave the session where it was.
#[derive(Debug)]
pub enum OptionalTransition<E, NextState, CurrentState, X> {
    /// The session moved on.
    Progress(E, NextState),
    /// Nothing moved. Resume from the current state.
    Stasis(CurrentState),
    /// Nothing moved. Retry from the same state.
    Transient(X),
    /// The session is terminally closed, as a failure.
    Fatal(X),
}

impl<E, NextState, CurrentState, X> OptionalTransition<E, NextState, CurrentState, X> {
    /// What to write to the session log. `failure` is the event by which a
    /// session is closed as a failure.
    pub open spec fn action(self, failure: E) -> PersistAction<E> {
        match self {
            OptionalTransition::Progress(e, _) => PersistAction::Save(e),
            OptionalTransition::Stasis(_) => PersistAction::NoOp,
            OptionalTransition::Transient(_) => PersistAction::NoOp,
            OptionalTransition::Fatal(_) => PersistAction::SaveAndClose(failure),
        }
    }

    /// The events to write, in order.
    pub open spec fn events(self, failure: E) -> Seq<E> {
        self.action(failure).events()
    }

    /// What came of the transition.
    pub open spec fn outcome(self) -> Result<
        OptionalTransitionOutcome<NextState, CurrentState>,
        ApiError<X>,
    > {
        match self {
            OptionalTransition::Progress(_, next) => Ok(OptionalTransitionOutcome::Progress(next)),
            OptionalTransition::Stasis(current) => Ok(OptionalTransitionOutcome::Stasis(current)),
            OptionalTransition::Transient(err) => Err(ApiError::Transient(err)),
            OptionalTransition::Fatal(err) => Err(ApiError::Fatal(err)),
        }
    }

    /// Takes the transition apart: what to persist, and what came of it.
    pub fn deconstruct(self, failure: E) -> (r: (
        PersistAction<E>,
        Result<OptionalTransitionOutcome<NextState, CurrentState>, ApiError<X>>,
    ))
        ensures
            r.0 == self.action(failure),
            r.1 == self.outcome(),
    {
        match self {
            OptionalTransition::Progress(e, next) => (
                PersistAction::Save(e),
                Ok(OptionalTransitionOutcome::Progress(next)),
            ),
            OptionalTransition::Stasis(current) => (
                PersistAction::NoOp,
                Ok(OptionalTransitionOutcome::Stasis(current)),
            ),
            OptionalTransition::Transient(err) => (
                PersistAction::NoOp,
                Err(ApiError::Transient(err)),
            ),
            OptionalTransition::Fatal(err) => (
                PersistAction::SaveAndClose(failure),
                Err(ApiError::Fatal(err)),
            ),
        }
    }
}

/// A transition that may fail into an error state of its own.
#[derive(Debug)]
pub enum CheckTransition<E, T, X, S> {
    /// The session moved on.
    Success(E, T),
    /// Nothing moved. Retry from the same state.
    Transient(X),
    /// The session is terminally closed, as a failure.
    Fatal(X),
    /// The session moved on to an error state.
    FatalWithState(E, X, S),
}

impl<E, T, X, S> CheckTransition<E, T, X, S> {
    /// What to write to the session log. `failure` is the event by which a
    /// session is closed as a failure.
    pub open spec fn action(self, failure: E) -> PersistAction<E> {
        match self {
            CheckTransition::Success(e, _) => PersistAction::Save(e),
            CheckTransition::Transient(_) => PersistAction::NoOp,
            CheckTransition::Fatal(_) => PersistAction::SaveAndClose(failure),
            CheckTransition::FatalWithState(e, _, _) => PersistAction::Save(e),
        }
    }

    /// The events to write, in order.
    pub open spec fn events(self, failure: E) -> Seq<E> {
        self.action(failure).events()
    }

    /// What came of the transition.
    pub open spec fn outcome(self) -> Result<T, ApiError<X, S>> {
        match self {
            CheckTransition::Success(_, next) => Ok(next),
            CheckTransition::Transient(err) => Err(ApiError::Transient(err)),
            CheckTransition::Fatal(err) => Err(ApiError::Fatal(err)),
            CheckTransition::FatalWithState(_, err, state) => Err(
                ApiError::FatalWithState(err, state),
            ),
        }
    }

    /// Takes the transition apart: what to persist, and what came of it.
    pub fn deconstruct(self, failure: E) -> (r: (PersistAction<E>, Result<T, ApiError<X, S>>))
        ensures
            r.0 == self.action(failure),
            r.1 == self.outcome(),
    {
        match self {
            CheckTransition::Success(e, next) => (PersistAction::Save(e), Ok(next)),
            CheckTransition::Transient(err) => (PersistAction::NoOp, Err(ApiError::Transient(err))),
            CheckTransition::Fatal(err) => (
                PersistAction::SaveAndClose(failure),
                Err(ApiError::Fatal(err)),
            ),
            CheckTransition::FatalWithState(e, err, state) => (
                PersistAction::Save(e),
                Err(ApiError::FatalWithState(err, state)),
            ),
        }
    }
}

/// A transition that cannot fail and is always recorded by one event.
#[derive(Debug)]
pub struct Advance<E, T> {
    /// The event to write to the session log.
    pub event: E,
    /// The state that was reached.
    pub state: T,
}

/// In-memory event log, for tests and for callers that have no storage of
/// their own yet.
pub struct InMemoryPersister<V> {
    events: Vec<V>,
}

impl<V> View for InMemoryPersister<V> {
    type V = Seq<V>;

    closed spec fn view(&self) -> Seq<V> {
        self.events@
    }
}

impl<V> Default for InMemoryPersister<V> {
    fn default() -> (r: Self)
        ensures
            r@ == Seq::<V>::empty(),
    {
        InMemoryPersister { events: Vec::new() }
    }
}

impl<V: Clone> InMemoryPersister<V> {
    /// Appends an event to the log.
    pub fn save_event(&mut self, event: V) -> (r: Result<(), std::convert::Infallible>)
        ensures
            r is Ok,
            final(self)@ == old(self)@.push(event),
    {
        self.events.push(event);
        Ok(())
    }

    /// Clones the persisted events, in append order.
    pub fn load(&self) -> (r: Result<Vec<V>, std::convert::Infallible>)
        ensures
            r matches Ok(events) && {
                &&& events@.len() == self@.len()
                &&& forall|i: int|
                    0 <= i < self@.len() ==> cloned::<V>(#[trigger] self@[i], events@[i])
            },
    {
        Ok(self.events.clone())
    }

    /// Drains `buf` into the log, committing each event after it lands.
    pub fn drain(&mut self, buf: &mut EventBuffer<V>) -> (r: Result<(), std::convert::Infallible>)
        ensures
            r is Ok,
            final(buf)@ == old(buf)@.commit(old(buf)@.pending.len()),
            final(self)@.len() == old(self)@.len() + old(buf)@.pending.len(),
            final(self)@.take(old(self)@.len() as int) == old(self)@,
            forall|i: int|
                0 <= i < old(buf)@.pending.len() ==> cloned::<V>(
                    #[trigger] old(buf)@.pending[i],
                    final(self)@[old(self)@.len() + i],
                ),
    {
        let ghost queue = buf@.pending;
        let ghost log = self@;
        let ghost mut done: nat = 0;
        assert(buf@ =~= old(buf)@.commit(0));
        loop
            invariant
                queue == old(buf)@.pending,
                log == old(self)@,
                done <= queue.len(),
                buf@ == old(buf)@.commit(done),
                self@.len() == log.len() + done,
                self@.take(log.len() as int) == log,
                forall|i: int|
                    0 <= i < done ==> cloned::<V>(#[trigger] queue[i], self@[log.len() + i]),
            ensures
                done == queue.len(),
            decreases queue.len() - done,
        {
            let event: V = match buf.front() {
                Some(front) => {
                    let event = front.clone();
                    assert(cloned::<V>(queue[done as int], event));
                    event
                },
                None => {
                    return Ok(());
                },
            };
            let ghost before = self@;
            self.save_event(event)?;
            buf.commit(1);
            proof {
                done = done + 1;
                assert(buf@ =~= old(buf)@.commit(done));
                assert(self@.take(log.len() as int) =~= before.take(log.len() as int));
                assert forall|i: int| 0 <= i < done implies cloned::<V>(
                    #[trigger] queue[i],
                    self@[log.len() + i],
                ) by {
                    if i < done - 1 {
                        assert(self@[log.len() + i] == before[log.len() + i]);
                    }
                }
            }
        }
    }
}

/// One thing that can happen to a buffer.
pub enum BufferStep<E> {
    /// A transition queues an event.
    Push(E),
    /// Storage has taken this many events.
    Commit(nat),
}

/// The buffer after `steps`, taken in order.
pub open spec fn after_steps<E>(v: EventBufferView<E>, steps: Seq<BufferStep<E>>) -> EventBufferView<
    E,
>
    decreases steps.len(),
{
    if steps.len() == 0 {
        v
    } else {
        let before = after_steps(v, steps.drop_last());
        match steps.last() {
            BufferStep::Push(e) => before.push(e),
            BufferStep::Commit(n) => before.commit(n),
        }
    }
}

/// Whether a provisional that needs `seq` would be confirmed against `v`.
pub open spec fn confirmed<E>(v: EventBufferView<E>, seq: nat) -> bool {
    v.committed >= seq
}

/// A push alone makes nothing durable, and takes the next sequence number.
pub proof fn law_push_does_not_commit<E>(v: EventBufferView<E>, e: E)
    ensures
        v.push(e).committed == v.committed,
        v.push(e).pushed() == v.pushed() + 1,
        !confirmed(v.push(e), v.push(e).pushed()),
{
}

/// A commit moves events from queued to durable and loses count of none; one
/// past the end drains the buffer, and on an empty buffer it does nothing.
pub proof fn law_commit_conserves_events<E>(v: EventBufferView<E>, n: nat)
    ensures
        v.commit(n).pushed() == v.pushed(),
        v.commit(n).committed >= v.committed,
        n >= v.pending.len() ==> v.commit(n) == EventBufferView::<E>::replayed(v.pushed()),
        v.pending.len() == 0 ==> v.commit(n) == v,
{
    if n >= v.pending.len() {
        assert(v.commit(n) =~= EventBufferView::<E>::replayed(v.pushed()));
    }
    if v.pending.len() == 0 {
        assert(v.commit(n) =~= v);
    }
}

/// Committing in two parts is committing at once: a drain that was cut short
/// can be taken up again where it stopped.
pub proof fn law_commits_compose<E>(v: EventBufferView<E>, a: nat, b: nat)
    ensures
        v.commit(a).commit(b) == v.commit(a + b),
{
    assert(v.commit(a).commit(b) =~= v.commit(a + b));
}

/// Persist before expose. Whatever is pushed and committed after an event was
/// queued, a provisional that waits for it is refused as long as the event is
/// still queued, and the event is then found at the place its number gives.
pub proof fn law_persist_before_expose<E>(
    v: EventBufferView<E>,
    e: E,
    steps: Seq<BufferStep<E>>,
)
    ensures
        ({
            let seq = v.push(e).pushed();
            let now = after_steps(v.push(e), steps);
            &&& now.pushed() >= seq
            &&& !confirmed(now, seq) ==> now.pending[seq - 1 - now.committed] == e
            &&& now.pending.len() == 0 ==> confirmed(now, seq)
        }),
    decreases steps.len(),
{
    if steps.len() > 0 {
        law_persist_before_expose(v, e, steps.drop_last());
    }
}

/// Once confirmed, always confirmed: no later push or commit takes it back.
pub proof fn law_confirmation_is_stable<E>(
    v: EventBufferView<E>,
    seq: nat,
    steps: Seq<BufferStep<E>>,
)
    requires
        confirmed(v, seq),
    ensures
        confirmed(after_steps(v, steps), seq),
    decreases steps.len(),
{
    if steps.len() > 0 {
        law_confirmation_is_stable(v, seq, steps.drop_last());
    }
}

/// One turn of a drain loop, writing the front event and committing it, leaves
/// the log followed by the queue unchanged: a crash between turns loses nothing.
pub proof fn law_drain_turn_loses_nothing<E>(log: Seq<E>, v: EventBufferView<E>)
    requires
        v.pending.len() > 0,
    ensures
        log.push(v.pending[0]) + v.commit(1).pending == log + v.pending,
{
    assert(log.push(v.pending[0]) + v.commit(1).pending =~= log + v.pending);
}

/// Draining a session's buffer and waking it up again from its log gives the
/// same buffer: the sequence numbers go on where they stopped.
pub proof fn law_replay_continues_the_sequence<E>(log: Seq<E>, v: EventBufferView<E>)
    requires
        v.committed == log.len(),
    ensures
        EventBufferView::<E>::replayed((log + v.pending).len()) == v.commit(v.pending.len()),
{
    assert(EventBufferView::<E>::replayed((log + v.pending).len()) =~= v.commit(v.pending.len()));
}

/// A queued event stands behind all that were queued before it, which keep
/// their places. Nothing becomes durable by it, and the number it is given
/// counts all events up to it.
pub proof fn law_events_queue_in_order<E>(e: E)
    ensures
        forall|buf: &mut EventBuffer<E>, r: u64| #[trigger]
            call_ensures(EventBuffer::<E>::push, (buf, e), r) ==> {
                let before = (*buf)@;
                let after = (*final(buf))@;
                &&& after.pending.len() == before.pending.len() + 1
                &&& after.pending[before.pending.len() as int] == e
                &&& forall|i: int|
                    0 <= i < before.pending.len() ==> #[trigger] after.pending[i]
                        == before.pending[i]
                &&& after.committed == before.committed
                &&& r == before.committed + before.pending.len() + 1
            },
{
}

/// An action queues the one event it carries, whether or not that closes the
/// session. An action without an event leaves the buffer as it is.
pub proof fn law_actions_queue_their_event<E>(action: PersistAction<E>)
    ensures
        forall|buf: &mut EventBuffer<E>, r: ()| #[trigger]
            call_ensures(EventBuffer::<E>::record, (buf, action), r) ==> {
                let before = (*buf)@;
                let after = (*final(buf))@;
                &&& after.committed == before.committed
                &&& action is NoOp ==> after.pending == before.pending
                &&& action matches PersistAction::Save(e) ==> after.pending == before.pending.push(
                    e,
                )
                &&& action matches PersistAction::SaveAndClose(e) ==> after.pending
                    == before.pending.push(e)
            },
{
}

/// A commit makes the oldest events durable, as many as were named and no more
/// than there are. The others stay queued, in their order.
pub proof fn law_commits_take_the_oldest<E>(n: usize)
    ensures
        forall|buf: &mut EventBuffer<E>, r: ()| #[trigger]
            call_ensures(EventBuffer::<E>::commit, (buf, n), r) ==> {
                let before = (*buf)@;
                let after = (*final(buf))@;
                let gone = after.committed - before.committed;
                &&& n <= before.pending.len() ==> gone == n
                &&& n > before.pending.len() ==> gone == before.pending.len()
                &&& after.pending.len() == before.pending.len() - gone
                &&& forall|i: int|
                    0 <= i < after.pending.len() ==> #[trigger] after.pending[i]
                        == before.pending[gone + i]
            },
{
}

/// A new buffer holds nothing, and one behind a replayed log holds nothing
/// either but counts the events of the log as durable.
pub proof fn law_new_buffers_hold_nothing<E>(replayed: u64, buf: EventBuffer<E>)
    ensures
        call_ensures(EventBuffer::<E>::new, (), buf) ==> buf@.pending.len() == 0 && buf@.committed
            == 0,
        call_ensures(EventBuffer::<E>::after_replay, (replayed,), buf) ==> buf@.pending.len() == 0
            && buf@.committed == replayed,
{
}

/// What a buffer tells of itself: whether it holds events, how many, and how
/// many are durable.
pub proof fn law_buffers_count_their_events<E>(
    buf: &EventBuffer<E>,
    empty: bool,
    len: usize,
    committed: u64,
)
    requires
        call_ensures(EventBuffer::<E>::is_empty, (buf,), empty),
        call_ensures(EventBuffer::<E>::len, (buf,), len),
        call_ensures(EventBuffer::<E>::committed_count, (buf,), committed),
    ensures
        empty <==> len == 0,
        len == buf@.pending.len(),
        committed == buf@.committed,
{
}

/// A value is handed out exactly if as many events are durable as it waits
/// for; otherwise the provisional comes back unchanged.
pub proof fn law_provisionals_wait<T, E>(
    p: Provisional<T>,
    buf: &EventBuffer<E>,
    r: Result<T, Provisional<T>>,
)
    requires
        call_ensures(Provisional::<T>::confirm::<E>, (p, buf), r),
    ensures
        r is Ok <==> buf@.committed >= p@.needs_committed,
        r matches Ok(inner) ==> inner == p@.inner,
        r matches Err(back) ==> back == p,
{
}

/// A value that is staged with its event is not handed out before the event
/// is durable: the event is the last that is queued, and the value waits for
/// all of them.
pub proof fn law_staging_queues_the_event<T, E>(inner: T, event: E)
    ensures
        forall|buf: &mut EventBuffer<E>, r: Provisional<T>| #[trigger]
            call_ensures(Provisional::<T>::stage::<E>, (inner, event, buf), r) ==> {
                let before = (*buf)@;
                let after = (*final(buf))@;
                &&& after.pending == before.pending.push(event)
                &&& after.committed == before.committed
                &&& r@.inner == inner
                &&& r@.needs_committed == before.committed + before.pending.len() + 1
                &&& r@.needs_committed > after.committed
            },
{
}

/// Taking a transition apart loses nothing: the event of a move is to be
/// saved, the state that was reached and the error that was met come out as
/// they are. A transient error leaves nothing to be saved, a fatal one the
/// event that closes the session.
pub proof fn law_transitions_come_apart<E, T, X>(
    t: Transition<E, T, X>,
    failure: E,
    r: (PersistAction<E>, Result<T, ApiError<X>>),
)
    requires
        call_ensures(Transition::<E, T, X>::deconstruct, (t, failure), r),
    ensures
        match t {
            Transition::Success(e, next) => r.0 == PersistAction::Save(e) && r.1 == Ok::<
                T,
                ApiError<X>,
            >(next),
            Transition::Transient(x) => r.0 == PersistAction::<E>::NoOp && r.1 == Err::<
                T,
                ApiError<X>,
            >(ApiError::Transient(x)),
            Transition::Fatal(x) => r.0 == PersistAction::SaveAndClose(failure) && r.1 == Err::<
                T,
                ApiError<X>,
            >(ApiError::Fatal(x)),
        },
        t.events(failure) == (match r.0 {
            PersistAction::Save(e) => seq![e],
            PersistAction::SaveAndClose(e) => seq![e],
            PersistAction::NoOp => Seq::empty(),
        }),
        t.outcome() == r.1,
{
}

/// Taking apart a transition that may leave the session where it was loses
/// nothing: only a move and a fatal error leave an event.
pub proof fn law_optional_transitions_come_apart<E, N, S, X>(
    t: OptionalTransition<E, N, S, X>,
    failure: E,
    r: (PersistAction<E>, Result<OptionalTransitionOutcome<N, S>, ApiError<X>>),
)
    requires
        call_ensures(OptionalTransition::<E, N, S, X>::deconstruct, (t, failure), r),
    ensures
        match t {
            OptionalTransition::Progress(e, next) => r.0 == PersistAction::Save(e) && r.1 == Ok::<
                OptionalTransitionOutcome<N, S>,
                ApiError<X>,
            >(OptionalTransitionOutcome::Progress(next)),
            OptionalTransition::Stasis(current) => r.0 == PersistAction::<E>::NoOp && r.1 == Ok::<
                OptionalTransitionOutcome<N, S>,
                ApiError<X>,
            >(OptionalTransitionOutcome::Stasis(current)),
            OptionalTransition::Transient(x) => r.0 == PersistAction::<E>::NoOp && r.1 == Err::<
                OptionalTransitionOutcome<N, S>,
                ApiError<X>,
            >(ApiError::Transient(x)),
            OptionalTransition::Fatal(x) => r.0 == PersistAction::SaveAndClose(failure) && r.1
                == Err::<OptionalTransitionOutcome<N, S>, ApiError<X>>(ApiError::Fatal(x)),
        },
        t.events(failure) == (match r.0 {
            PersistAction::Save(e) => seq![e],
            PersistAction::SaveAndClose(e) => seq![e],
            PersistAction::NoOp => Seq::empty(),
        }),
        t.outcome() == r.1,
{
}

/// Taking apart a transition that may reach an error state loses nothing: the
/// event of the error state is saved like that of any other move, and does not
/// close the session.
pub proof fn law_check_transitions_come_apart<E, T, X, S>(
    t: CheckTransition<E, T, X, S>,
    failure: E,
    r: (PersistAction<E>, Result<T, ApiError<X, S>>),
)
    requires
        call_ensures(CheckTransition::<E, T, X, S>::deconstruct, (t, failure), r),
    ensures
        match t {
            CheckTransition::Success(e, next) => r.0 == PersistAction::Save(e) && r.1 == Ok::<
                T,
                ApiError<X, S>,
            >(next),
            CheckTransition::Transient(x) => r.0 == PersistAction::<E>::NoOp && r.1 == Err::<
                T,
                ApiError<X, S>,
            >(ApiError::Transient(x)),
            CheckTransition::Fatal(x) => r.0 == PersistAction::SaveAndClose(failure) && r.1
                == Err::<T, ApiError<X, S>>(ApiError::Fatal(x)),
            CheckTransition::FatalWithState(e, x, state) => r.0 == PersistAction::Save(e) && r.1
                == Err::<T, ApiError<X, S>>(ApiError::FatalWithState(x, state)),
        },
        t.events(failure) == (match r.0 {
            PersistAction::Save(e) => seq![e],
            PersistAction::SaveAndClose(e) => seq![e],
            PersistAction::NoOp => Seq::empty(),
        }),
        t.outcome() == r.1,
{
}

/// The message of an error says whether a retry may help, and then what went
/// wrong. An error state goes unmentioned.
pub proof fn law_severity_is_spelled_out<X: Message, S>(e: ApiError<X, S>, msg: String)
    requires
        call_ensures(<ApiError<X, S> as Message>::message, (&e,), msg),
    ensures
        match e {
            ApiError::Transient(x) => msg@ == "Transient error: "@ + x.text(),
            ApiError::Fatal(x) => msg@ == "Fatal error: "@ + x.text(),
            ApiError::FatalWithState(x, _) => msg@ == "Fatal error: "@ + x.text(),
        },
{
}

/// A drain moves every queued event behind those in the log, in order, and
/// leaves a buffer in which all events are durable.
pub proof fn law_drains_move_everything<V: Clone>()
    ensures
        forall|
            log: &mut InMemoryPersister<V>,
            buf: &mut EventBuffer<V>,
            r: Result<(), std::convert::Infallible>,
        | #[trigger]
            call_ensures(InMemoryPersister::<V>::drain, (log, buf), r) ==> {
                let queued = (*buf)@.pending;
                let old_log = (*log)@;
                let new_log = (*final(log))@;
                &&& r is Ok
                &&& (*final(buf))@.pending.len() == 0
                &&& (*final(buf))@.committed == (*buf)@.committed + queued.len()
                &&& new_log.len() == old_log.len() + queued.len()
                &&& forall|i: int| 0 <= i < old_log.len() ==> #[trigger] new_log[i] == old_log[i]
                &&& forall|i: int|
                    0 <= i < queued.len() ==> cloned::<V>(
                        #[trigger] queued[i],
                        new_log[old_log.len() + i],
                    )
            },
{
    assert forall|
        log: &mut InMemoryPersister<V>,
        buf: &mut EventBuffer<V>,
        r: Result<(), std::convert::Infallible>,
    | #[trigger] call_ensures(InMemoryPersister::<V>::drain, (log, buf), r) implies forall|i: int|
        0 <= i < (*log)@.len() ==> #[trigger] (*final(log))@[i] == (*log)@[i] by {
        assert forall|i: int| 0 <= i < (*log)@.len() implies #[trigger] (*final(log))@[i] == (
        *log)@[i] by {
            assert((*final(log))@.take((*log)@.len() as int)[i] == (*final(log))@[i]);
        }
    }
}

/// A provisional holds what it was given, behind the number it was given.
pub proof fn law_provisionals_hold_what_was_given<T>(
    inner: T,
    needs_committed: u64,
    p: Provisional<T>,
    seen: &T,
)
    requires
        call_ensures(Provisional::<T>::new, (inner, needs_committed), p),
        call_ensures(Provisional::<T>::peek_inner, (&p,), seen),
    ensures
        p@.inner == inner,
        p@.needs_committed == needs_committed,
        *seen == inner,
{
}

/// The log starts out empty, keeps every event that is saved behind those
/// before it, and is loaded as it stands.
pub proof fn law_saved_events_are_loaded_in_order<V: Clone>(
    event: V,
    before: Seq<V>,
    after: InMemoryPersister<V>,
    saved: Result<(), std::convert::Infallible>,
    loaded: Result<Vec<V>, std::convert::Infallible>,
)
    requires
        exists|log: &mut InMemoryPersister<V>| #[trigger]
            call_ensures(InMemoryPersister::<V>::save_event, (log, event), saved) && (*log)@
                == before && *final(log) == after,
        call_ensures(InMemoryPersister::<V>::load, (&after,), loaded),
    ensures
        saved is Ok,
        after@.len() == before.len() + 1,
        after@[before.len() as int] == event,
        forall|i: int| 0 <= i < before.len() ==> #[trigger] after@[i] == before[i],
        loaded is Ok,
        loaded->Ok_0@.len() == after@.len(),
        forall|i: int|
            0 <= i < after@.len() ==> cloned::<V>(#[trigger] after@[i], loaded->Ok_0@[i]),
{
}

/// What is made without a word of the caller is empty.
pub proof fn law_defaults_are_empty<E, V>(buf: EventBuffer<E>, log: InMemoryPersister<V>)
    requires
        call_ensures(<EventBuffer<E> as Default>::default, (), buf),
        call_ensures(<InMemoryPersister<V> as Default>::default, (), log),
    ensures
        buf@.pending.len() == 0,
        buf@.committed == 0,
        log@.len() == 0,
{
}

/// The queued events are shown to storage all, oldest first.
pub proof fn law_queued_events_are_shown_in_order<E>(
    buf: &EventBuffer<E>,
    shown: std::collections::vec_deque::Iter<'_, E>,
)
    requires
        call_ensures(EventBuffer::<E>::peek, (buf,), shown),
    ensures
        shown.remaining().len() == buf@.pending.len(),
        forall|i: int|
            0 <= i < buf@.pending.len() ==> *(#[trigger] shown.remaining()[i]) == buf@.pending[i],
{
}

} // verus!
