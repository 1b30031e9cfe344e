//! What callers of the receiver's states can rely on, call by call.
use crate::chain::{
    decoded_tx, law_txid_text_reads_back, psbt_text, txid_bytes, CoreOutPoint, CoreTxOut, Psbt,
    Txid,
};
use crate::error::{FfiValidationError, ForeignError};
use crate::persist::{
    Advance, CheckTransition, OptionalTransition, OptionalTransitionOutcome, Transition,
};
use crate::receive::buffer::{ProvisionalPayjoinProposal, ReceiverEventBuffer};
use crate::receive::builder::ReceiverBuilder;
use crate::receive::callbacks::{
    AlreadySigned, CanBroadcast, ForeignBroadcast, ForeignKnown, ForeignLookup, ForeignOwned,
    ForeignSigner, IsOutputKnown, IsScriptOwned, ProcessPsbt, TransactionExists,
};
use crate::receive::engine::{
    CheckReply, PaymentReply, PollReply, ReceiverEngine, ReceiverEvent, ReceiverParams,
    ReceiverReply, ReceiverStates, ReceiverTerms, Reference, SessionOutcome, TaggedReference,
};
use crate::receive::error::{
    HasReplyableError, InputContributionError, OutputSubstitutionError,
    OutputSubstitutionProtocolError, ProtocolError, ReceiveCause, ReceiveFailure, ReceiverApiError,
    ReceiverError, ReceiverErrorKind, SelectionError, SessionError,
};
use crate::receive::references::{
    InputOwnedReference, InputOwnedTaggedReference, InputSeenReference, InputSeenTaggedReference,
    OutputOwnedReference, OutputOwnedTaggedReference,
};
use crate::receive::states::{
    txout_accepted, txouts_ruled, Initialized, InitializedTransitionOutcome, MaybeInputsOwned, MaybeInputsSeen,
    Monitor, MonitorTransitionOutcome, OutputsUnknown, PayjoinProposal, ProvisionalProposal,
    RequestResponse, Signature, UncheckedOriginalPayload, WantsFeeRange, WantsInputs, WantsOutputs,
};
use crate::receive::values::{may_accept_output, txout_ruled, InputPair, OutPoint, TxOut};
use crate::session::{PjUri, Request, SessionEvent};
use crate::staging::{queued, waits_behind, NumberedBufferView};
use crate::validation::{lemma_one_way_to_accept, vb_validated};
use vstd::prelude::*;

verus! {

/// A buffer of receiver events.
pub type Buffer<C> = NumberedBufferView<ReceiverEvent<C>>;

/// Whether `kind` and `msg` tell of `failure`: the kind is that of its cause,
/// and the message names the kind and what went wrong.
pub open spec fn tells(failure: ReceiveFailure, kind: ReceiverErrorKind, msg: Seq<char>) -> bool {
    match failure.cause {
        ReceiveCause::Protocol(e) => kind is Protocol && msg == "Protocol error: "@ + e.msg@,
        ReceiveCause::Implementation(e) => kind is Implementation && msg
            == "Implementation error: "@ + e.msg@,
        ReceiveCause::Other => kind is Unexpected && msg == "An unexpected error occurred"@,
    }
}

/// What a check that did not let the session go on leads to. What may be
/// retried leaves nothing in the buffer; what is final closes the session as a
/// failure, or moves it to the state from which the error can be replied.
pub open spec fn check_stopped<C: ReceiverStates, T, N>(
    t: CheckReply<C, T>,
    before: Buffer<C>,
    after: Buffer<C>,
    r: Result<N, ReceiverApiError<C>>,
) -> bool {
    match t {
        CheckTransition::Success(_, _) => false,
        CheckTransition::Transient(e) => after == before && (r matches Err(
            ReceiverApiError::Transient { kind, msg },
        ) && tells(e, kind, msg@)),
        CheckTransition::Fatal(e) => queued(
            before,
            after,
            SessionEvent::Closed(SessionOutcome::Failure),
        ) && (r matches Err(ReceiverApiError::Fatal { kind, msg }) && tells(e, kind, msg@)),
        CheckTransition::FatalWithState(event, e, replyable) => queued(before, after, event) && (
        r matches Err(ReceiverApiError::FatalWithReplyableState { kind, msg, state }) && state.0
            == replyable && tells(e, kind, msg@)),
    }
}

/// What a transition that the protocol refused leads to.
pub open spec fn protocol_stopped<C: ReceiverStates, T, N>(
    t: ReceiverReply<C, T, ProtocolError>,
    before: Buffer<C>,
    after: Buffer<C>,
    r: Result<N, ReceiverApiError<C>>,
) -> bool {
    match t {
        Transition::Success(_, _) => false,
        Transition::Transient(e) => after == before && (r matches Err(
            ReceiverApiError::Transient { kind, msg },
        ) && kind is Protocol && msg@ == "Protocol error: "@ + e.msg@),
        Transition::Fatal(e) => queued(
            before,
            after,
            SessionEvent::Closed(SessionOutcome::Failure),
        ) && (r matches Err(ReceiverApiError::Fatal { kind, msg }) && kind is Protocol && msg@
            == "Protocol error: "@ + e.msg@),
    }
}

/// What watching for the payment leads to, for each answer of the protocol.
pub open spec fn watched<C: ReceiverStates>(
    t: PaymentReply<C>,
    before: Buffer<C>,
    after: Buffer<C>,
    r: Result<MonitorTransitionOutcome<C>, ReceiverApiError<C>>,
) -> bool {
    match t {
        OptionalTransition::Progress(event, _) => queued(before, after, event) && (r matches Ok(
            outcome,
        ) && outcome is Progress),
        OptionalTransition::Stasis(current) => after == before && (r matches Ok(
            MonitorTransitionOutcome::Stasis { inner },
        ) && inner.0 == current),
        OptionalTransition::Transient(e) => after == before && (r matches Err(
            ReceiverApiError::Transient { kind, msg },
        ) && kind is Implementation && msg@ == "Implementation error: "@ + e.msg@),
        OptionalTransition::Fatal(e) => queued(
            before,
            after,
            SessionEvent::Closed(SessionOutcome::Failure),
        ) && (r matches Err(ReceiverApiError::Fatal { kind, msg }) && kind is Implementation && msg@
            == "Implementation error: "@ + e.msg@),
    }
}

/// What a signature leads to: a proposal that waits behind its event, or the
/// reason why there is none.
pub open spec fn signed<C: ReceiverStates>(
    t: Signature<C>,
    before: Buffer<C>,
    after: Buffer<C>,
    r: Result<ProvisionalPayjoinProposal<C>, ReceiverApiError<C>>,
) -> bool {
    match t {
        Transition::Success(event, proposal) => queued(before, after, event) && (r matches Ok(
            provisional,
        ) && waits_behind(provisional@, after, proposal)),
        Transition::Transient(e) => after == before && (r matches Err(
            ReceiverApiError::Transient { kind, msg },
        ) && kind is Implementation && msg@ == "Implementation error: "@ + e.msg@),
        Transition::Fatal(e) => queued(
            before,
            after,
            SessionEvent::Closed(SessionOutcome::Failure),
        ) && (r matches Err(ReceiverApiError::Fatal { kind, msg }) && kind is Implementation && msg@
            == "Implementation error: "@ + e.msg@),
    }
}

/// Cancelling queues the event that closes the session as cancelled, and gives
/// the original transaction, if it arrived, to fall back on.
pub proof fn law_initialized_cancel_closes_the_session<C: ReceiverEngine>(
    session: &Initialized<C>,
    before: Buffer<C>,
    after: Buffer<C>,
    r: Option<Vec<u8>>,
)
    requires
        exists|buf: &mut ReceiverEventBuffer<C>| #[trigger]
            call_ensures(Initialized::<C>::cancel, (session, buf), r)
                && (*buf)@ == before && (*final(buf))@ == after,
    ensures
        queued(before, after, SessionEvent::Closed(SessionOutcome::Cancel)),
        call_ensures(C::fallback_initialized, (&session.0,), r),
{
}

/// Cancelling queues the event that closes the session as cancelled, and gives
/// the original transaction, if it arrived, to fall back on.
pub proof fn law_unchecked_cancel_closes_the_session<C: ReceiverEngine>(
    session: &UncheckedOriginalPayload<C>,
    before: Buffer<C>,
    after: Buffer<C>,
    r: Option<Vec<u8>>,
)
    requires
        exists|buf: &mut ReceiverEventBuffer<C>| #[trigger]
            call_ensures(UncheckedOriginalPayload::<C>::cancel, (session, buf), r)
                && (*buf)@ == before && (*final(buf))@ == after,
    ensures
        queued(before, after, SessionEvent::Closed(SessionOutcome::Cancel)),
        call_ensures(C::fallback_unchecked, (&session.0,), r),
{
}

/// Cancelling queues the event that closes the session as cancelled, and gives
/// the original transaction, if it arrived, to fall back on.
pub proof fn law_inputs_owned_cancel_closes_the_session<C: ReceiverEngine>(
    session: &MaybeInputsOwned<C>,
    before: Buffer<C>,
    after: Buffer<C>,
    r: Option<Vec<u8>>,
)
    requires
        exists|buf: &mut ReceiverEventBuffer<C>| #[trigger]
            call_ensures(MaybeInputsOwned::<C>::cancel, (session, buf), r)
                && (*buf)@ == before && (*final(buf))@ == after,
    ensures
        queued(before, after, SessionEvent::Closed(SessionOutcome::Cancel)),
        call_ensures(C::fallback_inputs_owned, (&session.0,), r),
{
}

/// Cancelling queues the event that closes the session as cancelled, and gives
/// the original transaction, if it arrived, to fall back on.
pub proof fn law_inputs_seen_cancel_closes_the_session<C: ReceiverEngine>(
    session: &MaybeInputsSeen<C>,
    before: Buffer<C>,
    after: Buffer<C>,
    r: Option<Vec<u8>>,
)
    requires
        exists|buf: &mut ReceiverEventBuffer<C>| #[trigger]
            call_ensures(MaybeInputsSeen::<C>::cancel, (session, buf), r)
                && (*buf)@ == before && (*final(buf))@ == after,
    ensures
        queued(before, after, SessionEvent::Closed(SessionOutcome::Cancel)),
        call_ensures(C::fallback_inputs_seen, (&session.0,), r),
{
}

/// Cancelling queues the event that closes the session as cancelled, and gives
/// the original transaction, if it arrived, to fall back on.
pub proof fn law_outputs_unknown_cancel_closes_the_session<C: ReceiverEngine>(
    session: &OutputsUnknown<C>,
    before: Buffer<C>,
    after: Buffer<C>,
    r: Option<Vec<u8>>,
)
    requires
        exists|buf: &mut ReceiverEventBuffer<C>| #[trigger]
            call_ensures(OutputsUnknown::<C>::cancel, (session, buf), r)
                && (*buf)@ == before && (*final(buf))@ == after,
    ensures
        queued(before, after, SessionEvent::Closed(SessionOutcome::Cancel)),
        call_ensures(C::fallback_outputs_unknown, (&session.0,), r),
{
}

/// Cancelling queues the event that closes the session as cancelled, and gives
/// the original transaction, if it arrived, to fall back on.
pub proof fn law_wants_outputs_cancel_closes_the_session<C: ReceiverEngine>(
    session: &WantsOutputs<C>,
    before: Buffer<C>,
    after: Buffer<C>,
    r: Option<Vec<u8>>,
)
    requires
        exists|buf: &mut ReceiverEventBuffer<C>| #[trigger]
            call_ensures(WantsOutputs::<C>::cancel, (session, buf), r)
                && (*buf)@ == before && (*final(buf))@ == after,
    ensures
        queued(before, after, SessionEvent::Closed(SessionOutcome::Cancel)),
        call_ensures(C::fallback_wants_outputs, (&session.0,), r),
{
}

/// Cancelling queues the event that closes the session as cancelled, and gives
/// the original transaction, if it arrived, to fall back on.
pub proof fn law_wants_inputs_cancel_closes_the_session<C: ReceiverEngine>(
    session: &WantsInputs<C>,
    before: Buffer<C>,
    after: Buffer<C>,
    r: Option<Vec<u8>>,
)
    requires
        exists|buf: &mut ReceiverEventBuffer<C>| #[trigger]
            call_ensures(WantsInputs::<C>::cancel, (session, buf), r)
                && (*buf)@ == before && (*final(buf))@ == after,
    ensures
        queued(before, after, SessionEvent::Closed(SessionOutcome::Cancel)),
        call_ensures(C::fallback_wants_inputs, (&session.0,), r),
{
}

/// Cancelling queues the event that closes the session as cancelled, and gives
/// the original transaction, if it arrived, to fall back on.
pub proof fn law_wants_fee_range_cancel_closes_the_session<C: ReceiverEngine>(
    session: &WantsFeeRange<C>,
    before: Buffer<C>,
    after: Buffer<C>,
    r: Option<Vec<u8>>,
)
    requires
        exists|buf: &mut ReceiverEventBuffer<C>| #[trigger]
            call_ensures(WantsFeeRange::<C>::cancel, (session, buf), r)
                && (*buf)@ == before && (*final(buf))@ == after,
    ensures
        queued(before, after, SessionEvent::Closed(SessionOutcome::Cancel)),
        call_ensures(C::fallback_wants_fee_range, (&session.0,), r),
{
}

/// Cancelling queues the event that closes the session as cancelled, and gives
/// the original transaction, if it arrived, to fall back on.
pub proof fn law_provisional_cancel_closes_the_session<C: ReceiverEngine>(
    session: &ProvisionalProposal<C>,
    before: Buffer<C>,
    after: Buffer<C>,
    r: Option<Vec<u8>>,
)
    requires
        exists|buf: &mut ReceiverEventBuffer<C>| #[trigger]
            call_ensures(ProvisionalProposal::<C>::cancel, (session, buf), r)
                && (*buf)@ == before && (*final(buf))@ == after,
    ensures
        queued(before, after, SessionEvent::Closed(SessionOutcome::Cancel)),
        call_ensures(C::fallback_provisional, (&session.0,), r),
{
}

/// Cancelling queues the event that closes the session as cancelled, and gives
/// the original transaction, if it arrived, to fall back on.
pub proof fn law_proposal_cancel_closes_the_session<C: ReceiverEngine>(
    session: &PayjoinProposal<C>,
    before: Buffer<C>,
    after: Buffer<C>,
    r: Option<Vec<u8>>,
)
    requires
        exists|buf: &mut ReceiverEventBuffer<C>| #[trigger]
            call_ensures(PayjoinProposal::<C>::cancel, (session, buf), r)
                && (*buf)@ == before && (*final(buf))@ == after,
    ensures
        queued(before, after, SessionEvent::Closed(SessionOutcome::Cancel)),
        call_ensures(C::fallback_proposal, (&session.0,), r),
{
}

/// Cancelling queues the event that closes the session as cancelled, and gives
/// the original transaction, if it arrived, to fall back on.
pub proof fn law_replyable_cancel_closes_the_session<C: ReceiverEngine>(
    session: &HasReplyableError<C>,
    before: Buffer<C>,
    after: Buffer<C>,
    r: Option<Vec<u8>>,
)
    requires
        exists|buf: &mut ReceiverEventBuffer<C>| #[trigger]
            call_ensures(HasReplyableError::<C>::cancel, (session, buf), r)
                && (*buf)@ == before && (*final(buf))@ == after,
    ensures
        queued(before, after, SessionEvent::Closed(SessionOutcome::Cancel)),
        call_ensures(C::fallback_replyable, (&session.0,), r),
{
}

/// Cancelling queues the event that closes the session as cancelled, and gives
/// the original transaction, if it arrived, to fall back on.
pub proof fn law_monitor_cancel_closes_the_session<C: ReceiverEngine>(
    session: &Monitor<C>,
    before: Buffer<C>,
    after: Buffer<C>,
    r: Option<Vec<u8>>,
)
    requires
        exists|buf: &mut ReceiverEventBuffer<C>| #[trigger]
            call_ensures(Monitor::<C>::cancel, (session, buf), r)
                && (*buf)@ == before && (*final(buf))@ == after,
    ensures
        queued(before, after, SessionEvent::Closed(SessionOutcome::Cancel)),
        call_ensures(C::fallback_monitor, (&session.0,), r),
{
}

/// Whether the sender spends the receiver's coins is decided by the protocol
/// from what the application answers, and nothing else decides.
pub proof fn law_the_application_is_asked_for_owned_inputs<C: ReceiverEngine, B: IsScriptOwned>(
    session: &MaybeInputsOwned<C>,
    is_owned: &B,
    before: Buffer<C>,
    after: Buffer<C>,
    r: Result<MaybeInputsSeen<C>, ReceiverApiError<C>>,
)
    requires
        exists|buf: &mut ReceiverEventBuffer<C>| #[trigger]
            call_ensures(
                MaybeInputsOwned::<C>::check_inputs_not_owned::<B>,
                (session, is_owned, buf),
                r,
            ) && (*buf)@ == before && (*final(buf))@ == after,
    ensures
        exists|t: CheckReply<C, C::MaybeInputsSeen>| #[trigger]
            call_ensures(
                C::check_inputs_not_owned::<ForeignOwned<B>>,
                (&session.0, &ForeignOwned(is_owned)),
                t,
            ) && match t {
                CheckTransition::Success(event, next) => queued(before, after, event) && (
                r matches Ok(s) && s.0 == next),
                _ => check_stopped(t, before, after, r),
            },
{
}

/// Whether the sender's coins were seen before is decided by the protocol from
/// what the application answers, and nothing else decides.
pub proof fn law_the_application_is_asked_for_seen_inputs<C: ReceiverEngine, B: IsOutputKnown>(
    session: &MaybeInputsSeen<C>,
    is_known: &B,
    before: Buffer<C>,
    after: Buffer<C>,
    r: Result<OutputsUnknown<C>, ReceiverApiError<C>>,
)
    requires
        exists|buf: &mut ReceiverEventBuffer<C>| #[trigger]
            call_ensures(
                MaybeInputsSeen::<C>::check_no_inputs_seen_before::<B>,
                (session, is_known, buf),
                r,
            ) && (*buf)@ == before && (*final(buf))@ == after,
    ensures
        exists|t: CheckReply<C, C::OutputsUnknown>| #[trigger]
            call_ensures(
                C::check_no_inputs_seen_before::<ForeignKnown<B>>,
                (&session.0, &ForeignKnown(is_known)),
                t,
            ) && match t {
                CheckTransition::Success(event, next) => queued(before, after, event) && (
                r matches Ok(s) && s.0 == next),
                _ => check_stopped(t, before, after, r),
            },
{
}

/// Which outputs pay the receiver is decided by the protocol from what the
/// application answers, and nothing else decides.
pub proof fn law_the_application_is_asked_for_owned_outputs<C: ReceiverEngine, B: IsScriptOwned>(
    session: &OutputsUnknown<C>,
    is_receiver_output: &B,
    before: Buffer<C>,
    after: Buffer<C>,
    r: Result<WantsOutputs<C>, ReceiverApiError<C>>,
)
    requires
        exists|buf: &mut ReceiverEventBuffer<C>| #[trigger]
            call_ensures(
                OutputsUnknown::<C>::identify_receiver_outputs::<B>,
                (session, is_receiver_output, buf),
                r,
            ) && (*buf)@ == before && (*final(buf))@ == after,
    ensures
        exists|t: CheckReply<C, C::WantsOutputs>| #[trigger]
            call_ensures(
                C::identify_receiver_outputs::<ForeignOwned<B>>,
                (&session.0, &ForeignOwned(is_receiver_output)),
                t,
            ) && match t {
                CheckTransition::Success(event, next) => queued(before, after, event) && (
                r matches Ok(s) && s.0 == next),
                _ => check_stopped(t, before, after, r),
            },
{
}

/// The protocol is given every answer on the scripts of the sender's inputs, in
/// their order and as they were marked, and it decides.
pub proof fn law_owned_inputs_are_judged_as_marked<C: ReceiverEngine>(
    session: &MaybeInputsOwned<C>,
    checked: Vec<InputOwnedTaggedReference>,
    before: Buffer<C>,
    after: Buffer<C>,
    r: Result<MaybeInputsSeen<C>, ReceiverApiError<C>>,
)
    requires
        exists|buf: &mut ReceiverEventBuffer<C>| #[trigger]
            call_ensures(
                MaybeInputsOwned::<C>::apply_input_owned_checks,
                (session, checked, buf),
                r,
            ) && (*buf)@ == before && (*final(buf))@ == after,
    ensures
        exists|tags: Vec<TaggedReference<Vec<u8>>>, t: CheckReply<C, C::MaybeInputsSeen>| #[trigger]
            call_ensures(C::apply_input_owned_checks, (&session.0, tags), t) && {
                &&& tags@.len() == checked@.len()
                &&& forall|i: int| 0 <= i < tags@.len() ==> #[trigger] tags@[i] == checked@[i].0
                &&& match t {
                    CheckTransition::Success(event, next) => queued(before, after, event) && (
                    r matches Ok(s) && s.0 == next),
                    _ => check_stopped(t, before, after, r),
                }
            },
{
}

/// The protocol is given every answer on the sender's coins, in their order and
/// as they were marked, and it decides.
pub proof fn law_seen_inputs_are_judged_as_marked<C: ReceiverEngine>(
    session: &MaybeInputsSeen<C>,
    checked: Vec<InputSeenTaggedReference>,
    before: Buffer<C>,
    after: Buffer<C>,
    r: Result<OutputsUnknown<C>, ReceiverApiError<C>>,
)
    requires
        exists|buf: &mut ReceiverEventBuffer<C>| #[trigger]
            call_ensures(MaybeInputsSeen::<C>::apply_input_seen_checks, (session, checked, buf), r)
                && (*buf)@ == before && (*final(buf))@ == after,
    ensures
        exists|tags: Vec<TaggedReference<CoreOutPoint>>, t: CheckReply<C, C::OutputsUnknown>| #[trigger]
            call_ensures(C::apply_input_seen_checks, (&session.0, tags), t) && {
                &&& tags@.len() == checked@.len()
                &&& forall|i: int| 0 <= i < tags@.len() ==> #[trigger] tags@[i] == checked@[i].0
                &&& match t {
                    CheckTransition::Success(event, next) => queued(before, after, event) && (
                    r matches Ok(s) && s.0 == next),
                    _ => check_stopped(t, before, after, r),
                }
            },
{
}

/// The protocol is given every answer on the scripts of the outputs, in their
/// order and as they were marked, and it decides.
pub proof fn law_owned_outputs_are_judged_as_marked<C: ReceiverEngine>(
    session: &OutputsUnknown<C>,
    checked: Vec<OutputOwnedTaggedReference>,
    before: Buffer<C>,
    after: Buffer<C>,
    r: Result<WantsOutputs<C>, ReceiverApiError<C>>,
)
    requires
        exists|buf: &mut ReceiverEventBuffer<C>| #[trigger]
            call_ensures(OutputsUnknown::<C>::apply_output_owned_checks, (session, checked, buf), r)
                && (*buf)@ == before && (*final(buf))@ == after,
    ensures
        exists|tags: Vec<TaggedReference<Vec<u8>>>, t: CheckReply<C, C::WantsOutputs>| #[trigger]
            call_ensures(C::apply_output_owned_checks, (&session.0, tags), t) && {
                &&& tags@.len() == checked@.len()
                &&& forall|i: int| 0 <= i < tags@.len() ==> #[trigger] tags@[i] == checked@[i].0
                &&& match t {
                    CheckTransition::Success(event, next) => queued(before, after, event) && (
                    r matches Ok(s) && s.0 == next),
                    _ => check_stopped(t, before, after, r),
                }
            },
{
}

/// Whether the original transaction can be broadcast is decided by the protocol
/// from what the application answers and from the least fee rate that was
/// given, unaltered. Only a rate that the rules refuse keeps it from being
/// asked, and then nothing is recorded.
pub proof fn law_the_application_is_asked_for_broadcast<C: ReceiverEngine, B: CanBroadcast>(
    session: &UncheckedOriginalPayload<C>,
    min_fee_rate: Option<u64>,
    can_broadcast: &B,
    before: Buffer<C>,
    after: Buffer<C>,
    r: Result<MaybeInputsOwned<C>, ReceiverApiError<C>>,
)
    requires
        exists|buf: &mut ReceiverEventBuffer<C>| #[trigger]
            call_ensures(
                UncheckedOriginalPayload::<C>::check_broadcast_suitability::<B>,
                (session, min_fee_rate, can_broadcast, buf),
                r,
            ) && (*buf)@ == before && (*final(buf))@ == after,
    ensures
        r matches Err(ReceiverApiError::InputValidation(e)) ==> after == before && min_fee_rate
            is Some && call_ensures(C::fee_rate_sat_per_kwu, (min_fee_rate->0,), Err(e)),
        !(r matches Err(ReceiverApiError::InputValidation(_))) ==> exists|
            t: CheckReply<C, C::MaybeInputsOwned>,
        | #[trigger]
            call_ensures(
                C::check_broadcast_suitability::<ForeignBroadcast<B>>,
                (&session.0, min_fee_rate, &ForeignBroadcast(can_broadcast)),
                t,
            ) && match t {
                CheckTransition::Success(event, next) => queued(before, after, event) && (
                r matches Ok(s) && s.0 == next),
                _ => check_stopped(t, before, after, r),
            },
        !(r matches Err(ReceiverApiError::InputValidation(_))) && min_fee_rate is Some
            ==> call_ensures(C::fee_rate_sat_per_kwu, (min_fee_rate->0,), Ok(())),
{
    lemma_one_way_to_accept::<C>();
}

/// Whether the original transaction can be broadcast is decided by the protocol
/// from the answer and from the least fee rate that were given, unaltered. Only
/// a rate that the rules refuse keeps it from being asked, and then nothing is
/// recorded.
pub proof fn law_broadcast_is_judged_as_answered<C: ReceiverEngine>(
    session: &UncheckedOriginalPayload<C>,
    min_fee_rate: Option<u64>,
    can_broadcast: bool,
    before: Buffer<C>,
    after: Buffer<C>,
    r: Result<MaybeInputsOwned<C>, ReceiverApiError<C>>,
)
    requires
        exists|buf: &mut ReceiverEventBuffer<C>| #[trigger]
            call_ensures(
                UncheckedOriginalPayload::<C>::apply_broadcast_suitability,
                (session, min_fee_rate, can_broadcast, buf),
                r,
            ) && (*buf)@ == before && (*final(buf))@ == after,
    ensures
        r matches Err(ReceiverApiError::InputValidation(e)) ==> after == before && min_fee_rate
            is Some && call_ensures(C::fee_rate_sat_per_kwu, (min_fee_rate->0,), Err(e)),
        !(r matches Err(ReceiverApiError::InputValidation(_))) ==> exists|
            t: CheckReply<C, C::MaybeInputsOwned>,
        | #[trigger]
            call_ensures(
                C::apply_broadcast_suitability,
                (&session.0, min_fee_rate, can_broadcast),
                t,
            ) && match t {
                CheckTransition::Success(event, next) => queued(before, after, event) && (
                r matches Ok(s) && s.0 == next),
                _ => check_stopped(t, before, after, r),
            },
        !(r matches Err(ReceiverApiError::InputValidation(_))) && min_fee_rate is Some
            ==> call_ensures(C::fee_rate_sat_per_kwu, (min_fee_rate->0,), Ok(())),
{
    lemma_one_way_to_accept::<C>();
}

/// To go on without a check is recorded by the event of the move.
pub proof fn law_interactive_receivers_leave_an_event<C: ReceiverEngine>(
    session: &UncheckedOriginalPayload<C>,
    before: Buffer<C>,
    after: Buffer<C>,
    r: MaybeInputsOwned<C>,
)
    requires
        exists|buf: &mut ReceiverEventBuffer<C>| #[trigger]
            call_ensures(
                UncheckedOriginalPayload::<C>::assume_interactive_receiver,
                (session, buf),
                r,
            ) && (*buf)@ == before && (*final(buf))@ == after,
    ensures
        exists|a: Advance<C::Payload, C::MaybeInputsOwned>| #[trigger]
            call_ensures(C::assume_interactive_receiver, (&session.0,), a) && queued(
                before,
                after,
                SessionEvent::Advanced(a.event),
            ) && r.0 == a.state,
{
}

/// To settle the outputs is recorded by the event of the move.
pub proof fn law_settled_outputs_leave_an_event<C: ReceiverEngine>(
    session: &WantsOutputs<C>,
    before: Buffer<C>,
    after: Buffer<C>,
    r: WantsInputs<C>,
)
    requires
        exists|buf: &mut ReceiverEventBuffer<C>| #[trigger]
            call_ensures(WantsOutputs::<C>::commit_outputs, (session, buf), r)
                && (*buf)@ == before && (*final(buf))@ == after,
    ensures
        exists|a: Advance<C::Payload, C::WantsInputs>| #[trigger]
            call_ensures(C::commit_outputs, (&session.0,), a) && queued(
                before,
                after,
                SessionEvent::Advanced(a.event),
            ) && r.0 == a.state,
{
}

/// To settle the inputs is recorded by the event of the move.
pub proof fn law_settled_inputs_leave_an_event<C: ReceiverEngine>(
    session: &WantsInputs<C>,
    before: Buffer<C>,
    after: Buffer<C>,
    r: WantsFeeRange<C>,
)
    requires
        exists|buf: &mut ReceiverEventBuffer<C>| #[trigger]
            call_ensures(WantsInputs::<C>::commit_inputs, (session, buf), r)
                && (*buf)@ == before && (*final(buf))@ == after,
    ensures
        exists|a: Advance<C::Payload, C::WantsFeeRange>| #[trigger]
            call_ensures(C::commit_inputs, (&session.0,), a) && queued(
                before,
                after,
                SessionEvent::Advanced(a.event),
            ) && r.0 == a.state,
{
}

/// The rate in sat/kwu that the rules give for a rate in sat/vB; none for none.
pub open spec fn converted<C: ReceiverEngine>(vb: Option<u64>, kwu: Option<u64>) -> bool {
    match vb {
        None => kwu is None,
        Some(rate) => kwu is Some && call_ensures(C::fee_rate_sat_per_vb, (rate,), Ok(kwu->0)),
    }
}

/// The fees are settled by the protocol between the least and the greatest rate
/// that were given, each converted by the rules and each in its own place. Only
/// a rate that the rules refuse keeps it from being asked, and then nothing is
/// recorded.
pub proof fn law_fees_are_settled_within_the_given_range<C: ReceiverEngine>(
    session: &WantsFeeRange<C>,
    min_vb: Option<u64>,
    max_vb: Option<u64>,
    before: Buffer<C>,
    after: Buffer<C>,
    r: Result<ProvisionalProposal<C>, ReceiverApiError<C>>,
)
    requires
        exists|buf: &mut ReceiverEventBuffer<C>| #[trigger]
            call_ensures(WantsFeeRange::<C>::apply_fee_range, (session, min_vb, max_vb, buf), r)
                && (*buf)@ == before && (*final(buf))@ == after,
    ensures
        r matches Err(ReceiverApiError::InputValidation(e)) ==> after == before && ((min_vb is Some
            && call_ensures(C::fee_rate_sat_per_vb, (min_vb->0,), Err(e))) || (exists|
            min: Option<u64>,
        | #[trigger]
            converted::<C>(min_vb, min)) && max_vb is Some && call_ensures(
            C::fee_rate_sat_per_vb,
            (max_vb->0,),
            Err(e),
        )),
        !(r matches Err(ReceiverApiError::InputValidation(_))) ==> exists|
            min: Option<u64>,
            max: Option<u64>,
            t: ReceiverReply<C, C::ProvisionalProposal, ProtocolError>,
        | #[trigger]
            call_ensures(C::apply_fee_range, (&session.0, min, max), t) && converted::<C>(
                min_vb,
                min,
            ) && converted::<C>(max_vb, max) && match t {
                Transition::Success(event, next) => queued(before, after, event) && (r matches Ok(
                    s,
                ) && s.0 == next),
                _ => protocol_stopped(t, before, after, r),
            },
{
    if exists|min: Option<u64>| #[trigger] vb_validated::<C>(min_vb, Ok(min)) {
        let min = choose|min: Option<u64>| #[trigger] vb_validated::<C>(min_vb, Ok(min));
        assert(converted::<C>(min_vb, min));
    }
}

/// The answer to a poll is read by the protocol as it came. An original payload
/// leaves its event; one that is not there yet leaves nothing.
pub proof fn law_poll_answers_are_read_by_the_protocol<C: ReceiverEngine>(
    session: &Initialized<C>,
    body: &[u8],
    ctx: &C::Context,
    before: Buffer<C>,
    after: Buffer<C>,
    r: Result<InitializedTransitionOutcome<C>, ReceiverApiError<C>>,
)
    requires
        exists|buf: &mut ReceiverEventBuffer<C>| #[trigger]
            call_ensures(Initialized::<C>::process_response, (session, body, ctx, buf), r)
                && (*buf)@ == before && (*final(buf))@ == after,
    ensures
        exists|t: PollReply<C>| #[trigger]
            call_ensures(C::process_poll_response, (&session.0, body, ctx), t) && match t {
                OptionalTransition::Progress(event, next) => queued(before, after, event) && (
                r matches Ok(InitializedTransitionOutcome::Progress { inner }) && inner.0 == next),
                OptionalTransition::Stasis(current) => after == before && (r matches Ok(
                    InitializedTransitionOutcome::Stasis { inner },
                ) && inner.0 == current),
                OptionalTransition::Transient(e) => after == before && (r matches Err(
                    ReceiverApiError::Transient { kind, msg },
                ) && kind is Protocol && msg@ == "Protocol error: "@ + e.msg@),
                OptionalTransition::Fatal(e) => queued(
                    before,
                    after,
                    SessionEvent::Closed(SessionOutcome::Failure),
                ) && (r matches Err(ReceiverApiError::Fatal { kind, msg }) && kind is Protocol
                    && msg@ == "Protocol error: "@ + e.msg@),
            },
{
}

/// The answer to the proposal is read by the protocol as it came, and nothing
/// but its reading decides.
pub proof fn law_post_answers_are_read_by_the_protocol<C: ReceiverEngine>(
    session: &PayjoinProposal<C>,
    body: &[u8],
    ctx: &C::Context,
    before: Buffer<C>,
    after: Buffer<C>,
    r: Result<Monitor<C>, ReceiverApiError<C>>,
)
    requires
        exists|buf: &mut ReceiverEventBuffer<C>| #[trigger]
            call_ensures(PayjoinProposal::<C>::process_response, (session, body, ctx, buf), r)
                && (*buf)@ == before && (*final(buf))@ == after,
    ensures
        exists|t: ReceiverReply<C, C::Monitor, ProtocolError>| #[trigger]
            call_ensures(C::process_post_response, (&session.0, body, ctx), t) && match t {
                Transition::Success(event, next) => queued(before, after, event) && (r matches Ok(
                    s,
                ) && s.0 == next),
                _ => protocol_stopped(t, before, after, r),
            },
{
}

/// The answer to a replied error is read by the protocol as it came, and
/// nothing but its reading decides.
pub proof fn law_error_answers_are_read_by_the_protocol<C: ReceiverEngine>(
    session: &HasReplyableError<C>,
    body: &[u8],
    ctx: &C::Context,
    before: Buffer<C>,
    after: Buffer<C>,
    r: Result<(), ReceiverApiError<C>>,
)
    requires
        exists|buf: &mut ReceiverEventBuffer<C>| #[trigger]
            call_ensures(
                HasReplyableError::<C>::process_error_response,
                (session, body, ctx, buf),
                r,
            ) && (*buf)@ == before && (*final(buf))@ == after,
    ensures
        exists|t: ReceiverReply<C, (), ProtocolError>| #[trigger]
            call_ensures(C::process_error_response, (&session.0, body, ctx), t) && match t {
                Transition::Success(event, _) => queued(before, after, event) && r is Ok,
                _ => protocol_stopped(t, before, after, r),
            },
{
}

/// A proposal that the application is to sign is signed by the application, and
/// then waits behind its event.
pub proof fn law_proposals_are_signed_on_request<C: ReceiverEngine, B: ProcessPsbt>(
    session: &ProvisionalProposal<C>,
    process_psbt: &B,
    before: Buffer<C>,
    after: Buffer<C>,
    r: Result<ProvisionalPayjoinProposal<C>, ReceiverApiError<C>>,
)
    requires
        exists|buf: &mut ReceiverEventBuffer<C>| #[trigger]
            call_ensures(
                ProvisionalProposal::<C>::finalize_proposal::<B>,
                (session, process_psbt, buf),
                r,
            ) && (*buf)@ == before && (*final(buf))@ == after,
    ensures
        exists|t: Signature<C>| #[trigger]
            call_ensures(
                C::finalize_proposal::<ForeignSigner<B>>,
                (&session.0, &ForeignSigner(process_psbt)),
                t,
            ) && signed::<C>(t, before, after, r),
{
}

/// A proposal that was signed beforehand is handed to the protocol as it is,
/// and then waits behind its event.
pub proof fn law_proposals_are_signed_beforehand<C: ReceiverEngine>(
    session: &ProvisionalProposal<C>,
    signed_psbt: String,
    before: Buffer<C>,
    after: Buffer<C>,
    r: Result<ProvisionalPayjoinProposal<C>, ReceiverApiError<C>>,
)
    requires
        exists|buf: &mut ReceiverEventBuffer<C>| #[trigger]
            call_ensures(
                ProvisionalProposal::<C>::finalize_signed_proposal,
                (session, signed_psbt, buf),
                r,
            ) && (*buf)@ == before && (*final(buf))@ == after,
    ensures
        exists|t: Signature<C>| #[trigger]
            call_ensures(
                C::finalize_proposal::<AlreadySigned>,
                (&session.0, &AlreadySigned(&signed_psbt)),
                t,
            ) && signed::<C>(t, before, after, r),
{
}

/// The payment is looked for by what the application finds.
pub proof fn law_the_application_is_asked_for_the_payment<C: ReceiverEngine, B: TransactionExists>(
    session: &Monitor<C>,
    transaction_exists: &B,
    before: Buffer<C>,
    after: Buffer<C>,
    r: Result<MonitorTransitionOutcome<C>, ReceiverApiError<C>>,
)
    requires
        exists|buf: &mut ReceiverEventBuffer<C>| #[trigger]
            call_ensures(Monitor::<C>::check_payment::<B>, (session, transaction_exists, buf), r)
                && (*buf)@ == before && (*final(buf))@ == after,
    ensures
        exists|t: PaymentReply<C>| #[trigger]
            call_ensures(
                C::check_payment::<ForeignLookup<B>>,
                (&session.0, &ForeignLookup(transaction_exists)),
                t,
            ) && watched::<C>(t, before, after, r),
{
}

/// Whether the payment can be watched for is decided by the protocol.
pub proof fn law_unwatchable_payments_are_concluded<C: ReceiverEngine>(
    session: &Monitor<C>,
    before: Buffer<C>,
    after: Buffer<C>,
    r: Result<MonitorTransitionOutcome<C>, ReceiverApiError<C>>,
)
    requires
        exists|buf: &mut ReceiverEventBuffer<C>| #[trigger]
            call_ensures(Monitor::<C>::check_fallback_monitorable, (session, buf), r)
                && (*buf)@ == before && (*final(buf))@ == after,
    ensures
        exists|t: PaymentReply<C>| #[trigger]
            call_ensures(
                C::check_fallback_monitorable,
                (&session.0,),
                t,
            ) && watched::<C>(t, before, after, r),
{
}

/// That the original transaction was seen is told to the protocol, which decides.
pub proof fn law_seen_originals_are_concluded<C: ReceiverEngine>(
    session: &Monitor<C>,
    before: Buffer<C>,
    after: Buffer<C>,
    r: Result<MonitorTransitionOutcome<C>, ReceiverApiError<C>>,
)
    requires
        exists|buf: &mut ReceiverEventBuffer<C>| #[trigger]
            call_ensures(Monitor::<C>::fallback_tx_exists, (session, buf), r)
                && (*buf)@ == before && (*final(buf))@ == after,
    ensures
        exists|t: PaymentReply<C>| #[trigger]
            call_ensures(
                C::fallback_tx_exists,
                (&session.0,),
                t,
            ) && watched::<C>(t, before, after, r),
{
}

/// A payjoin transaction that was seen is handed to the protocol as it was
/// decoded. One that cannot be decoded is refused for what the decoder says,
/// and nothing is recorded.
pub proof fn law_seen_payjoins_are_decoded<C: ReceiverEngine>(
    session: &Monitor<C>,
    payjoin_tx: Vec<u8>,
    before: Buffer<C>,
    after: Buffer<C>,
    r: Result<MonitorTransitionOutcome<C>, ReceiverApiError<C>>,
)
    requires
        exists|buf: &mut ReceiverEventBuffer<C>| #[trigger]
            call_ensures(Monitor::<C>::payjoin_tx_exists, (session, payjoin_tx, buf), r)
                && (*buf)@ == before && (*final(buf))@ == after,
    ensures
        decoded_tx(payjoin_tx@) is Err ==> after == before && (r matches Err(
            ReceiverApiError::InputDeserialization { msg },
        ) && msg@ == "Internal error: "@ + decoded_tx(payjoin_tx@)->Err_0),
        decoded_tx(payjoin_tx@) is Ok ==> exists|tx: Vec<u8>, t: PaymentReply<C>| #[trigger]
            call_ensures(C::payjoin_tx_exists, (&session.0, tx), t) && tx@ == decoded_tx(
                payjoin_tx@,
            )->Ok_0 && watched::<C>(t, before, after, r),
{
}

/// A decoded payjoin transaction is handed to the protocol as it is; what the
/// decoder said instead is passed on.
pub proof fn law_decoded_payjoins_are_handed_on<C: ReceiverEngine>(
    session: &Monitor<C>,
    tx: Result<Vec<u8>, ForeignError>,
    before: Buffer<C>,
    after: Buffer<C>,
    r: Result<MonitorTransitionOutcome<C>, ReceiverApiError<C>>,
)
    requires
        exists|buf: &mut ReceiverEventBuffer<C>| #[trigger]
            call_ensures(Monitor::<C>::decoded_payjoin_tx_exists, (session, tx, buf), r)
                && (*buf)@ == before && (*final(buf))@ == after,
    ensures
        tx matches Err(ForeignError::InternalError(why)) ==> after == before && (r matches Err(
            ReceiverApiError::InputDeserialization { msg },
        ) && msg@ == "Internal error: "@ + why@),
        tx is Ok ==> exists|t: PaymentReply<C>| #[trigger]
            call_ensures(C::payjoin_tx_exists, (&session.0, tx->Ok_0), t) && watched::<C>(
                t,
                before,
                after,
                r,
            ),
{
}

/// The request is made for this session and the relay that was given, and is
/// handed out as the protocol made it, with what decrypts its response.
pub proof fn law_poll_requests_are_the_protocols<C: ReceiverEngine>(
    session: &Initialized<C>,
    ohttp_relay: String,
    r: Result<RequestResponse<C>, ReceiverError>,
)
    requires
        call_ensures(Initialized::<C>::create_poll_request, (session, ohttp_relay), r),
    ensures
        match r {
            Ok(sent) => call_ensures(
                C::create_poll_request,
                (&session.0, &ohttp_relay),
                Ok((sent.request, sent.client_response)),
            ),
            Err(err) => exists|e: ReceiveFailure| #[trigger]
                call_ensures(
                    C::create_poll_request,
                    (&session.0, &ohttp_relay),
                    Err::<(Request, C::Context), ReceiveFailure>(e),
                ) && match e.cause {
                    ReceiveCause::Protocol(x) => err == ReceiverError::Protocol(x),
                    ReceiveCause::Implementation(x) => err == ReceiverError::Implementation(x),
                    ReceiveCause::Other => err is Unexpected,
                },
        },
{
    let request = choose|request: Result<(Request, C::Context), ReceiveFailure>| #[trigger]
        call_ensures(
            C::create_poll_request,
            (&session.0, &ohttp_relay),
            request,
        ) && (request is Ok <==> r is Ok)
            && (r matches Ok(sent) ==> request->Ok_0.0 == sent.request && request->Ok_0.1
            == sent.client_response);
    if let Ok(pair) = request {
        assert(pair == (pair.0, pair.1));
    }
}

/// The request is made for this session and the relay that was given, and is
/// handed out as the protocol made it, with what decrypts its response.
pub proof fn law_post_requests_are_the_protocols<C: ReceiverEngine>(
    session: &PayjoinProposal<C>,
    ohttp_relay: String,
    r: Result<RequestResponse<C>, ReceiverError>,
)
    requires
        call_ensures(PayjoinProposal::<C>::create_post_request, (session, ohttp_relay), r),
    ensures
        match r {
            Ok(sent) => call_ensures(
                C::create_post_request,
                (&session.0, &ohttp_relay),
                Ok((sent.request, sent.client_response)),
            ),
            Err(err) => exists|e: ReceiveFailure| #[trigger]
                call_ensures(
                    C::create_post_request,
                    (&session.0, &ohttp_relay),
                    Err::<(Request, C::Context), ReceiveFailure>(e),
                ) && match e.cause {
                    ReceiveCause::Protocol(x) => err == ReceiverError::Protocol(x),
                    ReceiveCause::Implementation(x) => err == ReceiverError::Implementation(x),
                    ReceiveCause::Other => err is Unexpected,
                },
        },
{
    let request = choose|request: Result<(Request, C::Context), ReceiveFailure>| #[trigger]
        call_ensures(
            C::create_post_request,
            (&session.0, &ohttp_relay),
            request,
        ) && (request is Ok <==> r is Ok)
            && (r matches Ok(sent) ==> request->Ok_0.0 == sent.request && request->Ok_0.1
            == sent.client_response);
    if let Ok(pair) = request {
        assert(pair == (pair.0, pair.1));
    }
}

/// The request is made for this session and the relay that was given, and is
/// handed out as the protocol made it, with what decrypts its response.
pub proof fn law_error_requests_are_the_protocols<C: ReceiverEngine>(
    session: &HasReplyableError<C>,
    ohttp_relay: String,
    r: Result<RequestResponse<C>, SessionError>,
)
    requires
        call_ensures(HasReplyableError::<C>::create_error_request, (session, ohttp_relay), r),
    ensures
        match r {
            Ok(sent) => call_ensures(
                C::create_error_request,
                (&session.0, &ohttp_relay),
                Ok((sent.request, sent.client_response)),
            ),
            Err(e) => call_ensures(C::create_error_request, (&session.0, &ohttp_relay), Err(e)),
        },
{
    let request = choose|request: Result<(Request, C::Context), SessionError>| #[trigger]
        call_ensures(
            C::create_error_request,
            (&session.0, &ohttp_relay),
            request,
        ) && (request is Ok <==> r is Ok)
            && (r matches Ok(sent) ==> request->Ok_0.0 == sent.request && request->Ok_0.1
            == sent.client_response) && (r is Err ==> request->Err_0 == r->Err_0);
    if let Ok(pair) = request {
        assert(pair == (pair.0, pair.1));
    }
}

/// The terms of a session are those that the protocol names, each for what it
/// is, and so is its URI.
pub proof fn law_terms_are_told_apart<C: ReceiverEngine>(
    session: &Initialized<C>,
    terms: ReceiverTerms,
    address: String,
    directory: String,
    expiration: u64,
    amount: Option<u64>,
    uri: PjUri,
)
    requires
        forall|t: ReceiverTerms| #[trigger] call_ensures(C::terms, (&session.0,), t) ==> t == terms,
        call_ensures(Initialized::<C>::address, (session,), address),
        call_ensures(Initialized::<C>::directory, (session,), directory),
        call_ensures(Initialized::<C>::expiration_unix_secs, (session,), expiration),
        call_ensures(Initialized::<C>::amount_sats, (session,), amount),
        call_ensures(Initialized::<C>::pj_uri, (session,), uri),
    ensures
        address == terms.address,
        directory == terms.directory,
        expiration == terms.expiration_unix_secs,
        amount == terms.amount_sats,
        call_ensures(C::pj_uri, (&session.0,), uri),
{
}

/// Outputs reach the protocol as they were given: as many, in their order, each
/// with its amount and its script, and all accepted by the rules; and so does
/// the script for the rest. What the protocol says comes back.
pub proof fn law_replacement_outputs_are_unaltered<C: ReceiverEngine>(
    session: &WantsOutputs<C>,
    replacement: Vec<TxOut>,
    drain_script: Vec<u8>,
    r: Result<WantsOutputs<C>, OutputSubstitutionError>,
)
    requires
        call_ensures(
            WantsOutputs::<C>::replace_receiver_outputs,
            (session, replacement, drain_script),
            r,
        ),
        r is Ok || r->Err_0 is Protocol,
    ensures
        call_ensures(C::script, ("drain_script_pubkey", &drain_script, false), Ok(())),
        forall|i: int|
            0 <= i < replacement@.len() ==> call_ensures(
                C::amount_sat,
                ((#[trigger] replacement@[i]).value_sat,),
                Ok(()),
            ) && call_ensures(
                C::script,
                ("script_pubkey", &replacement@[i].script_pubkey, false),
                Ok(()),
            ),
        exists|
            outputs: Vec<CoreTxOut>,
            answer: Result<C::WantsOutputs, OutputSubstitutionProtocolError>,
        | #[trigger]
            call_ensures(
                C::replace_receiver_outputs,
                (&session.0, outputs, &drain_script),
                answer,
            ) && {
                &&& outputs@.len() == replacement@.len()
                &&& forall|i: int|
                    0 <= i < outputs@.len() ==> (#[trigger] outputs@[i]).value_sat
                        == replacement@[i].value_sat && outputs@[i].script_pubkey
                        == replacement@[i].script_pubkey
                &&& match r {
                    Ok(next) => answer == Ok::<C::WantsOutputs, OutputSubstitutionProtocolError>(
                        next.0,
                    ),
                    Err(OutputSubstitutionError::Protocol(e)) => answer == Err::<
                        C::WantsOutputs,
                        OutputSubstitutionProtocolError,
                    >(e),
                    Err(_) => false,
                }
            },
{
    lemma_one_way_to_accept::<C>();
    let (outputs, answer) = choose|
        outputs: Vec<CoreTxOut>,
        answer: Result<C::WantsOutputs, OutputSubstitutionProtocolError>,
    | #[trigger]
        call_ensures(C::replace_receiver_outputs, (&session.0, outputs, &drain_script), answer)
            && txouts_ruled::<C>(replacement@, Ok(outputs)) && r == (match answer {
            Ok(next) => Ok::<WantsOutputs<C>, OutputSubstitutionError>(WantsOutputs(next)),
            Err(e) => Err(OutputSubstitutionError::Protocol(e)),
        });
    assert forall|i: int| 0 <= i < replacement@.len() implies call_ensures(
        C::amount_sat,
        ((#[trigger] replacement@[i]).value_sat,),
        Ok(()),
    ) && call_ensures(
        C::script,
        ("script_pubkey", &replacement@[i].script_pubkey, false),
        Ok(()),
    ) by {
        assert(txout_ruled::<C>(replacement@[i], Ok(outputs@[i])));
    }
    assert forall|i: int| 0 <= i < outputs@.len() implies (#[trigger] outputs@[i]).value_sat
        == replacement@[i].value_sat && outputs@[i].script_pubkey
        == replacement@[i].script_pubkey by {
        assert(txout_ruled::<C>(replacement@[i], Ok(outputs@[i])));
    }
}

/// Outputs are refused before they reach the protocol only for what the rules
/// say of the first that is not accepted, or, if all are, of the script for the
/// rest.
pub proof fn law_refused_replacements_break_a_rule<C: ReceiverEngine>(
    session: &WantsOutputs<C>,
    replacement: Vec<TxOut>,
    drain_script: Vec<u8>,
    e: FfiValidationError,
)
    requires
        call_ensures(
            WantsOutputs::<C>::replace_receiver_outputs,
            (session, replacement, drain_script),
            Err(OutputSubstitutionError::FfiValidation(e)),
        ),
    ensures
        exists|n: int| #[trigger]
            all_accepted::<C>(replacement@, n) && {
                ||| n == replacement@.len() && call_ensures(
                    C::script,
                    ("drain_script_pubkey", &drain_script, false),
                    Err(e),
                )
                ||| n < replacement@.len() && (call_ensures(
                    C::amount_sat,
                    (replacement@[n].value_sat,),
                    Err(e),
                ) || call_ensures(
                    C::script,
                    ("script_pubkey", &replacement@[n].script_pubkey, false),
                    Err(e),
                ))
            },
{
    lemma_one_way_to_accept::<C>();
    let cores = choose|cores: Result<Vec<CoreTxOut>, FfiValidationError>| #[trigger]
        txouts_ruled::<C>(replacement@, cores) && match cores {
            Ok(_) => call_ensures(
                C::script,
                ("drain_script_pubkey", &drain_script, false),
                Err(e),
            ),
            Err(refusal) => refusal == e,
        };
    match cores {
        Err(_) => {
            let i = choose|i: int|
                {
                    &&& 0 <= i < replacement@.len()
                    &&& #[trigger] txout_ruled::<C>(replacement@[i], Err(e))
                    &&& forall|j: int|
                        0 <= j < i ==> txout_accepted::<C>(#[trigger] replacement@[j])
                };
            assert forall|j: int| 0 <= j < i implies may_accept_output::<C>(
                Some(#[trigger] replacement@[j]),
            ) by {
                assert(txout_accepted::<C>(replacement@[j]));
            }
            assert(all_accepted::<C>(replacement@, i));
        },
        Ok(outputs) => {
            assert forall|j: int| 0 <= j < replacement@.len() implies may_accept_output::<C>(
                Some(#[trigger] replacement@[j]),
            ) by {
                assert(txout_ruled::<C>(replacement@[j], Ok(outputs@[j])));
            }
            assert(all_accepted::<C>(replacement@, replacement@.len() as int));
        },
    }
}

/// Whether the rules may accept the first `n` of `outputs`.
pub open spec fn all_accepted<C: ReceiverEngine>(outputs: Seq<TxOut>, n: int) -> bool {
    &&& 0 <= n <= outputs.len()
    &&& forall|j: int| 0 <= j < n ==> may_accept_output::<C>(Some(#[trigger] outputs[j]))
}

/// A substituted script reaches the protocol as it was given, if the rules
/// accept it, and what the protocol says comes back.
pub proof fn law_substituted_scripts_are_unaltered<C: ReceiverEngine>(
    session: &WantsOutputs<C>,
    script: Vec<u8>,
    r: Result<WantsOutputs<C>, OutputSubstitutionError>,
)
    requires
        call_ensures(WantsOutputs::<C>::substitute_receiver_script, (session, script), r),
    ensures
        match r {
            Ok(next) => call_ensures(
                C::script,
                ("output_script_pubkey", &script, false),
                Ok(()),
            ) && call_ensures(C::substitute_receiver_script, (&session.0, &script), Ok(next.0)),
            Err(OutputSubstitutionError::Protocol(e)) => call_ensures(
                C::script,
                ("output_script_pubkey", &script, false),
                Ok(()),
            ) && call_ensures(C::substitute_receiver_script, (&session.0, &script), Err(e)),
            Err(OutputSubstitutionError::FfiValidation(e)) => call_ensures(
                C::script,
                ("output_script_pubkey", &script, false),
                Err(e),
            ),
        },
{
    lemma_one_way_to_accept::<C>();
}

/// The protocol selects among all candidates that were given, in their order,
/// and its choice comes back.
pub proof fn law_all_candidates_are_considered<C: ReceiverEngine>(
    session: &WantsInputs<C>,
    candidates: Vec<InputPair<C>>,
    r: Result<InputPair<C>, SelectionError>,
)
    requires
        call_ensures(WantsInputs::<C>::try_preserving_privacy, (session, candidates), r),
    ensures
        exists|pairs: Vec<C::InputPair>, answer: Result<C::InputPair, SelectionError>| #[trigger]
            call_ensures(C::try_preserving_privacy, (&session.0, pairs), answer) && {
                &&& pairs@.len() == candidates@.len()
                &&& forall|i: int|
                    0 <= i < pairs@.len() ==> #[trigger] pairs@[i] == candidates@[i].0
                &&& match r {
                    Ok(pair) => answer == Ok::<C::InputPair, SelectionError>(pair.0),
                    Err(e) => answer == Err::<C::InputPair, SelectionError>(e),
                }
            },
{
}

/// The protocol is given all inputs that were contributed, in their order, and
/// its answer comes back.
pub proof fn law_all_inputs_are_contributed<C: ReceiverEngine>(
    session: &WantsInputs<C>,
    inputs: Vec<InputPair<C>>,
    r: Result<WantsInputs<C>, InputContributionError>,
)
    requires
        call_ensures(WantsInputs::<C>::contribute_inputs, (session, inputs), r),
    ensures
        exists|
            pairs: Vec<C::InputPair>,
            answer: Result<C::WantsInputs, InputContributionError>,
        | #[trigger]
            call_ensures(C::contribute_inputs, (&session.0, pairs), answer) && {
                &&& pairs@.len() == inputs@.len()
                &&& forall|i: int|
                    0 <= i < pairs@.len() ==> #[trigger] pairs@[i] == inputs@[i].0
                &&& match r {
                    Ok(next) => answer == Ok::<C::WantsInputs, InputContributionError>(next.0),
                    Err(e) => answer == Err::<C::WantsInputs, InputContributionError>(e),
                }
            },
{
}

/// The items to be checked are shown as the protocol lists them: all of them,
/// in their order, each with its place.
pub proof fn law_references_are_shown_in_order<C: ReceiverEngine>(
    owned: &MaybeInputsOwned<C>,
    scripts: Result<Vec<InputOwnedReference>, ReceiverError>,
    seen: &MaybeInputsSeen<C>,
    coins: Vec<InputSeenReference>,
    unknown: &OutputsUnknown<C>,
    outputs: Vec<OutputOwnedReference>,
)
    requires
        call_ensures(MaybeInputsOwned::<C>::get_input_script_refs, (owned,), scripts),
        call_ensures(MaybeInputsSeen::<C>::get_input_outpoint_refs, (seen,), coins),
        call_ensures(OutputsUnknown::<C>::get_output_script_refs, (unknown,), outputs),
    ensures
        exists|refs: Result<Vec<Reference<Vec<u8>>>, ReceiveFailure>| #[trigger]
            call_ensures(C::get_input_script_refs, (&owned.0,), refs) && match refs {
                Ok(refs) => scripts is Ok && scripts->Ok_0@.len() == refs@.len() && forall|i: int|
                    0 <= i < refs@.len() ==> (#[trigger] scripts->Ok_0@[i]).0 == refs@[i],
                Err(e) => scripts is Err && match e.cause {
                    ReceiveCause::Protocol(x) => scripts->Err_0 == ReceiverError::Protocol(x),
                    ReceiveCause::Implementation(x) => scripts->Err_0
                        == ReceiverError::Implementation(x),
                    ReceiveCause::Other => scripts->Err_0 is Unexpected,
                },
            },
        exists|refs: Vec<Reference<CoreOutPoint>>| #[trigger]
            call_ensures(C::get_input_outpoint_refs, (&seen.0,), refs) && refs@.len() == coins@.len()
                && forall|i: int| 0 <= i < refs@.len() ==> (#[trigger] coins@[i]).0 == refs@[i],
        exists|refs: Vec<Reference<Vec<u8>>>| #[trigger]
            call_ensures(C::get_output_script_refs, (&unknown.0,), refs) && refs@.len()
                == outputs@.len() && forall|i: int|
                0 <= i < refs@.len() ==> (#[trigger] outputs@[i]).0 == refs@[i],
{
}

/// The coins to be locked are those that the protocol lists, all of them and in
/// their order, and reading one back gives the coin.
pub proof fn law_coins_to_be_locked_read_back<C: ReceiverEngine>(
    session: &PayjoinProposal<C>,
    coins: Vec<CoreOutPoint>,
    r: Vec<OutPoint>,
)
    requires
        forall|c: Vec<CoreOutPoint>| #[trigger]
            call_ensures(C::utxos_to_be_locked, (&session.0,), c) ==> c == coins,
        call_ensures(PayjoinProposal::<C>::utxos_to_be_locked, (session,), r),
    ensures
        r@.len() == coins@.len(),
        forall|i: int|
            0 <= i < r@.len() ==> (#[trigger] r@[i]).vout == coins@[i].vout && txid_bytes(
                r@[i].txid@,
            ) == coins@[i].txid.0@,
{
    assert forall|i: int| 0 <= i < r@.len() implies (#[trigger] r@[i]).vout == coins@[i].vout
        && txid_bytes(r@[i].txid@) == coins@[i].txid.0@ by {
        law_txid_text_reads_back(coins@[i].txid.0@);
    }
}

/// The proposal is shown as the protocol holds it, before and after it is
/// signed.
pub proof fn law_proposals_are_shown_as_they_are<C: ReceiverEngine>(
    unsigned: &ProvisionalProposal<C>,
    to_sign: String,
    finished: &PayjoinProposal<C>,
    text: String,
)
    requires
        call_ensures(ProvisionalProposal::<C>::psbt_to_sign, (unsigned,), to_sign),
        call_ensures(PayjoinProposal::<C>::psbt, (finished,), text),
    ensures
        exists|psbt: Psbt| #[trigger]
            call_ensures(C::psbt_to_sign, (&unsigned.0,), psbt) && to_sign@ == psbt_text(psbt@),
        exists|psbt: Psbt| #[trigger]
            call_ensures(C::proposal_psbt, (&finished.0,), psbt) && text@ == psbt_text(psbt@),
{
}

/// The ids of the two transactions are told apart, and reading one back gives
/// the id.
pub proof fn law_transaction_ids_are_told_apart<C: ReceiverEngine>(
    session: &Monitor<C>,
    original: Txid,
    proposed: Txid,
    fallback: String,
    payjoin: String,
)
    requires
        forall|id: Txid| #[trigger]
            call_ensures(C::extract_fallback_txid, (&session.0,), id) ==> id == original,
        forall|id: Txid| #[trigger]
            call_ensures(C::extract_payjoin_proposal_txid, (&session.0,), id) ==> id == proposed,
        call_ensures(Monitor::<C>::extract_fallback_txid, (session,), fallback),
        call_ensures(Monitor::<C>::extract_payjoin_proposal_txid, (session,), payjoin),
    ensures
        txid_bytes(fallback@) == original.0@,
        txid_bytes(payjoin@) == proposed.0@,
{
    law_txid_text_reads_back(original.0@);
    law_txid_text_reads_back(proposed.0@);
}

/// The original transaction is shown as the protocol gives it, before and after
/// it is checked, and so is whether outputs may be substituted.
pub proof fn law_the_original_is_shown_as_it_is<C: ReceiverEngine>(
    unchecked: &UncheckedOriginalPayload<C>,
    owned: &MaybeInputsOwned<C>,
    tx: Vec<u8>,
    outputs: &WantsOutputs<C>,
    substitution: C::OutputSubstitution,
)
    ensures
        call_ensures(
            UncheckedOriginalPayload::<C>::extract_tx_to_check_broadcast_suitability,
            (unchecked,),
            tx,
        ) ==> call_ensures(C::extract_tx_to_check_broadcast_suitability, (&unchecked.0,), tx),
        call_ensures(MaybeInputsOwned::<C>::extract_tx_to_schedule_broadcast, (owned,), tx)
            ==> call_ensures(C::extract_tx_to_schedule_broadcast, (&owned.0,), tx),
        call_ensures(WantsOutputs::<C>::output_substitution, (outputs,), substitution)
            ==> call_ensures(C::output_substitution, (&outputs.0,), substitution),
{
}

/// What came of a poll and of watching for the payment keeps its kind and what
/// it holds.
pub proof fn law_outcomes_keep_their_kind<C: ReceiverStates>(
    polled: OptionalTransitionOutcome<C::UncheckedOriginalPayload, C::Initialized>,
    poll: InitializedTransitionOutcome<C>,
    seen: OptionalTransitionOutcome<(), C::Monitor>,
    payment: MonitorTransitionOutcome<C>,
)
    requires
        call_ensures(
            <InitializedTransitionOutcome<C> as From<
                OptionalTransitionOutcome<C::UncheckedOriginalPayload, C::Initialized>,
            >>::from,
            (polled,),
            poll,
        ),
        call_ensures(
            <MonitorTransitionOutcome<C> as From<OptionalTransitionOutcome<(), C::Monitor>>>::from,
            (seen,),
            payment,
        ),
    ensures
        match polled {
            OptionalTransitionOutcome::Progress(s) => (
            poll matches InitializedTransitionOutcome::Progress { inner } && inner.0 == s),
            OptionalTransitionOutcome::Stasis(s) => (
            poll matches InitializedTransitionOutcome::Stasis { inner } && inner.0 == s),
        },
        match seen {
            OptionalTransitionOutcome::Progress(_) => payment is Progress,
            OptionalTransitionOutcome::Stasis(s) => (
            payment matches MonitorTransitionOutcome::Stasis { inner } && inner.0 == s),
        },
{
}

/// A copy of what a receiver is built from is the same in every field.
pub proof fn law_copied_parameters_are_the_same(
    params: &ReceiverParams,
    copy: ReceiverParams,
    builder: &ReceiverBuilder,
    next: ReceiverBuilder,
)
    ensures
        call_ensures(<ReceiverParams as Clone>::clone, (params,), copy) ==> copy.address
            == params.address && copy.directory == params.directory && copy.ohttp_keys
            == params.ohttp_keys && copy.amount_sat == params.amount_sat && copy.expiration_secs
            == params.expiration_secs && copy.max_fee_rate == params.max_fee_rate,
        call_ensures(<ReceiverBuilder as Clone>::clone, (builder,), next) ==> next.params
            == builder.params,
{
}

} // verus!
