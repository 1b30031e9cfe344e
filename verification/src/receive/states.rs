//! The states of a receiver session.
//!
//! Each action records its events in the caller's buffer, whether it succeeds
//! or not, and hands out the next state or an error.
use crate::chain::{psbt_written, CoreOutPoint, CoreTxOut, Psbt, Txid};
use crate::collect::map_all;
use crate::error::{
    FfiValidationError, ForeignError, ImplementationError, ProvisionalConfirmError,
};
use crate::persist::{
    Advance, ApiError, OptionalTransitionOutcome, ProvisionalView, Transition,
};
use crate::receive::buffer::{ProvisionalPayjoinProposal, ReceiverEventBuffer};
use crate::receive::callbacks::{
    try_deserialize_tx, tx_decoded, AlreadySigned, CanBroadcast, ForeignBroadcast, ForeignKnown,
    ForeignLookup, ForeignOwned, ForeignSigner, IsOutputKnown, IsScriptOwned, ProcessPsbt,
    TransactionExists,
};
use crate::receive::engine::{
    closing_failure, failure_event, CheckReply, PaymentReply, PollReply, ReceiverEngine,
    ReceiverEvent, ReceiverReply, ReceiverStates, ReceiverTerms, Reference, SessionOutcome,
    TaggedReference,
};
use crate::receive::error::{
    HasReplyableError, InputContributionError, OutputSubstitutionError,
    OutputSubstitutionProtocolError, ProtocolError, ReceiveFailure, ReceiverApiError,
    ReceiverApiErrorView, ReceiverError, SelectionError, SessionError,
};
use crate::receive::references::{
    InputOwnedReference, InputOwnedTaggedReference, InputSeenReference, InputSeenTaggedReference,
    OutputOwnedReference, OutputOwnedTaggedReference,
};
use crate::receive::values::{outpoint_written, txout_ruled, InputPair, OutPoint, TxOut};
use crate::session::{PjUri, Request};
use crate::staging::{handed_out, one_event, NumberedBufferView, StagedView};
use crate::validation::{
    kwu_validated, validate_fee_rate_sat_per_kwu_opt, validate_fee_rate_sat_per_vb_opt,
    validate_script_vec, vb_validated,
};
use vstd::prelude::*;
use vstd::std_specs::convert::{FromSpec, FromSpecImpl};

verus! {

/// A buffer of receiver events.
pub type Buffer<C> = NumberedBufferView<ReceiverEvent<C>>;

/// Whether `r` surfaces the error of a transition that has no error state.
pub open spec fn refused<C: ReceiverStates, X, T>(
    err: ApiError<X>,
    r: Result<T, ReceiverApiError<C>>,
) -> bool where ReceiverError: From<X> {
    r matches Err(e) && e@ == ReceiverApiErrorView::<C>::of_api_error(err)
}

/// Whether `r` surfaces the error of a check, with the state in which it can be
/// replied, if there is one.
pub open spec fn check_refused<C: ReceiverStates, T>(
    err: ApiError<ReceiveFailure, C::HasReplyableError>,
    r: Result<T, ReceiverApiError<C>>,
) -> bool {
    r matches Err(e) && e@ == ReceiverApiErrorView::<C>::of_replyable_api_error(err)
}

/// Whether `r` refuses an input, with the buffer left as it was.
pub open spec fn input_refused<C: ReceiverStates, T>(
    err: FfiValidationError,
    before: Buffer<C>,
    after: Buffer<C>,
    r: Result<T, ReceiverApiError<C>>,
) -> bool {
    r == Err::<T, ReceiverApiError<C>>(ReceiverApiError::InputValidation(err)) && after == before
}

/// What an action that failed has recorded. A session that is closed by it is
/// closed as a failure, and what can be retried leaves no trace.
pub open spec fn failure_recorded<C: ReceiverStates>(
    before: Buffer<C>,
    after: Buffer<C>,
    err: ReceiverApiError<C>,
) -> bool {
    match err {
        ReceiverApiError::Fatal { .. } => after == before.push(failure_event::<C>()),
        ReceiverApiError::FatalWithReplyableState { .. } => one_event(before, after),
        _ => after == before,
    }
}

/// What an action has recorded: every move of the session by one event.
pub open spec fn move_recorded<C: ReceiverStates, T>(
    before: Buffer<C>,
    after: Buffer<C>,
    r: Result<T, ReceiverApiError<C>>,
) -> bool {
    match r {
        Ok(_) => one_event(before, after),
        Err(e) => failure_recorded(before, after, e),
    }
}

/// A request, with what decrypts its response.
pub struct RequestResponse<C: ReceiverStates> {
    /// The request.
    pub request: Request,
    /// What decrypts the response.
    pub client_response: C::Context,
}

/// What a request is handed out as.
pub open spec fn paired<C: ReceiverStates>(pair: (Request, C::Context)) -> RequestResponse<C> {
    RequestResponse { request: pair.0, client_response: pair.1 }
}

/// The session was created; no payload arrived yet.
pub struct Initialized<C: ReceiverStates>(pub C::Initialized);

/// What the protocol makes of a poll for the original payload.
pub type Polled<C> = OptionalTransitionOutcome<
    <C as ReceiverStates>::UncheckedOriginalPayload,
    <C as ReceiverStates>::Initialized,
>;

/// What came of polling the directory for the original payload.
pub enum InitializedTransitionOutcome<C: ReceiverStates> {
    /// Progressed to the next state.
    Progress { inner: UncheckedOriginalPayload<C> },
    /// No new payload yet; resume from the current state.
    Stasis { inner: Initialized<C> },
}

impl<C: ReceiverStates> From<
    OptionalTransitionOutcome<C::UncheckedOriginalPayload, C::Initialized>,
> for InitializedTransitionOutcome<C> {
    fn from(
        value: OptionalTransitionOutcome<C::UncheckedOriginalPayload, C::Initialized>,
    ) -> (r: Self) {
        match value {
            OptionalTransitionOutcome::Progress(s) => InitializedTransitionOutcome::Progress {
                inner: UncheckedOriginalPayload(s),
            },
            OptionalTransitionOutcome::Stasis(s) => InitializedTransitionOutcome::Stasis {
                inner: Initialized(s),
            },
        }
    }
}

impl<C: ReceiverStates> FromSpecImpl<
    OptionalTransitionOutcome<C::UncheckedOriginalPayload, C::Initialized>,
> for InitializedTransitionOutcome<C> {
    open spec fn obeys_from_spec() -> bool {
        true
    }

    open spec fn from_spec(
        value: OptionalTransitionOutcome<C::UncheckedOriginalPayload, C::Initialized>,
    ) -> Self {
        match value {
            OptionalTransitionOutcome::Progress(s) => InitializedTransitionOutcome::Progress {
                inner: UncheckedOriginalPayload(s),
            },
            OptionalTransitionOutcome::Stasis(s) => InitializedTransitionOutcome::Stasis {
                inner: Initialized(s),
            },
        }
    }
}

/// What a poll for the original payload has recorded: its arrival by one event.
pub open spec fn poll_recorded<C: ReceiverStates>(
    before: Buffer<C>,
    after: Buffer<C>,
    r: Result<InitializedTransitionOutcome<C>, ReceiverApiError<C>>,
) -> bool {
    match r {
        Ok(InitializedTransitionOutcome::Progress { .. }) => one_event(before, after),
        Ok(InitializedTransitionOutcome::Stasis { .. }) => after == before,
        Err(e) => failure_recorded(before, after, e),
    }
}

impl<C: ReceiverEngine> Initialized<C> {
    /// Cancels the session: pushes the event that closes it into `buf` and
    /// returns the original transaction in consensus encoding, if it arrived.
    ///
    /// This is a terminal action. The caller is expected to drain `buf`.
    pub fn cancel(&self, buf: &mut ReceiverEventBuffer<C>) -> (r: Option<Vec<u8>>)
        requires
            old(buf)@.log.pushed() < u64::MAX,
        ensures
            final(buf)@ == old(buf)@.push(ReceiverEvent::<C>::Closed(SessionOutcome::Cancel)),
            call_ensures(C::fallback_initialized, (&self.0,), r),
    {
        buf.push_cancel();
        C::fallback_initialized(&self.0)
    }

    /// Makes the request that polls the directory for the original payload.
    pub fn create_poll_request(&self, ohttp_relay: String) -> (r: Result<
        RequestResponse<C>,
        ReceiverError,
    >)
        ensures
            exists|request: Result<(Request, C::Context), ReceiveFailure>| #[trigger]
                call_ensures(C::create_poll_request, (&self.0, &ohttp_relay), request) && r == (
                match request {
                    Ok(pair) => Ok::<RequestResponse<C>, ReceiverError>(paired(pair)),
                    Err(e) => Err(<ReceiverError as FromSpec<ReceiveFailure>>::from_spec(e)),
                }),
    {
        match C::create_poll_request(&self.0, &ohttp_relay) {
            Ok((request, client_response)) => Ok(RequestResponse { request, client_response }),
            Err(e) => Err(ReceiverError::from(e)),
        }
    }

    /// Reads the directory's response to a poll. It may progress to the
    /// original payload or remain in stasis if there is none yet.
    pub fn process_response(
        &self,
        body: &[u8],
        ctx: &C::Context,
        buf: &mut ReceiverEventBuffer<C>,
    ) -> (r: Result<InitializedTransitionOutcome<C>, ReceiverApiError<C>>)
        requires
            old(buf)@.log.pushed() < u64::MAX,
        ensures
            poll_recorded(old(buf)@, final(buf)@, r),
            exists|t: PollReply<C>| #[trigger]
                call_ensures(C::process_poll_response, (&self.0, body, ctx), t) && final(buf)@
                    == old(buf)@.record(t.action(failure_event::<C>())) && match t.outcome() {
                    Ok(next) => r == Ok::<InitializedTransitionOutcome<C>, ReceiverApiError<C>>(
                        <InitializedTransitionOutcome<C> as FromSpec<Polled<C>>>::from_spec(next),
                    ),
                    Err(e) => refused(e, r),
                },
    {
        let t = C::process_poll_response(&self.0, body, ctx);
        let (action, outcome) = t.deconstruct(closing_failure::<C>());
        buf.record(action);
        match outcome {
            Ok(next) => Ok(InitializedTransitionOutcome::from(next)),
            Err(e) => Err(ReceiverApiError::from_api_error(e)),
        }
    }

    /// The payjoin URI to share with the sender.
    pub fn pj_uri(&self) -> (r: PjUri)
        ensures
            call_ensures(C::pj_uri, (&self.0,), r),
    {
        C::pj_uri(&self.0)
    }

    /// The Bitcoin address to be paid to.
    pub fn address(&self) -> (r: String)
        ensures
            exists|terms: ReceiverTerms| #[trigger]
                call_ensures(C::terms, (&self.0,), terms) && r == terms.address,
    {
        C::terms(&self.0).address
    }

    /// The URL of the payjoin directory.
    pub fn directory(&self) -> (r: String)
        ensures
            exists|terms: ReceiverTerms| #[trigger]
                call_ensures(C::terms, (&self.0,), terms) && r == terms.directory,
    {
        C::terms(&self.0).directory
    }

    /// When the session expires, in seconds since the Unix epoch.
    pub fn expiration_unix_secs(&self) -> (r: u64)
        ensures
            exists|terms: ReceiverTerms| #[trigger]
                call_ensures(C::terms, (&self.0,), terms) && r == terms.expiration_unix_secs,
    {
        C::terms(&self.0).expiration_unix_secs
    }

    /// The amount in satoshis, if one is asked for.
    pub fn amount_sats(&self) -> (r: Option<u64>)
        ensures
            exists|terms: ReceiverTerms| #[trigger]
                call_ensures(C::terms, (&self.0,), terms) && r == terms.amount_sats,
    {
        C::terms(&self.0).amount_sats
    }
}

/// The sender's original payload arrived and is not checked yet.
pub struct UncheckedOriginalPayload<C: ReceiverStates>(pub C::UncheckedOriginalPayload);

impl<C: ReceiverEngine> UncheckedOriginalPayload<C> {
    /// Cancels the session: pushes the event that closes it into `buf` and
    /// returns the original transaction in consensus encoding, if it arrived.
    ///
    /// This is a terminal action. The caller is expected to drain `buf`.
    pub fn cancel(&self, buf: &mut ReceiverEventBuffer<C>) -> (r: Option<Vec<u8>>)
        requires
            old(buf)@.log.pushed() < u64::MAX,
        ensures
            final(buf)@ == old(buf)@.push(ReceiverEvent::<C>::Closed(SessionOutcome::Cancel)),
            call_ensures(C::fallback_unchecked, (&self.0,), r),
    {
        buf.push_cancel();
        C::fallback_unchecked(&self.0)
    }

    /// Goes on if the application says that the original transaction can be
    /// broadcast and its fee rate is high enough.
    pub fn check_broadcast_suitability<B: CanBroadcast>(
        &self,
        min_fee_rate_sat_per_kwu: Option<u64>,
        can_broadcast: &B,
        buf: &mut ReceiverEventBuffer<C>,
    ) -> (r: Result<MaybeInputsOwned<C>, ReceiverApiError<C>>)
        requires
            old(buf)@.log.pushed() < u64::MAX,
        ensures
            move_recorded(old(buf)@, final(buf)@, r),
            exists|rate: Result<Option<u64>, FfiValidationError>| #[trigger]
                kwu_validated::<C>(min_fee_rate_sat_per_kwu, rate) && match rate {
                    Err(e) => input_refused(e, old(buf)@, final(buf)@, r),
                    Ok(min) => exists|t: CheckReply<C, C::MaybeInputsOwned>|
                        #[trigger] call_ensures(
                            C::check_broadcast_suitability::<ForeignBroadcast<B>>,
                            (&self.0, min, &ForeignBroadcast(can_broadcast)),
                            t,
                        ) && final(buf)@ == old(buf)@.record(t.action(failure_event::<C>()))
                            && match t.outcome() {
                            Ok(next) => r == Ok::<MaybeInputsOwned<C>, ReceiverApiError<C>>(
                                MaybeInputsOwned(next),
                            ),
                            Err(e) => check_refused(e, r),
                        },
                },
    {
        let min = match validate_fee_rate_sat_per_kwu_opt::<C>(min_fee_rate_sat_per_kwu) {
            Ok(min) => min,
            Err(e) => {
                return Err(ReceiverApiError::InputValidation(e));
            },
        };
        let t = C::check_broadcast_suitability(&self.0, min, &ForeignBroadcast(can_broadcast));
        let (action, outcome) = t.deconstruct(closing_failure::<C>());
        buf.record(action);
        match outcome {
            Ok(next) => Ok(MaybeInputsOwned(next)),
            Err(e) => Err(ReceiverApiError::from_api_error_with_replyable_state(e)),
        }
    }

    /// The original transaction in consensus encoding, to be checked by the
    /// caller.
    pub fn extract_tx_to_check_broadcast_suitability(&self) -> (r: Vec<u8>)
        ensures
            call_ensures(C::extract_tx_to_check_broadcast_suitability, (&self.0,), r),
    {
        C::extract_tx_to_check_broadcast_suitability(&self.0)
    }

    /// Goes on by what the caller found out of the original transaction.
    pub fn apply_broadcast_suitability(
        &self,
        min_fee_rate_sat_per_kwu: Option<u64>,
        can_broadcast: bool,
        buf: &mut ReceiverEventBuffer<C>,
    ) -> (r: Result<MaybeInputsOwned<C>, ReceiverApiError<C>>)
        requires
            old(buf)@.log.pushed() < u64::MAX,
        ensures
            move_recorded(old(buf)@, final(buf)@, r),
            exists|rate: Result<Option<u64>, FfiValidationError>| #[trigger]
                kwu_validated::<C>(min_fee_rate_sat_per_kwu, rate) && match rate {
                    Err(e) => input_refused(e, old(buf)@, final(buf)@, r),
                    Ok(min) => exists|t: CheckReply<C, C::MaybeInputsOwned>|
                        #[trigger] call_ensures(
                            C::apply_broadcast_suitability,
                            (&self.0, min, can_broadcast),
                            t,
                        ) && final(buf)@ == old(buf)@.record(t.action(failure_event::<C>()))
                            && match t.outcome() {
                            Ok(next) => r == Ok::<MaybeInputsOwned<C>, ReceiverApiError<C>>(
                                MaybeInputsOwned(next),
                            ),
                            Err(e) => check_refused(e, r),
                        },
                },
    {
        let min = match validate_fee_rate_sat_per_kwu_opt::<C>(min_fee_rate_sat_per_kwu) {
            Ok(min) => min,
            Err(e) => {
                return Err(ReceiverApiError::InputValidation(e));
            },
        };
        let t = C::apply_broadcast_suitability(&self.0, min, can_broadcast);
        let (action, outcome) = t.deconstruct(closing_failure::<C>());
        buf.record(action);
        match outcome {
            Ok(next) => Ok(MaybeInputsOwned(next)),
            Err(e) => Err(ReceiverApiError::from_api_error_with_replyable_state(e)),
        }
    }

    /// Goes on without a check of the original transaction.
    ///
    /// Call this if the only way to initiate a payjoin with this receiver
    /// requires manual intervention, as in most consumer wallets.
    pub fn assume_interactive_receiver(&self, buf: &mut ReceiverEventBuffer<C>) -> (r:
        MaybeInputsOwned<C>)
        requires
            old(buf)@.log.pushed() < u64::MAX,
        ensures
            exists|a: Advance<C::Payload, C::MaybeInputsOwned>| #[trigger]
                call_ensures(C::assume_interactive_receiver, (&self.0,), a) && final(buf)@
                    == old(buf)@.push(ReceiverEvent::<C>::Advanced(a.event)) && r
                    == MaybeInputsOwned::<C>(a.state),
    {
        let a = C::assume_interactive_receiver(&self.0);
        buf.push(ReceiverEvent::<C>::Advanced(a.event));
        MaybeInputsOwned(a.state)
    }
}

/// The original transaction can be broadcast; its inputs may be the receiver's.
pub struct MaybeInputsOwned<C: ReceiverStates>(pub C::MaybeInputsOwned);

/// What asking the application for the scripts of the sender's inputs does to
/// the buffer and returns.
pub open spec fn inputs_owned_asked<C: ReceiverEngine, B: IsScriptOwned>(
    session: C::MaybeInputsOwned,
    is_owned: &B,
    before: Buffer<C>,
    after: Buffer<C>,
    r: Result<MaybeInputsSeen<C>, ReceiverApiError<C>>,
) -> bool {
    exists|t: CheckReply<C, C::MaybeInputsSeen>| #[trigger]
        call_ensures(
            C::check_inputs_not_owned::<ForeignOwned<B>>,
            (&session, &ForeignOwned(is_owned)),
            t,
        ) && after == before.record(t.action(failure_event::<C>())) && match t.outcome() {
            Ok(next) => r == Ok::<MaybeInputsSeen<C>, ReceiverApiError<C>>(MaybeInputsSeen(next)),
            Err(e) => check_refused(e, r),
        }
}

/// What the answers on the scripts of the sender's inputs do to the buffer and
/// return.
pub open spec fn inputs_owned_marked<C: ReceiverEngine>(
    session: C::MaybeInputsOwned,
    checked: Seq<InputOwnedTaggedReference>,
    before: Buffer<C>,
    after: Buffer<C>,
    r: Result<MaybeInputsSeen<C>, ReceiverApiError<C>>,
) -> bool {
    exists|tags: Vec<TaggedReference<Vec<u8>>>, t: CheckReply<C, C::MaybeInputsSeen>| #[trigger]
        call_ensures(C::apply_input_owned_checks, (&session, tags), t) && tags@.len()
            == checked.len() && (forall|i: int|
            0 <= i < tags@.len() ==> #[trigger] tags@[i] == checked[i].0) && after == before.record(
            t.action(failure_event::<C>()),
        ) && match t.outcome() {
            Ok(next) => r == Ok::<MaybeInputsSeen<C>, ReceiverApiError<C>>(MaybeInputsSeen(next)),
            Err(e) => check_refused(e, r),
        }
}

impl<C: ReceiverEngine> MaybeInputsOwned<C> {
    /// Cancels the session: pushes the event that closes it into `buf` and
    /// returns the original transaction in consensus encoding, if it arrived.
    ///
    /// This is a terminal action. The caller is expected to drain `buf`.
    pub fn cancel(&self, buf: &mut ReceiverEventBuffer<C>) -> (r: Option<Vec<u8>>)
        requires
            old(buf)@.log.pushed() < u64::MAX,
        ensures
            final(buf)@ == old(buf)@.push(ReceiverEvent::<C>::Closed(SessionOutcome::Cancel)),
            call_ensures(C::fallback_inputs_owned, (&self.0,), r),
    {
        buf.push_cancel();
        C::fallback_inputs_owned(&self.0)
    }

    /// The sender's original transaction in consensus encoding, to be broadcast
    /// if the payjoin fails.
    pub fn extract_tx_to_schedule_broadcast(&self) -> (r: Vec<u8>)
        ensures
            call_ensures(C::extract_tx_to_schedule_broadcast, (&self.0,), r),
    {
        C::extract_tx_to_schedule_broadcast(&self.0)
    }

    /// Goes on if the application says that none of the sender's inputs is the
    /// receiver's.
    pub fn check_inputs_not_owned<B: IsScriptOwned>(
        &self,
        is_owned: &B,
        buf: &mut ReceiverEventBuffer<C>,
    ) -> (r: Result<MaybeInputsSeen<C>, ReceiverApiError<C>>)
        requires
            old(buf)@.log.pushed() < u64::MAX,
        ensures
            move_recorded(old(buf)@, final(buf)@, r),
            inputs_owned_asked(self.0, is_owned, old(buf)@, final(buf)@, r),
    {
        let t = C::check_inputs_not_owned(&self.0, &ForeignOwned(is_owned));
        let (action, outcome) = t.deconstruct(closing_failure::<C>());
        buf.record(action);
        match outcome {
            Ok(next) => Ok(MaybeInputsSeen(next)),
            Err(e) => Err(ReceiverApiError::from_api_error_with_replyable_state(e)),
        }
    }

    /// The scripts of the sender's inputs, to be checked by the caller.
    pub fn get_input_script_refs(&self) -> (r: Result<Vec<InputOwnedReference>, ReceiverError>)
        ensures
            exists|refs: Result<Vec<Reference<Vec<u8>>>, ReceiveFailure>| #[trigger]
                call_ensures(C::get_input_script_refs, (&self.0,), refs) && match refs {
                    Ok(refs) => r matches Ok(out) && out@.len() == refs@.len() && forall|i: int|
                        0 <= i < out@.len() ==> (#[trigger] out@[i]).0 == refs@[i],
                    Err(e) => r == Err::<Vec<InputOwnedReference>, ReceiverError>(
                        <ReceiverError as FromSpec<ReceiveFailure>>::from_spec(e),
                    ),
                },
    {
        let wrap = |reference: Reference<Vec<u8>>| -> (w: InputOwnedReference)
            ensures
                w == InputOwnedReference(reference),
            {
                InputOwnedReference(reference)
            };
        match C::get_input_script_refs(&self.0) {
            Ok(refs) => Ok(map_all(refs, wrap)),
            Err(e) => Err(ReceiverError::from(e)),
        }
    }

    /// Goes on by what the caller found out of the sender's inputs.
    pub fn apply_input_owned_checks(
        &self,
        checked: Vec<InputOwnedTaggedReference>,
        buf: &mut ReceiverEventBuffer<C>,
    ) -> (r: Result<MaybeInputsSeen<C>, ReceiverApiError<C>>)
        requires
            old(buf)@.log.pushed() < u64::MAX,
        ensures
            move_recorded(old(buf)@, final(buf)@, r),
            inputs_owned_marked(self.0, checked@, old(buf)@, final(buf)@, r),
    {
        let unwrap = |tagged: InputOwnedTaggedReference| -> (u: TaggedReference<Vec<u8>>)
            ensures
                u == tagged.0,
            {
                let InputOwnedTaggedReference(inner) = tagged;
                inner
            };
        let t = C::apply_input_owned_checks(&self.0, map_all(checked, unwrap));
        let (action, outcome) = t.deconstruct(closing_failure::<C>());
        buf.record(action);
        match outcome {
            Ok(next) => Ok(MaybeInputsSeen(next)),
            Err(e) => Err(ReceiverApiError::from_api_error_with_replyable_state(e)),
        }
    }
}

/// The sender spends its own coins; the receiver may have seen them before.
pub struct MaybeInputsSeen<C: ReceiverStates>(pub C::MaybeInputsSeen);

/// What asking the application for the sender's coins does to the buffer and
/// returns.
pub open spec fn inputs_seen_asked<C: ReceiverEngine, B: IsOutputKnown>(
    session: C::MaybeInputsSeen,
    is_known: &B,
    before: Buffer<C>,
    after: Buffer<C>,
    r: Result<OutputsUnknown<C>, ReceiverApiError<C>>,
) -> bool {
    exists|t: CheckReply<C, C::OutputsUnknown>| #[trigger]
        call_ensures(
            C::check_no_inputs_seen_before::<ForeignKnown<B>>,
            (&session, &ForeignKnown(is_known)),
            t,
        ) && after == before.record(t.action(failure_event::<C>())) && match t.outcome() {
            Ok(next) => r == Ok::<OutputsUnknown<C>, ReceiverApiError<C>>(OutputsUnknown(next)),
            Err(e) => check_refused(e, r),
        }
}

/// What the answers on the sender's coins do to the buffer and return.
pub open spec fn inputs_seen_marked<C: ReceiverEngine>(
    session: C::MaybeInputsSeen,
    checked: Seq<InputSeenTaggedReference>,
    before: Buffer<C>,
    after: Buffer<C>,
    r: Result<OutputsUnknown<C>, ReceiverApiError<C>>,
) -> bool {
    exists|tags: Vec<TaggedReference<CoreOutPoint>>, t: CheckReply<C, C::OutputsUnknown>| #[trigger]
        call_ensures(C::apply_input_seen_checks, (&session, tags), t) && tags@.len()
            == checked.len() && (forall|i: int|
            0 <= i < tags@.len() ==> #[trigger] tags@[i] == checked[i].0) && after == before.record(
            t.action(failure_event::<C>()),
        ) && match t.outcome() {
            Ok(next) => r == Ok::<OutputsUnknown<C>, ReceiverApiError<C>>(OutputsUnknown(next)),
            Err(e) => check_refused(e, r),
        }
}

impl<C: ReceiverEngine> MaybeInputsSeen<C> {
    /// Cancels the session: pushes the event that closes it into `buf` and
    /// returns the original transaction in consensus encoding, if it arrived.
    ///
    /// This is a terminal action. The caller is expected to drain `buf`.
    pub fn cancel(&self, buf: &mut ReceiverEventBuffer<C>) -> (r: Option<Vec<u8>>)
        requires
            old(buf)@.log.pushed() < u64::MAX,
        ensures
            final(buf)@ == old(buf)@.push(ReceiverEvent::<C>::Closed(SessionOutcome::Cancel)),
            call_ensures(C::fallback_inputs_seen, (&self.0,), r),
    {
        buf.push_cancel();
        C::fallback_inputs_seen(&self.0)
    }

    /// Goes on if the application says that none of the sender's coins was seen
    /// before.
    pub fn check_no_inputs_seen_before<B: IsOutputKnown>(
        &self,
        is_known: &B,
        buf: &mut ReceiverEventBuffer<C>,
    ) -> (r: Result<OutputsUnknown<C>, ReceiverApiError<C>>)
        requires
            old(buf)@.log.pushed() < u64::MAX,
        ensures
            move_recorded(old(buf)@, final(buf)@, r),
            inputs_seen_asked(self.0, is_known, old(buf)@, final(buf)@, r),
    {
        let t = C::check_no_inputs_seen_before(&self.0, &ForeignKnown(is_known));
        let (action, outcome) = t.deconstruct(closing_failure::<C>());
        buf.record(action);
        match outcome {
            Ok(next) => Ok(OutputsUnknown(next)),
            Err(e) => Err(ReceiverApiError::from_api_error_with_replyable_state(e)),
        }
    }

    /// The sender's coins, to be checked by the caller.
    pub fn get_input_outpoint_refs(&self) -> (r: Vec<InputSeenReference>)
        ensures
            exists|refs: Vec<Reference<CoreOutPoint>>| #[trigger]
                call_ensures(C::get_input_outpoint_refs, (&self.0,), refs) && refs@.len() == r@.len()
                    && forall|i: int|
                    0 <= i < r@.len() ==> (#[trigger] r@[i]).0 == refs@[i],
    {
        let wrap = |reference: Reference<CoreOutPoint>| -> (w: InputSeenReference)
            ensures
                w == InputSeenReference(reference),
            {
                InputSeenReference(reference)
            };
        map_all(C::get_input_outpoint_refs(&self.0), wrap)
    }

    /// Goes on by what the caller found out of the sender's coins.
    pub fn apply_input_seen_checks(
        &self,
        checked: Vec<InputSeenTaggedReference>,
        buf: &mut ReceiverEventBuffer<C>,
    ) -> (r: Result<OutputsUnknown<C>, ReceiverApiError<C>>)
        requires
            old(buf)@.log.pushed() < u64::MAX,
        ensures
            move_recorded(old(buf)@, final(buf)@, r),
            inputs_seen_marked(self.0, checked@, old(buf)@, final(buf)@, r),
    {
        let unwrap = |tagged: InputSeenTaggedReference| -> (u: TaggedReference<CoreOutPoint>)
            ensures
                u == tagged.0,
            {
                let InputSeenTaggedReference(inner) = tagged;
                inner
            };
        let t = C::apply_input_seen_checks(&self.0, map_all(checked, unwrap));
        let (action, outcome) = t.deconstruct(closing_failure::<C>());
        buf.record(action);
        match outcome {
            Ok(next) => Ok(OutputsUnknown(next)),
            Err(e) => Err(ReceiverApiError::from_api_error_with_replyable_state(e)),
        }
    }
}

/// The receiver has not yet identified which outputs are its own.
///
/// Only accept PSBTs that send us money. Identify those outputs with
/// `identify_receiver_outputs` to proceed.
pub struct OutputsUnknown<C: ReceiverStates>(pub C::OutputsUnknown);

/// What asking the application for the scripts of the outputs does to the
/// buffer and returns.
pub open spec fn outputs_owned_asked<C: ReceiverEngine, B: IsScriptOwned>(
    session: C::OutputsUnknown,
    is_receiver_output: &B,
    before: Buffer<C>,
    after: Buffer<C>,
    r: Result<WantsOutputs<C>, ReceiverApiError<C>>,
) -> bool {
    exists|t: CheckReply<C, C::WantsOutputs>| #[trigger]
        call_ensures(
            C::identify_receiver_outputs::<ForeignOwned<B>>,
            (&session, &ForeignOwned(is_receiver_output)),
            t,
        ) && after == before.record(t.action(failure_event::<C>())) && match t.outcome() {
            Ok(next) => r == Ok::<WantsOutputs<C>, ReceiverApiError<C>>(WantsOutputs(next)),
            Err(e) => check_refused(e, r),
        }
}

/// What the answers on the scripts of the outputs do to the buffer and return.
pub open spec fn outputs_owned_marked<C: ReceiverEngine>(
    session: C::OutputsUnknown,
    checked: Seq<OutputOwnedTaggedReference>,
    before: Buffer<C>,
    after: Buffer<C>,
    r: Result<WantsOutputs<C>, ReceiverApiError<C>>,
) -> bool {
    exists|tags: Vec<TaggedReference<Vec<u8>>>, t: CheckReply<C, C::WantsOutputs>| #[trigger]
        call_ensures(C::apply_output_owned_checks, (&session, tags), t) && tags@.len()
            == checked.len() && (forall|i: int|
            0 <= i < tags@.len() ==> #[trigger] tags@[i] == checked[i].0) && after == before.record(
            t.action(failure_event::<C>()),
        ) && match t.outcome() {
            Ok(next) => r == Ok::<WantsOutputs<C>, ReceiverApiError<C>>(WantsOutputs(next)),
            Err(e) => check_refused(e, r),
        }
}

impl<C: ReceiverEngine> OutputsUnknown<C> {
    /// Cancels the session: pushes the event that closes it into `buf` and
    /// returns the original transaction in consensus encoding, if it arrived.
    ///
    /// This is a terminal action. The caller is expected to drain `buf`.
    pub fn cancel(&self, buf: &mut ReceiverEventBuffer<C>) -> (r: Option<Vec<u8>>)
        requires
            old(buf)@.log.pushed() < u64::MAX,
        ensures
            final(buf)@ == old(buf)@.push(ReceiverEvent::<C>::Closed(SessionOutcome::Cancel)),
            call_ensures(C::fallback_outputs_unknown, (&self.0,), r),
    {
        buf.push_cancel();
        C::fallback_outputs_unknown(&self.0)
    }

    /// Finds which outputs belong to the receiver, and goes on if there is one.
    pub fn identify_receiver_outputs<B: IsScriptOwned>(
        &self,
        is_receiver_output: &B,
        buf: &mut ReceiverEventBuffer<C>,
    ) -> (r: Result<WantsOutputs<C>, ReceiverApiError<C>>)
        requires
            old(buf)@.log.pushed() < u64::MAX,
        ensures
            move_recorded(old(buf)@, final(buf)@, r),
            outputs_owned_asked(self.0, is_receiver_output, old(buf)@, final(buf)@, r),
    {
        let t = C::identify_receiver_outputs(&self.0, &ForeignOwned(is_receiver_output));
        let (action, outcome) = t.deconstruct(closing_failure::<C>());
        buf.record(action);
        match outcome {
            Ok(next) => Ok(WantsOutputs(next)),
            Err(e) => Err(ReceiverApiError::from_api_error_with_replyable_state(e)),
        }
    }

    /// The scripts of the outputs, to be checked by the caller.
    pub fn get_output_script_refs(&self) -> (r: Vec<OutputOwnedReference>)
        ensures
            exists|refs: Vec<Reference<Vec<u8>>>| #[trigger]
                call_ensures(C::get_output_script_refs, (&self.0,), refs) && refs@.len() == r@.len()
                    && forall|i: int|
                    0 <= i < r@.len() ==> (#[trigger] r@[i]).0 == refs@[i],
    {
        let wrap = |reference: Reference<Vec<u8>>| -> (w: OutputOwnedReference)
            ensures
                w == OutputOwnedReference(reference),
            {
                OutputOwnedReference(reference)
            };
        map_all(C::get_output_script_refs(&self.0), wrap)
    }

    /// Goes on by what the caller found out of the outputs.
    pub fn apply_output_owned_checks(
        &self,
        checked: Vec<OutputOwnedTaggedReference>,
        buf: &mut ReceiverEventBuffer<C>,
    ) -> (r: Result<WantsOutputs<C>, ReceiverApiError<C>>)
        requires
            old(buf)@.log.pushed() < u64::MAX,
        ensures
            move_recorded(old(buf)@, final(buf)@, r),
            outputs_owned_marked(self.0, checked@, old(buf)@, final(buf)@, r),
    {
        let unwrap = |tagged: OutputOwnedTaggedReference| -> (u: TaggedReference<Vec<u8>>)
            ensures
                u == tagged.0,
            {
                let OutputOwnedTaggedReference(inner) = tagged;
                inner
            };
        let t = C::apply_output_owned_checks(&self.0, map_all(checked, unwrap));
        let (action, outcome) = t.deconstruct(closing_failure::<C>());
        buf.record(action);
        match outcome {
            Ok(next) => Ok(WantsOutputs(next)),
            Err(e) => Err(ReceiverApiError::from_api_error_with_replyable_state(e)),
        }
    }
}

/// The outputs that pay the receiver are known and may be changed.
pub struct WantsOutputs<C: ReceiverStates>(pub C::WantsOutputs);

/// Whether the rules accept an output.
pub open spec fn txout_accepted<C: ReceiverEngine>(txout: TxOut) -> bool {
    exists|core: CoreTxOut| #[trigger]
        txout_ruled::<C>(txout, Ok::<CoreTxOut, FfiValidationError>(core))
}

/// What the checks on a list of outputs may return: all of them, in order, or
/// what is wrong with the first that is refused.
pub open spec fn txouts_ruled<C: ReceiverEngine>(
    txouts: Seq<TxOut>,
    r: Result<Vec<CoreTxOut>, FfiValidationError>,
) -> bool {
    match r {
        Ok(cores) => cores@.len() == txouts.len() && forall|i: int|
            0 <= i < txouts.len() ==> txout_ruled::<C>(
                txouts[i],
                Ok::<CoreTxOut, FfiValidationError>(#[trigger] cores@[i]),
            ),
        Err(e) => exists|i: int|
            {
                &&& 0 <= i < txouts.len()
                &&& #[trigger] txout_ruled::<C>(
                    txouts[i],
                    Err::<CoreTxOut, FfiValidationError>(e),
                )
                &&& forall|j: int| 0 <= j < i ==> txout_accepted::<C>(#[trigger] txouts[j])
            },
    }
}

/// Checks a list of outputs.
fn into_cores<C: ReceiverEngine>(txouts: Vec<TxOut>) -> (r: Result<
    Vec<CoreTxOut>,
    FfiValidationError,
>)
    ensures
        txouts_ruled::<C>(txouts@, r),
{
    let mut cores: Vec<CoreTxOut> = Vec::new();
    for txout in it: txouts
        invariant
            it.seq() == txouts@,
            cores@.len() == it.index(),
            forall|i: int|
                0 <= i < cores@.len() ==> txout_ruled::<C>(
                    txouts@[i],
                    Ok::<CoreTxOut, FfiValidationError>(#[trigger] cores@[i]),
                ),
    {
        let ghost i = it.index();
        match txout.into_core::<C>() {
            Ok(core) => cores.push(core),
            Err(e) => {
                assert(txout_ruled::<C>(txouts@[i], Err::<CoreTxOut, FfiValidationError>(e)));
                assert forall|j: int| 0 <= j < i implies txout_accepted::<C>(
                    #[trigger] txouts@[j],
                ) by {
                    assert(txout_ruled::<C>(
                        txouts@[j],
                        Ok::<CoreTxOut, FfiValidationError>(cores@[j]),
                    ));
                }
                return Err(e);
            },
        }
    }
    Ok(cores)
}

/// What the protocol makes of a changed output, as it is handed out.
pub open spec fn substituted<C: ReceiverStates>(
    answer: Result<C::WantsOutputs, OutputSubstitutionProtocolError>,
) -> Result<WantsOutputs<C>, OutputSubstitutionError> {
    match answer {
        Ok(next) => Ok(WantsOutputs(next)),
        Err(e) => Err(OutputSubstitutionError::Protocol(e)),
    }
}

impl<C: ReceiverEngine> WantsOutputs<C> {
    /// Cancels the session: pushes the event that closes it into `buf` and
    /// returns the original transaction in consensus encoding, if it arrived.
    ///
    /// This is a terminal action. The caller is expected to drain `buf`.
    pub fn cancel(&self, buf: &mut ReceiverEventBuffer<C>) -> (r: Option<Vec<u8>>)
        requires
            old(buf)@.log.pushed() < u64::MAX,
        ensures
            final(buf)@ == old(buf)@.push(ReceiverEvent::<C>::Closed(SessionOutcome::Cancel)),
            call_ensures(C::fallback_wants_outputs, (&self.0,), r),
    {
        buf.push_cancel();
        C::fallback_wants_outputs(&self.0)
    }

    /// Whether outputs may be substituted.
    pub fn output_substitution(&self) -> (r: C::OutputSubstitution)
        ensures
            call_ensures(C::output_substitution, (&self.0,), r),
    {
        C::output_substitution(&self.0)
    }

    /// Replaces the outputs that pay the receiver. What is left over goes to
    /// `drain_script_pubkey`.
    pub fn replace_receiver_outputs(
        &self,
        replacement_outputs: Vec<TxOut>,
        drain_script_pubkey: Vec<u8>,
    ) -> (r: Result<WantsOutputs<C>, OutputSubstitutionError>)
        ensures
            exists|cores: Result<Vec<CoreTxOut>, FfiValidationError>| #[trigger]
                txouts_ruled::<C>(replacement_outputs@, cores) && match cores {
                    Err(e) => r == Err::<WantsOutputs<C>, OutputSubstitutionError>(
                        OutputSubstitutionError::FfiValidation(e),
                    ),
                    Ok(outputs) => exists|script: Result<(), FfiValidationError>| #[trigger]
                        call_ensures(
                            C::script,
                            ("drain_script_pubkey", &drain_script_pubkey, false),
                            script,
                        ) && match script {
                            Err(e) => r == Err::<WantsOutputs<C>, OutputSubstitutionError>(
                                OutputSubstitutionError::FfiValidation(e),
                            ),
                            Ok(()) => exists|answer| #[trigger]
                                call_ensures(
                                    C::replace_receiver_outputs,
                                    (&self.0, outputs, &drain_script_pubkey),
                                    answer,
                                ) && r == substituted::<C>(answer),
                        },
                },
    {
        let outputs = match into_cores::<C>(replacement_outputs) {
            Ok(outputs) => outputs,
            Err(e) => {
                return Err(OutputSubstitutionError::FfiValidation(e));
            },
        };
        let drain_script = match validate_script_vec::<C>(
            "drain_script_pubkey",
            drain_script_pubkey,
            false,
        ) {
            Ok(drain_script) => drain_script,
            Err(e) => {
                return Err(OutputSubstitutionError::FfiValidation(e));
            },
        };
        match C::replace_receiver_outputs(&self.0, outputs, &drain_script) {
            Ok(next) => Ok(WantsOutputs(next)),
            Err(e) => Err(OutputSubstitutionError::from(e)),
        }
    }

    /// Replaces the script of the output that pays the receiver.
    pub fn substitute_receiver_script(&self, output_script_pubkey: Vec<u8>) -> (r: Result<
        WantsOutputs<C>,
        OutputSubstitutionError,
    >)
        ensures
            exists|script: Result<(), FfiValidationError>| #[trigger]
                call_ensures(
                    C::script,
                    ("output_script_pubkey", &output_script_pubkey, false),
                    script,
                ) && match script {
                    Err(e) => r == Err::<WantsOutputs<C>, OutputSubstitutionError>(
                        OutputSubstitutionError::FfiValidation(e),
                    ),
                    Ok(()) => exists|answer| #[trigger]
                        call_ensures(
                            C::substitute_receiver_script,
                            (&self.0, &output_script_pubkey),
                            answer,
                        ) && r == substituted::<C>(answer),
                },
    {
        let output_script = match validate_script_vec::<C>(
            "output_script_pubkey",
            output_script_pubkey,
            false,
        ) {
            Ok(output_script) => output_script,
            Err(e) => {
                return Err(OutputSubstitutionError::FfiValidation(e));
            },
        };
        match C::substitute_receiver_script(&self.0, &output_script) {
            Ok(next) => Ok(WantsOutputs(next)),
            Err(e) => Err(OutputSubstitutionError::from(e)),
        }
    }

    /// Settles the outputs.
    pub fn commit_outputs(&self, buf: &mut ReceiverEventBuffer<C>) -> (r: WantsInputs<C>)
        requires
            old(buf)@.log.pushed() < u64::MAX,
        ensures
            exists|a: Advance<C::Payload, C::WantsInputs>| #[trigger]
                call_ensures(C::commit_outputs, (&self.0,), a) && final(buf)@ == old(buf)@.push(
                    ReceiverEvent::<C>::Advanced(a.event),
                ) && r == WantsInputs::<C>(a.state),
    {
        let a = C::commit_outputs(&self.0);
        buf.push(ReceiverEvent::<C>::Advanced(a.event));
        WantsInputs(a.state)
    }
}

/// The outputs are settled; inputs may be contributed.
pub struct WantsInputs<C: ReceiverStates>(pub C::WantsInputs);

/// Takes inputs out of their wrappers.
fn into_core_pairs<C: ReceiverStates>(pairs: Vec<InputPair<C>>) -> (r: Vec<C::InputPair>)
    ensures
        r@.len() == pairs@.len(),
        forall|i: int| 0 <= i < r@.len() ==> #[trigger] r@[i] == pairs@[i].0,
{
    let unwrap = |pair: InputPair<C>| -> (u: C::InputPair)
        ensures
            u == pair.0,
        {
            let InputPair(inner) = pair;
            inner
        };
    map_all(pairs, unwrap)
}

impl<C: ReceiverEngine> WantsInputs<C> {
    /// Cancels the session: pushes the event that closes it into `buf` and
    /// returns the original transaction in consensus encoding, if it arrived.
    ///
    /// This is a terminal action. The caller is expected to drain `buf`.
    pub fn cancel(&self, buf: &mut ReceiverEventBuffer<C>) -> (r: Option<Vec<u8>>)
        requires
            old(buf)@.log.pushed() < u64::MAX,
        ensures
            final(buf)@ == old(buf)@.push(ReceiverEvent::<C>::Closed(SessionOutcome::Cancel)),
            call_ensures(C::fallback_wants_inputs, (&self.0,), r),
    {
        buf.push_cancel();
        C::fallback_wants_inputs(&self.0)
    }

    /// Selects an input such that the payjoin avoids surveillance.
    pub fn try_preserving_privacy(&self, candidate_inputs: Vec<InputPair<C>>) -> (r: Result<
        InputPair<C>,
        SelectionError,
    >)
        ensures
            exists|pairs: Vec<C::InputPair>, answer| #[trigger]
                call_ensures(C::try_preserving_privacy, (&self.0, pairs), answer) && pairs@.len()
                    == candidate_inputs@.len() && (forall|i: int|
                    0 <= i < pairs@.len() ==> #[trigger] pairs@[i] == candidate_inputs@[i].0) && r
                    == (match answer {
                    Ok(pair) => Ok::<InputPair<C>, SelectionError>(InputPair(pair)),
                    Err(e) => Err(e),
                }),
    {
        match C::try_preserving_privacy(&self.0, into_core_pairs(candidate_inputs)) {
            Ok(pair) => Ok(InputPair(pair)),
            Err(e) => Err(e),
        }
    }

    /// Adds inputs to the proposal.
    pub fn contribute_inputs(&self, replacement_inputs: Vec<InputPair<C>>) -> (r: Result<
        WantsInputs<C>,
        InputContributionError,
    >)
        ensures
            exists|pairs: Vec<C::InputPair>, answer| #[trigger]
                call_ensures(C::contribute_inputs, (&self.0, pairs), answer) && pairs@.len()
                    == replacement_inputs@.len() && (forall|i: int|
                    0 <= i < pairs@.len() ==> #[trigger] pairs@[i] == replacement_inputs@[i].0) && r
                    == (match answer {
                    Ok(next) => Ok::<WantsInputs<C>, InputContributionError>(WantsInputs(next)),
                    Err(e) => Err(e),
                }),
    {
        match C::contribute_inputs(&self.0, into_core_pairs(replacement_inputs)) {
            Ok(next) => Ok(WantsInputs(next)),
            Err(e) => Err(e),
        }
    }

    /// Settles the inputs.
    pub fn commit_inputs(&self, buf: &mut ReceiverEventBuffer<C>) -> (r: WantsFeeRange<C>)
        requires
            old(buf)@.log.pushed() < u64::MAX,
        ensures
            exists|a: Advance<C::Payload, C::WantsFeeRange>| #[trigger]
                call_ensures(C::commit_inputs, (&self.0,), a) && final(buf)@ == old(buf)@.push(
                    ReceiverEvent::<C>::Advanced(a.event),
                ) && r == WantsFeeRange::<C>(a.state),
    {
        let a = C::commit_inputs(&self.0);
        buf.push(ReceiverEvent::<C>::Advanced(a.event));
        WantsFeeRange(a.state)
    }
}

/// The inputs are settled; the fees are to be.
pub struct WantsFeeRange<C: ReceiverStates>(pub C::WantsFeeRange);

impl<C: ReceiverEngine> WantsFeeRange<C> {
    /// Cancels the session: pushes the event that closes it into `buf` and
    /// returns the original transaction in consensus encoding, if it arrived.
    ///
    /// This is a terminal action. The caller is expected to drain `buf`.
    pub fn cancel(&self, buf: &mut ReceiverEventBuffer<C>) -> (r: Option<Vec<u8>>)
        requires
            old(buf)@.log.pushed() < u64::MAX,
        ensures
            final(buf)@ == old(buf)@.push(ReceiverEvent::<C>::Closed(SessionOutcome::Cancel)),
            call_ensures(C::fallback_wants_fee_range, (&self.0,), r),
    {
        buf.push_cancel();
        C::fallback_wants_fee_range(&self.0)
    }

    /// Settles the fees, now that the receiver has contributed inputs and may
    /// have added outputs. The rates are given in sat/vB.
    pub fn apply_fee_range(
        &self,
        min_fee_rate_sat_per_vb: Option<u64>,
        max_effective_fee_rate_sat_per_vb: Option<u64>,
        buf: &mut ReceiverEventBuffer<C>,
    ) -> (r: Result<ProvisionalProposal<C>, ReceiverApiError<C>>)
        requires
            old(buf)@.log.pushed() < u64::MAX,
        ensures
            move_recorded(old(buf)@, final(buf)@, r),
            exists|min: Result<Option<u64>, FfiValidationError>| #[trigger]
                vb_validated::<C>(min_fee_rate_sat_per_vb, min) && match min {
                    Err(e) => input_refused(e, old(buf)@, final(buf)@, r),
                    Ok(min) => exists|max: Result<Option<u64>, FfiValidationError>| #[trigger]
                        vb_validated::<C>(max_effective_fee_rate_sat_per_vb, max) && match max {
                            Err(e) => input_refused(e, old(buf)@, final(buf)@, r),
                            Ok(max) => exists|
                                t: ReceiverReply<C, C::ProvisionalProposal, ProtocolError>,
                            | #[trigger]
                                call_ensures(C::apply_fee_range, (&self.0, min, max), t)
                                    && final(buf)@ == old(buf)@.record(t.action(failure_event::<C>()))
                                    && match t.outcome() {
                                    Ok(next) => r == Ok::<
                                        ProvisionalProposal<C>,
                                        ReceiverApiError<C>,
                                    >(ProvisionalProposal(next)),
                                    Err(e) => refused(e, r),
                                },
                        },
                },
    {
        let min = match validate_fee_rate_sat_per_vb_opt::<C>(min_fee_rate_sat_per_vb) {
            Ok(min) => min,
            Err(e) => {
                return Err(ReceiverApiError::InputValidation(e));
            },
        };
        let max = match validate_fee_rate_sat_per_vb_opt::<C>(max_effective_fee_rate_sat_per_vb) {
            Ok(max) => max,
            Err(e) => {
                return Err(ReceiverApiError::InputValidation(e));
            },
        };
        let t = C::apply_fee_range(&self.0, min, max);
        let (action, outcome) = t.deconstruct(closing_failure::<C>());
        buf.record(action);
        match outcome {
            Ok(next) => Ok(ProvisionalProposal(next)),
            Err(e) => Err(ReceiverApiError::from_api_error(e)),
        }
    }
}

/// The proposal has to be signed.
pub struct ProvisionalProposal<C: ReceiverStates>(pub C::ProvisionalProposal);

/// What came of having a proposal signed.
pub type Signature<C> = ReceiverReply<
    C,
    <C as ReceiverStates>::PayjoinProposal,
    ImplementationError,
>;

/// What a signed proposal is handed out as: it waits for its event to become
/// durable.
pub open spec fn finalized<C: ReceiverEngine>(
    t: Signature<C>,
    before: Buffer<C>,
    after: Buffer<C>,
    r: Result<ProvisionalPayjoinProposal<C>, ReceiverApiError<C>>,
) -> bool {
    &&& after == before.record(t.action(failure_event::<C>()))
    &&& match t.outcome() {
        Ok(proposal) => r matches Ok(provisional) && provisional@ == (StagedView {
            held: Some(
                ProvisionalView { inner: proposal, needs_committed: after.log.pushed() },
            ),
            buffer_id: before.id,
        }),
        Err(e) => refused(e, r),
    }
}

/// What having the application sign the proposal does to the buffer and returns.
pub open spec fn finalized_on_request<C: ReceiverEngine, B: ProcessPsbt>(
    session: C::ProvisionalProposal,
    process_psbt: &B,
    before: Buffer<C>,
    after: Buffer<C>,
    r: Result<ProvisionalPayjoinProposal<C>, ReceiverApiError<C>>,
) -> bool {
    exists|t: Signature<C>| #[trigger]
        call_ensures(
            C::finalize_proposal::<ForeignSigner<B>>,
            (&session, &ForeignSigner(process_psbt)),
            t,
        ) && finalized(t, before, after, r)
}

/// What handing in a signed proposal does to the buffer and returns.
pub open spec fn finalized_beforehand<C: ReceiverEngine>(
    session: C::ProvisionalProposal,
    signed_psbt: &String,
    before: Buffer<C>,
    after: Buffer<C>,
    r: Result<ProvisionalPayjoinProposal<C>, ReceiverApiError<C>>,
) -> bool {
    exists|t: Signature<C>| #[trigger]
        call_ensures(
            C::finalize_proposal::<AlreadySigned>,
            (&session, &AlreadySigned(signed_psbt)),
            t,
        ) && finalized(t, before, after, r)
}

/// A proposal is finalized by an event of its own, which is queued last, and
/// cannot be had before that event is durable: it is refused as long as the
/// event is queued, and is handed out once the buffer has been drained.
pub proof fn law_finalized_proposal_waits_for_its_event<C: ReceiverEngine>(
    t: Signature<C>,
    before: Buffer<C>,
    after: Buffer<C>,
    provisional: ProvisionalPayjoinProposal<C>,
    n: nat,
    early: StagedView<C::PayjoinProposal>,
    early_r: Result<C::PayjoinProposal, ProvisionalConfirmError>,
    late: StagedView<C::PayjoinProposal>,
    late_r: Result<C::PayjoinProposal, ProvisionalConfirmError>,
)
    requires
        finalized(t, before, after, Ok(provisional)),
        n < after.log.pending.len(),
        handed_out(provisional@, after.commit(n), early, early_r),
        handed_out(early, after.commit(after.log.pending.len()), late, late_r),
    ensures
        t matches Transition::Success(event, proposal) && {
            &&& after == before.push(event)
            &&& early_r == Err::<C::PayjoinProposal, ProvisionalConfirmError>(
                ProvisionalConfirmError::NotYetPersisted,
            )
            &&& late_r == Ok::<C::PayjoinProposal, ProvisionalConfirmError>(proposal)
        },
{
}

impl<C: ReceiverEngine> ProvisionalProposal<C> {
    /// Cancels the session: pushes the event that closes it into `buf` and
    /// returns the original transaction in consensus encoding, if it arrived.
    ///
    /// This is a terminal action. The caller is expected to drain `buf`.
    pub fn cancel(&self, buf: &mut ReceiverEventBuffer<C>) -> (r: Option<Vec<u8>>)
        requires
            old(buf)@.log.pushed() < u64::MAX,
        ensures
            final(buf)@ == old(buf)@.push(ReceiverEvent::<C>::Closed(SessionOutcome::Cancel)),
            call_ensures(C::fallback_provisional, (&self.0,), r),
    {
        buf.push_cancel();
        C::fallback_provisional(&self.0)
    }

    /// Has the application sign the proposal, and finalizes it. The proposal
    /// cannot be posted to the directory until its event is durable and the
    /// provisional is confirmed.
    pub fn finalize_proposal<B: ProcessPsbt>(
        &self,
        process_psbt: &B,
        buf: &mut ReceiverEventBuffer<C>,
    ) -> (r: Result<ProvisionalPayjoinProposal<C>, ReceiverApiError<C>>)
        requires
            old(buf)@.log.pushed() < u64::MAX,
        ensures
            move_recorded(old(buf)@, final(buf)@, r),
            finalized_on_request(self.0, process_psbt, old(buf)@, final(buf)@, r),
    {
        let t = C::finalize_proposal(&self.0, &ForeignSigner(process_psbt));
        Self::finalized(t, buf)
    }

    /// The proposal in base64, to be signed by the caller.
    pub fn psbt_to_sign(&self) -> (r: String)
        ensures
            exists|psbt: Psbt| #[trigger]
                call_ensures(C::psbt_to_sign, (&self.0,), psbt) && psbt_written(psbt@, r@),
    {
        C::psbt_to_sign(&self.0).to_base64()
    }

    /// Finalizes the proposal that the caller has signed.
    pub fn finalize_signed_proposal(
        &self,
        signed_psbt: String,
        buf: &mut ReceiverEventBuffer<C>,
    ) -> (r: Result<ProvisionalPayjoinProposal<C>, ReceiverApiError<C>>)
        requires
            old(buf)@.log.pushed() < u64::MAX,
        ensures
            move_recorded(old(buf)@, final(buf)@, r),
            finalized_beforehand(self.0, &signed_psbt, old(buf)@, final(buf)@, r),
    {
        let t = C::finalize_proposal(&self.0, &AlreadySigned(&signed_psbt));
        Self::finalized(t, buf)
    }

    /// Records what came of the signature and stages the proposal.
    fn finalized(t: Signature<C>, buf: &mut ReceiverEventBuffer<C>) -> (r: Result<
        ProvisionalPayjoinProposal<C>,
        ReceiverApiError<C>,
    >)
        requires
            old(buf)@.log.pushed() < u64::MAX,
        ensures
            move_recorded(old(buf)@, final(buf)@, r),
            finalized(t, old(buf)@, final(buf)@, r),
    {
        let (action, outcome) = t.deconstruct(closing_failure::<C>());
        buf.record(action);
        match outcome {
            Ok(proposal) => Ok(ProvisionalPayjoinProposal::staged(buf.hold(proposal))),
            Err(e) => Err(ReceiverApiError::from_api_error(e)),
        }
    }
}

/// The proposal is ready to be posted.
pub struct PayjoinProposal<C: ReceiverStates>(pub C::PayjoinProposal);

impl<C: ReceiverEngine> PayjoinProposal<C> {
    /// Cancels the session: pushes the event that closes it into `buf` and
    /// returns the original transaction in consensus encoding, if it arrived.
    ///
    /// This is a terminal action. The caller is expected to drain `buf`.
    pub fn cancel(&self, buf: &mut ReceiverEventBuffer<C>) -> (r: Option<Vec<u8>>)
        requires
            old(buf)@.log.pushed() < u64::MAX,
        ensures
            final(buf)@ == old(buf)@.push(ReceiverEvent::<C>::Closed(SessionOutcome::Cancel)),
            call_ensures(C::fallback_proposal, (&self.0,), r),
    {
        buf.push_cancel();
        C::fallback_proposal(&self.0)
    }

    /// The receiver's coins that the proposal spends.
    pub fn utxos_to_be_locked(&self) -> (r: Vec<OutPoint>)
        ensures
            exists|coins: Vec<CoreOutPoint>| #[trigger]
                call_ensures(C::utxos_to_be_locked, (&self.0,), coins) && coins@.len() == r@.len()
                    && forall|i: int|
                    0 <= i < r@.len() ==> outpoint_written(coins@[i], #[trigger] r@[i]),
    {
        let write = |coin: CoreOutPoint| -> (w: OutPoint)
            ensures
                outpoint_written(coin, w),
            {
                OutPoint::from_core(coin)
            };
        map_all(C::utxos_to_be_locked(&self.0), write)
    }

    /// The proposal in base64.
    pub fn psbt(&self) -> (r: String)
        ensures
            exists|psbt: Psbt| #[trigger]
                call_ensures(C::proposal_psbt, (&self.0,), psbt) && psbt_written(psbt@, r@),
    {
        C::proposal_psbt(&self.0).to_base64()
    }

    /// Makes the request that posts the proposal to the directory.
    pub fn create_post_request(&self, ohttp_relay: String) -> (r: Result<
        RequestResponse<C>,
        ReceiverError,
    >)
        ensures
            exists|request: Result<(Request, C::Context), ReceiveFailure>| #[trigger]
                call_ensures(C::create_post_request, (&self.0, &ohttp_relay), request) && r == (
                match request {
                    Ok(pair) => Ok::<RequestResponse<C>, ReceiverError>(paired(pair)),
                    Err(e) => Err(<ReceiverError as FromSpec<ReceiveFailure>>::from_spec(e)),
                }),
    {
        match C::create_post_request(&self.0, &ohttp_relay) {
            Ok((request, client_response)) => Ok(RequestResponse { request, client_response }),
            Err(e) => Err(ReceiverError::from(e)),
        }
    }

    /// Reads the directory's response to the proposal.
    pub fn process_response(
        &self,
        body: &[u8],
        ctx: &C::Context,
        buf: &mut ReceiverEventBuffer<C>,
    ) -> (r: Result<Monitor<C>, ReceiverApiError<C>>)
        requires
            old(buf)@.log.pushed() < u64::MAX,
        ensures
            move_recorded(old(buf)@, final(buf)@, r),
            exists|t: ReceiverReply<C, C::Monitor, ProtocolError>| #[trigger]
                call_ensures(C::process_post_response, (&self.0, body, ctx), t) && final(buf)@
                    == old(buf)@.record(t.action(failure_event::<C>())) && match t.outcome() {
                    Ok(next) => r == Ok::<Monitor<C>, ReceiverApiError<C>>(Monitor(next)),
                    Err(e) => refused(e, r),
                },
    {
        let t = C::process_post_response(&self.0, body, ctx);
        let (action, outcome) = t.deconstruct(closing_failure::<C>());
        buf.record(action);
        match outcome {
            Ok(next) => Ok(Monitor(next)),
            Err(e) => Err(ReceiverApiError::from_api_error(e)),
        }
    }
}

impl<C: ReceiverEngine> HasReplyableError<C> {
    /// Cancels the session: pushes the event that closes it into `buf` and
    /// returns the original transaction in consensus encoding, if it arrived.
    ///
    /// This is a terminal action. The caller is expected to drain `buf`.
    pub fn cancel(&self, buf: &mut ReceiverEventBuffer<C>) -> (r: Option<Vec<u8>>)
        requires
            old(buf)@.log.pushed() < u64::MAX,
        ensures
            final(buf)@ == old(buf)@.push(ReceiverEvent::<C>::Closed(SessionOutcome::Cancel)),
            call_ensures(C::fallback_replyable, (&self.0,), r),
    {
        buf.push_cancel();
        C::fallback_replyable(&self.0)
    }

    /// Makes the request that replies the error to the sender.
    pub fn create_error_request(&self, ohttp_relay: String) -> (r: Result<
        RequestResponse<C>,
        SessionError,
    >)
        ensures
            exists|request: Result<(Request, C::Context), SessionError>| #[trigger]
                call_ensures(C::create_error_request, (&self.0, &ohttp_relay), request) && r == (
                match request {
                    Ok(pair) => Ok::<RequestResponse<C>, SessionError>(paired(pair)),
                    Err(e) => Err(e),
                }),
    {
        match C::create_error_request(&self.0, &ohttp_relay) {
            Ok((request, client_response)) => Ok(RequestResponse { request, client_response }),
            Err(e) => Err(e),
        }
    }

    /// Reads the directory's response to the replied error.
    pub fn process_error_response(
        &self,
        body: &[u8],
        ctx: &C::Context,
        buf: &mut ReceiverEventBuffer<C>,
    ) -> (r: Result<(), ReceiverApiError<C>>)
        requires
            old(buf)@.log.pushed() < u64::MAX,
        ensures
            move_recorded(old(buf)@, final(buf)@, r),
            exists|t: ReceiverReply<C, (), ProtocolError>| #[trigger]
                call_ensures(C::process_error_response, (&self.0, body, ctx), t) && final(buf)@
                    == old(buf)@.record(t.action(failure_event::<C>())) && match t.outcome() {
                    Ok(next) => r == Ok::<(), ReceiverApiError<C>>(next),
                    Err(e) => refused(e, r),
                },
    {
        let t = C::process_error_response(&self.0, body, ctx);
        let (action, outcome) = t.deconstruct(closing_failure::<C>());
        buf.record(action);
        match outcome {
            Ok(next) => Ok(next),
            Err(e) => Err(ReceiverApiError::from_api_error(e)),
        }
    }
}

/// The proposal was posted; the payment is awaited.
pub struct Monitor<C: ReceiverStates>(pub C::Monitor);

/// What came of watching for the payment.
pub enum MonitorTransitionOutcome<C: ReceiverStates> {
    /// The session has concluded.
    Progress,
    /// No transaction observed yet; resume from the current state.
    Stasis { inner: Monitor<C> },
}

impl<C: ReceiverStates> From<
    OptionalTransitionOutcome<(), C::Monitor>,
> for MonitorTransitionOutcome<C> {
    fn from(value: OptionalTransitionOutcome<(), C::Monitor>) -> (r: Self) {
        match value {
            OptionalTransitionOutcome::Progress(()) => MonitorTransitionOutcome::Progress,
            OptionalTransitionOutcome::Stasis(s) => MonitorTransitionOutcome::Stasis {
                inner: Monitor(s),
            },
        }
    }
}

impl<C: ReceiverStates> FromSpecImpl<
    OptionalTransitionOutcome<(), C::Monitor>,
> for MonitorTransitionOutcome<C> {
    open spec fn obeys_from_spec() -> bool {
        true
    }

    open spec fn from_spec(value: OptionalTransitionOutcome<(), C::Monitor>) -> Self {
        match value {
            OptionalTransitionOutcome::Progress(_) => MonitorTransitionOutcome::Progress,
            OptionalTransitionOutcome::Stasis(s) => MonitorTransitionOutcome::Stasis {
                inner: Monitor(s),
            },
        }
    }
}

/// What watching for the payment has recorded: its conclusion by one event.
pub open spec fn payment_recorded<C: ReceiverStates>(
    before: Buffer<C>,
    after: Buffer<C>,
    r: Result<MonitorTransitionOutcome<C>, ReceiverApiError<C>>,
) -> bool {
    match r {
        Ok(MonitorTransitionOutcome::Progress) => one_event(before, after),
        Ok(MonitorTransitionOutcome::Stasis { .. }) => after == before,
        Err(e) => failure_recorded(before, after, e),
    }
}

/// What watching for the payment does to the buffer and returns.
pub open spec fn monitored<C: ReceiverEngine>(
    t: PaymentReply<C>,
    before: Buffer<C>,
    after: Buffer<C>,
    r: Result<MonitorTransitionOutcome<C>, ReceiverApiError<C>>,
) -> bool {
    &&& after == before.record(t.action(failure_event::<C>()))
    &&& match t.outcome() {
        Ok(outcome) => r == Ok::<MonitorTransitionOutcome<C>, ReceiverApiError<C>>(
            <MonitorTransitionOutcome<C> as FromSpec<
                OptionalTransitionOutcome<(), C::Monitor>,
            >>::from_spec(outcome),
        ),
        Err(e) => refused(e, r),
    }
}

/// What a payjoin transaction that was seen, once it has been decoded, leads to.
pub open spec fn payjoin_tx_taken<C: ReceiverEngine>(
    session: C::Monitor,
    tx: Result<Vec<u8>, ForeignError>,
    before: Buffer<C>,
    after: Buffer<C>,
    r: Result<MonitorTransitionOutcome<C>, ReceiverApiError<C>>,
) -> bool {
    match tx {
        Err(e) => after == before && (r matches Err(err) && err@ == (ReceiverApiErrorView::<
            C,
        >::InputDeserialization { msg: crate::text::Message::text(&e) })),
        Ok(tx) => exists|t: PaymentReply<C>| #[trigger]
            call_ensures(C::payjoin_tx_exists, (&session, tx), t) && monitored(t, before, after, r),
    }
}

impl<C: ReceiverEngine> Monitor<C> {
    /// Cancels the session: pushes the event that closes it into `buf` and
    /// returns the original transaction in consensus encoding, if it arrived.
    ///
    /// This is a terminal action. The caller is expected to drain `buf`.
    pub fn cancel(&self, buf: &mut ReceiverEventBuffer<C>) -> (r: Option<Vec<u8>>)
        requires
            old(buf)@.log.pushed() < u64::MAX,
        ensures
            final(buf)@ == old(buf)@.push(ReceiverEvent::<C>::Closed(SessionOutcome::Cancel)),
            call_ensures(C::fallback_monitor, (&self.0,), r),
    {
        buf.push_cancel();
        C::fallback_monitor(&self.0)
    }

    /// Has the application look whether the payment was made.
    pub fn check_payment<B: TransactionExists>(
        &self,
        transaction_exists: &B,
        buf: &mut ReceiverEventBuffer<C>,
    ) -> (r: Result<MonitorTransitionOutcome<C>, ReceiverApiError<C>>)
        requires
            old(buf)@.log.pushed() < u64::MAX,
        ensures
            payment_recorded(old(buf)@, final(buf)@, r),
            exists|t: PaymentReply<C>| #[trigger]
                call_ensures(
                    C::check_payment::<ForeignLookup<B>>,
                    (&self.0, &ForeignLookup(transaction_exists)),
                    t,
                ) && monitored(t, old(buf)@, final(buf)@, r),
    {
        Self::monitored(C::check_payment(&self.0, &ForeignLookup(transaction_exists)), buf)
    }

    /// Id of the original transaction.
    pub fn extract_fallback_txid(&self) -> (r: String)
        ensures
            exists|txid: Txid| #[trigger]
                call_ensures(C::extract_fallback_txid, (&self.0,), txid) && r@ == txid.chars(),
    {
        C::extract_fallback_txid(&self.0).text()
    }

    /// Id of the proposed transaction.
    pub fn extract_payjoin_proposal_txid(&self) -> (r: String)
        ensures
            exists|txid: Txid| #[trigger]
                call_ensures(C::extract_payjoin_proposal_txid, (&self.0,), txid) && r@
                    == txid.chars(),
    {
        C::extract_payjoin_proposal_txid(&self.0).text()
    }

    /// Concludes the session if the payment cannot be watched for.
    pub fn check_fallback_monitorable(&self, buf: &mut ReceiverEventBuffer<C>) -> (r: Result<
        MonitorTransitionOutcome<C>,
        ReceiverApiError<C>,
    >)
        requires
            old(buf)@.log.pushed() < u64::MAX,
        ensures
            payment_recorded(old(buf)@, final(buf)@, r),
            exists|t: PaymentReply<C>| #[trigger]
                call_ensures(C::check_fallback_monitorable, (&self.0,), t) && monitored(
                    t,
                    old(buf)@,
                    final(buf)@,
                    r,
                ),
    {
        Self::monitored(C::check_fallback_monitorable(&self.0), buf)
    }

    /// Concludes the session: the original transaction was seen.
    pub fn fallback_tx_exists(&self, buf: &mut ReceiverEventBuffer<C>) -> (r: Result<
        MonitorTransitionOutcome<C>,
        ReceiverApiError<C>,
    >)
        requires
            old(buf)@.log.pushed() < u64::MAX,
        ensures
            payment_recorded(old(buf)@, final(buf)@, r),
            exists|t: PaymentReply<C>| #[trigger]
                call_ensures(C::fallback_tx_exists, (&self.0,), t) && monitored(
                    t,
                    old(buf)@,
                    final(buf)@,
                    r,
                ),
    {
        Self::monitored(C::fallback_tx_exists(&self.0), buf)
    }

    /// Concludes the session: the payjoin transaction was seen.
    pub fn payjoin_tx_exists(
        &self,
        payjoin_tx: Vec<u8>,
        buf: &mut ReceiverEventBuffer<C>,
    ) -> (r: Result<MonitorTransitionOutcome<C>, ReceiverApiError<C>>)
        requires
            old(buf)@.log.pushed() < u64::MAX,
        ensures
            payment_recorded(old(buf)@, final(buf)@, r),
            exists|tx: Result<Vec<u8>, ForeignError>| #[trigger]
                tx_decoded(payjoin_tx@, tx) && payjoin_tx_taken::<C>(
                    self.0,
                    tx,
                    old(buf)@,
                    final(buf)@,
                    r,
                ),
    {
        self.decoded_payjoin_tx_exists(try_deserialize_tx(payjoin_tx), buf)
    }

    /// Concludes the session: a transaction was seen and decoded.
    pub fn decoded_payjoin_tx_exists(
        &self,
        tx: Result<Vec<u8>, ForeignError>,
        buf: &mut ReceiverEventBuffer<C>,
    ) -> (r: Result<MonitorTransitionOutcome<C>, ReceiverApiError<C>>)
        requires
            old(buf)@.log.pushed() < u64::MAX,
        ensures
            payment_recorded(old(buf)@, final(buf)@, r),
            payjoin_tx_taken::<C>(self.0, tx, old(buf)@, final(buf)@, r),
    {
        match tx {
            Ok(tx) => Self::monitored(C::payjoin_tx_exists(&self.0, tx), buf),
            Err(e) => Err(ReceiverApiError::from_foreign_error(e)),
        }
    }

    /// Records what came of watching for the payment.
    fn monitored(
        t: PaymentReply<C>,
        buf: &mut ReceiverEventBuffer<C>,
    ) -> (r: Result<MonitorTransitionOutcome<C>, ReceiverApiError<C>>)
        requires
            old(buf)@.log.pushed() < u64::MAX,
        ensures
            payment_recorded(old(buf)@, final(buf)@, r),
            monitored(t, old(buf)@, final(buf)@, r),
    {
        let (action, outcome) = t.deconstruct(closing_failure::<C>());
        buf.record(action);
        match outcome {
            Ok(outcome) => Ok(MonitorTransitionOutcome::from(outcome)),
            Err(e) => Err(ReceiverApiError::from_api_error(e)),
        }
    }
}

} // verus!
