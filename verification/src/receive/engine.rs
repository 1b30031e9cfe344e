//! What the receiver's sessions ask of the payjoin protocol.
use crate::chain::{CoreOutPoint, CoreTxOut, Psbt, Txid};
use crate::error::ImplementationError;
use crate::persist::{Advance, CheckTransition, OptionalTransition, Transition};
use crate::receive::error::{
    InputContributionError, OutputSubstitutionProtocolError, ProtocolError, PsbtInputError,
    ReceiveFailure, SelectionError, SessionError,
};
use crate::session::{IntoUrlError, OhttpKeys, PjUri, ReplayError, Request, SessionEvent};
use crate::validation::InputRules;
use vstd::prelude::*;
use vstd::string::*;

verus! {

/// How a receiver session can end.
#[derive(Debug)]
pub enum SessionOutcome<S> {
    /// The payment was made. `S` says how.
    Success(S),
    /// The session failed.
    Failure,
    /// The session was cancelled.
    Cancel,
    /// The session ended in another way, given in its rendering for diagnostics.
    Other(String),
}

impl<S> SessionOutcome<S> {
    /// The rendering for diagnostics of an outcome other than success.
    pub open spec fn name(self) -> Seq<char> {
        match self {
            SessionOutcome::Success(_) => "Success"@,
            SessionOutcome::Failure => "Failure"@,
            SessionOutcome::Cancel => "Cancel"@,
            SessionOutcome::Other(text) => text@,
        }
    }

    /// The name of the outcome.
    pub fn name_text(&self) -> (r: String)
        ensures
            r@ == self.name(),
    {
        match self {
            SessionOutcome::Success(_) => "Success".to_owned(),
            SessionOutcome::Failure => "Failure".to_owned(),
            SessionOutcome::Cancel => "Cancel".to_owned(),
            SessionOutcome::Other(text) => text.clone(),
        }
    }
}

/// The values of the protocol that a receiver session carries without looking inside.
pub trait ReceiverStates: Sized {
    /// What an event needs to replay an advance.
    type Payload;

    /// How a successful session was paid.
    type Proceeds;

    /// The session was created; no payload arrived yet.
    type Initialized;

    /// The sender's original payload arrived.
    type UncheckedOriginalPayload;

    /// The original transaction can be broadcast.
    type MaybeInputsOwned;

    /// The sender spends none of the receiver's coins.
    type MaybeInputsSeen;

    /// The receiver sees the sender's coins for the first time.
    type OutputsUnknown;

    /// The outputs that pay the receiver are known.
    type WantsOutputs;

    /// The outputs are settled.
    type WantsInputs;

    /// The inputs are settled.
    type WantsFeeRange;

    /// The fees are settled; the proposal has to be signed.
    type ProvisionalProposal;

    /// The proposal is ready to be posted.
    type PayjoinProposal;

    /// An error can be replied to the sender.
    type HasReplyableError;

    /// The proposal was posted; the payment is awaited.
    type Monitor;

    /// What decrypts the response to a request.
    type Context;

    /// An input to contribute.
    type InputPair;

    /// Whether outputs may be substituted.
    type OutputSubstitution;

    /// What a replayed log says of its session.
    type History;

    /// A summary of where a session stands.
    type Status;

    /// An error in the format that is replied to the sender.
    type JsonReply;
}

/// How a receiver session of `C` can end.
pub type Outcome<C> = SessionOutcome<<C as ReceiverStates>::Proceeds>;

/// An event of a receiver session.
pub type ReceiverEvent<C> = SessionEvent<<C as ReceiverStates>::Payload, Outcome<C>>;

/// The event by which a receiver session is closed as a failure.
pub open spec fn failure_event<C: ReceiverStates>() -> ReceiverEvent<C> {
    SessionEvent::Closed(SessionOutcome::Failure)
}

/// Makes the event by which a receiver session is closed as a failure.
pub(crate) fn closing_failure<C: ReceiverStates>() -> (r: ReceiverEvent<C>)
    ensures
        r == failure_event::<C>(),
{
    SessionEvent::Closed(SessionOutcome::Failure)
}

/// A transition of a receiver session.
pub type ReceiverReply<C, T, X> = Transition<ReceiverEvent<C>, T, X>;

/// A check that, when it fails, may leave an error to be replied.
pub type CheckReply<C, T> = CheckTransition<
    ReceiverEvent<C>,
    T,
    ReceiveFailure,
    <C as ReceiverStates>::HasReplyableError,
>;

/// What came of a poll for the original payload.
pub type PollReply<C> = OptionalTransition<
    ReceiverEvent<C>,
    <C as ReceiverStates>::UncheckedOriginalPayload,
    <C as ReceiverStates>::Initialized,
    ProtocolError,
>;

/// What came of watching for the payment.
pub type PaymentReply<C> = OptionalTransition<
    ReceiverEvent<C>,
    (),
    <C as ReceiverStates>::Monitor,
    ImplementationError,
>;

/// What the protocol replays a receiver's log into.
pub enum CoreReceiveSession<C: ReceiverStates> {
    /// The session was created.
    Initialized(C::Initialized),
    /// The sender's original payload arrived.
    UncheckedOriginalPayload(C::UncheckedOriginalPayload),
    /// The original transaction can be broadcast.
    MaybeInputsOwned(C::MaybeInputsOwned),
    /// The sender spends none of the receiver's coins.
    MaybeInputsSeen(C::MaybeInputsSeen),
    /// The receiver sees the sender's coins for the first time.
    OutputsUnknown(C::OutputsUnknown),
    /// The outputs that pay the receiver are known.
    WantsOutputs(C::WantsOutputs),
    /// The outputs are settled.
    WantsInputs(C::WantsInputs),
    /// The inputs are settled.
    WantsFeeRange(C::WantsFeeRange),
    /// The proposal has to be signed.
    ProvisionalProposal(C::ProvisionalProposal),
    /// The proposal is ready to be posted.
    PayjoinProposal(C::PayjoinProposal),
    /// An error can be replied to the sender.
    HasReplyableError(C::HasReplyableError),
    /// The payment is awaited.
    Monitor(C::Monitor),
    /// The session ended.
    Closed(Outcome<C>),
}

/// What a receiver session can tell of itself.
#[derive(Debug)]
pub struct ReceiverTerms {
    /// The Bitcoin address to be paid to.
    pub address: String,
    /// The URL of the payjoin directory.
    pub directory: String,
    /// When the session expires, in seconds since the Unix epoch.
    pub expiration_unix_secs: u64,
    /// Amount in satoshis, if one is asked for.
    pub amount_sats: Option<u64>,
}

/// What a receiver is built from.
#[derive(Debug)]
pub struct ReceiverParams {
    /// The Bitcoin address to be paid to.
    pub address: String,
    /// The URL of the payjoin directory.
    pub directory: String,
    /// The OHTTP keys of the directory.
    pub ohttp_keys: OhttpKeys,
    /// Amount in satoshis, if one is asked for.
    pub amount_sat: Option<u64>,
    /// Seconds until the session expires, if not the default.
    pub expiration_secs: Option<u64>,
    /// Highest effective fee rate, in sat/kwu, that the receiver pays for what
    /// it contributes.
    pub max_fee_rate: Option<u64>,
}

impl Clone for ReceiverParams {
    fn clone(&self) -> (r: Self)
        ensures
            r == *self,
    {
        ReceiverParams {
            address: self.address.clone(),
            directory: self.directory.clone(),
            ohttp_keys: self.ohttp_keys.clone(),
            amount_sat: self.amount_sat,
            expiration_secs: self.expiration_secs,
            max_fee_rate: self.max_fee_rate,
        }
    }
}

/// An item of the original transaction that the receiver has to say something of.
#[derive(Debug)]
pub struct Reference<T> {
    /// The item.
    pub value: T,
    /// Its place in the transaction.
    pub index: usize,
}

/// An item of the original transaction, with what the receiver said of it.
#[derive(Debug)]
pub struct TaggedReference<T> {
    /// The item.
    pub value: T,
    /// Its place in the transaction.
    pub index: usize,
    /// What the receiver said.
    pub result: bool,
}

/// An input of a transaction.
#[derive(Debug)]
pub struct CoreTxIn {
    /// The coin that is spent.
    pub previous_output: CoreOutPoint,
    /// The script that unlocks it.
    pub script_sig: Vec<u8>,
    /// The sequence number.
    pub sequence: u32,
    /// The witness that unlocks it.
    pub witness: Vec<Vec<u8>>,
}

/// The fields of a PSBT input that a contribution needs. All others are empty.
#[derive(Debug)]
pub struct CorePsbtInput {
    /// The output that is spent.
    pub witness_utxo: Option<CoreTxOut>,
    /// The redeem script.
    pub redeem_script: Option<Vec<u8>>,
    /// The witness script.
    pub witness_script: Option<Vec<u8>>,
}

/// Answers whether a transaction, in consensus encoding, can be broadcast.
pub trait CheckTransaction {
    /// The answer.
    fn check(&self, tx: &Vec<u8>) -> Result<bool, ImplementationError>;
}

/// Answers a question about a script.
pub trait CheckScript {
    /// The answer.
    fn check(&self, script: &Vec<u8>) -> Result<bool, ImplementationError>;
}

/// Answers a question about a coin.
pub trait CheckOutPoint {
    /// The answer.
    fn check(&self, outpoint: &CoreOutPoint) -> Result<bool, ImplementationError>;
}

/// Signs a proposal.
pub trait SignPsbt {
    /// The signed proposal.
    fn sign(&self, psbt: &Psbt) -> Result<Psbt, ImplementationError>;
}

/// Looks up a transaction, in consensus encoding.
pub trait FindTransaction {
    /// The transaction, if there is one.
    fn find(&self, txid: Txid) -> Result<Option<Vec<u8>>, ImplementationError>;
}

/// The receiver's side of the payjoin protocol. Nothing is taken for granted
/// of its answers.
pub trait ReceiverEngine: ReceiverStates + InputRules {
    /// Is this the URL of a directory?
    fn check_directory(directory: &String) -> Result<(), IntoUrlError>;

    /// Creates a session.
    fn create(params: &ReceiverParams) -> Advance<Self::Payload, Self::Initialized>;

    /// Replays a session log.
    fn replay_event_log(events: Vec<ReceiverEvent<Self>>) -> Result<
        (CoreReceiveSession<Self>, Self::History),
        ReplayError,
    >;

    /// Reads an event from JSON.
    fn event_from_json(json: &String) -> Result<ReceiverEvent<Self>, String>;

    /// Writes an event as JSON.
    fn event_to_json(event: &ReceiverEvent<Self>) -> Result<String, String>;

    /// The rendering of a replayed session for diagnostics.
    fn debug_session(session: &CoreReceiveSession<Self>) -> String;

    /// The payjoin URI of a replayed session.
    fn history_pj_uri(history: &Self::History) -> PjUri;

    /// The original transaction of a replayed session, if it arrived.
    fn history_fallback_tx(history: &Self::History) -> Option<Vec<u8>>;

    /// Where a replayed session stands.
    fn history_status(history: &Self::History) -> Self::Status;

    /// The format in which an error is replied.
    fn json_reply(error: &ProtocolError) -> Self::JsonReply;

    /// The original transaction, before it arrived.
    fn fallback_initialized(session: &Self::Initialized) -> Option<Vec<u8>>;

    /// The original transaction, before it is checked.
    fn fallback_unchecked(session: &Self::UncheckedOriginalPayload) -> Option<Vec<u8>>;

    /// The original transaction, once it can be broadcast.
    fn fallback_inputs_owned(session: &Self::MaybeInputsOwned) -> Option<Vec<u8>>;

    /// The original transaction, once its inputs are not the receiver's.
    fn fallback_inputs_seen(session: &Self::MaybeInputsSeen) -> Option<Vec<u8>>;

    /// The original transaction, once its coins are new.
    fn fallback_outputs_unknown(session: &Self::OutputsUnknown) -> Option<Vec<u8>>;

    /// The original transaction, once it pays the receiver.
    fn fallback_wants_outputs(session: &Self::WantsOutputs) -> Option<Vec<u8>>;

    /// The original transaction, once the outputs are settled.
    fn fallback_wants_inputs(session: &Self::WantsInputs) -> Option<Vec<u8>>;

    /// The original transaction, once the inputs are settled.
    fn fallback_wants_fee_range(session: &Self::WantsFeeRange) -> Option<Vec<u8>>;

    /// The original transaction, once the fees are settled.
    fn fallback_provisional(session: &Self::ProvisionalProposal) -> Option<Vec<u8>>;

    /// The original transaction, once the proposal is signed.
    fn fallback_proposal(session: &Self::PayjoinProposal) -> Option<Vec<u8>>;

    /// The original transaction, once an error can be replied.
    fn fallback_replyable(session: &Self::HasReplyableError) -> Option<Vec<u8>>;

    /// The original transaction, once the proposal is posted.
    fn fallback_monitor(session: &Self::Monitor) -> Option<Vec<u8>>;

    /// The terms of a session.
    fn terms(session: &Self::Initialized) -> ReceiverTerms;

    /// The payjoin URI to share with the sender.
    fn pj_uri(session: &Self::Initialized) -> PjUri;

    /// Makes the request that polls for the original payload.
    fn create_poll_request(session: &Self::Initialized, ohttp_relay: &String) -> Result<
        (Request, Self::Context),
        ReceiveFailure,
    >;

    /// Reads the directory's response to a poll.
    fn process_poll_response(
        session: &Self::Initialized,
        body: &[u8],
        ctx: &Self::Context,
    ) -> PollReply<Self>;

    /// Goes on if the original transaction can be broadcast.
    fn check_broadcast_suitability<F: CheckTransaction>(
        session: &Self::UncheckedOriginalPayload,
        min_fee_rate: Option<u64>,
        can_broadcast: &F,
    ) -> CheckReply<Self, Self::MaybeInputsOwned>;

    /// The original transaction, to be checked.
    fn extract_tx_to_check_broadcast_suitability(session: &Self::UncheckedOriginalPayload) -> Vec<
        u8,
    >;

    /// Goes on by the answer on the original transaction.
    fn apply_broadcast_suitability(
        session: &Self::UncheckedOriginalPayload,
        min_fee_rate: Option<u64>,
        can_broadcast: bool,
    ) -> CheckReply<Self, Self::MaybeInputsOwned>;

    /// Goes on without a check of the original transaction.
    fn assume_interactive_receiver(session: &Self::UncheckedOriginalPayload) -> Advance<
        Self::Payload,
        Self::MaybeInputsOwned,
    >;

    /// The original transaction, to be broadcast if the payjoin fails.
    fn extract_tx_to_schedule_broadcast(session: &Self::MaybeInputsOwned) -> Vec<u8>;

    /// Goes on if the sender spends none of the receiver's coins.
    fn check_inputs_not_owned<F: CheckScript>(session: &Self::MaybeInputsOwned, is_owned: &F) ->
        CheckReply<Self, Self::MaybeInputsSeen>;

    /// The scripts of the sender's coins.
    fn get_input_script_refs(session: &Self::MaybeInputsOwned) -> Result<
        Vec<Reference<Vec<u8>>>,
        ReceiveFailure,
    >;

    /// Goes on by the answers on the scripts of the sender's coins.
    fn apply_input_owned_checks(
        session: &Self::MaybeInputsOwned,
        checked: Vec<TaggedReference<Vec<u8>>>,
    ) -> CheckReply<Self, Self::MaybeInputsSeen>;

    /// Goes on if the receiver sees the sender's coins for the first time.
    fn check_no_inputs_seen_before<F: CheckOutPoint>(
        session: &Self::MaybeInputsSeen,
        is_known: &F,
    ) -> CheckReply<Self, Self::OutputsUnknown>;

    /// The sender's coins.
    fn get_input_outpoint_refs(session: &Self::MaybeInputsSeen) -> Vec<Reference<CoreOutPoint>>;

    /// Goes on by the answers on the sender's coins.
    fn apply_input_seen_checks(
        session: &Self::MaybeInputsSeen,
        checked: Vec<TaggedReference<CoreOutPoint>>,
    ) -> CheckReply<Self, Self::OutputsUnknown>;

    /// Goes on if an output pays the receiver.
    fn identify_receiver_outputs<F: CheckScript>(
        session: &Self::OutputsUnknown,
        is_receiver_output: &F,
    ) -> CheckReply<Self, Self::WantsOutputs>;

    /// The scripts of the outputs.
    fn get_output_script_refs(session: &Self::OutputsUnknown) -> Vec<Reference<Vec<u8>>>;

    /// Goes on by the answers on the scripts of the outputs.
    fn apply_output_owned_checks(
        session: &Self::OutputsUnknown,
        checked: Vec<TaggedReference<Vec<u8>>>,
    ) -> CheckReply<Self, Self::WantsOutputs>;

    /// Whether outputs may be substituted.
    fn output_substitution(session: &Self::WantsOutputs) -> Self::OutputSubstitution;

    /// Replaces the outputs that pay the receiver.
    fn replace_receiver_outputs(
        session: &Self::WantsOutputs,
        replacement: Vec<CoreTxOut>,
        drain_script: &Vec<u8>,
    ) -> Result<Self::WantsOutputs, OutputSubstitutionProtocolError>;

    /// Replaces the script of the output that pays the receiver.
    fn substitute_receiver_script(session: &Self::WantsOutputs, output_script: &Vec<u8>) -> Result<
        Self::WantsOutputs,
        OutputSubstitutionProtocolError,
    >;

    /// Settles the outputs.
    fn commit_outputs(session: &Self::WantsOutputs) -> Advance<Self::Payload, Self::WantsInputs>;

    /// Selects an input such that the payjoin avoids surveillance.
    fn try_preserving_privacy(session: &Self::WantsInputs, candidates: Vec<Self::InputPair>) ->
        Result<Self::InputPair, SelectionError>;

    /// Adds inputs.
    fn contribute_inputs(session: &Self::WantsInputs, inputs: Vec<Self::InputPair>) -> Result<
        Self::WantsInputs,
        InputContributionError,
    >;

    /// Settles the inputs.
    fn commit_inputs(session: &Self::WantsInputs) -> Advance<Self::Payload, Self::WantsFeeRange>;

    /// Makes an input that can be contributed.
    fn new_input_pair(
        txin: CoreTxIn,
        psbtin: CorePsbtInput,
        expected_weight: Option<u64>,
    ) -> Result<Self::InputPair, PsbtInputError>;

    /// Settles the fees within a range, in sat/kwu.
    fn apply_fee_range(
        session: &Self::WantsFeeRange,
        min_fee_rate: Option<u64>,
        max_effective_fee_rate: Option<u64>,
    ) -> ReceiverReply<Self, Self::ProvisionalProposal, ProtocolError>;

    /// Has the proposal signed.
    fn finalize_proposal<F: SignPsbt>(session: &Self::ProvisionalProposal, wallet: &F) ->
        ReceiverReply<Self, Self::PayjoinProposal, ImplementationError>;

    /// The proposal to be signed.
    fn psbt_to_sign(session: &Self::ProvisionalProposal) -> Psbt;

    /// The receiver's coins that the proposal spends.
    fn utxos_to_be_locked(session: &Self::PayjoinProposal) -> Vec<CoreOutPoint>;

    /// The proposal.
    fn proposal_psbt(session: &Self::PayjoinProposal) -> Psbt;

    /// Makes the request that posts the proposal.
    fn create_post_request(session: &Self::PayjoinProposal, ohttp_relay: &String) -> Result<
        (Request, Self::Context),
        ReceiveFailure,
    >;

    /// Reads the directory's response to the proposal.
    fn process_post_response(
        session: &Self::PayjoinProposal,
        body: &[u8],
        ctx: &Self::Context,
    ) -> ReceiverReply<Self, Self::Monitor, ProtocolError>;

    /// Makes the request that replies an error.
    fn create_error_request(session: &Self::HasReplyableError, ohttp_relay: &String) -> Result<
        (Request, Self::Context),
        SessionError,
    >;

    /// Reads the directory's response to a replied error.
    fn process_error_response(
        session: &Self::HasReplyableError,
        body: &[u8],
        ctx: &Self::Context,
    ) -> ReceiverReply<Self, (), ProtocolError>;

    /// Looks whether the payment was made.
    fn check_payment<F: FindTransaction>(session: &Self::Monitor, transaction_exists: &F) ->
        PaymentReply<Self>;

    /// Id of the original transaction.
    fn extract_fallback_txid(session: &Self::Monitor) -> Txid;

    /// Id of the proposed transaction.
    fn extract_payjoin_proposal_txid(session: &Self::Monitor) -> Txid;

    /// Ends the session if the payment cannot be watched for.
    fn check_fallback_monitorable(session: &Self::Monitor) -> PaymentReply<Self>;

    /// Ends the session with the original transaction.
    fn fallback_tx_exists(session: &Self::Monitor) -> PaymentReply<Self>;

    /// Ends the session with the payjoin transaction.
    fn payjoin_tx_exists(session: &Self::Monitor, payjoin_tx: Vec<u8>) -> PaymentReply<Self>;
}

/// A session that is closed as a failure is closed as that, and not as
/// cancelled or paid.
pub proof fn law_failures_close_as_failures<C: ReceiverStates>()
    ensures
        failure_event::<C>() matches SessionEvent::Closed(outcome) && outcome is Failure,
{
}

/// Each way to end is named by itself.
pub proof fn law_outcomes_are_named<S>(outcome: SessionOutcome<S>, name: String)
    requires
        call_ensures(SessionOutcome::<S>::name_text, (&outcome,), name),
    ensures
        match outcome {
            SessionOutcome::Success(_) => name@ == "Success"@,
            SessionOutcome::Failure => name@ == "Failure"@,
            SessionOutcome::Cancel => name@ == "Cancel"@,
            SessionOutcome::Other(text) => name@ == text@,
        },
{
}

} // verus!
