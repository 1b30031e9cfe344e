//! The receiver role, on a protocol that answers by what it is fed.
use bitcoin::{
    absolute, transaction, Amount, OutPoint as BtcOutPoint, ScriptBuf, Sequence, Transaction,
    TxIn as BtcTxIn, TxOut as BtcTxOut, Witness,
};
use payjoin_session::chain::{CoreOutPoint, CoreTxOut, Psbt, Txid};
use payjoin_session::error::{
    FfiValidationError, ForeignError, ImplementationError, ProvisionalConfirmError,
};
use payjoin_session::persist::{Advance, CheckTransition, OptionalTransition, Transition};
use payjoin_session::receive::buffer::{ReceiverEventBuffer, ReceiverSessionEvent};
use payjoin_session::receive::builder::ReceiverBuilder;
use payjoin_session::receive::callbacks::{
    AlreadySigned, CanBroadcast, ForeignKnown, ForeignOwned, ForeignSigner, IsOutputKnown,
    IsScriptOwned, ProcessPsbt, TransactionExists,
};
use payjoin_session::receive::engine::{
    CheckOutPoint, CheckReply, CheckScript, CheckTransaction, CorePsbtInput, CoreReceiveSession,
    CoreTxIn, FindTransaction, PaymentReply, PollReply, ReceiverEngine, ReceiverEvent,
    ReceiverParams, ReceiverReply, ReceiverStates, ReceiverTerms, Reference, SessionOutcome, SignPsbt,
    TaggedReference,
};
use payjoin_session::receive::error::{
    HasReplyableError, InputContributionError, InputPairError, JsonReply, OutputSubstitutionError,
    OutputSubstitutionProtocolError, ProtocolError, PsbtInputError, ReceiveCause, ReceiveFailure,
    ReceiverApiError, ReceiverBuilderError, ReceiverError, ReceiverErrorKind, ReceiverReplayError,
    SelectionError, SessionError,
};
use payjoin_session::receive::references::InputOwnedReference;
use payjoin_session::receive::replay::{
    parse_receiver_events, replay_receiver_event_log, ReceiveSession,
};
use payjoin_session::receive::states::{
    Initialized, InitializedTransitionOutcome, MaybeInputsOwned, MaybeInputsSeen, Monitor,
    MonitorTransitionOutcome, OutputsUnknown, PayjoinProposal, ProvisionalProposal,
    UncheckedOriginalPayload, WantsFeeRange, WantsInputs, WantsOutputs,
};
use payjoin_session::receive::values::{InputPair, OutPoint, PsbtInput, TxIn, TxOut, Weight};
use payjoin_session::runtime::ceremony::ReceiverWallet;
use payjoin_session::runtime::error::Error;
use payjoin_session::runtime::receiver::ReceiverSession;
use payjoin_session::runtime::{FeeRange, Step};
use payjoin_session::session::{
    FeeRateError, IntoUrlError, OhttpKeys, PjUri, ReplayError, Request, SessionEvent,
};
use payjoin_session::staging::BufferIds;
use payjoin_session::text::Message;
use payjoin_session::validation::InputRules;
use std::cell::RefCell;

/// A protocol whose states are the text of what happened so far.
#[derive(Debug)]
struct Proto;

impl ReceiverStates for Proto {
    type Payload = String;
    type Proceeds = u8;
    type Initialized = String;
    type UncheckedOriginalPayload = String;
    type MaybeInputsOwned = String;
    type MaybeInputsSeen = String;
    type OutputsUnknown = String;
    type WantsOutputs = String;
    type WantsInputs = String;
    type WantsFeeRange = String;
    type ProvisionalProposal = String;
    type PayjoinProposal = String;
    type HasReplyableError = String;
    type Monitor = String;
    type Context = String;
    type InputPair = String;
    type OutputSubstitution = bool;
    type History = String;
    type Status = String;
    type JsonReply = String;
}

impl InputRules for Proto {
    fn amount_sat(amount_sat: u64) -> Result<(), FfiValidationError> {
        if amount_sat <= 1_000_000 {
            Ok(())
        } else {
            Err(FfiValidationError::AmountOutOfRange { amount_sat, max_sat: 1_000_000 })
        }
    }
    fn expiration_secs(seconds: u64) -> Result<(), FfiValidationError> {
        if seconds <= 1_000 {
            Ok(())
        } else {
            Err(FfiValidationError::ExpirationOutOfRange { seconds, max: 1_000 })
        }
    }
    fn fee_rate_sat_per_kwu(value: u64) -> Result<(), FfiValidationError> {
        if value <= 1_000 {
            Ok(())
        } else {
            Err(FfiValidationError::FeeRateOutOfRange { value, unit: "sat/kwu".to_string() })
        }
    }
    fn fee_rate_sat_per_vb(value: u64) -> Result<u64, FfiValidationError> {
        if value <= 100 {
            Ok(value * 250)
        } else {
            Err(FfiValidationError::FeeRateOutOfRange { value, unit: "sat/vB".to_string() })
        }
    }
    fn script(
        field: &str,
        script: &Vec<u8>,
        allow_empty: bool,
    ) -> Result<(), FfiValidationError> {
        if script.is_empty() && !allow_empty {
            Err(FfiValidationError::ScriptEmpty { field: field.to_string() })
        } else if script.len() > 100 {
            Err(FfiValidationError::ScriptTooLarge {
                field: field.to_string(),
                len: script.len() as u64,
                max: 100,
            })
        } else {
            Ok(())
        }
    }
    fn optional_script(field: &str, script: &Vec<u8>) -> Result<(), FfiValidationError> {
        Self::script(field, script, false)
    }
    fn witness_stack(witness: &Vec<Vec<u8>>) -> Result<(), FfiValidationError> {
        if witness.len() <= 3 {
            Ok(())
        } else {
            Err(FfiValidationError::WitnessItemsTooMany { count: witness.len() as u64, max: 3 })
        }
    }
    fn weight_units(weight_units: u64) -> Result<(), FfiValidationError> {
        if weight_units <= 4_000 {
            Ok(())
        } else {
            Err(FfiValidationError::WeightOutOfRange { weight_units, max_wu: 4_000 })
        }
    }
}

fn event(tag: &str) -> ReceiverEvent<Proto> {
    SessionEvent::Advanced(tag.to_string())
}

fn protocol_failure(msg: &str) -> ReceiveFailure {
    ReceiveFailure {
        cause: ReceiveCause::Protocol(ProtocolError { msg: msg.to_string() }),
        msg: format!("failure: {msg}"),
    }
}

/// A check on `state`: the answer `want` lets it pass.
fn checked(
    state: &String,
    name: &str,
    answer: Result<bool, ImplementationError>,
    want: bool,
) -> CheckReply<Proto, String> {
    match answer {
        Ok(b) if b == want => CheckTransition::Success(event(name), format!("{state}>{name}")),
        Ok(_) if state == "hopeless" => {
            CheckTransition::Fatal(protocol_failure(&format!("{name} refused")))
        }
        Ok(_) => CheckTransition::FatalWithState(
            event("replyable"),
            protocol_failure(&format!("{name} refused")),
            format!("reply to {state}"),
        ),
        Err(e) => CheckTransition::Transient(ReceiveFailure {
            cause: ReceiveCause::Implementation(e),
            msg: "implementation".to_string(),
        }),
    }
}

fn request(url: &String, body: &str) -> Request {
    Request {
        url: url.clone(),
        content_type: "message/ohttp-req".to_string(),
        body: body.as_bytes().to_vec(),
    }
}

const COIN: CoreOutPoint = CoreOutPoint { txid: Txid([7u8; 32]), vout: 1 };

impl ReceiverEngine for Proto {
    fn check_directory(directory: &String) -> Result<(), IntoUrlError> {
        if directory.starts_with("https://") {
            Ok(())
        } else {
            Err(IntoUrlError { msg: "relative URL".to_string() })
        }
    }
    fn create(params: &ReceiverParams) -> Advance<String, String> {
        let state = format!(
            "{} {} {} {:?} {:?} {:?}",
            params.address,
            params.directory,
            params.ohttp_keys.encoded,
            params.amount_sat,
            params.expiration_secs,
            params.max_fee_rate
        );
        Advance { event: "created".to_string(), state }
    }
    fn replay_event_log(
        events: Vec<ReceiverEvent<Self>>,
    ) -> Result<(CoreReceiveSession<Self>, String), ReplayError> {
        let n = events.len();
        match events.into_iter().last() {
            None => Err(ReplayError {
                display: "no events".to_string(),
                debug: "NoEvents".to_string(),
            }),
            Some(SessionEvent::Closed(outcome)) => {
                Ok((CoreReceiveSession::Closed(outcome), format!("log of {n}")))
            }
            Some(SessionEvent::Advanced(tag)) => {
                let s = format!("state {tag}");
                let session = match tag.as_str() {
                    "created" => CoreReceiveSession::Initialized(s),
                    "unchecked" => CoreReceiveSession::UncheckedOriginalPayload(s),
                    "owned" => CoreReceiveSession::MaybeInputsOwned(s),
                    "seen" => CoreReceiveSession::MaybeInputsSeen(s),
                    "unknown" => CoreReceiveSession::OutputsUnknown(s),
                    "outputs" => CoreReceiveSession::WantsOutputs(s),
                    "inputs" => CoreReceiveSession::WantsInputs(s),
                    "fees" => CoreReceiveSession::WantsFeeRange(s),
                    "provisional" => CoreReceiveSession::ProvisionalProposal(s),
                    "proposal" => CoreReceiveSession::PayjoinProposal(s),
                    "error" => CoreReceiveSession::HasReplyableError(s),
                    _ => CoreReceiveSession::Monitor(s),
                };
                Ok((session, format!("log of {n}")))
            }
        }
    }
    fn event_from_json(json: &String) -> Result<ReceiverEvent<Self>, String> {
        match json.strip_prefix("advanced:") {
            Some(tag) => Ok(SessionEvent::Advanced(tag.to_string())),
            None => Err(format!("unexpected: {json}")),
        }
    }
    fn event_to_json(event: &ReceiverEvent<Self>) -> Result<String, String> {
        match event {
            SessionEvent::Advanced(tag) => Ok(format!("advanced:{tag}")),
            SessionEvent::Closed(_) => Err("closed".to_string()),
        }
    }
    fn debug_session(session: &CoreReceiveSession<Self>) -> String {
        match session {
            CoreReceiveSession::MaybeInputsOwned(s) => format!("MaybeInputsOwned({s})"),
            _ => "Other".to_string(),
        }
    }
    fn history_pj_uri(history: &String) -> PjUri {
        PjUri { uri: format!("bitcoin:{history}") }
    }
    fn history_fallback_tx(history: &String) -> Option<Vec<u8>> {
        Some(history.as_bytes().to_vec())
    }
    fn history_status(history: &String) -> String {
        format!("status of {history}")
    }
    fn json_reply(error: &ProtocolError) -> String {
        format!("{{{}}}", error.msg)
    }
    fn fallback_initialized(_s: &String) -> Option<Vec<u8>> {
        None
    }
    fn fallback_unchecked(_s: &String) -> Option<Vec<u8>> {
        Some(vec![1])
    }
    fn fallback_inputs_owned(_s: &String) -> Option<Vec<u8>> {
        Some(vec![2])
    }
    fn fallback_inputs_seen(_s: &String) -> Option<Vec<u8>> {
        Some(vec![3])
    }
    fn fallback_outputs_unknown(_s: &String) -> Option<Vec<u8>> {
        Some(vec![4])
    }
    fn fallback_wants_outputs(_s: &String) -> Option<Vec<u8>> {
        Some(vec![5])
    }
    fn fallback_wants_inputs(_s: &String) -> Option<Vec<u8>> {
        Some(vec![6])
    }
    fn fallback_wants_fee_range(_s: &String) -> Option<Vec<u8>> {
        Some(vec![7])
    }
    fn fallback_provisional(_s: &String) -> Option<Vec<u8>> {
        Some(vec![8])
    }
    fn fallback_proposal(_s: &String) -> Option<Vec<u8>> {
        Some(vec![9])
    }
    fn fallback_replyable(_s: &String) -> Option<Vec<u8>> {
        Some(vec![10])
    }
    fn fallback_monitor(_s: &String) -> Option<Vec<u8>> {
        Some(vec![11])
    }
    fn terms(session: &String) -> ReceiverTerms {
        ReceiverTerms {
            address: format!("address of {session}"),
            directory: "directory".to_string(),
            expiration_unix_secs: 42,
            amount_sats: Some(5),
        }
    }
    fn pj_uri(session: &String) -> PjUri {
        PjUri { uri: format!("bitcoin:{session}") }
    }
    fn create_poll_request(
        session: &String,
        relay: &String,
    ) -> Result<(Request, String), ReceiveFailure> {
        if relay.is_empty() {
            Err(protocol_failure("no relay"))
        } else {
            Ok((request(relay, &format!("poll {session}")), "ctx".to_string()))
        }
    }
    fn process_poll_response(
        session: &String,
        body: &[u8],
        ctx: &String,
    ) -> PollReply<Self> {
        assert_eq!(ctx, "ctx");
        match body {
            b"none" => OptionalTransition::Stasis(format!("{session}+")),
            b"broken" => {
                OptionalTransition::Fatal(ProtocolError { msg: "cannot read".to_string() })
            }
            b"later" => OptionalTransition::Transient(ProtocolError { msg: "later".to_string() }),
            _ => OptionalTransition::Progress(
                event("original"),
                String::from_utf8_lossy(body).to_string(),
            ),
        }
    }
    fn check_broadcast_suitability<F: CheckTransaction>(
        session: &String,
        min_fee_rate: Option<u64>,
        can_broadcast: &F,
    ) -> CheckReply<Self, String> {
        let name = format!("broadcast {min_fee_rate:?}");
        checked(session, &name, can_broadcast.check(&session.as_bytes().to_vec()), true)
    }
    fn extract_tx_to_check_broadcast_suitability(session: &String) -> Vec<u8> {
        format!("check {session}").into_bytes()
    }
    fn apply_broadcast_suitability(
        session: &String,
        min_fee_rate: Option<u64>,
        can_broadcast: bool,
    ) -> CheckReply<Self, String> {
        checked(session, &format!("applied {min_fee_rate:?}"), Ok(can_broadcast), true)
    }
    fn assume_interactive_receiver(session: &String) -> Advance<String, String> {
        Advance { event: "assumed".to_string(), state: format!("{session}>assumed") }
    }
    fn extract_tx_to_schedule_broadcast(session: &String) -> Vec<u8> {
        format!("schedule {session}").into_bytes()
    }
    fn check_inputs_not_owned<F: CheckScript>(
        session: &String,
        is_owned: &F,
    ) -> CheckReply<Self, String> {
        checked(session, "not owned", is_owned.check(&b"input".to_vec()), false)
    }
    fn get_input_script_refs(session: &String) -> Result<Vec<Reference<Vec<u8>>>, ReceiveFailure> {
        if session == "bad" {
            Err(protocol_failure("no scripts"))
        } else {
            Ok(vec![
                Reference { value: b"in0".to_vec(), index: 0 },
                Reference { value: b"in1".to_vec(), index: 1 },
            ])
        }
    }
    fn apply_input_owned_checks(
        session: &String,
        marks: Vec<TaggedReference<Vec<u8>>>,
    ) -> CheckReply<Self, String> {
        checked(session, "not owned", Ok(marks.iter().any(|t| t.result)), false)
    }
    fn check_no_inputs_seen_before<F: CheckOutPoint>(
        session: &String,
        is_known: &F,
    ) -> CheckReply<Self, String> {
        checked(session, "unseen", is_known.check(&COIN), false)
    }
    fn get_input_outpoint_refs(_session: &String) -> Vec<Reference<CoreOutPoint>> {
        vec![Reference { value: COIN, index: 5 }]
    }
    fn apply_input_seen_checks(
        session: &String,
        marks: Vec<TaggedReference<CoreOutPoint>>,
    ) -> CheckReply<Self, String> {
        checked(session, "unseen", Ok(marks.iter().any(|t| t.result)), false)
    }
    fn identify_receiver_outputs<F: CheckScript>(
        session: &String,
        is_receiver_output: &F,
    ) -> CheckReply<Self, String> {
        checked(session, "identified", is_receiver_output.check(&b"output".to_vec()), true)
    }
    fn get_output_script_refs(_session: &String) -> Vec<Reference<Vec<u8>>> {
        vec![Reference { value: b"out".to_vec(), index: 2 }]
    }
    fn apply_output_owned_checks(
        session: &String,
        marks: Vec<TaggedReference<Vec<u8>>>,
    ) -> CheckReply<Self, String> {
        checked(session, "identified", Ok(marks.iter().any(|t| t.result)), true)
    }
    fn output_substitution(session: &String) -> bool {
        session != "disabled"
    }
    fn replace_receiver_outputs(
        session: &String,
        replacement: Vec<CoreTxOut>,
        drain_script: &Vec<u8>,
    ) -> Result<String, OutputSubstitutionProtocolError> {
        if session == "disabled" {
            return Err(OutputSubstitutionProtocolError { msg: "disabled".to_string() });
        }
        let values: Vec<u64> = replacement.iter().map(|o| o.value_sat).collect();
        Ok(format!("{session}>{values:?} {drain_script:?}"))
    }
    fn substitute_receiver_script(
        session: &String,
        output_script: &Vec<u8>,
    ) -> Result<String, OutputSubstitutionProtocolError> {
        if session == "disabled" {
            return Err(OutputSubstitutionProtocolError { msg: "disabled".to_string() });
        }
        Ok(format!("{session}>{output_script:?}"))
    }
    fn commit_outputs(session: &String) -> Advance<String, String> {
        Advance { event: "outputs".to_string(), state: format!("{session}>outputs") }
    }
    fn try_preserving_privacy(
        _session: &String,
        candidates: Vec<String>,
    ) -> Result<String, SelectionError> {
        match candidates.into_iter().find(|c| c != "unfit") {
            Some(c) => Ok(c),
            None => Err(SelectionError {
                msg: "not found".to_string(),
                debug: "NotFound".to_string(),
            }),
        }
    }
    fn contribute_inputs(
        session: &String,
        inputs: Vec<String>,
    ) -> Result<String, InputContributionError> {
        if inputs.iter().any(|i| i == "too small") {
            Err(InputContributionError {
                msg: "value too low".to_string(),
                debug: "ValueTooLow".to_string(),
            })
        } else {
            Ok(format!("{session}>{}", inputs.join(",")))
        }
    }
    fn commit_inputs(session: &String) -> Advance<String, String> {
        Advance { event: "inputs".to_string(), state: format!("{session}>inputs") }
    }
    fn new_input_pair(
        txin: CoreTxIn,
        psbtin: CorePsbtInput,
        expected_weight: Option<u64>,
    ) -> Result<String, PsbtInputError> {
        match psbtin.witness_utxo {
            Some(utxo) => Ok(format!(
                "{}:{} {} {} {expected_weight:?}",
                txin.previous_output.txid.text(),
                txin.previous_output.vout,
                utxo.value_sat,
                txin.sequence
            )),
            None => Err(PsbtInputError { msg: "no utxo".to_string() }),
        }
    }
    fn apply_fee_range(
        session: &String,
        min_fee_rate: Option<u64>,
        max_effective_fee_rate: Option<u64>,
    ) -> ReceiverReply<Self, String, ProtocolError> {
        if max_effective_fee_rate == Some(0) {
            return Transition::Fatal(ProtocolError { msg: "too cheap".to_string() });
        }
        Transition::Success(
            event("fees"),
            format!("{session}>{min_fee_rate:?} {max_effective_fee_rate:?}"),
        )
    }
    fn finalize_proposal<F: SignPsbt>(
        session: &String,
        wallet: &F,
    ) -> ReceiverReply<Self, String, ImplementationError> {
        match wallet.sign(&psbt()) {
            Ok(signed) => {
                assert_eq!(signed.to_base64(), psbt_text());
                Transition::Success(event("finalized"), format!("{session}>signed"))
            }
            Err(e) => Transition::Transient(e),
        }
    }
    fn psbt_to_sign(_session: &String) -> Psbt {
        psbt()
    }
    fn utxos_to_be_locked(_session: &String) -> Vec<CoreOutPoint> {
        vec![COIN, CoreOutPoint { txid: Txid([1u8; 32]), vout: 0 }]
    }
    fn proposal_psbt(_session: &String) -> Psbt {
        psbt()
    }
    fn create_post_request(
        session: &String,
        relay: &String,
    ) -> Result<(Request, String), ReceiveFailure> {
        if relay.is_empty() {
            Err(ReceiveFailure { cause: ReceiveCause::Other, msg: "odd".to_string() })
        } else {
            Ok((request(relay, &format!("post {session}")), "post ctx".to_string()))
        }
    }
    fn process_post_response(
        session: &String,
        body: &[u8],
        _ctx: &String,
    ) -> ReceiverReply<Self, String, ProtocolError> {
        if body == b"ok" {
            Transition::Success(event("posted"), format!("{session}>posted"))
        } else {
            Transition::Transient(ProtocolError { msg: "again".to_string() })
        }
    }
    fn create_error_request(
        session: &String,
        relay: &String,
    ) -> Result<(Request, String), SessionError> {
        if relay.is_empty() {
            Err(SessionError { msg: "expired".to_string() })
        } else {
            Ok((request(relay, session), "error ctx".to_string()))
        }
    }
    fn process_error_response(
        _session: &String,
        body: &[u8],
        _ctx: &String,
    ) -> ReceiverReply<Self, (), ProtocolError> {
        if body == b"ok" {
            Transition::Success(SessionEvent::Closed(SessionOutcome::Failure), ())
        } else {
            Transition::Fatal(ProtocolError { msg: "no".to_string() })
        }
    }
    fn check_payment<F: FindTransaction>(
        session: &String,
        transaction_exists: &F,
    ) -> PaymentReply<Self> {
        match transaction_exists.find(Txid([3u8; 32])) {
            Ok(Some(tx)) => {
                assert_eq!(tx, tx_bytes());
                OptionalTransition::Progress(event("paid"), ())
            }
            Ok(None) => OptionalTransition::Stasis(session.clone()),
            Err(e) => OptionalTransition::Transient(e),
        }
    }
    fn extract_fallback_txid(_session: &String) -> Txid {
        Txid([3u8; 32])
    }
    fn extract_payjoin_proposal_txid(_session: &String) -> Txid {
        Txid([4u8; 32])
    }
    fn check_fallback_monitorable(
        session: &String,
    ) -> PaymentReply<Self> {
        OptionalTransition::Stasis(session.clone())
    }
    fn fallback_tx_exists(_session: &String) -> PaymentReply<Self> {
        OptionalTransition::Progress(event("fallback"), ())
    }
    fn payjoin_tx_exists(
        _session: &String,
        payjoin_tx: Vec<u8>,
    ) -> PaymentReply<Self> {
        assert_eq!(payjoin_tx, tx_bytes());
        OptionalTransition::Progress(event("payjoin"), ())
    }
}

fn tx() -> Transaction {
    Transaction {
        version: transaction::Version::TWO,
        lock_time: absolute::LockTime::ZERO,
        input: vec![BtcTxIn {
            previous_output: BtcOutPoint::null(),
            script_sig: ScriptBuf::new(),
            sequence: Sequence::MAX,
            witness: Witness::new(),
        }],
        output: vec![BtcTxOut {
            value: Amount::from_sat(900),
            script_pubkey: ScriptBuf::from(vec![0x51]),
        }],
    }
}

fn tx_bytes() -> Vec<u8> {
    bitcoin::consensus::serialize(&tx())
}

fn psbt_text() -> String {
    bitcoin::Psbt::from_unsigned_tx(tx()).expect("unsigned").to_string()
}

fn psbt() -> Psbt {
    Psbt::parse(psbt_text()).expect("parses")
}

const RELAY: &str = "https://relay.example/";
const ADDRESS: &str = "bc1qw508d6qejxtdg4y5r3zarvary0c5xw7kv8f3t4";

/// A wallet that writes down what it is asked.
struct Wallet {
    asked: RefCell<Vec<String>>,
    broadcast: Result<bool, String>,
    owned: Vec<Vec<u8>>,
    candidates: Result<Vec<String>, String>,
    signs: bool,
}

impl Wallet {
    fn good() -> Self {
        Wallet {
            asked: RefCell::new(Vec::new()),
            broadcast: Ok(true),
            owned: vec![b"output".to_vec()],
            candidates: Ok(vec!["unfit".to_string(), "coin".to_string()]),
            signs: true,
        }
    }
    fn note(&self, what: &str) {
        self.asked.borrow_mut().push(what.to_string());
    }
}

impl ReceiverWallet for Wallet {
    type Input = String;
    fn is_owned(&self, spk: &Vec<u8>) -> bool {
        self.note(&format!("owned {}", String::from_utf8_lossy(spk)));
        self.owned.contains(spk)
    }
    fn check_broadcast(&self, tx: &Vec<u8>) -> Result<bool, ImplementationError> {
        self.note(&format!("broadcast {}", String::from_utf8_lossy(tx)));
        self.broadcast.clone().map_err(|msg| ImplementationError { msg })
    }
    fn contribute(&self) -> Result<Vec<String>, Error> {
        self.note("contribute");
        self.candidates.clone().map_err(Error::Wallet)
    }
    fn process_psbt(&self, _psbt: &mut Psbt) -> Result<(), Error> {
        self.note("sign");
        if self.signs {
            Ok(())
        } else {
            Err(Error::Wallet("locked".to_string()))
        }
    }
}

fn builder() -> ReceiverBuilder {
    ReceiverBuilder::new::<Proto>(
        ADDRESS.to_string(),
        "https://directory.example/".to_string(),
        OhttpKeys { encoded: "keys".to_string() },
    )
    .expect("valid")
}

fn session(wallet: Wallet, relay: &str) -> ReceiverSession<Proto, Wallet> {
    let range = FeeRange { min: Some(1), max: None };
    match ReceiverSession::new(builder(), relay.to_string(), wallet, range) {
        Ok(s) => s,
        Err(e) => panic!("a new session: {e:?}"),
    }
}

fn batch(step: Step<ReceiverEvent<Proto>>) -> Vec<String> {
    match step {
        Step::Save(events) => events
            .into_iter()
            .map(|e| match e {
                SessionEvent::Advanced(tag) => tag,
                SessionEvent::Closed(outcome) => format!("closed {}", outcome.name_text()),
            })
            .collect(),
        other => panic!("expected events to save, got {other:?}"),
    }
}

fn sent(step: Step<ReceiverEvent<Proto>>) -> Request {
    match step {
        Step::SendRequest(request) => request,
        other => panic!("expected a request, got {other:?}"),
    }
}

fn failure(step: Step<ReceiverEvent<Proto>>) -> Error {
    match step {
        Step::Failed(e) => e,
        other => panic!("expected a failure, got {other:?}"),
    }
}

fn payjoin_error(e: Error) -> String {
    match e {
        Error::Payjoin(msg) => msg,
        other => panic!("expected a protocol error, got {other:?}"),
    }
}

/// Drives a new session to the answer `body`.
fn answered(wallet: Wallet, body: &[u8]) -> ReceiverSession<Proto, Wallet> {
    let mut s = session(wallet, RELAY);
    batch(s.poll());
    sent(s.poll());
    s.feed_response(body.to_vec()).expect("fed");
    s
}

#[test]
fn a_session_runs_to_the_posted_proposal() {
    let mut s = session(Wallet::good(), RELAY);
    let uri = s.pj_uri().to_string();
    assert!(uri.starts_with("bitcoin:bc1q"));
    assert_eq!(batch(s.poll()), vec!["created"]);
    let req = sent(s.poll());
    assert_eq!(req.url, RELAY);
    assert!(req.body.starts_with(b"poll bc1q"));
    s.feed_response(b"payload".to_vec()).expect("fed");
    // One advance, one batch of nine events.
    assert_eq!(
        batch(s.poll()),
        vec![
            "original",
            "broadcast None",
            "not owned",
            "unseen",
            "identified",
            "outputs",
            "inputs",
            "fees",
            "finalized"
        ]
    );
    let req = sent(s.poll());
    assert_eq!(
        String::from_utf8_lossy(&req.body),
        "post payload>broadcast None>not owned>unseen>identified>outputs>coin>inputs>Some(1) None>signed"
    );
    s.feed_response(Vec::new()).expect("fed");
    assert!(matches!(s.poll(), Step::Done));
    // The end is reported once, and nothing moves it.
    assert!(matches!(failure(s.poll()), Error::Terminated));
    assert!(matches!(s.feed_response(Vec::new()), Err(Error::Terminated)));
    assert!(matches!(failure(s.poll()), Error::Terminated));
    assert_eq!(s.pj_uri(), uri);
    // The wallet was asked in the order of the checks, and signed last.
    assert_eq!(
        s.into_wallet().asked.into_inner(),
        vec!["broadcast payload", "owned input", "owned output", "contribute", "sign"]
    );
}

#[test]
fn receiver_one_backoff_per_empty_poll() {
    let mut s = session(Wallet::good(), RELAY);
    batch(s.poll());
    for _ in 0..3 {
        sent(s.poll());
        s.feed_response(b"none".to_vec()).expect("fed");
        assert!(matches!(s.poll(), Step::Backoff));
    }
    assert!(sent(s.poll()).body.ends_with(b"+++"));
}

#[test]
fn a_failed_check_stops_the_ceremony() {
    // Each wallet fails at another stage: what is saved shows how far it came.
    let mut w = Wallet::good();
    w.broadcast = Ok(false);
    let mut s = answered(w, b"p");
    assert_eq!(batch(s.poll()), vec!["original", "replyable"]);
    assert_eq!(
        payjoin_error(failure(s.poll())),
        "Fatal error: failure: broadcast None refused"
    );
    assert!(matches!(failure(s.poll()), Error::Terminated));

    let mut w = Wallet::good();
    w.broadcast = Err("node down".to_string());
    let mut s = answered(w, b"p");
    assert_eq!(batch(s.poll()), vec!["original"]);
    assert_eq!(payjoin_error(failure(s.poll())), "Transient error: implementation");

    let mut w = Wallet::good();
    w.owned = vec![b"input".to_vec(), b"output".to_vec()];
    let mut s = answered(w, b"p");
    assert_eq!(batch(s.poll()), vec!["original", "broadcast None", "replyable"]);
    assert_eq!(payjoin_error(failure(s.poll())), "Fatal error: failure: not owned refused");

    let mut w = Wallet::good();
    w.owned = Vec::new();
    let mut s = answered(w, b"p");
    assert_eq!(batch(s.poll()).len(), 5);
    assert_eq!(payjoin_error(failure(s.poll())), "Fatal error: failure: identified refused");
    let asked = s.into_wallet().asked.into_inner();
    assert!(!asked.contains(&"sign".to_string()));
}

#[test]
fn contributions_that_fail_stop_the_ceremony() {
    let mut w = Wallet::good();
    w.candidates = Ok(Vec::new());
    let mut s = answered(w, b"p");
    batch(s.poll());
    match failure(s.poll()) {
        Error::Wallet(msg) => assert_eq!(msg, "no candidate inputs to contribute"),
        other => panic!("expected a wallet error, got {other:?}"),
    }

    let mut w = Wallet::good();
    w.candidates = Err("empty".to_string());
    let mut s = answered(w, b"p");
    batch(s.poll());
    assert_eq!(failure(s.poll()).message(), "wallet error: empty");

    let mut w = Wallet::good();
    w.candidates = Ok(vec!["unfit".to_string()]);
    let mut s = answered(w, b"p");
    batch(s.poll());
    assert_eq!(payjoin_error(failure(s.poll())), "privacy-preserving selection: NotFound");

    let mut w = Wallet::good();
    w.candidates = Ok(vec!["too small".to_string()]);
    let mut s = answered(w, b"p");
    batch(s.poll());
    assert_eq!(payjoin_error(failure(s.poll())), "contribute_inputs: ValueTooLow");
}

#[test]
fn fees_and_signatures_that_fail_stop_the_ceremony() {
    let range = FeeRange { min: None, max: Some(0) };
    let mut s = match ReceiverSession::<Proto, Wallet>::new(
        builder(),
        RELAY.to_string(),
        Wallet::good(),
        range,
    ) {
        Ok(s) => s,
        Err(e) => panic!("a new session: {e:?}"),
    };
    batch(s.poll());
    sent(s.poll());
    s.feed_response(b"p".to_vec()).expect("fed");
    assert_eq!(batch(s.poll()).last().map(|e| e.as_str()), Some("closed Failure"));
    assert_eq!(payjoin_error(failure(s.poll())), "Fatal error: too cheap");

    let mut w = Wallet::good();
    w.signs = false;
    let mut s = answered(w, b"p");
    assert_eq!(batch(s.poll()).len(), 8);
    assert_eq!(payjoin_error(failure(s.poll())), "Transient error: wallet error: locked");
}

#[test]
fn an_answer_that_cannot_be_read_fails_the_session() {
    let mut s = answered(Wallet::good(), b"broken");
    assert_eq!(batch(s.poll()), vec!["closed Failure"]);
    assert_eq!(payjoin_error(failure(s.poll())), "Fatal error: cannot read");
}

#[test]
fn receiver_a_response_out_of_turn_fails_the_session() {
    let mut s = session(Wallet::good(), RELAY);
    s.feed_response(b"p".to_vec()).expect("fed");
    batch(s.poll());
    assert_eq!(payjoin_error(failure(s.poll())), "feed_response called in an unexpected state");
}

#[test]
fn receiver_polling_while_a_response_is_awaited_ends_the_session() {
    let mut s = session(Wallet::good(), RELAY);
    batch(s.poll());
    sent(s.poll());
    assert_eq!(payjoin_error(failure(s.poll())), "called poll() while awaiting a response");
    assert!(matches!(failure(s.poll()), Error::Terminated));
    assert!(matches!(s.feed_response(b"none".to_vec()), Err(Error::Terminated)));

    let mut s = resume(vec![advanced("proposal")], RELAY).ok().expect("resumed");
    sent(s.poll());
    assert_eq!(payjoin_error(failure(s.poll())), "called poll() while awaiting a response");
    assert!(matches!(failure(s.poll()), Error::Terminated));
}

#[test]
fn receiver_a_request_that_cannot_be_made_ends_the_session() {
    let mut s = session(Wallet::good(), "");
    batch(s.poll());
    assert_eq!(payjoin_error(failure(s.poll())), "failure: no relay");
    assert!(matches!(failure(s.poll()), Error::Terminated));
}

fn resume(
    tags: Vec<ReceiverEvent<Proto>>,
    relay: &str,
) -> Result<ReceiverSession<Proto, Wallet>, Error> {
    ReceiverSession::resume_from_events(
        tags,
        relay.to_string(),
        Wallet::good(),
        FeeRange::default(),
    )
}

fn advanced(tag: &str) -> ReceiverEvent<Proto> {
    SessionEvent::Advanced(tag.to_string())
}

#[test]
fn a_log_resumes_at_the_end_of_a_batch() {
    let mut s = resume(vec![advanced("created")], RELAY).ok().expect("resumed");
    assert_eq!(s.pj_uri(), "bitcoin:log of 1");
    assert_eq!(sent(s.poll()).body, b"poll state created".to_vec());
    let mut s = resume(vec![advanced("created"), advanced("proposal")], RELAY).ok().expect("ok");
    assert_eq!(sent(s.poll()).body, b"post state proposal".to_vec());
    let mut s = resume(vec![advanced("proposal")], "").ok().expect("resumed");
    assert_eq!(payjoin_error(failure(s.poll())), "odd");
    let done = SessionEvent::Closed(SessionOutcome::Success(1));
    let mut s = resume(vec![done], RELAY).ok().expect("resumed");
    assert!(matches!(s.poll(), Step::Done));
}

#[test]
fn a_log_that_ends_within_a_batch_is_refused() {
    match resume(vec![advanced("owned")], RELAY) {
        Err(e) => assert_eq!(
            payjoin_error(e),
            "cannot resume from intermediate state MaybeInputsOwned(state owned); event log was \
             not persisted atomically per `Step::Save` batch"
        ),
        Ok(_) => panic!("expected a refusal"),
    }
    for tag in
        ["unchecked", "seen", "unknown", "outputs", "inputs", "fees", "provisional", "error", "m"]
    {
        assert!(resume(vec![advanced(tag)], RELAY).is_err(), "{tag}");
    }
}

#[test]
fn receiver_a_log_closed_otherwise_says_how() {
    for (outcome, name) in [
        (SessionOutcome::Failure, "Failure"),
        (SessionOutcome::Cancel, "Cancel"),
        (SessionOutcome::Other("FallbackBroadcasted".to_string()), "FallbackBroadcasted"),
    ] {
        let mut s = resume(vec![SessionEvent::Closed(outcome)], RELAY).ok().expect("resumed");
        assert_eq!(payjoin_error(failure(s.poll())), format!("session previously closed: {name}"));
    }
    match resume(Vec::new(), RELAY) {
        Err(e) => assert_eq!(payjoin_error(e), "NoEvents"),
        Ok(_) => panic!("expected a refusal"),
    }
}

#[test]
fn builders_gather_what_they_are_told() {
    let b = builder()
        .with_amount::<Proto>(5)
        .expect("in range")
        .with_expiration::<Proto>(6)
        .expect("in range")
        .with_max_fee_rate(2)
        .expect("fits");
    assert_eq!(b.params.address, ADDRESS);
    assert_eq!(b.params.directory, "https://directory.example/");
    assert_eq!(
        (b.params.amount_sat, b.params.expiration_secs, b.params.max_fee_rate),
        (Some(5), Some(6), Some(500))
    );
    // The builder it came from is left alone.
    let first = builder();
    first.with_amount::<Proto>(1).expect("in range");
    assert_eq!(first.params.amount_sat, None);
}

#[test]
fn builders_refuse_what_is_out_of_range() {
    assert!(matches!(
        builder().with_amount::<Proto>(1_000_001),
        Err(FfiValidationError::AmountOutOfRange { .. })
    ));
    assert!(matches!(
        builder().with_expiration::<Proto>(1_001),
        Err(FfiValidationError::ExpirationOutOfRange { .. })
    ));
    let limit = u64::MAX / 250;
    assert!(builder().with_max_fee_rate(limit).is_ok());
    assert_eq!(
        builder().with_max_fee_rate(limit + 1).err(),
        Some(FeeRateError::Overflow(limit + 1))
    );
}

#[test]
fn builders_refuse_bad_addresses_and_directories() {
    let keys = || OhttpKeys { encoded: "keys".to_string() };
    match ReceiverBuilder::new::<Proto>("rubbish".to_string(), "https://d/".to_string(), keys()) {
        Err(ReceiverBuilderError::InvalidAddress(e)) => {
            let expected = "rubbish"
                .parse::<bitcoin::Address<bitcoin::address::NetworkUnchecked>>()
                .expect_err("no address")
                .to_string();
            assert_eq!(e.msg, expected);
            assert_eq!(
                ReceiverBuilderError::InvalidAddress(e).message(),
                format!("Invalid Bitcoin address: Invalid Bitcoin address: {expected}")
            );
        }
        _ => panic!("expected an invalid address"),
    }
    match ReceiverBuilder::new::<Proto>(ADDRESS.to_string(), "d".to_string(), keys()) {
        Err(e @ ReceiverBuilderError::IntoUrl(_)) => {
            assert_eq!(e.message(), "Invalid directory URL: relative URL")
        }
        _ => panic!("expected an invalid directory"),
    }
    // An address is kept as it is written, not as it was typed.
    let b = ReceiverBuilder::new::<Proto>(ADDRESS.to_uppercase(), "https://d/".to_string(), keys())
        .expect("valid");
    assert_eq!(b.params.address, ADDRESS);
}

#[test]
fn a_receiver_waits_for_the_event_that_created_it() {
    let mut ids = BufferIds::new();
    let mut buf = ReceiverEventBuffer::<Proto>::new(&mut ids);
    let mut p = builder().build(&mut buf);
    assert_eq!((buf.len(), buf.committed_count()), (1, 0));
    assert_eq!(p.confirm(&buf).err(), Some(ProvisionalConfirmError::NotYetPersisted));
    let other = ReceiverEventBuffer::<Proto>::after_replay(&mut ids, 100);
    assert_eq!(p.confirm(&other).err(), Some(ProvisionalConfirmError::WrongBuffer));
    assert_eq!(buf.peek()[0].to_json().expect("written"), "advanced:created");
    buf.commit(1);
    let initialized = p.confirm(&buf).ok().expect("durable");
    assert!(initialized.pj_uri().uri.starts_with("bitcoin:bc1q"));
    assert_eq!(p.confirm(&buf).err(), Some(ProvisionalConfirmError::AlreadyConsumed));
}

#[test]
fn cancelling_closes_the_log_in_every_state() {
    let mut buf = ReceiverEventBuffer::<Proto>::new(&mut BufferIds::new());
    let s = || "s".to_string();
    let fallbacks = vec![
        Initialized::<Proto>(s()).cancel(&mut buf),
        UncheckedOriginalPayload::<Proto>(s()).cancel(&mut buf),
        MaybeInputsOwned::<Proto>(s()).cancel(&mut buf),
        MaybeInputsSeen::<Proto>(s()).cancel(&mut buf),
        OutputsUnknown::<Proto>(s()).cancel(&mut buf),
        WantsOutputs::<Proto>(s()).cancel(&mut buf),
        WantsInputs::<Proto>(s()).cancel(&mut buf),
        WantsFeeRange::<Proto>(s()).cancel(&mut buf),
        ProvisionalProposal::<Proto>(s()).cancel(&mut buf),
        PayjoinProposal::<Proto>(s()).cancel(&mut buf),
        HasReplyableError::<Proto>(s()).cancel(&mut buf),
        Monitor::<Proto>(s()).cancel(&mut buf),
    ];
    assert_eq!(fallbacks[0], None);
    for (i, fallback) in fallbacks.iter().enumerate().skip(1) {
        assert_eq!(fallback, &Some(vec![i as u8]));
    }
    assert_eq!(buf.len(), 12);
    for event in buf.peek() {
        assert!(matches!(event.0, SessionEvent::Closed(SessionOutcome::Cancel)));
    }
}

#[test]
fn the_initialized_state_polls() {
    let mut buf = ReceiverEventBuffer::<Proto>::new(&mut BufferIds::new());
    let s = Initialized::<Proto>("s".to_string());
    let req = s.create_poll_request(RELAY.to_string()).ok().expect("made");
    assert_eq!(req.request.body, b"poll s".to_vec());
    match s.create_poll_request(String::new()) {
        Err(e @ ReceiverError::Protocol(_)) => {
            assert_eq!(e.message(), "Protocol error: no relay")
        }
        _ => panic!("expected a protocol error"),
    }
    match s.process_response(b"none", &req.client_response, &mut buf) {
        Ok(InitializedTransitionOutcome::Stasis { inner }) => assert_eq!(inner.0, "s+"),
        _ => panic!("expected stasis"),
    }
    assert!(buf.is_empty());
    match s.process_response(b"p", &req.client_response, &mut buf) {
        Ok(InitializedTransitionOutcome::Progress { inner }) => assert_eq!(inner.0, "p"),
        _ => panic!("expected progress"),
    }
    assert_eq!(buf.len(), 1);
    match s.process_response(b"broken", &req.client_response, &mut buf) {
        Err(ReceiverApiError::Fatal { kind, msg }) => {
            assert_eq!((kind, msg.as_str()), (
                ReceiverErrorKind::Protocol,
                "Protocol error: cannot read"
            ))
        }
        _ => panic!("expected a fatal error"),
    }
    assert_eq!(buf.len(), 2);
    assert_eq!(s.address(), "address of s");
    assert_eq!(s.directory(), "directory");
    assert_eq!(s.expiration_unix_secs(), 42);
    assert_eq!(s.amount_sats(), Some(5));
}

/// An application that gives one answer to every question.
struct Says(Result<bool, &'static str>);

impl Says {
    fn answer(&self) -> Result<bool, ForeignError> {
        self.0.map_err(|m| ForeignError::InternalError(m.to_string()))
    }
}

impl CanBroadcast for Says {
    fn callback(&self, tx: Vec<u8>) -> Result<bool, ForeignError> {
        assert_eq!(tx, b"s".to_vec());
        self.answer()
    }
}

impl IsScriptOwned for Says {
    fn callback(&self, script: Vec<u8>) -> Result<bool, ForeignError> {
        assert!(script == b"input".to_vec() || script == b"output".to_vec());
        self.answer()
    }
}

impl IsOutputKnown for Says {
    fn callback(&self, outpoint: OutPoint) -> Result<bool, ForeignError> {
        assert_eq!(outpoint.txid, "07".repeat(32));
        assert_eq!(outpoint.vout, 1);
        self.answer()
    }
}

#[test]
fn the_application_answers_the_checks() {
    let mut buf = ReceiverEventBuffer::<Proto>::new(&mut BufferIds::new());
    let s = UncheckedOriginalPayload::<Proto>("s".to_string());
    let owned =
        s.check_broadcast_suitability(Some(9), &Says(Ok(true)), &mut buf).ok().expect("passes");
    assert_eq!(owned.0, "s>broadcast Some(9)");
    let seen = owned.check_inputs_not_owned(&Says(Ok(false)), &mut buf).ok().expect("passes");
    let unknown = seen.check_no_inputs_seen_before(&Says(Ok(false)), &mut buf).ok().expect("ok");
    let outputs = unknown.identify_receiver_outputs(&Says(Ok(true)), &mut buf).ok().expect("ok");
    assert_eq!(outputs.0, "s>broadcast Some(9)>not owned>unseen>identified");
    assert_eq!(buf.len(), 4);

    // A refusal leaves a state to reply from, and is recorded.
    match s.check_broadcast_suitability(None, &Says(Ok(false)), &mut buf) {
        Err(e) => {
            assert_eq!(
                e.message(),
                "Fatal Protocol error with replyable state: Protocol error: broadcast None refused"
            );
            match e {
                ReceiverApiError::FatalWithReplyableState { kind, state, .. } => {
                    assert_eq!(kind, ReceiverErrorKind::Protocol);
                    assert_eq!(state.0, "reply to s");
                }
                _ => panic!("expected a state to reply from"),
            }
        }
        Ok(_) => panic!("expected a refusal"),
    }
    assert_eq!(buf.len(), 5);

    // An error of the application can be retried.
    match unknown.identify_receiver_outputs(&Says(Err("down")), &mut buf) {
        Err(ReceiverApiError::Transient { kind, msg }) => {
            assert_eq!(kind, ReceiverErrorKind::Implementation);
            assert_eq!(msg, "Implementation error: Internal error: down");
        }
        _ => panic!("expected a transient error"),
    }
    assert!(seen.check_no_inputs_seen_before(&Says(Ok(true)), &mut buf).is_err());
    assert!(owned.check_inputs_not_owned(&Says(Ok(true)), &mut buf).is_err());

    // A fee rate out of range is refused before anything is asked.
    let before = buf.len();
    match s.check_broadcast_suitability(Some(1_001), &Says(Ok(true)), &mut buf) {
        Err(e @ ReceiverApiError::InputValidation(_)) => assert_eq!(
            e.message(),
            "Input validation error: Fee rate out of range: 1001 sat/kwu"
        ),
        _ => panic!("expected a refused input"),
    }
    assert_eq!(buf.len(), before);
}

#[test]
fn the_caller_may_answer_the_checks_itself() {
    let mut buf = ReceiverEventBuffer::<Proto>::new(&mut BufferIds::new());
    let s = UncheckedOriginalPayload::<Proto>("s".to_string());
    assert_eq!(s.extract_tx_to_check_broadcast_suitability(), b"check s".to_vec());
    let owned = s.apply_broadcast_suitability(Some(1), true, &mut buf).ok().expect("passes");
    assert_eq!(owned.0, "s>applied Some(1)");
    assert!(s.apply_broadcast_suitability(None, false, &mut buf).is_err());
    assert!(matches!(
        s.apply_broadcast_suitability(Some(1_001), true, &mut buf),
        Err(ReceiverApiError::InputValidation(_))
    ));
    assert_eq!(s.assume_interactive_receiver(&mut buf).0, "s>assumed");
    assert_eq!(owned.extract_tx_to_schedule_broadcast(), b"schedule s>applied Some(1)".to_vec());

    let refs = owned.get_input_script_refs().ok().expect("there");
    assert_eq!(refs.len(), 2);
    assert_eq!(refs[1].get_value(), b"in1".to_vec());
    let marks: Vec<_> = refs.iter().map(|r| r.mark(false)).collect();
    assert_eq!(
        (marks[1].get_value(), marks[1].get_result(), marks[1].get_index()),
        (b"in1".to_vec(), false, 1)
    );
    let seen = owned.apply_input_owned_checks(marks, &mut buf).ok().expect("passes");
    let marks: Vec<_> = refs.iter().map(|r| r.mark(true)).collect();
    assert!(owned.apply_input_owned_checks(marks, &mut buf).is_err());
    assert!(MaybeInputsOwned::<Proto>("bad".to_string()).get_input_script_refs().is_err());

    let refs = seen.get_input_outpoint_refs();
    assert_eq!((refs[0].get_value().txid, refs[0].get_value().vout), ("07".repeat(32), 1));
    let mark = refs[0].mark(false);
    assert_eq!((mark.get_value().vout, mark.get_result(), mark.get_index()), (1, false, 5));
    let unknown = seen.apply_input_seen_checks(vec![mark], &mut buf).ok().expect("passes");
    assert!(seen.apply_input_seen_checks(vec![refs[0].mark(true)], &mut buf).is_err());

    let refs = unknown.get_output_script_refs();
    assert_eq!(refs[0].get_value(), b"out".to_vec());
    let mark = refs[0].mark(true);
    assert_eq!(
        (mark.get_value(), mark.get_result(), mark.get_index()),
        (b"out".to_vec(), true, 2)
    );
    assert!(unknown.apply_output_owned_checks(vec![mark], &mut buf).is_ok());
    assert!(unknown.apply_output_owned_checks(Vec::new(), &mut buf).is_err());
}

#[test]
fn outputs_may_be_changed() {
    let mut buf = ReceiverEventBuffer::<Proto>::new(&mut BufferIds::new());
    let s = WantsOutputs::<Proto>("s".to_string());
    assert!(s.output_substitution());
    let out = |value_sat, script: &[u8]| TxOut { value_sat, script_pubkey: script.to_vec() };
    let next = s
        .replace_receiver_outputs(vec![out(1, &[1]), out(2, &[2])], vec![9])
        .ok()
        .expect("replaced");
    assert_eq!(next.0, "s>[1, 2] [9]");
    assert_eq!(s.substitute_receiver_script(vec![8]).ok().expect("ok").0, "s>[8]");
    assert_eq!(next.commit_outputs(&mut buf).0, "s>[1, 2] [9]>outputs");
    assert_eq!(buf.len(), 1);

    // The first output that is refused decides.
    match s.replace_receiver_outputs(vec![out(1, &[1]), out(2_000_000, &[2]), out(1, &[])], vec![])
    {
        Err(OutputSubstitutionError::FfiValidation(e)) => {
            assert_eq!(e.message(), "Amount out of range: 2000000 sats (max 1000000)")
        }
        _ => panic!("expected a refused output"),
    }
    match s.replace_receiver_outputs(vec![out(1, &[])], vec![9]) {
        Err(OutputSubstitutionError::FfiValidation(e)) => {
            assert_eq!(e.message(), "script_pubkey script is empty")
        }
        _ => panic!("expected a refused script"),
    }
    match s.replace_receiver_outputs(Vec::new(), Vec::new()) {
        Err(e) => assert_eq!(e.message(), "drain_script_pubkey script is empty"),
        Ok(_) => panic!("expected a refused script"),
    }
    match s.substitute_receiver_script(vec![0; 101]) {
        Err(e) => {
            assert_eq!(e.message(), "output_script_pubkey script too large: 101 bytes (max 100)")
        }
        Ok(_) => panic!("expected a refused script"),
    }
    let disabled = WantsOutputs::<Proto>("disabled".to_string());
    assert!(!disabled.output_substitution());
    match disabled.replace_receiver_outputs(Vec::new(), vec![9]) {
        Err(e @ OutputSubstitutionError::Protocol(_)) => assert_eq!(e.message(), "disabled"),
        _ => panic!("expected a protocol error"),
    }
    assert!(disabled.substitute_receiver_script(vec![9]).is_err());
}

fn txin(txid: &str) -> TxIn {
    TxIn {
        previous_output: OutPoint { txid: txid.to_string(), vout: 3 },
        script_sig: Vec::new(),
        sequence: 17,
        witness: Vec::new(),
    }
}

fn psbtin(value_sat: u64) -> PsbtInput {
    PsbtInput {
        witness_utxo: Some(TxOut { value_sat, script_pubkey: vec![1] }),
        redeem_script: None,
        witness_script: Some(vec![2]),
    }
}

fn pair_error(txin: TxIn, psbtin: PsbtInput, weight: Option<Weight>) -> String {
    match InputPair::<Proto>::new(txin, psbtin, weight) {
        Err(e) => e.message(),
        Ok(_) => panic!("expected a refused input"),
    }
}

#[test]
fn inputs_are_judged_part_by_part() {
    let txid = "ab".repeat(32);
    let pair = InputPair::<Proto>::new(txin(&txid), psbtin(7), Some(Weight { weight_units: 4 }))
        .ok()
        .expect("made");
    assert_eq!(pair.0, format!("{txid}:3 7 17 Some(4)"));
    assert!(InputPair::<Proto>::new(txin(&txid), psbtin(7), None).is_ok());

    let mut bad = txin("nonsense");
    assert_eq!(
        pair_error(txin("nonsense"), psbtin(7), None),
        "Invalid outpoint (txid=nonsense, vout=3)"
    );
    // The script and the witness are judged before the outpoint is parsed.
    bad.witness = vec![Vec::new(); 4];
    assert_eq!(
        pair_error(bad, psbtin(7), None),
        "Invalid input: Witness stack has 4 items (max 3)"
    );
    let mut bad = txin("nonsense");
    bad.script_sig = vec![0; 101];
    assert_eq!(
        pair_error(bad, psbtin(7), None),
        "Invalid input: script_sig script too large: 101 bytes (max 100)"
    );
    assert_eq!(
        pair_error(txin(&txid), psbtin(1_000_001), None),
        "Invalid input: Amount out of range: 1000001 sats (max 1000000)"
    );
    let mut bad = psbtin(1);
    bad.redeem_script = Some(Vec::new());
    assert_eq!(
        pair_error(txin(&txid), bad, None),
        "Invalid input: redeem_script script is empty"
    );
    let mut bad = psbtin(1);
    bad.witness_script = Some(Vec::new());
    assert_eq!(
        pair_error(txin(&txid), bad, None),
        "Invalid input: witness_script script is empty"
    );
    assert_eq!(
        pair_error(txin(&txid), psbtin(1), Some(Weight { weight_units: 4_001 })),
        "Invalid input: Weight out of range: 4001 wu (max 4000)"
    );
    let mut bad = psbtin(1);
    bad.witness_utxo = None;
    match InputPair::<Proto>::new(txin(&txid), bad, None) {
        Err(e @ InputPairError::InvalidPsbtInput(_)) => {
            assert_eq!(e.message(), "Invalid PSBT input: no utxo")
        }
        _ => panic!("expected the protocol to refuse"),
    }
}

#[test]
fn inputs_are_selected_and_contributed() {
    let mut buf = ReceiverEventBuffer::<Proto>::new(&mut BufferIds::new());
    let s = WantsInputs::<Proto>("s".to_string());
    let pairs = |names: &[&str]| -> Vec<InputPair<Proto>> {
        names.iter().map(|n| InputPair(n.to_string())).collect()
    };
    assert_eq!(s.try_preserving_privacy(pairs(&["unfit", "b"])).ok().expect("one").0, "b");
    assert_eq!(s.try_preserving_privacy(pairs(&["unfit"])).err().expect("none").message(), "not found");
    let next = s.contribute_inputs(pairs(&["a", "b"])).ok().expect("added");
    assert_eq!(next.0, "s>a,b");
    assert_eq!(
        s.contribute_inputs(pairs(&["too small"])).err().expect("refused").message(),
        "value too low"
    );
    assert_eq!(next.commit_inputs(&mut buf).0, "s>a,b>inputs");
    assert_eq!(buf.len(), 1);
}

#[test]
fn fees_are_given_in_sats_per_vbyte() {
    let mut buf = ReceiverEventBuffer::<Proto>::new(&mut BufferIds::new());
    let s = WantsFeeRange::<Proto>("s".to_string());
    let p = s.apply_fee_range(Some(1), Some(2), &mut buf).ok().expect("applied");
    assert_eq!(p.0, "s>Some(250) Some(500)");
    assert_eq!(s.apply_fee_range(None, None, &mut buf).ok().expect("applied").0, "s>None None");
    assert_eq!(buf.len(), 2);
    assert!(matches!(
        s.apply_fee_range(Some(101), None, &mut buf),
        Err(ReceiverApiError::InputValidation(_))
    ));
    assert!(matches!(
        s.apply_fee_range(None, Some(101), &mut buf),
        Err(ReceiverApiError::InputValidation(_))
    ));
    assert_eq!(buf.len(), 2);
    assert!(matches!(
        s.apply_fee_range(None, Some(0), &mut buf),
        Err(ReceiverApiError::Fatal { kind: ReceiverErrorKind::Protocol, .. })
    ));
    assert_eq!(buf.len(), 3);
}

/// Signs by handing back a text.
struct Signs(Result<String, &'static str>);

impl ProcessPsbt for Signs {
    fn callback(&self, psbt: String) -> Result<String, ForeignError> {
        assert_eq!(psbt, psbt_text());
        self.0.clone().map_err(|m| ForeignError::InternalError(m.to_string()))
    }
}

#[test]
fn a_proposal_waits_for_the_event_that_finalized_it() {
    let mut ids = BufferIds::new();
    let mut buf = ReceiverEventBuffer::<Proto>::after_replay(&mut ids, 4);
    let s = ProvisionalProposal::<Proto>("s".to_string());
    assert_eq!(s.psbt_to_sign(), psbt_text());
    let mut p = s.finalize_proposal(&Signs(Ok(psbt_text())), &mut buf).ok().expect("signed");
    assert_eq!(p.confirm(&buf).err(), Some(ProvisionalConfirmError::NotYetPersisted));
    buf.commit(1);
    assert_eq!(p.confirm(&buf).ok().expect("durable").0, "s>signed");
    assert_eq!(p.confirm(&buf).err(), Some(ProvisionalConfirmError::AlreadyConsumed));

    let mut p = s.finalize_signed_proposal(psbt_text(), &mut buf).ok().expect("signed");
    let other = ReceiverEventBuffer::<Proto>::after_replay(&mut ids, 100);
    assert_eq!(p.confirm(&other).err(), Some(ProvisionalConfirmError::WrongBuffer));
    buf.commit(1);
    assert!(p.confirm(&buf).is_ok());
}

#[test]
fn a_signature_that_fails_can_be_retried() {
    let mut buf = ReceiverEventBuffer::<Proto>::new(&mut BufferIds::new());
    let s = ProvisionalProposal::<Proto>("s".to_string());
    match s.finalize_proposal(&Signs(Err("locked")), &mut buf) {
        Err(ReceiverApiError::Transient { kind, msg }) => {
            assert_eq!(kind, ReceiverErrorKind::Implementation);
            assert_eq!(msg, "Implementation error: Internal error: locked");
        }
        _ => panic!("expected a transient error"),
    }
    let parse_error = "rubbish".parse::<bitcoin::Psbt>().expect_err("no psbt").to_string();
    match s.finalize_proposal(&Signs(Ok("rubbish".to_string())), &mut buf) {
        Err(ReceiverApiError::Transient { msg, .. }) => {
            assert_eq!(msg, format!("Implementation error: {parse_error}"))
        }
        _ => panic!("expected a transient error"),
    }
    match s.finalize_signed_proposal("rubbish".to_string(), &mut buf) {
        Err(ReceiverApiError::Transient { msg, .. }) => {
            assert_eq!(msg, format!("Implementation error: {parse_error}"))
        }
        _ => panic!("expected a transient error"),
    }
    assert!(buf.is_empty());
}

#[test]
fn a_proposal_is_posted() {
    let mut buf = ReceiverEventBuffer::<Proto>::new(&mut BufferIds::new());
    let s = PayjoinProposal::<Proto>("s".to_string());
    let coins = s.utxos_to_be_locked();
    assert_eq!(coins.len(), 2);
    assert_eq!((coins[0].txid.clone(), coins[0].vout), ("07".repeat(32), 1));
    assert_eq!((coins[1].txid.clone(), coins[1].vout), ("01".repeat(32), 0));
    assert_eq!(s.psbt(), psbt_text());
    let req = s.create_post_request(RELAY.to_string()).ok().expect("made");
    assert_eq!(req.request.body, b"post s".to_vec());
    match s.create_post_request(String::new()) {
        Err(e @ ReceiverError::Unexpected) => {
            assert_eq!(e.message(), "An unexpected error occurred")
        }
        _ => panic!("expected an unexpected error"),
    }
    let monitor = s.process_response(b"ok", &req.client_response, &mut buf).ok().expect("ok");
    assert_eq!(monitor.0, "s>posted");
    match s.process_response(b"?", &req.client_response, &mut buf) {
        Err(e) => assert_eq!(e.message(), "Transient Protocol error: Protocol error: again"),
        Ok(_) => panic!("expected an error"),
    }
    assert_eq!(buf.len(), 1);
}

#[test]
fn errors_are_replied() {
    let mut buf = ReceiverEventBuffer::<Proto>::new(&mut BufferIds::new());
    let s = HasReplyableError::<Proto>("s".to_string());
    let req = s.create_error_request(RELAY.to_string()).ok().expect("made");
    assert_eq!(req.request.body, b"s".to_vec());
    assert_eq!(s.create_error_request(String::new()).err().expect("expired").message(), "expired");
    assert!(s.process_error_response(b"ok", &req.client_response, &mut buf).is_ok());
    assert_eq!(buf.len(), 1);
    match s.process_error_response(b"?", &req.client_response, &mut buf) {
        Err(e) => assert_eq!(e.message(), "Fatal Protocol error: Protocol error: no"),
        Ok(_) => panic!("expected an error"),
    }
    let reply = JsonReply::<Proto>::from_protocol_error(ProtocolError { msg: "m".to_string() });
    assert_eq!(reply.0, "{m}");
}

/// Looks up by handing back bytes.
struct Finds(Result<Option<Vec<u8>>, &'static str>);

impl TransactionExists for Finds {
    fn callback(&self, txid: String) -> Result<Option<Vec<u8>>, ForeignError> {
        assert_eq!(txid, "03".repeat(32));
        self.0.clone().map_err(|m| ForeignError::InternalError(m.to_string()))
    }
}

#[test]
fn the_payment_is_watched_for() {
    let mut buf = ReceiverEventBuffer::<Proto>::new(&mut BufferIds::new());
    let s = Monitor::<Proto>("s".to_string());
    assert_eq!(s.extract_fallback_txid(), "03".repeat(32));
    assert_eq!(s.extract_payjoin_proposal_txid(), "04".repeat(32));
    assert!(matches!(
        s.check_payment(&Finds(Ok(Some(tx_bytes()))), &mut buf),
        Ok(MonitorTransitionOutcome::Progress)
    ));
    assert_eq!(buf.len(), 1);
    match s.check_payment(&Finds(Ok(None)), &mut buf) {
        Ok(MonitorTransitionOutcome::Stasis { inner }) => assert_eq!(inner.0, "s"),
        _ => panic!("expected stasis"),
    }
    match s.check_payment(&Finds(Err("down")), &mut buf) {
        Err(ReceiverApiError::Transient { msg, .. }) => {
            assert_eq!(msg, "Implementation error: Internal error: down")
        }
        _ => panic!("expected a transient error"),
    }
    match s.check_payment(&Finds(Ok(Some(vec![1, 2]))), &mut buf) {
        Err(ReceiverApiError::Transient { msg, .. }) => {
            assert!(msg.starts_with("Implementation error: Internal error: "))
        }
        _ => panic!("expected a transient error"),
    }
    assert!(matches!(
        s.check_fallback_monitorable(&mut buf),
        Ok(MonitorTransitionOutcome::Stasis { .. })
    ));
    assert_eq!(buf.len(), 1);
    assert!(matches!(s.fallback_tx_exists(&mut buf), Ok(MonitorTransitionOutcome::Progress)));
    assert!(matches!(
        s.payjoin_tx_exists(tx_bytes(), &mut buf),
        Ok(MonitorTransitionOutcome::Progress)
    ));
    assert_eq!(buf.len(), 3);
    match s.payjoin_tx_exists(vec![1, 2], &mut buf) {
        Err(e @ ReceiverApiError::InputDeserialization { .. }) => {
            assert!(e.message().starts_with("Input deserialization error: Internal error: "))
        }
        _ => panic!("expected undecodable bytes"),
    }
    assert_eq!(buf.len(), 3);
}

#[test]
fn a_stored_log_is_parsed_and_replayed() {
    let raw = |tags: &[&str]| -> Vec<String> { tags.iter().map(|t| t.to_string()).collect() };
    let events =
        parse_receiver_events::<Proto>(raw(&["advanced:created", "advanced:seen"])).ok().expect("ok");
    let result = replay_receiver_event_log(events).ok().expect("replayed");
    assert_eq!(result.event_count(), 2);
    assert!(matches!(result.state(), ReceiveSession::MaybeInputsSeen { inner } if inner.0 == "state seen"));
    assert_eq!(result.session_history().pj_uri().uri, "bitcoin:log of 2");
    assert_eq!(result.session_history().fallback_tx(), Some(b"log of 2".to_vec()));
    assert_eq!(result.session_history().status().0, "status of log of 2");
    let buf = result.new_event_buffer(&mut BufferIds::new());
    assert_eq!((buf.len(), buf.committed_count()), (0, 2));

    // The first event that cannot be read decides.
    match parse_receiver_events::<Proto>(raw(&["advanced:a", "x", "y"])) {
        Err(e @ ReceiverReplayError::StorageSerde(_)) => {
            assert_eq!(e.message(), "Stored event JSON deserialization error: unexpected: x")
        }
        _ => panic!("expected an unreadable event"),
    }
    match replay_receiver_event_log::<Proto>(Vec::new()) {
        Err(e @ ReceiverReplayError::Replay(_)) => {
            assert_eq!(e.message(), "Replay error: no events")
        }
        _ => panic!("expected a replay error"),
    }
}

#[test]
fn a_log_replays_into_every_state() {
    let state = |tag: &str| -> ReceiveSession<Proto> {
        let log = vec![ReceiverSessionEvent(advanced(tag))];
        replay_receiver_event_log(log).ok().expect("replayed").into_parts().0
    };
    assert!(matches!(state("created"), ReceiveSession::Initialized { .. }));
    assert!(matches!(state("unchecked"), ReceiveSession::UncheckedOriginalPayload { .. }));
    assert!(matches!(state("owned"), ReceiveSession::MaybeInputsOwned { .. }));
    assert!(matches!(state("unknown"), ReceiveSession::OutputsUnknown { .. }));
    assert!(matches!(state("outputs"), ReceiveSession::WantsOutputs { .. }));
    assert!(matches!(state("inputs"), ReceiveSession::WantsInputs { .. }));
    assert!(matches!(state("fees"), ReceiveSession::WantsFeeRange { .. }));
    assert!(matches!(state("provisional"), ReceiveSession::ProvisionalProposal { .. }));
    assert!(matches!(state("proposal"), ReceiveSession::PayjoinProposal { .. }));
    assert!(matches!(state("error"), ReceiveSession::HasReplyableError { .. }));
    assert!(matches!(state("monitor"), ReceiveSession::Monitor { .. }));
    let log = vec![ReceiverSessionEvent::<Proto>(SessionEvent::Closed(SessionOutcome::Cancel))];
    match replay_receiver_event_log(log).ok().expect("replayed").into_parts().0 {
        ReceiveSession::Closed { inner } => assert_eq!(inner.inner.name_text(), "Cancel"),
        _ => panic!("expected a closed session"),
    }
}

#[test]
fn receiver_events_read_back_from_their_text() {
    let event = ReceiverSessionEvent::<Proto>(advanced("x"));
    let json = event.to_json().expect("written");
    let back = ReceiverSessionEvent::<Proto>::from_json(json.clone()).ok().expect("read");
    assert_eq!(back.to_json().expect("written"), json);
    match ReceiverSessionEvent::<Proto>::from_json("x".to_string()) {
        Err(e) => assert_eq!(e.message(), "Error de/serializing JSON object: unexpected: x"),
        Ok(_) => panic!("expected an error"),
    }
}

#[test]
fn receiver_errors_tell_their_kind() {
    let url = ReceiverError::from(IntoUrlError { msg: "u".to_string() });
    assert_eq!(url.message(), "IntoUrl error: u");
    assert_eq!(ReceiverErrorKind::from_receiver_error(&url), ReceiverErrorKind::IntoUrl);
    let odd = ReceiverError::from(ReceiveFailure {
        cause: ReceiveCause::Other,
        msg: "o".to_string(),
    });
    assert_eq!(ReceiverErrorKind::from_receiver_error(&odd), ReceiverErrorKind::Unexpected);
    let own = ReceiverError::from(ImplementationError { msg: "i".to_string() });
    assert_eq!(own.message(), "Implementation error: i");
    assert_eq!(ReceiverErrorKind::from_receiver_error(&own), ReceiverErrorKind::Implementation);
}

#[test]
fn every_move_of_a_receiver_is_recorded_by_one_event() {
    let mut buf = ReceiverEventBuffer::<Proto>::new(&mut BufferIds::new());
    let s = Initialized::<Proto>("s".to_string());
    let ctx = "ctx".to_string();
    assert!(s.process_response(b"none", &ctx, &mut buf).is_ok());
    assert!(s.process_response(b"later", &ctx, &mut buf).is_err());
    assert_eq!(buf.len(), 0);
    assert!(matches!(
        s.process_response(b"p", &ctx, &mut buf),
        Ok(InitializedTransitionOutcome::Progress { .. })
    ));
    assert_eq!(buf.len(), 1);
    assert!(matches!(
        s.process_response(b"broken", &ctx, &mut buf),
        Err(ReceiverApiError::Fatal { .. })
    ));
    assert_eq!(buf.len(), 2);
    assert!(matches!(buf.peek()[1].0, SessionEvent::Closed(SessionOutcome::Failure)));

    let hopeless = UncheckedOriginalPayload::<Proto>("hopeless".to_string());
    assert!(matches!(
        hopeless.apply_broadcast_suitability(None, false, &mut buf),
        Err(ReceiverApiError::Fatal { .. })
    ));
    assert_eq!(buf.len(), 3);
    assert!(matches!(buf.peek()[2].0, SessionEvent::Closed(SessionOutcome::Failure)));
}

#[test]
fn no_two_buffers_share_an_id() {
    let mut ids = BufferIds::new();
    assert!(!ids.is_exhausted());
    assert_eq!((ids.fresh(), ids.fresh(), ids.fresh()), (0, 1, 2));

    let mut first = ReceiverEventBuffer::<Proto>::new(&mut ids);
    let second = ReceiverEventBuffer::<Proto>::new(&mut ids);
    let mut p = builder().build(&mut first);
    assert_eq!(p.confirm(&second).err(), Some(ProvisionalConfirmError::WrongBuffer));
    first.commit(1);
    assert_eq!(p.confirm(&second).err(), Some(ProvisionalConfirmError::WrongBuffer));
    assert!(p.confirm(&first).is_ok());
}

#[test]
fn signed_beforehand_or_on_request_is_one_to_the_protocol() {
    for text in [psbt_text(), "no PSBT".to_string()] {
        let on_request = ForeignSigner(&Signs(Ok(text.clone()))).sign(&psbt());
        let beforehand = AlreadySigned(&text).sign(&psbt());
        match (on_request, beforehand) {
            (Ok(a), Ok(b)) => {
                assert_eq!(a.to_base64(), psbt_text());
                assert_eq!(b.to_base64(), psbt_text());
            }
            (Err(a), Err(b)) => {
                assert_eq!(text, "no PSBT");
                assert_eq!(a.message(), b.message());
            }
            _ => panic!("the two disagree on {text}"),
        }
    }
}

#[test]
fn what_is_marked_is_what_would_be_answered() {
    for known in [true, false] {
        let says = Says(Ok(known));
        let coins = MaybeInputsSeen::<Proto>("s".to_string()).get_input_outpoint_refs();
        let tagged = coins[0].mark(known);
        let answer = ForeignKnown(&says).check(&tagged.0.value).expect("answered");
        assert_eq!(answer, tagged.get_result());

        let reference = Reference { value: b"input".to_vec(), index: 0 };
        let tagged = InputOwnedReference(reference).mark(known);
        let answer = ForeignOwned(&says).check(&tagged.0.value).expect("answered");
        assert_eq!(answer, tagged.get_result());
    }
}

#[test]
fn a_processed_original_leaves_nine_events() {
    let mut s = answered(Wallet::good(), b"p");
    let saved = batch(s.poll());
    assert_eq!(saved.len(), 9);
    assert_eq!(saved[0], "original");
    assert_eq!(saved[8], "finalized");
}

#[test]
fn marking_and_asking_agree() {
    for answer in [true, false] {
        let says = Says(Ok(answer));
        let mut buf = ReceiverEventBuffer::<Proto>::new(&mut BufferIds::new());

        let s = MaybeInputsOwned::<Proto>("s".to_string());
        let refs = s.get_input_script_refs().ok().expect("scripts");
        let marked = refs.iter().map(|r| r.mark(answer)).collect();
        let asked = s.check_inputs_not_owned(&says, &mut buf);
        assert_eq!(asked.is_ok(), !answer);
        assert_eq!(s.apply_input_owned_checks(marked, &mut buf).is_ok(), !answer);

        let s = MaybeInputsSeen::<Proto>("s".to_string());
        let marked = s.get_input_outpoint_refs().iter().map(|r| r.mark(answer)).collect();
        assert_eq!(s.check_no_inputs_seen_before(&says, &mut buf).is_ok(), !answer);
        assert_eq!(s.apply_input_seen_checks(marked, &mut buf).is_ok(), !answer);

        let s = OutputsUnknown::<Proto>("s".to_string());
        let marked = s.get_output_script_refs().iter().map(|r| r.mark(answer)).collect();
        assert_eq!(s.identify_receiver_outputs(&says, &mut buf).is_ok(), answer);
        assert_eq!(s.apply_output_owned_checks(marked, &mut buf).is_ok(), answer);
    }
}

#[test]
fn both_ways_to_sign_agree() {
    let s = ProvisionalProposal::<Proto>("s".to_string());
    for text in [psbt_text(), "no PSBT".to_string()] {
        let mut ids = BufferIds::new();
        let mut first = ReceiverEventBuffer::<Proto>::new(&mut ids);
        let mut second = ReceiverEventBuffer::<Proto>::new(&mut ids);
        let on_request = s.finalize_proposal(&Signs(Ok(text.clone())), &mut first);
        let beforehand = s.finalize_signed_proposal(text.clone(), &mut second);
        assert_eq!(first.peek_json().expect("written"), second.peek_json().expect("written"));
        match (on_request, beforehand) {
            (Ok(mut p), Ok(mut q)) => {
                first.commit(1);
                second.commit(1);
                let p = p.confirm(&first).ok().expect("durable");
                let q = q.confirm(&second).ok().expect("durable");
                assert_eq!(p.0, q.0);
            }
            (Err(e), Err(f)) => {
                assert_eq!(text, "no PSBT");
                assert_eq!(e.message(), f.message());
                assert!(first.is_empty());
            }
            _ => panic!("the two disagree on {text}"),
        }
    }
}

#[test]
fn queued_events_are_written_as_json() {
    let mut buf = ReceiverEventBuffer::<Proto>::new(&mut BufferIds::new());
    assert_eq!(buf.peek_json().expect("written"), Vec::<String>::new());
    let s = UncheckedOriginalPayload::<Proto>("s".to_string());
    s.assume_interactive_receiver(&mut buf);
    WantsOutputs::<Proto>("s".to_string()).commit_outputs(&mut buf);
    let texts = vec!["advanced:assumed".to_string(), "advanced:outputs".to_string()];
    assert_eq!(buf.peek_json().expect("written"), texts);
    assert_eq!(buf.len(), 2);
    // One event that cannot be written decides.
    s.cancel(&mut buf);
    assert_eq!(buf.peek_json().expect_err("closed").msg, "closed");
}
