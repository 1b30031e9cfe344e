//! The sender role, on a protocol that answers by what it is fed.
use bitcoin::{
    absolute, transaction, Amount, OutPoint, ScriptBuf, Sequence, Transaction, TxIn, TxOut, Witness,
};
use payjoin_session::chain::Psbt;
use payjoin_session::error::{FfiValidationError, ProvisionalConfirmError};
use payjoin_session::persist::{Advance, ApiError, OptionalTransition, Transition};
use payjoin_session::runtime::error::Error;
use payjoin_session::runtime::sender::{SenderSession, SenderStep};
use payjoin_session::send::buffer::{SenderEventBuffer, SenderSessionEvent};
use payjoin_session::send::engine::{
    CoreSendSession, PollReply, PostReply, SenderEngine, SenderEvent, SenderParams, SenderStates,
    SenderTerms, SessionOutcome,
};
use payjoin_session::send::error::{
    BuildFailure, CreateRequestError, EncapsulationError, PsbtParseError, ResponseCause,
    ResponseError, ResponseFailure, SenderApiError, SenderErrorKind, SenderInputError,
    SenderReplayError, ValidationError, WellKnownError,
};
use payjoin_session::send::replay::{replay_sender_event_log, SendSession, SenderSessionOutcome};
use payjoin_session::send::states::{
    PollingForProposal, PollingForProposalTransitionOutcome, SenderBuilder, V1Context, WithReplyKey,
};
use payjoin_session::session::{PjUri, ReplayError, Request, SessionEvent};
use payjoin_session::staging::BufferIds;
use payjoin_session::text::Message;
use payjoin_session::validation::InputRules;

#[derive(Debug)]
struct Proto;

impl SenderStates for Proto {
    type Payload = String;
    type WithReplyKey = String;
    type PollingForProposal = u32;
    type Context = String;
    type History = usize;
    type Status = String;
    type PjParam = String;
    type V1Context = String;
}

impl InputRules for Proto {
    fn amount_sat(amount_sat: u64) -> Result<(), FfiValidationError> {
        if amount_sat <= 2_100_000_000_000_000 {
            Ok(())
        } else {
            Err(FfiValidationError::AmountOutOfRange {
                amount_sat,
                max_sat: 2_100_000_000_000_000,
            })
        }
    }
    fn expiration_secs(_seconds: u64) -> Result<(), FfiValidationError> {
        Ok(())
    }
    fn fee_rate_sat_per_kwu(value: u64) -> Result<(), FfiValidationError> {
        if value < 1_000_000 {
            Ok(())
        } else {
            Err(FfiValidationError::FeeRateOutOfRange { value, unit: "sat/kwu".to_string() })
        }
    }
    fn fee_rate_sat_per_vb(value: u64) -> Result<u64, FfiValidationError> {
        Ok(value * 250)
    }
    fn script(_f: &str, _s: &Vec<u8>, _e: bool) -> Result<(), FfiValidationError> {
        Ok(())
    }
    fn optional_script(_f: &str, _s: &Vec<u8>) -> Result<(), FfiValidationError> {
        Ok(())
    }
    fn witness_stack(_w: &Vec<Vec<u8>>) -> Result<(), FfiValidationError> {
        Ok(())
    }
    fn weight_units(_w: u64) -> Result<(), FfiValidationError> {
        Ok(())
    }
}

fn created(tag: String) -> Result<Advance<String, String>, BuildFailure> {
    if tag.contains("refuse") {
        Err(BuildFailure { msg: "refused".to_string() })
    } else {
        Ok(Advance { event: format!("created {tag}"), state: tag })
    }
}

fn request(url: &String, body: &str) -> Request {
    Request {
        url: url.clone(),
        content_type: "message/ohttp-req".to_string(),
        body: body.as_bytes().to_vec(),
    }
}

impl SenderEngine for Proto {
    fn build_recommended(
        params: &SenderParams,
        min_fee_rate: u64,
    ) -> Result<Advance<String, String>, BuildFailure> {
        created(format!(
            "recommended {} {min_fee_rate} {}",
            params.uri.uri, params.disable_output_substitution
        ))
    }
    fn build_with_additional_fee(
        params: &SenderParams,
        max: u64,
        change_index: Option<usize>,
        min_fee_rate: u64,
        clamp: bool,
    ) -> Result<Advance<String, String>, BuildFailure> {
        created(format!("fee {} {max} {change_index:?} {min_fee_rate} {clamp}", params.uri.uri))
    }
    fn build_non_incentivizing(
        params: &SenderParams,
        min_fee_rate: u64,
    ) -> Result<Advance<String, String>, BuildFailure> {
        created(format!("plain {} {min_fee_rate}", params.uri.uri))
    }
    fn create_v2_post_request(
        session: &String,
        relay: &String,
    ) -> Result<(Request, String), CreateRequestError> {
        if relay.is_empty() {
            Err(CreateRequestError { msg: "no relay".to_string() })
        } else {
            Ok((request(relay, session), format!("ctx of {session}")))
        }
    }
    fn process_post_response(
        session: &String,
        response: &[u8],
        ctx: &String,
    ) -> PostReply<Self> {
        assert_eq!(ctx, &format!("ctx of {session}"));
        match response {
            b"ok" => Transition::Success(SessionEvent::Advanced("posted".to_string()), 0),
            b"transient" => Transition::Transient(EncapsulationError { msg: "again".to_string() }),
            _ => Transition::Fatal(EncapsulationError { msg: "broken".to_string() }),
        }
    }
    fn create_poll_request(
        session: &u32,
        relay: &String,
    ) -> Result<(Request, String), CreateRequestError> {
        if relay.is_empty() {
            Err(CreateRequestError { msg: "no relay".to_string() })
        } else {
            Ok((request(relay, &format!("poll {session}")), format!("ctx {session}")))
        }
    }
    fn process_poll_response(
        session: &u32,
        response: &[u8],
        _ctx: &String,
    ) -> PollReply<Self> {
        if response == b"none" {
            return OptionalTransition::Stasis(session + 1);
        }
        match Psbt::parse(String::from_utf8_lossy(response).to_string()) {
            Ok(psbt) => OptionalTransition::Progress(
                SessionEvent::Closed(SessionOutcome::Success(psbt.clone())),
                psbt,
            ),
            Err(msg) => {
                let failure = ResponseFailure {
                    cause: ResponseCause::Validation(ValidationError { msg: msg.clone() }),
                    msg: "bad answer".to_string(),
                };
                if response == b"later" {
                    OptionalTransition::Transient(failure)
                } else {
                    OptionalTransition::Fatal(failure)
                }
            }
        }
    }
    fn replay_event_log(
        events: Vec<SenderEvent<Self>>,
    ) -> Result<(CoreSendSession<Self>, usize), ReplayError> {
        let n = events.len();
        let mut session: Option<CoreSendSession<Self>> = None;
        for event in events {
            session = Some(match (session, event) {
                (None, SessionEvent::Advanced(tag)) => CoreSendSession::WithReplyKey(tag),
                (Some(_), SessionEvent::Advanced(_)) => CoreSendSession::PollingForProposal(7),
                (_, SessionEvent::Closed(outcome)) => CoreSendSession::Closed(outcome),
            });
        }
        match session {
            Some(session) => Ok((session, n)),
            None => Err(ReplayError {
                display: "no events".to_string(),
                debug: "NoEvents".to_string(),
            }),
        }
    }
    fn event_from_json(json: &String) -> Result<SenderEvent<Self>, String> {
        match json.strip_prefix("advanced:") {
            Some(tag) => Ok(SessionEvent::Advanced(tag.to_string())),
            None => Err(format!("unexpected: {json}")),
        }
    }
    fn event_to_json(event: &SenderEvent<Self>) -> Result<String, String> {
        match event {
            SessionEvent::Advanced(tag) => Ok(format!("advanced:{tag}")),
            SessionEvent::Closed(_) => Err("closed events have no text here".to_string()),
        }
    }
    fn terms_with_reply_key(session: &String) -> SenderTerms {
        SenderTerms { endpoint: format!("mailbox of {session}"), expiration_unix_secs: 99 }
    }
    fn terms_polling(session: &u32) -> SenderTerms {
        SenderTerms { endpoint: format!("mailbox {session}"), expiration_unix_secs: 98 }
    }
    fn fallback_with_reply_key(_session: &String) -> Vec<u8> {
        vec![1]
    }
    fn fallback_polling(_session: &u32) -> Vec<u8> {
        vec![2]
    }
    fn history_fallback_tx(history: &usize) -> Vec<u8> {
        vec![*history as u8]
    }
    fn history_pj_param(history: &usize) -> String {
        format!("pj{history}")
    }
    fn history_status(history: &usize) -> String {
        format!("after {history}")
    }
    fn process_v1_response(ctx: &String, response: &[u8]) -> Result<Psbt, ResponseFailure> {
        Psbt::parse(String::from_utf8_lossy(response).to_string()).map_err(|_| ResponseFailure {
            cause: ResponseCause::Unrecognized {
                error_code: ctx.clone(),
                message: "strange".to_string(),
            },
            msg: "strange answer".to_string(),
        })
    }
}

const RELAY: &str = "https://relay.example/";

fn psbt_text(value_in: Option<u64>) -> String {
    let tx = Transaction {
        version: transaction::Version::TWO,
        lock_time: absolute::LockTime::ZERO,
        input: vec![TxIn {
            previous_output: OutPoint::null(),
            script_sig: ScriptBuf::new(),
            sequence: Sequence::MAX,
            witness: Witness::new(),
        }],
        output: vec![TxOut {
            value: Amount::from_sat(900),
            script_pubkey: ScriptBuf::from(vec![0x51]),
        }],
    };
    let mut psbt = bitcoin::Psbt::from_unsigned_tx(tx).expect("unsigned");
    psbt.inputs[0].witness_utxo = value_in.map(|v| TxOut {
        value: Amount::from_sat(v),
        script_pubkey: ScriptBuf::from(vec![0x51]),
    });
    psbt.inputs[0].final_script_witness = Some(Witness::from_slice(&[vec![1u8]]));
    psbt.to_string()
}

fn psbt() -> Psbt {
    Psbt::parse(psbt_text(Some(1_000))).expect("parses")
}

fn uri(text: &str) -> PjUri {
    PjUri { uri: text.to_string() }
}

fn new_session(relay: &str) -> SenderSession<Proto> {
    SenderSession::new(psbt(), uri("bitcoin:x"), relay.to_string(), 250).expect("built")
}

fn saved(step: SenderStep<Proto>) -> Vec<SenderEvent<Proto>> {
    match step {
        SenderStep::Save(events) => events,
        _ => panic!("expected events to save"),
    }
}

fn sent(step: SenderStep<Proto>) -> Request {
    match step {
        SenderStep::SendRequest(request) => request,
        _ => panic!("expected a request"),
    }
}

fn failure(step: SenderStep<Proto>) -> Error {
    match step {
        SenderStep::Failed(e) => e,
        _ => panic!("expected a failure"),
    }
}

fn payjoin_error(e: Error) -> String {
    match e {
        Error::Payjoin(msg) => msg,
        other => panic!("expected a protocol error, got {other:?}"),
    }
}

/// Drives a new session to where it polls for the proposal.
fn polling_session() -> SenderSession<Proto> {
    let mut s = new_session(RELAY);
    saved(s.poll());
    sent(s.poll());
    s.feed_response(b"ok".to_vec()).expect("fed");
    saved(s.poll());
    s
}

/// Drives a new session to where it waits for the signature.
fn signing_session() -> SenderSession<Proto> {
    let mut s = polling_session();
    sent(s.poll());
    s.feed_response(psbt_text(Some(1_000)).into_bytes()).expect("fed");
    saved(s.poll());
    s
}

#[test]
fn sender_resume_from_empty_log_errors() {
    let outcome = SenderSession::<Proto>::resume_from_events(
        Vec::<SenderEvent<Proto>>::new(),
        "https://relay.example/".to_string(),
        250,
    );
    assert!(
        matches!(outcome, Err(Error::Payjoin(_))),
        "expected Payjoin error for empty log, got {:?}",
        outcome.as_ref().err()
    );
}

#[test]
fn sender_resume_from_closed_failure_lands_in_failed() {
    // A single-event log that says that the session closed with a failure.
    let events = vec![SessionEvent::Closed(SessionOutcome::Failure)];

    // Either the session lands in its failure or the log is refused: what
    // matters is that resuming does not panic.
    let outcome = SenderSession::<Proto>::resume_from_events(
        events,
        "https://relay.example/".to_string(),
        250,
    );

    match outcome {
        Ok(mut session) => {
            assert!(session.final_tx().is_none());
            match session.poll() {
                SenderStep::Failed(_) => {}
                _ => panic!("expected Failed after closed-failure resume"),
            }
        }
        Err(Error::Payjoin(_)) => {}
        Err(other) => panic!("unexpected error: {other:?}"),
    }
}

#[test]
fn a_session_runs_to_its_transaction() {
    let mut s = new_session(RELAY);
    assert_eq!(saved(s.poll()).len(), 1);
    let req = sent(s.poll());
    assert_eq!(req.url, RELAY);
    assert_eq!(req.body, b"recommended bitcoin:x 250 false".to_vec());
    s.feed_response(b"ok".to_vec()).expect("fed");
    assert!(matches!(saved(s.poll())[0], SessionEvent::Advanced(ref e) if e == "posted"));
    sent(s.poll());
    s.feed_response(b"none".to_vec()).expect("fed");
    assert!(matches!(s.poll(), SenderStep::Backoff));
    assert_eq!(sent(s.poll()).body, b"poll 1".to_vec());
    s.feed_response(psbt_text(Some(1_000)).into_bytes()).expect("fed");
    assert_eq!(saved(s.poll()).len(), 1);
    let proposal = match s.poll() {
        SenderStep::SignAndFinalize(psbt) => psbt,
        _ => panic!("expected the proposal"),
    };
    // The proposal is asked for until it comes.
    assert!(matches!(s.poll(), SenderStep::SignAndFinalize(_)));
    assert!(s.final_tx().is_none());
    assert!(s.fee().is_none());
    s.feed_signed_psbt(proposal).expect("fed");
    assert!(matches!(s.poll(), SenderStep::Done));
    let tx: Transaction =
        bitcoin::consensus::deserialize(s.final_tx().expect("done")).expect("a transaction");
    assert_eq!(tx.output[0].value.to_sat(), 900);
    assert_eq!(s.fee(), Some(100));
    // The end is reported once, and nothing moves it.
    assert!(matches!(failure(s.poll()), Error::Terminated));
    assert!(matches!(s.feed_response(Vec::new()), Err(Error::Terminated)));
    assert!(matches!(s.feed_signed_psbt(psbt()), Err(Error::Terminated)));
    assert!(matches!(failure(s.poll()), Error::Terminated));
    assert_eq!(s.fee(), Some(100));
}

#[test]
fn events_are_saved_before_anything_is_sent() {
    let mut s = new_session(RELAY);
    assert!(matches!(s.poll(), SenderStep::Save(_)));
    assert!(matches!(s.poll(), SenderStep::SendRequest(_)));
    s.feed_response(b"broken".to_vec()).expect("fed");
    // Even the events of a failure come first.
    assert!(matches!(
        saved(s.poll())[0],
        SessionEvent::Closed(SessionOutcome::Failure)
    ));
    assert_eq!(payjoin_error(failure(s.poll())), "fatal: broken");
    assert!(matches!(failure(s.poll()), Error::Terminated));
}

#[test]
fn a_transient_error_is_told_apart() {
    let mut s = new_session(RELAY);
    saved(s.poll());
    sent(s.poll());
    s.feed_response(b"transient".to_vec()).expect("fed");
    assert_eq!(payjoin_error(failure(s.poll())), "transient: again");
}

#[test]
fn an_error_state_goes_into_the_message() {
    let with_state = ApiError::FatalWithState(EncapsulationError { msg: "worse".to_string() }, ());
    assert_eq!(payjoin_error(Error::from_api(with_state)), "fatal worse (())");
}

#[test]
fn an_answer_that_is_no_proposal_fails_the_session() {
    let mut s = polling_session();
    sent(s.poll());
    s.feed_response(b"rubbish".to_vec()).expect("fed");
    saved(s.poll());
    assert_eq!(payjoin_error(failure(s.poll())), "fatal: bad answer");
}

#[test]
fn one_backoff_per_empty_poll() {
    let mut s = polling_session();
    for _ in 0..3 {
        sent(s.poll());
        s.feed_response(b"none".to_vec()).expect("fed");
        assert!(matches!(s.poll(), SenderStep::Backoff));
    }
    sent(s.poll());
}

#[test]
fn polling_while_a_response_is_awaited_ends_the_session() {
    let mut s = new_session(RELAY);
    saved(s.poll());
    sent(s.poll());
    assert_eq!(payjoin_error(failure(s.poll())), "called poll() while awaiting a response");
    assert!(matches!(failure(s.poll()), Error::Terminated));
    assert!(matches!(s.feed_response(b"ok".to_vec()), Err(Error::Terminated)));

    let mut s = polling_session();
    sent(s.poll());
    assert_eq!(payjoin_error(failure(s.poll())), "called poll() while awaiting a response");
    assert!(matches!(failure(s.poll()), Error::Terminated));
}

#[test]
fn a_response_out_of_turn_fails_the_session() {
    let mut s = new_session(RELAY);
    s.feed_response(b"ok".to_vec()).expect("fed");
    saved(s.poll());
    assert_eq!(payjoin_error(failure(s.poll())), "feed_response called in an unexpected state");
}

#[test]
fn a_signature_out_of_turn_is_refused_and_changes_nothing() {
    let mut s = new_session(RELAY);
    let e = s.feed_signed_psbt(psbt()).expect_err("out of turn");
    assert_eq!(payjoin_error(e), "feed_signed_psbt called in an unexpected state");
    saved(s.poll());
    sent(s.poll());
}

#[test]
fn a_request_that_cannot_be_made_ends_the_session() {
    let mut s = new_session("");
    saved(s.poll());
    assert_eq!(payjoin_error(failure(s.poll())), "no relay");
    assert!(matches!(failure(s.poll()), Error::Terminated));
}

#[test]
fn a_poll_that_cannot_be_made_ends_the_session() {
    let mut s = SenderSession::<Proto>::resume_from_events(
        vec![
            SessionEvent::Advanced("a".to_string()),
            SessionEvent::Advanced("b".to_string()),
        ],
        String::new(),
        250,
    )
    .expect("resumed");
    assert_eq!(payjoin_error(failure(s.poll())), "no relay");
}

#[test]
fn a_session_that_is_refused_is_not_built() {
    let e = SenderSession::<Proto>::new(psbt(), uri("refuse"), RELAY.to_string(), 250)
        .err()
        .expect("refused");
    assert_eq!(payjoin_error(e), "refused");
}

#[test]
fn a_signed_psbt_without_a_fee_fails_the_session() {
    let mut s = signing_session();
    assert!(matches!(s.poll(), SenderStep::SignAndFinalize(_)));
    s.feed_signed_psbt(Psbt::parse(psbt_text(None)).expect("parses")).expect("fed");
    assert!(matches!(failure(s.poll()), Error::Payjoin(_)));
    assert!(s.final_tx().is_none());
}

#[test]
fn a_signed_psbt_with_an_absurd_fee_is_the_wallets_fault() {
    let mut s = signing_session();
    s.feed_signed_psbt(Psbt::parse(psbt_text(Some(100_000_000_000))).expect("parses"))
        .expect("fed");
    match failure(s.poll()) {
        Error::Wallet(msg) => assert!(msg.starts_with("extract_tx after signing: ")),
        other => panic!("expected a wallet error, got {other:?}"),
    }
}

#[test]
fn a_log_resumes_where_it_stopped() {
    let events = || {
        vec![SessionEvent::Advanced("a".to_string()), SessionEvent::Advanced("b".to_string())]
    };
    let mut log = events();
    log.pop();
    let mut s = SenderSession::<Proto>::resume_from_events(log, RELAY.to_string(), 250)
        .expect("resumed");
    assert_eq!(sent(s.poll()).body, b"a".to_vec());
    let mut s = SenderSession::<Proto>::resume_from_events(events(), RELAY.to_string(), 250)
        .expect("resumed");
    assert_eq!(sent(s.poll()).body, b"poll 7".to_vec());
}

#[test]
fn a_log_closed_with_success_asks_for_the_signature_again() {
    let log = vec![SessionEvent::Closed(SessionOutcome::Success(psbt()))];
    let mut s = SenderSession::<Proto>::resume_from_events(log, RELAY.to_string(), 250)
        .expect("resumed");
    let proposal = match s.poll() {
        SenderStep::SignAndFinalize(psbt) => psbt,
        _ => panic!("expected the proposal"),
    };
    assert_eq!(proposal.to_base64(), psbt_text(Some(1_000)));
    s.feed_signed_psbt(proposal).expect("fed");
    assert!(matches!(s.poll(), SenderStep::Done));
}

#[test]
fn a_log_closed_otherwise_says_how() {
    for (outcome, name) in
        [(SessionOutcome::Failure, "Failure"), (SessionOutcome::Cancel, "Cancel")]
    {
        let mut s = SenderSession::<Proto>::resume_from_events(
            vec![SessionEvent::Closed(outcome)],
            RELAY.to_string(),
            250,
        )
        .expect("resumed");
        assert_eq!(payjoin_error(failure(s.poll())), format!("session previously closed: {name}"));
    }
}

#[test]
fn an_empty_log_is_refused_with_its_diagnosis() {
    let e = SenderSession::<Proto>::resume_from_events(Vec::new(), RELAY.to_string(), 250)
        .err()
        .expect("refused");
    assert_eq!(payjoin_error(e), "NoEvents");
}

fn builder() -> SenderBuilder {
    SenderBuilder::new(psbt_text(Some(1_000)), uri("bitcoin:x")).expect("parses")
}

fn confirmed(buf: &mut SenderEventBuffer<Proto>) -> WithReplyKey<Proto> {
    let mut p = builder().build_recommended::<Proto>(250, buf).ok().expect("built");
    let n = buf.len();
    buf.commit(n);
    p.confirm(buf).ok().expect("durable")
}

#[test]
fn a_builder_refuses_what_is_no_psbt() {
    match SenderBuilder::new("rubbish".to_string(), uri("bitcoin:x")) {
        Err(SenderInputError::Psbt(PsbtParseError::InvalidPsbt(msg))) => {
            let e = SenderInputError::Psbt(PsbtParseError::InvalidPsbt(msg.clone()));
            assert_eq!(e.message(), format!("Invalid PSBT: {msg}"));
        }
        _ => panic!("expected a parse error"),
    }
}

#[test]
fn each_way_to_build_asks_the_protocol_its_own_way() {
    let mut buf = SenderEventBuffer::<Proto>::new(&mut BufferIds::new());
    let key = confirmed(&mut buf);
    assert_eq!(key.0, "recommended bitcoin:x 250 false");

    let b = builder().always_disable_output_substitution();
    let mut p = b.build_recommended::<Proto>(1, &mut buf).ok().expect("built");
    buf.commit(1);
    assert_eq!(p.confirm(&buf).ok().expect("durable").0, "recommended bitcoin:x 1 true");

    let mut p = builder()
        .build_with_additional_fee::<Proto>(10, Some(3), 2, true, &mut buf)
        .ok()
        .expect("built");
    buf.commit(1);
    assert_eq!(p.confirm(&buf).ok().expect("durable").0, "fee bitcoin:x 10 Some(3) 2 true");

    let mut p = builder()
        .build_with_additional_fee::<Proto>(10, None, 2, false, &mut buf)
        .ok()
        .expect("built");
    buf.commit(1);
    assert_eq!(p.confirm(&buf).ok().expect("durable").0, "fee bitcoin:x 10 None 2 false");

    let mut p = builder().build_non_incentivizing::<Proto>(5, &mut buf).ok().expect("built");
    buf.commit(1);
    assert_eq!(p.confirm(&buf).ok().expect("durable").0, "plain bitcoin:x 5");
}

#[test]
fn a_refused_input_leaves_the_buffer_alone() {
    let mut buf = SenderEventBuffer::<Proto>::new(&mut BufferIds::new());
    let b = builder();
    assert!(matches!(
        b.build_recommended::<Proto>(1_000_000, &mut buf),
        Err(SenderInputError::FfiValidation(FfiValidationError::FeeRateOutOfRange { .. }))
    ));
    assert!(matches!(
        b.build_non_incentivizing::<Proto>(1_000_000, &mut buf),
        Err(SenderInputError::FfiValidation(FfiValidationError::FeeRateOutOfRange { .. }))
    ));
    // The amount is judged before the fee rate.
    assert!(matches!(
        b.build_with_additional_fee::<Proto>(u64::MAX, None, 1_000_000, false, &mut buf),
        Err(SenderInputError::FfiValidation(FfiValidationError::AmountOutOfRange { .. }))
    ));
    assert!(matches!(
        b.build_with_additional_fee::<Proto>(1, None, 1_000_000, false, &mut buf),
        Err(SenderInputError::FfiValidation(FfiValidationError::FeeRateOutOfRange { .. }))
    ));
    let refused = SenderBuilder::new(psbt_text(Some(1_000)), uri("refuse")).expect("parses");
    match refused.build_recommended::<Proto>(1, &mut buf) {
        Err(e @ SenderInputError::Build(_)) => {
            assert_eq!(e.message(), "Error initializing the sender: refused")
        }
        _ => panic!("expected a build error"),
    }
    assert!(buf.is_empty());
}

#[test]
fn a_sender_waits_for_the_event_that_created_it() {
    let mut ids = BufferIds::new();
    let mut buf = SenderEventBuffer::<Proto>::new(&mut ids);
    let mut p = builder().build_recommended::<Proto>(250, &mut buf).ok().expect("built");
    assert_eq!(p.confirm(&buf).err(), Some(ProvisionalConfirmError::NotYetPersisted));
    // Another buffer does not help, however much is durable in it.
    let other = SenderEventBuffer::<Proto>::after_replay(&mut ids, 100);
    assert_eq!(p.confirm(&other).err(), Some(ProvisionalConfirmError::WrongBuffer));
    buf.commit(1);
    assert!(p.confirm(&buf).is_ok());
    assert_eq!(p.confirm(&buf).err(), Some(ProvisionalConfirmError::AlreadyConsumed));
    assert_eq!(p.confirm(&other).err(), Some(ProvisionalConfirmError::AlreadyConsumed));
}

#[test]
fn the_buffer_hands_out_typed_events() {
    let mut buf = SenderEventBuffer::<Proto>::new(&mut BufferIds::new());
    confirmed(&mut buf);
    assert_eq!((buf.len(), buf.committed_count()), (0, 1));
    let key = WithReplyKey::<Proto>("k".to_string());
    key.cancel(&mut buf);
    let events = buf.peek();
    assert_eq!(events.len(), 1);
    assert!(matches!(events[0].0, SessionEvent::Closed(SessionOutcome::Cancel)));
    assert_eq!(
        events[0].to_json().expect_err("no text").message(),
        "Error de/serializing JSON object: closed events have no text here"
    );
    buf.commit(u64::MAX);
    assert!(buf.is_empty());
    assert_eq!(buf.committed_count(), 2);
}

#[test]
fn events_read_back_from_their_text() {
    let event = SenderSessionEvent::<Proto>(SessionEvent::Advanced("x".to_string()));
    let json = event.to_json().expect("written");
    let back = SenderSessionEvent::<Proto>::from_json(json.clone()).ok().expect("read");
    assert_eq!(back.to_json().expect("written"), json);
    assert!(SenderSessionEvent::<Proto>::from_json("rubbish".to_string()).is_err());
}

#[test]
fn cancelling_gives_the_original_transaction_and_closes_the_log() {
    let mut buf = SenderEventBuffer::<Proto>::new(&mut BufferIds::new());
    assert_eq!(WithReplyKey::<Proto>("k".to_string()).cancel(&mut buf), vec![1]);
    assert_eq!(PollingForProposal::<Proto>(0).cancel(&mut buf), vec![2]);
    assert_eq!(buf.len(), 2);
}

#[test]
fn responses_are_recorded_whether_they_are_good_or_bad() {
    let mut buf = SenderEventBuffer::<Proto>::new(&mut BufferIds::new());
    let key = WithReplyKey::<Proto>("k".to_string());
    let req = key.create_v2_post_request(RELAY.to_string()).ok().expect("made");
    assert_eq!(req.request.body, b"k".to_vec());
    assert!(key.create_v2_post_request(String::new()).is_err());
    let polling = key.process_response(b"ok", &req.ohttp_ctx, &mut buf).ok().expect("ok");
    assert_eq!(polling.0, 0);
    assert_eq!(buf.len(), 1);
    match key.process_response(b"transient", &req.ohttp_ctx, &mut buf) {
        Err(e) => assert_eq!(e.message(), "Transient Encapsulation error: again"),
        Ok(_) => panic!("expected an error"),
    }
    assert_eq!(buf.len(), 1);
    match key.process_response(b"?", &req.ohttp_ctx, &mut buf) {
        Err(SenderApiError::Fatal { kind, msg }) => {
            assert_eq!((kind, msg.as_str()), (SenderErrorKind::Encapsulation, "broken"))
        }
        _ => panic!("expected a fatal error"),
    }
    assert_eq!(buf.len(), 2);
}

#[test]
fn the_proposal_waits_for_the_event_that_closed_the_session() {
    let mut buf = SenderEventBuffer::<Proto>::new(&mut BufferIds::new());
    let polling = PollingForProposal::<Proto>(4);
    let req = polling.create_poll_request(RELAY.to_string()).ok().expect("made");
    assert_eq!(req.request.body, b"poll 4".to_vec());
    match polling.process_response(b"none", &req.ohttp_ctx, &mut buf) {
        Ok(PollingForProposalTransitionOutcome::Stasis { inner }) => assert_eq!(inner.0, 5),
        _ => panic!("expected stasis"),
    }
    assert!(buf.is_empty());
    let body = psbt_text(Some(1_000));
    let mut proposal = match polling.process_response(body.as_bytes(), &req.ohttp_ctx, &mut buf) {
        Ok(PollingForProposalTransitionOutcome::Progress { inner }) => inner,
        _ => panic!("expected progress"),
    };
    assert_eq!(proposal.confirm(&buf), Err(ProvisionalConfirmError::NotYetPersisted));
    buf.commit(1);
    assert_eq!(proposal.confirm(&buf), Ok(body));
    assert_eq!(proposal.confirm(&buf), Err(ProvisionalConfirmError::AlreadyConsumed));
    match polling.process_response(b"rubbish", &req.ohttp_ctx, &mut buf) {
        Err(e) => assert_eq!(e.message(), "Fatal Response error: bad answer"),
        Ok(_) => panic!("expected an error"),
    }
}

#[test]
fn sessions_tell_their_terms() {
    let key = WithReplyKey::<Proto>("k".to_string());
    assert_eq!((key.endpoint().as_str(), key.expiration_unix_secs()), ("mailbox of k", 99));
    let polling = PollingForProposal::<Proto>(4);
    assert_eq!((polling.endpoint().as_str(), polling.expiration_unix_secs()), ("mailbox 4", 98));
}

#[test]
fn a_replayed_log_leads_to_a_buffer_that_goes_on() {
    let log = vec![
        SenderSessionEvent::<Proto>(SessionEvent::Advanced("a".to_string())),
        SenderSessionEvent::<Proto>(SessionEvent::Advanced("b".to_string())),
    ];
    let result = replay_sender_event_log(log).ok().expect("replayed");
    assert_eq!(result.event_count(), 2);
    assert_eq!(result.session_history().fallback_tx(), vec![2]);
    assert_eq!(result.session_history().pj_param().0, "pj2");
    assert_eq!(result.session_history().status().inner, "after 2");
    let mut buf = result.into_buffer(&mut BufferIds::new());
    assert_eq!((buf.len(), buf.committed_count()), (0, 2));
    match result.state() {
        SendSession::PollingForProposal { inner } => {
            inner.cancel(&mut buf);
        }
        _ => panic!("expected to poll"),
    }
    assert_eq!((buf.len(), buf.committed_count()), (1, 2));
    match replay_sender_event_log::<Proto>(Vec::new()) {
        Err(e @ SenderReplayError::Replay(_)) => {
            assert_eq!(e.message(), "Replay error: no events")
        }
        _ => panic!("expected a replay error"),
    }
}

#[test]
fn outcomes_tell_what_they_are() {
    let success = SenderSessionOutcome::from(SessionOutcome::Success(psbt()));
    assert!(success.is_success() && !success.is_failure() && !success.is_cancelled());
    assert_eq!(success.success_psbt_base64(), Some(psbt_text(Some(1_000))));
    let failure = SenderSessionOutcome(SessionOutcome::Failure);
    assert!(!failure.is_success() && failure.is_failure() && !failure.is_cancelled());
    assert_eq!(failure.success_psbt_base64(), None);
    let cancel = SenderSessionOutcome(SessionOutcome::Cancel);
    assert!(!cancel.is_success() && !cancel.is_failure() && cancel.is_cancelled());
    assert!(matches!(SessionOutcome::from(cancel), SessionOutcome::Cancel));
}

#[test]
fn responses_of_the_first_version_are_read() {
    let ctx = V1Context::<Proto>("code".to_string());
    let body = psbt_text(Some(1_000));
    assert_eq!(ctx.process_response(body.as_bytes()).ok(), Some(body));
    match ctx.process_response(b"rubbish") {
        Err(ResponseError::Unrecognized { error_code, msg }) => {
            assert_eq!((error_code.as_str(), msg.as_str()), ("code", "strange"))
        }
        _ => panic!("expected an unrecognized error"),
    }
}

#[test]
fn response_errors_read_as_they_should() {
    let wrap = |cause| ResponseError::from(ResponseFailure { cause, msg: "whole".to_string() });
    let known = WellKnownError { msg: "known".to_string() };
    assert_eq!(
        wrap(ResponseCause::WellKnown(known)).message(),
        "A receiver error occurred: known"
    );
    let invalid = ValidationError { msg: "invalid".to_string() };
    assert_eq!(
        wrap(ResponseCause::Validation(invalid)).message(),
        "An error occurred due to a malformed response: invalid"
    );
    let odd = ResponseCause::Unrecognized {
        error_code: "c".to_string(),
        message: "m".to_string(),
    };
    assert_eq!(wrap(odd).message(), "An unrecognized error occurred");
}

#[test]
fn the_drivers_errors_read_as_they_should() {
    assert_eq!(Error::Payjoin("x".to_string()).message(), "payjoin protocol error: x");
    assert_eq!(Error::Wallet("x".to_string()).message(), "wallet error: x");
    assert_eq!(Error::Terminated.message(), "session already terminated");
}

#[test]
fn every_move_of_a_sender_is_recorded_by_one_event() {
    let mut buf = SenderEventBuffer::<Proto>::new(&mut BufferIds::new());
    let posting = WithReplyKey::<Proto>("s".to_string());
    let ctx = "ctx of s".to_string();
    assert!(posting.process_response(b"transient", &ctx, &mut buf).is_err());
    assert_eq!(buf.len(), 0);
    let polling = posting.process_response(b"ok", &ctx, &mut buf).expect("posted");
    assert_eq!(buf.len(), 1);
    assert!(polling.process_response(b"none", &ctx, &mut buf).is_ok());
    assert!(polling.process_response(b"later", &ctx, &mut buf).is_err());
    assert_eq!(buf.len(), 1);
    assert!(polling.process_response(psbt_text(None).as_bytes(), &ctx, &mut buf).is_ok());
    assert_eq!(buf.len(), 2);
    match polling.process_response(b"rubbish", &ctx, &mut buf) {
        Err(SenderApiError::Fatal { .. }) => {}
        _ => panic!("expected a fatal error"),
    }
    assert!(matches!(buf.peek()[2].0, SessionEvent::Closed(SessionOutcome::Failure)));
    assert_eq!(buf.len(), 3);
}
