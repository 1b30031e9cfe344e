//! Questions that the protocol has the embedding application answer.
use crate::chain::{
    decode_tx, decoded_tx, law_txid_text_reads_back, psbt_defect, psbt_text, psbt_written,
    txid_bytes, CoreOutPoint, Psbt, Txid,
};
use crate::error::{ForeignError, ImplementationError};
use crate::receive::engine::{
    CheckOutPoint, CheckScript, CheckTransaction, FindTransaction, Reference, SignPsbt,
    TaggedReference,
};
use crate::receive::references::script_marked;
use crate::receive::values::{outpoint_written, OutPoint};
use crate::text::Message;
use vstd::prelude::*;
use vstd::string::*;

verus! {

/// Can a transaction, in consensus encoding, be broadcast?
pub trait CanBroadcast: Send + Sync {
    /// The answer.
    fn callback(&self, tx: Vec<u8>) -> Result<bool, ForeignError>;
}

/// Does the receiver own a script?
pub trait IsScriptOwned: Send + Sync {
    /// The answer.
    fn callback(&self, script: Vec<u8>) -> Result<bool, ForeignError>;
}

/// Has the receiver seen a coin before?
pub trait IsOutputKnown: Send + Sync {
    /// The answer.
    fn callback(&self, outpoint: OutPoint) -> Result<bool, ForeignError>;
}

/// Signs a proposal in base64.
pub trait ProcessPsbt: Send + Sync {
    /// The signed proposal.
    fn callback(&self, psbt: String) -> Result<String, ForeignError>;
}

/// Looks up a transaction by its id.
pub trait TransactionExists: Send + Sync {
    /// The transaction in consensus encoding, if there is one.
    fn callback(&self, txid: String) -> Result<Option<Vec<u8>>, ForeignError>;
}

/// What an answer of the application is to the protocol: an error keeps its
/// message.
pub open spec fn relayed(
    answer: Result<bool, ForeignError>,
    r: Result<bool, ImplementationError>,
) -> bool {
    match answer {
        Ok(b) => r == Ok::<bool, ImplementationError>(b),
        Err(e) => r matches Err(i) && i.text() == e.text(),
    }
}

/// Passes an answer of the application on to the protocol.
pub fn relay(answer: Result<bool, ForeignError>) -> (r: Result<bool, ImplementationError>)
    ensures
        relayed(answer, r),
{
    match answer {
        Ok(b) => Ok(b),
        Err(e) => Err(ImplementationError::new(e)),
    }
}

/// Asks the application whether the original transaction can be broadcast.
pub struct ForeignBroadcast<'a, B>(pub &'a B);

impl<'a, B: CanBroadcast> CheckTransaction for ForeignBroadcast<'a, B> {
    fn check(&self, tx: &Vec<u8>) -> (r: Result<bool, ImplementationError>)
        ensures
            exists|sent: Vec<u8>, answer: Result<bool, ForeignError>|
                sent@ == tx@ && #[trigger] call_ensures(B::callback, (self.0, sent), answer)
                    && relayed(answer, r),
    {
        relay(self.0.callback(tx.clone()))
    }
}

/// Asks the application whether the receiver owns a script.
pub struct ForeignOwned<'a, B>(pub &'a B);

impl<'a, B: IsScriptOwned> CheckScript for ForeignOwned<'a, B> {
    fn check(&self, script: &Vec<u8>) -> (r: Result<bool, ImplementationError>)
        ensures
            exists|sent: Vec<u8>, answer: Result<bool, ForeignError>|
                sent@ == script@ && #[trigger] call_ensures(B::callback, (self.0, sent), answer)
                    && relayed(answer, r),
    {
        relay(self.0.callback(script.clone()))
    }
}

/// Asks the application whether the receiver has seen a coin before.
pub struct ForeignKnown<'a, B>(pub &'a B);

impl<'a, B: IsOutputKnown> CheckOutPoint for ForeignKnown<'a, B> {
    fn check(&self, outpoint: &CoreOutPoint) -> (r: Result<bool, ImplementationError>)
        ensures
            exists|sent: OutPoint, answer: Result<bool, ForeignError>|
                outpoint_written(*outpoint, sent) && #[trigger] call_ensures(
                    B::callback,
                    (self.0, sent),
                    answer,
                ) && relayed(answer, r),
    {
        relay(self.0.callback(OutPoint::from_core(*outpoint)))
    }
}

/// What becomes of a signed proposal that the application hands back, once it
/// has been parsed.
pub fn accept_signed(parsed: Result<Psbt, String>) -> (r: Result<Psbt, ImplementationError>)
    ensures
        match parsed {
            Ok(psbt) => r == Ok::<Psbt, ImplementationError>(psbt),
            Err(msg) => r == Err::<Psbt, ImplementationError>(ImplementationError { msg }),
        },
{
    match parsed {
        Ok(psbt) => Ok(psbt),
        Err(msg) => Err(ImplementationError { msg }),
    }
}

/// What becomes of the text of a signed proposal.
pub open spec fn signed_read(text: Seq<char>, r: Result<Psbt, ImplementationError>) -> bool {
    match psbt_defect(text) {
        None => r matches Ok(psbt) && psbt@ == text,
        Some(msg) => r matches Err(i) && i.text() == msg,
    }
}

/// Has the application sign the proposal.
pub struct ForeignSigner<'a, B>(pub &'a B);

impl<'a, B: ProcessPsbt> SignPsbt for ForeignSigner<'a, B> {
    fn sign(&self, psbt: &Psbt) -> (r: Result<Psbt, ImplementationError>)
        ensures
            exists|sent: String, answer: Result<String, ForeignError>|
                psbt_written(psbt@, sent@) && #[trigger] call_ensures(
                    B::callback,
                    (self.0, sent),
                    answer,
                ) && match answer {
                    Ok(signed) => signed_read(signed@, r),
                    Err(e) => r matches Err(i) && i.text() == e.text(),
                },
    {
        match self.0.callback(psbt.to_base64()) {
            Ok(signed) => accept_signed(Psbt::parse(signed)),
            Err(e) => Err(ImplementationError::new(e)),
        }
    }
}

/// Hands over a proposal that was signed beforehand, whatever it is asked to sign.
pub struct AlreadySigned<'a>(pub &'a String);

impl<'a> SignPsbt for AlreadySigned<'a> {
    fn sign(&self, psbt: &Psbt) -> (r: Result<Psbt, ImplementationError>)
        ensures
            signed_read(self.0@, r),
    {
        accept_signed(Psbt::parse(self.0.clone()))
    }
}

/// A proposal that was signed beforehand and an application that hands back
/// that same text, whatever it is asked to sign, are one to the protocol: it is
/// given the same PSBT, or an error with the same message if the text is none.
pub proof fn law_signed_beforehand_or_on_request<B: ProcessPsbt>(
    process_psbt: &B,
    text: &String,
    asked: &Psbt,
    on_request: Result<Psbt, ImplementationError>,
    beforehand: Result<Psbt, ImplementationError>,
)
    requires
        forall|sent: String, answer: Result<String, ForeignError>| #[trigger]
            call_ensures(B::callback, (process_psbt, sent), answer) ==> (answer matches Ok(signed)
                && signed@ == text@),
        call_ensures(
            <ForeignSigner<B> as SignPsbt>::sign,
            (&ForeignSigner(process_psbt), asked),
            on_request,
        ),
        call_ensures(<AlreadySigned as SignPsbt>::sign, (&AlreadySigned(text), asked), beforehand),
    ensures
        match psbt_defect(text@) {
            None => on_request is Ok && beforehand is Ok && on_request->Ok_0@
                == beforehand->Ok_0@,
            Some(msg) => on_request is Err && beforehand is Err && on_request->Err_0.text() == msg
                && beforehand->Err_0.text() == msg,
        },
{
}

/// A coin that the caller marks with what it knows of it, and one that the
/// protocol asks the application for, are answered alike.
pub proof fn law_coins_are_marked_as_they_would_be_answered<B: IsOutputKnown>(
    is_known: &B,
    known: spec_fn(Seq<char>, u32) -> bool,
    reference: Reference<CoreOutPoint>,
    value: OutPoint,
    tagged: TaggedReference<CoreOutPoint>,
    answer: Result<bool, ImplementationError>,
)
    requires
        forall|sent: OutPoint, a: Result<bool, ForeignError>| #[trigger]
            call_ensures(B::callback, (is_known, sent), a) ==> a == Ok::<bool, ForeignError>(
                known(sent.txid@, sent.vout),
            ),
        outpoint_written(reference.value, value),
        tagged == (TaggedReference {
            value: reference.value,
            index: reference.index,
            result: known(value.txid@, value.vout),
        }),
        call_ensures(
            <ForeignKnown<B> as CheckOutPoint>::check,
            (&ForeignKnown(is_known), &tagged.value),
            answer,
        ),
    ensures
        answer == Ok::<bool, ImplementationError>(tagged.result),
{
}

/// A script that the caller marks with whether it is the receiver's, and one
/// that the protocol asks the application for, are answered alike.
pub proof fn law_scripts_are_marked_as_they_would_be_answered<B: IsScriptOwned>(
    is_owned: &B,
    owned: spec_fn(Seq<u8>) -> bool,
    reference: Reference<Vec<u8>>,
    tagged: TaggedReference<Vec<u8>>,
    answer: Result<bool, ImplementationError>,
)
    requires
        forall|sent: Vec<u8>, a: Result<bool, ForeignError>| #[trigger]
            call_ensures(B::callback, (is_owned, sent), a) ==> a == Ok::<bool, ForeignError>(
                owned(sent@),
            ),
        script_marked(reference, owned(reference.value@), tagged),
        call_ensures(
            <ForeignOwned<B> as CheckScript>::check,
            (&ForeignOwned(is_owned), &tagged.value),
            answer,
        ),
    ensures
        answer == Ok::<bool, ImplementationError>(tagged.result),
{
}

/// What decoding a transaction returns.
pub open spec fn tx_decoded(bytes: Seq<u8>, r: Result<Vec<u8>, ForeignError>) -> bool {
    match decoded_tx(bytes) {
        Ok(tx) => r matches Ok(out) && out@ == tx,
        Err(msg) => r matches Err(ForeignError::InternalError(m)) && m@ == msg,
    }
}

/// Decodes a transaction. It is handed on in consensus encoding.
pub fn try_deserialize_tx(buf: Vec<u8>) -> (r: Result<Vec<u8>, ForeignError>)
    ensures
        tx_decoded(buf@, r),
{
    match decode_tx(buf.as_slice()) {
        Ok(tx) => Ok(tx),
        Err(msg) => Err(ForeignError::InternalError(msg)),
    }
}

/// What a looked up transaction is to the protocol, once it has been decoded.
pub fn found(decoded: Result<Vec<u8>, ForeignError>) -> (r: Result<
    Option<Vec<u8>>,
    ImplementationError,
>)
    ensures
        match decoded {
            Ok(tx) => r == Ok::<Option<Vec<u8>>, ImplementationError>(Some(tx)),
            Err(e) => r matches Err(i) && i.text() == e.text(),
        },
{
    match decoded {
        Ok(tx) => Ok(Some(tx)),
        Err(e) => Err(ImplementationError::new(e)),
    }
}

/// Has the application look up a transaction.
pub struct ForeignLookup<'a, B>(pub &'a B);

/// What an answer of the application to a look-up is to the protocol.
pub open spec fn looked_up(
    answer: Result<Option<Vec<u8>>, ForeignError>,
    r: Result<Option<Vec<u8>>, ImplementationError>,
) -> bool {
    match answer {
        Ok(None) => r == Ok::<Option<Vec<u8>>, ImplementationError>(None),
        Ok(Some(bytes)) => match decoded_tx(bytes@) {
            Ok(tx) => r matches Ok(Some(out)) && out@ == tx,
            Err(msg) => r matches Err(i) && i.text() == "Internal error: "@ + msg,
        },
        Err(e) => r matches Err(i) && i.text() == e.text(),
    }
}

impl<'a, B: TransactionExists> FindTransaction for ForeignLookup<'a, B> {
    fn find(&self, txid: Txid) -> (r: Result<Option<Vec<u8>>, ImplementationError>)
        ensures
            exists|sent: String, answer: Result<Option<Vec<u8>>, ForeignError>|
                sent@ == txid.chars() && #[trigger] call_ensures(
                    B::callback,
                    (self.0, sent),
                    answer,
                ) && looked_up(answer, r),
    {
        match self.0.callback(txid.text()) {
            Ok(Some(bytes)) => found(try_deserialize_tx(bytes)),
            Ok(None) => Ok(None),
            Err(e) => Err(ImplementationError::new(e)),
        }
    }
}

/// What the application is asked is what the protocol asks: the same
/// transaction, the same script, the same coin. Its answer reaches the protocol
/// as it is, and of an error what it says.
pub proof fn law_questions_reach_the_application_unaltered<
    B: CanBroadcast,
    S: IsScriptOwned,
    K: IsOutputKnown,
>(
    can_broadcast: &B,
    tx: &Vec<u8>,
    is_owned: &S,
    script: &Vec<u8>,
    is_known: &K,
    coin: &CoreOutPoint,
    r: Result<bool, ImplementationError>,
)
    ensures
        call_ensures(
            <ForeignBroadcast<B> as CheckTransaction>::check,
            (&ForeignBroadcast(can_broadcast), tx),
            r,
        ) ==> exists|sent: Vec<u8>, answer: Result<bool, ForeignError>| #[trigger]
            call_ensures(B::callback, (can_broadcast, sent), answer) && sent@ == tx@
                && answered_alike(answer, r),
        call_ensures(
            <ForeignOwned<S> as CheckScript>::check,
            (&ForeignOwned(is_owned), script),
            r,
        ) ==> exists|sent: Vec<u8>, answer: Result<bool, ForeignError>| #[trigger]
            call_ensures(S::callback, (is_owned, sent), answer) && sent@ == script@
                && answered_alike(answer, r),
        call_ensures(
            <ForeignKnown<K> as CheckOutPoint>::check,
            (&ForeignKnown(is_known), coin),
            r,
        ) ==> exists|sent: OutPoint, answer: Result<bool, ForeignError>| #[trigger]
            call_ensures(K::callback, (is_known, sent), answer) && sent.vout == coin.vout
                && txid_bytes(sent.txid@) == coin.txid.0@ && answered_alike(answer, r),
{
    law_txid_text_reads_back(coin.txid.0@);
}

/// Whether the protocol is told what the application answered: the same answer,
/// or the words of its error.
pub open spec fn answered_alike(
    answer: Result<bool, ForeignError>,
    r: Result<bool, ImplementationError>,
) -> bool {
    &&& answer is Ok <==> r is Ok
    &&& answer matches Ok(b) ==> r->Ok_0 == b
    &&& answer matches Err(ForeignError::InternalError(why)) ==> r->Err_0.msg@
        == "Internal error: "@ + why@
}

/// An answer that is passed on is the answer that was given.
pub proof fn law_answers_are_relayed(
    answer: Result<bool, ForeignError>,
    r: Result<bool, ImplementationError>,
)
    requires
        call_ensures(relay, (answer,), r),
    ensures
        answered_alike(answer, r),
{
}

/// The application is asked to sign the proposal that the protocol holds. What
/// it hands back is what the protocol is given, if it is a PSBT; if it is none,
/// or if the application fails, the protocol is told why.
pub proof fn law_signatures_reach_the_protocol_unaltered<B: ProcessPsbt>(
    process_psbt: &B,
    psbt: &Psbt,
    r: Result<Psbt, ImplementationError>,
)
    requires
        call_ensures(
            <ForeignSigner<B> as SignPsbt>::sign,
            (&ForeignSigner(process_psbt), psbt),
            r,
        ),
    ensures
        exists|sent: String, answer: Result<String, ForeignError>| #[trigger]
            call_ensures(B::callback, (process_psbt, sent), answer) && sent@ == psbt_text(psbt@)
                && match answer {
                Ok(signed) => match psbt_defect(signed@) {
                    None => r is Ok && r->Ok_0@ == signed@,
                    Some(why) => r is Err && r->Err_0.msg@ == why,
                },
                Err(ForeignError::InternalError(why)) => r is Err && r->Err_0.msg@
                    == "Internal error: "@ + why@,
            },
{
}

/// A proposal that was signed beforehand is given to the protocol as it is, if
/// it is a PSBT, whatever is to be signed.
pub proof fn law_earlier_signatures_reach_the_protocol_unaltered(
    text: &String,
    psbt: &Psbt,
    r: Result<Psbt, ImplementationError>,
)
    requires
        call_ensures(<AlreadySigned as SignPsbt>::sign, (&AlreadySigned(text), psbt), r),
    ensures
        r is Ok <==> psbt_defect(text@) is None,
        r matches Ok(signed) ==> signed@ == text@,
        r matches Err(e) ==> psbt_defect(text@) == Some(e.msg@),
{
}

/// A parsed signature is taken as it is, and what the parser said is passed on.
pub proof fn law_parsed_signatures_are_accepted(
    parsed: Result<Psbt, String>,
    r: Result<Psbt, ImplementationError>,
)
    requires
        call_ensures(accept_signed, (parsed,), r),
    ensures
        parsed is Ok <==> r is Ok,
        parsed matches Ok(psbt) ==> r->Ok_0 == psbt,
        parsed matches Err(msg) ==> r->Err_0.msg == msg,
{
}

/// The application is asked for the transaction with the id that the protocol
/// looks for. What it finds reaches the protocol decoded; what it does not find
/// is not there; and what goes wrong is told.
pub proof fn law_lookups_reach_the_application_unaltered<B: TransactionExists>(
    transaction_exists: &B,
    txid: Txid,
    r: Result<Option<Vec<u8>>, ImplementationError>,
)
    requires
        call_ensures(
            <ForeignLookup<B> as FindTransaction>::find,
            (&ForeignLookup(transaction_exists), txid),
            r,
        ),
    ensures
        exists|sent: String, answer: Result<Option<Vec<u8>>, ForeignError>| #[trigger]
            call_ensures(B::callback, (transaction_exists, sent), answer) && txid_bytes(sent@)
                == txid.0@ && match answer {
                Ok(None) => r is Ok && r->Ok_0 is None,
                Ok(Some(bytes)) => match decoded_tx(bytes@) {
                    Ok(tx) => r is Ok && r->Ok_0 is Some && r->Ok_0->0@ == tx,
                    Err(why) => r is Err && r->Err_0.msg@ == "Internal error: "@ + why,
                },
                Err(ForeignError::InternalError(why)) => r is Err && r->Err_0.msg@
                    == "Internal error: "@ + why@,
            },
{
    law_txid_text_reads_back(txid.0@);
}

/// A transaction is decoded by what the decoder makes of its bytes, and an
/// error says what the decoder said.
pub proof fn law_transactions_are_decoded(
    bytes: Vec<u8>,
    r: Result<Vec<u8>, ForeignError>,
    looked_up: Result<Option<Vec<u8>>, ImplementationError>,
)
    requires
        call_ensures(try_deserialize_tx, (bytes,), r),
        call_ensures(found, (r,), looked_up),
    ensures
        match decoded_tx(bytes@) {
            Ok(tx) => r is Ok && r->Ok_0@ == tx && looked_up is Ok && looked_up->Ok_0 == Some(
                r->Ok_0,
            ),
            Err(why) => r is Err && r->Err_0->InternalError_0@ == why && looked_up is Err
                && looked_up->Err_0.msg@ == "Internal error: "@ + why,
        },
{
}

} // verus!
