//! Bitcoin values as the sessions hold them, and the calls into the `bitcoin`
//! crate that make and read them.
//!
//! A transaction is held as its consensus encoding, a PSBT as base64 text that
//! parses, a transaction id as its bytes in internal order, an amount in
//! satoshis and a fee rate in satoshis per thousand weight units.
use bitcoin::consensus::Decodable;
use std::str::FromStr;
use vstd::prelude::*;
use vstd::string::*;

verus! {

/// The value of a hexadecimal digit of either case.
pub open spec fn hex_value(c: char) -> Option<int> {
    if '0' <= c && c <= '9' {
        Some(c as int - '0' as int)
    } else if 'a' <= c && c <= 'f' {
        Some(c as int - 'a' as int + 10)
    } else if 'A' <= c && c <= 'F' {
        Some(c as int - 'A' as int + 10)
    } else {
        None
    }
}

/// The lower-case hexadecimal digit of `d`.
pub open spec fn hex_digit(d: int) -> char {
    if d < 10 {
        (d + '0' as int) as char
    } else {
        (d - 10 + 'a' as int) as char
    }
}

/// Whether `s` is a transaction id in text: 64 hexadecimal digits.
pub open spec fn is_txid_text(s: Seq<char>) -> bool {
    s.len() == 64 && forall|k: int| 0 <= k < 64 ==> hex_value(#[trigger] s[k]) is Some
}

/// The bytes of the transaction id that `s` writes: two digits per byte, last byte first.
pub open spec fn txid_bytes(s: Seq<char>) -> Seq<u8> {
    Seq::new(
        32,
        |i: int| (16 * hex_value(s[62 - 2 * i])->0 + hex_value(s[63 - 2 * i])->0) as u8,
    )
}

/// The text of the transaction id with bytes `b`.
pub open spec fn txid_chars(b: Seq<u8>) -> Seq<char> {
    Seq::new(
        64,
        |k: int|
            if k % 2 == 0 {
                hex_digit(b[31 - k / 2] as int / 16)
            } else {
                hex_digit(b[31 - k / 2] as int % 16)
            },
    )
}

/// A transaction id, its bytes in internal order.
#[derive(Debug, Clone, Copy, PartialEq, Eq)]
pub struct Txid(pub [u8; 32]);

impl Txid {
    /// The characters that `Txid::text` returns.
    pub open spec fn chars(self) -> Seq<char> {
        txid_chars(self.0@)
    }

    /// Reads a transaction id; `None` if `text` is not one.
    pub fn parse(text: &String) -> (r: Option<Txid>)
        ensures
            r is Some <==> is_txid_text(text@),
            r matches Some(id) ==> id.0@ == txid_bytes(text@),
    {
        match txid_from_str(text.as_str()) {
            Some(bytes) => Some(Txid(bytes)),
            None => None,
        }
    }

    /// Writes the transaction id.
    pub fn text(&self) -> (r: String)
        ensures
            r@ == self.chars(),
    {
        txid_to_string(self.0)
    }
}

/// Calls `<bitcoin::Txid as FromStr>::from_str`. The contract claims that it
/// accepts exactly the texts of 64 hexadecimal digits, of either case, and
/// that the digits give the bytes of the id from the last to the first.
#[verifier::external_body]
fn txid_from_str(text: &str) -> (r: Option<[u8; 32]>)
    ensures
        r is Some <==> is_txid_text(text@),
        r matches Some(bytes) ==> bytes@ == txid_bytes(text@),
{
    bitcoin::Txid::from_str(text).ok().map(|txid| bitcoin::hashes::Hash::to_byte_array(txid))
}

/// Calls `<bitcoin::Txid as Display>::fmt`, through `to_string`. The contract
/// claims that it writes the bytes from the last to the first, each as two
/// lower-case hexadecimal digits.
#[verifier::external_body]
fn txid_to_string(bytes: [u8; 32]) -> (r: String)
    ensures
        r@ == txid_chars(bytes@),
{
    <bitcoin::Txid as bitcoin::hashes::Hash>::from_byte_array(bytes).to_string()
}

/// Reading back a written transaction id gives the id that was written.
pub proof fn law_txid_text_reads_back(b: Seq<u8>)
    requires
        b.len() == 32,
    ensures
        is_txid_text(txid_chars(b)),
        txid_bytes(txid_chars(b)) == b,
{
    let s = txid_chars(b);
    assert forall|d: int| 0 <= d < 16 implies hex_value(#[trigger] hex_digit(d)) == Some(d) by {}
    assert forall|k: int| 0 <= k < 64 implies hex_value(#[trigger] s[k]) is Some by {
        assert(0 <= 31 - k / 2 < 32);
        assert(0 <= b[31 - k / 2] as int / 16 < 16);
    }
    assert forall|i: int| 0 <= i < 32 implies txid_bytes(s)[i] == b[i] by {
        assert((62 - 2 * i) % 2 == 0 && 31 - (62 - 2 * i) / 2 == i);
        assert((63 - 2 * i) % 2 == 1 && 31 - (63 - 2 * i) / 2 == i);
        assert(s[62 - 2 * i] == hex_digit(b[i] as int / 16));
        assert(s[63 - 2 * i] == hex_digit(b[i] as int % 16));
    }
    assert(txid_bytes(s) =~= b);
}

/// Where a coin comes from: a transaction and the index of one of its outputs.
#[derive(Debug, Clone, Copy, PartialEq, Eq)]
pub struct CoreOutPoint {
    /// The transaction.
    pub txid: Txid,
    /// Index of the output in it.
    pub vout: u32,
}

/// An output of a transaction.
#[derive(Debug)]
pub struct CoreTxOut {
    /// Value in satoshis.
    pub value_sat: u64,
    /// The script that locks it.
    pub script_pubkey: Vec<u8>,
}

/// What an output is.
pub struct CoreTxOutView {
    /// Value in satoshis.
    pub value_sat: u64,
    /// The script that locks it.
    pub script_pubkey: Seq<u8>,
}

impl View for CoreTxOut {
    type V = CoreTxOutView;

    open spec fn view(&self) -> CoreTxOutView {
        CoreTxOutView { value_sat: self.value_sat, script_pubkey: self.script_pubkey@ }
    }
}

impl Clone for CoreTxOut {
    fn clone(&self) -> (r: Self)
        ensures
            r@ == self@,
    {
        CoreTxOut { value_sat: self.value_sat, script_pubkey: self.script_pubkey.clone() }
    }
}

/// What `bitcoin::Address::from_str` makes of a text: the address written out
/// again, or the message of the error.
pub uninterp spec fn parsed_address(text: Seq<char>) -> Result<Seq<char>, Seq<char>>;

/// Calls `<bitcoin::Address<NetworkUnchecked> as FromStr>::from_str` and
/// `assume_checked`. The contract claims that the outcome depends on the text
/// alone: the address, as `Display` writes it, or the message of the error.
#[verifier::external_body]
pub(crate) fn parse_address(text: &str) -> (r: Result<String, String>)
    ensures
        match r {
            Ok(address) => parsed_address(text@) == Ok::<Seq<char>, Seq<char>>(address@),
            Err(msg) => parsed_address(text@) == Err::<Seq<char>, Seq<char>>(msg@),
        },
{
    bitcoin::Address::from_str(text)
        .map(|address| address.assume_checked().to_string())
        .map_err(|e| e.to_string())
}

/// The fee rate in sat/kwu of `sat_per_vb` sat/vB, if it fits.
pub open spec fn kwu_of_vb(sat_per_vb: u64) -> Option<u64> {
    if sat_per_vb * 250 <= u64::MAX {
        Some((sat_per_vb * 250) as u64)
    } else {
        None
    }
}

/// Calls `bitcoin::FeeRate::from_sat_per_vb`. The contract claims that it
/// gives 250 sat/kwu for each sat/vB, and nothing if that overflows.
#[verifier::external_body]
pub(crate) fn fee_rate_from_sat_per_vb(sat_per_vb: u64) -> (r: Option<u64>)
    ensures
        r == kwu_of_vb(sat_per_vb),
{
    bitcoin::FeeRate::from_sat_per_vb(sat_per_vb).map(|rate| rate.to_sat_per_kwu())
}

/// What `Transaction::consensus_decode` makes of bytes: the consensus encoding
/// of the transaction it found, or the message of the error.
pub uninterp spec fn decoded_tx(bytes: Seq<u8>) -> Result<Seq<u8>, Seq<char>>;

/// Calls `<bitcoin::Transaction as Decodable>::consensus_decode`, and
/// `consensus::serialize` on what it returns. The contract claims that the
/// outcome depends on the bytes alone. Nothing is stated of bytes that follow
/// the transaction: decoding does not look at them.
#[verifier::external_body]
pub(crate) fn decode_tx(bytes: &[u8]) -> (r: Result<Vec<u8>, String>)
    ensures
        match r {
            Ok(tx) => decoded_tx(bytes@) == Ok::<Seq<u8>, Seq<char>>(tx@),
            Err(msg) => decoded_tx(bytes@) == Err::<Seq<u8>, Seq<char>>(msg@),
        },
{
    let mut input: &[u8] = bytes;
    bitcoin::Transaction::consensus_decode(&mut input)
        .map(|tx| bitcoin::consensus::serialize(&tx))
        .map_err(|e| e.to_string())
}

/// Why `Psbt::from_str` refuses a text, as the message of the error; `None` if it parses.
pub uninterp spec fn psbt_defect(text: Seq<char>) -> Option<Seq<char>>;

/// Calls `<bitcoin::Psbt as FromStr>::from_str`. The contract claims that the
/// text alone decides whether it parses, and what the error says.
#[verifier::external_body]
fn check_psbt(text: &str) -> (r: Option<String>)
    ensures
        match r {
            Some(msg) => psbt_defect(text@) == Some(msg@),
            None => psbt_defect(text@) is None,
        },
{
    bitcoin::Psbt::from_str(text).err().map(|e| e.to_string())
}

/// How `Display` writes the PSBT that a text holds.
pub uninterp spec fn psbt_text(text: Seq<char>) -> Seq<char>;

/// Calls `<bitcoin::Psbt as Display>::fmt`, through `to_string`, on the PSBT
/// that `text` holds. The contract claims that the outcome depends on the text
/// alone, that `<bitcoin::Psbt as FromStr>::from_str` reads it back, and that
/// what it reads is written in the same way again.
#[verifier::external_body]
fn psbt_to_string(text: &str) -> (r: String)
    requires
        psbt_defect(text@) is None,
    ensures
        r@ == psbt_text(text@),
        psbt_defect(r@) is None,
        psbt_text(r@) == r@,
{
    bitcoin::Psbt::from_str(text).expect("the text parses").to_string()
}

/// What `Psbt::fee` says of the PSBT that a text holds: the fee in satoshis,
/// or the message of the error.
pub uninterp spec fn psbt_fee(text: Seq<char>) -> Result<u64, Seq<char>>;

/// Calls `bitcoin::Psbt::fee` on the PSBT that `text` holds. The contract
/// claims that the outcome depends on the text alone.
#[verifier::external_body]
fn fee_of_psbt(text: &str) -> (r: Result<u64, String>)
    requires
        psbt_defect(text@) is None,
    ensures
        match r {
            Ok(sats) => psbt_fee(text@) == Ok::<u64, Seq<char>>(sats),
            Err(msg) => psbt_fee(text@) == Err::<u64, Seq<char>>(msg@),
        },
{
    let psbt = bitcoin::Psbt::from_str(text).expect("the text parses");
    psbt.fee().map(|fee| fee.to_sat()).map_err(|e| e.to_string())
}

/// What `Psbt::extract_tx` makes of the PSBT that a text holds: the consensus
/// encoding of the transaction, or the message of the error.
pub uninterp spec fn psbt_tx(text: Seq<char>) -> Result<Seq<u8>, Seq<char>>;

/// Calls `bitcoin::Psbt::extract_tx` on the PSBT that `text` holds, and
/// `consensus::serialize` on what it returns. The contract claims that the
/// outcome depends on the text alone. The call panics on a PSBT whose fee
/// cannot be computed for want of the spent output in its transaction, so the
/// fee has to be known first.
#[verifier::external_body]
fn tx_of_psbt(text: &str) -> (r: Result<Vec<u8>, String>)
    requires
        psbt_defect(text@) is None,
        psbt_fee(text@) is Ok,
    ensures
        match r {
            Ok(tx) => psbt_tx(text@) == Ok::<Seq<u8>, Seq<char>>(tx@),
            Err(msg) => psbt_tx(text@) == Err::<Seq<u8>, Seq<char>>(msg@),
        },
{
    let psbt = bitcoin::Psbt::from_str(text).expect("the text parses");
    psbt.extract_tx().map(|tx| bitcoin::consensus::serialize(&tx)).map_err(|e| e.to_string())
}

/// Whether the PSBT that `psbt` holds is written as `text`. What is written
/// parses, and is written as it stands.
pub open spec fn psbt_written(psbt: Seq<char>, text: Seq<char>) -> bool {
    &&& text == psbt_text(psbt)
    &&& psbt_defect(text) is None
    &&& psbt_text(text) == text
}

/// What reading a PSBT from `text` returns.
pub open spec fn psbt_read(text: Seq<char>, r: Result<Psbt, String>) -> bool {
    match r {
        Ok(psbt) => psbt_defect(text) is None && psbt@ == text,
        Err(msg) => psbt_defect(text) == Some(msg@),
    }
}

/// A PSBT that was written reads back, as one that is written in the same way.
pub proof fn law_psbt_text_reads_back(psbt: Psbt, text: String, r: Result<Psbt, String>)
    requires
        psbt_written(psbt@, text@),
        psbt_read(text@, r),
    ensures
        r matches Ok(back) && psbt_text(back@) == psbt_text(psbt@),
{
}

/// A PSBT, held as base64 text that parses.
#[derive(Debug)]
pub struct Psbt {
    text: String,
}

impl View for Psbt {
    type V = Seq<char>;

    closed spec fn view(&self) -> Seq<char> {
        self.text@
    }
}

impl Clone for Psbt {
    fn clone(&self) -> (r: Self)
        ensures
            r == *self,
    {
        proof {
            use_type_invariant(self);
        }
        Psbt { text: self.text.clone() }
    }
}

/// Why [`Psbt::sign_off`] gave no transaction.
#[derive(Debug)]
pub enum ExtractError {
    /// The fee could not be computed.
    Fee(String),
    /// The transaction could not be extracted.
    Extract(String),
}

impl Psbt {
    #[verifier::type_invariant]
    spec fn inv(self) -> bool {
        psbt_defect(self.text@) is None
    }

    /// Reads a PSBT from base64; the error is the message of the parser.
    pub fn parse(text: String) -> (r: Result<Psbt, String>)
        ensures
            psbt_read(text@, r),
    {
        match check_psbt(text.as_str()) {
            Some(msg) => Err(msg),
            None => Ok(Psbt { text }),
        }
    }

    /// The PSBT in base64, as it is written out anew.
    pub fn to_base64(&self) -> (r: String)
        ensures
            psbt_written(self@, r@),
    {
        proof {
            use_type_invariant(self);
        }
        psbt_to_string(self.text.as_str())
    }

    /// The fee in satoshis, or the message of the error.
    pub fn fee(&self) -> (r: Result<u64, String>)
        ensures
            match r {
                Ok(sats) => psbt_fee(self@) == Ok::<u64, Seq<char>>(sats),
                Err(msg) => psbt_fee(self@) == Err::<u64, Seq<char>>(msg@),
            },
    {
        proof {
            use_type_invariant(self);
        }
        fee_of_psbt(self.text.as_str())
    }

    /// The finished transaction in consensus encoding, with its fee. The fee
    /// is settled first: a PSBT without one is not extracted.
    pub fn sign_off(&self) -> (r: Result<(Vec<u8>, u64), ExtractError>)
        ensures
            match r {
                Ok((tx, sats)) => psbt_fee(self@) == Ok::<u64, Seq<char>>(sats) && psbt_tx(self@)
                    == Ok::<Seq<u8>, Seq<char>>(tx@),
                Err(ExtractError::Fee(msg)) => psbt_fee(self@) == Err::<u64, Seq<char>>(msg@),
                Err(ExtractError::Extract(msg)) => psbt_fee(self@) is Ok && psbt_tx(self@) == Err::<
                    Seq<u8>,
                    Seq<char>,
                >(msg@),
            },
    {
        proof {
            use_type_invariant(self);
        }
        let sats: u64 = match self.fee() {
            Ok(sats) => sats,
            Err(msg) => {
                return Err(ExtractError::Fee(msg));
            },
        };
        match tx_of_psbt(self.text.as_str()) {
            Ok(tx) => Ok((tx, sats)),
            Err(msg) => Err(ExtractError::Extract(msg)),
        }
    }
}

/// A transaction id that was written is parsed again, and is the same id.
pub proof fn law_written_txid_parses(id: Txid, text: String, r: Option<Txid>)
    requires
        call_ensures(Txid::text, (&id,), text),
        call_ensures(Txid::parse, (&text,), r),
    ensures
        text@.len() == 64,
        r matches Some(back) && back.0@ == id.0@,
{
    law_txid_text_reads_back(id.0@);
}

/// A text is refused as a PSBT exactly if the parser finds a defect, and the
/// error is what the parser says. A PSBT that was written is read again, and is
/// written in the same way.
pub proof fn law_written_psbt_parses(text: String, r: Result<Psbt, String>)
    requires
        call_ensures(Psbt::parse, (text,), r),
    ensures
        r is Ok <==> psbt_defect(text@) is None,
        r matches Ok(psbt) ==> psbt@ == text@,
        r matches Err(msg) ==> psbt_defect(text@) == Some(msg@),
        forall|psbt: &Psbt| #[trigger] call_ensures(Psbt::to_base64, (psbt,), text) ==> text@
            == psbt_text(psbt@) && (r matches Ok(back) && psbt_text(back@) == text@),
{
}

/// A transaction is signed off exactly if its fee is known and it can be
/// extracted; the fee and the transaction are those of the PSBT. Where both are
/// in default, the fee is what is complained of.
pub proof fn law_sign_off_gives_fee_and_transaction(
    psbt: &Psbt,
    r: Result<(Vec<u8>, u64), ExtractError>,
)
    requires
        call_ensures(Psbt::sign_off, (psbt,), r),
    ensures
        r is Ok <==> psbt_fee(psbt@) is Ok && psbt_tx(psbt@) is Ok,
        r matches Ok((tx, sats)) ==> psbt_fee(psbt@)->Ok_0 == sats && psbt_tx(psbt@)->Ok_0 == tx@,
        r matches Err(e) ==> (e is Fee <==> psbt_fee(psbt@) is Err),
        r matches Err(ExtractError::Fee(msg)) ==> psbt_fee(psbt@)->Err_0 == msg@,
        r matches Err(ExtractError::Extract(msg)) ==> psbt_tx(psbt@)->Err_0 == msg@,
{
}

/// A copy of an output has its amount and its script, and a copy of a PSBT is
/// the same PSBT.
pub proof fn law_copies_are_the_same(
    output: &CoreTxOut,
    output_copy: CoreTxOut,
    psbt: &Psbt,
    psbt_copy: Psbt,
)
    ensures
        call_ensures(<CoreTxOut as Clone>::clone, (output,), output_copy) ==> output_copy.value_sat
            == output.value_sat && output_copy.script_pubkey@ == output.script_pubkey@,
        call_ensures(<Psbt as Clone>::clone, (psbt,), psbt_copy) ==> psbt_copy@ == psbt@,
{
}

/// The fee is that of the PSBT, and an error says why there is none.
pub proof fn law_fees_are_read_off_the_psbt(psbt: &Psbt, r: Result<u64, String>)
    requires
        call_ensures(Psbt::fee, (psbt,), r),
    ensures
        r is Ok <==> psbt_fee(psbt@) is Ok,
        r matches Ok(sats) ==> psbt_fee(psbt@)->Ok_0 == sats,
        r matches Err(msg) ==> psbt_fee(psbt@)->Err_0 == msg@,
{
}

} // verus!
