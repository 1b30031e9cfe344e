//! Plain values that a receiver's caller hands in and out, and the checks they
//! pass on their way to the protocol.
use crate::chain::{
    is_txid_text, law_txid_text_reads_back, txid_bytes, CoreOutPoint, CoreTxOut, Txid,
};
use crate::error::FfiValidationError;
use crate::receive::engine::{CorePsbtInput, CoreTxIn, ReceiverEngine, ReceiverStates};
use crate::receive::error::{InputPairError, PsbtInputError};
use crate::validation::{
    lemma_one_way_to_accept, ruled, script_validated, validate_amount_sat,
    validate_optional_script, validate_script_vec, validate_weight_units, InputRules,
};
use vstd::prelude::*;

verus! {

/// A transaction output.
#[derive(Debug)]
pub struct TxOut {
    /// Amount in satoshis.
    pub value_sat: u64,
    /// The script.
    pub script_pubkey: Vec<u8>,
}

/// What the checks on an output may return: first the amount is judged, then
/// the script, which must not be empty.
pub open spec fn txout_ruled<R: InputRules>(
    txout: TxOut,
    r: Result<CoreTxOut, FfiValidationError>,
) -> bool {
    exists|amount: Result<(), FfiValidationError>| #[trigger]
        call_ensures(R::amount_sat, (txout.value_sat,), amount) && match amount {
            Err(e) => r == Err::<CoreTxOut, FfiValidationError>(e),
            Ok(()) => exists|script: Result<(), FfiValidationError>| #[trigger]
                call_ensures(R::script, ("script_pubkey", &txout.script_pubkey, false), script) && r
                    == ruled(
                    script,
                    CoreTxOut { value_sat: txout.value_sat, script_pubkey: txout.script_pubkey },
                ),
        }
}

impl TxOut {
    /// The output, if the rules accept it.
    pub fn into_core<R: InputRules>(self) -> (r: Result<CoreTxOut, FfiValidationError>)
        ensures
            txout_ruled::<R>(self, r),
            r matches Ok(core) ==> core.value_sat == self.value_sat && core.script_pubkey@
                == self.script_pubkey@,
    {
        let value_sat: u64 = match validate_amount_sat::<R>(self.value_sat) {
            Ok(value_sat) => value_sat,
            Err(e) => {
                return Err(e);
            },
        };
        match validate_script_vec::<R>("script_pubkey", self.script_pubkey, false) {
            Ok(script_pubkey) => Ok(CoreTxOut { value_sat, script_pubkey }),
            Err(e) => Err(e),
        }
    }

    /// The output in plain values.
    pub fn from_core(value: CoreTxOut) -> (r: Self)
        ensures
            r == (TxOut { value_sat: value.value_sat, script_pubkey: value.script_pubkey }),
    {
        TxOut { value_sat: value.value_sat, script_pubkey: value.script_pubkey }
    }
}

/// Where a coin comes from.
#[derive(Debug)]
pub struct OutPoint {
    /// The id of the transaction, in hexadecimal.
    pub txid: String,
    /// Index of the output.
    pub vout: u32,
}

/// What parsing an outpoint returns.
pub open spec fn outpoint_parsed(op: OutPoint, r: Result<CoreOutPoint, InputPairError>) -> bool {
    if is_txid_text(op.txid@) {
        r matches Ok(core) && core.txid.0@ == txid_bytes(op.txid@) && core.vout == op.vout
    } else {
        r == Err::<CoreOutPoint, InputPairError>(
            InputPairError::InvalidOutPoint { txid: op.txid, vout: op.vout },
        )
    }
}

/// Whether `op` writes `core`.
pub open spec fn outpoint_written(core: CoreOutPoint, op: OutPoint) -> bool {
    op.txid@ == core.txid.chars() && op.vout == core.vout
}

impl OutPoint {
    /// Parses the outpoint.
    pub fn into_core(self) -> (r: Result<CoreOutPoint, InputPairError>)
        ensures
            outpoint_parsed(self, r),
    {
        match Txid::parse(&self.txid) {
            Some(txid) => Ok(CoreOutPoint { txid, vout: self.vout }),
            None => Err(InputPairError::invalid_outpoint(self.txid, self.vout)),
        }
    }

    /// Writes the outpoint.
    pub fn from_core(value: CoreOutPoint) -> (r: Self)
        ensures
            outpoint_written(value, r),
    {
        OutPoint { txid: value.txid.text(), vout: value.vout }
    }
}

/// An outpoint that was written parses again, and to the same coin.
pub proof fn law_outpoint_reads_back(
    core: CoreOutPoint,
    op: OutPoint,
    r: Result<CoreOutPoint, InputPairError>,
)
    requires
        outpoint_written(core, op),
        outpoint_parsed(op, r),
    ensures
        r matches Ok(back) && back.txid.0@ == core.txid.0@ && back.vout == core.vout,
{
    law_txid_text_reads_back(core.txid.0@);
}

/// A transaction input.
#[derive(Debug)]
pub struct TxIn {
    /// The coin that is spent.
    pub previous_output: OutPoint,
    /// The script that unlocks it.
    pub script_sig: Vec<u8>,
    /// The sequence number.
    pub sequence: u32,
    /// The witness that unlocks it.
    pub witness: Vec<Vec<u8>>,
}

/// What the checks on an input may return: first the script is judged, which
/// may be empty, then the witness, and then the outpoint is parsed.
pub open spec fn txin_ruled<R: InputRules>(txin: TxIn, r: Result<CoreTxIn, InputPairError>) -> bool {
    exists|script: Result<(), FfiValidationError>| #[trigger]
        call_ensures(R::script, ("script_sig", &txin.script_sig, true), script) && match script {
            Err(e) => r == Err::<CoreTxIn, InputPairError>(InputPairError::FfiValidation(e)),
            Ok(()) => exists|witness: Result<(), FfiValidationError>| #[trigger]
                call_ensures(R::witness_stack, (&txin.witness,), witness) && match witness {
                    Err(e) => r == Err::<CoreTxIn, InputPairError>(
                        InputPairError::FfiValidation(e),
                    ),
                    Ok(()) => exists|outpoint: Result<CoreOutPoint, InputPairError>| #[trigger]
                        outpoint_parsed(txin.previous_output, outpoint) && r == (match outpoint {
                            Ok(previous_output) => Ok::<CoreTxIn, InputPairError>(
                                CoreTxIn {
                                    previous_output,
                                    script_sig: txin.script_sig,
                                    sequence: txin.sequence,
                                    witness: txin.witness,
                                },
                            ),
                            Err(e) => Err(e),
                        }),
                },
        }
}

impl TxIn {
    /// The input, if the rules accept it and its outpoint parses.
    pub fn into_core<R: InputRules>(self) -> (r: Result<CoreTxIn, InputPairError>)
        ensures
            txin_ruled::<R>(self, r),
            r matches Ok(core) ==> core.script_sig@ == self.script_sig@ && core.sequence
                == self.sequence && core.witness@ == self.witness@ && core.previous_output.vout
                == self.previous_output.vout,
    {
        match R::script("script_sig", &self.script_sig, true) {
            Ok(()) => {},
            Err(e) => {
                return Err(InputPairError::FfiValidation(e));
            },
        }
        match R::witness_stack(&self.witness) {
            Ok(()) => {},
            Err(e) => {
                return Err(InputPairError::FfiValidation(e));
            },
        }
        match self.previous_output.into_core() {
            Ok(previous_output) => Ok(
                CoreTxIn {
                    previous_output,
                    script_sig: self.script_sig,
                    sequence: self.sequence,
                    witness: self.witness,
                },
            ),
            Err(e) => Err(e),
        }
    }
}

/// The fields of a PSBT input that a contribution needs.
#[derive(Debug)]
pub struct PsbtInput {
    /// The output that is spent.
    pub witness_utxo: Option<TxOut>,
    /// The redeem script.
    pub redeem_script: Option<Vec<u8>>,
    /// The witness script.
    pub witness_script: Option<Vec<u8>>,
}

/// What the checks on an optional output may return: nothing is asked of an
/// absent one.
pub open spec fn utxo_ruled<R: InputRules>(
    utxo: Option<TxOut>,
    r: Result<Option<CoreTxOut>, FfiValidationError>,
) -> bool {
    match utxo {
        None => r == Ok::<Option<CoreTxOut>, FfiValidationError>(None),
        Some(txout) => exists|core: Result<CoreTxOut, FfiValidationError>| #[trigger]
            txout_ruled::<R>(txout, core) && r == (match core {
                Ok(out) => Ok::<Option<CoreTxOut>, FfiValidationError>(Some(out)),
                Err(e) => Err(e),
            }),
    }
}

/// What the checks on a PSBT input may return: the output, the redeem script
/// and the witness script are judged in this order.
pub open spec fn psbtin_ruled<R: InputRules>(
    psbtin: PsbtInput,
    r: Result<CorePsbtInput, InputPairError>,
) -> bool {
    exists|utxo: Result<Option<CoreTxOut>, FfiValidationError>| #[trigger]
        utxo_ruled::<R>(psbtin.witness_utxo, utxo) && match utxo {
            Err(e) => r == Err::<CorePsbtInput, InputPairError>(InputPairError::FfiValidation(e)),
            Ok(witness_utxo) => exists|redeem: Result<Option<Vec<u8>>, FfiValidationError>| #[trigger]
                script_validated::<R>("redeem_script", psbtin.redeem_script, redeem)
                    && match redeem {
                    Err(e) => r == Err::<CorePsbtInput, InputPairError>(
                        InputPairError::FfiValidation(e),
                    ),
                    Ok(redeem_script) => exists|
                        witness: Result<Option<Vec<u8>>, FfiValidationError>,
                    | #[trigger]
                        script_validated::<R>("witness_script", psbtin.witness_script, witness) && r
                            == (match witness {
                            Err(e) => Err::<CorePsbtInput, InputPairError>(
                                InputPairError::FfiValidation(e),
                            ),
                            Ok(witness_script) => Ok(
                                CorePsbtInput { witness_utxo, redeem_script, witness_script },
                            ),
                        }),
                },
        }
}

impl PsbtInput {
    /// The PSBT input, if the rules accept it.
    pub fn into_core<R: InputRules>(self) -> (r: Result<CorePsbtInput, InputPairError>)
        ensures
            psbtin_ruled::<R>(self, r),
            r matches Ok(core) ==> core.redeem_script == self.redeem_script && core.witness_script
                == self.witness_script,
            r matches Ok(core) ==> match self.witness_utxo {
                Some(o) => core.witness_utxo matches Some(c) && c.value_sat == o.value_sat
                    && c.script_pubkey@ == o.script_pubkey@,
                None => core.witness_utxo is None,
            },
    {
        let utxo: Result<Option<CoreTxOut>, FfiValidationError> = match self.witness_utxo {
            None => Ok(None),
            Some(txout) => match txout.into_core::<R>() {
                Ok(out) => Ok(Some(out)),
                Err(e) => Err(e),
            },
        };
        assert(utxo_ruled::<R>(self.witness_utxo, utxo));
        let witness_utxo = match utxo {
            Ok(witness_utxo) => witness_utxo,
            Err(e) => {
                return Err(InputPairError::FfiValidation(e));
            },
        };
        let redeem_script = match validate_optional_script::<R>(
            "redeem_script",
            self.redeem_script,
        ) {
            Ok(redeem_script) => redeem_script,
            Err(e) => {
                return Err(InputPairError::FfiValidation(e));
            },
        };
        match validate_optional_script::<R>("witness_script", self.witness_script) {
            Ok(witness_script) => Ok(
                CorePsbtInput { witness_utxo, redeem_script, witness_script },
            ),
            Err(e) => Err(InputPairError::FfiValidation(e)),
        }
    }
}

/// A weight measurement.
#[derive(Debug, Clone, Copy)]
pub struct Weight {
    /// The weight in weight units.
    pub weight_units: u64,
}

impl Weight {
    /// The weight, if the rules accept it.
    pub fn into_core<R: InputRules>(self) -> (r: Result<u64, FfiValidationError>)
        ensures
            exists|v: Result<(), FfiValidationError>| #[trigger]
                call_ensures(R::weight_units, (self.weight_units,), v) && r == ruled(
                    v,
                    self.weight_units,
                ),
    {
        validate_weight_units::<R>(self.weight_units)
    }

    /// The weight in plain values.
    pub fn from_core(wu: u64) -> (r: Self)
        ensures
            r == (Weight { weight_units: wu }),
    {
        Weight { weight_units: wu }
    }
}

/// An input that can be contributed to a proposal.
pub struct InputPair<C: ReceiverStates>(pub C::InputPair);

/// What the checks on an expected weight may return: nothing is asked of an
/// absent one.
pub open spec fn weight_ruled<R: InputRules>(
    weight: Option<Weight>,
    r: Result<Option<u64>, FfiValidationError>,
) -> bool {
    match weight {
        None => r == Ok::<Option<u64>, FfiValidationError>(None),
        Some(w) => exists|v: Result<(), FfiValidationError>| #[trigger]
            call_ensures(R::weight_units, (w.weight_units,), v) && r == ruled(
                v,
                Some(w.weight_units),
            ),
    }
}

/// What the protocol makes of an input whose parts were accepted.
pub open spec fn pair_made<C: ReceiverEngine>(
    txin: CoreTxIn,
    psbtin: CorePsbtInput,
    weight: Option<u64>,
    r: Result<InputPair<C>, InputPairError>,
) -> bool {
    exists|pair: Result<C::InputPair, PsbtInputError>| #[trigger]
        call_ensures(C::new_input_pair, (txin, psbtin, weight), pair) && r == (match pair {
            Ok(p) => Ok::<InputPair<C>, InputPairError>(InputPair(p)),
            Err(e) => Err(InputPairError::InvalidPsbtInput(e)),
        })
}

/// What making an input may return: the transaction input, the PSBT input and
/// the weight are judged in this order, and then the protocol decides.
pub open spec fn pair_ruled<C: ReceiverEngine>(
    txin: TxIn,
    psbtin: PsbtInput,
    weight: Option<Weight>,
    r: Result<InputPair<C>, InputPairError>,
) -> bool {
    exists|tx: Result<CoreTxIn, InputPairError>| #[trigger]
        txin_ruled::<C>(txin, tx) && match tx {
            Err(e) => r == Err::<InputPair<C>, InputPairError>(e),
            Ok(tx) => exists|psbt: Result<CorePsbtInput, InputPairError>| #[trigger]
                psbtin_ruled::<C>(psbtin, psbt) && match psbt {
                    Err(e) => r == Err::<InputPair<C>, InputPairError>(e),
                    Ok(psbt) => exists|wu: Result<Option<u64>, FfiValidationError>| #[trigger]
                        weight_ruled::<C>(weight, wu) && match wu {
                            Err(e) => r == Err::<InputPair<C>, InputPairError>(
                                InputPairError::FfiValidation(e),
                            ),
                            Ok(wu) => pair_made::<C>(tx, psbt, wu, r),
                        },
                },
        }
}

impl<C: ReceiverEngine> InputPair<C> {
    /// Makes an input that can be contributed.
    pub fn new(txin: TxIn, psbtin: PsbtInput, expected_weight: Option<Weight>) -> (r: Result<
        Self,
        InputPairError,
    >)
        ensures
            pair_ruled::<C>(txin, psbtin, expected_weight, r),
    {
        let tx = match txin.into_core::<C>() {
            Ok(tx) => tx,
            Err(e) => {
                return Err(e);
            },
        };
        let psbt = match psbtin.into_core::<C>() {
            Ok(psbt) => psbt,
            Err(e) => {
                return Err(e);
            },
        };
        let wu: Result<Option<u64>, FfiValidationError> = match expected_weight {
            None => Ok(None),
            Some(w) => match w.into_core::<C>() {
                Ok(wu) => Ok(Some(wu)),
                Err(e) => Err(e),
            },
        };
        assert(weight_ruled::<C>(expected_weight, wu));
        match wu {
            Ok(wu) => {
                let r = match C::new_input_pair(tx, psbt, wu) {
                    Ok(pair) => Ok(InputPair(pair)),
                    Err(e) => Err(InputPairError::InvalidPsbtInput(e)),
                };
                assert(pair_made::<C>(tx, psbt, wu, r));
                r
            },
            Err(e) => Err(InputPairError::FfiValidation(e)),
        }
    }
}

/// Validation never alters an output: one that is accepted has the amount and
/// the script that were handed in, and the rules accepted both of them. One
/// that is refused is refused for what the rules said of its amount or of its
/// script, and for the script only if its amount was accepted.
pub proof fn law_accepted_outputs_are_unaltered<R: InputRules>(
    txout: TxOut,
    r: Result<CoreTxOut, FfiValidationError>,
)
    requires
        call_ensures(TxOut::into_core::<R>, (txout,), r),
    ensures
        match r {
            Ok(core) => {
                &&& core.value_sat == txout.value_sat
                &&& core.script_pubkey == txout.script_pubkey
                &&& call_ensures(R::amount_sat, (txout.value_sat,), Ok(()))
                &&& call_ensures(R::script, ("script_pubkey", &txout.script_pubkey, false), Ok(()))
            },
            Err(e) => call_ensures(R::amount_sat, (txout.value_sat,), Err(e)) || (call_ensures(
                R::amount_sat,
                (txout.value_sat,),
                Ok(()),
            ) && call_ensures(R::script, ("script_pubkey", &txout.script_pubkey, false), Err(e))),
        },
{
    lemma_one_way_to_accept::<R>();
}

/// An output that the rules accept comes through, and one whose amount or
/// script they refuse does not.
pub proof fn law_rules_decide_on_outputs<R: InputRules>(
    txout: TxOut,
    r: Result<CoreTxOut, FfiValidationError>,
)
    requires
        call_ensures(TxOut::into_core::<R>, (txout,), r),
    ensures
        (forall|v: Result<(), FfiValidationError>| #[trigger]
            call_ensures(R::amount_sat, (txout.value_sat,), v) ==> v is Ok) && (forall|
            v: Result<(), FfiValidationError>,
        | #[trigger]
            call_ensures(R::script, ("script_pubkey", &txout.script_pubkey, false), v) ==> v is Ok)
            ==> r is Ok,
        (forall|v: Result<(), FfiValidationError>| #[trigger]
            call_ensures(R::amount_sat, (txout.value_sat,), v) ==> v is Err) ==> r is Err,
        (forall|v: Result<(), FfiValidationError>| #[trigger]
            call_ensures(R::script, ("script_pubkey", &txout.script_pubkey, false), v) ==> v is Err)
            ==> r is Err,
{
}

/// An output that left the protocol and is handed in again is the same output.
pub proof fn law_output_reads_back<R: InputRules>(
    core: CoreTxOut,
    txout: TxOut,
    r: Result<CoreTxOut, FfiValidationError>,
)
    requires
        call_ensures(TxOut::from_core, (core,), txout),
        call_ensures(TxOut::into_core::<R>, (txout,), r),
    ensures
        txout.value_sat == core.value_sat,
        txout.script_pubkey == core.script_pubkey,
        r matches Ok(back) ==> back == core,
{
}

/// A coin is parsed exactly if its transaction id is one, and keeps its index;
/// the error names the text and the index that were handed in.
pub proof fn law_parsed_outpoints_are_unaltered(
    op: OutPoint,
    r: Result<CoreOutPoint, InputPairError>,
)
    requires
        call_ensures(OutPoint::into_core, (op,), r),
    ensures
        r is Ok <==> is_txid_text(op.txid@),
        r matches Ok(core) ==> core.vout == op.vout && core.txid.0@ == txid_bytes(op.txid@),
        r matches Err(e) ==> e == (InputPairError::InvalidOutPoint {
            txid: op.txid,
            vout: op.vout,
        }),
{
}

/// A coin that was written is parsed again, and is the same coin.
pub proof fn law_written_outpoint_parses(
    core: CoreOutPoint,
    op: OutPoint,
    r: Result<CoreOutPoint, InputPairError>,
)
    requires
        call_ensures(OutPoint::from_core, (core,), op),
        call_ensures(OutPoint::into_core, (op,), r),
    ensures
        op.vout == core.vout,
        r matches Ok(back) && back.txid.0@ == core.txid.0@ && back.vout == core.vout,
{
    law_outpoint_reads_back(core, op, r);
}

/// Validation never alters an input: one that is accepted spends the coin that
/// was named, with the script, the sequence number and the witness that were
/// handed in, all of which the rules accepted.
pub proof fn law_accepted_inputs_are_unaltered<R: InputRules>(
    txin: TxIn,
    r: Result<CoreTxIn, InputPairError>,
)
    requires
        call_ensures(TxIn::into_core::<R>, (txin,), r),
    ensures
        match r {
            Ok(core) => {
                &&& core.script_sig == txin.script_sig
                &&& core.sequence == txin.sequence
                &&& core.witness == txin.witness
                &&& core.previous_output.vout == txin.previous_output.vout
                &&& core.previous_output.txid.0@ == txid_bytes(txin.previous_output.txid@)
                &&& is_txid_text(txin.previous_output.txid@)
                &&& call_ensures(R::script, ("script_sig", &txin.script_sig, true), Ok(()))
                &&& call_ensures(R::witness_stack, (&txin.witness,), Ok(()))
            },
            Err(InputPairError::InvalidOutPoint { txid, vout }) => {
                &&& !is_txid_text(txin.previous_output.txid@)
                &&& txid == txin.previous_output.txid
                &&& vout == txin.previous_output.vout
                &&& call_ensures(R::script, ("script_sig", &txin.script_sig, true), Ok(()))
                &&& call_ensures(R::witness_stack, (&txin.witness,), Ok(()))
            },
            Err(InputPairError::FfiValidation(e)) => call_ensures(
                R::script,
                ("script_sig", &txin.script_sig, true),
                Err(e),
            ) || (call_ensures(R::script, ("script_sig", &txin.script_sig, true), Ok(()))
                && call_ensures(R::witness_stack, (&txin.witness,), Err(e))),
            Err(InputPairError::InvalidPsbtInput(_)) => false,
        },
{
    lemma_one_way_to_accept::<R>();
}

/// Validation never alters a PSBT input: one that is accepted has each script
/// in its own field, and the coin that was handed in, if any.
pub proof fn law_accepted_psbt_inputs_are_unaltered<R: InputRules>(
    psbtin: PsbtInput,
    r: Result<CorePsbtInput, InputPairError>,
)
    requires
        call_ensures(PsbtInput::into_core::<R>, (psbtin,), r),
        r is Ok,
    ensures
        r->Ok_0.redeem_script == psbtin.redeem_script,
        r->Ok_0.witness_script == psbtin.witness_script,
        r->Ok_0.witness_utxo is Some <==> psbtin.witness_utxo is Some,
        psbtin.witness_utxo matches Some(o) ==> r->Ok_0.witness_utxo->0.value_sat == o.value_sat
            && r->Ok_0.witness_utxo->0.script_pubkey == o.script_pubkey,
        psbtin.redeem_script matches Some(s) ==> call_ensures(
            R::optional_script,
            ("redeem_script", &s),
            Ok(()),
        ),
        psbtin.witness_script matches Some(s) ==> call_ensures(
            R::optional_script,
            ("witness_script", &s),
            Ok(()),
        ),
        psbtin.witness_utxo matches Some(o) ==> call_ensures(R::amount_sat, (o.value_sat,), Ok(()))
            && call_ensures(R::script, ("script_pubkey", &o.script_pubkey, false), Ok(())),
{
    lemma_one_way_to_accept::<R>();
}

/// Whether the rules may accept both the amount and the script of an output, if
/// there is one.
pub open spec fn may_accept_output<R: InputRules>(utxo: Option<TxOut>) -> bool {
    utxo matches Some(o) ==> call_ensures(R::amount_sat, (o.value_sat,), Ok(())) && call_ensures(
        R::script,
        ("script_pubkey", &o.script_pubkey, false),
        Ok(()),
    )
}

/// Whether the rules may accept the script in `field`, if there is one.
pub open spec fn may_accept_script<R: InputRules>(field: &str, script: Option<Vec<u8>>) -> bool {
    script matches Some(s) ==> call_ensures(R::optional_script, (field, &s), Ok(()))
}

/// A PSBT input is refused only for what the rules said of one of its parts: of
/// the output, of the redeem script if the output was accepted, or of the
/// witness script if both were.
pub proof fn law_refused_psbt_inputs_break_a_rule<R: InputRules>(
    psbtin: PsbtInput,
    r: Result<CorePsbtInput, InputPairError>,
)
    requires
        call_ensures(PsbtInput::into_core::<R>, (psbtin,), r),
        r is Err,
    ensures
        r->Err_0 matches InputPairError::FfiValidation(e) && {
            ||| psbtin.witness_utxo matches Some(o) && (call_ensures(
                R::amount_sat,
                (o.value_sat,),
                Err(e),
            ) || (call_ensures(R::amount_sat, (o.value_sat,), Ok(())) && call_ensures(
                R::script,
                ("script_pubkey", &o.script_pubkey, false),
                Err(e),
            )))
            ||| may_accept_output::<R>(psbtin.witness_utxo) && (psbtin.redeem_script matches Some(s)
                && call_ensures(R::optional_script, ("redeem_script", &s), Err(e)))
            ||| may_accept_output::<R>(psbtin.witness_utxo) && may_accept_script::<R>(
                "redeem_script",
                psbtin.redeem_script,
            ) && (psbtin.witness_script matches Some(s) && call_ensures(
                R::optional_script,
                ("witness_script", &s),
                Err(e),
            ))
        },
{
    lemma_one_way_to_accept::<R>();
}

/// A weight that is accepted is the weight that was handed in; the rules
/// decide.
pub proof fn law_accepted_weights_are_unaltered<R: InputRules>(
    weight: Weight,
    r: Result<u64, FfiValidationError>,
)
    requires
        call_ensures(Weight::into_core::<R>, (weight,), r),
    ensures
        match r {
            Ok(wu) => wu == weight.weight_units && call_ensures(
                R::weight_units,
                (weight.weight_units,),
                Ok(()),
            ),
            Err(e) => call_ensures(R::weight_units, (weight.weight_units,), Err(e)),
        },
{
    lemma_one_way_to_accept::<R>();
}

/// The protocol is asked for an input pair with the caller's own values: the
/// coin, the scripts, the witness, the sequence number, the output and the
/// weight are those that were handed in, each in its own field, and the rules
/// accepted them all. What it answers is what the caller gets.
pub proof fn law_input_pairs_are_made_of_the_callers_values<C: ReceiverEngine>(
    txin: TxIn,
    psbtin: PsbtInput,
    weight: Option<Weight>,
    r: Result<InputPair<C>, InputPairError>,
)
    requires
        call_ensures(InputPair::<C>::new, (txin, psbtin, weight), r),
        r is Ok || r->Err_0 is InvalidPsbtInput,
    ensures
        call_ensures(C::script, ("script_sig", &txin.script_sig, true), Ok(())),
        call_ensures(C::witness_stack, (&txin.witness,), Ok(())),
        may_accept_output::<C>(psbtin.witness_utxo),
        may_accept_script::<C>("redeem_script", psbtin.redeem_script),
        may_accept_script::<C>("witness_script", psbtin.witness_script),
        weight matches Some(w) ==> call_ensures(C::weight_units, (w.weight_units,), Ok(())),
        exists|
            tx: CoreTxIn,
            psbt: CorePsbtInput,
            wu: Option<u64>,
            pair: Result<C::InputPair, PsbtInputError>,
        | #[trigger]
            call_ensures(C::new_input_pair, (tx, psbt, wu), pair) && {
                &&& is_txid_text(txin.previous_output.txid@)
                &&& tx.previous_output.txid.0@ == txid_bytes(txin.previous_output.txid@)
                &&& tx.previous_output.vout == txin.previous_output.vout
                &&& tx.script_sig == txin.script_sig
                &&& tx.sequence == txin.sequence
                &&& tx.witness == txin.witness
                &&& psbt.redeem_script == psbtin.redeem_script
                &&& psbt.witness_script == psbtin.witness_script
                &&& psbt.witness_utxo is Some <==> psbtin.witness_utxo is Some
                &&& psbtin.witness_utxo matches Some(o) ==> psbt.witness_utxo->0.value_sat
                    == o.value_sat && psbt.witness_utxo->0.script_pubkey == o.script_pubkey
                &&& wu is Some <==> weight is Some
                &&& weight matches Some(w) ==> wu->0 == w.weight_units
                &&& match r {
                    Ok(made) => pair == Ok::<C::InputPair, PsbtInputError>(made.0),
                    Err(InputPairError::InvalidPsbtInput(e)) => pair == Err::<
                        C::InputPair,
                        PsbtInputError,
                    >(e),
                    Err(_) => false,
                }
            },
{
    lemma_one_way_to_accept::<C>();
    let tx: CoreTxIn = choose|tx: CoreTxIn| #[trigger]
        txin_ruled::<C>(txin, Ok(tx)) && exists|psbt: Result<CorePsbtInput, InputPairError>|
            #[trigger] psbtin_ruled::<C>(psbtin, psbt) && match psbt {
                Err(e) => r == Err::<InputPair<C>, InputPairError>(e),
                Ok(psbt) => exists|wu: Result<Option<u64>, FfiValidationError>| #[trigger]
                    weight_ruled::<C>(weight, wu) && match wu {
                        Err(e) => r == Err::<InputPair<C>, InputPairError>(
                            InputPairError::FfiValidation(e),
                        ),
                        Ok(wu) => pair_made::<C>(tx, psbt, wu, r),
                    },
            };
    let (psbt, wu): (CorePsbtInput, Option<u64>) = choose|psbt: CorePsbtInput, wu: Option<u64>|
        #[trigger] psbtin_ruled::<C>(psbtin, Ok(psbt)) && #[trigger] weight_ruled::<C>(
            weight,
            Ok(wu),
        ) && pair_made::<C>(tx, psbt, wu, r);
    let pair = choose|pair: Result<C::InputPair, PsbtInputError>| #[trigger]
        call_ensures(C::new_input_pair, (tx, psbt, wu), pair) && r == (match pair {
            Ok(p) => Ok::<InputPair<C>, InputPairError>(InputPair(p)),
            Err(e) => Err(InputPairError::InvalidPsbtInput(e)),
        });
    assert(call_ensures(C::new_input_pair, (tx, psbt, wu), pair));
}

/// An input pair that no rule refuses, whose transaction id is one and which
/// the protocol accepts, is made.
pub proof fn law_faultless_input_pairs_are_made<C: ReceiverEngine>(
    txin: TxIn,
    psbtin: PsbtInput,
    weight: Option<Weight>,
    r: Result<InputPair<C>, InputPairError>,
)
    requires
        call_ensures(InputPair::<C>::new, (txin, psbtin, weight), r),
        is_txid_text(txin.previous_output.txid@),
        forall|amount: u64, v: Result<(), FfiValidationError>| #[trigger]
            call_ensures(C::amount_sat, (amount,), v) ==> v is Ok,
        forall|field: &str, script: &Vec<u8>, empty: bool, v: Result<(), FfiValidationError>|
            #[trigger] call_ensures(C::script, (field, script, empty), v) ==> v is Ok,
        forall|field: &str, script: &Vec<u8>, v: Result<(), FfiValidationError>| #[trigger]
            call_ensures(C::optional_script, (field, script), v) ==> v is Ok,
        forall|stack: &Vec<Vec<u8>>, v: Result<(), FfiValidationError>| #[trigger]
            call_ensures(C::witness_stack, (stack,), v) ==> v is Ok,
        forall|wu: u64, v: Result<(), FfiValidationError>| #[trigger]
            call_ensures(C::weight_units, (wu,), v) ==> v is Ok,
        forall|
            tx: CoreTxIn,
            psbt: CorePsbtInput,
            wu: Option<u64>,
            pair: Result<C::InputPair, PsbtInputError>,
        | #[trigger]
            call_ensures(C::new_input_pair, (tx, psbt, wu), pair) ==> pair is Ok,
    ensures
        r is Ok,
{
}

/// An input pair that the rules or the parser refuse is refused for what they
/// said of the first part that was not accepted: of the transaction input, of
/// the PSBT input, or of the weight.
pub proof fn law_refused_input_pairs_break_a_rule<C: ReceiverEngine>(
    txin: TxIn,
    psbtin: PsbtInput,
    weight: Option<Weight>,
    e: InputPairError,
)
    requires
        call_ensures(InputPair::<C>::new, (txin, psbtin, weight), Err(e)),
        e !is InvalidPsbtInput,
    ensures
        ({
            let script_accepted = call_ensures(
                C::script,
                ("script_sig", &txin.script_sig, true),
                Ok(()),
            );
            let unlocking_accepted = script_accepted && call_ensures(
                C::witness_stack,
                (&txin.witness,),
                Ok(()),
            );
            let input_accepted = unlocking_accepted && is_txid_text(txin.previous_output.txid@);
            let psbt_accepted = may_accept_output::<C>(psbtin.witness_utxo) && may_accept_script::<
                C,
            >("redeem_script", psbtin.redeem_script) && may_accept_script::<C>(
                "witness_script",
                psbtin.witness_script,
            );
            match e {
                InputPairError::InvalidOutPoint { txid, vout } => unlocking_accepted
                    && !is_txid_text(txid@) && txid == txin.previous_output.txid && vout
                    == txin.previous_output.vout,
                InputPairError::InvalidPsbtInput(_) => false,
                InputPairError::FfiValidation(e) => {
                    ||| call_ensures(C::script, ("script_sig", &txin.script_sig, true), Err(e))
                    ||| script_accepted && call_ensures(C::witness_stack, (&txin.witness,), Err(e))
                    ||| input_accepted && (psbtin.witness_utxo matches Some(o) && (call_ensures(
                        C::amount_sat,
                        (o.value_sat,),
                        Err(e),
                    ) || call_ensures(C::script, ("script_pubkey", &o.script_pubkey, false), Err(e))))
                    ||| input_accepted && may_accept_output::<C>(psbtin.witness_utxo) && (
                    psbtin.redeem_script matches Some(s) && call_ensures(
                        C::optional_script,
                        ("redeem_script", &s),
                        Err(e),
                    ))
                    ||| input_accepted && may_accept_output::<C>(psbtin.witness_utxo)
                        && may_accept_script::<C>("redeem_script", psbtin.redeem_script) && (
                    psbtin.witness_script matches Some(s) && call_ensures(
                        C::optional_script,
                        ("witness_script", &s),
                        Err(e),
                    ))
                    ||| input_accepted && psbt_accepted && (weight matches Some(w) && call_ensures(
                        C::weight_units,
                        (w.weight_units,),
                        Err(e),
                    ))
                },
            }
        }),
{
    lemma_one_way_to_accept::<C>();
}

/// A weight that left the protocol and is handed in again is the same weight.
pub proof fn law_weight_reads_back<R: InputRules>(
    wu: u64,
    weight: Weight,
    r: Result<u64, FfiValidationError>,
)
    requires
        call_ensures(Weight::from_core, (wu,), weight),
        call_ensures(Weight::into_core::<R>, (weight,), r),
    ensures
        weight.weight_units == wu,
        r matches Ok(back) ==> back == wu,
{
}

} // verus!
