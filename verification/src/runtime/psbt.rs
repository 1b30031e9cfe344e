//! PSBT helpers for callers that drive the protocol by hand.
use crate::chain::{CoreOutPoint, CoreTxOut, Txid};
use vstd::prelude::*;

verus! {

/// A transaction that an input spends from.
#[derive(Debug)]
pub struct PrevTx {
    /// Its outputs.
    pub outputs: Vec<CoreTxOut>,
    /// Its consensus encoding.
    pub encoded: Vec<u8>,
}

/// The fields of a PSBT input that concern the coin it spends.
#[derive(Debug)]
pub struct SpendingInput {
    /// The coin, as the unsigned transaction names it.
    pub previous_output: CoreOutPoint,
    /// The output that is spent.
    pub witness_utxo: Option<CoreTxOut>,
    /// The transaction that it is spent from.
    pub non_witness_utxo: Option<PrevTx>,
    /// Finalized script, if the input is finalized with one.
    pub final_script_sig: Option<Vec<u8>>,
    /// Finalized witness, if the input is finalized with one.
    pub final_script_witness: Option<Vec<Vec<u8>>>,
}

/// A PSBT, as far as the coins it spends are concerned.
#[derive(Debug)]
pub struct SpendingPsbt {
    /// Its inputs.
    pub inputs: Vec<SpendingInput>,
}

impl SpendingInput {
    /// Whether the input is finalized.
    pub open spec fn finalized(self) -> bool {
        self.final_script_sig is Some || self.final_script_witness is Some
    }
}

/// Whether `after` is `before` with the coin filled in from `prev`. The output
/// is filled in only if `prev` has one at that index.
pub open spec fn filled_in(before: SpendingInput, prev: PrevTx, after: SpendingInput) -> bool {
    let vout = before.previous_output.vout as int;
    &&& after == (SpendingInput {
        witness_utxo: after.witness_utxo,
        non_witness_utxo: Some(prev),
        ..before
    })
    &&& if vout < prev.outputs@.len() {
        after.witness_utxo matches Some(utxo) && utxo@ == prev.outputs@[vout]@
    } else {
        after.witness_utxo == before.witness_utxo
    }
}

/// What becomes of one input, given what the caller says of it.
pub open spec fn restored_with(
    before: SpendingInput,
    owned: bool,
    found: Option<PrevTx>,
    after: SpendingInput,
) -> bool {
    match found {
        Some(prev) if owned && !before.finalized() => filled_in(before, prev, after),
        _ => after == before,
    }
}

/// What becomes of one input: the caller is asked whether it owns the coin,
/// and for the transaction only if it does and the input is not finalized.
pub open spec fn restored<O: Fn(CoreOutPoint) -> bool, G: Fn(Txid) -> Option<PrevTx>>(
    is_owned: O,
    get_tx: G,
    before: SpendingInput,
    after: SpendingInput,
) -> bool {
    exists|owned: bool|
        {
            &&& #[trigger] is_owned.ensures((before.previous_output,), owned)
            &&& if owned && !before.finalized() {
                exists|found: Option<PrevTx>|
                    #![trigger get_tx.ensures((before.previous_output.txid,), found)]
                    get_tx.ensures((before.previous_output.txid,), found) && restored_with(
                        before,
                        owned,
                        found,
                        after,
                    )
            } else {
                after == before
            }
        }
}

/// Fills in the spent coin of one input that the caller owns and that is not finalized.
pub fn restore_input(input: &mut SpendingInput, prev_tx: PrevTx)
    ensures
        filled_in(*old(input), prev_tx, *final(input)),
{
    let vout: usize = input.previous_output.vout as usize;
    if vout < prev_tx.outputs.len() {
        input.witness_utxo = Some(prev_tx.outputs[vout].clone());
    }
    input.non_witness_utxo = Some(prev_tx);
}

/// Restores `witness_utxo` and `non_witness_utxo` on the inputs the caller owns.
///
/// The standard flow does not need this: the proposals that a session hands
/// out are ready for the signer. It is a fallback for callers whose signing
/// pipeline strips these fields, or for PSBTs from a counterparty that did.
///
/// - `is_owned` should return `true` exactly for the coins the caller owns.
///   Inputs for which it returns `false` are left untouched.
/// - `get_tx` looks up a transaction. If it returns `None`, the input is left
///   as it is.
///
/// Inputs that are already finalized are always left untouched.
pub fn restore_psbt_utxos<O: Fn(CoreOutPoint) -> bool, G: Fn(Txid) -> Option<PrevTx>>(
    psbt: &mut SpendingPsbt,
    is_owned: O,
    get_tx: G,
)
    requires
        forall|i: int|
            0 <= i < old(psbt).inputs@.len() ==> is_owned.requires(
                ((#[trigger] old(psbt).inputs@[i]).previous_output,),
            ) && get_tx.requires((old(psbt).inputs@[i].previous_output.txid,)),
    ensures
        final(psbt).inputs@.len() == old(psbt).inputs@.len(),
        forall|i: int|
            0 <= i < old(psbt).inputs@.len() ==> restored(
                is_owned,
                get_tx,
                old(psbt).inputs@[i],
                #[trigger] final(psbt).inputs@[i],
            ),
{
    let n: usize = psbt.inputs.len();
    for i in 0..n
        invariant
            n == old(psbt).inputs@.len(),
            psbt.inputs@.len() == n,
            forall|j: int|
                0 <= j < n ==> is_owned.requires(
                    ((#[trigger] old(psbt).inputs@[j]).previous_output,),
                ) && get_tx.requires((old(psbt).inputs@[j].previous_output.txid,)),
            forall|j: int| i <= j < n ==> psbt.inputs@[j] == old(psbt).inputs@[j],
            forall|j: int|
                0 <= j < i ==> restored(
                    is_owned,
                    get_tx,
                    old(psbt).inputs@[j],
                    #[trigger] psbt.inputs@[j],
                ),
    {
        let outpoint = psbt.inputs[i].previous_output;
        let owned = is_owned(outpoint);
        if owned {
            let input = &psbt.inputs[i];
            if input.final_script_witness.is_none() && input.final_script_sig.is_none() {
                let found = get_tx(outpoint.txid);
                if let Some(prev_tx) = found {
                    restore_input(&mut psbt.inputs[i], prev_tx);
                }
            }
        }
    }
}

/// Inputs that the caller does not own, inputs that are finalized and inputs
/// whose transaction is unknown are left untouched.
pub proof fn law_only_open_owned_inputs_change<
    O: Fn(CoreOutPoint) -> bool,
    G: Fn(Txid) -> Option<PrevTx>,
>(is_owned: O, get_tx: G, before: SpendingInput, after: SpendingInput)
    requires
        restored(is_owned, get_tx, before, after),
    ensures
        before.finalized() ==> after == before,
        (forall|owned: bool|
            is_owned.ensures((before.previous_output,), owned) ==> !owned) ==> after == before,
        (forall|found: Option<PrevTx>|
            get_tx.ensures((before.previous_output.txid,), found) ==> found is None) ==> after
            == before,
{
}

/// Restoring changes nothing but the two fields that hold the spent coin, and
/// never takes away what one of them held.
pub proof fn law_restoring_only_fills_in<
    O: Fn(CoreOutPoint) -> bool,
    G: Fn(Txid) -> Option<PrevTx>,
>(is_owned: O, get_tx: G, before: SpendingInput, after: SpendingInput)
    requires
        restored(is_owned, get_tx, before, after),
    ensures
        after.previous_output == before.previous_output,
        after.final_script_sig == before.final_script_sig,
        after.final_script_witness == before.final_script_witness,
        before.witness_utxo is Some ==> after.witness_utxo is Some,
        before.non_witness_utxo is Some ==> after.non_witness_utxo is Some,
{
}

/// What is filled in is the coin that the input spends: its transaction as it
/// was found, and the output at the index that the input names, with its amount
/// and its script. Where the transaction has no such output, the output stays
/// as it was. Nothing else is touched.
pub proof fn law_the_spent_coin_is_filled_in(prev: PrevTx)
    ensures
        forall|input: &mut SpendingInput, r: ()| #[trigger]
            call_ensures(restore_input, (input, prev), r) ==> {
                let before = *input;
                let after = *final(input);
                let vout = before.previous_output.vout as int;
                &&& after.previous_output == before.previous_output
                &&& after.final_script_sig == before.final_script_sig
                &&& after.final_script_witness == before.final_script_witness
                &&& after.non_witness_utxo == Some(prev)
                &&& vout < prev.outputs@.len() ==> after.witness_utxo is Some
                    && after.witness_utxo->0.value_sat == prev.outputs@[vout].value_sat
                    && after.witness_utxo->0.script_pubkey@ == prev.outputs@[vout].script_pubkey@
                &&& vout >= prev.outputs@.len() ==> after.witness_utxo == before.witness_utxo
            },
{
}

/// Whether an input holds its spent coin as `prev` gives it.
pub open spec fn holds_coin_of(input: SpendingInput, prev: PrevTx) -> bool {
    let vout = input.previous_output.vout as int;
    &&& input.non_witness_utxo == Some(prev)
    &&& vout < prev.outputs@.len() ==> input.witness_utxo is Some
        && input.witness_utxo->0.value_sat == prev.outputs@[vout].value_sat
        && input.witness_utxo->0.script_pubkey@ == prev.outputs@[vout].script_pubkey@
}

/// Every input that the caller owns, that is not finalized and whose
/// transaction the caller finds holds its coin afterwards; every other input is
/// as it was, and so are the places of all of them.
pub proof fn law_open_owned_inputs_are_restored<
    O: Fn(CoreOutPoint) -> bool,
    G: Fn(Txid) -> Option<PrevTx>,
>(
    is_owned: O,
    get_tx: G,
    owned: spec_fn(CoreOutPoint) -> bool,
    found: spec_fn(Txid) -> Option<PrevTx>,
    before: Seq<SpendingInput>,
    after: Seq<SpendingInput>,
)
    requires
        forall|coin: CoreOutPoint, answer: bool| #[trigger]
            is_owned.ensures((coin,), answer) ==> answer == owned(coin),
        forall|txid: Txid, answer: Option<PrevTx>| #[trigger]
            get_tx.ensures((txid,), answer) ==> answer == found(txid),
        exists|psbt: &mut SpendingPsbt, r: ()| #[trigger]
            call_ensures(restore_psbt_utxos::<O, G>, (psbt, is_owned, get_tx), r)
                && (*psbt).inputs@ == before && (*final(psbt)).inputs@ == after,
    ensures
        after.len() == before.len(),
        forall|i: int|
            0 <= i < before.len() ==> {
                let coin = before[i].previous_output;
                let open = before[i].final_script_sig is None && before[i].final_script_witness
                    is None;
                if owned(coin) && open && found(coin.txid) is Some {
                    holds_coin_of(#[trigger] after[i], found(coin.txid)->0)
                } else {
                    after[i] == before[i]
                }
            },
{
    assert forall|i: int| 0 <= i < before.len() implies ({
        let coin = before[i].previous_output;
        let open = before[i].final_script_sig is None && before[i].final_script_witness is None;
        if owned(coin) && open && found(coin.txid) is Some {
            holds_coin_of(#[trigger] after[i], found(coin.txid)->0)
        } else {
            after[i] == before[i]
        }
    }) by {
        assert(restored(is_owned, get_tx, before[i], after[i]));
    }
}

} // verus!
