//! Restoring the spent coins of a PSBT.
use bitcoin::hashes::Hash as _;
use bitcoin::{
    absolute, transaction, Amount, OutPoint, Psbt, ScriptBuf, Sequence, Transaction, TxIn, TxOut,
    Witness,
};
use payjoin_session::chain::{CoreOutPoint, CoreTxOut, Txid};
use payjoin_session::runtime::psbt::{restore_psbt_utxos, PrevTx, SpendingInput, SpendingPsbt};

fn dummy_prev_tx(value_sat: u64) -> Transaction {
    Transaction {
        version: transaction::Version::TWO,
        lock_time: absolute::LockTime::ZERO,
        input: vec![TxIn::default()],
        output: vec![TxOut {
            value: Amount::from_sat(value_sat),
            script_pubkey: ScriptBuf::new(),
        }],
    }
}

fn psbt_spending(prev_tx: &Transaction) -> Psbt {
    let txid = prev_tx.compute_txid();
    let tx = Transaction {
        version: transaction::Version::TWO,
        lock_time: absolute::LockTime::ZERO,
        input: vec![TxIn {
            previous_output: OutPoint { txid, vout: 0 },
            script_sig: ScriptBuf::new(),
            sequence: Sequence::ENABLE_RBF_NO_LOCKTIME,
            witness: Witness::new(),
        }],
        output: vec![],
    };
    Psbt::from_unsigned_tx(tx).expect("psbt")
}

fn prev(tx: &Transaction) -> PrevTx {
    PrevTx {
        outputs: tx
            .output
            .iter()
            .map(|o| CoreTxOut {
                value_sat: o.value.to_sat(),
                script_pubkey: o.script_pubkey.to_bytes(),
            })
            .collect(),
        encoded: bitcoin::consensus::serialize(tx),
    }
}

fn spending(psbt: &Psbt) -> SpendingPsbt {
    let inputs = psbt
        .inputs
        .iter()
        .zip(psbt.unsigned_tx.input.iter())
        .map(|(input, txin)| SpendingInput {
            previous_output: CoreOutPoint {
                txid: Txid(txin.previous_output.txid.to_byte_array()),
                vout: txin.previous_output.vout,
            },
            witness_utxo: None,
            non_witness_utxo: None,
            final_script_sig: input.final_script_sig.as_ref().map(|s| s.to_bytes()),
            final_script_witness: input.final_script_witness.as_ref().map(|w| w.to_vec()),
        })
        .collect();
    SpendingPsbt { inputs }
}

#[test]
fn restore_psbt_utxos_populates_owned_inputs() {
    let prev_tx = dummy_prev_tx(50_000);
    let mut psbt = spending(&psbt_spending(&prev_tx));
    let txid = Txid(prev_tx.compute_txid().to_byte_array());
    assert!(psbt.inputs[0].witness_utxo.is_none());
    assert!(psbt.inputs[0].non_witness_utxo.is_none());

    restore_psbt_utxos(
        &mut psbt,
        |_op| true,
        |t| if t == txid { Some(prev(&prev_tx)) } else { None },
    );

    assert!(psbt.inputs[0].witness_utxo.is_some());
    assert_eq!(
        psbt.inputs[0].non_witness_utxo.as_ref().map(|tx| tx.encoded.clone()),
        Some(bitcoin::consensus::serialize(&prev_tx))
    );
    assert_eq!(psbt.inputs[0].witness_utxo.as_ref().map(|o| o.value_sat), Some(50_000));
}

#[test]
fn restore_psbt_utxos_leaves_non_owned_inputs_untouched() {
    let prev_tx = dummy_prev_tx(50_000);
    let mut psbt = spending(&psbt_spending(&prev_tx));

    restore_psbt_utxos(&mut psbt, |_op| false, |_| Some(prev(&prev_tx)));

    assert!(psbt.inputs[0].witness_utxo.is_none());
    assert!(psbt.inputs[0].non_witness_utxo.is_none());
}

#[test]
fn restore_psbt_utxos_skips_finalized_inputs() {
    let prev_tx = dummy_prev_tx(50_000);
    let mut psbt = psbt_spending(&prev_tx);
    psbt.inputs[0].final_script_sig = Some(ScriptBuf::from(vec![0x01]));
    let mut psbt = spending(&psbt);

    restore_psbt_utxos(&mut psbt, |_| true, |_| Some(prev(&prev_tx)));

    assert!(psbt.inputs[0].witness_utxo.is_none());
    assert!(psbt.inputs[0].non_witness_utxo.is_none());
}

#[test]
fn inputs_finalized_with_a_witness_are_skipped_too() {
    let prev_tx = dummy_prev_tx(1);
    let mut psbt = psbt_spending(&prev_tx);
    psbt.inputs[0].final_script_witness = Some(Witness::from_slice(&[vec![1u8]]));
    let mut psbt = spending(&psbt);
    restore_psbt_utxos(&mut psbt, |_| true, |_| Some(prev(&prev_tx)));
    assert!(psbt.inputs[0].non_witness_utxo.is_none());
}

#[test]
fn an_unknown_transaction_changes_nothing() {
    let prev_tx = dummy_prev_tx(1);
    let mut psbt = spending(&psbt_spending(&prev_tx));
    restore_psbt_utxos(&mut psbt, |_| true, |_| None);
    assert!(psbt.inputs[0].witness_utxo.is_none());
    assert!(psbt.inputs[0].non_witness_utxo.is_none());
}

#[test]
fn an_output_out_of_range_leaves_the_witness_utxo_alone() {
    let prev_tx = dummy_prev_tx(1);
    let mut psbt = spending(&psbt_spending(&prev_tx));
    psbt.inputs[0].previous_output.vout = 1;
    restore_psbt_utxos(&mut psbt, |op| op.vout == 1, |_| Some(prev(&prev_tx)));
    assert!(psbt.inputs[0].witness_utxo.is_none());
    assert!(psbt.inputs[0].non_witness_utxo.is_some());
}

#[test]
fn only_the_owned_of_several_inputs_is_restored() {
    let prev_tx = dummy_prev_tx(7);
    let one = spending(&psbt_spending(&prev_tx));
    let two = spending(&psbt_spending(&prev_tx));
    let mut inputs = one.inputs;
    inputs.extend(two.inputs);
    inputs[1].previous_output.vout = 9;
    let mut psbt = SpendingPsbt { inputs };
    restore_psbt_utxos(&mut psbt, |op| op.vout == 0, |_| Some(prev(&prev_tx)));
    assert!(psbt.inputs[0].witness_utxo.is_some());
    assert!(psbt.inputs[1].non_witness_utxo.is_none());
}
