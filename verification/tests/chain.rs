//! Bitcoin values.
use bitcoin::{
    absolute, transaction, Amount, OutPoint, ScriptBuf, Sequence, Transaction, TxIn, TxOut, Witness,
};
use payjoin_session::chain::{CoreOutPoint, CoreTxOut, ExtractError, Psbt, Txid};
use payjoin_session::error::ForeignError;
use payjoin_session::receive::callbacks::try_deserialize_tx;
use payjoin_session::receive::error::InputPairError;
use payjoin_session::receive::values::{OutPoint as PlainOutPoint, TxOut as PlainTxOut, Weight};

fn unsigned(value_out: u64) -> Transaction {
    Transaction {
        version: transaction::Version::TWO,
        lock_time: absolute::LockTime::ZERO,
        input: vec![TxIn {
            previous_output: OutPoint::null(),
            script_sig: ScriptBuf::new(),
            sequence: Sequence::MAX,
            witness: Witness::new(),
        }],
        output: vec![TxOut {
            value: Amount::from_sat(value_out),
            script_pubkey: ScriptBuf::from(vec![0x51]),
        }],
    }
}

fn psbt(value_in: Option<u64>, value_out: u64) -> bitcoin::Psbt {
    let mut psbt = bitcoin::Psbt::from_unsigned_tx(unsigned(value_out)).expect("unsigned");
    psbt.inputs[0].witness_utxo = value_in.map(|v| TxOut {
        value: Amount::from_sat(v),
        script_pubkey: ScriptBuf::from(vec![0x51]),
    });
    psbt.inputs[0].final_script_witness = Some(Witness::from_slice(&[vec![1u8, 2, 3]]));
    psbt
}

#[test]
fn a_psbt_parses_and_is_written_again() {
    let text = psbt(Some(1_000), 900).to_string();
    let parsed = Psbt::parse(text.clone()).expect("parses");
    assert_eq!(parsed.to_base64(), text);
    assert_eq!(parsed.clone().to_base64(), text);
}

#[test]
fn a_psbt_is_written_as_the_bitcoin_crate_writes_it() {
    // The same PSBT with its two unknown keys in another order is another text,
    // but is written in the order of the keys.
    let mut p = psbt(Some(1_000), 900);
    p.unknown.insert(
        bitcoin::psbt::raw::Key { type_value: 0xEE, key: vec![2] },
        vec![2],
    );
    p.unknown.insert(
        bitcoin::psbt::raw::Key { type_value: 0xEE, key: vec![1] },
        vec![1],
    );
    let canonical = p.serialize();
    let mut swapped = canonical.clone();
    let first = canonical.windows(5).position(|w| w == [2, 0xEE, 1, 1, 1]).expect("first key");
    swapped[first..first + 5].copy_from_slice(&[2, 0xEE, 2, 1, 2]);
    swapped[first + 5..first + 10].copy_from_slice(&[2, 0xEE, 1, 1, 1]);
    let text = base64_of(&swapped);
    assert_ne!(text, base64_of(&canonical));
    let parsed = Psbt::parse(text).expect("parses");
    assert_eq!(parsed.to_base64(), base64_of(&canonical));
}

fn base64_of(bytes: &[u8]) -> String {
    let alphabet: Vec<char> =
        "ABCDEFGHIJKLMNOPQRSTUVWXYZabcdefghijklmnopqrstuvwxyz0123456789+/".chars().collect();
    let mut out = String::new();
    for chunk in bytes.chunks(3) {
        let b = [chunk[0], *chunk.get(1).unwrap_or(&0), *chunk.get(2).unwrap_or(&0)];
        let n = (b[0] as usize) << 16 | (b[1] as usize) << 8 | b[2] as usize;
        out.push(alphabet[n >> 18]);
        out.push(alphabet[(n >> 12) & 63]);
        out.push(if chunk.len() > 1 { alphabet[(n >> 6) & 63] } else { '=' });
        out.push(if chunk.len() > 2 { alphabet[n & 63] } else { '=' });
    }
    out
}

#[test]
fn what_is_no_psbt_is_refused_with_the_message_of_the_parser() {
    let msg = Psbt::parse("not a psbt".to_string()).expect_err("no psbt");
    let expected = "not a psbt".parse::<bitcoin::Psbt>().expect_err("no psbt").to_string();
    assert_eq!(msg, expected);
}

#[test]
fn the_fee_is_what_the_inputs_leave() {
    let p = Psbt::parse(psbt(Some(1_000), 900).to_string()).expect("parses");
    assert_eq!(p.fee(), Ok(100));
}

#[test]
fn signing_off_gives_the_transaction_and_the_fee() {
    let p = Psbt::parse(psbt(Some(1_000), 900).to_string()).expect("parses");
    let (tx, fee) = p.sign_off().expect("finalized");
    assert_eq!(fee, 100);
    let tx: Transaction = bitcoin::consensus::deserialize(&tx).expect("a transaction");
    assert_eq!(tx.output[0].value.to_sat(), 900);
    assert_eq!(tx.input[0].witness.len(), 1);
}

#[test]
fn without_the_spent_coin_there_is_no_fee() {
    let p = Psbt::parse(psbt(None, 900).to_string()).expect("parses");
    assert!(matches!(p.sign_off(), Err(ExtractError::Fee(_))));
}

#[test]
fn an_absurd_fee_is_not_extracted() {
    let p = Psbt::parse(psbt(Some(100_000_000_000), 900).to_string()).expect("parses");
    assert!(matches!(p.sign_off(), Err(ExtractError::Extract(_))));
}

#[test]
fn transaction_ids_read_back() {
    let mut bytes = [0u8; 32];
    for (i, b) in bytes.iter_mut().enumerate() {
        *b = (i * 7) as u8;
    }
    let text = Txid(bytes).text();
    assert_eq!(text.len(), 64);
    assert!(text.ends_with("150e0700"));
    assert_eq!(Txid::parse(&text), Some(Txid(bytes)));
    assert_eq!(Txid::parse(&text.to_uppercase()), Some(Txid(bytes)));
}

#[test]
fn what_is_no_transaction_id_is_refused() {
    assert_eq!(Txid::parse(&"".to_string()), None);
    assert_eq!(Txid::parse(&"00".repeat(31)), None);
    assert_eq!(Txid::parse(&"00".repeat(33)), None);
    assert_eq!(Txid::parse(&"0g".repeat(32)), None);
}

#[test]
fn outpoints_read_back() {
    let core = CoreOutPoint { txid: Txid([9u8; 32]), vout: 3 };
    let plain = PlainOutPoint::from_core(core);
    assert_eq!(plain.txid, "09".repeat(32));
    assert_eq!(plain.vout, 3);
    assert_eq!(plain.into_core().expect("parses"), core);
    let bad = PlainOutPoint { txid: "xyz".to_string(), vout: 4 };
    match bad.into_core() {
        Err(InputPairError::InvalidOutPoint { txid, vout }) => {
            assert_eq!((txid.as_str(), vout), ("xyz", 4))
        }
        other => panic!("expected an invalid outpoint, got {other:?}"),
    }
}

#[test]
fn plain_values_keep_what_they_hold() {
    let out = PlainTxOut::from_core(CoreTxOut { value_sat: 5, script_pubkey: vec![1, 2] });
    assert_eq!((out.value_sat, out.script_pubkey), (5, vec![1, 2]));
    assert_eq!(Weight::from_core(8).weight_units, 8);
}

#[test]
fn transactions_are_decoded_and_encoded_again() {
    let tx = bitcoin::consensus::serialize(&unsigned(1));
    assert_eq!(try_deserialize_tx(tx.clone()), Ok(tx.clone()));
    // Bytes that follow the transaction are not looked at.
    let mut longer = tx.clone();
    longer.push(0);
    assert_eq!(try_deserialize_tx(longer), Ok(tx));
    match try_deserialize_tx(vec![1, 2, 3]) {
        Err(ForeignError::InternalError(msg)) => assert!(!msg.is_empty()),
        other => panic!("expected an error, got {other:?}"),
    }
}

#[test]
fn a_psbt_that_was_written_reads_back() {
    let mut rich = psbt(Some(1_000), 900);
    let leaf = |n: u8| ScriptBuf::from(vec![n]);
    let tree = bitcoin::taproot::TaprootBuilder::new()
        .add_leaf(1, leaf(0x51))
        .and_then(|b| b.add_leaf(2, leaf(0x52)))
        .and_then(|b| b.add_leaf(2, leaf(0x53)))
        .expect("in order");
    rich.outputs[0].tap_tree = Some(tree.try_into_taptree().expect("complete"));
    let unknown = bitcoin::psbt::raw::Key { type_value: 0xAA, key: vec![1, 2] };
    rich.unknown.insert(unknown.clone(), vec![3]);
    rich.inputs[0].unknown.insert(unknown, vec![4]);
    rich.inputs[0].final_script_witness = Some(Witness::from_slice(&[vec![1u8], vec![]]));

    for original in [rich, psbt(None, 5)] {
        let text = Psbt::parse(original.to_string()).expect("a PSBT").to_base64();
        let back: bitcoin::Psbt = text.parse().expect("reads back");
        assert_eq!(back, original);
        assert_eq!(Psbt::parse(text.clone()).expect("reads back").to_base64(), text);
    }
}
