//! Items of the original transaction that the receiver has to say something of.
use crate::chain::{law_txid_text_reads_back, txid_bytes, CoreOutPoint};
use crate::receive::engine::{Reference, TaggedReference};
use crate::receive::values::{outpoint_written, OutPoint};
use vstd::prelude::*;

verus! {

/// An input of the original transaction, by its script. Is it the receiver's?
#[derive(Debug)]
pub struct InputOwnedReference(pub Reference<Vec<u8>>);

/// An input of the original transaction, by its script, with the answer.
#[derive(Debug)]
pub struct InputOwnedTaggedReference(pub TaggedReference<Vec<u8>>);

/// An input of the original transaction, by its coin. Was it seen before?
#[derive(Debug)]
pub struct InputSeenReference(pub Reference<CoreOutPoint>);

/// An input of the original transaction, by its coin, with the answer.
#[derive(Debug)]
pub struct InputSeenTaggedReference(pub TaggedReference<CoreOutPoint>);

/// An output of the original transaction, by its script. Is it the receiver's?
#[derive(Debug)]
pub struct OutputOwnedReference(pub Reference<Vec<u8>>);

/// An output of the original transaction, by its script, with the answer.
#[derive(Debug)]
pub struct OutputOwnedTaggedReference(pub TaggedReference<Vec<u8>>);

/// Whether `tagged` is `reference` with the answer `result`.
pub open spec fn script_marked(
    reference: Reference<Vec<u8>>,
    result: bool,
    tagged: TaggedReference<Vec<u8>>,
) -> bool {
    &&& tagged.value@ == reference.value@
    &&& tagged.index == reference.index
    &&& tagged.result == result
}

fn mark_script(reference: &Reference<Vec<u8>>, result: bool) -> (r: TaggedReference<Vec<u8>>)
    ensures
        script_marked(*reference, result, r),
{
    TaggedReference { value: reference.value.clone(), index: reference.index, result }
}

impl InputOwnedReference {
    /// The script.
    pub fn get_value(&self) -> (r: Vec<u8>)
        ensures
            r@ == self.0.value@,
    {
        self.0.value.clone()
    }

    /// Answers whether the script is the receiver's.
    pub fn mark(&self, result: bool) -> (r: InputOwnedTaggedReference)
        ensures
            script_marked(self.0, result, r.0),
    {
        InputOwnedTaggedReference(mark_script(&self.0, result))
    }
}

impl InputOwnedTaggedReference {
    /// The script.
    pub fn get_value(&self) -> (r: Vec<u8>)
        ensures
            r@ == self.0.value@,
    {
        self.0.value.clone()
    }

    /// The answer.
    pub fn get_result(&self) -> (r: bool)
        ensures
            r == self.0.result,
    {
        self.0.result
    }

    /// The place of the input in the transaction.
    pub fn get_index(&self) -> (r: u64)
        ensures
            r == self.0.index,
    {
        self.0.index as u64
    }
}

impl InputSeenReference {
    /// The coin.
    pub fn get_value(&self) -> (r: OutPoint)
        ensures
            outpoint_written(self.0.value, r),
    {
        OutPoint::from_core(self.0.value)
    }

    /// Answers whether the coin was seen before.
    pub fn mark(&self, result: bool) -> (r: InputSeenTaggedReference)
        ensures
            r.0 == (TaggedReference { value: self.0.value, index: self.0.index, result }),
    {
        InputSeenTaggedReference(
            TaggedReference { value: self.0.value, index: self.0.index, result },
        )
    }
}

impl InputSeenTaggedReference {
    /// The coin.
    pub fn get_value(&self) -> (r: OutPoint)
        ensures
            outpoint_written(self.0.value, r),
    {
        OutPoint::from_core(self.0.value)
    }

    /// The answer.
    pub fn get_result(&self) -> (r: bool)
        ensures
            r == self.0.result,
    {
        self.0.result
    }

    /// The place of the input in the transaction.
    pub fn get_index(&self) -> (r: u64)
        ensures
            r == self.0.index,
    {
        self.0.index as u64
    }
}

impl OutputOwnedReference {
    /// The script.
    pub fn get_value(&self) -> (r: Vec<u8>)
        ensures
            r@ == self.0.value@,
    {
        self.0.value.clone()
    }

    /// Answers whether the script is the receiver's.
    pub fn mark(&self, result: bool) -> (r: OutputOwnedTaggedReference)
        ensures
            script_marked(self.0, result, r.0),
    {
        OutputOwnedTaggedReference(mark_script(&self.0, result))
    }
}

impl OutputOwnedTaggedReference {
    /// The script.
    pub fn get_value(&self) -> (r: Vec<u8>)
        ensures
            r@ == self.0.value@,
    {
        self.0.value.clone()
    }

    /// The answer.
    pub fn get_result(&self) -> (r: bool)
        ensures
            r == self.0.result,
    {
        self.0.result
    }

    /// The place of the output in the transaction.
    pub fn get_index(&self) -> (r: u64)
        ensures
            r == self.0.index,
    {
        self.0.index as u64
    }
}

/// Marking the script of an input changes neither the script nor its place, and the
/// answer that is read is the answer that was given.
pub proof fn law_input_scripts_are_marked_in_place(
    reference: &InputOwnedReference,
    script: Vec<u8>,
    result: bool,
    tagged: InputOwnedTaggedReference,
    tagged_script: Vec<u8>,
    tagged_result: bool,
    tagged_index: u64,
)
    requires
        call_ensures(InputOwnedReference::get_value, (reference,), script),
        call_ensures(InputOwnedReference::mark, (reference, result), tagged),
        call_ensures(InputOwnedTaggedReference::get_value, (&tagged,), tagged_script),
        call_ensures(InputOwnedTaggedReference::get_result, (&tagged,), tagged_result),
        call_ensures(InputOwnedTaggedReference::get_index, (&tagged,), tagged_index),
    ensures
        script@ == reference.0.value@,
        tagged_script@ == script@,
        tagged_result == result,
        tagged_index == reference.0.index,
        tagged.0.value@ == reference.0.value@,
        tagged.0.index == reference.0.index,
        tagged.0.result == result,
{
}

/// Marking the script of an output changes neither the script nor its place, and the
/// answer that is read is the answer that was given.
pub proof fn law_output_scripts_are_marked_in_place(
    reference: &OutputOwnedReference,
    script: Vec<u8>,
    result: bool,
    tagged: OutputOwnedTaggedReference,
    tagged_script: Vec<u8>,
    tagged_result: bool,
    tagged_index: u64,
)
    requires
        call_ensures(OutputOwnedReference::get_value, (reference,), script),
        call_ensures(OutputOwnedReference::mark, (reference, result), tagged),
        call_ensures(OutputOwnedTaggedReference::get_value, (&tagged,), tagged_script),
        call_ensures(OutputOwnedTaggedReference::get_result, (&tagged,), tagged_result),
        call_ensures(OutputOwnedTaggedReference::get_index, (&tagged,), tagged_index),
    ensures
        script@ == reference.0.value@,
        tagged_script@ == script@,
        tagged_result == result,
        tagged_index == reference.0.index,
        tagged.0.value@ == reference.0.value@,
        tagged.0.index == reference.0.index,
        tagged.0.result == result,
{
}

/// Marking a coin changes neither the coin nor its place, and the answer that
/// is read is the answer that was given. The coin is shown in a text that reads
/// back.
pub proof fn law_coins_are_marked_in_place(
    reference: &InputSeenReference,
    coin: OutPoint,
    result: bool,
    tagged: InputSeenTaggedReference,
    tagged_coin: OutPoint,
    tagged_result: bool,
    tagged_index: u64,
)
    requires
        call_ensures(InputSeenReference::get_value, (reference,), coin),
        call_ensures(InputSeenReference::mark, (reference, result), tagged),
        call_ensures(InputSeenTaggedReference::get_value, (&tagged,), tagged_coin),
        call_ensures(InputSeenTaggedReference::get_result, (&tagged,), tagged_result),
        call_ensures(InputSeenTaggedReference::get_index, (&tagged,), tagged_index),
    ensures
        coin.vout == reference.0.value.vout,
        txid_bytes(coin.txid@) == reference.0.value.txid.0@,
        tagged_coin.vout == coin.vout,
        tagged_coin.txid@ == coin.txid@,
        tagged_result == result,
        tagged_index == reference.0.index,
        tagged.0.value == reference.0.value,
        tagged.0.index == reference.0.index,
        tagged.0.result == result,
{
    law_txid_text_reads_back(reference.0.value.txid.0@);
}

} // verus!
