//! Where two ways to the same check meet.
//!
//! Three checks and the signature can be made in two ways: the protocol asks
//! the application, or the application answers beforehand. What the protocol
//! makes of the answers is its own. So each law here says what it takes for
//! granted of the protocol, in a premise with a name, and then that the two
//! ways lead to the same end.
use crate::chain::{psbt_defect, CoreOutPoint, Psbt};
use crate::error::{ForeignError, ImplementationError};
use crate::receive::buffer::ProvisionalPayjoinProposal;
use crate::receive::callbacks::{
    AlreadySigned, ForeignKnown, ForeignOwned, ForeignSigner, IsOutputKnown, IsScriptOwned,
    ProcessPsbt,
};
use crate::receive::engine::{
    failure_event, CheckOutPoint, CheckReply, CheckScript, ReceiverEngine, Reference, SignPsbt,
    TaggedReference,
};
use crate::receive::error::ReceiverApiError;
use crate::receive::references::{
    script_marked, InputOwnedTaggedReference, InputSeenTaggedReference, OutputOwnedTaggedReference,
};
use crate::receive::states::{
    finalized_beforehand, finalized_on_request, inputs_owned_asked, inputs_owned_marked,
    inputs_seen_asked, inputs_seen_marked, outputs_owned_asked, outputs_owned_marked, Buffer,
    MaybeInputsSeen, OutputsUnknown, Signature, WantsOutputs,
};
use crate::text::Message;
use vstd::prelude::*;

verus! {

/// Whether `asks` answers for every coin by `known`.
pub open spec fn answers_coins<F: CheckOutPoint>(
    asks: &F,
    known: spec_fn(CoreOutPoint) -> bool,
) -> bool {
    forall|coin: CoreOutPoint, a: Result<bool, ImplementationError>| #[trigger]
        call_ensures(F::check, (asks, &coin), a) ==> a == Ok::<bool, ImplementationError>(
            known(coin),
        )
}

/// Whether `asks` answers for every script by `owned`.
pub open spec fn answers_scripts<F: CheckScript>(
    asks: &F,
    owned: spec_fn(Seq<u8>) -> bool,
) -> bool {
    forall|script: Vec<u8>, a: Result<bool, ImplementationError>| #[trigger]
        call_ensures(F::check, (asks, &script), a) ==> a == Ok::<bool, ImplementationError>(
            owned(script@),
        )
}

/// Whether `tags` are `refs`, each with an answer.
pub open spec fn coins_tagged(
    refs: Seq<Reference<CoreOutPoint>>,
    tags: Seq<TaggedReference<CoreOutPoint>>,
) -> bool {
    &&& tags.len() == refs.len()
    &&& forall|i: int|
        0 <= i < refs.len() ==> (#[trigger] tags[i]).value == refs[i].value && tags[i].index
            == refs[i].index
}

/// Whether `tags` are `refs`, each with an answer.
pub open spec fn scripts_tagged(
    refs: Seq<Reference<Vec<u8>>>,
    tags: Seq<TaggedReference<Vec<u8>>>,
) -> bool {
    &&& tags.len() == refs.len()
    &&& forall|i: int|
        0 <= i < refs.len() ==> script_marked(refs[i], (#[trigger] tags[i]).result, tags[i])
}

/// Premise on the protocol: asked of coins that are answered by `known`, it
/// lets `session` pass exactly if none of `refs` is known.
pub open spec fn passes_unseen_when_asked<C: ReceiverEngine, F: CheckOutPoint>(
    session: C::MaybeInputsSeen,
    refs: Seq<Reference<CoreOutPoint>>,
    asks: &F,
    known: spec_fn(CoreOutPoint) -> bool,
) -> bool {
    answers_coins(asks, known) ==> forall|t: CheckReply<C, C::OutputsUnknown>| #[trigger]
        call_ensures(C::check_no_inputs_seen_before::<F>, (&session, asks), t) ==> (t.outcome() is Ok
            <==> forall|i: int| 0 <= i < refs.len() ==> !known((#[trigger] refs[i]).value))
}

/// Premise on the protocol: given an answer on each of `refs`, it lets
/// `session` pass exactly if none was seen before.
pub open spec fn passes_unseen_when_marked<C: ReceiverEngine>(
    session: C::MaybeInputsSeen,
    refs: Seq<Reference<CoreOutPoint>>,
) -> bool {
    forall|tags: Vec<TaggedReference<CoreOutPoint>>, t: CheckReply<C, C::OutputsUnknown>| #[trigger]
        call_ensures(C::apply_input_seen_checks, (&session, tags), t) && coins_tagged(
            refs,
            tags@,
        ) ==> (t.outcome() is Ok <==> forall|i: int|
            0 <= i < tags@.len() ==> !(#[trigger] tags@[i]).result)
}

/// Premise on the protocol: asked of scripts that are answered by `owned`, it
/// lets `session` pass exactly if none of `refs` is the receiver's.
pub open spec fn passes_not_owned_when_asked<C: ReceiverEngine, F: CheckScript>(
    session: C::MaybeInputsOwned,
    refs: Seq<Reference<Vec<u8>>>,
    asks: &F,
    owned: spec_fn(Seq<u8>) -> bool,
) -> bool {
    answers_scripts(asks, owned) ==> forall|t: CheckReply<C, C::MaybeInputsSeen>| #[trigger]
        call_ensures(C::check_inputs_not_owned::<F>, (&session, asks), t) ==> (t.outcome() is Ok
            <==> forall|i: int| 0 <= i < refs.len() ==> !owned((#[trigger] refs[i]).value@))
}

/// Premise on the protocol: given an answer on each of `refs`, it lets
/// `session` pass exactly if none is the receiver's.
pub open spec fn passes_not_owned_when_marked<C: ReceiverEngine>(
    session: C::MaybeInputsOwned,
    refs: Seq<Reference<Vec<u8>>>,
) -> bool {
    forall|tags: Vec<TaggedReference<Vec<u8>>>, t: CheckReply<C, C::MaybeInputsSeen>| #[trigger]
        call_ensures(C::apply_input_owned_checks, (&session, tags), t) && scripts_tagged(
            refs,
            tags@,
        ) ==> (t.outcome() is Ok <==> forall|i: int|
            0 <= i < tags@.len() ==> !(#[trigger] tags@[i]).result)
}

/// Premise on the protocol: asked of scripts that are answered by `owned`, it
/// lets `session` pass exactly if one of `refs` is the receiver's.
pub open spec fn passes_paid_when_asked<C: ReceiverEngine, F: CheckScript>(
    session: C::OutputsUnknown,
    refs: Seq<Reference<Vec<u8>>>,
    asks: &F,
    owned: spec_fn(Seq<u8>) -> bool,
) -> bool {
    answers_scripts(asks, owned) ==> forall|t: CheckReply<C, C::WantsOutputs>| #[trigger]
        call_ensures(C::identify_receiver_outputs::<F>, (&session, asks), t) ==> (t.outcome() is Ok
            <==> exists|i: int| 0 <= i < refs.len() && owned((#[trigger] refs[i]).value@))
}

/// Premise on the protocol: given an answer on each of `refs`, it lets
/// `session` pass exactly if one is the receiver's.
pub open spec fn passes_paid_when_marked<C: ReceiverEngine>(
    session: C::OutputsUnknown,
    refs: Seq<Reference<Vec<u8>>>,
) -> bool {
    forall|tags: Vec<TaggedReference<Vec<u8>>>, t: CheckReply<C, C::WantsOutputs>| #[trigger]
        call_ensures(C::apply_output_owned_checks, (&session, tags), t) && scripts_tagged(
            refs,
            tags@,
        ) ==> (t.outcome() is Ok <==> exists|i: int|
            0 <= i < tags@.len() && (#[trigger] tags@[i]).result)
}

/// Marking the sender's coins with what is known of them and having the
/// application asked agree: the session passes in both ways or in neither, and
/// it passes exactly if no coin is known.
pub proof fn law_seen_checks_agree<C: ReceiverEngine, B: IsOutputKnown>(
    session: C::MaybeInputsSeen,
    refs: Vec<Reference<CoreOutPoint>>,
    is_known: &B,
    known: spec_fn(Seq<char>, u32) -> bool,
    checked: Seq<InputSeenTaggedReference>,
    before: Buffer<C>,
    after: Buffer<C>,
    asked: Result<OutputsUnknown<C>, ReceiverApiError<C>>,
    other_before: Buffer<C>,
    other_after: Buffer<C>,
    marked: Result<OutputsUnknown<C>, ReceiverApiError<C>>,
)
    requires
        call_ensures(C::get_input_outpoint_refs, (&session,), refs),
        forall|sent, a: Result<bool, ForeignError>| #[trigger]
            call_ensures(B::callback, (is_known, sent), a) ==> a == Ok::<bool, ForeignError>(
                known(sent.txid@, sent.vout),
            ),
        checked.len() == refs@.len(),
        forall|i: int|
            0 <= i < checked.len() ==> (#[trigger] checked[i]).0 == (TaggedReference {
                value: refs@[i].value,
                index: refs@[i].index,
                result: known(refs@[i].value.txid.chars(), refs@[i].value.vout),
            }),
        inputs_seen_asked(session, is_known, before, after, asked),
        inputs_seen_marked(session, checked, other_before, other_after, marked),
        passes_unseen_when_asked::<C, ForeignKnown<B>>(
            session,
            refs@,
            &ForeignKnown(is_known),
            |coin: CoreOutPoint| known(coin.txid.chars(), coin.vout),
        ),
        passes_unseen_when_marked::<C>(session, refs@),
    ensures
        asked is Ok <==> marked is Ok,
        asked is Ok <==> forall|i: int|
            0 <= i < refs@.len() ==> !known(
                (#[trigger] refs@[i]).value.txid.chars(),
                refs@[i].value.vout,
            ),
{
    let asks = ForeignKnown(is_known);
    let of_coin = |coin: CoreOutPoint| known(coin.txid.chars(), coin.vout);
    assert(answers_coins(&asks, of_coin));
    let (tags, t) = choose|
        tags: Vec<TaggedReference<CoreOutPoint>>,
        t: CheckReply<C, C::OutputsUnknown>,
    | #[trigger]
        call_ensures(C::apply_input_seen_checks, (&session, tags), t) && tags@.len()
            == checked.len() && (forall|i: int|
            0 <= i < tags@.len() ==> #[trigger] tags@[i] == checked[i].0) && (marked is Ok
            <==> t.outcome() is Ok);
    assert(coins_tagged(refs@, tags@));
    if marked is Ok {
        assert forall|i: int| 0 <= i < refs@.len() implies !of_coin((#[trigger] refs@[i]).value) by {
            assert(!tags@[i].result);
        }
    }
}

/// Marking the scripts of the sender's inputs and having the application asked
/// agree: the session passes in both ways or in neither, and it passes exactly
/// if no script is the receiver's.
pub proof fn law_input_owned_checks_agree<C: ReceiverEngine, B: IsScriptOwned>(
    session: C::MaybeInputsOwned,
    refs: Seq<Reference<Vec<u8>>>,
    is_owned: &B,
    owned: spec_fn(Seq<u8>) -> bool,
    checked: Seq<InputOwnedTaggedReference>,
    before: Buffer<C>,
    after: Buffer<C>,
    asked: Result<MaybeInputsSeen<C>, ReceiverApiError<C>>,
    other_before: Buffer<C>,
    other_after: Buffer<C>,
    marked: Result<MaybeInputsSeen<C>, ReceiverApiError<C>>,
)
    requires
        forall|sent: Vec<u8>, a: Result<bool, ForeignError>| #[trigger]
            call_ensures(B::callback, (is_owned, sent), a) ==> a == Ok::<bool, ForeignError>(
                owned(sent@),
            ),
        checked.len() == refs.len(),
        forall|i: int|
            0 <= i < checked.len() ==> script_marked(
                refs[i],
                owned(refs[i].value@),
                (#[trigger] checked[i]).0,
            ),
        inputs_owned_asked(session, is_owned, before, after, asked),
        inputs_owned_marked(session, checked, other_before, other_after, marked),
        passes_not_owned_when_asked::<C, ForeignOwned<B>>(
            session,
            refs,
            &ForeignOwned(is_owned),
            owned,
        ),
        passes_not_owned_when_marked::<C>(session, refs),
    ensures
        asked is Ok <==> marked is Ok,
        asked is Ok <==> forall|i: int|
            0 <= i < refs.len() ==> !owned((#[trigger] refs[i]).value@),
{
    assert(answers_scripts(&ForeignOwned(is_owned), owned));
    let (tags, t) = choose|
        tags: Vec<TaggedReference<Vec<u8>>>,
        t: CheckReply<C, C::MaybeInputsSeen>,
    | #[trigger]
        call_ensures(C::apply_input_owned_checks, (&session, tags), t) && tags@.len()
            == checked.len() && (forall|i: int|
            0 <= i < tags@.len() ==> #[trigger] tags@[i] == checked[i].0) && (marked is Ok
            <==> t.outcome() is Ok);
    assert(scripts_tagged(refs, tags@));
    if marked is Ok {
        assert forall|i: int| 0 <= i < refs.len() implies !owned((#[trigger] refs[i]).value@) by {
            assert(!tags@[i].result);
        }
    }
}

/// Marking the scripts of the outputs and having the application asked agree:
/// the session passes in both ways or in neither, and it passes exactly if one
/// of them is the receiver's.
pub proof fn law_output_owned_checks_agree<C: ReceiverEngine, B: IsScriptOwned>(
    session: C::OutputsUnknown,
    refs: Vec<Reference<Vec<u8>>>,
    is_receiver_output: &B,
    owned: spec_fn(Seq<u8>) -> bool,
    checked: Seq<OutputOwnedTaggedReference>,
    before: Buffer<C>,
    after: Buffer<C>,
    asked: Result<WantsOutputs<C>, ReceiverApiError<C>>,
    other_before: Buffer<C>,
    other_after: Buffer<C>,
    marked: Result<WantsOutputs<C>, ReceiverApiError<C>>,
)
    requires
        call_ensures(C::get_output_script_refs, (&session,), refs),
        forall|sent: Vec<u8>, a: Result<bool, ForeignError>| #[trigger]
            call_ensures(B::callback, (is_receiver_output, sent), a) ==> a == Ok::<
                bool,
                ForeignError,
            >(owned(sent@)),
        checked.len() == refs@.len(),
        forall|i: int|
            0 <= i < checked.len() ==> script_marked(
                refs@[i],
                owned(refs@[i].value@),
                (#[trigger] checked[i]).0,
            ),
        outputs_owned_asked(session, is_receiver_output, before, after, asked),
        outputs_owned_marked(session, checked, other_before, other_after, marked),
        passes_paid_when_asked::<C, ForeignOwned<B>>(
            session,
            refs@,
            &ForeignOwned(is_receiver_output),
            owned,
        ),
        passes_paid_when_marked::<C>(session, refs@),
    ensures
        asked is Ok <==> marked is Ok,
        asked is Ok <==> exists|i: int|
            0 <= i < refs@.len() && owned((#[trigger] refs@[i]).value@),
{
    assert(answers_scripts(&ForeignOwned(is_receiver_output), owned));
    let (tags, t) = choose|
        tags: Vec<TaggedReference<Vec<u8>>>,
        t: CheckReply<C, C::WantsOutputs>,
    | #[trigger]
        call_ensures(C::apply_output_owned_checks, (&session, tags), t) && tags@.len()
            == checked.len() && (forall|i: int|
            0 <= i < tags@.len() ==> #[trigger] tags@[i] == checked[i].0) && (marked is Ok
            <==> t.outcome() is Ok);
    assert(scripts_tagged(refs@, tags@));
    if exists|i: int| 0 <= i < refs@.len() && owned((#[trigger] refs@[i]).value@) {
        let i = choose|i: int| 0 <= i < refs@.len() && owned((#[trigger] refs@[i]).value@);
        assert(tags@[i].result);
    }
    if exists|i: int| 0 <= i < tags@.len() && (#[trigger] tags@[i]).result {
        let i = choose|i: int| 0 <= i < tags@.len() && (#[trigger] tags@[i]).result;
        assert(owned(refs@[i].value@));
    }
}

/// What a signer tells the protocol: the text of the signed PSBT, or the
/// message of the error.
pub open spec fn told(answer: Result<Psbt, ImplementationError>) -> Result<Seq<char>, Seq<char>> {
    match answer {
        Ok(psbt) => Ok(psbt@),
        Err(e) => Err(e.text()),
    }
}

/// Whether `signer` tells `answer`, whatever it is asked to sign.
pub open spec fn always_tells<F: SignPsbt>(
    signer: &F,
    answer: Result<Seq<char>, Seq<char>>,
) -> bool {
    forall|asked: &Psbt, a: Result<Psbt, ImplementationError>| #[trigger]
        call_ensures(F::sign, (signer, asked), a) ==> told(a) == answer
}

/// Premise on the protocol: all that counts of a signer that always tells the
/// same is what it tells. `made` is what the protocol makes of it.
pub open spec fn goes_by_what_is_told<C: ReceiverEngine, F: SignPsbt>(
    session: C::ProvisionalProposal,
    signer: &F,
    made: spec_fn(Result<Seq<char>, Seq<char>>) -> Signature<C>,
) -> bool {
    forall|answer: Result<Seq<char>, Seq<char>>, t: Signature<C>| #[trigger]
        always_tells(signer, answer) && #[trigger] call_ensures(
            C::finalize_proposal::<F>,
            (&session, signer),
            t,
        ) ==> t == made(answer)
}

/// Premise on the protocol: a proposal is finalized only with a PSBT that the
/// signer has signed.
pub open spec fn needs_a_signature<C: ReceiverEngine, F: SignPsbt>(
    session: C::ProvisionalProposal,
    signer: &F,
) -> bool {
    forall|t: Signature<C>| #[trigger]
        call_ensures(C::finalize_proposal::<F>, (&session, signer), t) && t.outcome() is Ok
            ==> exists|asked: &Psbt, signed: Psbt| #[trigger]
            call_ensures(
                F::sign,
                (signer, asked),
                Ok::<Psbt, ImplementationError>(signed),
            )
}

/// Handing in a signed text and having an application sign that always gives
/// that text agree: from equal logs they lead to equal logs, and to the same
/// proposal behind the same event or to errors that say the same.
pub proof fn law_signing_styles_agree<C: ReceiverEngine, B: ProcessPsbt>(
    session: C::ProvisionalProposal,
    process_psbt: &B,
    signed_psbt: &String,
    made: spec_fn(Result<Seq<char>, Seq<char>>) -> Signature<C>,
    before: Buffer<C>,
    after: Buffer<C>,
    on_request: Result<ProvisionalPayjoinProposal<C>, ReceiverApiError<C>>,
    other_before: Buffer<C>,
    other_after: Buffer<C>,
    beforehand: Result<ProvisionalPayjoinProposal<C>, ReceiverApiError<C>>,
)
    requires
        forall|sent: String, answer: Result<String, ForeignError>| #[trigger]
            call_ensures(B::callback, (process_psbt, sent), answer) ==> (answer matches Ok(text)
                && text@ == signed_psbt@),
        before.log == other_before.log,
        finalized_on_request(session, process_psbt, before, after, on_request),
        finalized_beforehand(session, signed_psbt, other_before, other_after, beforehand),
        goes_by_what_is_told::<C, ForeignSigner<B>>(session, &ForeignSigner(process_psbt), made),
        goes_by_what_is_told::<C, AlreadySigned>(session, &AlreadySigned(signed_psbt), made),
    ensures
        after.log == other_after.log,
        match (on_request, beforehand) {
            (Ok(p), Ok(q)) => p@.held == q@.held,
            (Err(e), Err(f)) => e@ == f@,
            _ => false,
        },
{
    let answer: Result<Seq<char>, Seq<char>> = match psbt_defect(signed_psbt@) {
        None => Ok(signed_psbt@),
        Some(msg) => Err(msg),
    };
    assert(always_tells(&ForeignSigner(process_psbt), answer));
    assert(always_tells(&AlreadySigned(signed_psbt), answer));
}

/// A signature that fails is an error: an application that gives no PSBT,
/// whatever it is asked to sign, leaves no proposal to confirm, and the log as
/// it was or closed as a failure.
pub proof fn law_failed_signature_is_an_error<C: ReceiverEngine, B: ProcessPsbt>(
    session: C::ProvisionalProposal,
    process_psbt: &B,
    before: Buffer<C>,
    after: Buffer<C>,
    r: Result<ProvisionalPayjoinProposal<C>, ReceiverApiError<C>>,
)
    requires
        forall|sent: String, answer: Result<String, ForeignError>| #[trigger]
            call_ensures(B::callback, (process_psbt, sent), answer) ==> (answer matches Ok(text)
                ==> psbt_defect(text@) is Some),
        finalized_on_request(session, process_psbt, before, after, r),
        needs_a_signature::<C, ForeignSigner<B>>(session, &ForeignSigner(process_psbt)),
    ensures
        r is Err,
        after == before || after == before.push(failure_event::<C>()),
{
}

/// A text that is no PSBT is an error: handing it in leaves no proposal to
/// confirm, and the log as it was or closed as a failure.
pub proof fn law_unreadable_signature_is_an_error<C: ReceiverEngine>(
    session: C::ProvisionalProposal,
    signed_psbt: &String,
    before: Buffer<C>,
    after: Buffer<C>,
    r: Result<ProvisionalPayjoinProposal<C>, ReceiverApiError<C>>,
)
    requires
        psbt_defect(signed_psbt@) is Some,
        finalized_beforehand(session, signed_psbt, before, after, r),
        needs_a_signature::<C, AlreadySigned>(session, &AlreadySigned(signed_psbt)),
    ensures
        r is Err,
        after == before || after == before.push(failure_event::<C>()),
{
}

} // verus!
