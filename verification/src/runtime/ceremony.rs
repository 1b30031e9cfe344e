//! The stages that the sender's original payload goes through on the
//! receiver's side, from its arrival to the signed proposal.
use crate::chain::{CoreOutPoint, Psbt};
use crate::error::ImplementationError;
use crate::persist::{Advance, ApiError, CheckTransition, PersistAction, Transition};
use crate::receive::engine::{
    closing_failure, failure_event, CheckOutPoint, CheckReply, CheckScript, CheckTransaction,
    ReceiverEngine, ReceiverEvent, ReceiverReply, SessionOutcome, SignPsbt,
};
use crate::receive::error::{InputContributionError, ProtocolError, SelectionError};
use crate::runtime::error::{is_payjoin, is_wallet, Error};
use crate::runtime::sender::record;
use crate::runtime::FeeRange;
use crate::session::SessionEvent;
use crate::text::Message;
use vstd::prelude::*;
use vstd::string::*;

verus! {

/// What a [`ReceiverSession`] needs of the wallet: the four decisions that the
/// receiver makes. The session drives everything else.
pub trait ReceiverWallet {
    /// An input to contribute.
    type Input;

    /// Does this wallet own the script?
    ///
    /// Asked both to refuse an original transaction that spends the receiver's
    /// own coins and to find the outputs that pay the receiver.
    fn is_owned(&self, spk: &Vec<u8>) -> bool;

    /// Would the sender's original transaction be accepted by the mempool?
    fn check_broadcast(&self, tx: &Vec<u8>) -> Result<bool, ImplementationError>;

    /// The inputs to choose from.
    fn contribute(&self) -> Result<Vec<Self::Input>, Error>;

    /// Signs and finalizes this wallet's inputs in the proposal. The sender's
    /// inputs stay unsigned.
    ///
    /// By the time this is asked, the original transaction has passed every
    /// check, the chosen input is in its place and the fees are settled.
    fn process_psbt(&self, psbt: &mut Psbt) -> Result<(), Error>;
}

/// Asks the wallet whether the original transaction can be broadcast.
pub struct AsksBroadcast<'a, W>(pub &'a W);

impl<'a, W: ReceiverWallet> CheckTransaction for AsksBroadcast<'a, W> {
    fn check(&self, tx: &Vec<u8>) -> (r: Result<bool, ImplementationError>)
        ensures
            call_ensures(W::check_broadcast, (self.0, tx), r),
    {
        self.0.check_broadcast(tx)
    }
}

/// Asks the wallet whether it owns a script.
pub struct AsksOwned<'a, W>(pub &'a W);

impl<'a, W: ReceiverWallet> CheckScript for AsksOwned<'a, W> {
    fn check(&self, script: &Vec<u8>) -> (r: Result<bool, ImplementationError>)
        ensures
            r matches Ok(owned) && call_ensures(W::is_owned, (self.0, script), owned),
    {
        Ok(self.0.is_owned(script))
    }
}

/// Takes every coin for new.
pub struct NeverSeen;

impl CheckOutPoint for NeverSeen {
    fn check(&self, outpoint: &CoreOutPoint) -> (r: Result<bool, ImplementationError>)
        ensures
            r == Ok::<bool, ImplementationError>(false),
    {
        Ok(false)
    }
}

/// Has the wallet sign the proposal.
pub struct AsksSignature<'a, W>(pub &'a W);

impl<'a, W: ReceiverWallet> SignPsbt for AsksSignature<'a, W> {
    fn sign(&self, psbt: &Psbt) -> (r: Result<Psbt, ImplementationError>)
        ensures
            exists|handed: &mut Psbt, signed: Result<(), Error>| #[trigger]
                call_ensures(W::process_psbt, (self.0, handed), signed) && *handed == *psbt
                    && match signed {
                    Ok(()) => r == Ok::<Psbt, ImplementationError>(*final(handed)),
                    Err(e) => r matches Err(i) && i.text() == e.text(),
                },
    {
        let mut copy = psbt.clone();
        match self.0.process_psbt(&mut copy) {
            Ok(()) => Ok(copy),
            Err(e) => Err(ImplementationError { msg: e.message() }),
        }
    }
}

/// The events of a receiver session.
pub type Events<C> = Seq<ReceiverEvent<C>>;

/// What the ceremony does with a proposal that has to be signed.
pub open spec fn after_fee_range<C: ReceiverEngine, W: ReceiverWallet<Input = C::InputPair>>(
    wallet: W,
    p: C::ProvisionalProposal,
    recorded: Events<C>,
    r: Result<C::PayjoinProposal, Error>,
) -> bool {
    exists|t| #[trigger]
        call_ensures(C::finalize_proposal::<AsksSignature<W>>, (&p, &AsksSignature(&wallet)), t)
            && recorded == t.events(failure_event::<C>()) && match t.outcome() {
            Ok(proposal) => r == Ok::<C::PayjoinProposal, Error>(proposal),
            Err(e) => r matches Err(err) && is_payjoin(err, e.text()),
        }
}

/// What the ceremony does once the inputs are settled.
pub open spec fn after_inputs<C: ReceiverEngine, W: ReceiverWallet<Input = C::InputPair>>(
    wallet: W,
    fee_range: FeeRange,
    p: C::WantsFeeRange,
    recorded: Events<C>,
    r: Result<C::PayjoinProposal, Error>,
) -> bool {
    exists|t| #[trigger]
        call_ensures(C::apply_fee_range, (&p, fee_range.min, fee_range.max), t)
            && match t.outcome() {
            Ok(next) => exists|rest: Events<C>|
                recorded == t.events(failure_event::<C>()) + rest
                    && #[trigger] after_fee_range::<C, W>(
                    wallet,
                    next,
                    rest,
                    r,
                ),
            Err(e) => recorded == t.events(failure_event::<C>())
                && (r matches Err(err) && is_payjoin(
                err,
                e.text(),
            )),
        }
}

/// What the ceremony does with the input that was selected.
pub open spec fn after_selection<C: ReceiverEngine, W: ReceiverWallet<Input = C::InputPair>>(
    wallet: W,
    fee_range: FeeRange,
    p: C::WantsInputs,
    selected: C::InputPair,
    recorded: Events<C>,
    r: Result<C::PayjoinProposal, Error>,
) -> bool {
    exists|inputs: Vec<C::InputPair>, contributed|
        inputs@ == seq![selected] && #[trigger] call_ensures(
            C::contribute_inputs,
            (&p, inputs),
            contributed,
        ) && match contributed {
            Ok(next) => exists|a| #[trigger]
                call_ensures(C::commit_inputs, (&next,), a) && exists|rest: Events<C>|
                    recorded == seq![ReceiverEvent::<C>::Advanced(a.event)] + rest
                        && #[trigger] after_inputs::<C, W>(wallet, fee_range, a.state, rest, r),
            Err(e) => recorded == Events::<C>::empty() && (r matches Err(err) && is_payjoin(
                err,
                "contribute_inputs: "@ + e.debug@,
            )),
        }
}

/// What the ceremony does once the outputs are settled.
pub open spec fn after_outputs<C: ReceiverEngine, W: ReceiverWallet<Input = C::InputPair>>(
    wallet: W,
    fee_range: FeeRange,
    p: C::WantsInputs,
    recorded: Events<C>,
    r: Result<C::PayjoinProposal, Error>,
) -> bool {
    exists|offered| #[trigger]
        call_ensures(W::contribute, (&wallet,), offered) && match offered {
            Err(e) => recorded == Events::<C>::empty() && r == Err::<C::PayjoinProposal, Error>(e),
            Ok(candidates) => if candidates@.len() == 0 {
                recorded == Events::<C>::empty() && (r matches Err(err) && is_wallet(
                    err,
                    "no candidate inputs to contribute"@,
                ))
            } else {
                exists|selected| #[trigger]
                    call_ensures(C::try_preserving_privacy, (&p, candidates), selected)
                        && match selected {
                        Ok(input) => after_selection::<C, W>(
                            wallet,
                            fee_range,
                            p,
                            input,
                            recorded,
                            r,
                        ),
                        Err(e) => recorded == Events::<C>::empty() && (r matches Err(err)
                            && is_payjoin(err, "privacy-preserving selection: "@ + e.debug@)),
                    }
            },
        }
}

/// What the ceremony does once the outputs that pay the receiver are known.
pub open spec fn after_identification<C: ReceiverEngine, W: ReceiverWallet<Input = C::InputPair>>(
    wallet: W,
    fee_range: FeeRange,
    p: C::WantsOutputs,
    recorded: Events<C>,
    r: Result<C::PayjoinProposal, Error>,
) -> bool {
    exists|a| #[trigger]
        call_ensures(C::commit_outputs, (&p,), a) && exists|rest: Events<C>|
            recorded == seq![ReceiverEvent::<C>::Advanced(a.event)] + rest
                && #[trigger] after_outputs::<C, W>(wallet, fee_range, a.state, rest, r)
}

/// What the ceremony does once the sender's coins are known to be new.
pub open spec fn after_seen<C: ReceiverEngine, W: ReceiverWallet<Input = C::InputPair>>(
    wallet: W,
    fee_range: FeeRange,
    p: C::OutputsUnknown,
    recorded: Events<C>,
    r: Result<C::PayjoinProposal, Error>,
) -> bool {
    exists|t| #[trigger]
        call_ensures(C::identify_receiver_outputs::<AsksOwned<W>>, (&p, &AsksOwned(&wallet)), t)
            && match t.outcome() {
            Ok(next) => exists|rest: Events<C>|
                recorded == t.events(failure_event::<C>()) + rest
                    && #[trigger] after_identification::<C, W>(
                    wallet,
                    fee_range,
                    next,
                    rest,
                    r,
                ),
            Err(e) => recorded == t.events(failure_event::<C>())
                && (r matches Err(err) && is_payjoin(
                err,
                e.text(),
            )),
        }
}

/// What the ceremony does once the sender is known to spend its own coins.
pub open spec fn after_owned<C: ReceiverEngine, W: ReceiverWallet<Input = C::InputPair>>(
    wallet: W,
    fee_range: FeeRange,
    p: C::MaybeInputsSeen,
    recorded: Events<C>,
    r: Result<C::PayjoinProposal, Error>,
) -> bool {
    exists|t| #[trigger]
        call_ensures(C::check_no_inputs_seen_before::<NeverSeen>, (&p, &NeverSeen), t)
            && match t.outcome() {
            Ok(next) => exists|rest: Events<C>|
                recorded == t.events(failure_event::<C>()) + rest && #[trigger] after_seen::<C, W>(
                    wallet,
                    fee_range,
                    next,
                    rest,
                    r,
                ),
            Err(e) => recorded == t.events(failure_event::<C>())
                && (r matches Err(err) && is_payjoin(
                err,
                e.text(),
            )),
        }
}

/// What the ceremony does once the original transaction is known to be fit
/// for broadcast.
pub open spec fn after_broadcast<C: ReceiverEngine, W: ReceiverWallet<Input = C::InputPair>>(
    wallet: W,
    fee_range: FeeRange,
    p: C::MaybeInputsOwned,
    recorded: Events<C>,
    r: Result<C::PayjoinProposal, Error>,
) -> bool {
    exists|t| #[trigger]
        call_ensures(C::check_inputs_not_owned::<AsksOwned<W>>, (&p, &AsksOwned(&wallet)), t)
            && match t.outcome() {
            Ok(next) => exists|rest: Events<C>|
                recorded == t.events(failure_event::<C>()) + rest && #[trigger] after_owned::<C, W>(
                    wallet,
                    fee_range,
                    next,
                    rest,
                    r,
                ),
            Err(e) => recorded == t.events(failure_event::<C>())
                && (r matches Err(err) && is_payjoin(
                err,
                e.text(),
            )),
        }
}

/// What the ceremony does with the sender's original payload: the stages
/// it goes through, what each of them is asked with, the events they leave, in
/// order, and the proposal or the error that comes out.
pub open spec fn original_processed<C: ReceiverEngine, W: ReceiverWallet<Input = C::InputPair>>(
    wallet: W,
    fee_range: FeeRange,
    unchecked: C::UncheckedOriginalPayload,
    recorded: Events<C>,
    r: Result<C::PayjoinProposal, Error>,
) -> bool {
    exists|t| #[trigger]
        call_ensures(
            C::check_broadcast_suitability::<AsksBroadcast<W>>,
            (&unchecked, None::<u64>, &AsksBroadcast(&wallet)),
            t,
        ) && match t.outcome() {
            Ok(next) => exists|rest: Events<C>|
                recorded == t.events(failure_event::<C>()) + rest
                    && #[trigger] after_broadcast::<C, W>(
                    wallet,
                    fee_range,
                    next,
                    rest,
                    r,
                ),
            Err(e) => recorded == t.events(failure_event::<C>())
                && (r matches Err(err) && is_payjoin(
                err,
                e.text(),
            )),
        }
}

/// Runs the stages of the protocol on an original payload.
pub(crate) struct Ceremony<'a, C: ReceiverEngine, W: ReceiverWallet<Input = C::InputPair>> {
    pub(crate) wallet: &'a W,
    pub(crate) fee_range: FeeRange,
    pub(crate) events: Vec<ReceiverEvent<C>>,
}

impl<'a, C: ReceiverEngine, W: ReceiverWallet<Input = C::InputPair>> Ceremony<'a, C, W> {
    pub(crate) fn process_original(&mut self, unchecked: C::UncheckedOriginalPayload) -> (r: Result<
        C::PayjoinProposal,
        Error,
    >)
        ensures
            exists|recorded: Events<C>|
                final(self).events@ == old(self).events@ + recorded
                    && #[trigger] original_processed::<C, W>(
                    *old(self).wallet,
                    old(self).fee_range,
                    unchecked,
                    recorded,
                    r,
                ),
    {
        let t = C::check_broadcast_suitability(&unchecked, None, &AsksBroadcast(self.wallet));
        let (action, outcome) = t.deconstruct(closing_failure::<C>());
        let ghost saved = action.events();
        record(&mut self.events, action);
        match outcome {
            Ok(next) => {
                let r = self.check_inputs_not_owned(next);
                proof {
                    let rest = choose|rest: Events<C>|
                        self.events@ == old(self).events@ + saved + rest
                            && #[trigger] after_broadcast::<C, W>(
                            *old(self).wallet,
                            old(self).fee_range,
                            next,
                            rest,
                            r,
                        );
                    assert(self.events@ =~= old(self).events@ + (saved + rest));
                    assert(original_processed::<C, W>(
                        *old(self).wallet,
                        old(self).fee_range,
                        unchecked,
                        saved + rest,
                        r,
                    ));
                }
                r
            },
            Err(e) => {
                let r = Err(Error::payjoin(e));
                assert(original_processed::<C, W>(
                    *old(self).wallet,
                    old(self).fee_range,
                    unchecked,
                    saved,
                    r,
                ));
                r
            },
        }
    }

    fn check_inputs_not_owned(&mut self, p: C::MaybeInputsOwned) -> (r: Result<
        C::PayjoinProposal,
        Error,
    >)
        ensures
            exists|recorded: Events<C>|
                final(self).events@ == old(self).events@ + recorded
                    && #[trigger] after_broadcast::<C, W>(
                    *old(self).wallet,
                    old(self).fee_range,
                    p,
                    recorded,
                    r,
                ),
    {
        let t = C::check_inputs_not_owned(&p, &AsksOwned(self.wallet));
        let (action, outcome) = t.deconstruct(closing_failure::<C>());
        let ghost saved = action.events();
        record(&mut self.events, action);
        match outcome {
            Ok(next) => {
                let r = self.check_no_inputs_seen_before(next);
                proof {
                    let rest = choose|rest: Events<C>|
                        self.events@ == old(self).events@ + saved + rest
                            && #[trigger] after_owned::<C, W>(
                            *old(self).wallet,
                            old(self).fee_range,
                            next,
                            rest,
                            r,
                        );
                    assert(self.events@ =~= old(self).events@ + (saved + rest));
                    assert(after_broadcast::<C, W>(
                        *old(self).wallet,
                        old(self).fee_range,
                        p,
                        saved + rest,
                        r,
                    ));
                }
                r
            },
            Err(e) => {
                let r = Err(Error::payjoin(e));
                assert(after_broadcast::<C, W>(
                    *old(self).wallet,
                    old(self).fee_range,
                    p,
                    saved,
                    r,
                ));
                r
            },
        }
    }

    fn check_no_inputs_seen_before(&mut self, p: C::MaybeInputsSeen) -> (r: Result<
        C::PayjoinProposal,
        Error,
    >)
        ensures
            exists|recorded: Events<C>|
                final(self).events@ == old(self).events@ + recorded
                    && #[trigger] after_owned::<C, W>(
                    *old(self).wallet,
                    old(self).fee_range,
                    p,
                    recorded,
                    r,
                ),
    {
        let t = C::check_no_inputs_seen_before(&p, &NeverSeen);
        let (action, outcome) = t.deconstruct(closing_failure::<C>());
        let ghost saved = action.events();
        record(&mut self.events, action);
        match outcome {
            Ok(next) => {
                let r = self.identify_receiver_outputs(next);
                proof {
                    let rest = choose|rest: Events<C>|
                        self.events@ == old(self).events@ + saved + rest
                            && #[trigger] after_seen::<C, W>(
                            *old(self).wallet,
                            old(self).fee_range,
                            next,
                            rest,
                            r,
                        );
                    assert(self.events@ =~= old(self).events@ + (saved + rest));
                    assert(after_owned::<C, W>(
                        *old(self).wallet,
                        old(self).fee_range,
                        p,
                        saved + rest,
                        r,
                    ));
                }
                r
            },
            Err(e) => {
                let r = Err(Error::payjoin(e));
                assert(after_owned::<C, W>(
                    *old(self).wallet,
                    old(self).fee_range,
                    p,
                    saved,
                    r,
                ));
                r
            },
        }
    }

    fn identify_receiver_outputs(&mut self, p: C::OutputsUnknown) -> (r: Result<
        C::PayjoinProposal,
        Error,
    >)
        ensures
            exists|recorded: Events<C>|
                final(self).events@ == old(self).events@ + recorded
                    && #[trigger] after_seen::<C, W>(
                    *old(self).wallet,
                    old(self).fee_range,
                    p,
                    recorded,
                    r,
                ),
    {
        let t = C::identify_receiver_outputs(&p, &AsksOwned(self.wallet));
        let (action, outcome) = t.deconstruct(closing_failure::<C>());
        let ghost saved = action.events();
        record(&mut self.events, action);
        match outcome {
            Ok(next) => {
                let r = self.commit_outputs(next);
                proof {
                    let rest = choose|rest: Events<C>|
                        self.events@ == old(self).events@ + saved + rest
                            && #[trigger] after_identification::<C, W>(
                            *old(self).wallet,
                            old(self).fee_range,
                            next,
                            rest,
                            r,
                        );
                    assert(self.events@ =~= old(self).events@ + (saved + rest));
                    assert(after_seen::<C, W>(
                        *old(self).wallet,
                        old(self).fee_range,
                        p,
                        saved + rest,
                        r,
                    ));
                }
                r
            },
            Err(e) => {
                let r = Err(Error::payjoin(e));
                assert(after_seen::<C, W>(
                    *old(self).wallet,
                    old(self).fee_range,
                    p,
                    saved,
                    r,
                ));
                r
            },
        }
    }

    fn commit_outputs(&mut self, p: C::WantsOutputs) -> (r: Result<C::PayjoinProposal, Error>)
        ensures
            exists|recorded: Events<C>|
                final(self).events@ == old(self).events@ + recorded
                    && #[trigger] after_identification::<C, W>(
                    *old(self).wallet,
                    old(self).fee_range,
                    p,
                    recorded,
                    r,
                ),
    {
        let a = C::commit_outputs(&p);
        let ghost saved = seq![ReceiverEvent::<C>::Advanced(a.event)];
        record(&mut self.events, PersistAction::Save(ReceiverEvent::<C>::Advanced(a.event)));
        let r = self.choose_input(a.state);
        proof {
            let rest = choose|rest: Events<C>|
                self.events@ == old(self).events@ + saved + rest
                    && #[trigger] after_outputs::<C, W>(
                    *old(self).wallet,
                    old(self).fee_range,
                    a.state,
                    rest,
                    r,
                );
            assert(self.events@ =~= old(self).events@ + (saved + rest));
            assert(after_identification::<C, W>(
                *old(self).wallet,
                old(self).fee_range,
                p,
                saved + rest,
                r,
            ));
        }
        r
    }

    fn choose_input(&mut self, p: C::WantsInputs) -> (r: Result<C::PayjoinProposal, Error>)
        ensures
            exists|recorded: Events<C>|
                final(self).events@ == old(self).events@ + recorded
                    && #[trigger] after_outputs::<C, W>(
                    *old(self).wallet,
                    old(self).fee_range,
                    p,
                    recorded,
                    r,
                ),
    {
        let ghost none = Events::<C>::empty();
        assert(self.events@ =~= old(self).events@ + none);
        let candidates = match self.wallet.contribute() {
            Ok(candidates) => candidates,
            Err(e) => {
                let r = Err(e);
                assert(after_outputs::<C, W>(
                    *old(self).wallet,
                    old(self).fee_range,
                    p,
                    none,
                    r,
                ));
                return r;
            },
        };
        if candidates.len() == 0 {
            let r = Err(Error::Wallet("no candidate inputs to contribute".to_owned()));
            assert(after_outputs::<C, W>(*old(self).wallet, old(self).fee_range, p, none, r));
            return r;
        }
        match C::try_preserving_privacy(&p, candidates) {
            Ok(selected) => {
                let r = self.contribute_input(&p, selected);
                proof {
                    let recorded = choose|recorded: Events<C>|
                        self.events@ == old(self).events@ + recorded
                            && #[trigger] after_selection::<C, W>(
                            *old(self).wallet,
                            old(self).fee_range,
                            p,
                            selected,
                            recorded,
                            r,
                        );
                    assert(after_outputs::<C, W>(
                        *old(self).wallet,
                        old(self).fee_range,
                        p,
                        recorded,
                        r,
                    ));
                }
                r
            },
            Err(e) => {
                let r = Err(
                    Error::Payjoin(
                        "privacy-preserving selection: ".to_owned().concat(e.debug.as_str()),
                    ),
                );
                assert(after_outputs::<C, W>(
                    *old(self).wallet,
                    old(self).fee_range,
                    p,
                    none,
                    r,
                ));
                r
            },
        }
    }

    fn contribute_input(&mut self, p: &C::WantsInputs, selected: C::InputPair) -> (r: Result<
        C::PayjoinProposal,
        Error,
    >)
        ensures
            exists|recorded: Events<C>|
                final(self).events@ == old(self).events@ + recorded
                    && #[trigger] after_selection::<C, W>(
                    *old(self).wallet,
                    old(self).fee_range,
                    *p,
                    selected,
                    recorded,
                    r,
                ),
    {
        let mut inputs: Vec<C::InputPair> = Vec::new();
        inputs.push(selected);
        assert(inputs@ =~= seq![selected]);
        match C::contribute_inputs(p, inputs) {
            Ok(next) => {
                let a = C::commit_inputs(&next);
                let ghost saved = seq![ReceiverEvent::<C>::Advanced(a.event)];
                let event = ReceiverEvent::<C>::Advanced(a.event);
                record(&mut self.events, PersistAction::Save(event));
                let r = self.apply_fee_range(a.state);
                proof {
                    let rest = choose|rest: Events<C>|
                        self.events@ == old(self).events@ + saved + rest
                            && #[trigger] after_inputs::<C, W>(
                            *old(self).wallet,
                            old(self).fee_range,
                            a.state,
                            rest,
                            r,
                        );
                    assert(self.events@ =~= old(self).events@ + (saved + rest));
                    assert(after_selection::<C, W>(
                        *old(self).wallet,
                        old(self).fee_range,
                        *p,
                        selected,
                        saved + rest,
                        r,
                    ));
                }
                r
            },
            Err(e) => {
                let r = Err(
                    Error::Payjoin("contribute_inputs: ".to_owned().concat(e.debug.as_str())),
                );
                assert(self.events@ =~= old(self).events@ + Events::<C>::empty());
                assert(after_selection::<C, W>(
                    *old(self).wallet,
                    old(self).fee_range,
                    *p,
                    selected,
                    Events::<C>::empty(),
                    r,
                ));
                r
            },
        }
    }

    fn apply_fee_range(&mut self, p: C::WantsFeeRange) -> (r: Result<C::PayjoinProposal, Error>)
        ensures
            exists|recorded: Events<C>|
                final(self).events@ == old(self).events@ + recorded
                    && #[trigger] after_inputs::<C, W>(
                    *old(self).wallet,
                    old(self).fee_range,
                    p,
                    recorded,
                    r,
                ),
    {
        let t = C::apply_fee_range(&p, self.fee_range.min, self.fee_range.max);
        let (action, outcome) = t.deconstruct(closing_failure::<C>());
        let ghost saved = action.events();
        record(&mut self.events, action);
        match outcome {
            Ok(next) => {
                let r = self.finalize_proposal(next);
                proof {
                    let rest = choose|rest: Events<C>|
                        self.events@ == old(self).events@ + saved + rest
                            && #[trigger] after_fee_range::<C, W>(
                            *old(self).wallet,
                            next,
                            rest,
                            r,
                        );
                    assert(self.events@ =~= old(self).events@ + (saved + rest));
                    assert(after_inputs::<C, W>(
                        *old(self).wallet,
                        old(self).fee_range,
                        p,
                        saved + rest,
                        r,
                    ));
                }
                r
            },
            Err(e) => {
                let r = Err(Error::payjoin(e));
                assert(after_inputs::<C, W>(
                    *old(self).wallet,
                    old(self).fee_range,
                    p,
                    saved,
                    r,
                ));
                r
            },
        }
    }

    fn finalize_proposal(&mut self, p: C::ProvisionalProposal) -> (r: Result<
        C::PayjoinProposal,
        Error,
    >)
        ensures
            exists|recorded: Events<C>|
                final(self).events@ == old(self).events@ + recorded
                    && #[trigger] after_fee_range::<C, W>(
                    *old(self).wallet,
                    p,
                    recorded,
                    r,
                ),
    {
        let t = C::finalize_proposal(&p, &AsksSignature(self.wallet));
        let (action, outcome) = t.deconstruct(closing_failure::<C>());
        let ghost saved = action.events();
        record(&mut self.events, action);
        let r = match outcome {
            Ok(proposal) => Ok(proposal),
            Err(e) => Err(Error::payjoin(e)),
        };
        assert(after_fee_range::<C, W>(*old(self).wallet, p, saved, r));
        r
    }
}

/// The way of an original payload to a proposal: what came of each stage.
pub struct Passage<C: ReceiverEngine> {
    /// Is it fit for broadcast?
    pub broadcast: CheckReply<C, C::MaybeInputsOwned>,
    /// Does it spend none of the receiver's coins?
    pub not_owned: CheckReply<C, C::MaybeInputsSeen>,
    /// Are its coins seen for the first time?
    pub unseen: CheckReply<C, C::OutputsUnknown>,
    /// Does it pay the receiver?
    pub paying: CheckReply<C, C::WantsOutputs>,
    /// The outputs are settled.
    pub outputs: Advance<C::Payload, C::WantsInputs>,
    /// The receiver's input is in its place.
    pub contributed: C::WantsInputs,
    /// The inputs are settled.
    pub inputs: Advance<C::Payload, C::WantsFeeRange>,
    /// Are the fees within the range?
    pub fees: ReceiverReply<C, C::ProvisionalProposal, ProtocolError>,
    /// The signature.
    pub signature: ReceiverReply<C, C::PayjoinProposal, ImplementationError>,
}

impl<C: ReceiverEngine> Passage<C> {
    /// The events that the stages leave to be saved, in order.
    pub open spec fn events(self) -> Events<C> {
        let failure = failure_event::<C>();
        self.broadcast.events(failure) + (self.not_owned.events(failure) + (self.unseen.events(
            failure,
        ) + (self.paying.events(failure) + (seq![
            ReceiverEvent::<C>::Advanced(self.outputs.event),
        ] + (seq![ReceiverEvent::<C>::Advanced(self.inputs.event)] + (self.fees.events(failure)
            + self.signature.events(failure)))))))
    }
}

/// Whether `input` is what the wallet and the protocol chose to contribute.
pub open spec fn input_chosen<C: ReceiverEngine, W: ReceiverWallet<Input = C::InputPair>>(
    wallet: W,
    p: C::WantsInputs,
    input: C::InputPair,
) -> bool {
    exists|candidates: Vec<C::InputPair>| #[trigger]
        call_ensures(W::contribute, (&wallet,), Ok::<Vec<C::InputPair>, Error>(candidates))
            && candidates@.len() > 0 && call_ensures(
            C::try_preserving_privacy,
            (&p, candidates),
            Ok::<C::InputPair, SelectionError>(input),
        )
}

/// Whether each stage of `passage` went on from the one before by the answer of
/// the protocol, with the wallet asked where it has a say, and ended in
/// `proposal`.
pub open spec fn passed<C: ReceiverEngine, W: ReceiverWallet<Input = C::InputPair>>(
    wallet: W,
    fee_range: FeeRange,
    unchecked: C::UncheckedOriginalPayload,
    passage: Passage<C>,
    proposal: C::PayjoinProposal,
) -> bool {
    &&& call_ensures(
        C::check_broadcast_suitability::<AsksBroadcast<W>>,
        (&unchecked, None::<u64>, &AsksBroadcast(&wallet)),
        passage.broadcast,
    )
    &&& passage.broadcast.outcome() matches Ok(broadcastable) && {
        &&& call_ensures(
            C::check_inputs_not_owned::<AsksOwned<W>>,
            (&broadcastable, &AsksOwned(&wallet)),
            passage.not_owned,
        )
        &&& passage.not_owned.outcome() matches Ok(not_owned) && {
            &&& call_ensures(
                C::check_no_inputs_seen_before::<NeverSeen>,
                (&not_owned, &NeverSeen),
                passage.unseen,
            )
            &&& passage.unseen.outcome() matches Ok(unseen) && {
                &&& call_ensures(
                    C::identify_receiver_outputs::<AsksOwned<W>>,
                    (&unseen, &AsksOwned(&wallet)),
                    passage.paying,
                )
                &&& passage.paying.outcome() matches Ok(paying) && call_ensures(
                    C::commit_outputs,
                    (&paying,),
                    passage.outputs,
                )
            }
        }
    }
    &&& exists|inputs: Vec<C::InputPair>| #[trigger]
        call_ensures(
            C::contribute_inputs,
            (&passage.outputs.state, inputs),
            Ok::<C::WantsInputs, InputContributionError>(passage.contributed),
        ) && inputs@.len() == 1 && input_chosen::<C, W>(wallet, passage.outputs.state, inputs@[0])
    &&& call_ensures(C::commit_inputs, (&passage.contributed,), passage.inputs)
    &&& call_ensures(
        C::apply_fee_range,
        (&passage.inputs.state, fee_range.min, fee_range.max),
        passage.fees,
    )
    &&& passage.fees.outcome() matches Ok(priced) && call_ensures(
        C::finalize_proposal::<AsksSignature<W>>,
        (&priced, &AsksSignature(&wallet)),
        passage.signature,
    )
    &&& passage.signature.outcome() == Ok::<C::PayjoinProposal, ApiError<ImplementationError>>(
        proposal,
    )
}

/// The wallet signs only what has passed every check. A proposal comes out of
/// an original payload only by way of all stages in their order: broadcast
/// suitability, inputs not owned, inputs not seen, outputs identified and
/// settled, an input of the wallet's own contributed, fees within the range,
/// and the signature last. The events left to be saved are those of the
/// stages, in that order.
pub proof fn law_a_proposal_has_passed_every_check<
    C: ReceiverEngine,
    W: ReceiverWallet<Input = C::InputPair>,
>(
    wallet: W,
    fee_range: FeeRange,
    unchecked: C::UncheckedOriginalPayload,
    recorded: Seq<ReceiverEvent<C>>,
    proposal: C::PayjoinProposal,
)
    requires
        original_processed::<C, W>(wallet, fee_range, unchecked, recorded, Ok(proposal)),
    ensures
        exists|passage: Passage<C>| #[trigger]
            passed::<C, W>(wallet, fee_range, unchecked, passage, proposal) && recorded
                == passage.events(),
{
    let r = Ok::<C::PayjoinProposal, Error>(proposal);
    let (broadcast, rest1) = choose|
        t: CheckReply<C, C::MaybeInputsOwned>,
        rest: Events<C>,
    | #[trigger]
        call_ensures(
            C::check_broadcast_suitability::<AsksBroadcast<W>>,
            (&unchecked, None::<u64>, &AsksBroadcast(&wallet)),
            t,
        ) && t.outcome() is Ok && recorded == t.events(failure_event::<C>()) + rest
            && #[trigger] after_broadcast::<C, W>(wallet, fee_range, t.outcome()->Ok_0, rest, r);
    let broadcastable = broadcast.outcome()->Ok_0;
    let (not_owned, rest2) = choose|
        t: CheckReply<C, C::MaybeInputsSeen>,
        rest: Events<C>,
    | #[trigger]
        call_ensures(
            C::check_inputs_not_owned::<AsksOwned<W>>,
            (&broadcastable, &AsksOwned(&wallet)),
            t,
        ) && t.outcome() is Ok && rest1 == t.events(failure_event::<C>()) + rest
            && #[trigger] after_owned::<C, W>(
            wallet,
            fee_range,
            t.outcome()->Ok_0,
            rest,
            r,
        );
    let strangers = not_owned.outcome()->Ok_0;
    let (unseen, rest3) = choose|
        t: CheckReply<C, C::OutputsUnknown>,
        rest: Events<C>,
    | #[trigger]
        call_ensures(
            C::check_no_inputs_seen_before::<NeverSeen>,
            (&strangers, &NeverSeen),
            t,
        ) && t.outcome() is Ok && rest2 == t.events(failure_event::<C>()) + rest
            && #[trigger] after_seen::<C, W>(
            wallet,
            fee_range,
            t.outcome()->Ok_0,
            rest,
            r,
        );
    let fresh = unseen.outcome()->Ok_0;
    let (paying, rest4) = choose|
        t: CheckReply<C, C::WantsOutputs>,
        rest: Events<C>,
    | #[trigger]
        call_ensures(
            C::identify_receiver_outputs::<AsksOwned<W>>,
            (&fresh, &AsksOwned(&wallet)),
            t,
        ) && t.outcome() is Ok && rest3 == t.events(failure_event::<C>()) + rest
            && #[trigger] after_identification::<C, W>(
            wallet,
            fee_range,
            t.outcome()->Ok_0,
            rest,
            r,
        );
    let paid = paying.outcome()->Ok_0;
    let (outputs, rest5) = choose|
        a: Advance<C::Payload, C::WantsInputs>,
        rest: Events<C>,
    | #[trigger]
        call_ensures(C::commit_outputs, (&paid,), a) && rest4 == seq![
            ReceiverEvent::<C>::Advanced(a.event),
        ] + rest && #[trigger] after_outputs::<C, W>(wallet, fee_range, a.state, rest, r);
    let selected = choose|selected: C::InputPair| #[trigger]
        after_selection::<C, W>(wallet, fee_range, outputs.state, selected, rest5, r)
            && input_chosen::<C, W>(wallet, outputs.state, selected);
    let (chosen, contributed, inputs, rest6) = choose|
        chosen: Vec<C::InputPair>,
        contributed: C::WantsInputs,
        inputs: Advance<C::Payload, C::WantsFeeRange>,
        rest: Events<C>,
    |
        chosen@ == seq![selected] && #[trigger] call_ensures(
            C::contribute_inputs,
            (&outputs.state, chosen),
            Ok::<C::WantsInputs, InputContributionError>(contributed),
        ) && #[trigger] call_ensures(C::commit_inputs, (&contributed,), inputs) && rest5 == seq![
            ReceiverEvent::<C>::Advanced(inputs.event),
        ] + rest && #[trigger] after_inputs::<C, W>(wallet, fee_range, inputs.state, rest, r);
    let (fees, rest7) = choose|
        t: ReceiverReply<C, C::ProvisionalProposal, ProtocolError>,
        rest: Events<C>,
    | #[trigger]
        call_ensures(C::apply_fee_range, (&inputs.state, fee_range.min, fee_range.max), t)
            && t.outcome() is Ok && rest6 == t.events(failure_event::<C>()) + rest
            && #[trigger] after_fee_range::<C, W>(wallet, t.outcome()->Ok_0, rest, r);
    let priced = fees.outcome()->Ok_0;
    let signature = choose|
        t: ReceiverReply<C, C::PayjoinProposal, ImplementationError>,
    | #[trigger]
        call_ensures(
            C::finalize_proposal::<AsksSignature<W>>,
            (&priced, &AsksSignature(&wallet)),
            t,
        ) && rest7 == t.events(failure_event::<C>()) && t.outcome() == Ok::<
            C::PayjoinProposal,
            ApiError<ImplementationError>,
        >(proposal);
    let passage = Passage::<C> {
        broadcast,
        not_owned,
        unseen,
        paying,
        outputs,
        contributed,
        inputs,
        fees,
        signature,
    };
    assert(call_ensures(
        C::contribute_inputs,
        (&passage.outputs.state, chosen),
        Ok::<C::WantsInputs, InputContributionError>(passage.contributed),
    ));
    assert(input_chosen::<C, W>(wallet, passage.outputs.state, chosen@[0]));
    assert(passed::<C, W>(wallet, fee_range, unchecked, passage, proposal));
    assert(recorded == passage.events());
}

/// A processed original payload leaves eight events: one of each stage that
/// moves the session.
pub proof fn law_each_stage_leaves_its_event<
    C: ReceiverEngine,
    W: ReceiverWallet<Input = C::InputPair>,
>(
    wallet: W,
    fee_range: FeeRange,
    unchecked: C::UncheckedOriginalPayload,
    passage: Passage<C>,
    proposal: C::PayjoinProposal,
)
    requires
        passed::<C, W>(wallet, fee_range, unchecked, passage, proposal),
    ensures
        passage.events().len() == 8,
{
}

/// Whether every check lets the original payload pass: it is fit for broadcast,
/// spends none of the wallet's coins, its coins are new, and it pays the wallet.
pub open spec fn acceptable<C: ReceiverEngine, W: ReceiverWallet<Input = C::InputPair>>(
    wallet: W,
    unchecked: C::UncheckedOriginalPayload,
) -> bool {
    &&& forall|t: CheckReply<C, C::MaybeInputsOwned>| #[trigger]
        call_ensures(
            C::check_broadcast_suitability::<AsksBroadcast<W>>,
            (&unchecked, None::<u64>, &AsksBroadcast(&wallet)),
            t,
        ) ==> t is Success
    &&& forall|p: C::MaybeInputsOwned, t: CheckReply<C, C::MaybeInputsSeen>| #[trigger]
        call_ensures(
            C::check_inputs_not_owned::<AsksOwned<W>>,
            (&p, &AsksOwned(&wallet)),
            t,
        ) ==> t is Success
    &&& forall|p: C::MaybeInputsSeen, t: CheckReply<C, C::OutputsUnknown>| #[trigger]
        call_ensures(
            C::check_no_inputs_seen_before::<NeverSeen>,
            (&p, &NeverSeen),
            t,
        ) ==> t is Success
    &&& forall|p: C::OutputsUnknown, t: CheckReply<C, C::WantsOutputs>| #[trigger]
        call_ensures(
            C::identify_receiver_outputs::<AsksOwned<W>>,
            (&p, &AsksOwned(&wallet)),
            t,
        ) ==> t is Success
}

/// Every list of inputs that a wallet offers for an acceptable payload, however
/// long, is handed to the protocol as it is, unless there is nothing on it:
/// then the wallet is told that it has no candidates, and nothing else is.
pub proof fn law_offered_inputs_reach_the_protocol<
    C: ReceiverEngine,
    W: ReceiverWallet<Input = C::InputPair>,
>(
    wallet: W,
    fee_range: FeeRange,
    unchecked: C::UncheckedOriginalPayload,
    candidates: Vec<C::InputPair>,
    recorded: Seq<ReceiverEvent<C>>,
    r: Result<C::PayjoinProposal, Error>,
)
    requires
        acceptable::<C, W>(wallet, unchecked),
        forall|offered: Result<Vec<C::InputPair>, Error>| #[trigger]
            call_ensures(W::contribute, (&wallet,), offered) ==> offered == Ok::<
                Vec<C::InputPair>,
                Error,
            >(candidates),
        original_processed::<C, W>(wallet, fee_range, unchecked, recorded, r),
    ensures
        candidates@.len() > 0 ==> exists|
            p: C::WantsInputs,
            selected: Result<C::InputPair, SelectionError>,
        | #[trigger]
            call_ensures(C::try_preserving_privacy, (&p, candidates), selected) && (
            selected matches Err(e) ==> (r matches Err(Error::Payjoin(msg)) && msg@
                == "privacy-preserving selection: "@ + e.debug@)),
        candidates@.len() == 0 ==> (r matches Err(Error::Wallet(msg)) && msg@
            == "no candidate inputs to contribute"@),
        candidates@.len() == 0 ==> recorded.len() == 5,
{
    let (t1, rest1) = choose|t: CheckReply<C, C::MaybeInputsOwned>, rest: Events<C>| #[trigger]
        call_ensures(
            C::check_broadcast_suitability::<AsksBroadcast<W>>,
            (&unchecked, None::<u64>, &AsksBroadcast(&wallet)),
            t,
        ) && t.outcome() is Ok && recorded == t.events(failure_event::<C>()) + rest
            && #[trigger] after_broadcast::<C, W>(wallet, fee_range, t.outcome()->Ok_0, rest, r);
    let (t2, rest2) = choose|t: CheckReply<C, C::MaybeInputsSeen>, rest: Events<C>| #[trigger]
        call_ensures(
            C::check_inputs_not_owned::<AsksOwned<W>>,
            (&t1.outcome()->Ok_0, &AsksOwned(&wallet)),
            t,
        ) && t.outcome() is Ok && rest1 == t.events(failure_event::<C>()) + rest
            && #[trigger] after_owned::<C, W>(wallet, fee_range, t.outcome()->Ok_0, rest, r);
    let (t3, rest3) = choose|t: CheckReply<C, C::OutputsUnknown>, rest: Events<C>| #[trigger]
        call_ensures(
            C::check_no_inputs_seen_before::<NeverSeen>,
            (&t2.outcome()->Ok_0, &NeverSeen),
            t,
        ) && t.outcome() is Ok && rest2 == t.events(failure_event::<C>()) + rest
            && #[trigger] after_seen::<C, W>(wallet, fee_range, t.outcome()->Ok_0, rest, r);
    let (t4, rest4) = choose|t: CheckReply<C, C::WantsOutputs>, rest: Events<C>| #[trigger]
        call_ensures(
            C::identify_receiver_outputs::<AsksOwned<W>>,
            (&t3.outcome()->Ok_0, &AsksOwned(&wallet)),
            t,
        ) && t.outcome() is Ok && rest3 == t.events(failure_event::<C>()) + rest
            && #[trigger] after_identification::<C, W>(
            wallet,
            fee_range,
            t.outcome()->Ok_0,
            rest,
            r,
        );
    let (a, rest5) = choose|a: Advance<C::Payload, C::WantsInputs>, rest: Events<C>| #[trigger]
        call_ensures(C::commit_outputs, (&t4.outcome()->Ok_0,), a) && rest4 == seq![
            ReceiverEvent::<C>::Advanced(a.event),
        ] + rest && #[trigger] after_outputs::<C, W>(wallet, fee_range, a.state, rest, r);
    if candidates@.len() > 0 {
        let selected = choose|selected: Result<C::InputPair, SelectionError>| #[trigger]
            call_ensures(C::try_preserving_privacy, (&a.state, candidates), selected) && (
            selected matches Err(e) ==> (r matches Err(err) && is_payjoin(
                err,
                "privacy-preserving selection: "@ + e.debug@,
            )));
        assert(call_ensures(C::try_preserving_privacy, (&a.state, candidates), selected));
    }
}

/// Whether the protocol goes on with whatever input the wallet offers, and the
/// wallet has one to offer: an input is selected and contributed, the fees are
/// within the range, and the proposal is signed.
pub open spec fn willing<C: ReceiverEngine, W: ReceiverWallet<Input = C::InputPair>>(
    wallet: W,
    fee_range: FeeRange,
) -> bool {
    &&& forall|offered: Result<Vec<C::InputPair>, Error>| #[trigger]
        call_ensures(W::contribute, (&wallet,), offered) ==> offered is Ok
            && offered->Ok_0@.len() > 0
    &&& forall|
        p: C::WantsInputs,
        candidates: Vec<C::InputPair>,
        selected: Result<C::InputPair, SelectionError>,
    |
        candidates@.len() > 0 && #[trigger] call_ensures(
            C::try_preserving_privacy,
            (&p, candidates),
            selected,
        ) ==> selected is Ok
    &&& forall|
        p: C::WantsInputs,
        inputs: Vec<C::InputPair>,
        contributed: Result<C::WantsInputs, InputContributionError>,
    |
        inputs@.len() == 1 && #[trigger] call_ensures(
            C::contribute_inputs,
            (&p, inputs),
            contributed,
        ) ==> contributed is Ok
    &&& forall|p: C::WantsFeeRange, t: ReceiverReply<C, C::ProvisionalProposal, ProtocolError>|
        #[trigger] call_ensures(
            C::apply_fee_range,
            (&p, fee_range.min, fee_range.max),
            t,
        ) ==> t is Success
    &&& forall|
        p: C::ProvisionalProposal,
        t: ReceiverReply<C, C::PayjoinProposal, ImplementationError>,
    | #[trigger]
        call_ensures(
            C::finalize_proposal::<AsksSignature<W>>,
            (&p, &AsksSignature(&wallet)),
            t,
        ) ==> t is Success
}

/// What all parties agree to is done: an acceptable payload becomes a proposal
/// if the wallet offers at least one input, no matter how many, and every
/// stage of the protocol answers with success. Nothing else stops it, and each
/// of the eight stages that move the session leaves its event.
pub proof fn law_willing_parties_make_a_proposal<
    C: ReceiverEngine,
    W: ReceiverWallet<Input = C::InputPair>,
>(
    wallet: W,
    fee_range: FeeRange,
    unchecked: C::UncheckedOriginalPayload,
    recorded: Seq<ReceiverEvent<C>>,
    r: Result<C::PayjoinProposal, Error>,
)
    requires
        acceptable::<C, W>(wallet, unchecked),
        willing::<C, W>(wallet, fee_range),
        original_processed::<C, W>(wallet, fee_range, unchecked, recorded, r),
    ensures
        r is Ok,
        recorded.len() == 8,
        exists|p: C::WantsFeeRange, t: ReceiverReply<C, C::ProvisionalProposal, ProtocolError>|
            #[trigger] call_ensures(C::apply_fee_range, (&p, fee_range.min, fee_range.max), t),
{
    let (t1, rest1) = choose|t: CheckReply<C, C::MaybeInputsOwned>, rest: Events<C>| #[trigger]
        call_ensures(
            C::check_broadcast_suitability::<AsksBroadcast<W>>,
            (&unchecked, None::<u64>, &AsksBroadcast(&wallet)),
            t,
        ) && t.outcome() is Ok && recorded == t.events(failure_event::<C>()) + rest
            && #[trigger] after_broadcast::<C, W>(wallet, fee_range, t.outcome()->Ok_0, rest, r);
    let (t2, rest2) = choose|t: CheckReply<C, C::MaybeInputsSeen>, rest: Events<C>| #[trigger]
        call_ensures(
            C::check_inputs_not_owned::<AsksOwned<W>>,
            (&t1.outcome()->Ok_0, &AsksOwned(&wallet)),
            t,
        ) && t.outcome() is Ok && rest1 == t.events(failure_event::<C>()) + rest
            && #[trigger] after_owned::<C, W>(wallet, fee_range, t.outcome()->Ok_0, rest, r);
    let (t3, rest3) = choose|t: CheckReply<C, C::OutputsUnknown>, rest: Events<C>| #[trigger]
        call_ensures(
            C::check_no_inputs_seen_before::<NeverSeen>,
            (&t2.outcome()->Ok_0, &NeverSeen),
            t,
        ) && t.outcome() is Ok && rest2 == t.events(failure_event::<C>()) + rest
            && #[trigger] after_seen::<C, W>(wallet, fee_range, t.outcome()->Ok_0, rest, r);
    let (t4, rest4) = choose|t: CheckReply<C, C::WantsOutputs>, rest: Events<C>| #[trigger]
        call_ensures(
            C::identify_receiver_outputs::<AsksOwned<W>>,
            (&t3.outcome()->Ok_0, &AsksOwned(&wallet)),
            t,
        ) && t.outcome() is Ok && rest3 == t.events(failure_event::<C>()) + rest
            && #[trigger] after_identification::<C, W>(
            wallet,
            fee_range,
            t.outcome()->Ok_0,
            rest,
            r,
        );
    let (a, rest5) = choose|a: Advance<C::Payload, C::WantsInputs>, rest: Events<C>| #[trigger]
        call_ensures(C::commit_outputs, (&t4.outcome()->Ok_0,), a) && rest4 == seq![
            ReceiverEvent::<C>::Advanced(a.event),
        ] + rest && #[trigger] after_outputs::<C, W>(wallet, fee_range, a.state, rest, r);
    let selected = choose|selected: C::InputPair| #[trigger]
        after_selection::<C, W>(wallet, fee_range, a.state, selected, rest5, r);
    let (inputs, contributed) = choose|
        inputs: Vec<C::InputPair>,
        contributed: Result<C::WantsInputs, InputContributionError>,
    |
        inputs@ == seq![selected] && #[trigger] call_ensures(
            C::contribute_inputs,
            (&a.state, inputs),
            contributed,
        ) && match contributed {
            Ok(next) => exists|b| #[trigger]
                call_ensures(C::commit_inputs, (&next,), b) && exists|rest: Events<C>|
                    rest5 == seq![ReceiverEvent::<C>::Advanced(b.event)] + rest
                        && #[trigger] after_inputs::<C, W>(wallet, fee_range, b.state, rest, r),
            Err(e) => rest5 == Events::<C>::empty() && (r matches Err(err) && is_payjoin(
                err,
                "contribute_inputs: "@ + e.debug@,
            )),
        };
    assert(inputs@.len() == 1);
    let next = contributed->Ok_0;
    let (b, rest6) = choose|b: Advance<C::Payload, C::WantsFeeRange>, rest: Events<C>| #[trigger]
        call_ensures(C::commit_inputs, (&next,), b) && rest5 == seq![
            ReceiverEvent::<C>::Advanced(b.event),
        ] + rest && #[trigger] after_inputs::<C, W>(wallet, fee_range, b.state, rest, r);
    let (t5, rest7) = choose|
        t: ReceiverReply<C, C::ProvisionalProposal, ProtocolError>,
        rest: Events<C>,
    | #[trigger]
        call_ensures(C::apply_fee_range, (&b.state, fee_range.min, fee_range.max), t)
            && t.outcome() is Ok && rest6 == t.events(failure_event::<C>()) + rest
            && #[trigger] after_fee_range::<C, W>(wallet, t.outcome()->Ok_0, rest, r);
    assert(call_ensures(C::apply_fee_range, (&b.state, fee_range.min, fee_range.max), t5));
    let t6 = choose|t: ReceiverReply<C, C::PayjoinProposal, ImplementationError>| #[trigger]
        call_ensures(
            C::finalize_proposal::<AsksSignature<W>>,
            (&t5.outcome()->Ok_0, &AsksSignature(&wallet)),
            t,
        ) && rest7 == t.events(failure_event::<C>()) && match t.outcome() {
            Ok(proposal) => r == Ok::<C::PayjoinProposal, Error>(proposal),
            Err(e) => r matches Err(err) && is_payjoin(err, e.text()),
        };
    assert(t6 is Success);
    assert(rest7.len() == 1);
}

/// Whether a check stopped the ceremony with `err`, leaving the events `left`.
pub open spec fn check_stopped<C: ReceiverEngine, T>(
    t: CheckReply<C, T>,
    left: Seq<ReceiverEvent<C>>,
    err: Error,
) -> bool {
    match t {
        CheckTransition::Success(_, _) => false,
        CheckTransition::Transient(e) => left.len() == 0 && (err matches Error::Payjoin(msg) && msg@
            == "Transient error: "@ + e.msg@),
        CheckTransition::Fatal(e) => left == seq![
            SessionEvent::<C::Payload, SessionOutcome<C::Proceeds>>::Closed(
                SessionOutcome::Failure,
            ),
        ] && (err matches Error::Payjoin(msg) && msg@ == "Fatal error: "@ + e.msg@),
        CheckTransition::FatalWithState(event, e, _) => left == seq![event] && (
        err matches Error::Payjoin(msg) && msg@ == "Fatal error: "@ + e.msg@),
    }
}

/// Whether a transition stopped the ceremony with `err`, leaving the events
/// `left`.
pub open spec fn reply_stopped<C: ReceiverEngine, T, X: Message>(
    t: ReceiverReply<C, T, X>,
    left: Seq<ReceiverEvent<C>>,
    err: Error,
) -> bool {
    match t {
        Transition::Success(_, _) => false,
        Transition::Transient(e) => left.len() == 0 && (err matches Error::Payjoin(msg) && msg@
            == "Transient error: "@ + e.text()),
        Transition::Fatal(e) => left == seq![
            SessionEvent::<C::Payload, SessionOutcome<C::Proceeds>>::Closed(
                SessionOutcome::Failure,
            ),
        ] && (err matches Error::Payjoin(msg) && msg@ == "Fatal error: "@ + e.text()),
    }
}

/// Whether the choice of an input stopped the ceremony with `err`: the wallet
/// failed, offered nothing, or offered what the protocol did not take.
pub open spec fn choice_stopped<C: ReceiverEngine, W: ReceiverWallet<Input = C::InputPair>>(
    wallet: W,
    err: Error,
) -> bool {
    ||| call_ensures(W::contribute, (&wallet,), Err(err))
    ||| exists|candidates: Vec<C::InputPair>| #[trigger]
        call_ensures(W::contribute, (&wallet,), Ok::<Vec<C::InputPair>, Error>(candidates))
            && candidates@.len() == 0 && (err matches Error::Wallet(msg) && msg@
            == "no candidate inputs to contribute"@)
    ||| exists|p: C::WantsInputs, candidates: Vec<C::InputPair>, e: SelectionError|
        call_ensures(W::contribute, (&wallet,), Ok::<Vec<C::InputPair>, Error>(candidates))
            && candidates@.len() > 0 && #[trigger] call_ensures(
            C::try_preserving_privacy,
            (&p, candidates),
            Err::<C::InputPair, SelectionError>(e),
        ) && (err matches Error::Payjoin(msg) && msg@ == "privacy-preserving selection: "@
            + e.debug@)
    ||| exists|p: C::WantsInputs, inputs: Vec<C::InputPair>, e: InputContributionError|
        inputs@.len() == 1 && input_chosen::<C, W>(wallet, p, inputs@[0])
            && #[trigger] call_ensures(
            C::contribute_inputs,
            (&p, inputs),
            Err::<C::WantsInputs, InputContributionError>(e),
        ) && (err matches Error::Payjoin(msg) && msg@ == "contribute_inputs: "@ + e.debug@)
}

/// Whether the ceremony stopped with `err` at the stage that `n` recorded moves
/// come before, which left the events `left`.
pub open spec fn stopped_after<C: ReceiverEngine, W: ReceiverWallet<Input = C::InputPair>>(
    wallet: W,
    fee_range: FeeRange,
    unchecked: C::UncheckedOriginalPayload,
    n: int,
    left: Seq<ReceiverEvent<C>>,
    err: Error,
) -> bool {
    ||| n == 0 && exists|t: CheckReply<C, C::MaybeInputsOwned>| #[trigger]
        call_ensures(
            C::check_broadcast_suitability::<AsksBroadcast<W>>,
            (&unchecked, None::<u64>, &AsksBroadcast(&wallet)),
            t,
        ) && check_stopped::<C, C::MaybeInputsOwned>(t, left, err)
    ||| n == 1 && exists|p: C::MaybeInputsOwned, t: CheckReply<C, C::MaybeInputsSeen>| #[trigger]
        call_ensures(
            C::check_inputs_not_owned::<AsksOwned<W>>,
            (&p, &AsksOwned(&wallet)),
            t,
        ) && check_stopped::<C, C::MaybeInputsSeen>(t, left, err)
    ||| n == 2 && exists|p: C::MaybeInputsSeen, t: CheckReply<C, C::OutputsUnknown>| #[trigger]
        call_ensures(
            C::check_no_inputs_seen_before::<NeverSeen>,
            (&p, &NeverSeen),
            t,
        ) && check_stopped::<C, C::OutputsUnknown>(t, left, err)
    ||| n == 3 && exists|p: C::OutputsUnknown, t: CheckReply<C, C::WantsOutputs>| #[trigger]
        call_ensures(
            C::identify_receiver_outputs::<AsksOwned<W>>,
            (&p, &AsksOwned(&wallet)),
            t,
        ) && check_stopped::<C, C::WantsOutputs>(t, left, err)
    ||| n == 5 && left.len() == 0 && choice_stopped::<C, W>(wallet, err)
    ||| n == 6 && exists|
        p: C::WantsFeeRange,
        t: ReceiverReply<C, C::ProvisionalProposal, ProtocolError>,
    | #[trigger]
        call_ensures(C::apply_fee_range, (&p, fee_range.min, fee_range.max), t) && reply_stopped::<
            C,
            C::ProvisionalProposal,
            ProtocolError,
        >(t, left, err)
    ||| n == 7 && exists|
        p: C::ProvisionalProposal,
        t: ReceiverReply<C, C::PayjoinProposal, ImplementationError>,
    | #[trigger]
        call_ensures(
            C::finalize_proposal::<AsksSignature<W>>,
            (&p, &AsksSignature(&wallet)),
            t,
        ) && reply_stopped::<C, C::PayjoinProposal, ImplementationError>(t, left, err)
}

/// An error is that of the stage that stopped the ceremony, and of no other. The
/// moves before it stay recorded, and what it leaves itself comes last.
pub proof fn law_an_error_is_that_of_the_stage_that_stopped<
    C: ReceiverEngine,
    W: ReceiverWallet<Input = C::InputPair>,
>(
    wallet: W,
    fee_range: FeeRange,
    unchecked: C::UncheckedOriginalPayload,
    recorded: Seq<ReceiverEvent<C>>,
    err: Error,
)
    requires
        original_processed::<C, W>(wallet, fee_range, unchecked, recorded, Err(err)),
    ensures
        exists|n: int|
            0 <= n <= recorded.len() && #[trigger] stopped_after::<C, W>(
                wallet,
                fee_range,
                unchecked,
                n,
                recorded.skip(n),
                err,
            ),
{
    let r = Err::<C::PayjoinProposal, Error>(err);
    let t1 = choose|t: CheckReply<C, C::MaybeInputsOwned>| #[trigger]
        call_ensures(
            C::check_broadcast_suitability::<AsksBroadcast<W>>,
            (&unchecked, None::<u64>, &AsksBroadcast(&wallet)),
            t,
        ) && match t.outcome() {
            Ok(next) => exists|rest: Events<C>|
                recorded == t.events(failure_event::<C>()) + rest
                    && #[trigger] after_broadcast::<C, W>(wallet, fee_range, next, rest, r),
            Err(e) => recorded == t.events(failure_event::<C>()) && is_payjoin(err, e.text()),
        };
    if t1 !is Success {
        assert(recorded.skip(0) =~= recorded);
        assert(check_stopped::<C, C::MaybeInputsOwned>(t1, recorded, err));
        assert(stopped_after::<C, W>(wallet, fee_range, unchecked, 0, recorded.skip(0), err));
    } else {
        let rest1 = choose|rest: Events<C>|
            recorded == t1.events(failure_event::<C>()) + rest && #[trigger] after_broadcast::<
                C,
                W,
            >(wallet, fee_range, t1.outcome()->Ok_0, rest, r);
        assert(recorded.skip(1) =~= rest1);
        lemma_stopped_at_owned::<C, W>(
            wallet,
            fee_range,
            unchecked,
            t1.outcome()->Ok_0,
            recorded,
            err,
        );
    }
}

/// What follows `one` event behind the first `n`.
proof fn lemma_behind_one<E>(all: Seq<E>, n: int, one: Seq<E>, rest: Seq<E>)
    requires
        0 <= n <= all.len(),
        one.len() == 1,
        all.skip(n) == one + rest,
    ensures
        all.len() >= n + 1,
        all.skip(n + 1) == rest,
{
    assert(all.skip(n).len() == 1 + rest.len());
    assert forall|i: int| 0 <= i < rest.len() implies all.skip(n + 1)[i] == rest[i] by {
        assert((one + rest)[i + 1] == rest[i]);
        assert(all.skip(n)[i + 1] == all[n + (i + 1)]);
        assert(all.skip(n + 1)[i] == all[(n + 1) + i]);
    }
    assert(all.skip(n + 1) =~= rest);
}

proof fn lemma_stopped_at_owned<C: ReceiverEngine, W: ReceiverWallet<Input = C::InputPair>>(
    wallet: W,
    fee_range: FeeRange,
    unchecked: C::UncheckedOriginalPayload,
    p: C::MaybeInputsOwned,
    recorded: Seq<ReceiverEvent<C>>,
    err: Error,
)
    requires
        recorded.len() >= 1,
        after_broadcast::<C, W>(wallet, fee_range, p, recorded.skip(1), Err(err)),
    ensures
        exists|n: int|
            1 <= n <= recorded.len() && #[trigger] stopped_after::<C, W>(
                wallet,
                fee_range,
                unchecked,
                n,
                recorded.skip(n),
                err,
            ),
{
    let r = Err::<C::PayjoinProposal, Error>(err);
    let here = recorded.skip(1);
    let t = choose|t: CheckReply<C, C::MaybeInputsSeen>| #[trigger]
        call_ensures(
            C::check_inputs_not_owned::<AsksOwned<W>>,
            (&p, &AsksOwned(&wallet)),
            t,
        ) && match t.outcome() {
            Ok(next) => exists|rest: Events<C>|
                here == t.events(failure_event::<C>()) + rest && #[trigger] after_owned::<C, W>(
                    wallet,
                    fee_range,
                    next,
                    rest,
                    r,
                ),
            Err(e) => here == t.events(failure_event::<C>()) && is_payjoin(err, e.text()),
        };
    if t !is Success {
        assert(check_stopped::<C, C::MaybeInputsSeen>(t, here, err));
        assert(stopped_after::<C, W>(wallet, fee_range, unchecked, 1, recorded.skip(1), err));
    } else {
        let rest = choose|rest: Events<C>|
            here == t.events(failure_event::<C>()) + rest && #[trigger] after_owned::<C, W>(
                wallet,
                fee_range,
                t.outcome()->Ok_0,
                rest,
                r,
            );
        lemma_behind_one(recorded, 1, t.events(failure_event::<C>()), rest);
        lemma_stopped_at_seen::<C, W>(
            wallet,
            fee_range,
            unchecked,
            t.outcome()->Ok_0,
            recorded,
            err,
        );
    }
}

proof fn lemma_stopped_at_seen<C: ReceiverEngine, W: ReceiverWallet<Input = C::InputPair>>(
    wallet: W,
    fee_range: FeeRange,
    unchecked: C::UncheckedOriginalPayload,
    p: C::MaybeInputsSeen,
    recorded: Seq<ReceiverEvent<C>>,
    err: Error,
)
    requires
        recorded.len() >= 2,
        after_owned::<C, W>(wallet, fee_range, p, recorded.skip(2), Err(err)),
    ensures
        exists|n: int|
            2 <= n <= recorded.len() && #[trigger] stopped_after::<C, W>(
                wallet,
                fee_range,
                unchecked,
                n,
                recorded.skip(n),
                err,
            ),
{
    let r = Err::<C::PayjoinProposal, Error>(err);
    let here = recorded.skip(2);
    let t = choose|t: CheckReply<C, C::OutputsUnknown>| #[trigger]
        call_ensures(C::check_no_inputs_seen_before::<NeverSeen>, (&p, &NeverSeen), t)
            && match t.outcome() {
            Ok(next) => exists|rest: Events<C>|
                here == t.events(failure_event::<C>()) + rest && #[trigger] after_seen::<C, W>(
                    wallet,
                    fee_range,
                    next,
                    rest,
                    r,
                ),
            Err(e) => here == t.events(failure_event::<C>()) && is_payjoin(err, e.text()),
        };
    if t !is Success {
        assert(check_stopped::<C, C::OutputsUnknown>(t, here, err));
        assert(stopped_after::<C, W>(wallet, fee_range, unchecked, 2, recorded.skip(2), err));
    } else {
        let rest = choose|rest: Events<C>|
            here == t.events(failure_event::<C>()) + rest && #[trigger] after_seen::<C, W>(
                wallet,
                fee_range,
                t.outcome()->Ok_0,
                rest,
                r,
            );
        lemma_behind_one(recorded, 2, t.events(failure_event::<C>()), rest);
        lemma_stopped_at_outputs::<C, W>(
            wallet,
            fee_range,
            unchecked,
            t.outcome()->Ok_0,
            recorded,
            err,
        );
    }
}

proof fn lemma_stopped_at_outputs<C: ReceiverEngine, W: ReceiverWallet<Input = C::InputPair>>(
    wallet: W,
    fee_range: FeeRange,
    unchecked: C::UncheckedOriginalPayload,
    p: C::OutputsUnknown,
    recorded: Seq<ReceiverEvent<C>>,
    err: Error,
)
    requires
        recorded.len() >= 3,
        after_seen::<C, W>(wallet, fee_range, p, recorded.skip(3), Err(err)),
    ensures
        exists|n: int|
            3 <= n <= recorded.len() && #[trigger] stopped_after::<C, W>(
                wallet,
                fee_range,
                unchecked,
                n,
                recorded.skip(n),
                err,
            ),
{
    let r = Err::<C::PayjoinProposal, Error>(err);
    let here = recorded.skip(3);
    let t = choose|t: CheckReply<C, C::WantsOutputs>| #[trigger]
        call_ensures(
            C::identify_receiver_outputs::<AsksOwned<W>>,
            (&p, &AsksOwned(&wallet)),
            t,
        ) && match t.outcome() {
            Ok(next) => exists|rest: Events<C>|
                here == t.events(failure_event::<C>()) + rest
                    && #[trigger] after_identification::<C, W>(wallet, fee_range, next, rest, r),
            Err(e) => here == t.events(failure_event::<C>()) && is_payjoin(err, e.text()),
        };
    if t !is Success {
        assert(check_stopped::<C, C::WantsOutputs>(t, here, err));
        assert(stopped_after::<C, W>(wallet, fee_range, unchecked, 3, recorded.skip(3), err));
    } else {
        let next = t.outcome()->Ok_0;
        let rest = choose|rest: Events<C>|
            here == t.events(failure_event::<C>()) + rest && #[trigger] after_identification::<
                C,
                W,
            >(wallet, fee_range, next, rest, r);
        let (a, last) = choose|a: Advance<C::Payload, C::WantsInputs>, last: Events<C>| #[trigger]
            call_ensures(C::commit_outputs, (&next,), a) && rest == seq![
                ReceiverEvent::<C>::Advanced(a.event),
            ] + last && #[trigger] after_outputs::<C, W>(wallet, fee_range, a.state, last, r);
        lemma_behind_one(recorded, 3, t.events(failure_event::<C>()), rest);
        lemma_behind_one(recorded, 4, seq![ReceiverEvent::<C>::Advanced(a.event)], last);
        lemma_stopped_at_choice::<C, W>(wallet, fee_range, unchecked, a.state, recorded, err);
    }
}

proof fn lemma_stopped_at_choice<C: ReceiverEngine, W: ReceiverWallet<Input = C::InputPair>>(
    wallet: W,
    fee_range: FeeRange,
    unchecked: C::UncheckedOriginalPayload,
    p: C::WantsInputs,
    recorded: Seq<ReceiverEvent<C>>,
    err: Error,
)
    requires
        recorded.len() >= 5,
        after_outputs::<C, W>(wallet, fee_range, p, recorded.skip(5), Err(err)),
    ensures
        exists|n: int|
            5 <= n <= recorded.len() && #[trigger] stopped_after::<C, W>(
                wallet,
                fee_range,
                unchecked,
                n,
                recorded.skip(n),
                err,
            ),
{
    let r = Err::<C::PayjoinProposal, Error>(err);
    let here = recorded.skip(5);
    if here.len() == 0 && choice_stopped::<C, W>(wallet, err) {
        assert(stopped_after::<C, W>(wallet, fee_range, unchecked, 5, recorded.skip(5), err));
    } else {
        let selected = choose|selected: C::InputPair| #[trigger]
            after_selection::<C, W>(wallet, fee_range, p, selected, here, r) && input_chosen::<
                C,
                W,
            >(wallet, p, selected);
        let (inputs, contributed) = choose|
            inputs: Vec<C::InputPair>,
            contributed: Result<C::WantsInputs, InputContributionError>,
        |
            inputs@ == seq![selected] && #[trigger] call_ensures(
                C::contribute_inputs,
                (&p, inputs),
                contributed,
            ) && match contributed {
                Ok(next) => exists|b| #[trigger]
                    call_ensures(C::commit_inputs, (&next,), b) && exists|rest: Events<C>|
                        here == seq![ReceiverEvent::<C>::Advanced(b.event)] + rest
                            && #[trigger] after_inputs::<C, W>(
                            wallet,
                            fee_range,
                            b.state,
                            rest,
                            r,
                        ),
                Err(e) => here == Events::<C>::empty() && is_payjoin(
                    err,
                    "contribute_inputs: "@ + e.debug@,
                ),
            };
        assert(inputs@[0] == selected);
        if let Err(e) = contributed {
            assert(call_ensures(
                C::contribute_inputs,
                (&p, inputs),
                Err::<C::WantsInputs, InputContributionError>(e),
            ));
            assert(choice_stopped::<C, W>(wallet, err));
        }
        let next = contributed->Ok_0;
        let (b, rest) = choose|b: Advance<C::Payload, C::WantsFeeRange>, rest: Events<C>|
            #[trigger] call_ensures(C::commit_inputs, (&next,), b) && here == seq![
                ReceiverEvent::<C>::Advanced(b.event),
            ] + rest && #[trigger] after_inputs::<C, W>(wallet, fee_range, b.state, rest, r);
        lemma_behind_one(recorded, 5, seq![ReceiverEvent::<C>::Advanced(b.event)], rest);
        lemma_stopped_at_fees::<C, W>(wallet, fee_range, unchecked, b.state, recorded, err);
    }
}

proof fn lemma_stopped_at_fees<C: ReceiverEngine, W: ReceiverWallet<Input = C::InputPair>>(
    wallet: W,
    fee_range: FeeRange,
    unchecked: C::UncheckedOriginalPayload,
    p: C::WantsFeeRange,
    recorded: Seq<ReceiverEvent<C>>,
    err: Error,
)
    requires
        recorded.len() >= 6,
        after_inputs::<C, W>(wallet, fee_range, p, recorded.skip(6), Err(err)),
    ensures
        exists|n: int|
            6 <= n <= recorded.len() && #[trigger] stopped_after::<C, W>(
                wallet,
                fee_range,
                unchecked,
                n,
                recorded.skip(n),
                err,
            ),
{
    let r = Err::<C::PayjoinProposal, Error>(err);
    let here = recorded.skip(6);
    let t = choose|t: ReceiverReply<C, C::ProvisionalProposal, ProtocolError>| #[trigger]
        call_ensures(C::apply_fee_range, (&p, fee_range.min, fee_range.max), t)
            && match t.outcome() {
            Ok(next) => exists|rest: Events<C>|
                here == t.events(failure_event::<C>()) + rest && #[trigger] after_fee_range::<C, W>(
                    wallet,
                    next,
                    rest,
                    r,
                ),
            Err(e) => here == t.events(failure_event::<C>()) && is_payjoin(err, e.text()),
        };
    if t !is Success {
        assert(reply_stopped::<C, C::ProvisionalProposal, ProtocolError>(t, here, err));
        assert(stopped_after::<C, W>(wallet, fee_range, unchecked, 6, recorded.skip(6), err));
    } else {
        let next = t.outcome()->Ok_0;
        let rest = choose|rest: Events<C>|
            here == t.events(failure_event::<C>()) + rest && #[trigger] after_fee_range::<C, W>(
                wallet,
                next,
                rest,
                r,
            );
        lemma_behind_one(recorded, 6, t.events(failure_event::<C>()), rest);
        let s = choose|s: ReceiverReply<C, C::PayjoinProposal, ImplementationError>| #[trigger]
            call_ensures(
                C::finalize_proposal::<AsksSignature<W>>,
                (&next, &AsksSignature(&wallet)),
                s,
            ) && rest == s.events(failure_event::<C>()) && match s.outcome() {
                Ok(proposal) => r == Ok::<C::PayjoinProposal, Error>(proposal),
                Err(e) => is_payjoin(err, e.text()),
            };
        assert(reply_stopped::<C, C::PayjoinProposal, ImplementationError>(s, rest, err));
        assert(stopped_after::<C, W>(wallet, fee_range, unchecked, 7, recorded.skip(7), err));
    }
}

/// What the protocol learns of the wallet is what the wallet says: whether the
/// transaction can be broadcast, whether a script is its own, and that no coin
/// was seen before. To sign, the wallet is handed the very proposal; what it
/// makes of it is what the protocol is given.
pub proof fn law_the_wallet_speaks_for_itself<W: ReceiverWallet>(
    wallet: &W,
    tx: &Vec<u8>,
    script: &Vec<u8>,
    coin: &CoreOutPoint,
    r: Result<bool, ImplementationError>,
    psbt: &Psbt,
    signed: Result<Psbt, ImplementationError>,
)
    ensures
        call_ensures(
            <AsksBroadcast<W> as CheckTransaction>::check,
            (&AsksBroadcast(wallet), tx),
            r,
        ) ==> call_ensures(W::check_broadcast, (wallet, tx), r),
        call_ensures(<AsksOwned<W> as CheckScript>::check, (&AsksOwned(wallet), script), r) ==> (
        r matches Ok(owned) && call_ensures(W::is_owned, (wallet, script), owned)),
        call_ensures(<NeverSeen as CheckOutPoint>::check, (&NeverSeen, coin), r) ==> (
        r matches Ok(seen) && !seen),
        call_ensures(<AsksSignature<W> as SignPsbt>::sign, (&AsksSignature(wallet), psbt), signed)
            ==> exists|handed: &mut Psbt, answer: Result<(), Error>| #[trigger]
            call_ensures(W::process_psbt, (wallet, handed), answer) && *handed == *psbt && (answer
                is Ok <==> signed is Ok) && (signed matches Ok(out) ==> out == *final(handed)) && (
            signed matches Err(e) ==> e.msg@ == answer->Err_0.text()),
{
}

} // verus!
