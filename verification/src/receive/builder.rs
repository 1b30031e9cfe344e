//! Building a receiver session.
use crate::chain::{fee_rate_from_sat_per_vb, kwu_of_vb, parse_address, parsed_address};
use crate::error::FfiValidationError;
use crate::persist::{Advance, ProvisionalView};
use crate::receive::buffer::{ProvisionalInitialized, ReceiverEventBuffer};
use crate::receive::engine::{ReceiverEngine, ReceiverEvent, ReceiverParams};
use crate::receive::error::{AddressParseError, ReceiverBuilderError};
use crate::session::{FeeRateError, IntoUrlError, OhttpKeys, SessionEvent};
use crate::staging::{queued, waits_behind, NumberedBufferView, StagedView};
use crate::validation::{
    lemma_one_way_to_accept, ruled, validate_amount_sat, validate_expiration_secs, InputRules,
};
use vstd::prelude::*;

verus! {

/// Gathers what a receiver session is created from.
#[derive(Debug)]
pub struct ReceiverBuilder {
    /// What was gathered so far.
    pub params: ReceiverParams,
}

impl Clone for ReceiverBuilder {
    fn clone(&self) -> (r: Self)
        ensures
            r == *self,
    {
        ReceiverBuilder { params: self.params.clone() }
    }
}

/// What `ReceiverBuilder::new` returns for an address that parsed.
pub open spec fn directed<C: ReceiverEngine>(
    address: Seq<char>,
    directory: String,
    ohttp_keys: OhttpKeys,
    r: Result<ReceiverBuilder, ReceiverBuilderError>,
) -> bool {
    exists|url: Result<(), IntoUrlError>| #[trigger]
        call_ensures(C::check_directory, (&directory,), url) && match url {
            Err(e) => r == Err::<ReceiverBuilder, ReceiverBuilderError>(
                ReceiverBuilderError::IntoUrl(e),
            ),
            Ok(()) => r matches Ok(b) && b.params.address@ == address && b.params == (
            ReceiverParams {
                address: b.params.address,
                directory,
                ohttp_keys,
                amount_sat: None,
                expiration_secs: None,
                max_fee_rate: None,
            }),
        }
}

/// Whether `r` refuses an address for the reason `msg`.
pub open spec fn address_refused(
    msg: Seq<char>,
    r: Result<ReceiverBuilder, ReceiverBuilderError>,
) -> bool {
    r matches Err(ReceiverBuilderError::InvalidAddress(e)) && e.msg@ == msg
}

impl ReceiverBuilder {
    /// Creates a builder.
    ///
    /// - `address`: the Bitcoin address for the session.
    /// - `directory`: the URL of the store-and-forward payjoin directory.
    /// - `ohttp_keys`: the keys by which requests to it are encrypted.
    pub fn new<C: ReceiverEngine>(
        address: String,
        directory: String,
        ohttp_keys: OhttpKeys,
    ) -> (r: Result<Self, ReceiverBuilderError>)
        ensures
            match parsed_address(address@) {
                Ok(canonical) => directed::<C>(canonical, directory, ohttp_keys, r),
                Err(msg) => address_refused(msg, r),
            },
    {
        Self::with_address::<C>(parse_address(address.as_str()), directory, ohttp_keys)
    }

    /// Creates a builder from an address that was parsed already.
    pub fn with_address<C: ReceiverEngine>(
        address: Result<String, String>,
        directory: String,
        ohttp_keys: OhttpKeys,
    ) -> (r: Result<Self, ReceiverBuilderError>)
        ensures
            match address {
                Ok(canonical) => directed::<C>(canonical@, directory, ohttp_keys, r),
                Err(msg) => address_refused(msg@, r),
            },
    {
        let address = match address {
            Ok(address) => address,
            Err(msg) => {
                return Err(ReceiverBuilderError::InvalidAddress(AddressParseError { msg }));
            },
        };
        match C::check_directory(&directory) {
            Ok(()) => Ok(
                ReceiverBuilder {
                    params: ReceiverParams {
                        address,
                        directory,
                        ohttp_keys,
                        amount_sat: None,
                        expiration_secs: None,
                        max_fee_rate: None,
                    },
                },
            ),
            Err(e) => Err(ReceiverBuilderError::IntoUrl(e)),
        }
    }

    /// Asks for an amount.
    pub fn with_amount<R: InputRules>(&self, amount_sats: u64) -> (r: Result<
        Self,
        FfiValidationError,
    >)
        ensures
            exists|v: Result<(), FfiValidationError>| #[trigger]
                call_ensures(R::amount_sat, (amount_sats,), v) && r == ruled(
                    v,
                    ReceiverBuilder {
                        params: ReceiverParams { amount_sat: Some(amount_sats), ..self.params },
                    },
                ),
    {
        match validate_amount_sat::<R>(amount_sats) {
            Ok(amount) => {
                let mut next = self.clone();
                next.params.amount_sat = Some(amount);
                Ok(next)
            },
            Err(e) => Err(e),
        }
    }

    /// Sets how long the session lasts.
    pub fn with_expiration<R: InputRules>(&self, expiration_secs: u64) -> (r: Result<
        Self,
        FfiValidationError,
    >)
        ensures
            exists|v: Result<(), FfiValidationError>| #[trigger]
                call_ensures(R::expiration_secs, (expiration_secs,), v) && r == ruled(
                    v,
                    ReceiverBuilder {
                        params: ReceiverParams {
                            expiration_secs: Some(expiration_secs),
                            ..self.params
                        },
                    },
                ),
    {
        match validate_expiration_secs::<R>(expiration_secs) {
            Ok(expiration) => {
                let mut next = self.clone();
                next.params.expiration_secs = Some(expiration);
                Ok(next)
            },
            Err(e) => Err(e),
        }
    }

    /// Sets the highest effective fee rate that the receiver is willing to pay
    /// for what it contributes. A rate that overflows in sat/kwu is refused.
    pub fn with_max_fee_rate(&self, max_effective_fee_rate_sat_per_vb: u64) -> (r: Result<
        Self,
        FeeRateError,
    >)
        ensures
            r == (match kwu_of_vb(max_effective_fee_rate_sat_per_vb) {
                Some(kwu) => Ok::<ReceiverBuilder, FeeRateError>(
                    ReceiverBuilder {
                        params: ReceiverParams { max_fee_rate: Some(kwu), ..self.params },
                    },
                ),
                None => Err(FeeRateError::Overflow(max_effective_fee_rate_sat_per_vb)),
            }),
    {
        match fee_rate_from_sat_per_vb(max_effective_fee_rate_sat_per_vb) {
            Some(kwu) => {
                let mut next = self.clone();
                next.params.max_fee_rate = Some(kwu);
                Ok(next)
            },
            None => Err(FeeRateError::overflow(max_effective_fee_rate_sat_per_vb)),
        }
    }

    /// Stages the session for persistence. Pushes the event that creates it
    /// into `buf` and holds the session back: the payjoin URI cannot be
    /// observed until that event is durable and the provisional is confirmed.
    pub fn build<C: ReceiverEngine>(&self, buf: &mut ReceiverEventBuffer<C>) -> (r:
        ProvisionalInitialized<C>)
        requires
            old(buf)@.log.pushed() < u64::MAX,
        ensures
            exists|a: Advance<C::Payload, C::Initialized>| #[trigger]
                call_ensures(C::create, (&self.params,), a) && final(buf)@ == old(buf)@.push(
                    ReceiverEvent::<C>::Advanced(a.event),
                ) && r@ == (StagedView {
                    held: Some(
                        ProvisionalView {
                            inner: a.state,
                            needs_committed: final(buf)@.log.pushed(),
                        },
                    ),
                    buffer_id: old(buf)@.id,
                }),
    {
        let a = C::create(&self.params);
        buf.push(ReceiverEvent::<C>::Advanced(a.event));
        ProvisionalInitialized::staged(buf.hold(a.state))
    }
}

/// A builder holds the address that was parsed, the directory and the keys that
/// were given, and asks for nothing else. It is refused only for an address
/// that does not parse or a directory that is none, in this order.
pub proof fn law_builders_hold_what_was_given<C: ReceiverEngine>(
    address: Result<String, String>,
    directory: String,
    ohttp_keys: OhttpKeys,
    r: Result<ReceiverBuilder, ReceiverBuilderError>,
)
    requires
        call_ensures(
            ReceiverBuilder::with_address::<C>,
            (address, directory, ohttp_keys),
            r,
        ),
    ensures
        match r {
            Ok(b) => {
                &&& address is Ok
                &&& b.params.address@ == address->Ok_0@
                &&& b.params.directory == directory
                &&& b.params.ohttp_keys == ohttp_keys
                &&& b.params.amount_sat is None
                &&& b.params.expiration_secs is None
                &&& b.params.max_fee_rate is None
                &&& exists|v: Result<(), IntoUrlError>| #[trigger]
                    call_ensures(C::check_directory, (&directory,), v) && v is Ok
            },
            Err(ReceiverBuilderError::InvalidAddress(e)) => address is Err && e.msg@
                == address->Err_0@,
            Err(ReceiverBuilderError::IntoUrl(e)) => address is Ok && call_ensures(
                C::check_directory,
                (&directory,),
                Err(e),
            ),
        },
{
}

/// A builder is made from the text of an address as from what the text parses
/// into.
pub proof fn law_addresses_are_parsed_first<C: ReceiverEngine>(
    address: String,
    directory: String,
    ohttp_keys: OhttpKeys,
    r: Result<ReceiverBuilder, ReceiverBuilderError>,
)
    requires
        call_ensures(ReceiverBuilder::new::<C>, (address, directory, ohttp_keys), r),
    ensures
        match r {
            Ok(b) => {
                &&& parsed_address(address@) == Ok::<Seq<char>, Seq<char>>(b.params.address@)
                &&& b.params.directory == directory
                &&& b.params.ohttp_keys == ohttp_keys
                &&& b.params.amount_sat is None
                &&& b.params.expiration_secs is None
                &&& b.params.max_fee_rate is None
            },
            Err(ReceiverBuilderError::InvalidAddress(e)) => parsed_address(address@) == Err::<
                Seq<char>,
                Seq<char>,
            >(e.msg@),
            Err(ReceiverBuilderError::IntoUrl(e)) => parsed_address(address@) is Ok
                && call_ensures(C::check_directory, (&directory,), Err(e)),
        },
{
}

/// Asking for an amount sets the amount that was given and nothing else; the
/// rules decide.
pub proof fn law_amounts_are_set_alone<R: InputRules>(
    builder: &ReceiverBuilder,
    amount_sats: u64,
    r: Result<ReceiverBuilder, FfiValidationError>,
)
    requires
        call_ensures(ReceiverBuilder::with_amount::<R>, (builder, amount_sats), r),
    ensures
        match r {
            Ok(b) => {
                &&& call_ensures(R::amount_sat, (amount_sats,), Ok(()))
                &&& b.params.amount_sat == Some(amount_sats)
                &&& b.params.address == builder.params.address
                &&& b.params.directory == builder.params.directory
                &&& b.params.ohttp_keys == builder.params.ohttp_keys
                &&& b.params.expiration_secs == builder.params.expiration_secs
                &&& b.params.max_fee_rate == builder.params.max_fee_rate
            },
            Err(e) => call_ensures(R::amount_sat, (amount_sats,), Err(e)),
        },
{
    lemma_one_way_to_accept::<R>();
}

/// Setting an expiration sets the time that was given and nothing else; the
/// rules decide.
pub proof fn law_expirations_are_set_alone<R: InputRules>(
    builder: &ReceiverBuilder,
    expiration_secs: u64,
    r: Result<ReceiverBuilder, FfiValidationError>,
)
    requires
        call_ensures(ReceiverBuilder::with_expiration::<R>, (builder, expiration_secs), r),
    ensures
        match r {
            Ok(b) => {
                &&& call_ensures(R::expiration_secs, (expiration_secs,), Ok(()))
                &&& b.params.expiration_secs == Some(expiration_secs)
                &&& b.params.address == builder.params.address
                &&& b.params.directory == builder.params.directory
                &&& b.params.ohttp_keys == builder.params.ohttp_keys
                &&& b.params.amount_sat == builder.params.amount_sat
                &&& b.params.max_fee_rate == builder.params.max_fee_rate
            },
            Err(e) => call_ensures(R::expiration_secs, (expiration_secs,), Err(e)),
        },
{
    lemma_one_way_to_accept::<R>();
}

/// A fee rate in sat/vB is held in sat/kwu, a thousand weight units being 250
/// virtual bytes, and nothing else is set. It is refused exactly if it does not
/// fit.
pub proof fn law_fee_rates_are_set_alone(
    builder: &ReceiverBuilder,
    sat_per_vb: u64,
    r: Result<ReceiverBuilder, FeeRateError>,
)
    requires
        call_ensures(ReceiverBuilder::with_max_fee_rate, (builder, sat_per_vb), r),
    ensures
        r is Ok <==> 250 * sat_per_vb <= u64::MAX,
        r matches Ok(b) ==> {
            &&& b.params.max_fee_rate is Some
            &&& b.params.max_fee_rate->0 == 250 * sat_per_vb
            &&& b.params.address == builder.params.address
            &&& b.params.directory == builder.params.directory
            &&& b.params.ohttp_keys == builder.params.ohttp_keys
            &&& b.params.amount_sat == builder.params.amount_sat
            &&& b.params.expiration_secs == builder.params.expiration_secs
        },
        r matches Err(e) ==> e == FeeRateError::Overflow(sat_per_vb),
{
}

/// A receiver is created from what the builder holds, and waits behind the one
/// event that created it.
pub proof fn law_built_receivers_wait_for_their_event<C: ReceiverEngine>(
    builder: &ReceiverBuilder,
    before: NumberedBufferView<ReceiverEvent<C>>,
    after: NumberedBufferView<ReceiverEvent<C>>,
    r: ProvisionalInitialized<C>,
)
    requires
        exists|buf: &mut ReceiverEventBuffer<C>| #[trigger]
            call_ensures(ReceiverBuilder::build::<C>, (builder, buf), r) && (*buf)@ == before
                && (*final(buf))@ == after,
    ensures
        exists|a: Advance<C::Payload, C::Initialized>| #[trigger]
            call_ensures(C::create, (&builder.params,), a) && queued(
                before,
                after,
                SessionEvent::Advanced(a.event),
            ) && waits_behind(r@, after, a.state),
{
}

} // verus!
