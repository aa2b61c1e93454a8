//! The offer manager: one persistent `Offer` record and the five operations
//! on it — create, trade, withdraw, update the prices, and read.
//!
//! Each operation is specified by a step function over the record: given the
//! current record and the request, the step function names the next record
//! and the exact outcome, success or a specific error. The executable
//! methods are proved to follow their step functions on every input.
//!
//! The host environment owns durable storage, authorization and token
//! movement. The manager receives the outcome of the authorization check as
//! a flag, and answers a successful trade or withdrawal with the transfers
//! the host must perform; it never moves a balance itself.

use vstd::prelude::*;
use vstd::arithmetic::div_mod::lemma_div_of0;
use crate::arith::{lemma_trunc_div_bounds, trunc_div};
use crate::types::{
    offer_wf, valid_prices, Address, Error, Offer, TradeTransfers, Transfer,
};

verus! {

/// What `create` does to the record: the first valid, authorized request
/// installs the offer; any later request fails, and nothing is ever
/// overwritten. An existing record is reported before the arguments are
/// examined, so a second create fails with `AlreadyInitialized` whatever
/// its parameters.
pub open spec fn create_step(
    state: Option<Offer>,
    seller: Address,
    sell_token: Address,
    buy_token: Address,
    sell_price: u32,
    buy_price: u32,
    seller_auth: bool,
) -> (Option<Offer>, Result<(), Error>) {
    if state is Some {
        (state, Err(Error::AlreadyInitialized))
    } else if !valid_prices(sell_price, buy_price) {
        (state, Err(Error::InvalidPrice))
    } else if !seller_auth {
        (state, Err(Error::Unauthorized))
    } else {
        (
            Some(Offer { seller, sell_token, buy_token, sell_price, buy_price }),
            Ok(()),
        )
    }
}

/// The multiplication of the trade computation stays inside the signed
/// 128-bit range; outside it the trade is rejected, never wrapped.
pub open spec fn product_fits(buy_token_amount: i128, sell_price: u32) -> bool {
    i128::MIN <= buy_token_amount * sell_price <= i128::MAX
}

/// The amount of sell token a trade yields:
/// `buy_token_amount * sell_price / buy_price`, truncated toward zero. The
/// buyer may receive strictly less than the exact ratio implies, never more.
pub open spec fn sell_amount(o: Offer, buy_token_amount: i128) -> int
    recommends
        offer_wf(o),
{
    trunc_div(buy_token_amount * o.sell_price, o.buy_price as int)
}

/// What `trade` answers: for an authorized buyer against an existing offer,
/// with the price product representable and the computed sell amount at or
/// above the buyer's minimum, the three transfers of the trade; otherwise
/// the specific refusal. The record itself is never changed by a trade.
pub open spec fn trade_step(
    state: Option<Offer>,
    contract: Address,
    buyer: Address,
    buy_token_amount: i128,
    min_sell_token_amount: i128,
    buyer_auth: bool,
) -> Result<TradeTransfers, Error> {
    if !buyer_auth {
        Err(Error::Unauthorized)
    } else {
        match state {
            None => Err(Error::NotInitialized),
            Some(o) => {
                if !product_fits(buy_token_amount, o.sell_price) {
                    Err(Error::ArithmeticOverflow)
                } else if sell_amount(o, buy_token_amount) < min_sell_token_amount {
                    Err(Error::SlippageExceeded)
                } else {
                    Ok(TradeTransfers {
                        collect_payment: Transfer {
                            token: o.buy_token,
                            from: buyer,
                            to: contract,
                            amount: buy_token_amount,
                        },
                        deliver_sold: Transfer {
                            token: o.sell_token,
                            from: contract,
                            to: buyer,
                            amount: sell_amount(o, buy_token_amount) as i128,
                        },
                        forward_payment: Transfer {
                            token: o.buy_token,
                            from: contract,
                            to: o.seller,
                            amount: buy_token_amount,
                        },
                    })
                }
            },
        }
    }
}

/// What `withdraw` answers: for the authorized seller of an existing offer,
/// the transfer of `amount` of `token` from the custodial account to the
/// seller. Any asset may be withdrawn in any amount; only the actual
/// custodial balance, enforced by the host's transfer primitive, bounds it.
pub open spec fn withdraw_step(
    state: Option<Offer>,
    contract: Address,
    token: Address,
    amount: i128,
    seller_auth: bool,
) -> Result<Transfer, Error> {
    match state {
        None => Err(Error::NotInitialized),
        Some(o) => if !seller_auth {
            Err(Error::Unauthorized)
        } else {
            Ok(Transfer { token, from: contract, to: o.seller, amount })
        },
    }
}

/// What a price update does to the record: both new prices must be positive
/// — checked before anything else — the offer must exist and the seller be
/// authorized; then the two prices are overwritten in place and every other
/// field is kept.
pub open spec fn update_price_step(
    state: Option<Offer>,
    sell_price: u32,
    buy_price: u32,
    seller_auth: bool,
) -> (Option<Offer>, Result<(), Error>) {
    if !valid_prices(sell_price, buy_price) {
        (state, Err(Error::InvalidPrice))
    } else {
        match state {
            None => (state, Err(Error::NotInitialized)),
            Some(o) => if !seller_auth {
                (state, Err(Error::Unauthorized))
            } else {
                (
                    Some(Offer {
                        seller: o.seller,
                        sell_token: o.sell_token,
                        buy_token: o.buy_token,
                        sell_price,
                        buy_price,
                    }),
                    Ok(()),
                )
            },
        }
    }
}

/// What the read answers: the full current record, or `NotInitialized` when
/// none exists yet — there is no default or empty offer.
pub open spec fn get_offer_step(state: Option<Offer>) -> Result<Offer, Error> {
    match state {
        None => Err(Error::NotInitialized),
        Some(o) => Ok(o),
    }
}

/// The offer manager. It holds the identity of its own custodial account —
/// a configuration value of the host environment — and the one offer
/// record, absent until `create` succeeds and present ever after.
pub struct SingleOffer {
    contract: Address,
    offer: Option<Offer>,
}

impl SingleOffer {
    /// The identity of the manager's custodial account.
    pub closed spec fn spec_contract(self) -> Address {
        self.contract
    }

    /// The offer record as currently persisted, if any.
    pub closed spec fn spec_offer(self) -> Option<Offer> {
        self.offer
    }

    /// Every record the manager holds went through a write path, so its
    /// prices are positive.
    pub open spec fn wf(self) -> bool {
        match self.spec_offer() {
            Some(o) => offer_wf(o),
            None => true,
        }
    }

    /// A fresh manager for the custodial account `contract`, holding no
    /// offer yet.
    pub fn new(contract: Address) -> (r: SingleOffer)
        ensures
            r.spec_contract() == contract,
            r.spec_offer() is None,
            r.wf(),
    {
        SingleOffer { contract, offer: None }
    }

    /// Rebuilds a manager around a record previously handed out by this
    /// module and persisted by the host's storage collaborator; `None`
    /// resumes a manager on which no offer has been created yet.
    pub fn resume(contract: Address, stored: Option<Offer>) -> (r: SingleOffer)
        requires
            (match stored {
                Some(o) => o.sell_price > 0 && o.buy_price > 0,
                None => true,
            }),
        ensures
            r.spec_contract() == contract,
            r.spec_offer() == stored,
            r.wf(),
    {
        SingleOffer { contract, offer: stored }
    }

    /// Creates the one offer this manager will ever hold, as `create_step`
    /// describes. `seller_auth` reports whether the authorization
    /// collaborator established the caller as `seller`.
    pub fn create(
        &mut self,
        seller: Address,
        sell_token: Address,
        buy_token: Address,
        sell_price: u32,
        buy_price: u32,
        seller_auth: bool,
    ) -> (r: Result<(), Error>)
        requires
            old(self).wf(),
        ensures
            final(self).wf(),
            final(self).spec_contract() == old(self).spec_contract(),
            (final(self).spec_offer(), r) == create_step(
                old(self).spec_offer(),
                seller,
                sell_token,
                buy_token,
                sell_price,
                buy_price,
                seller_auth,
            ),
    {
        if self.offer.is_some() {
            return Err(Error::AlreadyInitialized);
        }
        if buy_price == 0 || sell_price == 0 {
            return Err(Error::InvalidPrice);
        }
        if !seller_auth {
            return Err(Error::Unauthorized);
        }
        self.offer = Some(Offer { seller, sell_token, buy_token, sell_price, buy_price });
        Ok(())
    }

    /// Computes and answers a trade against the current offer, as
    /// `trade_step` describes: which transfers the host must now perform as
    /// one atomic unit, or why the trade is refused. The record is read,
    /// never changed. `buyer_auth` reports whether the authorization
    /// collaborator established the caller as `buyer`.
    pub fn trade(
        &self,
        buyer: Address,
        buy_token_amount: i128,
        min_sell_token_amount: i128,
        buyer_auth: bool,
    ) -> (r: Result<TradeTransfers, Error>)
        requires
            self.wf(),
        ensures
            r == trade_step(
                self.spec_offer(),
                self.spec_contract(),
                buyer,
                buy_token_amount,
                min_sell_token_amount,
                buyer_auth,
            ),
    {
        if !buyer_auth {
            return Err(Error::Unauthorized);
        }
        let offer = match self.offer {
            Some(o) => o,
            None => {
                return Err(Error::NotInitialized);
            },
        };
        let product = match buy_token_amount.checked_mul(offer.sell_price as i128) {
            Some(p) => p,
            None => {
                return Err(Error::ArithmeticOverflow);
            },
        };
        let divisor: i128 = offer.buy_price as i128;
        proof {
            lemma_trunc_div_bounds(product as int, divisor as int);
            if product == 0 {
                lemma_div_of0(divisor as int);
            }
        }
        let sell_token_amount: i128 = match product.checked_div(divisor) {
            Some(q) => q,
            None => {
                assert(false);
                0i128
            },
        };
        if sell_token_amount < min_sell_token_amount {
            return Err(Error::SlippageExceeded);
        }
        Ok(TradeTransfers {
            collect_payment: Transfer {
                token: offer.buy_token,
                from: buyer,
                to: self.contract,
                amount: buy_token_amount,
            },
            deliver_sold: Transfer {
                token: offer.sell_token,
                from: self.contract,
                to: buyer,
                amount: sell_token_amount,
            },
            forward_payment: Transfer {
                token: offer.buy_token,
                from: self.contract,
                to: offer.seller,
                amount: buy_token_amount,
            },
        })
    }

    /// Answers the seller's withdrawal of custodial funds, as
    /// `withdraw_step` describes: the transfer the host must perform, or
    /// why it is refused. `seller_auth` reports whether the authorization
    /// collaborator established the caller as the offer's seller.
    pub fn withdraw(
        &self,
        token: Address,
        amount: i128,
        seller_auth: bool,
    ) -> (r: Result<Transfer, Error>)
        requires
            self.wf(),
        ensures
            r == withdraw_step(
                self.spec_offer(),
                self.spec_contract(),
                token,
                amount,
                seller_auth,
            ),
    {
        let offer = match self.offer {
            Some(o) => o,
            None => {
                return Err(Error::NotInitialized);
            },
        };
        if !seller_auth {
            return Err(Error::Unauthorized);
        }
        Ok(Transfer { token, from: self.contract, to: offer.seller, amount })
    }

    /// Overwrites the two prices of the existing offer in place, as
    /// `update_price_step` describes; seller, sell token and buy token are
    /// kept. `seller_auth` reports whether the authorization collaborator
    /// established the caller as the offer's seller.
    pub fn updt_price(
        &mut self,
        sell_price: u32,
        buy_price: u32,
        seller_auth: bool,
    ) -> (r: Result<(), Error>)
        requires
            old(self).wf(),
        ensures
            final(self).wf(),
            final(self).spec_contract() == old(self).spec_contract(),
            (final(self).spec_offer(), r) == update_price_step(
                old(self).spec_offer(),
                sell_price,
                buy_price,
                seller_auth,
            ),
    {
        if buy_price == 0 || sell_price == 0 {
            return Err(Error::InvalidPrice);
        }
        let offer = match self.offer {
            Some(o) => o,
            None => {
                return Err(Error::NotInitialized);
            },
        };
        if !seller_auth {
            return Err(Error::Unauthorized);
        }
        self.offer = Some(Offer {
            seller: offer.seller,
            sell_token: offer.sell_token,
            buy_token: offer.buy_token,
            sell_price,
            buy_price,
        });
        Ok(())
    }

    /// The full current offer record, exactly as last written by `create`
    /// or `updt_price`, as `get_offer_step` describes. A pure read: no
    /// default value stands in for a missing record.
    pub fn get_offer(&self) -> (r: Result<Offer, Error>)
        ensures
            r == get_offer_step(self.spec_offer()),
    {
        match self.offer {
            Some(o) => Ok(o),
            None => Err(Error::NotInitialized),
        }
    }
}

} // verus!
