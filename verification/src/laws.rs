//! The laws of the offer manager, proved once and for all over the step
//! functions that the executable methods are verified against.

use vstd::prelude::*;
use vstd::arithmetic::mul::lemma_mul_nonnegative;
use crate::arith::{lemma_trunc_div_is_floor, trunc_div};
use crate::manager::{
    create_step, get_offer_step, product_fits, sell_amount, trade_step, update_price_step,
    withdraw_step,
};
use crate::types::{offer_wf, valid_prices, Address, Error, Offer};

verus! {

/// An offer is created exactly once: after any successful create, every
/// further create — whatever its parameters — fails with
/// `AlreadyInitialized` and leaves the record exactly as it was.
pub proof fn lemma_create_is_one_shot(
    state: Option<Offer>,
    seller: Address,
    sell_token: Address,
    buy_token: Address,
    sell_price: u32,
    buy_price: u32,
    seller_auth: bool,
    seller2: Address,
    sell_token2: Address,
    buy_token2: Address,
    sell_price2: u32,
    buy_price2: u32,
    seller_auth2: bool,
)
    requires
        create_step(state, seller, sell_token, buy_token, sell_price, buy_price, seller_auth).1
            is Ok,
    ensures
        ({
            let created = create_step(state, seller, sell_token, buy_token, sell_price,
                buy_price, seller_auth).0;
            create_step(created, seller2, sell_token2, buy_token2, sell_price2, buy_price2,
                seller_auth2) == (created, Err::<(), Error>(Error::AlreadyInitialized))
        }),
{
}

/// A create only ever succeeds on a manager that holds no offer yet, with
/// positive prices and an authorized seller, and then installs exactly the
/// requested record.
pub proof fn lemma_create_success_characterized(
    state: Option<Offer>,
    seller: Address,
    sell_token: Address,
    buy_token: Address,
    sell_price: u32,
    buy_price: u32,
    seller_auth: bool,
)
    ensures
        create_step(state, seller, sell_token, buy_token, sell_price, buy_price, seller_auth).1
            is Ok <==> (state is None && valid_prices(sell_price, buy_price) && seller_auth),
        create_step(state, seller, sell_token, buy_token, sell_price, buy_price, seller_auth).1
            is Ok ==> create_step(state, seller, sell_token, buy_token, sell_price, buy_price,
                seller_auth).0 == Some(
                    Offer { seller, sell_token, buy_token, sell_price, buy_price },
                ),
{
}

/// A zero price is rejected on every write path, whatever the other
/// arguments: a price update always fails with `InvalidPrice`, and a create
/// fails with `InvalidPrice` whenever an offer record does not already
/// claim precedence. Neither write path changes the record.
pub proof fn lemma_zero_price_rejected(
    state: Option<Offer>,
    seller: Address,
    sell_token: Address,
    buy_token: Address,
    sell_price: u32,
    buy_price: u32,
    seller_auth: bool,
)
    requires
        sell_price == 0 || buy_price == 0,
    ensures
        update_price_step(state, sell_price, buy_price, seller_auth) == (
            state,
            Err::<(), Error>(Error::InvalidPrice),
        ),
        create_step(state, seller, sell_token, buy_token, sell_price, buy_price, seller_auth).0
            == state,
        create_step(state, seller, sell_token, buy_token, sell_price, buy_price, seller_auth).1
            is Err,
        state is None ==> create_step(state, seller, sell_token, buy_token, sell_price,
            buy_price, seller_auth).1 == Err::<(), Error>(Error::InvalidPrice),
{
}

/// The sell amount never rounds up: what the buyer receives, weighted by
/// the buy price, stays at or below the exact value of what the buyer
/// pays, and falls short of it by less than one buy-price unit.
pub proof fn lemma_sell_amount_never_rounds_up(o: Offer, buy_token_amount: i128)
    requires
        offer_wf(o),
        buy_token_amount >= 0,
    ensures
        sell_amount(o, buy_token_amount) * o.buy_price <= buy_token_amount * o.sell_price,
        buy_token_amount * o.sell_price < (sell_amount(o, buy_token_amount) + 1) * o.buy_price,
{
    lemma_mul_nonnegative(buy_token_amount as int, o.sell_price as int);
    lemma_trunc_div_is_floor(buy_token_amount * o.sell_price, o.buy_price as int);
}

/// The slippage guard: whenever the buyer's stated minimum exceeds the
/// computed sell amount, the trade fails with `SlippageExceeded` — for
/// every state and every pair of amounts where that inequality holds.
pub proof fn lemma_slippage_guard(
    o: Offer,
    contract: Address,
    buyer: Address,
    buy_token_amount: i128,
    min_sell_token_amount: i128,
)
    requires
        product_fits(buy_token_amount, o.sell_price),
        sell_amount(o, buy_token_amount) < min_sell_token_amount,
    ensures
        trade_step(Some(o), contract, buyer, buy_token_amount, min_sell_token_amount, true)
            == Err::<crate::types::TradeTransfers, Error>(Error::SlippageExceeded),
{
}

/// Only the seller's authorization opens the write and withdrawal paths of
/// an existing offer: without it, withdraw and a price update with
/// otherwise valid parameters fail with `Unauthorized`, and the record is
/// untouched.
pub proof fn lemma_seller_authorization_required(
    o: Offer,
    contract: Address,
    token: Address,
    amount: i128,
    sell_price: u32,
    buy_price: u32,
)
    requires
        valid_prices(sell_price, buy_price),
    ensures
        withdraw_step(Some(o), contract, token, amount, false) == Err::<
            crate::types::Transfer,
            Error,
        >(Error::Unauthorized),
        update_price_step(Some(o), sell_price, buy_price, false) == (
            Some(o),
            Err::<(), Error>(Error::Unauthorized),
        ),
{
}

/// Round trip through the store: immediately after a successful create,
/// the read answers field for field the values that create was given.
pub proof fn lemma_create_get_round_trip(
    state: Option<Offer>,
    seller: Address,
    sell_token: Address,
    buy_token: Address,
    sell_price: u32,
    buy_price: u32,
    seller_auth: bool,
)
    requires
        create_step(state, seller, sell_token, buy_token, sell_price, buy_price, seller_auth).1
            is Ok,
    ensures
        get_offer_step(create_step(state, seller, sell_token, buy_token, sell_price, buy_price,
            seller_auth).0) == Ok::<Offer, Error>(
            Offer { seller, sell_token, buy_token, sell_price, buy_price },
        ),
{
}

/// A successful price update rewrites exactly the two prices: the read then
/// answers the new prices while seller, sell token and buy token are
/// identical to what the offer held before.
pub proof fn lemma_update_price_preserves_identity(
    o: Offer,
    sell_price: u32,
    buy_price: u32,
)
    requires
        valid_prices(sell_price, buy_price),
    ensures
        ({
            let updated = update_price_step(Some(o), sell_price, buy_price, true);
            updated.1 is Ok && get_offer_step(updated.0) == Ok::<Offer, Error>(
                Offer {
                    seller: o.seller,
                    sell_token: o.sell_token,
                    buy_token: o.buy_token,
                    sell_price,
                    buy_price,
                },
            )
        }),
{
}

/// Before any create has succeeded there is nothing to act on: trade,
/// withdraw, a price update with valid prices, and the read all fail with
/// `NotInitialized`, for any arguments and even for authorized callers,
/// and the record stays absent.
pub proof fn lemma_nothing_before_create(
    contract: Address,
    buyer: Address,
    token: Address,
    amount: i128,
    min_sell_token_amount: i128,
    sell_price: u32,
    buy_price: u32,
    seller_auth: bool,
)
    requires
        valid_prices(sell_price, buy_price),
    ensures
        trade_step(None, contract, buyer, amount, min_sell_token_amount, true) == Err::<
            crate::types::TradeTransfers,
            Error,
        >(Error::NotInitialized),
        withdraw_step(None, contract, token, amount, seller_auth) == Err::<
            crate::types::Transfer,
            Error,
        >(Error::NotInitialized),
        update_price_step(None, sell_price, buy_price, seller_auth) == (
            None::<Offer>,
            Err::<(), Error>(Error::NotInitialized),
        ),
        get_offer_step(None) == Err::<Offer, Error>(Error::NotInitialized),
{
}

/// The trade computation is a function of the offer's prices and the
/// buyer's amounts alone: two trades against equal records with equal
/// amounts are answered identically, whoever the buyers are, up to the
/// identities named in the transfers.
pub proof fn lemma_trade_deterministic(
    o: Offer,
    contract: Address,
    buyer1: Address,
    buyer2: Address,
    buy_token_amount: i128,
    min_sell_token_amount: i128,
)
    ensures
        ({
            let r1 = trade_step(Some(o), contract, buyer1, buy_token_amount,
                min_sell_token_amount, true);
            let r2 = trade_step(Some(o), contract, buyer2, buy_token_amount,
                min_sell_token_amount, true);
            &&& (r1 is Ok <==> r2 is Ok)
            &&& r1 is Err ==> r1 == r2
            &&& r1 is Ok ==> {
                &&& r1->Ok_0.collect_payment.amount == r2->Ok_0.collect_payment.amount
                &&& r1->Ok_0.deliver_sold.amount == r2->Ok_0.deliver_sold.amount
                &&& r1->Ok_0.forward_payment.amount == r2->Ok_0.forward_payment.amount
            }
        }),
{
}

} // verus!
