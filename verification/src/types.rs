//! The data the offer manager works on: account identities, the persisted
//! `Offer` record, the error taxonomy and the transfer requests handed back
//! to the host for execution.

use vstd::prelude::*;

verus! {

/// An account or asset identity as the manager sees it: an opaque handle.
/// The surrounding runtime maps these to whatever identity scheme the host
/// ledger uses.
#[derive(Clone, Copy, Debug, PartialEq, Eq, Structural)]
pub struct Address {
    pub id: u64,
}

/// The key under which the one offer record is persisted in the host's
/// durable keyed storage.
#[derive(Clone, Copy, Debug, PartialEq, Eq, Structural)]
pub enum DataKey {
    Offer,
}

/// The one persistent record: a seller's standing willingness to exchange
/// `sell_token` for `buy_token`.
///
/// The pair (`sell_price`, `buy_price`) encodes a ratio, not absolute
/// amounts: `sell_price` units of the sell token are worth `buy_price`
/// units of the buy token, so 1000:100 quotes the same rate as 100:10.
#[derive(Clone, Copy, Debug, PartialEq, Eq, Structural)]
pub struct Offer {
    /// Owner of the offer; sells `sell_token` to get `buy_token`, and alone
    /// may withdraw funds or update the prices.
    pub seller: Address,
    pub sell_token: Address,
    pub buy_token: Address,
    /// Seller-chosen price weight of the sell token, in arbitrary units.
    pub sell_price: u32,
    /// Seller-chosen price weight of the buy token, in arbitrary units.
    pub buy_price: u32,
}

/// Why an operation was refused. Every failure is fatal to the invocation:
/// the caller sees the error and no partial state is left behind.
#[derive(Clone, Copy, Debug, PartialEq, Eq, Structural)]
pub enum Error {
    /// `create` was called although an offer already exists.
    AlreadyInitialized,
    /// A zero `sell_price` or `buy_price` was supplied on a write path.
    InvalidPrice,
    /// The authorization collaborator did not establish the required identity.
    Unauthorized,
    /// An operation other than `create` was called before any offer exists.
    NotInitialized,
    /// The computed sell amount fell below the buyer's stated minimum.
    SlippageExceeded,
    /// The price multiplication would leave the 128-bit signed range.
    ArithmeticOverflow,
    /// The token-transfer collaborator rejected a requested movement.
    /// The manager itself never produces this; the runtime reports it when a
    /// transfer it was asked to perform fails, aborting the whole operation.
    TransferFailed,
}

/// One balance movement the host's token-transfer primitive must perform:
/// `amount` units of `token` from `from` to `to`.
#[derive(Clone, Copy, Debug, PartialEq, Eq, Structural)]
pub struct Transfer {
    pub token: Address,
    pub from: Address,
    pub to: Address,
    pub amount: i128,
}

/// The three transfers of a successful trade, to be performed in field
/// order as a single atomic unit: if any of them fails, the whole trade
/// must be rolled back with no partial movement.
#[derive(Clone, Copy, Debug, PartialEq, Eq, Structural)]
pub struct TradeTransfers {
    /// The buyer pays: `buy_token_amount` of the buy token, buyer to the
    /// manager's custodial account.
    pub collect_payment: Transfer,
    /// The buyer receives: the computed sell amount of the sell token,
    /// custodial account to buyer.
    pub deliver_sold: Transfer,
    /// The seller is paid: the full `buy_token_amount` of the buy token,
    /// custodial account to seller.
    pub forward_payment: Transfer,
}

/// Both price weights of a write request are positive; zero is rejected on
/// every write path.
pub open spec fn valid_prices(sell_price: u32, buy_price: u32) -> bool {
    sell_price > 0 && buy_price > 0
}

/// A well-formed offer record: the prices it carries were accepted by a
/// write path, so both are positive.
pub open spec fn offer_wf(o: Offer) -> bool {
    valid_prices(o.sell_price, o.buy_price)
}

} // verus!
