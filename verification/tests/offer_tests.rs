use single_offer::manager::SingleOffer;
use single_offer::types::{Address, Error, Offer};

fn contract() -> Address {
    Address { id: 10 }
}

fn seller() -> Address {
    Address { id: 11 }
}

fn buyer() -> Address {
    Address { id: 12 }
}

fn sell_token() -> Address {
    Address { id: 13 }
}

fn buy_token() -> Address {
    Address { id: 14 }
}

fn created(sell_price: u32, buy_price: u32) -> SingleOffer {
    let mut m = SingleOffer::new(contract());
    m.create(seller(), sell_token(), buy_token(), sell_price, buy_price, true)
        .expect("create with positive prices and authorization succeeds");
    m
}

#[test]
fn create_persists_exact_offer() {
    let m = created(10, 3);
    let offer = m.get_offer().expect("offer exists after create");
    assert_eq!(
        offer,
        Offer {
            seller: seller(),
            sell_token: sell_token(),
            buy_token: buy_token(),
            sell_price: 10,
            buy_price: 3,
        }
    );
}

#[test]
fn second_create_always_fails() {
    let mut m = created(10, 3);
    let other_seller = Address { id: 99 };
    assert_eq!(
        m.create(other_seller, buy_token(), sell_token(), 7, 7, true),
        Err(Error::AlreadyInitialized)
    );
    // Even invalid or unauthorized parameters report the existing offer first.
    assert_eq!(
        m.create(seller(), sell_token(), buy_token(), 0, 0, false),
        Err(Error::AlreadyInitialized)
    );
    // The record is untouched.
    assert_eq!(m.get_offer().unwrap().sell_price, 10);
    assert_eq!(m.get_offer().unwrap().buy_price, 3);
}

#[test]
fn create_rejects_zero_sell_price() {
    let mut m = SingleOffer::new(contract());
    assert_eq!(
        m.create(seller(), sell_token(), buy_token(), 0, 5, true),
        Err(Error::InvalidPrice)
    );
    assert_eq!(m.get_offer(), Err(Error::NotInitialized));
}

#[test]
fn create_rejects_zero_buy_price() {
    let mut m = SingleOffer::new(contract());
    assert_eq!(
        m.create(seller(), sell_token(), buy_token(), 5, 0, true),
        Err(Error::InvalidPrice)
    );
    assert_eq!(m.get_offer(), Err(Error::NotInitialized));
}

#[test]
fn create_requires_seller_authorization() {
    let mut m = SingleOffer::new(contract());
    assert_eq!(
        m.create(seller(), sell_token(), buy_token(), 10, 3, false),
        Err(Error::Unauthorized)
    );
    assert_eq!(m.get_offer(), Err(Error::NotInitialized));
}

#[test]
fn update_price_rejects_zero_price() {
    let mut m = created(10, 3);
    assert_eq!(m.updt_price(0, 7, true), Err(Error::InvalidPrice));
    assert_eq!(m.updt_price(5, 0, true), Err(Error::InvalidPrice));
    assert_eq!(m.updt_price(0, 0, false), Err(Error::InvalidPrice));
    // The zero-price check comes before the existence check.
    let mut fresh = SingleOffer::new(contract());
    assert_eq!(fresh.updt_price(0, 7, true), Err(Error::InvalidPrice));
    // The record kept its prices.
    assert_eq!(m.get_offer().unwrap().sell_price, 10);
    assert_eq!(m.get_offer().unwrap().buy_price, 3);
}

#[test]
fn update_price_requires_seller_authorization() {
    let mut m = created(10, 3);
    assert_eq!(m.updt_price(5, 7, false), Err(Error::Unauthorized));
    assert_eq!(m.get_offer().unwrap().sell_price, 10);
}

#[test]
fn update_price_then_get_reflects_new_prices_only() {
    let mut m = created(10, 3);
    m.updt_price(5, 7, true).expect("authorized valid update succeeds");
    let offer = m.get_offer().unwrap();
    assert_eq!(offer.sell_price, 5);
    assert_eq!(offer.buy_price, 7);
    assert_eq!(offer.seller, seller());
    assert_eq!(offer.sell_token, sell_token());
    assert_eq!(offer.buy_token, buy_token());
}

#[test]
fn trade_exact_ratio() {
    let m = created(1000, 100);
    let t = m.trade(buyer(), 250, 2500, true).expect("trade succeeds");
    // The buyer pays 250 of the buy token into custody.
    assert_eq!(t.collect_payment.token, buy_token());
    assert_eq!(t.collect_payment.from, buyer());
    assert_eq!(t.collect_payment.to, contract());
    assert_eq!(t.collect_payment.amount, 250);
    // The buyer receives exactly 2500 of the sell token: no truncation.
    assert_eq!(t.deliver_sold.token, sell_token());
    assert_eq!(t.deliver_sold.from, contract());
    assert_eq!(t.deliver_sold.to, buyer());
    assert_eq!(t.deliver_sold.amount, 2500);
    // The seller is paid the full 250 of the buy token.
    assert_eq!(t.forward_payment.token, buy_token());
    assert_eq!(t.forward_payment.from, contract());
    assert_eq!(t.forward_payment.to, seller());
    assert_eq!(t.forward_payment.amount, 250);
}

#[test]
fn trade_truncates_toward_zero() {
    let m = created(1000, 99);
    // floor(1 * 1000 / 99) = 10, never rounded up to 11.
    let t = m.trade(buyer(), 1, 0, true).expect("trade succeeds");
    assert_eq!(t.deliver_sold.amount, 10);
}

#[test]
fn trade_negative_amount_truncates_toward_zero() {
    let m = created(1000, 99);
    // -1000 / 99 truncates toward zero to -10, not down to -11.
    let t = m.trade(buyer(), -1, i128::MIN, true).expect("trade succeeds");
    assert_eq!(t.deliver_sold.amount, -10);
}

#[test]
fn trade_fails_on_slippage() {
    let m = created(1000, 99);
    // The computed sell amount is 10; a minimum of 11 is not met.
    assert_eq!(m.trade(buyer(), 1, 11, true), Err(Error::SlippageExceeded));
    // A minimum of exactly 10 is met.
    assert!(m.trade(buyer(), 1, 10, true).is_ok());
}

#[test]
fn trade_requires_buyer_authorization() {
    let m = created(1000, 100);
    assert_eq!(m.trade(buyer(), 250, 0, false), Err(Error::Unauthorized));
    // Authorization is checked before the record is even consulted.
    let fresh = SingleOffer::new(contract());
    assert_eq!(fresh.trade(buyer(), 250, 0, false), Err(Error::Unauthorized));
}

#[test]
fn trade_rejects_overflowing_multiplication() {
    let m = created(2, 1);
    assert_eq!(
        m.trade(buyer(), i128::MAX, 0, true),
        Err(Error::ArithmeticOverflow)
    );
    assert_eq!(
        m.trade(buyer(), i128::MIN, i128::MIN, true),
        Err(Error::ArithmeticOverflow)
    );
}

#[test]
fn trade_handles_extreme_amounts_without_overflow() {
    let m = created(1, 1);
    let t = m.trade(buyer(), i128::MAX, i128::MAX, true).expect("1:1 trade of the maximum amount");
    assert_eq!(t.deliver_sold.amount, i128::MAX);
    let tn = m.trade(buyer(), i128::MIN, i128::MIN, true).expect("1:1 trade of the minimum amount");
    assert_eq!(tn.deliver_sold.amount, i128::MIN);
}

#[test]
fn trade_does_not_change_the_offer() {
    let m = created(1000, 100);
    let before = m.get_offer().unwrap();
    m.trade(buyer(), 250, 0, true).expect("trade succeeds");
    assert_eq!(m.get_offer().unwrap(), before);
}

#[test]
fn withdraw_returns_exact_transfer() {
    let m = created(10, 3);
    // Any asset may be withdrawn, not only the offered pair.
    let other_token = Address { id: 77 };
    let w = m.withdraw(other_token, 12345, true).expect("authorized withdraw succeeds");
    assert_eq!(w.token, other_token);
    assert_eq!(w.from, contract());
    assert_eq!(w.to, seller());
    assert_eq!(w.amount, 12345);
}

#[test]
fn withdraw_requires_seller_authorization() {
    let m = created(10, 3);
    assert_eq!(m.withdraw(sell_token(), 1, false), Err(Error::Unauthorized));
}

#[test]
fn nothing_works_before_create() {
    let mut m = SingleOffer::new(contract());
    assert_eq!(m.trade(buyer(), 1, 0, true), Err(Error::NotInitialized));
    assert_eq!(m.withdraw(sell_token(), 1, true), Err(Error::NotInitialized));
    assert_eq!(m.updt_price(5, 7, true), Err(Error::NotInitialized));
    assert_eq!(m.get_offer(), Err(Error::NotInitialized));
}

#[test]
fn resume_restores_a_persisted_record() {
    let stored = Offer {
        seller: seller(),
        sell_token: sell_token(),
        buy_token: buy_token(),
        sell_price: 42,
        buy_price: 7,
    };
    let m = SingleOffer::resume(contract(), Some(stored));
    assert_eq!(m.get_offer(), Ok(stored));
    let empty = SingleOffer::resume(contract(), None);
    assert_eq!(empty.get_offer(), Err(Error::NotInitialized));
}
