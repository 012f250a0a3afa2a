use odyssey_core::config;
use odyssey_core::inventory::Inventory;
use odyssey_core::market::{market_fee, Market, OrderSide};

fn make_inventory() -> Inventory {
    Inventory::new(config::INVENTORY_CAPACITY)
}

// Prices are in centi-OMEN: 100.0 OMEN is written 10_000.

#[test]
fn test_place_sell_order_escrows_items() {
    let mut market = Market::new();
    let mut inv = make_inventory();
    inv.add("iron", 50);

    let result = market.place_order(1, "iron", 10, 10_000, OrderSide::Sell, &mut inv, 0);
    assert!(result.error.is_none());
    assert!(result.order.is_some());
    assert_eq!(inv.get("iron"), 40);
}

#[test]
fn test_place_buy_order_escrows_omen() {
    let mut market = Market::new();
    let mut inv = make_inventory();
    // Starting balance is 10 000.00 OMEN = 1 000 000 centi.

    let result = market.place_order(1, "iron", 5, 10_000, OrderSide::Buy, &mut inv, 0);
    assert!(result.error.is_none());
    // 5 × 100.00 = 500.00 OMEN escrowed.
    assert_eq!(inv.omen_balance, 950_000);
}

#[test]
fn test_insufficient_items_for_sell() {
    let mut market = Market::new();
    let mut inv = make_inventory();
    inv.add("iron", 3);

    let result = market.place_order(1, "iron", 10, 5_000, OrderSide::Sell, &mut inv, 0);
    assert!(result.error.is_some());
    assert!(result.error.unwrap().contains("Insufficient"));
    assert_eq!(inv.get("iron"), 3);
}

#[test]
fn test_insufficient_omen_for_buy() {
    let mut market = Market::new();
    let mut inv = make_inventory();

    // 200 × 100.00 = 20 000.00 OMEN, more than the starting balance.
    let result = market.place_order(1, "iron", 200, 10_000, OrderSide::Buy, &mut inv, 0);
    assert!(result.error.is_some());
    assert!(result.error.unwrap().contains("Insufficient OMEN"));
}

#[test]
fn test_cancel_sell_order_returns_items() {
    let mut market = Market::new();
    let mut inv = make_inventory();
    inv.add("iron", 20);

    let result = market.place_order(1, "iron", 10, 5_000, OrderSide::Sell, &mut inv, 0);
    let order_id = result.order.unwrap().order_id;
    assert_eq!(inv.get("iron"), 10);

    let cancel = market.cancel_order(1, order_id, &mut inv);
    assert!(cancel.success);
    assert_eq!(inv.get("iron"), 20);
}

#[test]
fn test_cancel_buy_order_returns_omen() {
    let mut market = Market::new();
    let mut inv = make_inventory();

    let result = market.place_order(1, "iron", 5, 10_000, OrderSide::Buy, &mut inv, 0);
    let order_id = result.order.unwrap().order_id;
    assert_eq!(inv.omen_balance, 950_000);

    let cancel = market.cancel_order(1, order_id, &mut inv);
    assert!(cancel.success);
    assert_eq!(inv.omen_balance, 1_000_000);
}

#[test]
fn test_cancel_wrong_player() {
    let mut market = Market::new();
    let mut inv = make_inventory();
    inv.add("iron", 10);

    let result = market.place_order(1, "iron", 5, 5_000, OrderSide::Sell, &mut inv, 0);
    let order_id = result.order.unwrap().order_id;

    let mut inv2 = make_inventory();
    let cancel = market.cancel_order(2, order_id, &mut inv2);
    assert!(!cancel.success);
    assert!(cancel.error.unwrap().contains("does not belong"));
}

#[test]
fn test_get_order_book_aggregates() {
    let mut market = Market::new();
    let mut inv1 = make_inventory();
    inv1.add("iron", 100);
    let mut inv2 = make_inventory();
    inv2.add("iron", 100);

    market.place_order(1, "iron", 10, 5_000, OrderSide::Sell, &mut inv1, 0);
    market.place_order(2, "iron", 5, 5_000, OrderSide::Sell, &mut inv2, 1_000);

    let snapshot = market.get_order_book("iron");
    assert_eq!(snapshot.sells.len(), 1);
    assert_eq!(snapshot.sells[0].total_quantity, 15);
    assert_eq!(snapshot.sells[0].order_count, 2);
}

#[test]
fn test_get_player_orders() {
    let mut market = Market::new();
    let mut inv = make_inventory();
    inv.add("iron", 100);

    market.place_order(1, "iron", 10, 5_000, OrderSide::Sell, &mut inv, 0);
    market.place_order(1, "iron", 5, 6_000, OrderSide::Sell, &mut inv, 1_000);

    let orders = market.get_player_orders(1);
    assert_eq!(orders.len(), 2);

    let orders_p2 = market.get_player_orders(2);
    assert!(orders_p2.is_empty());
}

#[test]
fn test_order_book_empty_for_unknown_item() {
    let market = Market::new();
    let snapshot = market.get_order_book("unobtanium");
    assert!(snapshot.buys.is_empty());
    assert!(snapshot.sells.is_empty());
}

#[test]
fn test_fee_rate_is_five_percent() {
    // The fee on a round value is exactly five percent.
    assert_eq!(market_fee(10_000), 500);
    assert_eq!(market_fee(50_000), 2_500);
    // Fractions of a centi-OMEN are dropped.
    assert_eq!(market_fee(19), 0);
    assert_eq!(market_fee(39), 1);
}

#[test]
fn order_crossing_executes_at_resting_price() {
    // Sell 10 iron @ 50.00 by player 1, then buy 10 iron @ 60.00 by
    // player 2: one trade at 50.00.
    let mut market = Market::new();
    let mut inv1 = make_inventory();
    inv1.add("iron", 10);
    let mut inv2 = make_inventory();

    let sell = market.place_order(1, "iron", 10, 5_000, OrderSide::Sell, &mut inv1, 0);
    assert!(sell.error.is_none());
    assert_eq!(inv1.get("iron"), 0);

    let buy = market.place_order(2, "iron", 10, 6_000, OrderSide::Buy, &mut inv2, 1_000);
    assert!(buy.error.is_none());
    assert_eq!(buy.trades.len(), 1);
    let trade = &buy.trades[0];
    assert_eq!(trade.price_per_unit, 5_000);
    assert_eq!(trade.quantity, 10);
    assert_eq!(trade.total_price, 50_000);
    // Fee: floor(500.00 × 0.05) = 25.00 OMEN.
    assert_eq!(trade.fee, 2_500);

    // Settlement: the seller receives 500.00 − 25.00 = 475.00 OMEN.
    odyssey_core::market::apply_trade_to_seller(&mut inv1, trade);
    assert_eq!(inv1.omen_balance, 1_000_000 + 47_500);

    // The buyer receives the items and a 10 × (60.00 − 50.00) refund.
    odyssey_core::market::apply_trade_to_buyer(&mut inv2, trade);
    odyssey_core::market::apply_buy_refund(&mut inv2, trade, 6_000);
    assert_eq!(inv2.get("iron"), 10);
    // Escrowed 600.00, refunded 100.00, net paid 500.00.
    assert_eq!(inv2.omen_balance, 1_000_000 - 50_000);
}

#[test]
fn partial_fill_leaves_remainder_in_book() {
    let mut market = Market::new();
    let mut inv1 = make_inventory();
    inv1.add("iron", 5);
    let mut inv2 = make_inventory();

    market.place_order(1, "iron", 5, 5_000, OrderSide::Sell, &mut inv1, 0);
    let buy = market.place_order(2, "iron", 10, 5_000, OrderSide::Buy, &mut inv2, 1_000);
    assert!(buy.error.is_none());
    let order = buy.order.unwrap();
    assert_eq!(order.filled_quantity, 5);

    // The unfilled 5 rest as a buy level at 50.00.
    let snapshot = market.get_order_book("iron");
    assert_eq!(snapshot.buys.len(), 1);
    assert_eq!(snapshot.buys[0].total_quantity, 5);
    assert!(snapshot.sells.is_empty());
}
