//! Player-to-player market: price-time-priority limit order books with
//! escrow, partial fills, a 5 % seller fee, and cancellation.
//!
//! Prices and OMEN amounts are in centi-OMEN, times in milliseconds.  An
//! order rests in a book exactly while its status is open or partial and
//! some quantity is unfilled; buys are sorted by descending price and
//! sells by ascending price, ties broken by earlier creation.

use vstd::prelude::*;

use crate::inventory::Inventory;
use crate::util::{min_u32, str_eq};

verus! {

/// Seller fee: one twentieth (5 %) of the trade value, rounded down to a
/// centi-OMEN.
pub open spec fn spec_market_fee(total: nat) -> nat {
    total / 20
}

/// Fee charged to the seller on a trade of the given total value.
pub fn market_fee(total: u64) -> (r: u64)
    ensures
        r == spec_market_fee(total as nat),
{
    total / 20
}

#[derive(Clone, Copy, PartialEq, Eq, Structural, Debug)]
pub enum OrderSide {
    Buy,
    Sell,
}

#[derive(Clone, Copy, PartialEq, Eq, Structural, Debug)]
pub enum OrderStatus {
    Open,
    Partial,
    Filled,
    Cancelled,
}

pub struct MarketOrder {
    pub order_id: u64,
    pub player_id: u32,
    pub item_type: String,
    pub quantity: u32,
    pub filled_quantity: u32,
    /// Price per unit, centi-OMEN.
    pub price_per_unit: u64,
    pub side: OrderSide,
    pub status: OrderStatus,
    /// Server time when the order was placed, milliseconds.
    pub created_at: u64,
}

impl Clone for MarketOrder {
    fn clone(&self) -> (r: Self)
        ensures
            r == *self,
    {
        MarketOrder {
            order_id: self.order_id,
            player_id: self.player_id,
            item_type: self.item_type.clone(),
            quantity: self.quantity,
            filled_quantity: self.filled_quantity,
            price_per_unit: self.price_per_unit,
            side: self.side,
            status: self.status,
            created_at: self.created_at,
        }
    }
}

/// Unfilled quantity of an order.
pub open spec fn spec_remaining(o: MarketOrder) -> nat {
    (o.quantity - o.filled_quantity) as nat
}

/// What every order resting in a book satisfies: open or partial status
/// consistent with its fill, some quantity left, and a positive price.
pub open spec fn order_restable(o: MarketOrder) -> bool {
    &&& o.quantity > 0
    &&& o.price_per_unit > 0
    &&& o.filled_quantity < o.quantity
    &&& (o.status is Open || o.status is Partial)
    &&& (o.status is Open <==> o.filled_quantity == 0)
}

/// Buy-book order: highest price first, then earliest creation.
pub open spec fn buy_sorted(s: Seq<MarketOrder>) -> bool {
    forall|i: int, j: int|
        0 <= i < j < s.len() ==> ((#[trigger] s[i]).price_per_unit > (#[trigger] s[j]).price_per_unit
            || (s[i].price_per_unit == s[j].price_per_unit && s[i].created_at <= s[j].created_at))
}

/// Sell-book order: lowest price first, then earliest creation.
pub open spec fn sell_sorted(s: Seq<MarketOrder>) -> bool {
    forall|i: int, j: int|
        0 <= i < j < s.len() ==> ((#[trigger] s[i]).price_per_unit < (#[trigger] s[j]).price_per_unit
            || (s[i].price_per_unit == s[j].price_per_unit && s[i].created_at <= s[j].created_at))
}

/// Sum of the unfilled quantities of a list of orders.
pub open spec fn sum_remaining(s: Seq<MarketOrder>) -> nat
    decreases s.len(),
{
    if s.len() == 0 {
        0
    } else {
        (spec_remaining(s[0]) + sum_remaining(s.subrange(1, s.len() as int))) as nat
    }
}

proof fn lemma_sum_remaining_head(s: Seq<MarketOrder>)
    requires
        s.len() > 0,
    ensures
        sum_remaining(s) == spec_remaining(s[0]) + sum_remaining(s.subrange(1, s.len() as int)),
{
}

/// One resting book for a single item type.
pub struct OrderBook {
    pub item_type: String,
    pub buys: Vec<MarketOrder>,
    pub sells: Vec<MarketOrder>,
}

/// First book whose item type matches, if any.
pub open spec fn spec_find_book(books: Seq<OrderBook>, item: Seq<char>) -> Option<OrderBook>
    decreases books.len(),
{
    if books.len() == 0 {
        None
    } else if books[0].item_type@ == item {
        Some(books[0])
    } else {
        spec_find_book(books.subrange(1, books.len() as int), item)
    }
}

/// Side and book conditions on every resting order.
pub open spec fn book_wf(b: OrderBook) -> bool {
    &&& buy_sorted(b.buys@)
    &&& sell_sorted(b.sells@)
    &&& forall|i: int|
        0 <= i < b.buys@.len() ==> {
            &&& order_restable(#[trigger] b.buys@[i])
            &&& b.buys@[i].side is Buy
            &&& b.buys@[i].item_type@ == b.item_type@
            &&& b.buys@[i].quantity * b.buys@[i].price_per_unit <= u64::MAX
        }
    &&& forall|i: int|
        0 <= i < b.sells@.len() ==> {
            &&& order_restable(#[trigger] b.sells@[i])
            &&& b.sells@[i].side is Sell
            &&& b.sells@[i].item_type@ == b.item_type@
        }
}

pub struct TradeResult {
    pub buy_order_id: u64,
    pub sell_order_id: u64,
    pub buyer_id: u32,
    pub seller_id: u32,
    pub item_type: String,
    pub quantity: u32,
    /// Execution price per unit (the resting order's price), centi-OMEN.
    pub price_per_unit: u64,
    /// `quantity × price_per_unit`, centi-OMEN.
    pub total_price: u64,
    /// Fee paid by the seller, centi-OMEN.
    pub fee: u64,
}

/// Value laws every produced trade satisfies.
pub open spec fn trade_wf(t: TradeResult) -> bool {
    &&& t.quantity > 0
    &&& t.total_price == t.quantity * t.price_per_unit
    &&& t.fee == spec_market_fee(t.total_price as nat)
    &&& t.fee <= t.total_price
}

/// Sum of the quantities of a list of trades.
pub open spec fn sum_trade_qty(s: Seq<TradeResult>) -> nat
    decreases s.len(),
{
    if s.len() == 0 {
        0
    } else {
        (s[0].quantity + sum_trade_qty(s.subrange(1, s.len() as int))) as nat
    }
}

proof fn lemma_sum_trade_qty_push(s: Seq<TradeResult>, t: TradeResult)
    ensures
        sum_trade_qty(s.push(t)) == sum_trade_qty(s) + t.quantity,
    decreases s.len(),
{
    let u = s.push(t);
    assert(u[0] == if s.len() == 0 { t } else { s[0] });
    if s.len() == 0 {
        assert(u.subrange(1, u.len() as int) =~= Seq::<TradeResult>::empty());
        assert(sum_trade_qty(u.subrange(1, u.len() as int)) == 0);
    } else {
        assert(u.subrange(1, u.len() as int) =~= s.subrange(1, s.len() as int).push(t));
        lemma_sum_trade_qty_push(s.subrange(1, s.len() as int), t);
    }
}

pub struct PlaceOrderResult {
    pub order: Option<MarketOrder>,
    pub trades: Vec<TradeResult>,
    pub error: Option<String>,
}

pub struct CancelOrderResult {
    pub success: bool,
    pub error: Option<String>,
}

/// One aggregated price level of a book snapshot.
pub struct OrderBookEntry {
    /// Price per unit, centi-OMEN.
    pub price_per_unit: u64,
    pub total_quantity: u64,
    pub order_count: u64,
}

pub struct OrderBookSnapshot {
    pub buys: Vec<OrderBookEntry>,
    pub sells: Vec<OrderBookEntry>,
}

/// Recompute an order's status from its fill: filled when nothing remains,
/// partial once anything is filled, otherwise left as it was.
pub fn update_order_status(order: &mut MarketOrder)
    ensures
        final(order).status == if old(order).filled_quantity >= old(order).quantity {
            OrderStatus::Filled
        } else if old(order).filled_quantity > 0 {
            OrderStatus::Partial
        } else {
            old(order).status
        },
        final(order).order_id == old(order).order_id,
        final(order).player_id == old(order).player_id,
        final(order).item_type == old(order).item_type,
        final(order).quantity == old(order).quantity,
        final(order).filled_quantity == old(order).filled_quantity,
        final(order).price_per_unit == old(order).price_per_unit,
        final(order).side == old(order).side,
        final(order).created_at == old(order).created_at,
{
    if order.filled_quantity >= order.quantity {
        order.status = OrderStatus::Filled;
    } else if order.filled_quantity > 0 {
        order.status = OrderStatus::Partial;
    }
}

proof fn lemma_find_book_at(books: Seq<OrderBook>, i: int, item: Seq<char>)
    requires
        0 <= i < books.len(),
        books[i].item_type@ == item,
        forall|j: int| 0 <= j < i ==> (#[trigger] books[j]).item_type@ != item,
    ensures
        spec_find_book(books, item) == Some(books[i]),
    decreases i,
{
    if i > 0 {
        lemma_find_book_at(books.subrange(1, books.len() as int), i - 1, item);
    }
}

proof fn lemma_find_book_absent(books: Seq<OrderBook>, item: Seq<char>)
    requires
        forall|j: int| 0 <= j < books.len() ==> (#[trigger] books[j]).item_type@ != item,
    ensures
        spec_find_book(books, item) is None,
    decreases books.len(),
{
    if books.len() > 0 {
        lemma_find_book_absent(books.subrange(1, books.len() as int), item);
    }
}

proof fn lemma_find_book_update_other(books: Seq<OrderBook>, i: int, b: OrderBook, item: Seq<char>)
    requires
        0 <= i < books.len(),
        books[i].item_type@ != item,
        b.item_type@ != item,
    ensures
        spec_find_book(books.update(i, b), item) == spec_find_book(books, item),
    decreases books.len(),
{
    let t = books.update(i, b);
    if i == 0 {
        assert(t.subrange(1, t.len() as int) =~= books.subrange(1, books.len() as int));
    } else {
        assert(t.subrange(1, t.len() as int) =~= books.subrange(1, books.len() as int).update(
            i - 1,
            b,
        ));
        lemma_find_book_update_other(books.subrange(1, books.len() as int), i - 1, b, item);
    }
}

proof fn lemma_find_book_push_other(books: Seq<OrderBook>, b: OrderBook, item: Seq<char>)
    requires
        b.item_type@ != item,
    ensures
        spec_find_book(books.push(b), item) == spec_find_book(books, item),
    decreases books.len(),
{
    let t = books.push(b);
    assert(t[0] == if books.len() == 0 { b } else { books[0] });
    if books.len() == 0 {
        assert(t.subrange(1, t.len() as int) =~= Seq::<OrderBook>::empty());
        assert(spec_find_book(Seq::<OrderBook>::empty(), item) is None);
    } else {
        assert(t.subrange(1, t.len() as int) =~= books.subrange(1, books.len() as int).push(b));
        lemma_find_book_push_other(books.subrange(1, books.len() as int), b, item);
    }
}

/// The returned order's fields and status, and the exact escrow taken
/// from the placing inventory.
pub open spec fn spec_place_order_fields(
    m_old: Market,
    inv_old: Inventory,
    inv_new: Inventory,
    player_id: u32,
    item: Seq<char>,
    quantity: u32,
    price_per_unit: u64,
    side: OrderSide,
    current_time_ms: u64,
    o: MarketOrder,
    trades: Seq<TradeResult>,
) -> bool {
    &&& o.order_id == m_old.next_order_id
    &&& o.player_id == player_id
    &&& o.item_type@ == item
    &&& o.quantity == quantity
    &&& o.price_per_unit == price_per_unit
    &&& o.side == side
    &&& o.created_at == current_time_ms
    &&& o.filled_quantity == sum_trade_qty(trades)
    &&& o.filled_quantity <= quantity
    &&& o.status == (if o.filled_quantity >= quantity {
        OrderStatus::Filled
    } else if o.filled_quantity > 0 {
        OrderStatus::Partial
    } else {
        OrderStatus::Open
    })
    &&& (side is Sell ==> inv_new.spec_get(item) == inv_old.spec_get(item) - quantity
        && inv_new.omen_balance == inv_old.omen_balance)
    &&& (side is Buy ==> inv_new.omen_balance == inv_old.omen_balance - quantity * price_per_unit
        && inv_new.items@ == inv_old.items@)
}

/// The laws of every executed trade: it crosses, executes at the price of
/// a resting order of the old book, and carries the placing player on its
/// own side of the trade.
/// The trade executes at the price of a resting order on the opposing
/// list, with that order's owner and id on the other side of the trade.
pub open spec fn spec_trade_at_resting(t: TradeResult, counters: Seq<MarketOrder>, is_buy: bool) -> bool {
    exists|j: int|
        0 <= j < counters.len() && (#[trigger] counters[j]).price_per_unit == t.price_per_unit
            && (is_buy ==> t.seller_id == counters[j].player_id && t.sell_order_id
            == counters[j].order_id) && (!is_buy ==> t.buyer_id == counters[j].player_id
            && t.buy_order_id == counters[j].order_id)
}

pub open spec fn spec_place_trades(
    player_id: u32,
    item: Seq<char>,
    price_per_unit: u64,
    side: OrderSide,
    o: MarketOrder,
    trades: Seq<TradeResult>,
) -> bool {
    forall|k: int|
        0 <= k < trades.len() ==> {
            &&& trade_wf(#[trigger] trades[k])
            &&& trades[k].item_type@ == item
            &&& spec_crosses(side is Buy, trades[k].price_per_unit, price_per_unit)
            &&& (side is Buy ==> trades[k].buyer_id == player_id && trades[k].buy_order_id
                == o.order_id)
            &&& (side is Sell ==> trades[k].seller_id == player_id && trades[k].sell_order_id
                == o.order_id)
        }
}

/// How the books changed: what was filled left the opposing side, any
/// remainder rests in the book with nothing crossing it, and books of
/// other items are untouched.
pub open spec fn spec_place_books(
    m_old: Market,
    m_new: Market,
    item: Seq<char>,
    quantity: u32,
    price_per_unit: u64,
    side: OrderSide,
    o: MarketOrder,
    trades: Seq<TradeResult>,
) -> bool {
    let old_book = m_old.spec_book_of(item);
    let new_book = m_new.spec_book_of(item);
    let old_counters = if old_book is Some {
        if side is Buy {
            old_book->0.sells@
        } else {
            old_book->0.buys@
        }
    } else {
        Seq::<MarketOrder>::empty()
    };
    let new_counters = if side is Buy {
        new_book->0.sells@
    } else {
        new_book->0.buys@
    };
    &&& new_book is Some
    &&& new_book->0.item_type@ == item
    &&& sum_remaining(new_counters) == sum_remaining(old_counters) - sum_trade_qty(trades)
    // Every trade executes at a resting order's price, with that
    // order's owner on the other side.
    &&& (forall|k: int|
        0 <= k < trades.len() ==> spec_trade_at_resting(
            #[trigger] trades[k],
            old_counters,
            side is Buy,
        ))
    // One trade per touched resting order: one for each consumed order,
    // and one more when the surviving head was partially filled.
    &&& trades.len() == old_counters.len() - new_counters.len() + (
    if new_counters.len() > 0 && new_counters[0].filled_quantity != old_counters[old_counters.len()
        - new_counters.len()].filled_quantity {
        1int
    } else {
        0int
    })
    // The surviving opposing orders are a suffix of the old list; only
    // its first entry may have been partially filled.
    &&& new_counters.len() <= old_counters.len()
    &&& (forall|i: int|
        1 <= i < new_counters.len() ==> #[trigger] new_counters[i] == old_counters[old_counters.len()
            - new_counters.len() + i])
    &&& (new_counters.len() > 0 ==> {
        let orig = old_counters[old_counters.len() - new_counters.len()];
        &&& new_counters[0].order_id == orig.order_id
        &&& new_counters[0].player_id == orig.player_id
        &&& new_counters[0].price_per_unit == orig.price_per_unit
        &&& new_counters[0].quantity == orig.quantity
    })
    &&& (o.filled_quantity < quantity ==> {
        &&& (side is Buy ==> new_book->0.buys@.contains(o))
        &&& (side is Sell ==> new_book->0.sells@.contains(o))
        &&& (new_counters.len() == 0 || !spec_crosses(
            side is Buy,
            new_counters[0].price_per_unit,
            price_per_unit,
        ))
    })
    &&& (forall|other: Seq<char>|
        other != item ==> #[trigger] m_new.spec_book_of(other) == m_old.spec_book_of(other))
}

/// Everything a successful placement guarantees: the exact escrow taken
/// from the placing inventory, the returned order's fields and status, the
/// laws of every executed trade, conservation of the opposing side of the
/// book, and that a remainder rests in the book with nothing crossing it.
pub open spec fn spec_place_success(
    m_old: Market,
    m_new: Market,
    inv_old: Inventory,
    inv_new: Inventory,
    player_id: u32,
    item: Seq<char>,
    quantity: u32,
    price_per_unit: u64,
    side: OrderSide,
    current_time_ms: u64,
    o: MarketOrder,
    trades: Seq<TradeResult>,
) -> bool {
    &&& spec_place_order_fields(
        m_old,
        inv_old,
        inv_new,
        player_id,
        item,
        quantity,
        price_per_unit,
        side,
        current_time_ms,
        o,
        trades,
    )
    &&& spec_place_trades(player_id, item, price_per_unit, side, o, trades)
    &&& spec_place_books(m_old, m_new, item, quantity, price_per_unit, side, o, trades)
}

/// The escrow returned by a cancellation: the unfilled items for a sell
/// (as far as capacity allows), the unfilled cost for a buy.
pub open spec fn spec_cancel_refund(inv_old: Inventory, inv_new: Inventory, o: MarketOrder) -> bool {
    let rem = spec_remaining(o);
    &&& (o.side is Sell ==> {
        &&& inv_new.omen_balance == inv_old.omen_balance
        &&& inv_new.max_capacity == inv_old.max_capacity
        &&& (if rem > 0 && inv_old.spec_total() + rem <= inv_old.max_capacity {
            &&& inv_new.spec_get(o.item_type@) == inv_old.spec_get(o.item_type@) + rem
            &&& inv_new.spec_total() == inv_old.spec_total() + rem
            &&& (forall|k: Seq<char>|
                k != o.item_type@ ==> inv_new.spec_get(k) == inv_old.spec_get(k))
        } else {
            inv_new.items@ == inv_old.items@
        })
    })
    &&& (o.side is Buy ==> {
        &&& inv_new.items@ == inv_old.items@
        &&& inv_new.omen_balance == (if inv_old.omen_balance + rem * o.price_per_unit
            <= u64::MAX {
            (inv_old.omen_balance + rem * o.price_per_unit) as u64
        } else {
            u64::MAX
        })
    })
}

/// How cancellation changes the books: the order's side of its book loses
/// one order and the order's unfilled quantity; everything else stays.
pub open spec fn spec_cancel_books(m_old: Market, m_new: Market, o: MarketOrder) -> bool {
    let ob = m_old.spec_book_of(o.item_type@);
    let nb = m_new.spec_book_of(o.item_type@);
    &&& ob is Some
    &&& nb is Some
    &&& (o.side is Buy ==> {
        &&& sum_remaining(nb->0.buys@) == sum_remaining(ob->0.buys@) - spec_remaining(o)
        &&& nb->0.buys@.len() == ob->0.buys@.len() - 1
        &&& nb->0.sells@ == ob->0.sells@
    })
    &&& (o.side is Sell ==> {
        &&& sum_remaining(nb->0.sells@) == sum_remaining(ob->0.sells@) - spec_remaining(o)
        &&& nb->0.sells@.len() == ob->0.sells@.len() - 1
        &&& nb->0.buys@ == ob->0.buys@
    })
    &&& (forall|other: Seq<char>|
        other != o.item_type@ ==> #[trigger] m_new.spec_book_of(other) == m_old.spec_book_of(
            other,
        ))
}

/// First order with the given id in a list.
pub open spec fn spec_find_in_list(s: Seq<MarketOrder>, order_id: u64) -> Option<MarketOrder>
    decreases s.len(),
{
    if s.len() == 0 {
        None
    } else if s[0].order_id == order_id {
        Some(s[0])
    } else {
        spec_find_in_list(s.subrange(1, s.len() as int), order_id)
    }
}

/// First order with the given id in a book: buys are searched first.
pub open spec fn spec_find_order_in_book(b: OrderBook, order_id: u64) -> Option<MarketOrder> {
    match spec_find_in_list(b.buys@, order_id) {
        Some(o) => Some(o),
        None => spec_find_in_list(b.sells@, order_id),
    }
}

/// First order with the given id across all books.
pub open spec fn spec_find_order(books: Seq<OrderBook>, order_id: u64) -> Option<MarketOrder>
    decreases books.len(),
{
    if books.len() == 0 {
        None
    } else {
        match spec_find_order_in_book(books[0], order_id) {
            Some(o) => Some(o),
            None => spec_find_order(books.subrange(1, books.len() as int), order_id),
        }
    }
}

proof fn lemma_find_in_list_at(s: Seq<MarketOrder>, i: int, order_id: u64)
    requires
        0 <= i < s.len(),
        s[i].order_id == order_id,
        forall|j: int| 0 <= j < i ==> (#[trigger] s[j]).order_id != order_id,
    ensures
        spec_find_in_list(s, order_id) == Some(s[i]),
    decreases i,
{
    if i > 0 {
        lemma_find_in_list_at(s.subrange(1, s.len() as int), i - 1, order_id);
    }
}

proof fn lemma_find_in_list_absent(s: Seq<MarketOrder>, order_id: u64)
    requires
        forall|j: int| 0 <= j < s.len() ==> (#[trigger] s[j]).order_id != order_id,
    ensures
        spec_find_in_list(s, order_id) is None,
    decreases s.len(),
{
    if s.len() > 0 {
        lemma_find_in_list_absent(s.subrange(1, s.len() as int), order_id);
    }
}

proof fn lemma_find_order_at(books: Seq<OrderBook>, i: int, order_id: u64)
    requires
        0 <= i < books.len(),
        spec_find_order_in_book(books[i], order_id) is Some,
        forall|j: int| 0 <= j < i ==> spec_find_order_in_book(#[trigger] books[j], order_id) is None,
    ensures
        spec_find_order(books, order_id) == spec_find_order_in_book(books[i], order_id),
    decreases i,
{
    if i > 0 {
        lemma_find_order_at(books.subrange(1, books.len() as int), i - 1, order_id);
    }
}

proof fn lemma_find_order_absent(books: Seq<OrderBook>, order_id: u64)
    requires
        forall|j: int| 0 <= j < books.len() ==> spec_find_order_in_book(
            #[trigger] books[j],
            order_id,
        ) is None,
    ensures
        spec_find_order(books, order_id) is None,
    decreases books.len(),
{
    if books.len() > 0 {
        lemma_find_order_absent(books.subrange(1, books.len() as int), order_id);
    }
}

proof fn lemma_sum_remaining_remove(s: Seq<MarketOrder>, i: int)
    requires
        0 <= i < s.len(),
    ensures
        sum_remaining(s.remove(i)) == sum_remaining(s) - spec_remaining(s[i]),
    decreases s.len(),
{
    let t = s.remove(i);
    if i == 0 {
        assert(t =~= s.subrange(1, s.len() as int));
    } else {
        assert(t[0] == s[0]);
        assert(t.subrange(1, t.len() as int) =~= s.subrange(1, s.len() as int).remove(i - 1));
        lemma_sum_remaining_remove(s.subrange(1, s.len() as int), i - 1);
    }
}

/// Sum of the unfilled quantities at one price, saturating at u64::MAX,
/// and the number of orders at that price, for an adjacent run starting at
/// the head of the list.
/// Total remaining quantity resting at one price.
pub open spec fn spec_level_qty(orders: Seq<MarketOrder>, price: u64) -> int
    decreases orders.len(),
{
    if orders.len() == 0 {
        0
    } else {
        spec_level_qty(orders.drop_last(), price) + (if orders.last().price_per_unit == price {
            orders.last().quantity - orders.last().filled_quantity
        } else {
            0
        })
    }
}

/// Number of orders resting at one price.
pub open spec fn spec_level_count(orders: Seq<MarketOrder>, price: u64) -> int
    decreases orders.len(),
{
    if orders.len() == 0 {
        0
    } else {
        spec_level_count(orders.drop_last(), price) + (if orders.last().price_per_unit == price {
            1int
        } else {
            0
        })
    }
}

/// The order rests in one of the market's books.
pub open spec fn spec_in_books(m: Market, o: MarketOrder) -> bool {
    exists|bi: int|
        0 <= bi < m.books@.len() && ((#[trigger] m.books@[bi]).buys@.contains(o)
            || m.books@[bi].sells@.contains(o))
}

/// Some level of the snapshot sits at this price.
pub open spec fn spec_has_level(levels: Seq<OrderBookEntry>, price: u64) -> bool {
    exists|k: int| 0 <= k < levels.len() && (#[trigger] levels[k]).price_per_unit == price
}

proof fn lemma_level_bounds(orders: Seq<MarketOrder>, price: u64)
    requires
        forall|j: int| 0 <= j < orders.len() ==> order_restable(#[trigger] orders[j]),
    ensures
        0 <= spec_level_count(orders, price) <= orders.len(),
        spec_level_qty(orders, price) >= 0,
    decreases orders.len(),
{
    if orders.len() > 0 {
        assert(forall|j: int|
            0 <= j < orders.drop_last().len() ==> order_restable(
                #[trigger] orders.drop_last()[j],
            ));
        lemma_level_bounds(orders.drop_last(), price);
    }
}

proof fn lemma_level_absent(orders: Seq<MarketOrder>, price: u64)
    requires
        forall|j: int| 0 <= j < orders.len() ==> (#[trigger] orders[j]).price_per_unit != price,
    ensures
        spec_level_qty(orders, price) == 0,
        spec_level_count(orders, price) == 0,
    decreases orders.len(),
{
    if orders.len() > 0 {
        lemma_level_absent(orders.drop_last(), price);
    }
}

#[verifier::rlimit(80)]
fn aggregate_levels_desc(orders: &Vec<MarketOrder>) -> (r: Vec<OrderBookEntry>)
    requires
        buy_sorted(orders@),
        forall|i: int| 0 <= i < orders@.len() ==> order_restable(#[trigger] orders@[i]),
    ensures
        forall|i: int, j: int|
            0 <= i < j < r@.len() ==> (#[trigger] r@[i]).price_per_unit > (
            #[trigger] r@[j]).price_per_unit,
        forall|i: int|
            0 <= i < r@.len() ==> (#[trigger] r@[i]).total_quantity > 0 && r@[i].order_count > 0,
        forall|i: int|
            0 <= i < r@.len() ==> exists|j: int|
                0 <= j < orders@.len() && (#[trigger] orders@[j]).price_per_unit == (
                #[trigger] r@[i]).price_per_unit,
        orders@.len() == 0 ==> r@.len() == 0,
        orders@.len() > 0 ==> r@.len() > 0 && r@[0].price_per_unit == orders@[0].price_per_unit,
        // Each level counts its orders and sums their remainders, the
        // sum saturating at the entry's maximum; every resting order's
        // price has its level.
        forall|k: int|
            0 <= k < r@.len() ==> (#[trigger] r@[k]).order_count == spec_level_count(
                orders@,
                r@[k].price_per_unit,
            ),
        forall|k: int|
            0 <= k < r@.len() ==> (#[trigger] r@[k]).total_quantity as int == (if spec_level_qty(
                orders@,
                r@[k].price_per_unit,
            ) > u64::MAX as int {
                u64::MAX as int
            } else {
                spec_level_qty(orders@, r@[k].price_per_unit)
            }),
        forall|j: int|
            0 <= j < orders@.len() ==> spec_has_level(
                r@,
                (#[trigger] orders@[j]).price_per_unit,
            ),
{
    let mut r: Vec<OrderBookEntry> = Vec::new();
    let n = orders.len();
    for i in 0..n
        invariant
            n == orders@.len(),
            buy_sorted(orders@),
            forall|t: int| 0 <= t < orders@.len() ==> order_restable(#[trigger] orders@[t]),
            forall|a: int, b: int|
                0 <= a < b < r@.len() ==> (#[trigger] r@[a]).price_per_unit > (
                #[trigger] r@[b]).price_per_unit,
            forall|a: int|
                0 <= a < r@.len() ==> (#[trigger] r@[a]).total_quantity > 0 && r@[a].order_count
                    > 0,
            forall|a: int|
                0 <= a < r@.len() ==> exists|j: int|
                    0 <= j < orders@.len() && (#[trigger] orders@[j]).price_per_unit == (
                    #[trigger] r@[a]).price_per_unit,
            i == 0 ==> r@.len() == 0,
            i > 0 ==> r@.len() > 0 && r@[0].price_per_unit == orders@[0].price_per_unit,
            i > 0 ==> r@[r@.len() - 1].price_per_unit == orders@[i - 1].price_per_unit,
            r@.len() <= i,
            forall|a: int|
                0 <= a < r@.len() ==> (#[trigger] r@[a]).order_count == spec_level_count(
                    orders@.take(i as int),
                    r@[a].price_per_unit,
                ),
            forall|a: int|
                0 <= a < r@.len() ==> (#[trigger] r@[a]).total_quantity as int == (
                if spec_level_qty(orders@.take(i as int), r@[a].price_per_unit) > u64::MAX as int {
                    u64::MAX as int
                } else {
                    spec_level_qty(orders@.take(i as int), r@[a].price_per_unit)
                }),
            forall|j: int|
                0 <= j < i ==> spec_has_level(r@, (#[trigger] orders@[j]).price_per_unit),
    {
        let ghost r0 = r@;
        proof {
            assert(orders@.take(i as int + 1).drop_last() =~= orders@.take(i as int));
            assert(orders@.take(i as int + 1).last() == orders@[i as int]);
        }
        let rem32 = orders[i].quantity - orders[i].filled_quantity;
        let rem = rem32 as u64;
        let price = orders[i].price_per_unit;
        let m = r.len();
        let extend = m > 0 && r[m - 1].price_per_unit == price;
        if extend {
            proof {
                assert forall|a: int| 0 <= a < m - 1 implies (#[trigger] r@[a]).price_per_unit
                    != price by {
                    assert(r@[a].price_per_unit != r@[m - 1].price_per_unit);
                }
            }
            let last = &mut r[m - 1];
            if last.total_quantity > u64::MAX - rem {
                last.total_quantity = u64::MAX;
            } else {
                last.total_quantity = last.total_quantity + rem;
            }
            if last.order_count < u64::MAX {
                last.order_count = last.order_count + 1;
            }
        } else {
            proof {
                if m > 0 {
                    assert(r@[m - 1].price_per_unit == orders@[i - 1].price_per_unit);
                    assert(orders@[i - 1].price_per_unit >= price);
                }
                assert forall|j: int|
                    0 <= j < orders@.take(i as int).len() implies (#[trigger] orders@.take(
                    i as int,
                )[j]).price_per_unit != price by {
                    if orders@[j].price_per_unit == price {
                        assert(j < i);
                        assert(orders@[j].price_per_unit >= orders@[i - 1].price_per_unit
                            || (j == i - 1));
                        assert(orders@[i - 1].price_per_unit >= price);
                        assert(orders@[i - 1].price_per_unit != price);
                        assert(false);
                    }
                }
                lemma_level_absent(orders@.take(i as int), price);
                assert forall|a: int| 0 <= a < m implies (#[trigger] r@[a]).price_per_unit
                    != price by {
                    assert(r@[a].price_per_unit >= r@[m - 1].price_per_unit);
                    assert(r@[m - 1].price_per_unit >= price);
                    assert(r@[m - 1].price_per_unit != price);
                }
            }
            r.push(
                OrderBookEntry { price_per_unit: price, total_quantity: rem, order_count: 1 },
            );
        }
        proof {
            assert forall|pp: u64| true implies #[trigger] spec_level_qty(
                orders@.take(i as int + 1),
                pp,
            ) == spec_level_qty(orders@.take(i as int), pp) + (
            if orders@[i as int].price_per_unit == pp {
                orders@[i as int].quantity - orders@[i as int].filled_quantity
            } else {
                0int
            }) by {
                assert(orders@.take(i as int + 1).drop_last() =~= orders@.take(i as int));
                assert(orders@.take(i as int + 1).last() == orders@[i as int]);
            }
            assert forall|pp: u64| true implies #[trigger] spec_level_count(
                orders@.take(i as int + 1),
                pp,
            ) == spec_level_count(orders@.take(i as int), pp) + (
            if orders@[i as int].price_per_unit == pp {
                1int
            } else {
                0int
            }) by {
                assert(orders@.take(i as int + 1).drop_last() =~= orders@.take(i as int));
                assert(orders@.take(i as int + 1).last() == orders@[i as int]);
            }
            assert(forall|j: int|
                0 <= j < orders@.take(i as int).len() ==> order_restable(
                    #[trigger] orders@.take(i as int)[j],
                ));
            lemma_level_bounds(orders@.take(i as int), price);
            assert(spec_level_count(orders@.take(i as int), price) < u64::MAX as int);
            assert(spec_has_level(r@, price)) by {
                assert(r@[r@.len() - 1].price_per_unit == price);
            }
            assert forall|j: int| 0 <= j < i implies spec_has_level(
                r@,
                (#[trigger] orders@[j]).price_per_unit,
            ) by {
                let k = choose|k: int|
                    0 <= k < r0.len() && (#[trigger] r0[k]).price_per_unit
                        == orders@[j].price_per_unit;
                assert(r@[k].price_per_unit == orders@[j].price_per_unit);
            }
        }
    }
    proof {
        assert(orders@.take(n as int) =~= orders@);
    }
    r
}

/// As `aggregate_levels_desc`, for an ascending (sell) list.
#[verifier::rlimit(80)]
fn aggregate_levels_asc(orders: &Vec<MarketOrder>) -> (r: Vec<OrderBookEntry>)
    requires
        sell_sorted(orders@),
        forall|i: int| 0 <= i < orders@.len() ==> order_restable(#[trigger] orders@[i]),
    ensures
        forall|i: int, j: int|
            0 <= i < j < r@.len() ==> (#[trigger] r@[i]).price_per_unit < (
            #[trigger] r@[j]).price_per_unit,
        forall|i: int|
            0 <= i < r@.len() ==> (#[trigger] r@[i]).total_quantity > 0 && r@[i].order_count > 0,
        forall|i: int|
            0 <= i < r@.len() ==> exists|j: int|
                0 <= j < orders@.len() && (#[trigger] orders@[j]).price_per_unit == (
                #[trigger] r@[i]).price_per_unit,
        orders@.len() == 0 ==> r@.len() == 0,
        orders@.len() > 0 ==> r@.len() > 0 && r@[0].price_per_unit == orders@[0].price_per_unit,
        // Each level counts its orders and sums their remainders, the
        // sum saturating at the entry's maximum; every resting order's
        // price has its level.
        forall|k: int|
            0 <= k < r@.len() ==> (#[trigger] r@[k]).order_count == spec_level_count(
                orders@,
                r@[k].price_per_unit,
            ),
        forall|k: int|
            0 <= k < r@.len() ==> (#[trigger] r@[k]).total_quantity as int == (if spec_level_qty(
                orders@,
                r@[k].price_per_unit,
            ) > u64::MAX as int {
                u64::MAX as int
            } else {
                spec_level_qty(orders@, r@[k].price_per_unit)
            }),
        forall|j: int|
            0 <= j < orders@.len() ==> spec_has_level(
                r@,
                (#[trigger] orders@[j]).price_per_unit,
            ),
{
    let mut r: Vec<OrderBookEntry> = Vec::new();
    let n = orders.len();
    for i in 0..n
        invariant
            n == orders@.len(),
            sell_sorted(orders@),
            forall|t: int| 0 <= t < orders@.len() ==> order_restable(#[trigger] orders@[t]),
            forall|a: int, b: int|
                0 <= a < b < r@.len() ==> (#[trigger] r@[a]).price_per_unit < (
                #[trigger] r@[b]).price_per_unit,
            forall|a: int|
                0 <= a < r@.len() ==> (#[trigger] r@[a]).total_quantity > 0 && r@[a].order_count
                    > 0,
            forall|a: int|
                0 <= a < r@.len() ==> exists|j: int|
                    0 <= j < orders@.len() && (#[trigger] orders@[j]).price_per_unit == (
                    #[trigger] r@[a]).price_per_unit,
            i == 0 ==> r@.len() == 0,
            i > 0 ==> r@.len() > 0 && r@[0].price_per_unit == orders@[0].price_per_unit,
            i > 0 ==> r@[r@.len() - 1].price_per_unit == orders@[i - 1].price_per_unit,
            r@.len() <= i,
            forall|a: int|
                0 <= a < r@.len() ==> (#[trigger] r@[a]).order_count == spec_level_count(
                    orders@.take(i as int),
                    r@[a].price_per_unit,
                ),
            forall|a: int|
                0 <= a < r@.len() ==> (#[trigger] r@[a]).total_quantity as int == (
                if spec_level_qty(orders@.take(i as int), r@[a].price_per_unit) > u64::MAX as int {
                    u64::MAX as int
                } else {
                    spec_level_qty(orders@.take(i as int), r@[a].price_per_unit)
                }),
            forall|j: int|
                0 <= j < i ==> spec_has_level(r@, (#[trigger] orders@[j]).price_per_unit),
    {
        let ghost r0 = r@;
        proof {
            assert(orders@.take(i as int + 1).drop_last() =~= orders@.take(i as int));
            assert(orders@.take(i as int + 1).last() == orders@[i as int]);
        }
        let rem32 = orders[i].quantity - orders[i].filled_quantity;
        let rem = rem32 as u64;
        let price = orders[i].price_per_unit;
        let m = r.len();
        let extend = m > 0 && r[m - 1].price_per_unit == price;
        if extend {
            proof {
                assert forall|a: int| 0 <= a < m - 1 implies (#[trigger] r@[a]).price_per_unit
                    != price by {
                    assert(r@[a].price_per_unit != r@[m - 1].price_per_unit);
                }
            }
            let last = &mut r[m - 1];
            if last.total_quantity > u64::MAX - rem {
                last.total_quantity = u64::MAX;
            } else {
                last.total_quantity = last.total_quantity + rem;
            }
            if last.order_count < u64::MAX {
                last.order_count = last.order_count + 1;
            }
        } else {
            proof {
                if m > 0 {
                    assert(r@[m - 1].price_per_unit == orders@[i - 1].price_per_unit);
                    assert(orders@[i - 1].price_per_unit <= price);
                }
                assert forall|j: int|
                    0 <= j < orders@.take(i as int).len() implies (#[trigger] orders@.take(
                    i as int,
                )[j]).price_per_unit != price by {
                    if orders@[j].price_per_unit == price {
                        assert(j < i);
                        assert(orders@[j].price_per_unit <= orders@[i - 1].price_per_unit
                            || (j == i - 1));
                        assert(orders@[i - 1].price_per_unit <= price);
                        assert(orders@[i - 1].price_per_unit != price);
                        assert(orders@[j].price_per_unit < price || j == i - 1);
                        assert(false);
                    }
                }
                lemma_level_absent(orders@.take(i as int), price);
                assert forall|a: int| 0 <= a < m implies (#[trigger] r@[a]).price_per_unit
                    != price by {
                    assert(r@[a].price_per_unit <= r@[m - 1].price_per_unit);
                    assert(r@[m - 1].price_per_unit <= price);
                    assert(r@[m - 1].price_per_unit != price);
                }
            }
            r.push(
                OrderBookEntry { price_per_unit: price, total_quantity: rem, order_count: 1 },
            );
        }
        proof {
            assert forall|pp: u64| true implies #[trigger] spec_level_qty(
                orders@.take(i as int + 1),
                pp,
            ) == spec_level_qty(orders@.take(i as int), pp) + (
            if orders@[i as int].price_per_unit == pp {
                orders@[i as int].quantity - orders@[i as int].filled_quantity
            } else {
                0int
            }) by {
                assert(orders@.take(i as int + 1).drop_last() =~= orders@.take(i as int));
                assert(orders@.take(i as int + 1).last() == orders@[i as int]);
            }
            assert forall|pp: u64| true implies #[trigger] spec_level_count(
                orders@.take(i as int + 1),
                pp,
            ) == spec_level_count(orders@.take(i as int), pp) + (
            if orders@[i as int].price_per_unit == pp {
                1int
            } else {
                0int
            }) by {
                assert(orders@.take(i as int + 1).drop_last() =~= orders@.take(i as int));
                assert(orders@.take(i as int + 1).last() == orders@[i as int]);
            }
            assert(forall|j: int|
                0 <= j < orders@.take(i as int).len() ==> order_restable(
                    #[trigger] orders@.take(i as int)[j],
                ));
            lemma_level_bounds(orders@.take(i as int), price);
            assert(spec_level_count(orders@.take(i as int), price) < u64::MAX as int);
            assert(spec_has_level(r@, price)) by {
                assert(r@[r@.len() - 1].price_per_unit == price);
            }
            assert forall|j: int| 0 <= j < i implies spec_has_level(
                r@,
                (#[trigger] orders@[j]).price_per_unit,
            ) by {
                let k = choose|k: int|
                    0 <= k < r0.len() && (#[trigger] r0[k]).price_per_unit
                        == orders@[j].price_per_unit;
                assert(r@[k].price_per_unit == orders@[j].price_per_unit);
            }
        }
    }
    proof {
        assert(orders@.take(n as int) =~= orders@);
    }
    r
}

proof fn lemma_push_preserves_contains(s: Seq<MarketOrder>, x: MarketOrder)
    ensures
        forall|e: MarketOrder| s.contains(e) ==> #[trigger] s.push(x).contains(e),
        s.push(x).contains(x),
{
    assert(s.push(x)[s.len() as int] == x);
    assert forall|e: MarketOrder| s.contains(e) implies #[trigger] s.push(x).contains(e) by {
        let i = choose|i: int| 0 <= i < s.len() && s[i] == e;
        assert(s.push(x)[i] == e);
    }
}

/// Index of the first order with the given id in a list, if any.
fn find_order_in_list(list: &Vec<MarketOrder>, order_id: u64) -> (r: Option<usize>)
    ensures
        match r {
            Some(i) => {
                &&& i < list@.len()
                &&& list@[i as int].order_id == order_id
                &&& forall|j: int| 0 <= j < i ==> (#[trigger] list@[j]).order_id != order_id
            },
            None => forall|j: int|
                0 <= j < list@.len() ==> (#[trigger] list@[j]).order_id != order_id,
        },
{
    let n = list.len();
    for i in 0..n
        invariant
            n == list@.len(),
            forall|j: int| 0 <= j < i ==> (#[trigger] list@[j]).order_id != order_id,
    {
        if list[i].order_id == order_id {
            return Some(i);
        }
    }
    None
}

/// Whether the buy-book relation orders `a` at or before `b`.
pub open spec fn buy_leq(a: MarketOrder, b: MarketOrder) -> bool {
    a.price_per_unit > b.price_per_unit || (a.price_per_unit == b.price_per_unit && a.created_at
        <= b.created_at)
}

/// Whether the sell-book relation orders `a` at or before `b`.
pub open spec fn sell_leq(a: MarketOrder, b: MarketOrder) -> bool {
    a.price_per_unit < b.price_per_unit || (a.price_per_unit == b.price_per_unit && a.created_at
        <= b.created_at)
}

/// Insert a buy order at its sort position: after every resting order at
/// the same or a better price, before the first strictly worse one.
fn insert_buy_sorted(list: &mut Vec<MarketOrder>, o: MarketOrder)
    requires
        buy_sorted(old(list)@),
    ensures
        buy_sorted(final(list)@),
        final(list)@.len() == old(list)@.len() + 1,
        exists|k: int|
            0 <= k <= old(list)@.len() && final(list)@ == #[trigger] old(list)@.insert(k, o),
        exists|k: int| 0 <= k < final(list)@.len() && #[trigger] final(list)@[k] == o,
        forall|t: int|
            0 <= t < final(list)@.len() ==> ((#[trigger] final(list)@[t]) == o
                || old(list)@.contains(final(list)@[t])),
{
    let n = list.len();
    let mut idx: usize = 0;
    loop
        invariant
            idx <= n,
            n == list@.len(),
            buy_sorted(list@),
            forall|t: int| 0 <= t < idx ==> buy_leq(#[trigger] list@[t], o),
        ensures
            idx <= n,
            idx < n ==> !buy_leq(list@[idx as int], o),
            forall|t: int| 0 <= t < idx ==> buy_leq(#[trigger] list@[t], o),
        decreases n - idx,
    {
        if idx >= n {
            break;
        }
        let e = &list[idx];
        if e.price_per_unit > o.price_per_unit || (e.price_per_unit == o.price_per_unit
            && e.created_at <= o.created_at) {
            idx = idx + 1;
        } else {
            break;
        }
    }
    let ghost olds = list@;
    let ghost k = idx as int;
    list.insert(idx, o);
    proof {
        olds.insert_ensures(k, o);
        assert(list@[k] == o);
        assert forall|t: int| 0 <= t < list@.len() implies ((#[trigger] list@[t]) == o
            || olds.contains(list@[t])) by {
            if t < k {
                assert(list@[t] == olds[t]);
                assert(olds.contains(olds[t]));
            } else if t > k {
                assert(list@[t] == olds[t - 1]);
                assert(olds.contains(olds[t - 1]));
            }
        }
        assert forall|i: int, j: int| 0 <= i < j < list@.len() implies ((
        #[trigger] list@[i]).price_per_unit > (#[trigger] list@[j]).price_per_unit
            || (list@[i].price_per_unit == list@[j].price_per_unit
                && list@[i].created_at <= list@[j].created_at)) by {
            let s = list@;
            if i < k && j < k {
                assert(s[i] == olds[i] && s[j] == olds[j]);
            } else if i < k && j == k {
                assert(s[i] == olds[i] && s[j] == o);
                assert(buy_leq(olds[i], o));
            } else if i < k && j > k {
                assert(s[i] == olds[i] && s[j] == olds[j - 1]);
            } else if i == k && j > k {
                assert(s[i] == o && s[j] == olds[j - 1]);
                assert(!buy_leq(olds[k], o));
                if j - 1 > k {
                    assert(buy_sorted(olds));
                }
            } else {
                assert(s[i] == olds[i - 1] && s[j] == olds[j - 1]);
            }
        }
    }
}

/// Insert a sell order at its sort position: after every resting order at
/// the same or a better (lower) price, before the first strictly worse one.
#[verifier::rlimit(60)]
fn insert_sell_sorted(list: &mut Vec<MarketOrder>, o: MarketOrder)
    requires
        sell_sorted(old(list)@),
    ensures
        sell_sorted(final(list)@),
        final(list)@.len() == old(list)@.len() + 1,
        exists|k: int|
            0 <= k <= old(list)@.len() && final(list)@ == #[trigger] old(list)@.insert(k, o),
        exists|k: int| 0 <= k < final(list)@.len() && #[trigger] final(list)@[k] == o,
        forall|t: int|
            0 <= t < final(list)@.len() ==> ((#[trigger] final(list)@[t]) == o
                || old(list)@.contains(final(list)@[t])),
{
    let n = list.len();
    let mut idx: usize = 0;
    loop
        invariant
            idx <= n,
            n == list@.len(),
            sell_sorted(list@),
            forall|t: int| 0 <= t < idx ==> sell_leq(#[trigger] list@[t], o),
        ensures
            idx <= n,
            idx < n ==> !sell_leq(list@[idx as int], o),
            forall|t: int| 0 <= t < idx ==> sell_leq(#[trigger] list@[t], o),
        decreases n - idx,
    {
        if idx >= n {
            break;
        }
        let e = &list[idx];
        if e.price_per_unit < o.price_per_unit || (e.price_per_unit == o.price_per_unit
            && e.created_at <= o.created_at) {
            idx = idx + 1;
        } else {
            break;
        }
    }
    let ghost olds = list@;
    let ghost k = idx as int;
    list.insert(idx, o);
    proof {
        olds.insert_ensures(k, o);
        assert(list@[k] == o);
        assert forall|t: int| 0 <= t < list@.len() implies ((#[trigger] list@[t]) == o
            || olds.contains(list@[t])) by {
            if t < k {
                assert(list@[t] == olds[t]);
                assert(olds.contains(olds[t]));
            } else if t > k {
                assert(list@[t] == olds[t - 1]);
                assert(olds.contains(olds[t - 1]));
            }
        }
        assert forall|i: int, j: int| 0 <= i < j < list@.len() implies ((
        #[trigger] list@[i]).price_per_unit < (#[trigger] list@[j]).price_per_unit
            || (list@[i].price_per_unit == list@[j].price_per_unit
                && list@[i].created_at <= list@[j].created_at)) by {
            let s = list@;
            if i < k && j < k {
                assert(s[i] == olds[i] && s[j] == olds[j]);
            } else if i < k && j == k {
                assert(s[i] == olds[i] && s[j] == o);
                assert(sell_leq(olds[i], o));
            } else if i < k && j > k {
                assert(s[i] == olds[i] && s[j] == olds[j - 1]);
            } else if i == k && j > k {
                assert(s[i] == o && s[j] == olds[j - 1]);
                assert(!sell_leq(olds[k], o));
                if j - 1 > k {
                    assert(sell_sorted(olds));
                }
            } else {
                assert(s[i] == olds[i - 1] && s[j] == olds[j - 1]);
            }
        }
    }
}

/// Whether a resting order at `counter_price` crosses an incoming order at
/// `incoming_price`: a buy matches sells at or below its limit, a sell
/// matches buys at or above it.
pub open spec fn spec_crosses(is_buy: bool, counter_price: u64, incoming_price: u64) -> bool {
    if is_buy {
        counter_price <= incoming_price
    } else {
        counter_price >= incoming_price
    }
}

/// Match an incoming order against the opposing resting list, in list
/// order, while quantity remains and the head still crosses.  Trades
/// execute at the resting order's price; fully filled resting orders leave
/// the list.  Returns the executed trades.
fn match_incoming(counters: &mut Vec<MarketOrder>, incoming: &mut MarketOrder) -> (trades: Vec<
    TradeResult,
>)
    requires
        old(incoming).quantity > 0,
        old(incoming).price_per_unit > 0,
        old(incoming).filled_quantity == 0,
        old(incoming).status is Open,
        old(incoming).side is Buy ==> {
            &&& old(incoming).quantity * old(incoming).price_per_unit <= u64::MAX
            &&& sell_sorted(old(counters)@)
            &&& forall|i: int|
                0 <= i < old(counters)@.len() ==> {
                    &&& order_restable(#[trigger] old(counters)@[i])
                    &&& old(counters)@[i].side is Sell
                    &&& old(counters)@[i].item_type@ == old(incoming).item_type@
                }
        },
        old(incoming).side is Sell ==> {
            &&& buy_sorted(old(counters)@)
            &&& forall|i: int|
                0 <= i < old(counters)@.len() ==> {
                    &&& order_restable(#[trigger] old(counters)@[i])
                    &&& old(counters)@[i].side is Buy
                    &&& old(counters)@[i].item_type@ == old(incoming).item_type@
                    &&& old(counters)@[i].quantity * old(counters)@[i].price_per_unit <= u64::MAX
                }
        },
    ensures
        final(incoming).order_id == old(incoming).order_id,
        final(incoming).player_id == old(incoming).player_id,
        final(incoming).item_type == old(incoming).item_type,
        final(incoming).quantity == old(incoming).quantity,
        final(incoming).price_per_unit == old(incoming).price_per_unit,
        final(incoming).side == old(incoming).side,
        final(incoming).created_at == old(incoming).created_at,
        final(incoming).filled_quantity == sum_trade_qty(trades@),
        final(incoming).filled_quantity <= final(incoming).quantity,
        final(incoming).status == if final(incoming).filled_quantity >= final(incoming).quantity {
            OrderStatus::Filled
        } else if final(incoming).filled_quantity > 0 {
            OrderStatus::Partial
        } else {
            OrderStatus::Open
        },
        // The opposing list keeps its order and its per-entry conditions.
        old(incoming).side is Buy ==> sell_sorted(final(counters)@),
        old(incoming).side is Sell ==> buy_sorted(final(counters)@),
        forall|i: int|
            0 <= i < final(counters)@.len() ==> {
                &&& order_restable(#[trigger] final(counters)@[i])
                &&& final(counters)@[i].side == (if old(incoming).side is Buy {
                    OrderSide::Sell
                } else {
                    OrderSide::Buy
                })
                &&& final(counters)@[i].item_type@ == old(incoming).item_type@
            },
        old(incoming).side is Sell ==> forall|i: int|
            0 <= i < final(counters)@.len() ==> (#[trigger] final(counters)@[i]).quantity * final(counters)@[i].price_per_unit <= u64::MAX,
        // The surviving opposing orders are a suffix of the starting
        // list; only its first entry may have been partially filled.
        final(counters)@.len() <= old(counters)@.len(),
        forall|i: int|
            1 <= i < final(counters)@.len() ==> #[trigger] final(counters)@[i] == old(
                counters,
            )@[old(counters)@.len() - final(counters)@.len() + i],
        final(counters)@.len() > 0 ==> {
            let orig = old(counters)@[old(counters)@.len() - final(counters)@.len()];
            &&& final(counters)@[0].order_id == orig.order_id
            &&& final(counters)@[0].player_id == orig.player_id
            &&& final(counters)@[0].price_per_unit == orig.price_per_unit
            &&& final(counters)@[0].quantity == orig.quantity
        },
        // What was filled left the opposing list.
        sum_remaining(final(counters)@) == sum_remaining(old(counters)@) - sum_trade_qty(trades@),
        // Matching ran to completion: quantity remains only when nothing
        // crosses any more.
        final(incoming).filled_quantity < final(incoming).quantity ==> (final(counters)@.len() == 0
            || !spec_crosses(
            old(incoming).side is Buy,
            final(counters)@[0].price_per_unit,
            old(incoming).price_per_unit,
        )),
        // Every trade crosses, executes at a resting order's price and
        // carries the placing player on its own side of the trade.
        forall|k: int|
            0 <= k < trades@.len() ==> {
                &&& trade_wf(#[trigger] trades@[k])
                &&& trades@[k].item_type@ == old(incoming).item_type@
                &&& spec_crosses(
                    old(incoming).side is Buy,
                    trades@[k].price_per_unit,
                    old(incoming).price_per_unit,
                )
                &&& (old(incoming).side is Buy ==> trades@[k].buyer_id == old(incoming).player_id
                    && trades@[k].buy_order_id == old(incoming).order_id)
                &&& (old(incoming).side is Sell ==> trades@[k].seller_id == old(incoming).player_id
                    && trades@[k].sell_order_id == old(incoming).order_id)
                &&& spec_trade_at_resting(trades@[k], old(counters)@, old(incoming).side is Buy)
            },
        // One trade per touched resting order.
        trades@.len() == old(counters)@.len() - final(counters)@.len() + (
        if final(counters)@.len() > 0 && final(counters)@[0].filled_quantity != old(
            counters,
        )@[old(counters)@.len() - final(counters)@.len()].filled_quantity {
            1int
        } else {
            0int
        }),
{
    let mut trades: Vec<TradeResult> = Vec::new();
    let is_buy = match incoming.side {
        OrderSide::Buy => true,
        OrderSide::Sell => false,
    };
    let ghost n0 = old(counters)@.len();

    loop
        invariant
            is_buy == (old(incoming).side is Buy),
            incoming.order_id == old(incoming).order_id,
            incoming.player_id == old(incoming).player_id,
            incoming.item_type == old(incoming).item_type,
            incoming.quantity == old(incoming).quantity,
            incoming.price_per_unit == old(incoming).price_per_unit,
            incoming.side == old(incoming).side,
            incoming.created_at == old(incoming).created_at,
            incoming.quantity > 0,
            incoming.price_per_unit > 0,
            is_buy ==> incoming.quantity * incoming.price_per_unit <= u64::MAX,
            incoming.filled_quantity == sum_trade_qty(trades@),
            incoming.filled_quantity <= incoming.quantity,
            incoming.status == if incoming.filled_quantity >= incoming.quantity {
                OrderStatus::Filled
            } else if incoming.filled_quantity > 0 {
                OrderStatus::Partial
            } else {
                OrderStatus::Open
            },
            is_buy ==> sell_sorted(counters@),
            !is_buy ==> buy_sorted(counters@),
            forall|i: int|
                0 <= i < counters@.len() ==> {
                    &&& order_restable(#[trigger] counters@[i])
                    &&& counters@[i].side == (if is_buy {
                        OrderSide::Sell
                    } else {
                        OrderSide::Buy
                    })
                    &&& counters@[i].item_type@ == old(incoming).item_type@
                },
            !is_buy ==> forall|i: int|
                0 <= i < counters@.len() ==> (#[trigger] counters@[i]).quantity * counters@[i].price_per_unit
                    <= u64::MAX,
            // The untouched part of the list is a suffix of the starting list.
            n0 == old(counters)@.len(),
            counters@.len() <= n0,
            forall|i: int|
                1 <= i < counters@.len() ==> #[trigger] counters@[i] == old(counters)@[n0
                    - counters@.len() + i],
            counters@.len() > 0 ==> {
                let orig = old(counters)@[n0 - counters@.len()];
                &&& counters@[0].order_id == orig.order_id
                &&& counters@[0].player_id == orig.player_id
                &&& counters@[0].price_per_unit == orig.price_per_unit
                &&& counters@[0].quantity == orig.quantity
            },
            sum_remaining(counters@) == sum_remaining(old(counters)@) - sum_trade_qty(trades@),
            forall|k: int|
                0 <= k < trades@.len() ==> {
                    &&& trade_wf(#[trigger] trades@[k])
                    &&& trades@[k].item_type@ == old(incoming).item_type@
                    &&& spec_crosses(
                        is_buy,
                        trades@[k].price_per_unit,
                        old(incoming).price_per_unit,
                    )
                    &&& (is_buy ==> trades@[k].buyer_id == old(incoming).player_id
                        && trades@[k].buy_order_id == old(incoming).order_id)
                    &&& (!is_buy ==> trades@[k].seller_id == old(incoming).player_id
                        && trades@[k].sell_order_id == old(incoming).order_id)
                    &&& spec_trade_at_resting(trades@[k], old(counters)@, is_buy)
                },
            trades@.len() == n0 - counters@.len() + (if counters@.len() > 0
                && counters@[0].filled_quantity != old(counters)@[n0
                - counters@.len()].filled_quantity {
                1int
            } else {
                0int
            }),
            // A head that was partially filled this call means the
            // incoming order is exhausted.
            counters@.len() > 0 && counters@[0].filled_quantity != old(counters)@[n0
                - counters@.len()].filled_quantity ==> incoming.filled_quantity
                >= incoming.quantity,
        ensures
            incoming.filled_quantity < incoming.quantity ==> (counters@.len() == 0 || !spec_crosses(
                is_buy,
                counters@[0].price_per_unit,
                incoming.price_per_unit,
            )),
        decreases counters@.len() + (incoming.quantity - incoming.filled_quantity),
    {
        if counters.len() == 0 || incoming.filled_quantity >= incoming.quantity {
            break;
        }
        let counter_price = counters[0].price_per_unit;
        let price_match = if is_buy {
            counter_price <= incoming.price_per_unit
        } else {
            counter_price >= incoming.price_per_unit
        };
        if !price_match {
            break;
        }

        let incoming_remaining = incoming.quantity - incoming.filled_quantity;
        let counter_remaining = counters[0].quantity - counters[0].filled_quantity;
        let fill_qty = min_u32(incoming_remaining, counter_remaining);
        let trade_price = counter_price;

        proof {
            if is_buy {
                assert((fill_qty as int) * (trade_price as int) <= (incoming.quantity as int) * (
                incoming.price_per_unit as int)) by (nonlinear_arith)
                    requires
                        0 <= fill_qty <= incoming.quantity,
                        0 <= trade_price <= incoming.price_per_unit,
                ;
            } else {
                assert((fill_qty as int) * (trade_price as int) <= (counters@[0].quantity as int) * (
                counters@[0].price_per_unit as int)) by (nonlinear_arith)
                    requires
                        0 <= fill_qty <= counters@[0].quantity,
                        trade_price == counters@[0].price_per_unit,
                        trade_price >= 0,
                ;
            }
        }
        let total_price = fill_qty as u64 * trade_price;
        let fee = market_fee(total_price);

        let (buy_order_id, buyer_id, sell_order_id, seller_id) = if is_buy {
            (incoming.order_id, incoming.player_id, counters[0].order_id, counters[0].player_id)
        } else {
            (counters[0].order_id, counters[0].player_id, incoming.order_id, incoming.player_id)
        };

        let ghost counters_before = counters@;
        let ghost trades_before = trades@;

        incoming.filled_quantity = incoming.filled_quantity + fill_qty;
        update_order_status(incoming);

        let head = &mut counters[0];
        head.filled_quantity = head.filled_quantity + fill_qty;

        let consumed = counters[0].filled_quantity >= counters[0].quantity;
        if consumed {
            counters.remove(0);
        } else {
            let head2 = &mut counters[0];
            head2.status = OrderStatus::Partial;
        }

        proof {
            lemma_sum_remaining_head(counters_before);
            if consumed {
                assert(counters@ =~= counters_before.subrange(1, counters_before.len() as int));
            } else {
                assert(counters@.subrange(1, counters@.len() as int) =~= counters_before.subrange(
                    1,
                    counters_before.len() as int,
                ));
                lemma_sum_remaining_head(counters@);
            }
        }

        let trade = TradeResult {
            buy_order_id,
            sell_order_id,
            buyer_id,
            seller_id,
            item_type: incoming.item_type.clone(),
            quantity: fill_qty,
            price_per_unit: trade_price,
            total_price,
            fee,
        };
        proof {
            lemma_sum_trade_qty_push(trades_before, trade);
            assert(spec_trade_at_resting(trade, old(counters)@, is_buy)) by {
                let j0 = n0 - counters_before.len();
                assert(0 <= j0 < old(counters)@.len());
                let c0 = old(counters)@[j0 as int];
                assert(c0.price_per_unit == counters_before[0].price_per_unit);
                assert(c0.order_id == counters_before[0].order_id);
                assert(c0.player_id == counters_before[0].player_id);
                assert(c0.price_per_unit == trade.price_per_unit);
                if is_buy {
                    assert(trade.seller_id == c0.player_id);
                    assert(trade.sell_order_id == c0.order_id);
                } else {
                    assert(trade.buyer_id == c0.player_id);
                    assert(trade.buy_order_id == c0.order_id);
                }
            }
        }
        trades.push(trade);
    }
    trades
}

pub struct Market {
    pub books: Vec<OrderBook>,
    pub next_order_id: u64,
}

impl Market {
    /// Every book is well formed and no two books share an item type.
    pub open spec fn wf(&self) -> bool {
        &&& forall|i: int| 0 <= i < self.books@.len() ==> book_wf(#[trigger] self.books@[i])
        &&& forall|i: int, j: int|
            0 <= i < j < self.books@.len() ==> (#[trigger] self.books@[i]).item_type@ != (
            #[trigger] self.books@[j]).item_type@
    }

    pub fn new() -> (r: Self)
        ensures
            r.wf(),
            r.books@.len() == 0,
            r.next_order_id == 1,
    {
        Market { books: Vec::new(), next_order_id: 1 }
    }

    /// The book for `item_type` in this market, if one exists (first match).
    pub open spec fn spec_book_of(&self, item: Seq<char>) -> Option<OrderBook> {
        spec_find_book(self.books@, item)
    }

    /// Place an order.  Validates the quantity and price, escrows the
    /// items (sell) or the OMEN cost (buy) from the placing player's
    /// inventory, matches against the opposing side of the book in
    /// price-time order at the resting orders' prices, and inserts any
    /// unfilled remainder into the book at its sort position.
    ///
    /// Settlement of the returned trades (crediting the two parties) is the
    /// caller's step, one trade at a time.
    #[verifier::rlimit(60)]
    pub fn place_order(
        &mut self,
        player_id: u32,
        item_type: &str,
        quantity: u32,
        price_per_unit: u64,
        side: OrderSide,
        inventory: &mut Inventory,
        current_time_ms: u64,
    ) -> (r: PlaceOrderResult)
        requires
            old(self).wf(),
            old(inventory).wf(),
        ensures
            final(self).wf(),
            final(inventory).wf(),
            ({
                let ok = quantity > 0 && price_per_unit > 0 && (if side is Sell {
                    old(inventory).spec_get(item_type@) >= quantity
                } else {
                    old(inventory).omen_balance >= quantity * price_per_unit
                });
                &&& (r.error is Some <==> !ok)
                &&& (!ok ==> *final(self) == *old(self) && *final(inventory) == *old(inventory)
                    && r.order is None && r.trades@.len() == 0)
            }),
            r.error is None ==> r.order is Some && spec_place_success(
                *old(self),
                *final(self),
                *old(inventory),
                *final(inventory),
                player_id,
                item_type@,
                quantity,
                price_per_unit,
                side,
                current_time_ms,
                r.order->0,
                r.trades@,
            ),
    {
        if quantity == 0 {
            return PlaceOrderResult {
                order: None,
                trades: Vec::new(),
                error: Some("Quantity must be a positive integer".to_owned()),
            };
        }
        if price_per_unit == 0 {
            return PlaceOrderResult {
                order: None,
                trades: Vec::new(),
                error: Some("Price must be positive".to_owned()),
            };
        }

        // Escrow.
        match side {
            OrderSide::Sell => {
                if !inventory.has(item_type, quantity) {
                    return PlaceOrderResult {
                        order: None,
                        trades: Vec::new(),
                        error: Some("Insufficient items held for this sell order".to_owned()),
                    };
                }
                inventory.remove(item_type, quantity);
            },
            OrderSide::Buy => {
                proof {
                    assert((quantity as int) * (price_per_unit as int) <= 0xFFFF_FFFF * 0xFFFF_FFFF_FFFF_FFFF) by (nonlinear_arith)
                        requires
                            quantity <= 0xFFFF_FFFF,
                            price_per_unit <= 0xFFFF_FFFF_FFFF_FFFF,
                    ;
                }
                let cost128 = quantity as u128 * price_per_unit as u128;
                if cost128 > inventory.omen_balance as u128 {
                    return PlaceOrderResult {
                        order: None,
                        trades: Vec::new(),
                        error: Some("Insufficient OMEN for this buy order".to_owned()),
                    };
                }
                let cost = cost128 as u64;
                proof {
                    assert(cost == quantity * price_per_unit);
                }
                inventory.remove_omen(cost);
            },
        }

        let mut order = MarketOrder {
            order_id: self.next_order_id,
            player_id,
            item_type: item_type.to_owned(),
            quantity,
            filled_quantity: 0,
            price_per_unit,
            side,
            status: OrderStatus::Open,
            created_at: current_time_ms,
        };
        self.next_order_id = self.next_order_id.wrapping_add(1);

        // Make sure a book exists for this item.
        let idx = match self.find_book(item_type) {
            Some(i) => {
                proof {
                    assert forall|j: int| 0 <= j < i implies (#[trigger] self.books@[j]).item_type@
                        != item_type@ by {
                        assert(self.books@[j].item_type@ != self.books@[i as int].item_type@);
                    }
                    lemma_find_book_at(self.books@, i as int, item_type@);
                }
                i
            },
            None => {
                let ghost oldbooks = self.books@;
                let nb = OrderBook {
                    item_type: item_type.to_owned(),
                    buys: Vec::new(),
                    sells: Vec::new(),
                };
                let i = self.books.len();
                self.books.push(nb);
                proof {
                    assert forall|other: Seq<char>| other != item_type@ implies #[trigger] spec_find_book(self.books@, other) == spec_find_book(oldbooks, other) by {
                        lemma_find_book_push_other(oldbooks, self.books@[i as int], other);
                    }
                    lemma_find_book_absent(oldbooks, item_type@);
                }
                i
            },
        };

        let ghost books_with_book = self.books@;
        let ghost pre_book = self.books@[idx as int];
        proof {
            assert(forall|j: int|
                0 <= j < books_with_book.len() ==> book_wf(#[trigger] books_with_book[j]));
            assert(forall|a: int, b: int|
                0 <= a < b < books_with_book.len() ==> (#[trigger] books_with_book[a]).item_type@
                    != (#[trigger] books_with_book[b]).item_type@);
            assert(pre_book.item_type@ == item_type@);
            assert(forall|j: int|
                0 <= j < idx ==> (#[trigger] books_with_book[j]).item_type@ != item_type@);
        }

        let mut book = self.books.remove(idx);
        let is_buy = match side {
            OrderSide::Buy => true,
            OrderSide::Sell => false,
        };
        let trades = if is_buy {
            match_incoming(&mut book.sells, &mut order)
        } else {
            match_incoming(&mut book.buys, &mut order)
        };

        // Insert the remainder at its sort position.
        if order.filled_quantity < order.quantity {
            if is_buy {
                insert_buy_sorted(&mut book.buys, order.clone());
            } else {
                insert_sell_sorted(&mut book.sells, order.clone());
            }
        }

        let ghost newbook = book;
        proof {
            assert(newbook.item_type@ == item_type@);
            // The rebuilt book is well formed: the matched side keeps the
            // matching loop's guarantees, the own side is a sorted insert
            // into a well-formed list.
            assert(book_wf(newbook)) by {
                if order.filled_quantity < order.quantity {
                    match side {
                        OrderSide::Buy => {
                            assert forall|t: int| 0 <= t < newbook.buys@.len() implies {
                                &&& order_restable(#[trigger] newbook.buys@[t])
                                &&& newbook.buys@[t].side is Buy
                                &&& newbook.buys@[t].item_type@ == newbook.item_type@
                                &&& newbook.buys@[t].quantity * newbook.buys@[t].price_per_unit
                                    <= u64::MAX
                            } by {
                                if newbook.buys@[t] != order {
                                    assert(pre_book.buys@.contains(newbook.buys@[t]));
                                    let u = choose|u: int|
                                        0 <= u < pre_book.buys@.len() && pre_book.buys@[u]
                                            == newbook.buys@[t];
                                    assert(book_wf(pre_book));
                                }
                            }
                        },
                        OrderSide::Sell => {
                            assert forall|t: int| 0 <= t < newbook.sells@.len() implies {
                                &&& order_restable(#[trigger] newbook.sells@[t])
                                &&& newbook.sells@[t].side is Sell
                                &&& newbook.sells@[t].item_type@ == newbook.item_type@
                            } by {
                                if newbook.sells@[t] != order {
                                    assert(pre_book.sells@.contains(newbook.sells@[t]));
                                    let u = choose|u: int|
                                        0 <= u < pre_book.sells@.len() && pre_book.sells@[u]
                                            == newbook.sells@[t];
                                    assert(book_wf(pre_book));
                                }
                            }
                        },
                    }
                }
            }
        }
        self.books.insert(idx, book);
        proof {
            assert(self.books@ =~= books_with_book.update(idx as int, newbook));
            assert forall|other: Seq<char>| other != item_type@ implies #[trigger] spec_find_book(self.books@, other) == spec_find_book(books_with_book, other) by {
                lemma_find_book_update_other(books_with_book, idx as int, newbook, other);
            }
            lemma_find_book_at(self.books@, idx as int, item_type@);
            lemma_find_book_at(books_with_book, idx as int, item_type@);
            assert(self.wf());
            assert(self.spec_book_of(item_type@) == Some(newbook));
            assert(order.order_id == old(self).next_order_id);
            assert(order.player_id == player_id);
            assert(order.item_type@ == item_type@);
            assert(order.quantity == quantity);
            assert(order.filled_quantity == sum_trade_qty(trades@));
            let ghost old_book = old(self).spec_book_of(item_type@);
            let ghost old_counters = if old_book is Some {
                if side is Buy {
                    old_book->0.sells@
                } else {
                    old_book->0.buys@
                }
            } else {
                Seq::<MarketOrder>::empty()
            };
            let ghost new_counters = if side is Buy {
                newbook.sells@
            } else {
                newbook.buys@
            };
            assert(sum_remaining(Seq::<MarketOrder>::empty()) == 0);
            assert(sum_remaining(new_counters) == sum_remaining(old_counters) - sum_trade_qty(
                trades@,
            ));
            assert(forall|k: int|
                0 <= k < trades@.len() ==> trade_wf(#[trigger] trades@[k])
                    && trades@[k].item_type@ == item_type@);
            assert(forall|k: int|
                0 <= k < trades@.len() ==> spec_crosses(
                    side is Buy,
                    (#[trigger] trades@[k]).price_per_unit,
                    price_per_unit,
                ));
            assert(forall|k: int|
                0 <= k < trades@.len() ==> exists|j: int|
                    0 <= j < old_counters.len() && {
                        let c = #[trigger] old_counters[j];
                        &&& c.price_per_unit == (#[trigger] trades@[k]).price_per_unit
                        &&& (side is Buy ==> trades@[k].seller_id == c.player_id
                            && trades@[k].sell_order_id == c.order_id)
                        &&& (side is Sell ==> trades@[k].buyer_id == c.player_id
                            && trades@[k].buy_order_id == c.order_id)
                    });
            assert(order.filled_quantity <= quantity);
            assert(order.status == (if order.filled_quantity >= quantity {
                OrderStatus::Filled
            } else if order.filled_quantity > 0 {
                OrderStatus::Partial
            } else {
                OrderStatus::Open
            }));
            assert(side is Sell ==> inventory.spec_get(item_type@) == old(inventory).spec_get(
                item_type@,
            ) - quantity && inventory.omen_balance == old(inventory).omen_balance);
            assert(side is Buy ==> inventory.omen_balance == old(inventory).omen_balance - quantity
                * price_per_unit && inventory.items@ == old(inventory).items@);
            assert(forall|k: int|
                0 <= k < trades@.len() ==> (side is Buy ==> (#[trigger] trades@[k]).buyer_id
                    == player_id && trades@[k].buy_order_id == order.order_id));
            assert(forall|k: int|
                0 <= k < trades@.len() ==> (side is Sell ==> (#[trigger] trades@[k]).seller_id
                    == player_id && trades@[k].sell_order_id == order.order_id));
            assert(forall|other: Seq<char>|
                other != item_type@ ==> #[trigger] spec_find_book(self.books@, other)
                    == spec_find_book(old(self).books@, other));
            if order.filled_quantity < quantity {
                let ghost own = if side is Buy {
                    newbook.buys@
                } else {
                    newbook.sells@
                };
                assert(exists|k: int| 0 <= k < own.len() && #[trigger] own[k] == order);
                assert(new_counters.len() == 0 || !spec_crosses(
                    side is Buy,
                    new_counters[0].price_per_unit,
                    price_per_unit,
                ));
            }
            let ghost m_old = *old(self);
            let ghost m_new = *self;
            let ghost spo = order;
            let ghost spt = trades@;
            let ghost sp_old_book = m_old.spec_book_of(item_type@);
            let ghost sp_new_book = m_new.spec_book_of(item_type@);
            assert(sp_new_book == Some(newbook));
            assert(sp_old_book is Some ==> old_counters == (if side is Buy {
                sp_old_book->0.sells@
            } else {
                sp_old_book->0.buys@
            }));
            assert(sp_old_book is None ==> old_counters == Seq::<MarketOrder>::empty());
            assert(spo.order_id == m_old.next_order_id);
            assert(spo.filled_quantity == sum_trade_qty(spt));
            assert(spo.status == (if spo.filled_quantity >= quantity {
                OrderStatus::Filled
            } else if spo.filled_quantity > 0 {
                OrderStatus::Partial
            } else {
                OrderStatus::Open
            }));
            assert(forall|k: int|
                0 <= k < spt.len() ==> {
                    &&& trade_wf(#[trigger] spt[k])
                    &&& spt[k].item_type@ == item_type@
                    &&& spec_crosses(side is Buy, spt[k].price_per_unit, price_per_unit)
                    &&& (side is Buy ==> spt[k].buyer_id == player_id && spt[k].buy_order_id
                        == spo.order_id)
                    &&& (side is Sell ==> spt[k].seller_id == player_id && spt[k].sell_order_id
                        == spo.order_id)
                    &&& exists|j: int|
                        0 <= j < old_counters.len() && {
                            let c = #[trigger] old_counters[j];
                            &&& c.price_per_unit == spt[k].price_per_unit
                            &&& (side is Buy ==> spt[k].seller_id == c.player_id
                                && spt[k].sell_order_id == c.order_id)
                            &&& (side is Sell ==> spt[k].buyer_id == c.player_id
                                && spt[k].buy_order_id == c.order_id)
                        }
                });
            assert(sum_remaining(new_counters) == sum_remaining(old_counters) - sum_trade_qty(spt));
            if spo.filled_quantity < quantity {
                match side {
                    OrderSide::Buy => {
                        assert(newbook.buys@.contains(spo));
                    },
                    OrderSide::Sell => {
                        assert(newbook.sells@.contains(spo));
                    },
                }
                assert(new_counters.len() == 0 || !spec_crosses(
                    side is Buy,
                    new_counters[0].price_per_unit,
                    price_per_unit,
                ));
            }
            assert(forall|other: Seq<char>|
                other != item_type@ ==> #[trigger] m_new.spec_book_of(other) == m_old.spec_book_of(
                    other,
                ));
            assert(spec_place_order_fields(
                m_old,
                *old(inventory),
                *inventory,
                player_id,
                item_type@,
                quantity,
                price_per_unit,
                side,
                current_time_ms,
                spo,
                spt,
            ));
            assert(spec_place_trades(player_id, item_type@, price_per_unit, side, spo, spt));
            assert(spec_place_books(
                m_old,
                m_new,
                item_type@,
                quantity,
                price_per_unit,
                side,
                spo,
                spt,
            ));
        }

        PlaceOrderResult { order: Some(order), trades, error: None }
    }

    /// Cancel a resting order.  Only the placing player may cancel, and
    /// only while the order rests in a book; the unfilled escrow is
    /// returned (items for a sell, OMEN for a buy) and the order leaves
    /// the book.
    #[verifier::rlimit(60)]
    pub fn cancel_order(&mut self, player_id: u32, order_id: u64, inventory: &mut Inventory) -> (r:
        CancelOrderResult)
        requires
            old(self).wf(),
            old(inventory).wf(),
        ensures
            final(self).wf(),
            final(inventory).wf(),
            match spec_find_order(old(self).books@, order_id) {
                None => {
                    &&& !r.success
                    &&& r.error is Some
                    &&& *final(self) == *old(self)
                    &&& *final(inventory) == *old(inventory)
                },
                Some(o) => {
                    &&& (o.player_id != player_id ==> {
                        &&& !r.success
                        &&& r.error is Some
                        &&& *final(self) == *old(self)
                        &&& *final(inventory) == *old(inventory)
                    })
                    &&& (o.player_id == player_id ==> {
                        &&& r.success
                        &&& r.error is None
                        &&& spec_cancel_refund(*old(inventory), *final(inventory), o)
                        &&& spec_cancel_books(*old(self), *final(self), o)
                    })
                },
            },
    {
        let n = self.books.len();
        for bi in 0..n
            invariant
                n == self.books@.len(),
                self.wf(),
                inventory.wf(),
                *self == *old(self),
                *inventory == *old(inventory),
                forall|j: int|
                    0 <= j < bi ==> spec_find_order_in_book(
                        #[trigger] self.books@[j],
                        order_id,
                    ) is None,
        {
            let in_buys = find_order_in_list(&self.books[bi].buys, order_id);
            let found: Option<usize> = match in_buys {
                Some(i) => Some(i),
                None => find_order_in_list(&self.books[bi].sells, order_id),
            };
            let is_buy_side = in_buys.is_some();
            if let Some(idx) = found {
                let ghost bk = self.books@[bi as int];
                proof {
                    if is_buy_side {
                        lemma_find_in_list_at(bk.buys@, idx as int, order_id);
                    } else {
                        lemma_find_in_list_absent(bk.buys@, order_id);
                        lemma_find_in_list_at(bk.sells@, idx as int, order_id);
                    }
                    lemma_find_order_at(self.books@, bi as int, order_id);
                }
                let o = if is_buy_side {
                    self.books[bi].buys[idx].clone()
                } else {
                    self.books[bi].sells[idx].clone()
                };
                let ghost go = o;
                if o.player_id != player_id {
                    return CancelOrderResult {
                        success: false,
                        error: Some("Order does not belong to this player".to_owned()),
                    };
                }

                // Return the escrowed remainder.
                let rem = o.quantity - o.filled_quantity;
                match o.side {
                    OrderSide::Sell => {
                        inventory.add(o.item_type.as_str(), rem);
                    },
                    OrderSide::Buy => {
                        proof {
                            assert((rem as int) * (go.price_per_unit as int) <= (go.quantity as int)
                                * (go.price_per_unit as int)) by (nonlinear_arith)
                                requires
                                    0 <= rem <= go.quantity,
                                    go.price_per_unit >= 0,
                            ;
                        }
                        let refund = rem as u64 * o.price_per_unit;
                        inventory.credit_omen(refund);
                    },
                }

                // Remove the order from its book.
                let ghost books_before = self.books@;
                let mut book = self.books.remove(bi);
                let ghost buys_before = book.buys@;
                let ghost sells_before = book.sells@;
                if is_buy_side {
                    proof {
                        lemma_sum_remaining_remove(book.buys@, idx as int);
                        buys_before.remove_ensures(idx as int);
                    }
                    book.buys.remove(idx);
                    proof {
                        assert forall|a: int, b: int| 0 <= a < b < book.buys@.len() implies ((
                        #[trigger] book.buys@[a]).price_per_unit > (
                        #[trigger] book.buys@[b]).price_per_unit || (book.buys@[a].price_per_unit
                            == book.buys@[b].price_per_unit && book.buys@[a].created_at
                            <= book.buys@[b].created_at)) by {
                            let a0 = if a < idx {
                                a
                            } else {
                                a + 1
                            };
                            let b0 = if b < idx {
                                b
                            } else {
                                b + 1
                            };
                            assert(book.buys@[a] == buys_before[a0]);
                            assert(book.buys@[b] == buys_before[b0]);
                        }
                        assert forall|t: int| 0 <= t < book.buys@.len() implies buys_before.contains(
                            #[trigger] book.buys@[t],
                        ) by {
                            if t < idx {
                                assert(book.buys@[t] == buys_before[t]);
                            } else {
                                assert(book.buys@[t] == buys_before[t + 1]);
                            }
                        }
                    }
                } else {
                    proof {
                        lemma_sum_remaining_remove(book.sells@, idx as int);
                        sells_before.remove_ensures(idx as int);
                    }
                    book.sells.remove(idx);
                    proof {
                        assert forall|a: int, b: int| 0 <= a < b < book.sells@.len() implies ((
                        #[trigger] book.sells@[a]).price_per_unit < (
                        #[trigger] book.sells@[b]).price_per_unit || (book.sells@[a].price_per_unit
                            == book.sells@[b].price_per_unit && book.sells@[a].created_at
                            <= book.sells@[b].created_at)) by {
                            let a0 = if a < idx {
                                a
                            } else {
                                a + 1
                            };
                            let b0 = if b < idx {
                                b
                            } else {
                                b + 1
                            };
                            assert(book.sells@[a] == sells_before[a0]);
                            assert(book.sells@[b] == sells_before[b0]);
                        }
                        assert forall|t: int|
                            0 <= t < book.sells@.len() implies sells_before.contains(
                            #[trigger] book.sells@[t],
                        ) by {
                            if t < idx {
                                assert(book.sells@[t] == sells_before[t]);
                            } else {
                                assert(book.sells@[t] == sells_before[t + 1]);
                            }
                        }
                    }
                }
                let ghost newbook = book;
                self.books.insert(bi, book);
                proof {
                    assert(self.books@ =~= books_before.update(bi as int, newbook));
                    assert(book_wf(newbook));
                    assert(self.wf());
                    assert forall|other: Seq<char>| other != go.item_type@ implies #[trigger] spec_find_book(self.books@, other) == spec_find_book(books_before, other) by {
                        lemma_find_book_update_other(books_before, bi as int, newbook, other);
                    }
                    assert(bk.item_type@ == go.item_type@);
                    assert forall|j: int| 0 <= j < bi implies (#[trigger] books_before[j]).item_type@
                        != go.item_type@ by {
                        assert(books_before[j].item_type@ != books_before[bi as int].item_type@);
                    }
                    lemma_find_book_at(books_before, bi as int, go.item_type@);
                    lemma_find_book_at(self.books@, bi as int, go.item_type@);
                    assert(spec_cancel_books(*old(self), *self, go));
                }
                return CancelOrderResult { success: true, error: None };
            }
            proof {
                lemma_find_in_list_absent(self.books@[bi as int].buys@, order_id);
                lemma_find_in_list_absent(self.books@[bi as int].sells@, order_id);
            }
        }
        proof {
            lemma_find_order_absent(self.books@, order_id);
        }
        CancelOrderResult { success: false, error: Some("Order not found".to_owned()) }
    }

    /// Aggregated snapshot of one item's book: one entry per price level,
    /// buys with the highest price first, sells with the lowest first.
    /// Quantities saturate at the entry type's maximum.
    pub fn get_order_book(&self, item_type: &str) -> (r: OrderBookSnapshot)
        requires
            self.wf(),
        ensures
            match self.spec_book_of(item_type@) {
                None => r.buys@.len() == 0 && r.sells@.len() == 0,
                Some(b) => {
                    &&& (forall|i: int, j: int|
                        0 <= i < j < r.buys@.len() ==> (#[trigger] r.buys@[i]).price_per_unit > (
                        #[trigger] r.buys@[j]).price_per_unit)
                    &&& (forall|i: int, j: int|
                        0 <= i < j < r.sells@.len() ==> (#[trigger] r.sells@[i]).price_per_unit < (
                        #[trigger] r.sells@[j]).price_per_unit)
                    &&& (forall|i: int|
                        0 <= i < r.buys@.len() ==> (#[trigger] r.buys@[i]).total_quantity > 0
                            && r.buys@[i].order_count > 0)
                    &&& (forall|i: int|
                        0 <= i < r.sells@.len() ==> (#[trigger] r.sells@[i]).total_quantity > 0
                            && r.sells@[i].order_count > 0)
                    &&& (forall|i: int|
                        0 <= i < r.buys@.len() ==> exists|j: int|
                            0 <= j < b.buys@.len() && (#[trigger] b.buys@[j]).price_per_unit == (
                            #[trigger] r.buys@[i]).price_per_unit)
                    &&& (forall|i: int|
                        0 <= i < r.sells@.len() ==> exists|j: int|
                            0 <= j < b.sells@.len() && (#[trigger] b.sells@[j]).price_per_unit == (
                            #[trigger] r.sells@[i]).price_per_unit)
                    &&& (b.buys@.len() == 0 ==> r.buys@.len() == 0)
                    &&& (b.sells@.len() == 0 ==> r.sells@.len() == 0)
                    &&& (b.buys@.len() > 0 ==> r.buys@.len() > 0 && r.buys@[0].price_per_unit
                        == b.buys@[0].price_per_unit)
                    &&& (b.sells@.len() > 0 ==> r.sells@.len() > 0 && r.sells@[0].price_per_unit
                        == b.sells@[0].price_per_unit)
                    // Each level counts its orders and sums their
                    // remainders (saturating); every resting order's
                    // price has its level.
                    &&& (forall|k: int|
                        0 <= k < r.buys@.len() ==> (#[trigger] r.buys@[k]).order_count
                            == spec_level_count(b.buys@, r.buys@[k].price_per_unit))
                    &&& (forall|k: int|
                        0 <= k < r.buys@.len() ==> (#[trigger] r.buys@[k]).total_quantity as int
                            == (if spec_level_qty(b.buys@, r.buys@[k].price_per_unit)
                            > u64::MAX as int {
                            u64::MAX as int
                        } else {
                            spec_level_qty(b.buys@, r.buys@[k].price_per_unit)
                        }))
                    &&& (forall|k: int|
                        0 <= k < r.sells@.len() ==> (#[trigger] r.sells@[k]).order_count
                            == spec_level_count(b.sells@, r.sells@[k].price_per_unit))
                    &&& (forall|k: int|
                        0 <= k < r.sells@.len() ==> (#[trigger] r.sells@[k]).total_quantity as int
                            == (if spec_level_qty(b.sells@, r.sells@[k].price_per_unit)
                            > u64::MAX as int {
                            u64::MAX as int
                        } else {
                            spec_level_qty(b.sells@, r.sells@[k].price_per_unit)
                        }))
                    &&& (forall|j: int|
                        0 <= j < b.buys@.len() ==> spec_has_level(
                            r.buys@,
                            (#[trigger] b.buys@[j]).price_per_unit,
                        ))
                    &&& (forall|j: int|
                        0 <= j < b.sells@.len() ==> spec_has_level(
                            r.sells@,
                            (#[trigger] b.sells@[j]).price_per_unit,
                        ))
                },
            },
    {
        match self.find_book(item_type) {
            None => {
                proof {
                    lemma_find_book_absent(self.books@, item_type@);
                }
                OrderBookSnapshot { buys: Vec::new(), sells: Vec::new() }
            },
            Some(bi) => {
                proof {
                    assert forall|j: int| 0 <= j < bi implies (#[trigger] self.books@[j]).item_type@
                        != item_type@ by {
                        assert(self.books@[j].item_type@ != self.books@[bi as int].item_type@);
                    }
                    lemma_find_book_at(self.books@, bi as int, item_type@);
                }
                let buys = aggregate_levels_desc(&self.books[bi].buys);
                let sells = aggregate_levels_asc(&self.books[bi].sells);
                OrderBookSnapshot { buys, sells }
            },
        }
    }

    /// All orders of one player that are resting in some book, in book
    /// order.
    pub fn get_player_orders(&self, player_id: u32) -> (r: Vec<MarketOrder>)
        requires
            self.wf(),
        ensures
            forall|i: int|
                0 <= i < r@.len() ==> (#[trigger] r@[i]).player_id == player_id && order_restable(
                    r@[i],
                ),
            // Every returned order is a clone of a resting book entry.
            forall|i: int| 0 <= i < r@.len() ==> spec_in_books(*self, #[trigger] r@[i]),
            forall|bi: int, j: int|
                0 <= bi < self.books@.len() && 0 <= j < (#[trigger] self.books@[bi]).buys@.len()
                    && (#[trigger] self.books@[bi].buys@[j]).player_id == player_id ==> r@.contains(
                    self.books@[bi].buys@[j],
                ),
            forall|bi: int, j: int|
                0 <= bi < self.books@.len() && 0 <= j < (#[trigger] self.books@[bi]).sells@.len()
                    && (#[trigger] self.books@[bi].sells@[j]).player_id == player_id ==> r@.contains(
                    self.books@[bi].sells@[j],
                ),
    {
        let mut result: Vec<MarketOrder> = Vec::new();
        let n = self.books.len();
        for bi in 0..n
            invariant
                n == self.books@.len(),
                self.wf(),
                forall|i: int|
                    0 <= i < result@.len() ==> (#[trigger] result@[i]).player_id == player_id
                        && order_restable(result@[i]),
                forall|i: int|
                    0 <= i < result@.len() ==> spec_in_books(*self, #[trigger] result@[i]),
                forall|b: int, j: int|
                    0 <= b < bi && 0 <= j < (#[trigger] self.books@[b]).buys@.len() && (
                    #[trigger] self.books@[b].buys@[j]).player_id == player_id ==> result@.contains(
                        self.books@[b].buys@[j],
                    ),
                forall|b: int, j: int|
                    0 <= b < bi && 0 <= j < (#[trigger] self.books@[b]).sells@.len() && (
                    #[trigger] self.books@[b].sells@[j]).player_id == player_id
                        ==> result@.contains(self.books@[b].sells@[j]),
        {
            let nb = self.books[bi].buys.len();
            for j in 0..nb
                invariant
                    n == self.books@.len(),
                    bi < n,
                    nb == self.books@[bi as int].buys@.len(),
                    self.wf(),
                    forall|i: int|
                        0 <= i < result@.len() ==> (#[trigger] result@[i]).player_id == player_id
                            && order_restable(result@[i]),
                    forall|i: int|
                        0 <= i < result@.len() ==> spec_in_books(*self, #[trigger] result@[i]),
                    forall|b: int, t: int|
                        0 <= b < bi && 0 <= t < (#[trigger] self.books@[b]).buys@.len() && (
                        #[trigger] self.books@[b].buys@[t]).player_id == player_id
                            ==> result@.contains(self.books@[b].buys@[t]),
                    forall|b: int, t: int|
                        0 <= b < bi && 0 <= t < (#[trigger] self.books@[b]).sells@.len() && (
                        #[trigger] self.books@[b].sells@[t]).player_id == player_id
                            ==> result@.contains(self.books@[b].sells@[t]),
                    forall|t: int|
                        0 <= t < j && (#[trigger] self.books@[bi as int].buys@[t]).player_id
                            == player_id ==> result@.contains(self.books@[bi as int].buys@[t]),
            {
                if self.books[bi].buys[j].player_id == player_id {
                    proof {
                        lemma_push_preserves_contains(result@, self.books@[bi as int].buys@[j as int]);
                    }
                    result.push(self.books[bi].buys[j].clone());
                    proof {
                        assert(self.books@[bi as int].buys@.contains(result@.last()));
                        assert(spec_in_books(*self, result@.last()));
                    }
                }
            }
            let ns = self.books[bi].sells.len();
            for j in 0..ns
                invariant
                    n == self.books@.len(),
                    bi < n,
                    ns == self.books@[bi as int].sells@.len(),
                    self.wf(),
                    forall|i: int|
                        0 <= i < result@.len() ==> (#[trigger] result@[i]).player_id == player_id
                            && order_restable(result@[i]),
                    forall|i: int|
                        0 <= i < result@.len() ==> spec_in_books(*self, #[trigger] result@[i]),
                    forall|b: int, t: int|
                        0 <= b < bi && 0 <= t < (#[trigger] self.books@[b]).buys@.len() && (
                        #[trigger] self.books@[b].buys@[t]).player_id == player_id
                            ==> result@.contains(self.books@[b].buys@[t]),
                    forall|b: int, t: int|
                        0 <= b < bi && 0 <= t < (#[trigger] self.books@[b]).sells@.len() && (
                        #[trigger] self.books@[b].sells@[t]).player_id == player_id
                            ==> result@.contains(self.books@[b].sells@[t]),
                    forall|t: int|
                        0 <= t < self.books@[bi as int].buys@.len() && (#[trigger] self.books@[bi as int].buys@[t]).player_id
                            == player_id ==> result@.contains(self.books@[bi as int].buys@[t]),
                    forall|t: int|
                        0 <= t < j && (#[trigger] self.books@[bi as int].sells@[t]).player_id
                            == player_id ==> result@.contains(self.books@[bi as int].sells@[t]),
            {
                if self.books[bi].sells[j].player_id == player_id {
                    proof {
                        lemma_push_preserves_contains(result@, self.books@[bi as int].sells@[j as int]);
                    }
                    result.push(self.books[bi].sells[j].clone());
                    proof {
                        assert(self.books@[bi as int].sells@.contains(result@.last()));
                        assert(spec_in_books(*self, result@.last()));
                    }
                }
            }
        }
        result
    }

    /// Index of the book for `item_type`, if one exists.
    fn find_book(&self, item_type: &str) -> (r: Option<usize>)
        ensures
            match r {
                Some(i) => {
                    &&& i < self.books@.len()
                    &&& self.books@[i as int].item_type@ == item_type@
                },
                None => forall|j: int|
                    0 <= j < self.books@.len() ==> (#[trigger] self.books@[j]).item_type@
                        != item_type@,
            },
    {
        let n = self.books.len();
        for i in 0..n
            invariant
                n == self.books@.len(),
                forall|j: int| 0 <= j < i ==> (#[trigger] self.books@[j]).item_type@ != item_type@,
        {
            if str_eq(self.books[i].item_type.as_str(), item_type) {
                return Some(i);
            }
        }
        None
    }
}


/// Credit the seller's side of a trade: the trade value less the fee.
/// Relies only on the trade's value laws; the balance saturates at the
/// type's maximum.
pub fn apply_trade_to_seller(inventory: &mut Inventory, trade: &TradeResult)
    requires
        old(inventory).wf(),
        trade_wf(*trade),
    ensures
        final(inventory).wf(),
        final(inventory).items@ == old(inventory).items@,
        final(inventory).max_capacity == old(inventory).max_capacity,
        final(inventory).omen_balance == if old(inventory).omen_balance + (trade.total_price
            - trade.fee) <= u64::MAX {
            (old(inventory).omen_balance + (trade.total_price - trade.fee)) as u64
        } else {
            u64::MAX
        },
{
    let proceeds = trade.total_price - trade.fee;
    inventory.credit_omen(proceeds);
}

/// Deliver the bought items to the buyer, as far as capacity allows; when
/// they do not fit, nothing is added.
pub fn apply_trade_to_buyer(inventory: &mut Inventory, trade: &TradeResult) -> (r: bool)
    requires
        old(inventory).wf(),
        trade_wf(*trade),
    ensures
        final(inventory).wf(),
        final(inventory).omen_balance == old(inventory).omen_balance,
        final(inventory).max_capacity == old(inventory).max_capacity,
        r == (old(inventory).spec_total() + trade.quantity <= old(inventory).max_capacity),
        r ==> final(inventory).spec_get(trade.item_type@) == old(inventory).spec_get(
            trade.item_type@,
        ) + trade.quantity && final(inventory).spec_total() == old(inventory).spec_total()
            + trade.quantity,
        !r ==> final(inventory).items@ == old(inventory).items@,
{
    inventory.add(trade.item_type.as_str(), trade.quantity)
}

/// Refund the buyer the difference between their limit price and the
/// execution price, on the filled quantity.  The refund is zero when the
/// trade executed at the limit.
pub fn apply_buy_refund(inventory: &mut Inventory, trade: &TradeResult, limit_price: u64)
    requires
        old(inventory).wf(),
        trade_wf(*trade),
        trade.price_per_unit <= limit_price,
        trade.quantity * limit_price <= u64::MAX,
    ensures
        final(inventory).wf(),
        final(inventory).items@ == old(inventory).items@,
        final(inventory).max_capacity == old(inventory).max_capacity,
        final(inventory).omen_balance == if old(inventory).omen_balance + trade.quantity * (
        limit_price - trade.price_per_unit) <= u64::MAX {
            (old(inventory).omen_balance + trade.quantity * (limit_price
                - trade.price_per_unit)) as u64
        } else {
            u64::MAX
        },
{
    proof {
        assert((trade.quantity as int) * ((limit_price - trade.price_per_unit) as int) <= (
        trade.quantity as int) * (limit_price as int)) by (nonlinear_arith)
            requires
                trade.quantity >= 0,
                0 <= limit_price - trade.price_per_unit <= limit_price,
        ;
    }
    let refund = trade.quantity as u64 * (limit_price - trade.price_per_unit);
    inventory.credit_omen(refund);
}

/// Every order resting in a well-formed market has open or partial status
/// and unfilled quantity.
pub proof fn lemma_book_orders_open(m: &Market, bi: int)
    requires
        m.wf(),
        0 <= bi < m.books@.len(),
    ensures
        forall|i: int|
            0 <= i < m.books@[bi].buys@.len() ==> {
                let o = #[trigger] m.books@[bi].buys@[i];
                &&& (o.status is Open || o.status is Partial)
                &&& o.filled_quantity < o.quantity
            },
        forall|i: int|
            0 <= i < m.books@[bi].sells@.len() ==> {
                let o = #[trigger] m.books@[bi].sells@[i];
                &&& (o.status is Open || o.status is Partial)
                &&& o.filled_quantity < o.quantity
            },
{
    assert(book_wf(m.books@[bi]));
}

/// Two crossing orders execute at the resting order's price, and the value
/// that leaves the buyer equals the value the seller receives plus the
/// fee: the buyer's net cost on the filled quantity, after the refund of
/// the difference to the buyer's limit, is the trade value.
pub proof fn lemma_crossing_trade_balance(t: TradeResult, limit_price: u64)
    requires
        trade_wf(t),
        t.price_per_unit <= limit_price,
    ensures
        limit_price * t.quantity - (limit_price - t.price_per_unit) * t.quantity == t.total_price,
        t.total_price == (t.total_price - t.fee) + t.fee,
        t.fee == spec_market_fee((t.quantity * t.price_per_unit) as nat),
{
    assert((limit_price as int) * (t.quantity as int) - ((limit_price - t.price_per_unit) as int)
        * (t.quantity as int) == (t.price_per_unit as int) * (t.quantity as int))
        by (nonlinear_arith);
    assert((t.price_per_unit as int) * (t.quantity as int) == (t.quantity as int) * (
    t.price_per_unit as int)) by (nonlinear_arith);
}

/// Cancelling an order that was placed and never filled returns the escrow
/// exactly: the items for a sell, `quantity × price` OMEN for a buy —
/// provided the refund does not overflow the balance nor the capacity
/// (inputs on which the refund is clipped are left out).
pub proof fn lemma_place_then_cancel_escrow(
    inv0: Inventory,
    inv1: Inventory,
    inv2: Inventory,
    o: MarketOrder,
)
    requires
        o.filled_quantity == 0,
        o.quantity > 0,
        // The placement escrowed from inv0, leaving inv1.
        o.side is Sell ==> {
            &&& inv1.spec_get(o.item_type@) == inv0.spec_get(o.item_type@) - o.quantity
            &&& inv1.spec_total() == inv0.spec_total() - o.quantity
            &&& inv1.omen_balance == inv0.omen_balance
            &&& inv1.max_capacity == inv0.max_capacity
            &&& inv0.spec_get(o.item_type@) >= o.quantity
            &&& inv0.spec_total() <= inv0.max_capacity
        },
        o.side is Buy ==> {
            &&& inv1.omen_balance == inv0.omen_balance - o.quantity * o.price_per_unit
            &&& inv1.items@ == inv0.items@
            &&& inv0.omen_balance >= o.quantity * o.price_per_unit
        },
        // The cancellation refunded inv1, leaving inv2.
        spec_cancel_refund(inv1, inv2, o),
    ensures
        o.side is Sell ==> inv2.spec_get(o.item_type@) == inv0.spec_get(o.item_type@)
            && inv2.spec_total() == inv0.spec_total() && inv2.omen_balance == inv0.omen_balance,
        o.side is Buy ==> inv2.omen_balance == inv0.omen_balance && inv2.items@ == inv0.items@,
{
}

} // verus!
