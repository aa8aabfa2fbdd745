//! The trading-bot fleet that floods a contestant's engine with orders:
//! what an order is, how it is written on the wire, how one bot proceeds
//! through its session and how the fleet is laid out.

use rand::Rng;
use vstd::prelude::*;

use crate::text::{
    count_char, decimal, digit_char, digit_str, lemma_count_absent, lemma_count_concat,
    lemma_decimal_digits, lemma_decimal_reads_back, lemma_decimal_value, lemma_digit_char,
    lemma_split_after_field, lemma_split_without_sep, split_fields, u64_to_decimal, all_digits,
    digits_value, unsigned_value,
};

verus! {

/// Represents the type of order sent to the engine.
#[derive(Debug, Clone, Copy, PartialEq, Eq, Structural)]
pub enum OrderType {
    Limit,
    Market,
}

/// An order that is serialized and sent to the engine.  The price is kept
/// in hundredths (cents), the precision at which it is written on the wire.
#[derive(Debug, Clone, PartialEq, Eq)]
pub struct Order {
    pub order_id: u64,
    pub symbol: String,
    /// "BUY" or "SELL".
    pub side: String,
    pub order_type: OrderType,
    pub price_cents: u64,
    pub quantity: u32,
}

/// Lowest price a generated order carries, in cents (100.00).
pub const MIN_PRICE_CENTS: u64 = 10000;

/// Highest price a generated order carries, in cents (500.00): a price
/// drawn below 500 may still be written as 500.00 at two decimals.
pub const MAX_PRICE_CENTS: u64 = 50000;

/// Smallest quantity of a generated order.
pub const MIN_QUANTITY: u64 = 1;

/// Bound, exclusive, on the quantity of a generated order.
pub const MAX_QUANTITY: u64 = 100;

/// A generated order is a limit order with probability
/// `LIMIT_NUMERATOR / LIMIT_DENOMINATOR` (80%).
pub const LIMIT_NUMERATOR: u32 = 4;

pub const LIMIT_DENOMINATOR: u32 = 5;

/// Gap between the order identifiers of two consecutive bots.
pub const ORDER_ID_STRIDE: u64 = 1000000;

/// Bots in a fleet.
pub const NUM_BOTS: u32 = 10;

/// Orders each bot of a fleet sends.
pub const ORDERS_PER_BOT: u64 = 10000;

/// Pause before a bot connects, so that the engine can bind its port.
pub const CONNECT_DELAY_MS: u64 = 1000;

/// The symbols orders are drawn from.
pub open spec fn symbols() -> Seq<Seq<char>> {
    seq!["AAPL"@, "GOOGL"@, "TSLA"@, "MSFT"@]
}

/// How an order type is written on the wire.
pub open spec fn order_type_text(t: OrderType) -> Seq<char> {
    match t {
        OrderType::Limit => "LIMIT"@,
        OrderType::Market => "MARKET"@,
    }
}

/// A price in cents written with two decimals, e.g. 12345 as "123.45".
pub open spec fn price_text(cents: nat) -> Seq<char> {
    decimal(cents / 100) + seq!['.', digit_char((cents % 100) / 10), digit_char(cents % 10)]
}

/// The CSV line of an order: `OrderID,Symbol,Side,Type,Price,Quantity` and a newline.
pub open spec fn csv_line(o: &Order) -> Seq<char> {
    decimal(o.order_id as nat) + seq![','] + o.symbol@ + seq![','] + o.side@ + seq![',']
        + order_type_text(o.order_type) + seq![','] + price_text(o.price_cents as nat) + seq![',']
        + decimal(o.quantity as nat) + seq!['\n']
}

/// What every generated order satisfies: its identifier, one of the four
/// symbols, a side of BUY or SELL, a price in [100.00, 500.00] and a
/// quantity in [1, 100).
pub open spec fn is_generated_order(o: &Order, id: u64) -> bool {
    &&& o.order_id == id
    &&& symbols().contains(o.symbol@)
    &&& (o.side@ == "BUY"@ || o.side@ == "SELL"@)
    &&& MIN_PRICE_CENTS <= o.price_cents <= MAX_PRICE_CENTS
    &&& MIN_QUANTITY <= o.quantity < MAX_QUANTITY
}

/// The identifier of the `index`-th order of bot `bot_id`.
pub open spec fn order_id_of(bot_id: u32, index: u64) -> int {
    bot_id as int * ORDER_ID_STRIDE as int + index as int
}

impl OrderType {
    /// How this order type is written on the wire.
    pub fn as_text(&self) -> (text: &'static str)
        ensures
            text@ == order_type_text(*self),
    {
        match self {
            OrderType::Limit => "LIMIT",
            OrderType::Market => "MARKET",
        }
    }
}

/// Appends `cents` written with two decimals.
fn append_price(line: &mut String, cents: u64)
    ensures
        final(line)@ == old(line)@ + price_text(cents as nat),
{
    let whole = u64_to_decimal(cents / 100);
    line.append(whole.as_str());
    line.append(".");
    line.append(digit_str((cents % 100) / 10));
    line.append(digit_str(cents % 10));
    proof {
        reveal_strlit(".");
        assert(final(line)@ =~= old(line)@ + price_text(cents as nat));
    }
}

impl Order {
    /// Serializes the order to a CSV line (easy for contestants to parse).
    /// Format: OrderID,Symbol,Side,Type,Price,Quantity
    pub fn to_csv(&self) -> (line: String)
        ensures
            line@ == csv_line(self),
    {
        proof {
            reveal_strlit(",");
            reveal_strlit("\n");
        }
        let mut line = u64_to_decimal(self.order_id);
        line.append(",");
        line.append(self.symbol.as_str());
        line.append(",");
        line.append(self.side.as_str());
        line.append(",");
        line.append(self.order_type.as_text());
        line.append(",");
        append_price(&mut line, self.price_cents);
        line.append(",");
        let q = u64_to_decimal(self.quantity as u64);
        line.append(q.as_str());
        line.append("\n");
        assert(line@ =~= csv_line(self));
        line
    }
}

/// The `index`-th symbol orders are drawn from.
pub fn symbol_at(index: usize) -> (symbol: &'static str)
    requires
        index < 4,
    ensures
        symbol@ == symbols()[index as int],
{
    match index {
        0 => "AAPL",
        1 => "GOOGL",
        2 => "TSLA",
        _ => "MSFT",
    }
}

/// Builds the order that a set of random draws stands for: the symbol with
/// index `symbol_index`, BUY when `is_buy` (else SELL), a limit order when
/// `is_limit` (else a market order), and the given price and quantity.
pub fn make_order(
    order_id: u64,
    symbol_index: usize,
    is_buy: bool,
    is_limit: bool,
    price_cents: u64,
    quantity: u32,
) -> (order: Order)
    requires
        symbol_index < 4,
    ensures
        order.order_id == order_id,
        order.symbol@ == symbols()[symbol_index as int],
        order.side@ == (if is_buy { "BUY"@ } else { "SELL"@ }),
        order.order_type == (if is_limit { OrderType::Limit } else { OrderType::Market }),
        order.price_cents == price_cents,
        order.quantity == quantity,
{
    Order {
        order_id,
        symbol: String::from_str(symbol_at(symbol_index)),
        side: if is_buy { String::from_str("BUY") } else { String::from_str("SELL") },
        order_type: if is_limit { OrderType::Limit } else { OrderType::Market },
        price_cents,
        quantity,
    }
}

/// A random boolean, each value equally likely.
#[verifier::external_body]
fn random_bool() -> bool {
    rand::thread_rng().gen::<bool>()
}

/// `true` with probability `numerator / denominator`.
///
/// Calls `rand::Rng::gen_ratio` on the thread-local generator.  Its
/// documentation promises `false` when the numerator is 0 and `true` when
/// it equals the denominator, and it panics when the denominator is 0 or
/// smaller than the numerator, which `requires` rules out.
#[verifier::external_body]
fn random_ratio(numerator: u32, denominator: u32) -> (hit: bool)
    requires
        0 < denominator,
        numerator <= denominator,
    ensures
        numerator == 0 ==> !hit,
        numerator == denominator ==> hit,
{
    rand::thread_rng().gen_ratio(numerator, denominator)
}

/// A value drawn uniformly from `[low, high)`.
///
/// Calls `rand::Rng::gen_range` on the thread-local generator with the
/// range `low..high`; it returns a value of that range and panics when the
/// range is empty, which `requires` rules out.
#[verifier::external_body]
fn random_in_range(low: u64, high: u64) -> (value: u64)
    requires
        low < high,
    ensures
        low <= value < high,
{
    rand::thread_rng().gen_range(low..high)
}

/// Generates a random order with identifier `id`: a uniformly drawn symbol,
/// side, price in [100.00, 500.00] (in cents) and quantity in [1, 100), and a limit
/// order four times out of five.
pub fn generate_random_order(id: u64) -> (order: Order)
    ensures
        is_generated_order(&order, id),
{
    let symbol_index = random_in_range(0, 4) as usize;
    let is_buy = random_bool();
    let is_limit = random_ratio(LIMIT_NUMERATOR, LIMIT_DENOMINATOR);
    let price_cents = random_in_range(MIN_PRICE_CENTS, MAX_PRICE_CENTS + 1);
    let quantity = random_in_range(MIN_QUANTITY, MAX_QUANTITY) as u32;
    let order = make_order(id, symbol_index, is_buy, is_limit, price_cents, quantity);
    assert(symbols()[symbol_index as int] == order.symbol@);
    order
}

} // verus!

verus! {

/// Where a bot is in its session with the engine.
#[derive(Debug, Clone, Copy, PartialEq, Eq, Structural)]
pub enum BotPhase {
    /// Waiting for the outcome of the connection attempt.
    Connecting,
    /// Waiting for the outcome of writing the order at `next_index`.
    Sending,
    /// The session is over.
    Done,
}

/// How a bot session ended.
#[derive(Debug, Clone, Copy, PartialEq, Eq, Structural)]
pub enum BotReport {
    /// The engine could not be reached; nothing was sent.
    ConnectFailed,
    /// `sent` of the `requested` orders went out; `dropped_at` is the index
    /// of the order whose write failed, if one did.
    Finished { sent: u64, requested: u64, dropped_at: Option<u64> },
}

/// What the driver of a bot session has to do next.
pub enum BotAction {
    /// Wait `delay_ms` milliseconds, then open a TCP connection to `address`.
    Connect { address: String, delay_ms: u64 },
    /// Write `payload`, the CSV line of `order`, the `index`-th order of the session.
    Send { index: u64, order: Order, payload: String },
    /// Stop; the session ended as `report` says.
    Finish { report: BotReport },
}

/// One bot's session: it connects to the engine and sends `num_orders`
/// orders, stopping at the first write that fails.
pub struct BotSession {
    pub bot_id: u32,
    pub num_orders: u64,
    /// Index of the next order to send, which is also how many were sent.
    pub next_index: u64,
    pub phase: BotPhase,
}

/// The action that asks to send the `index`-th order of bot `bot_id`.
pub open spec fn is_send_of(action: BotAction, bot_id: u32, index: u64) -> bool {
    match action {
        BotAction::Send { index: i, order, payload } => {
            &&& i == index
            &&& is_generated_order(&order, order_id_of(bot_id, index) as u64)
            &&& payload@ == csv_line(&order)
        },
        _ => false,
    }
}

/// The action that ends a session with `report`.
pub open spec fn is_finish(action: BotAction, report: BotReport) -> bool {
    match action {
        BotAction::Finish { report: r } => r == report,
        _ => false,
    }
}

/// The identifiers of all `num_orders` orders of bot `bot_id` fit in a `u64`.
pub open spec fn ids_fit(bot_id: u32, num_orders: u64) -> bool {
    num_orders == 0 || order_id_of(bot_id, (num_orders - 1) as u64) <= u64::MAX
}

/// The address a bot connects to: `ip:port`.
pub open spec fn address_of(ip: Seq<char>, port: u16) -> Seq<char> {
    ip + seq![':'] + decimal(port as nat)
}

impl BotSession {
    /// Identifiers of all orders of the session fit in a `u64`, and the
    /// session has not sent more than it was asked to.
    pub open spec fn wf(&self) -> bool {
        &&& ids_fit(self.bot_id, self.num_orders)
        &&& self.next_index <= self.num_orders
        &&& self.phase == BotPhase::Sending ==> self.next_index < self.num_orders
        &&& self.phase == BotPhase::Connecting ==> self.next_index == 0
    }

    /// Starts the session of bot `bot_id` against `target_ip:target_port`;
    /// the first action is to wait a second and connect.
    pub fn new(bot_id: u32, target_ip: &str, target_port: u16, num_orders: u64) -> (res: (
        BotSession,
        BotAction,
    ))
        requires
            ids_fit(bot_id, num_orders),
        ensures
            res.0.wf(),
            res.0.bot_id == bot_id,
            res.0.num_orders == num_orders,
            res.0.next_index == 0,
            res.0.phase == BotPhase::Connecting,
            match res.1 {
                BotAction::Connect { address, delay_ms } => address@ == address_of(
                    target_ip@,
                    target_port,
                ) && delay_ms == CONNECT_DELAY_MS,
                _ => false,
            },
    {
        let mut address = String::from_str(target_ip);
        address.append(":");
        let port = u64_to_decimal(target_port as u64);
        address.append(port.as_str());
        proof {
            reveal_strlit(":");
        }
        assert(address@ =~= address_of(target_ip@, target_port));
        (
            BotSession { bot_id, num_orders, next_index: 0, phase: BotPhase::Connecting },
            BotAction::Connect { address, delay_ms: CONNECT_DELAY_MS },
        )
    }

    /// The action for the order at `next_index`, or the end of the session
    /// when all orders went out.
    fn send_next(&mut self) -> (action: BotAction)
        requires
            ids_fit(old(self).bot_id, old(self).num_orders),
            old(self).next_index <= old(self).num_orders,
        ensures
            final(self).wf(),
            final(self).bot_id == old(self).bot_id,
            final(self).num_orders == old(self).num_orders,
            final(self).next_index == old(self).next_index,
            if old(self).next_index < old(self).num_orders {
                &&& final(self).phase == BotPhase::Sending
                &&& is_send_of(action, old(self).bot_id, old(self).next_index)
            } else {
                &&& final(self).phase == BotPhase::Done
                &&& is_finish(
                    action,
                    BotReport::Finished {
                        sent: old(self).num_orders,
                        requested: old(self).num_orders,
                        dropped_at: None,
                    },
                )
            },
    {
        if self.next_index < self.num_orders {
            let id = self.bot_id as u64 * ORDER_ID_STRIDE + self.next_index;
            let order = generate_random_order(id);
            let payload = order.to_csv();
            self.phase = BotPhase::Sending;
            BotAction::Send { index: self.next_index, order, payload }
        } else {
            self.phase = BotPhase::Done;
            BotAction::Finish {
                report: BotReport::Finished {
                    sent: self.num_orders,
                    requested: self.num_orders,
                    dropped_at: None,
                },
            }
        }
    }

    /// Handles the outcome of the connection attempt: a failure ends the
    /// session with nothing sent; a success sends the first order.
    pub fn on_connect(&mut self, connected: bool) -> (action: BotAction)
        requires
            old(self).wf(),
            old(self).phase == BotPhase::Connecting,
        ensures
            final(self).wf(),
            final(self).bot_id == old(self).bot_id,
            final(self).num_orders == old(self).num_orders,
            final(self).next_index == 0,
            !connected ==> final(self).phase == BotPhase::Done && is_finish(
                action,
                BotReport::ConnectFailed,
            ),
            connected && 0 < old(self).num_orders ==> final(self).phase == BotPhase::Sending
                && is_send_of(action, old(self).bot_id, 0),
            connected && old(self).num_orders == 0 ==> final(self).phase == BotPhase::Done
                && is_finish(
                action,
                BotReport::Finished { sent: 0, requested: 0, dropped_at: None },
            ),
    {
        if !connected {
            self.phase = BotPhase::Done;
            BotAction::Finish { report: BotReport::ConnectFailed }
        } else {
            self.send_next()
        }
    }

    /// Handles the outcome of writing the order at `next_index`: a failure
    /// ends the session, reporting that order as the one dropped; a success
    /// sends the next order or, after the last one, ends the session.
    pub fn on_write(&mut self, written: bool) -> (action: BotAction)
        requires
            old(self).wf(),
            old(self).phase == BotPhase::Sending,
        ensures
            final(self).wf(),
            final(self).bot_id == old(self).bot_id,
            final(self).num_orders == old(self).num_orders,
            !written ==> {
                &&& final(self).phase == BotPhase::Done
                &&& final(self).next_index == old(self).next_index
                &&& is_finish(
                    action,
                    BotReport::Finished {
                        sent: old(self).next_index,
                        requested: old(self).num_orders,
                        dropped_at: Some(old(self).next_index),
                    },
                )
            },
            written ==> final(self).next_index == old(self).next_index + 1,
            written && old(self).next_index + 1 < old(self).num_orders ==> final(self).phase
                == BotPhase::Sending && is_send_of(
                action,
                old(self).bot_id,
                (old(self).next_index + 1) as u64,
            ),
            written && old(self).next_index + 1 == old(self).num_orders ==> final(self).phase
                == BotPhase::Done && is_finish(
                action,
                BotReport::Finished {
                    sent: old(self).num_orders,
                    requested: old(self).num_orders,
                    dropped_at: None,
                },
            ),
    {
        if !written {
            self.phase = BotPhase::Done;
            BotAction::Finish {
                report: BotReport::Finished {
                    sent: self.next_index,
                    requested: self.num_orders,
                    dropped_at: Some(self.next_index),
                },
            }
        } else {
            self.next_index = self.next_index + 1;
            self.send_next()
        }
    }
}

/// One bot of a fleet and what it is told to do.
#[derive(Debug, Clone, PartialEq, Eq)]
pub struct BotAssignment {
    pub bot_id: u32,
    pub target_ip: String,
    pub target_port: u16,
    pub num_orders: u64,
}

/// The host every bot of a fleet connects to.
pub open spec fn fleet_host() -> Seq<char> {
    "127.0.0.1"@
}

/// The fleet launched against a container whose engine listens on
/// `target_port`: bots 0 to 9, each sending 10 000 orders to 127.0.0.1.
pub fn fleet_plan(target_port: u16) -> (plan: Vec<BotAssignment>)
    ensures
        plan@.len() == NUM_BOTS,
        forall|i: int|
            0 <= i < plan@.len() ==> {
                &&& (#[trigger] plan@[i]).bot_id == i
                &&& plan@[i].target_ip@ == fleet_host()
                &&& plan@[i].target_port == target_port
                &&& plan@[i].num_orders == ORDERS_PER_BOT
            },
{
    let mut plan: Vec<BotAssignment> = Vec::new();
    let mut bot_id: u32 = 0;
    while bot_id < NUM_BOTS
        invariant
            bot_id <= NUM_BOTS,
            plan@.len() == bot_id,
            forall|i: int|
                0 <= i < plan@.len() ==> {
                    &&& (#[trigger] plan@[i]).bot_id == i
                    &&& plan@[i].target_ip@ == fleet_host()
                    &&& plan@[i].target_port == target_port
                    &&& plan@[i].num_orders == ORDERS_PER_BOT
                },
        decreases NUM_BOTS - bot_id,
    {
        plan.push(
            BotAssignment {
                bot_id,
                target_ip: String::from_str("127.0.0.1"),
                target_port,
                num_orders: ORDERS_PER_BOT,
            },
        );
        bot_id = bot_id + 1;
    }
    plan
}

/// How many orders a whole fleet sends.
pub fn fleet_total_orders() -> (total: u64)
    ensures
        total == NUM_BOTS * ORDERS_PER_BOT,
        total == 100000,
{
    NUM_BOTS as u64 * ORDERS_PER_BOT
}

/// Two orders of bots that send fewer than `ORDER_ID_STRIDE` orders each
/// carry the same identifier only if they are the same order of the same bot.
pub proof fn lemma_order_ids_distinct(b1: u32, i1: u64, b2: u32, i2: u64)
    requires
        i1 < ORDER_ID_STRIDE,
        i2 < ORDER_ID_STRIDE,
    ensures
        order_id_of(b1, i1) == order_id_of(b2, i2) <==> (b1 == b2 && i1 == i2),
{
    if b1 < b2 {
        assert(b1 as int * 1000000 + i1 < b2 as int * 1000000 + i2) by (nonlinear_arith)
            requires
                b1 < b2,
                i1 < 1000000,
                0 <= i2,
        ;
    } else if b2 < b1 {
        assert(b2 as int * 1000000 + i2 < b1 as int * 1000000 + i1) by (nonlinear_arith)
            requires
                b2 < b1,
                i2 < 1000000,
                0 <= i1,
        ;
    }
}

/// Every order a fleet sends carries an identifier of its own: the orders
/// of the fleet's bots never share an identifier, and every fleet bot's
/// identifiers fit in a `u64`.
pub proof fn lemma_fleet_order_ids_unique(b1: u32, i1: u64, b2: u32, i2: u64)
    requires
        b1 < NUM_BOTS,
        b2 < NUM_BOTS,
        i1 < ORDERS_PER_BOT,
        i2 < ORDERS_PER_BOT,
        b1 != b2 || i1 != i2,
    ensures
        order_id_of(b1, i1) != order_id_of(b2, i2),
        order_id_of(b1, i1) <= u64::MAX,
        ids_fit(b1, ORDERS_PER_BOT),
{
    lemma_order_ids_distinct(b1, i1, b2, i2);
}

} // verus!

verus! {

/// Neither a comma nor a newline occurs in `s`.
pub open spec fn free_of_separators(s: Seq<char>) -> bool {
    forall|i: int| 0 <= i < s.len() ==> s[i] != ',' && s[i] != '\n'
}

proof fn lemma_free_counts(s: Seq<char>)
    requires
        free_of_separators(s),
    ensures
        count_char(s, ',') == 0,
        count_char(s, '\n') == 0,
{
    lemma_count_absent(s, ',');
    lemma_count_absent(s, '\n');
}

proof fn lemma_single_counts(c: char)
    ensures
        count_char(seq![c], c) == 1,
        c != ',' ==> count_char(seq![c], ',') == 0,
        c != '\n' ==> count_char(seq![c], '\n') == 0,
{
    let s = seq![c];
    assert(s.drop_last().len() == 0);
    assert(count_char(s.drop_last(), c) == 0);
    assert(count_char(s.drop_last(), ',') == 0);
    assert(count_char(s.drop_last(), '\n') == 0);
    assert(s.last() == c);
}

proof fn lemma_append_counts(a: Seq<char>, b: Seq<char>)
    ensures
        count_char(a + b, ',') == count_char(a, ',') + count_char(b, ','),
        count_char(a + b, '\n') == count_char(a, '\n') + count_char(b, '\n'),
{
    lemma_count_concat(a, b, ',');
    lemma_count_concat(a, b, '\n');
}

proof fn lemma_numbers_free(n: nat, cents: nat)
    ensures
        free_of_separators(decimal(n)),
        free_of_separators(price_text(cents)),
{
    lemma_decimal_digits(n);
    lemma_decimal_digits(cents / 100);
    lemma_digit_char((cents % 100) / 10);
    lemma_digit_char(cents % 10);
    let p = price_text(cents);
    assert forall|i: int| 0 <= i < p.len() implies p[i] != ',' && p[i] != '\n' by {
        if i < decimal(cents / 100).len() {
            assert(p[i] == decimal(cents / 100)[i]);
        }
    }
}

/// The fields the line writes from numbers and the order type hold
/// neither a comma nor a newline.
proof fn lemma_csv_pieces_free(o: &Order)
    ensures
        free_of_separators(decimal(o.order_id as nat)),
        free_of_separators(order_type_text(o.order_type)),
        free_of_separators(price_text(o.price_cents as nat)),
        free_of_separators(decimal(o.quantity as nat)),
{
    reveal_strlit("LIMIT");
    reveal_strlit("MARKET");
    lemma_numbers_free(o.order_id as nat, o.price_cents as nat);
    lemma_numbers_free(o.quantity as nat, 0);
}

/// A CSV line is six fields separated by five commas and closed by its
/// only newline, whenever the symbol and the side hold neither a comma nor
/// a newline (which every generated order satisfies): the line can be
/// split back into its fields.
pub proof fn lemma_csv_line_shape(o: &Order)
    requires
        free_of_separators(o.symbol@),
        free_of_separators(o.side@),
    ensures
        count_char(csv_line(o), ',') == 5,
        count_char(csv_line(o), '\n') == 1,
        csv_line(o).last() == '\n',
{
    lemma_csv_pieces_free(o);
    let id = decimal(o.order_id as nat);
    let ty = order_type_text(o.order_type);
    let price = price_text(o.price_cents as nat);
    let qty = decimal(o.quantity as nat);
    let comma = seq![','];
    let nl = seq!['\n'];
    lemma_free_counts(id);
    lemma_free_counts(o.symbol@);
    lemma_free_counts(o.side@);
    lemma_free_counts(ty);
    lemma_free_counts(price);
    lemma_free_counts(qty);
    lemma_single_counts(',');
    lemma_single_counts('\n');
    let s1 = id + comma;
    lemma_append_counts(id, comma);
    let s2 = s1 + o.symbol@;
    lemma_append_counts(s1, o.symbol@);
    let s3 = s2 + comma;
    lemma_append_counts(s2, comma);
    let s4 = s3 + o.side@;
    lemma_append_counts(s3, o.side@);
    let s5 = s4 + comma;
    lemma_append_counts(s4, comma);
    let s6 = s5 + ty;
    lemma_append_counts(s5, ty);
    let s7 = s6 + comma;
    lemma_append_counts(s6, comma);
    let s8 = s7 + price;
    lemma_append_counts(s7, price);
    let s9 = s8 + comma;
    lemma_append_counts(s8, comma);
    let s10 = s9 + qty;
    lemma_append_counts(s9, qty);
    let s11 = s10 + nl;
    lemma_append_counts(s10, nl);
    assert(s11 == csv_line(o));
}

/// Every generated order can be written as a CSV line of six fields.
pub proof fn lemma_generated_order_fields(o: &Order, id: u64)
    requires
        is_generated_order(o, id),
    ensures
        free_of_separators(o.symbol@),
        free_of_separators(o.side@),
{
    reveal_strlit("AAPL");
    reveal_strlit("GOOGL");
    reveal_strlit("TSLA");
    reveal_strlit("MSFT");
    reveal_strlit("BUY");
    reveal_strlit("SELL");
    let k = choose|k: int| 0 <= k < symbols().len() && symbols()[k] == o.symbol@;
    assert(0 <= k < 4);
}

} // verus!

verus! {

/// The fields of an order's CSV line: the line without its newline, cut at commas.
pub open spec fn csv_fields(o: &Order) -> Seq<Seq<char>> {
    split_fields(csv_line(o).drop_last(), ',')
}

/// The price in cents that a price written with two decimals stands for:
/// digits, a point, and two digits.
pub open spec fn price_cents_of(t: Seq<char>) -> Option<nat> {
    if t.len() >= 4 && t[t.len() - 3] == '.' && all_digits(t.take(t.len() - 3)) && all_digits(
        t.skip(t.len() - 2),
    ) {
        Some(digits_value(t.take(t.len() - 3)) * 100 + digits_value(t.skip(t.len() - 2)))
    } else {
        None
    }
}

/// A price written with two decimals reads back as the same number of cents.
pub proof fn lemma_price_reads_back(cents: nat)
    ensures
        price_cents_of(price_text(cents)) == Some(cents),
{
    let w = cents / 100;
    let d1 = (cents % 100) / 10;
    let d2 = cents % 10;
    lemma_decimal_value(w);
    lemma_digit_char(d1);
    lemma_digit_char(d2);
    let t = price_text(cents);
    let whole = decimal(w);
    assert(t.take(t.len() - 3) =~= whole);
    let frac = t.skip(t.len() - 2);
    assert(frac =~= seq![digit_char(d1), digit_char(d2)]);
    assert(frac.drop_last() =~= seq![digit_char(d1)]);
    let one = frac.drop_last();
    assert(one.drop_last().len() == 0);
    assert(digits_value(one.drop_last()) == 0);
    assert(one.last() == digit_char(d1));
    assert(digits_value(one) == d1);
    assert(frac.last() == digit_char(d2));
    assert(digits_value(frac) == d1 * 10 + d2);
    assert(all_digits(frac));
    assert(t[t.len() - 3] == '.');
    assert(w * 100 + d1 * 10 + d2 == cents);
}

/// An order's CSV line reads back as the order: it ends with its only
/// newline, and cut at commas it gives six fields, the identifier, the
/// symbol, the side, the type, the price and the quantity, each reading
/// back as the order's value; this holds whenever the symbol and the side
/// hold neither a comma nor a newline, as every generated order's do.
pub proof fn lemma_csv_round_trip(o: &Order)
    requires
        free_of_separators(o.symbol@),
        free_of_separators(o.side@),
    ensures
        csv_line(o).last() == '\n',
        count_char(csv_line(o), '\n') == 1,
        csv_fields(o).len() == 6,
        unsigned_value(csv_fields(o)[0]) == Some(o.order_id as nat),
        csv_fields(o)[1] == o.symbol@,
        csv_fields(o)[2] == o.side@,
        csv_fields(o)[3] == order_type_text(o.order_type),
        price_cents_of(csv_fields(o)[4]) == Some(o.price_cents as nat),
        unsigned_value(csv_fields(o)[5]) == Some(o.quantity as nat),
{
    lemma_csv_line_shape(o);
    lemma_csv_pieces_free(o);
    let id = decimal(o.order_id as nat);
    let sym = o.symbol@;
    let side = o.side@;
    let ty = order_type_text(o.order_type);
    let price = price_text(o.price_cents as nat);
    let qty = decimal(o.quantity as nat);
    let c = seq![','];
    let r4 = price + c + qty;
    let r3 = ty + c + r4;
    let r2 = side + c + r3;
    let r1 = sym + c + r2;
    let body = id + c + r1;
    assert(csv_line(o).drop_last() =~= body);
    lemma_split_without_sep(qty, ',');
    lemma_split_after_field(price, ',', qty);
    lemma_split_after_field(ty, ',', r4);
    lemma_split_after_field(side, ',', r3);
    lemma_split_after_field(sym, ',', r2);
    lemma_split_after_field(id, ',', r1);
    assert(csv_fields(o) =~= seq![id, sym, side, ty, price, qty]);
    lemma_decimal_reads_back(o.order_id as nat);
    lemma_decimal_reads_back(o.quantity as nat);
    lemma_price_reads_back(o.price_cents as nat);
}

} // verus!

verus! {

/// A bot connects to the target IP it was given: the address is that IP, a
/// colon, then the port in canonical decimal (digits only, no leading
/// zero unless the port is 0), which reads back as the port.
pub proof fn lemma_address_parts(ip: Seq<char>, port: u16)
    ensures
        address_of(ip, port).subrange(0, ip.len() as int) == ip,
        address_of(ip, port)[ip.len() as int] == ':',
        unsigned_value(address_of(ip, port).skip(ip.len() + 1int)) == Some(port as nat),
        all_digits(address_of(ip, port).skip(ip.len() + 1int)),
        address_of(ip, port).skip(ip.len() + 1int).len() == 1 || address_of(ip, port).skip(
            ip.len() + 1int,
        )[0] != '0',
{
    let a = address_of(ip, port);
    assert(a.subrange(0, ip.len() as int) =~= ip);
    assert(a.skip(ip.len() + 1int) =~= decimal(port as nat));
    crate::text::lemma_decimal_canonical(port as nat);
    lemma_decimal_reads_back(port as nat);
}

} // verus!
