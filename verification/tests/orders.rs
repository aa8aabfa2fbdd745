use benchmarking_platform::bot_fleet::{
    fleet_plan, fleet_total_orders, generate_random_order, make_order, BotAction, BotPhase, BotReport,
    BotSession, Order, OrderType,
};

fn order(id: u64, symbol: &str, side: &str, t: OrderType, cents: u64, qty: u32) -> Order {
    Order {
        order_id: id,
        symbol: symbol.to_string(),
        side: side.to_string(),
        order_type: t,
        price_cents: cents,
        quantity: qty,
    }
}

#[test]
fn csv_line_of_limit_order() {
    let o = order(1, "AAPL", "BUY", OrderType::Limit, 12345, 10);
    assert_eq!(o.to_csv(), "1,AAPL,BUY,LIMIT,123.45,10\n");
}

#[test]
fn csv_line_of_market_order_pads_cents() {
    let o = order(3000042, "MSFT", "SELL", OrderType::Market, 10005, 99);
    assert_eq!(o.to_csv(), "3000042,MSFT,SELL,MARKET,100.05,99\n");
    let o = order(0, "TSLA", "SELL", OrderType::Market, 49990, 1);
    assert_eq!(o.to_csv(), "0,TSLA,SELL,MARKET,499.90,1\n");
    let o = order(5, "AAPL", "BUY", OrderType::Limit, 50000, 2);
    assert_eq!(o.to_csv(), "5,AAPL,BUY,LIMIT,500.00,2\n");
}

#[test]
fn csv_line_has_six_fields() {
    let line = order(18446744073709551615, "GOOGL", "BUY", OrderType::Limit, 0, 4294967295).to_csv();
    assert_eq!(line, "18446744073709551615,GOOGL,BUY,LIMIT,0.00,4294967295\n");
    assert_eq!(line.matches(',').count(), 5);
    assert_eq!(line.matches('\n').count(), 1);
    assert!(line.ends_with('\n'));
}

#[test]
fn make_order_maps_draws() {
    let o = make_order(7, 1, false, false, 25000, 42);
    assert_eq!(o, order(7, "GOOGL", "SELL", OrderType::Market, 25000, 42));
    let o = make_order(8, 3, true, true, 10000, 1);
    assert_eq!(o, order(8, "MSFT", "BUY", OrderType::Limit, 10000, 1));
}

#[test]
fn generated_orders_stay_in_range_and_vary() {
    let mut symbols = std::collections::HashSet::new();
    let mut prices = std::collections::HashSet::new();
    let mut quantities = std::collections::HashSet::new();
    let mut limits = 0;
    let mut markets = 0;
    let mut buys = 0;
    for i in 0..2000u64 {
        let o = generate_random_order(i);
        assert_eq!(o.order_id, i);
        assert!(["AAPL", "GOOGL", "TSLA", "MSFT"].contains(&o.symbol.as_str()));
        assert!(o.side == "BUY" || o.side == "SELL");
        assert!(10000 <= o.price_cents && o.price_cents <= 50000);
        assert!(1 <= o.quantity && o.quantity < 100);
        symbols.insert(o.symbol.clone());
        prices.insert(o.price_cents);
        quantities.insert(o.quantity);
        match o.order_type {
            OrderType::Limit => limits += 1,
            OrderType::Market => markets += 1,
        }
        if o.side == "BUY" {
            buys += 1;
        }
    }
    assert_eq!(symbols.len(), 4);
    assert!(prices.len() > 100);
    assert!(quantities.len() > 50);
    assert!(limits > markets && markets > 0);
    assert!(buys > 0 && buys < 2000);
}

#[test]
fn bot_that_cannot_connect_sends_nothing() {
    let (mut s, a) = BotSession::new(3, "127.0.0.1", 9000, 5);
    match a {
        BotAction::Connect { address, delay_ms } => {
            assert_eq!(address, "127.0.0.1:9000");
            assert_eq!(delay_ms, 1000);
        }
        _ => panic!("expected connect"),
    }
    match s.on_connect(false) {
        BotAction::Finish { report } => assert_eq!(report, BotReport::ConnectFailed),
        _ => panic!("expected finish"),
    }
    assert_eq!(s.phase, BotPhase::Done);
}

#[test]
fn bot_sends_all_orders_with_fleet_wide_ids() {
    let (mut s, _) = BotSession::new(2, "10.0.0.1", 65535, 3);
    let mut action = s.on_connect(true);
    let mut ids = vec![];
    loop {
        match action {
            BotAction::Send { index, order, payload } => {
                assert_eq!(index, ids.len() as u64);
                assert_eq!(payload, order.to_csv());
                ids.push(order.order_id);
                action = s.on_write(true);
            }
            BotAction::Finish { report } => {
                assert_eq!(report, BotReport::Finished { sent: 3, requested: 3, dropped_at: None });
                break;
            }
            BotAction::Connect { .. } => panic!("unexpected connect"),
        }
    }
    assert_eq!(ids, vec![2000000, 2000001, 2000002]);
}

#[test]
fn bot_stops_at_dropped_connection() {
    let (mut s, _) = BotSession::new(0, "127.0.0.1", 1, 10);
    assert!(matches!(s.on_connect(true), BotAction::Send { index: 0, .. }));
    assert!(matches!(s.on_write(true), BotAction::Send { index: 1, .. }));
    match s.on_write(false) {
        BotAction::Finish { report } => {
            assert_eq!(report, BotReport::Finished { sent: 1, requested: 10, dropped_at: Some(1) })
        }
        _ => panic!("expected finish"),
    }
}

#[test]
fn bot_with_no_orders_finishes_at_once() {
    let (mut s, _) = BotSession::new(9, "127.0.0.1", 80, 0);
    match s.on_connect(true) {
        BotAction::Finish { report } => {
            assert_eq!(report, BotReport::Finished { sent: 0, requested: 0, dropped_at: None })
        }
        _ => panic!("expected finish"),
    }
}

#[test]
fn fleet_is_ten_bots_of_ten_thousand_orders() {
    let plan = fleet_plan(4242);
    assert_eq!(plan.len(), 10);
    for (i, a) in plan.iter().enumerate() {
        assert_eq!(a.bot_id, i as u32);
        assert_eq!(a.target_ip, "127.0.0.1");
        assert_eq!(a.target_port, 4242);
        assert_eq!(a.num_orders, 10000);
    }
    assert_eq!(fleet_total_orders(), 100000);
}

#[test]
fn fleet_order_ids_are_unique() {
    let mut ids = std::collections::HashSet::new();
    for bot in 0..10u64 {
        for i in [0u64, 1, 9998, 9999] {
            assert!(ids.insert(bot * 1000000 + i));
        }
    }
    let (mut s, _) = BotSession::new(9, "127.0.0.1", 80, 10000);
    match s.on_connect(true) {
        BotAction::Send { order, .. } => assert_eq!(order.order_id, 9000000),
        _ => panic!("expected send"),
    }
}

#[test]
fn csv_fields_read_back_as_the_order() {
    for o in [
        order(1234567, "TSLA", "SELL", OrderType::Market, 49999, 99),
        order(0, "AAPL", "BUY", OrderType::Limit, 10000, 1),
        generate_random_order(42),
    ] {
        let line = o.to_csv();
        assert!(line.ends_with('\n'));
        assert_eq!(line.matches('\n').count(), 1);
        let fields: Vec<&str> = line[..line.len() - 1].split(',').collect();
        assert_eq!(fields.len(), 6);
        assert_eq!(fields[0].parse::<u64>(), Ok(o.order_id));
        assert_eq!(fields[1], o.symbol);
        assert_eq!(fields[2], o.side);
        assert_eq!(fields[3], if o.order_type == OrderType::Limit { "LIMIT" } else { "MARKET" });
        let (whole, frac) = fields[4].split_once('.').unwrap();
        assert_eq!(frac.len(), 2);
        assert_eq!(whole.parse::<u64>().unwrap() * 100 + frac.parse::<u64>().unwrap(), o.price_cents);
        assert_eq!(fields[5].parse::<u32>(), Ok(o.quantity));
    }
}

#[test]
fn bot_whose_last_id_is_the_largest_u64_can_run() {
    let bot = 10u32;
    let num_orders = u64::MAX - bot as u64 * 1000000 + 1;
    let (mut s, _) = BotSession::new(bot, "127.0.0.1", 80, num_orders);
    assert!(matches!(s.on_connect(true), BotAction::Send { index: 0, .. }));
}
