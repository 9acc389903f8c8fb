use binance::order::{build_order, CustomOrderRequest};
use binance::params::{compare_keys, ParameterSet};
use binance::text::{str_eq, u64_to_decimal};
use binance::wire::{ContractType, OrderSide, OrderType, PositionSide, TimeInForce, WorkingType};

fn entries(p: &ParameterSet) -> Vec<(String, String)> {
    (0..p.len()).map(|i| { let (k, v) = p.entry(i); (k.to_string(), v.to_string()) }).collect()
}

fn value_of(p: &ParameterSet, key: &str) -> Option<String> {
    entries(p).into_iter().find(|(k, _)| k == key).map(|(_, v)| v)
}

fn bare_order() -> CustomOrderRequest {
    CustomOrderRequest {
        symbol: "BTCUSDT".to_string(),
        side: OrderSide::Buy,
        position_side: None,
        order_type: OrderType::Limit,
        time_in_force: None,
        qty: None,
        reduce_only: None,
        price: None,
        stop_price: None,
        close_position: None,
        activation_price: None,
        callback_rate: None,
        working_type: None,
        price_protect: None,
    }
}

#[test]
fn order_type_wire_names_round_trip() {
    let all = [
        (OrderType::Limit, "LIMIT"),
        (OrderType::Market, "MARKET"),
        (OrderType::Stop, "STOP"),
        (OrderType::StopMarket, "STOP_MARKET"),
        (OrderType::TakeProfit, "TAKE_PROFIT"),
        (OrderType::TakeProfitMarket, "TAKE_PROFIT_MARKET"),
        (OrderType::TrailingStopMarket, "TRAILING_STOP_MARKET"),
    ];
    for (t, name) in all.iter() {
        assert_eq!(t.as_str(), *name);
        assert_eq!(OrderType::from_wire(name), Some(*t));
    }
    let mut names: Vec<&str> = all.iter().map(|(t, _)| t.as_str()).collect();
    names.sort();
    names.dedup();
    assert_eq!(names.len(), 7);
}

#[test]
fn unknown_wire_name_is_refused() {
    assert_eq!(OrderType::from_wire("LIMIT_MAKER"), None);
    assert_eq!(OrderType::from_wire("limit"), None);
    assert_eq!(OrderType::from_wire(""), None);
    assert_eq!(WorkingType::from_wire("MARK"), None);
}

#[test]
fn other_enums_wire_names() {
    assert_eq!(ContractType::CurrentQuarter.as_str(), "CURRENT_QUARTER");
    assert_eq!(ContractType::from_wire("NEXT_MONTH"), Some(ContractType::NextMonth));
    assert_eq!(PositionSide::Short.as_str(), "SHORT");
    assert_eq!(WorkingType::ContractPrice.as_str(), "CONTRACT_PRICE");
    assert_eq!(TimeInForce::GTX.as_str(), "GTX");
    assert_eq!(OrderSide::from_wire("SELL"), Some(OrderSide::Sell));
}

#[test]
fn decimal_text_of_integers() {
    assert_eq!(u64_to_decimal(0), "0");
    assert_eq!(u64_to_decimal(7), "7");
    assert_eq!(u64_to_decimal(1499827319559), "1499827319559");
    assert_eq!(u64_to_decimal(u64::MAX), "18446744073709551615");
}

#[test]
fn string_helpers() {
    assert!(str_eq("abc", "abc"));
    assert!(!str_eq("abc", "abd"));
    assert!(!str_eq("ab", "abc"));
    assert!(compare_keys("price", "priceProtect") < 0);
    assert!(compare_keys("type", "timeInForce") > 0);
    assert_eq!(compare_keys("side", "side"), 0);
    assert!(compare_keys("Z", "a") < 0);
}

#[test]
fn parameters_stay_sorted_and_unique() {
    let mut p = ParameterSet::new();
    p.insert("symbol".to_string(), "BTCUSDT".to_string());
    p.insert("limit".to_string(), "5".to_string());
    p.insert("orderId".to_string(), "1".to_string());
    p.insert("limit".to_string(), "10".to_string());
    assert_eq!(
        entries(&p),
        vec![
            ("limit".to_string(), "10".to_string()),
            ("orderId".to_string(), "1".to_string()),
            ("symbol".to_string(), "BTCUSDT".to_string()),
        ]
    );
}

#[test]
fn unset_fields_are_left_out() {
    let p = build_order(&bare_order());
    assert_eq!(
        entries(&p),
        vec![
            ("side".to_string(), "BUY".to_string()),
            ("symbol".to_string(), "BTCUSDT".to_string()),
            ("type".to_string(), "LIMIT".to_string()),
        ]
    );
}

#[test]
fn set_fields_carry_their_encoding() {
    let mut o = bare_order();
    o.order_type = OrderType::TrailingStopMarket;
    o.side = OrderSide::Sell;
    o.position_side = Some(PositionSide::Long);
    o.time_in_force = Some(TimeInForce::GTC);
    o.qty = Some("1.5".to_string());
    o.reduce_only = Some(true);
    o.price = Some("20000".to_string());
    o.stop_price = Some("19000.5".to_string());
    o.close_position = Some(false);
    o.activation_price = Some("21000".to_string());
    o.callback_rate = Some("0.5".to_string());
    o.working_type = Some(WorkingType::MarkPrice);
    o.price_protect = Some("inf".to_string());
    let p = build_order(&o);
    assert_eq!(p.len(), 14);
    assert_eq!(value_of(&p, "reduceOnly").as_deref(), Some("TRUE"));
    assert_eq!(value_of(&p, "closePosition").as_deref(), Some("FALSE"));
    assert_eq!(value_of(&p, "priceProtect").as_deref(), Some("INF"));
    assert_eq!(value_of(&p, "type").as_deref(), Some("TRAILING_STOP_MARKET"));
    assert_eq!(value_of(&p, "side").as_deref(), Some("SELL"));
    assert_eq!(value_of(&p, "positionSide").as_deref(), Some("LONG"));
    assert_eq!(value_of(&p, "timeInForce").as_deref(), Some("GTC"));
    assert_eq!(value_of(&p, "quantity").as_deref(), Some("1.5"));
    assert_eq!(value_of(&p, "stopPrice").as_deref(), Some("19000.5"));
    assert_eq!(value_of(&p, "activationPrice").as_deref(), Some("21000"));
    assert_eq!(value_of(&p, "callbackRate").as_deref(), Some("0.5"));
    assert_eq!(value_of(&p, "workingType").as_deref(), Some("MARK_PRICE"));
    let keys: Vec<String> = entries(&p).into_iter().map(|(k, _)| k).collect();
    let mut sorted = keys.clone();
    sorted.sort();
    assert_eq!(keys, sorted);
}

#[test]
fn reduce_only_only_when_set() {
    let mut o = bare_order();
    o.qty = Some("2".to_string());
    let p = build_order(&o);
    assert_eq!(value_of(&p, "reduceOnly"), None);
    assert_eq!(value_of(&p, "quantity").as_deref(), Some("2"));
    assert_eq!(value_of(&p, "price"), None);
}
