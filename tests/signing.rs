use binance::account::{Endpoint, FuturesAccount, Method};
use binance::errors::Error;
use binance::params::ParameterSet;
use binance::signer::{build_request, build_signed_request_custom, hex_encode, sign_query};
use binance::wire::TimeInForce;

fn params(pairs: &[(&str, &str)]) -> ParameterSet {
    let mut p = ParameterSet::new();
    for (k, v) in pairs {
        p.insert(k.to_string(), v.to_string());
    }
    p
}

const SECRET: &str = "NhqPtmdSJYdKjVHjA7PZj4Mge3R5YNiP1e3UZjInClVN65XAbvqqM6A7H5fATj0j";

#[test]
fn query_is_sorted_and_form_encoded() {
    let p = params(&[("symbol", "BTC USDT"), ("note", "a&b=c/\u{fc}"), ("limit", "5")]);
    assert_eq!(build_request(&p), "limit=5&note=a%26b%3Dc%2F%C3%BC&symbol=BTC+USDT");
    assert_eq!(build_request(&ParameterSet::new()), "");
}

#[test]
fn hex_is_lower_case() {
    assert_eq!(hex_encode(&[0x00, 0x0f, 0xab, 0xff]), "000fabff");
    assert_eq!(hex_encode(&[]), "");
}

#[test]
fn signature_matches_exchange_example() {
    let q = "symbol=LTCBTC&side=BUY&type=LIMIT&timeInForce=GTC&quantity=1&price=0.1&recvWindow=5000&timestamp=1499827319559";
    let signed = sign_query(q, SECRET);
    assert_eq!(
        signed,
        format!("{}&signature=c8db56825ae71d6d79447849e617115f4a920fa2acdcab2b053c4b2838bd6b71", q)
    );
}

#[test]
fn signed_request_adds_window_and_timestamp() {
    let p = params(&[("symbol", "LTCBTC"), ("quantity", "1")]);
    let s = build_signed_request_custom(p, 5000, 1499827319559, SECRET);
    let expected_query = "quantity=1&recvWindow=5000&symbol=LTCBTC&timestamp=1499827319559";
    assert_eq!(s, sign_query(expected_query, SECRET));
    assert!(s.starts_with(expected_query));
    assert_eq!(s.len(), expected_query.len() + "&signature=".len() + 64);
}

#[test]
fn zero_window_is_left_out() {
    let s = build_signed_request_custom(params(&[("symbol", "X")]), 0, 42, SECRET);
    assert!(s.starts_with("symbol=X&timestamp=42&signature="));
}

#[test]
fn signing_twice_gives_identical_bytes() {
    let a = params(&[("symbol", "BTCUSDT"), ("side", "BUY"), ("type", "MARKET")]);
    let b = params(&[("type", "MARKET"), ("symbol", "BTCUSDT"), ("side", "BUY")]);
    let sa = build_signed_request_custom(a, 5000, 1700000000000, SECRET);
    let sb = build_signed_request_custom(b, 5000, 1700000000000, SECRET);
    assert_eq!(sa, sb);
    let sc = build_signed_request_custom(params(&[("symbol", "BTCUSDT")]), 5000, 1700000000001, SECRET);
    assert_ne!(sa, sc);
}

fn account() -> FuturesAccount {
    FuturesAccount { secret_key: Some(SECRET.to_string()), recv_window: 5000 }
}

#[test]
fn missing_secret_is_a_configuration_error() {
    let a = FuturesAccount { secret_key: None, recv_window: 5000 };
    assert!(matches!(a.get_order("BTCUSDT".to_string(), 1, 1), Err(Error::ConfigurationError(_))));
    assert!(matches!(a.account_balance(1), Err(Error::ConfigurationError(_))));
}

#[test]
fn get_order_request() {
    let r = account().get_order("BTCUSDT".to_string(), 42, 1700000000000).unwrap();
    assert_eq!(r.method, Method::Get);
    assert_eq!(r.endpoint, Endpoint::Order);
    assert_eq!(r.endpoint.path(), "/fapi/v1/order");
    let q = "orderId=42&recvWindow=5000&symbol=BTCUSDT&timestamp=1700000000000";
    assert_eq!(r.query, sign_query(q, SECRET));
}

#[test]
fn position_mode_uses_lower_case_flag() {
    let r = account().change_position_mode(true, 5).unwrap();
    assert_eq!(r.method, Method::Post);
    assert!(r.query.starts_with("dualSidePosition=true&recvWindow=5000&timestamp=5&signature="));
    let r = account().change_position_mode(false, 5).unwrap();
    assert!(r.query.starts_with("dualSidePosition=false&"));
}

#[test]
fn all_orders_includes_only_given_bounds() {
    let r = account().get_all_orders("ETHUSDT".to_string(), None, Some(10), None, Some(50), 7).unwrap();
    assert!(r.query.starts_with("limit=50&recvWindow=5000&startTime=10&symbol=ETHUSDT&timestamp=7&signature="));
    assert_eq!(r.endpoint, Endpoint::AllOrders);
}

#[test]
fn other_account_requests() {
    let a = account();
    let r = a.cancel_all_open_orders("BTCUSDT".to_string(), 1).unwrap();
    assert_eq!((r.method, r.endpoint), (Method::Delete, Endpoint::AllOpenOrders));
    assert!(r.query.starts_with("recvWindow=5000&symbol=BTCUSDT&timestamp=1&"));
    let r = a.get_all_open_orders("BTCUSDT".to_string(), 1).unwrap();
    assert_eq!((r.method, r.endpoint), (Method::Get, Endpoint::OpenOrders));
    let r = a.get_all_open_orders_for_all_symbols(1).unwrap();
    assert!(r.query.starts_with("recvWindow=5000&timestamp=1&signature="));
    let r = a.change_initial_leverage("BTCUSDT".to_string(), 20, 1).unwrap();
    assert!(r.query.starts_with("leverage=20&recvWindow=5000&symbol=BTCUSDT&timestamp=1&"));
    let r = a.cancel_order("BTCUSDT".to_string(), 9, 1).unwrap();
    assert_eq!(r.method, Method::Delete);
}

#[test]
fn order_placement_requests() {
    let a = account();
    let r = a.limit_buy("BTCUSDT".to_string(), "1.5".to_string(), "20000".to_string(), TimeInForce::GTC, 3).unwrap();
    assert!(r.query.starts_with(
        "price=20000&quantity=1.5&recvWindow=5000&side=BUY&symbol=BTCUSDT&timeInForce=GTC&timestamp=3&type=LIMIT&signature="
    ));
    let r = a.market_sell("BTCUSDT".to_string(), "2".to_string(), 3).unwrap();
    assert!(r.query.starts_with("quantity=2&recvWindow=5000&side=SELL&symbol=BTCUSDT&timestamp=3&type=MARKET&"));
    let r = a.stop_market_close_buy("BTCUSDT".to_string(), "19000".to_string(), 3).unwrap();
    assert!(r.query.starts_with(
        "closePosition=TRUE&recvWindow=5000&side=BUY&stopPrice=19000&symbol=BTCUSDT&timestamp=3&type=STOP_MARKET&"
    ));
}
