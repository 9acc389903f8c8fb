use binance::classify::{canceled_order_response, classify_response, empty_response, open_interest_hist_response, order_response, transaction_response};
use binance::errors::{BinanceContentError, Error};
use binance::events::{decode_frame, StreamEvent};
use binance::json::{number_field, JsonNumber, JsonValue};
use binance::kline::{decode_kline, kline_response};
use binance::model::{decode_open_interest, decode_order_book};
use binance::text::check_number_text;

fn json_of(b: &[u8]) -> Option<JsonValue> {
    classify_response(200, b).ok()
}

fn decode_error(status: Option<u16>, body: &str) -> Error {
    Error::DecodeError { status, body: body.as_bytes().to_vec() }
}

#[test]
fn number_read_the_same_from_string_or_number() {
    let a = json_of(br#"{"p":"20000.5"}"#).unwrap();
    let b = json_of(br#"{"p":20000.5}"#).unwrap();
    let ta = number_field(&a, "p").unwrap();
    let tb = number_field(&b, "p").unwrap();
    assert_eq!(ta, "20000.5");
    assert_eq!(ta, tb);
    let fa: f64 = ta.parse().unwrap();
    let fb: f64 = tb.parse().unwrap();
    assert_eq!(fa, 20000.5);
    assert_eq!(fa, fb);
}

#[test]
fn integers_read_as_decimal_text() {
    let v = json_of(br#"{"a":42,"b":-7,"c":true}"#).unwrap();
    assert_eq!(number_field(&v, "a").as_deref(), Some("42"));
    assert_eq!(number_field(&v, "b").as_deref(), Some("-7"));
    assert_eq!(number_field(&v, "c"), None);
    assert_eq!(number_field(&v, "d"), None);
}

#[test]
fn parser_model() {
    match classify_response(200, br#"[1,-2,1.5,"x",null,false]"#) {
        Ok(JsonValue::Array(items)) => {
            assert!(matches!(items[0], JsonValue::Number(JsonNumber::PosInt(1))));
            assert!(matches!(items[1], JsonValue::Number(JsonNumber::NegInt(-2))));
            assert!(matches!(&items[2], JsonValue::Number(JsonNumber::Float(t)) if t == "1.5"));
            assert!(matches!(&items[3], JsonValue::Str(s) if s == "x"));
            assert!(matches!(items[4], JsonValue::Null));
            assert!(matches!(items[5], JsonValue::Bool(false)));
        }
        _ => panic!("not an array"),
    }
    assert!(classify_response(200, b"{not json").is_err());
}

#[test]
fn business_error_is_kept() {
    let body = r#"{"code": -2010, "msg": "Account has insufficient balance"}"#;
    let r = classify_response(400, body.as_bytes());
    assert_eq!(
        r.err(),
        Some(Error::BinanceError(BinanceContentError {
            code: -2010,
            msg: "Account has insufficient balance".to_string()
        }))
    );
}

#[test]
fn unparsable_failure_is_a_decode_error() {
    let body = "<html>502 Bad Gateway</html>";
    assert_eq!(classify_response(502, body.as_bytes()).err(), Some(decode_error(Some(502), body)));
    let body = r#"{"code": 70000, "msg": "too big"}"#;
    assert_eq!(classify_response(400, body.as_bytes()).err(), Some(decode_error(Some(400), body)));
}

#[test]
fn missing_success_field_is_a_decode_error() {
    let body = r#"{"symbol":"BTCUSDT","sumOpenInterest":"20403.63700000","sumOpenInterestValue":"150570784.07809979"}"#;
    assert_eq!(open_interest_hist_response(200, body.as_bytes()).err(), Some(decode_error(Some(200), body)));
    let body = r#"{"symbol":"BTCUSDT","sumOpenInterest":"20403.637","sumOpenInterestValue":"1505.7","timestamp":1583127900000}"#;
    let h = open_interest_hist_response(200, body.as_bytes()).unwrap();
    assert_eq!(h.symbol, "BTCUSDT");
    assert_eq!(h.timestamp, 1583127900000);
}

#[test]
fn order_defaults_only_where_documented() {
    let body = r#"{"clientOrderId":"abc","cumQuote":"0","executedQty":"0","orderId":1917641,
        "avgPrice":"0.00000","origQty":"0.40","price":"0","side":"BUY","reduceOnly":false,
        "positionSide":"SHORT","status":"NEW","closePosition":false,"symbol":"BTCUSDT",
        "timeInForce":"GTC","type":"TRAILING_STOP_MARKET","origType":"TRAILING_STOP_MARKET",
        "updateTime":1579276756075,"workingType":"CONTRACT_PRICE","priceProtect":false}"#;
    let o = order_response(200, body.as_bytes()).unwrap();
    assert_eq!(o.cum_qty, "0");
    assert_eq!(o.stop_price, "0");
    assert_eq!(o.activation_price, "0");
    assert_eq!(o.price_rate, "0");
    assert_eq!(o.order_id, 1917641);
    assert_eq!(o.orig_qty, "0.40");
    let without_quote = body.replace(r#""cumQuote":"0","#, "");
    assert_eq!(order_response(200, without_quote.as_bytes()).err(), Some(decode_error(Some(200), &without_quote)));
}

#[test]
fn transaction_optional_prices() {
    let body = r#"{"clientOrderId":"x","cumQty":"0","cumQuote":"0","executedQty":"0","orderId":22542179,
        "avgPrice":"0.00000","origQty":"10","reduceOnly":false,"side":"BUY","positionSide":"SHORT",
        "status":"NEW","stopPrice":"9300","closePosition":false,"symbol":"BTCUSDT","timeInForce":"GTC",
        "type":"TRAILING_STOP_MARKET","origType":"TRAILING_STOP_MARKET","activatePrice":9020,
        "updateTime":1566818724722,"workingType":"CONTRACT_PRICE","priceProtect":false}"#;
    let t = transaction_response(200, body.as_bytes()).unwrap();
    assert_eq!(t.activate_price.as_deref(), Some("9020"));
    assert_eq!(t.price_rate, None);
    assert_eq!(t.stop_price, "9300");
}

#[test]
fn empty_answer() {
    assert_eq!(empty_response(200, b"{}"), Ok(()));
    assert_eq!(empty_response(200, b"[]").err(), Some(decode_error(Some(200), "[]")));
}

#[test]
fn account_update_frame() {
    let frame = r#"{"e":"ACCOUNT_UPDATE","E":1564745798939,"T":1564745798938,"a":{"m":"ORDER",
        "B":[{"a":"USDT","wb":"122624.12345678","cw":"100.12345678","bc":"50.12345678"}],
        "P":[{"s":"BTCUSDT","pa":"0","ep":"0.00000","cr":"200","up":"0","mt":"isolated","iw":"0.00000000","ps":"BOTH","ma":"USDT"}]}}"#;
    match decode_frame(frame.as_bytes()) {
        Ok(StreamEvent::AccountUpdate(ev)) => {
            assert_eq!(ev.event_time, 1564745798939);
            assert_eq!(ev.update_data.reason_type, "ORDER");
            assert_eq!(ev.update_data.balances[0].wallet_balance, "122624.12345678");
            assert_eq!(ev.update_data.positions[0].symbol, "BTCUSDT");
        }
        other => panic!("unexpected {:?}", other),
    }
}

#[test]
fn unknown_event_is_a_decode_error() {
    let frame = r#"{"e":"UNKNOWN_FUTURE_EVENT","E":1}"#;
    assert_eq!(decode_frame(frame.as_bytes()).err(), Some(decode_error(None, frame)));
    let frame = r#"{"E":1}"#;
    assert_eq!(decode_frame(frame.as_bytes()).err(), Some(decode_error(None, frame)));
}

#[test]
fn config_update_frames() {
    let lev = r#"{"e":"ACCOUNT_CONFIG_UPDATE","E":1611646737479,"T":1611646737476,"ac":{"s":"BTCUSDT","l":25}}"#;
    match decode_frame(lev.as_bytes()) {
        Ok(StreamEvent::LeverageUpdate(ev)) => assert_eq!(ev.update_data.leverage, 25),
        other => panic!("unexpected {:?}", other),
    }
    let multi = r#"{"e":"ACCOUNT_CONFIG_UPDATE","E":1611646737479,"T":1611646737476,"ai":{"j":true}}"#;
    match decode_frame(multi.as_bytes()) {
        Ok(StreamEvent::MultiAssetsMarginUpdate(ev)) => assert!(ev.update_data.enabled),
        other => panic!("unexpected {:?}", other),
    }
    let expired = r#"{"e":"listenKeyExpired","E":1576653824250}"#;
    assert!(matches!(decode_frame(expired.as_bytes()), Ok(StreamEvent::ListenKeyExpired(_))));
}

#[test]
fn order_trade_frame() {
    let frame = r#"{"e":"ORDER_TRADE_UPDATE","E":1568879465651,"T":1568879465650,"o":{"s":"BTCUSDT",
        "c":"TEST","S":"SELL","o":"TRAILING_STOP_MARKET","f":"GTC","q":"0.001","p":"0","ap":"0",
        "sp":"7103.04","x":"NEW","X":"NEW","i":8886774,"l":"0","z":"0","L":"0","N":"USDT","n":"0",
        "T":1568879465651,"t":0,"b":"0","a":"9.91","m":false,"R":false,"wt":"CONTRACT_PRICE",
        "ot":"TRAILING_STOP_MARKET","ps":"LONG","cp":false,"AP":"7476.89","cr":"5.0","pP":false,
        "si":0,"ss":0,"rp":"0"}}"#;
    match decode_frame(frame.as_bytes()) {
        Ok(StreamEvent::OrderTradeUpdate(ev)) => {
            assert_eq!(ev.order.order_id, 8886774);
            assert_eq!(ev.order.activation_price.as_deref(), Some("7476.89"));
            assert_eq!(ev.order.callback_rate.as_deref(), Some("5.0"));
            assert_eq!(ev.order.asset_commisioned, None);
            assert_eq!(ev.order.commission.as_deref(), Some("0"));
        }
        other => panic!("unexpected {:?}", other),
    }
}

#[test]
fn margin_call_frame() {
    let frame = r#"{"e":"MARGIN_CALL","E":1587727187525,"cw":"3.16812045","p":[{"s":"ETHUSDT","ps":"LONG",
        "pa":"1.327","mt":"CROSSED","iw":"0","mp":"187.17127","up":"-1.166074","mm":"1.614445"}]}"#;
    match decode_frame(frame.as_bytes()) {
        Ok(StreamEvent::MarginCall(ev)) => {
            assert_eq!(ev.cross_wallet_balance, "3.16812045");
            assert_eq!(ev.positions[0].maintenance_margin, "1.614445");
        }
        other => panic!("unexpected {:?}", other),
    }
}

#[test]
fn kline_missing_close() {
    let row = match classify_response(200, br#"[1499040000000,"0.01634790","0.80000000","0.01575800"]"#) {
        Ok(JsonValue::Array(items)) => items,
        _ => panic!("not an array"),
    };
    assert_eq!(
        decode_kline(&row).err(),
        Some(Error::KlineValueMissingError { index: 4, name: "close".to_string() })
    );
}

#[test]
fn kline_wrong_type_and_full_row() {
    let row = match classify_response(200, br#"[1499040000000,"0.016","0.8","0.015","0.015","148976.1",1499644799999,"2434.1",308,"1756.8","28.4","17928899.6"]"#) {
        Ok(JsonValue::Array(items)) => items,
        _ => panic!("not an array"),
    };
    let k = decode_kline(&row).unwrap();
    assert_eq!(k.open_time, 1499040000000);
    assert_eq!(k.close, "0.015");
    assert_eq!(k.number_of_trades, 308);
    let bad = match classify_response(200, br#"[1499040000000,0.016]"#) {
        Ok(JsonValue::Array(items)) => items,
        _ => panic!("not an array"),
    };
    assert_eq!(decode_kline(&bad).err(), Some(Error::KlineValueMissingError { index: 1, name: "open".to_string() }));
}

#[test]
fn malformed_number_text_is_refused() {
    let v = json_of(br#"{"a":"12a","b":".","c":"1e-7","d":"-.5","e":"5.","f":"1e","g":""}"#).unwrap();
    assert_eq!(number_field(&v, "a"), None);
    assert_eq!(number_field(&v, "b"), None);
    assert_eq!(number_field(&v, "c").as_deref(), Some("1e-7"));
    assert_eq!(number_field(&v, "d").as_deref(), Some("-.5"));
    assert_eq!(number_field(&v, "e").as_deref(), Some("5."));
    assert_eq!(number_field(&v, "f"), None);
    assert_eq!(number_field(&v, "g"), None);
    assert!(check_number_text("+20000.50"));
    assert!(!check_number_text("1.2.3"));
    assert!(!check_number_text("NaN"));
}

#[test]
fn malformed_number_in_response_is_a_decode_error() {
    let body = r#"{"openInterest":"10659.509x","symbol":"BTCUSDT"}"#;
    let v = classify_response(200, body.as_bytes()).unwrap();
    assert!(decode_open_interest(&v).is_none());
    let good = classify_response(200, br#"{"openInterest":"10659.509","symbol":"BTCUSDT"}"#).unwrap();
    assert_eq!(decode_open_interest(&good).unwrap().open_interest, "10659.509");
}

#[test]
fn order_book_levels_are_positional() {
    let body = br#"{"lastUpdateId":1027024,"E":1589436922972,"T":1589436922959,
        "bids":[["4.00000000","431.00000000"]],"asks":[["4.00000200","12.00000000"],[5,"1"]]}"#;
    let v = classify_response(200, body).unwrap();
    let book = decode_order_book(&v).unwrap();
    assert_eq!(book.last_update_id, 1027024);
    assert_eq!(book.bids[0].price, "4.00000000");
    assert_eq!(book.asks[1].price, "5");
    assert_eq!(book.asks[1].qty, "1");
    let bad = classify_response(200, br#"{"lastUpdateId":1,"E":1,"T":1,"bids":[["4"]],"asks":[]}"#).unwrap();
    assert!(decode_order_book(&bad).is_none());
}

#[test]
fn kline_response_reads_rows_in_order() {
    let full = r#"[1499040000000,"0.016","0.8","0.015","0.015","148976.1",1499644799999,"2434.1",308,"1756.8","28.4","0"]"#;
    let short = r#"[1499040000000,"0.016","0.8","0.015"]"#;
    let body = format!("[{},{}]", full, full);
    let ks = kline_response(200, body.as_bytes()).unwrap();
    assert_eq!(ks.len(), 2);
    assert_eq!(ks[1].close_time, 1499644799999);
    let body = format!("[{},{}]", full, short);
    assert_eq!(
        kline_response(200, body.as_bytes()).err(),
        Some(Error::KlineValueMissingError { index: 4, name: "close".to_string() })
    );
    let body = format!("[{},5]", full);
    assert_eq!(kline_response(200, body.as_bytes()).err(), Some(decode_error(Some(200), &body)));
    assert_eq!(kline_response(200, b"{}").err(), Some(decode_error(Some(200), "{}")));
    let body = r#"{"code":-1121,"msg":"Invalid symbol."}"#;
    assert_eq!(
        kline_response(400, body.as_bytes()).err(),
        Some(Error::BinanceError(BinanceContentError { code: -1121, msg: "Invalid symbol.".to_string() }))
    );
}

#[test]
fn optional_number_null_is_none() {
    let body = r#"{"clientOrderId":"x","cumQty":"0","cumQuote":"0","executedQty":"0","orderId":1,
        "origQty":"10","origType":"LIMIT","price":"9000","reduceOnly":false,"side":"BUY","positionSide":"BOTH",
        "status":"CANCELED","stopPrice":"0","closePosition":false,"symbol":"BTCUSDT","timeInForce":"GTC",
        "type":"LIMIT","activatePrice":null,"priceRate":"0.3","updateTime":1,"workingType":"CONTRACT_PRICE","priceProtect":false}"#;
    let c = canceled_order_response(200, body.as_bytes()).unwrap();
    assert_eq!(c.activate_price, None);
    assert_eq!(c.price_rate.as_deref(), Some("0.3"));
    let bad = body.replace(r#""priceRate":"0.3""#, r#""priceRate":"fast""#);
    assert_eq!(canceled_order_response(200, bad.as_bytes()).err(), Some(decode_error(Some(200), &bad)));
}
