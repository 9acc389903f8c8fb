//! Typed responses and stream payloads, each read from a JSON value by a
//! decoder whose contract fixes every field. Numbers that the exchange may
//! send as strings are kept as their decimal text.
use vstd::prelude::*;
use crate::json::{
    bool_field, field, i64_field, int_field_in, json_bool, json_field, json_int_in, json_number_text,
    json_opt_bool, json_opt_text, json_text, number_field, opt_bool_field, opt_text_field, text_field,
    u64_field, JsonValue, json_flag, flag_field, number_text,
};
use crate::order::opt_view;

verus! {

/// Open interest at one point of its history.
#[derive(Debug)]
pub struct OpenInterestHist {
    pub symbol: String,
    pub sum_open_interest: String,
    pub sum_open_interest_value: String,
    pub timestamp: u64,
}

/// The JSON value holds every member that `OpenInterestHist` needs, each of the right type.
pub open spec fn open_interest_hist_decodes(v: JsonValue) -> bool {
    &&& json_text(json_field(v, "symbol"@)) is Some
    &&& json_text(json_field(v, "sumOpenInterest"@)) is Some
    &&& json_text(json_field(v, "sumOpenInterestValue"@)) is Some
    &&& json_int_in(json_field(v, "timestamp"@), 0, u64::MAX as int) is Some
}

/// `x` holds exactly what the JSON value says.
pub open spec fn open_interest_hist_matches(v: JsonValue, x: OpenInterestHist) -> bool {
    &&& json_text(json_field(v, "symbol"@)) == Some(x.symbol@)
    &&& json_text(json_field(v, "sumOpenInterest"@)) == Some(x.sum_open_interest@)
    &&& json_text(json_field(v, "sumOpenInterestValue"@)) == Some(x.sum_open_interest_value@)
    &&& json_int_in(json_field(v, "timestamp"@), 0, u64::MAX as int) == Some(x.timestamp as int)
}

/// Reads `OpenInterestHist` from its JSON object; `None` where a member is missing or mistyped.
pub fn decode_open_interest_hist(v: &JsonValue) -> (r: Option<OpenInterestHist>)
    ensures
        r is Some <==> open_interest_hist_decodes(*v),
        r matches Some(x) ==> open_interest_hist_matches(*v, x),
{
    let symbol = match text_field(v, "symbol") { Some(x) => x, None => return None };
    let sum_open_interest = match text_field(v, "sumOpenInterest") { Some(x) => x, None => return None };
    let sum_open_interest_value = match text_field(v, "sumOpenInterestValue") { Some(x) => x, None => return None };
    let timestamp = match u64_field(v, "timestamp") { Some(x) => x, None => return None };
    Some(OpenInterestHist { symbol, sum_open_interest, sum_open_interest_value, timestamp })
}

/// An order as the exchange reports it.
#[derive(Debug)]
pub struct Order {
    pub client_order_id: String,
    /// `"0"` when the exchange leaves it out.
    pub cum_qty: String,
    pub cum_quote: String,
    pub executed_qty: String,
    pub order_id: u64,
    pub avg_price: String,
    pub orig_qty: String,
    pub price: String,
    pub side: String,
    pub reduce_only: bool,
    pub position_side: String,
    pub status: String,
    /// `"0"` when the exchange leaves it out.
    pub stop_price: String,
    pub close_position: bool,
    pub symbol: String,
    pub time_in_force: String,
    pub order_type: String,
    pub orig_type: String,
    /// `"0"` when the exchange leaves it out.
    pub activation_price: String,
    /// `"0"` when the exchange leaves it out.
    pub price_rate: String,
    pub update_time: u64,
    pub working_type: String,
    pub price_protect: bool,
}

/// The JSON value holds every member that `Order` needs, each of the right type.
pub open spec fn order_decodes(v: JsonValue) -> bool {
    &&& json_text(json_field(v, "clientOrderId"@)) is Some
    &&& (json_field(v, "cumQty"@) is None || json_number_text(json_field(v, "cumQty"@)) is Some)
    &&& json_number_text(json_field(v, "cumQuote"@)) is Some
    &&& json_number_text(json_field(v, "executedQty"@)) is Some
    &&& json_int_in(json_field(v, "orderId"@), 0, u64::MAX as int) is Some
    &&& json_number_text(json_field(v, "avgPrice"@)) is Some
    &&& json_number_text(json_field(v, "origQty"@)) is Some
    &&& json_number_text(json_field(v, "price"@)) is Some
    &&& json_text(json_field(v, "side"@)) is Some
    &&& json_bool(json_field(v, "reduceOnly"@)) is Some
    &&& json_text(json_field(v, "positionSide"@)) is Some
    &&& json_text(json_field(v, "status"@)) is Some
    &&& (json_field(v, "stopPrice"@) is None || json_number_text(json_field(v, "stopPrice"@)) is Some)
    &&& json_bool(json_field(v, "closePosition"@)) is Some
    &&& json_text(json_field(v, "symbol"@)) is Some
    &&& json_text(json_field(v, "timeInForce"@)) is Some
    &&& json_text(json_field(v, "type"@)) is Some
    &&& json_text(json_field(v, "origType"@)) is Some
    &&& (json_field(v, "activationPrice"@) is None || json_number_text(json_field(v, "activationPrice"@)) is Some)
    &&& (json_field(v, "priceRate"@) is None || json_number_text(json_field(v, "priceRate"@)) is Some)
    &&& json_int_in(json_field(v, "updateTime"@), 0, u64::MAX as int) is Some
    &&& json_text(json_field(v, "workingType"@)) is Some
    &&& json_bool(json_field(v, "priceProtect"@)) is Some
}

/// `x` holds exactly what the JSON value says.
pub open spec fn order_matches(v: JsonValue, x: Order) -> bool {
    &&& json_text(json_field(v, "clientOrderId"@)) == Some(x.client_order_id@)
    &&& (if json_field(v, "cumQty"@) is None { x.cum_qty@ == "0"@ } else { json_number_text(json_field(v, "cumQty"@)) == Some(x.cum_qty@) })
    &&& json_number_text(json_field(v, "cumQuote"@)) == Some(x.cum_quote@)
    &&& json_number_text(json_field(v, "executedQty"@)) == Some(x.executed_qty@)
    &&& json_int_in(json_field(v, "orderId"@), 0, u64::MAX as int) == Some(x.order_id as int)
    &&& json_number_text(json_field(v, "avgPrice"@)) == Some(x.avg_price@)
    &&& json_number_text(json_field(v, "origQty"@)) == Some(x.orig_qty@)
    &&& json_number_text(json_field(v, "price"@)) == Some(x.price@)
    &&& json_text(json_field(v, "side"@)) == Some(x.side@)
    &&& json_bool(json_field(v, "reduceOnly"@)) == Some(x.reduce_only)
    &&& json_text(json_field(v, "positionSide"@)) == Some(x.position_side@)
    &&& json_text(json_field(v, "status"@)) == Some(x.status@)
    &&& (if json_field(v, "stopPrice"@) is None { x.stop_price@ == "0"@ } else { json_number_text(json_field(v, "stopPrice"@)) == Some(x.stop_price@) })
    &&& json_bool(json_field(v, "closePosition"@)) == Some(x.close_position)
    &&& json_text(json_field(v, "symbol"@)) == Some(x.symbol@)
    &&& json_text(json_field(v, "timeInForce"@)) == Some(x.time_in_force@)
    &&& json_text(json_field(v, "type"@)) == Some(x.order_type@)
    &&& json_text(json_field(v, "origType"@)) == Some(x.orig_type@)
    &&& (if json_field(v, "activationPrice"@) is None { x.activation_price@ == "0"@ } else { json_number_text(json_field(v, "activationPrice"@)) == Some(x.activation_price@) })
    &&& (if json_field(v, "priceRate"@) is None { x.price_rate@ == "0"@ } else { json_number_text(json_field(v, "priceRate"@)) == Some(x.price_rate@) })
    &&& json_int_in(json_field(v, "updateTime"@), 0, u64::MAX as int) == Some(x.update_time as int)
    &&& json_text(json_field(v, "workingType"@)) == Some(x.working_type@)
    &&& json_bool(json_field(v, "priceProtect"@)) == Some(x.price_protect)
}

/// Reads `Order` from its JSON object; `None` where a member is missing or mistyped.
pub fn decode_order(v: &JsonValue) -> (r: Option<Order>)
    ensures
        r is Some <==> order_decodes(*v),
        r matches Some(x) ==> order_matches(*v, x),
{
    proof {
        reveal_strlit("0");
    }
    let client_order_id = match text_field(v, "clientOrderId") { Some(x) => x, None => return None };
    let cum_qty = match field(v, "cumQty") { None => String::from_str("0"), Some(_) => match number_field(v, "cumQty") { Some(x) => x, None => return None } };
    let cum_quote = match number_field(v, "cumQuote") { Some(x) => x, None => return None };
    let executed_qty = match number_field(v, "executedQty") { Some(x) => x, None => return None };
    let order_id = match u64_field(v, "orderId") { Some(x) => x, None => return None };
    let avg_price = match number_field(v, "avgPrice") { Some(x) => x, None => return None };
    let orig_qty = match number_field(v, "origQty") { Some(x) => x, None => return None };
    let price = match number_field(v, "price") { Some(x) => x, None => return None };
    let side = match text_field(v, "side") { Some(x) => x, None => return None };
    let reduce_only = match bool_field(v, "reduceOnly") { Some(x) => x, None => return None };
    let position_side = match text_field(v, "positionSide") { Some(x) => x, None => return None };
    let status = match text_field(v, "status") { Some(x) => x, None => return None };
    let stop_price = match field(v, "stopPrice") { None => String::from_str("0"), Some(_) => match number_field(v, "stopPrice") { Some(x) => x, None => return None } };
    let close_position = match bool_field(v, "closePosition") { Some(x) => x, None => return None };
    let symbol = match text_field(v, "symbol") { Some(x) => x, None => return None };
    let time_in_force = match text_field(v, "timeInForce") { Some(x) => x, None => return None };
    let order_type = match text_field(v, "type") { Some(x) => x, None => return None };
    let orig_type = match text_field(v, "origType") { Some(x) => x, None => return None };
    let activation_price = match field(v, "activationPrice") { None => String::from_str("0"), Some(_) => match number_field(v, "activationPrice") { Some(x) => x, None => return None } };
    let price_rate = match field(v, "priceRate") { None => String::from_str("0"), Some(_) => match number_field(v, "priceRate") { Some(x) => x, None => return None } };
    let update_time = match u64_field(v, "updateTime") { Some(x) => x, None => return None };
    let working_type = match text_field(v, "workingType") { Some(x) => x, None => return None };
    let price_protect = match bool_field(v, "priceProtect") { Some(x) => x, None => return None };
    Some(Order {
        client_order_id,
        cum_qty,
        cum_quote,
        executed_qty,
        order_id,
        avg_price,
        orig_qty,
        price,
        side,
        reduce_only,
        position_side,
        status,
        stop_price,
        close_position,
        symbol,
        time_in_force,
        order_type,
        orig_type,
        activation_price,
        price_rate,
        update_time,
        working_type,
        price_protect,
    })
}

/// A JSON array whose every element is a `Order`.
pub open spec fn order_list_decodes(f: Option<JsonValue>) -> bool {
    match f {
        Some(JsonValue::Array(a)) => forall|i: int| 0 <= i < a@.len() ==> order_decodes(#[trigger] a@[i]),
        _ => false,
    }
}

/// `xs` holds the array's elements, in order.
pub open spec fn order_list_matches(f: Option<JsonValue>, xs: Vec<Order>) -> bool {
    match f {
        Some(JsonValue::Array(a)) => xs@.len() == a@.len() && forall|i: int|
            0 <= i < a@.len() ==> order_matches(#[trigger] a@[i], xs@[i]),
        _ => false,
    }
}

/// Reads an array of `Order`; `None` unless every element reads.
pub fn decode_order_list(f: Option<&JsonValue>) -> (r: Option<Vec<Order>>)
    ensures
        r is Some <==> order_list_decodes(match f { Some(x) => Some(*x), None => None }),
        r matches Some(xs) ==> order_list_matches(match f { Some(x) => Some(*x), None => None }, xs),
{
    match f {
        Some(JsonValue::Array(a)) => {
            let mut out: Vec<Order> = Vec::new();
            let mut i: usize = 0;
            while i < a.len()
                invariant
                    i <= a@.len(),
                    match f { Some(x) => *x == JsonValue::Array(*a), None => false },
                    out@.len() == i,
                    forall|j: int| 0 <= j < i ==> order_decodes(#[trigger] a@[j]),
                    forall|j: int| 0 <= j < i ==> order_matches(#[trigger] a@[j], out@[j]),
                decreases a@.len() - i,
            {
                match decode_order(&a[i]) {
                    Some(x) => out.push(x),
                    None => {
                        proof {
                            let fv = match f { Some(x) => Some(*x), None => None };
                            assert(fv == Some(JsonValue::Array(*a)));
                            assert(!order_decodes(a@[i as int]));
                            let aa = fv->0->Array_0;
                            assert(aa == *a);
                            assert(aa@ == a@);
                            assert(aa@[i as int] == a@[i as int]);
                            assert(!order_decodes(aa@[i as int]));
                            assert(!order_list_decodes(fv));
                        }
                        return None;
                    },
                }
                i = i + 1;
            }
            Some(out)
        },
        _ => None,
    }
}

/// The order part of an order update event.
#[derive(Debug)]
pub struct OrderUpdate {
    pub symbol: String,
    pub new_client_order_id: String,
    pub side: String,
    pub order_type: String,
    pub time_in_force: String,
    pub qty: String,
    pub price: String,
    pub average_price: String,
    pub stop_price: String,
    pub execution_type: String,
    pub order_status: String,
    pub order_id: u64,
    pub qty_last_filled_trade: String,
    pub accumulated_qty_filled_trades: String,
    pub price_last_filled_trade: String,
    /// Never read from the wire.
    pub asset_commisioned: Option<String>,
    pub commission: Option<String>,
    pub trade_order_time: u64,
    pub trade_id: i64,
    pub bids_notional: String,
    pub ask_notional: String,
    pub is_buyer_maker: bool,
    pub is_reduce_only: bool,
    pub stop_price_working_type: String,
    pub original_order_type: String,
    pub position_side: String,
    pub close_all: Option<bool>,
    /// Sent on trailing-stop orders only.
    pub activation_price: Option<String>,
    /// Sent on trailing-stop orders only.
    pub callback_rate: Option<String>,
    pub pp_ignore: bool,
    pub si_ignore: i32,
    pub ss_ignore: i32,
    pub rp_ignore: String,
}

/// The JSON value holds every member that `OrderUpdate` needs, each of the right type.
pub open spec fn order_update_decodes(v: JsonValue) -> bool {
    &&& json_text(json_field(v, "s"@)) is Some
    &&& json_text(json_field(v, "c"@)) is Some
    &&& json_text(json_field(v, "S"@)) is Some
    &&& json_text(json_field(v, "o"@)) is Some
    &&& json_text(json_field(v, "f"@)) is Some
    &&& json_text(json_field(v, "q"@)) is Some
    &&& json_text(json_field(v, "p"@)) is Some
    &&& json_text(json_field(v, "ap"@)) is Some
    &&& json_text(json_field(v, "sp"@)) is Some
    &&& json_text(json_field(v, "x"@)) is Some
    &&& json_text(json_field(v, "X"@)) is Some
    &&& json_int_in(json_field(v, "i"@), 0, u64::MAX as int) is Some
    &&& json_text(json_field(v, "l"@)) is Some
    &&& json_text(json_field(v, "z"@)) is Some
    &&& json_text(json_field(v, "L"@)) is Some
    &&& json_opt_text(json_field(v, "n"@)) is Some
    &&& json_int_in(json_field(v, "T"@), 0, u64::MAX as int) is Some
    &&& json_int_in(json_field(v, "t"@), i64::MIN as int, i64::MAX as int) is Some
    &&& json_text(json_field(v, "b"@)) is Some
    &&& json_text(json_field(v, "a"@)) is Some
    &&& json_bool(json_field(v, "m"@)) is Some
    &&& json_bool(json_field(v, "R"@)) is Some
    &&& json_text(json_field(v, "wt"@)) is Some
    &&& json_text(json_field(v, "ot"@)) is Some
    &&& json_text(json_field(v, "ps"@)) is Some
    &&& json_opt_bool(json_field(v, "cp"@)) is Some
    &&& json_opt_text(json_field(v, "AP"@)) is Some
    &&& json_opt_text(json_field(v, "cr"@)) is Some
    &&& json_bool(json_field(v, "pP"@)) is Some
    &&& json_int_in(json_field(v, "si"@), -2147483648, 2147483647) is Some
    &&& json_int_in(json_field(v, "ss"@), -2147483648, 2147483647) is Some
    &&& json_text(json_field(v, "rp"@)) is Some
}

/// `x` holds exactly what the JSON value says.
pub open spec fn order_update_matches(v: JsonValue, x: OrderUpdate) -> bool {
    &&& json_text(json_field(v, "s"@)) == Some(x.symbol@)
    &&& json_text(json_field(v, "c"@)) == Some(x.new_client_order_id@)
    &&& json_text(json_field(v, "S"@)) == Some(x.side@)
    &&& json_text(json_field(v, "o"@)) == Some(x.order_type@)
    &&& json_text(json_field(v, "f"@)) == Some(x.time_in_force@)
    &&& json_text(json_field(v, "q"@)) == Some(x.qty@)
    &&& json_text(json_field(v, "p"@)) == Some(x.price@)
    &&& json_text(json_field(v, "ap"@)) == Some(x.average_price@)
    &&& json_text(json_field(v, "sp"@)) == Some(x.stop_price@)
    &&& json_text(json_field(v, "x"@)) == Some(x.execution_type@)
    &&& json_text(json_field(v, "X"@)) == Some(x.order_status@)
    &&& json_int_in(json_field(v, "i"@), 0, u64::MAX as int) == Some(x.order_id as int)
    &&& json_text(json_field(v, "l"@)) == Some(x.qty_last_filled_trade@)
    &&& json_text(json_field(v, "z"@)) == Some(x.accumulated_qty_filled_trades@)
    &&& json_text(json_field(v, "L"@)) == Some(x.price_last_filled_trade@)
    &&& x.asset_commisioned is None
    &&& json_opt_text(json_field(v, "n"@)) == Some(opt_view(x.commission))
    &&& json_int_in(json_field(v, "T"@), 0, u64::MAX as int) == Some(x.trade_order_time as int)
    &&& json_int_in(json_field(v, "t"@), i64::MIN as int, i64::MAX as int) == Some(x.trade_id as int)
    &&& json_text(json_field(v, "b"@)) == Some(x.bids_notional@)
    &&& json_text(json_field(v, "a"@)) == Some(x.ask_notional@)
    &&& json_bool(json_field(v, "m"@)) == Some(x.is_buyer_maker)
    &&& json_bool(json_field(v, "R"@)) == Some(x.is_reduce_only)
    &&& json_text(json_field(v, "wt"@)) == Some(x.stop_price_working_type@)
    &&& json_text(json_field(v, "ot"@)) == Some(x.original_order_type@)
    &&& json_text(json_field(v, "ps"@)) == Some(x.position_side@)
    &&& json_opt_bool(json_field(v, "cp"@)) == Some(x.close_all)
    &&& json_opt_text(json_field(v, "AP"@)) == Some(opt_view(x.activation_price))
    &&& json_opt_text(json_field(v, "cr"@)) == Some(opt_view(x.callback_rate))
    &&& json_bool(json_field(v, "pP"@)) == Some(x.pp_ignore)
    &&& json_int_in(json_field(v, "si"@), -2147483648, 2147483647) == Some(x.si_ignore as int)
    &&& json_int_in(json_field(v, "ss"@), -2147483648, 2147483647) == Some(x.ss_ignore as int)
    &&& json_text(json_field(v, "rp"@)) == Some(x.rp_ignore@)
}

/// Reads `OrderUpdate` from its JSON object; `None` where a member is missing or mistyped.
pub fn decode_order_update(v: &JsonValue) -> (r: Option<OrderUpdate>)
    ensures
        r is Some <==> order_update_decodes(*v),
        r matches Some(x) ==> order_update_matches(*v, x),
{
    let symbol = match text_field(v, "s") { Some(x) => x, None => return None };
    let new_client_order_id = match text_field(v, "c") { Some(x) => x, None => return None };
    let side = match text_field(v, "S") { Some(x) => x, None => return None };
    let order_type = match text_field(v, "o") { Some(x) => x, None => return None };
    let time_in_force = match text_field(v, "f") { Some(x) => x, None => return None };
    let qty = match text_field(v, "q") { Some(x) => x, None => return None };
    let price = match text_field(v, "p") { Some(x) => x, None => return None };
    let average_price = match text_field(v, "ap") { Some(x) => x, None => return None };
    let stop_price = match text_field(v, "sp") { Some(x) => x, None => return None };
    let execution_type = match text_field(v, "x") { Some(x) => x, None => return None };
    let order_status = match text_field(v, "X") { Some(x) => x, None => return None };
    let order_id = match u64_field(v, "i") { Some(x) => x, None => return None };
    let qty_last_filled_trade = match text_field(v, "l") { Some(x) => x, None => return None };
    let accumulated_qty_filled_trades = match text_field(v, "z") { Some(x) => x, None => return None };
    let price_last_filled_trade = match text_field(v, "L") { Some(x) => x, None => return None };
    let asset_commisioned: Option<String> = None;
    let commission = match opt_text_field(v, "n") { Some(x) => x, None => return None };
    let trade_order_time = match u64_field(v, "T") { Some(x) => x, None => return None };
    let trade_id = match i64_field(v, "t") { Some(x) => x, None => return None };
    let bids_notional = match text_field(v, "b") { Some(x) => x, None => return None };
    let ask_notional = match text_field(v, "a") { Some(x) => x, None => return None };
    let is_buyer_maker = match bool_field(v, "m") { Some(x) => x, None => return None };
    let is_reduce_only = match bool_field(v, "R") { Some(x) => x, None => return None };
    let stop_price_working_type = match text_field(v, "wt") { Some(x) => x, None => return None };
    let original_order_type = match text_field(v, "ot") { Some(x) => x, None => return None };
    let position_side = match text_field(v, "ps") { Some(x) => x, None => return None };
    let close_all = match opt_bool_field(v, "cp") { Some(x) => x, None => return None };
    let activation_price = match opt_text_field(v, "AP") { Some(x) => x, None => return None };
    let callback_rate = match opt_text_field(v, "cr") { Some(x) => x, None => return None };
    let pp_ignore = match bool_field(v, "pP") { Some(x) => x, None => return None };
    let si_ignore = match int_field_in(v, "si", -2147483648, 2147483647) { Some(x) => x as i32, None => return None };
    let ss_ignore = match int_field_in(v, "ss", -2147483648, 2147483647) { Some(x) => x as i32, None => return None };
    let rp_ignore = match text_field(v, "rp") { Some(x) => x, None => return None };
    Some(OrderUpdate {
        symbol,
        new_client_order_id,
        side,
        order_type,
        time_in_force,
        qty,
        price,
        average_price,
        stop_price,
        execution_type,
        order_status,
        order_id,
        qty_last_filled_trade,
        accumulated_qty_filled_trades,
        price_last_filled_trade,
        asset_commisioned,
        commission,
        trade_order_time,
        trade_id,
        bids_notional,
        ask_notional,
        is_buyer_maker,
        is_reduce_only,
        stop_price_working_type,
        original_order_type,
        position_side,
        close_all,
        activation_price,
        callback_rate,
        pp_ignore,
        si_ignore,
        ss_ignore,
        rp_ignore,
    })
}

/// An order was placed, traded, cancelled or expired.
#[derive(Debug)]
pub struct OrderTradeEvent {
    pub event_type: String,
    pub event_time: u64,
    pub transaction_time: u64,
    pub order: OrderUpdate,
}

/// The JSON value holds every member that `OrderTradeEvent` needs, each of the right type.
pub open spec fn order_trade_event_decodes(v: JsonValue) -> bool {
    &&& json_text(json_field(v, "e"@)) is Some
    &&& json_int_in(json_field(v, "E"@), 0, u64::MAX as int) is Some
    &&& json_int_in(json_field(v, "T"@), 0, u64::MAX as int) is Some
    &&& (json_field(v, "o"@) is Some && order_update_decodes(json_field(v, "o"@)->0))
}

/// `x` holds exactly what the JSON value says.
pub open spec fn order_trade_event_matches(v: JsonValue, x: OrderTradeEvent) -> bool {
    &&& json_text(json_field(v, "e"@)) == Some(x.event_type@)
    &&& json_int_in(json_field(v, "E"@), 0, u64::MAX as int) == Some(x.event_time as int)
    &&& json_int_in(json_field(v, "T"@), 0, u64::MAX as int) == Some(x.transaction_time as int)
    &&& order_update_matches(json_field(v, "o"@)->0, x.order)
}

/// Reads `OrderTradeEvent` from its JSON object; `None` where a member is missing or mistyped.
pub fn decode_order_trade_event(v: &JsonValue) -> (r: Option<OrderTradeEvent>)
    ensures
        r is Some <==> order_trade_event_decodes(*v),
        r matches Some(x) ==> order_trade_event_matches(*v, x),
{
    let event_type = match text_field(v, "e") { Some(x) => x, None => return None };
    let event_time = match u64_field(v, "E") { Some(x) => x, None => return None };
    let transaction_time = match u64_field(v, "T") { Some(x) => x, None => return None };
    let order = match field(v, "o") { Some(x) => match decode_order_update(x) { Some(y) => y, None => return None }, None => return None };
    Some(OrderTradeEvent { event_type, event_time, transaction_time, order })
}

/// A balance change inside an account update.
#[derive(Debug)]
pub struct EventBalanceUpdate {
    pub asset: String,
    pub wallet_balance: String,
    pub cross_wallet_balance: String,
    pub balance_change: String,
}

/// The JSON value holds every member that `EventBalanceUpdate` needs, each of the right type.
pub open spec fn event_balance_update_decodes(v: JsonValue) -> bool {
    &&& json_text(json_field(v, "a"@)) is Some
    &&& json_number_text(json_field(v, "wb"@)) is Some
    &&& json_number_text(json_field(v, "cw"@)) is Some
    &&& json_number_text(json_field(v, "bc"@)) is Some
}

/// `x` holds exactly what the JSON value says.
pub open spec fn event_balance_update_matches(v: JsonValue, x: EventBalanceUpdate) -> bool {
    &&& json_text(json_field(v, "a"@)) == Some(x.asset@)
    &&& json_number_text(json_field(v, "wb"@)) == Some(x.wallet_balance@)
    &&& json_number_text(json_field(v, "cw"@)) == Some(x.cross_wallet_balance@)
    &&& json_number_text(json_field(v, "bc"@)) == Some(x.balance_change@)
}

/// Reads `EventBalanceUpdate` from its JSON object; `None` where a member is missing or mistyped.
pub fn decode_event_balance_update(v: &JsonValue) -> (r: Option<EventBalanceUpdate>)
    ensures
        r is Some <==> event_balance_update_decodes(*v),
        r matches Some(x) ==> event_balance_update_matches(*v, x),
{
    let asset = match text_field(v, "a") { Some(x) => x, None => return None };
    let wallet_balance = match number_field(v, "wb") { Some(x) => x, None => return None };
    let cross_wallet_balance = match number_field(v, "cw") { Some(x) => x, None => return None };
    let balance_change = match number_field(v, "bc") { Some(x) => x, None => return None };
    Some(EventBalanceUpdate { asset, wallet_balance, cross_wallet_balance, balance_change })
}

/// A JSON array whose every element is a `EventBalanceUpdate`.
pub open spec fn event_balance_update_list_decodes(f: Option<JsonValue>) -> bool {
    match f {
        Some(JsonValue::Array(a)) => forall|i: int| 0 <= i < a@.len() ==> event_balance_update_decodes(#[trigger] a@[i]),
        _ => false,
    }
}

/// `xs` holds the array's elements, in order.
pub open spec fn event_balance_update_list_matches(f: Option<JsonValue>, xs: Vec<EventBalanceUpdate>) -> bool {
    match f {
        Some(JsonValue::Array(a)) => xs@.len() == a@.len() && forall|i: int|
            0 <= i < a@.len() ==> event_balance_update_matches(#[trigger] a@[i], xs@[i]),
        _ => false,
    }
}

/// Reads an array of `EventBalanceUpdate`; `None` unless every element reads.
pub fn decode_event_balance_update_list(f: Option<&JsonValue>) -> (r: Option<Vec<EventBalanceUpdate>>)
    ensures
        r is Some <==> event_balance_update_list_decodes(match f { Some(x) => Some(*x), None => None }),
        r matches Some(xs) ==> event_balance_update_list_matches(match f { Some(x) => Some(*x), None => None }, xs),
{
    match f {
        Some(JsonValue::Array(a)) => {
            let mut out: Vec<EventBalanceUpdate> = Vec::new();
            let mut i: usize = 0;
            while i < a.len()
                invariant
                    i <= a@.len(),
                    match f { Some(x) => *x == JsonValue::Array(*a), None => false },
                    out@.len() == i,
                    forall|j: int| 0 <= j < i ==> event_balance_update_decodes(#[trigger] a@[j]),
                    forall|j: int| 0 <= j < i ==> event_balance_update_matches(#[trigger] a@[j], out@[j]),
                decreases a@.len() - i,
            {
                match decode_event_balance_update(&a[i]) {
                    Some(x) => out.push(x),
                    None => {
                        proof {
                            let fv = match f { Some(x) => Some(*x), None => None };
                            assert(fv == Some(JsonValue::Array(*a)));
                            assert(!event_balance_update_decodes(a@[i as int]));
                            let aa = fv->0->Array_0;
                            assert(aa == *a);
                            assert(aa@ == a@);
                            assert(aa@[i as int] == a@[i as int]);
                            assert(!event_balance_update_decodes(aa@[i as int]));
                            assert(!event_balance_update_list_decodes(fv));
                        }
                        return None;
                    },
                }
                i = i + 1;
            }
            Some(out)
        },
        _ => None,
    }
}

/// A position change inside an account update.
#[derive(Debug)]
pub struct EventPositionUpdate {
    pub symbol: String,
    pub position_amount: String,
    pub entry_price: String,
    pub accumulated_realized: String,
    pub unrealized_profit: String,
    pub margin_type: String,
    pub isolated_wallet: String,
    pub position_side: String,
    pub margin_asset: String,
}

/// The JSON value holds every member that `EventPositionUpdate` needs, each of the right type.
pub open spec fn event_position_update_decodes(v: JsonValue) -> bool {
    &&& json_text(json_field(v, "s"@)) is Some
    &&& json_number_text(json_field(v, "pa"@)) is Some
    &&& json_number_text(json_field(v, "ep"@)) is Some
    &&& json_number_text(json_field(v, "cr"@)) is Some
    &&& json_number_text(json_field(v, "up"@)) is Some
    &&& json_text(json_field(v, "mt"@)) is Some
    &&& json_number_text(json_field(v, "iw"@)) is Some
    &&& json_text(json_field(v, "ps"@)) is Some
    &&& json_text(json_field(v, "ma"@)) is Some
}

/// `x` holds exactly what the JSON value says.
pub open spec fn event_position_update_matches(v: JsonValue, x: EventPositionUpdate) -> bool {
    &&& json_text(json_field(v, "s"@)) == Some(x.symbol@)
    &&& json_number_text(json_field(v, "pa"@)) == Some(x.position_amount@)
    &&& json_number_text(json_field(v, "ep"@)) == Some(x.entry_price@)
    &&& json_number_text(json_field(v, "cr"@)) == Some(x.accumulated_realized@)
    &&& json_number_text(json_field(v, "up"@)) == Some(x.unrealized_profit@)
    &&& json_text(json_field(v, "mt"@)) == Some(x.margin_type@)
    &&& json_number_text(json_field(v, "iw"@)) == Some(x.isolated_wallet@)
    &&& json_text(json_field(v, "ps"@)) == Some(x.position_side@)
    &&& json_text(json_field(v, "ma"@)) == Some(x.margin_asset@)
}

/// Reads `EventPositionUpdate` from its JSON object; `None` where a member is missing or mistyped.
pub fn decode_event_position_update(v: &JsonValue) -> (r: Option<EventPositionUpdate>)
    ensures
        r is Some <==> event_position_update_decodes(*v),
        r matches Some(x) ==> event_position_update_matches(*v, x),
{
    let symbol = match text_field(v, "s") { Some(x) => x, None => return None };
    let position_amount = match number_field(v, "pa") { Some(x) => x, None => return None };
    let entry_price = match number_field(v, "ep") { Some(x) => x, None => return None };
    let accumulated_realized = match number_field(v, "cr") { Some(x) => x, None => return None };
    let unrealized_profit = match number_field(v, "up") { Some(x) => x, None => return None };
    let margin_type = match text_field(v, "mt") { Some(x) => x, None => return None };
    let isolated_wallet = match number_field(v, "iw") { Some(x) => x, None => return None };
    let position_side = match text_field(v, "ps") { Some(x) => x, None => return None };
    let margin_asset = match text_field(v, "ma") { Some(x) => x, None => return None };
    Some(EventPositionUpdate {
        symbol,
        position_amount,
        entry_price,
        accumulated_realized,
        unrealized_profit,
        margin_type,
        isolated_wallet,
        position_side,
        margin_asset,
    })
}

/// A JSON array whose every element is a `EventPositionUpdate`.
pub open spec fn event_position_update_list_decodes(f: Option<JsonValue>) -> bool {
    match f {
        Some(JsonValue::Array(a)) => forall|i: int| 0 <= i < a@.len() ==> event_position_update_decodes(#[trigger] a@[i]),
        _ => false,
    }
}

/// `xs` holds the array's elements, in order.
pub open spec fn event_position_update_list_matches(f: Option<JsonValue>, xs: Vec<EventPositionUpdate>) -> bool {
    match f {
        Some(JsonValue::Array(a)) => xs@.len() == a@.len() && forall|i: int|
            0 <= i < a@.len() ==> event_position_update_matches(#[trigger] a@[i], xs@[i]),
        _ => false,
    }
}

/// Reads an array of `EventPositionUpdate`; `None` unless every element reads.
pub fn decode_event_position_update_list(f: Option<&JsonValue>) -> (r: Option<Vec<EventPositionUpdate>>)
    ensures
        r is Some <==> event_position_update_list_decodes(match f { Some(x) => Some(*x), None => None }),
        r matches Some(xs) ==> event_position_update_list_matches(match f { Some(x) => Some(*x), None => None }, xs),
{
    match f {
        Some(JsonValue::Array(a)) => {
            let mut out: Vec<EventPositionUpdate> = Vec::new();
            let mut i: usize = 0;
            while i < a.len()
                invariant
                    i <= a@.len(),
                    match f { Some(x) => *x == JsonValue::Array(*a), None => false },
                    out@.len() == i,
                    forall|j: int| 0 <= j < i ==> event_position_update_decodes(#[trigger] a@[j]),
                    forall|j: int| 0 <= j < i ==> event_position_update_matches(#[trigger] a@[j], out@[j]),
                decreases a@.len() - i,
            {
                match decode_event_position_update(&a[i]) {
                    Some(x) => out.push(x),
                    None => {
                        proof {
                            let fv = match f { Some(x) => Some(*x), None => None };
                            assert(fv == Some(JsonValue::Array(*a)));
                            assert(!event_position_update_decodes(a@[i as int]));
                            let aa = fv->0->Array_0;
                            assert(aa == *a);
                            assert(aa@ == a@);
                            assert(aa@[i as int] == a@[i as int]);
                            assert(!event_position_update_decodes(aa@[i as int]));
                            assert(!event_position_update_list_decodes(fv));
                        }
                        return None;
                    },
                }
                i = i + 1;
            }
            Some(out)
        },
        _ => None,
    }
}

/// What an account update changed.
#[derive(Debug)]
pub struct AccountUpdateData {
    pub reason_type: String,
    pub balances: Vec<EventBalanceUpdate>,
    pub positions: Vec<EventPositionUpdate>,
}

/// The JSON value holds every member that `AccountUpdateData` needs, each of the right type.
pub open spec fn account_update_data_decodes(v: JsonValue) -> bool {
    &&& json_text(json_field(v, "m"@)) is Some
    &&& event_balance_update_list_decodes(json_field(v, "B"@))
    &&& event_position_update_list_decodes(json_field(v, "P"@))
}

/// `x` holds exactly what the JSON value says.
pub open spec fn account_update_data_matches(v: JsonValue, x: AccountUpdateData) -> bool {
    &&& json_text(json_field(v, "m"@)) == Some(x.reason_type@)
    &&& event_balance_update_list_matches(json_field(v, "B"@), x.balances)
    &&& event_position_update_list_matches(json_field(v, "P"@), x.positions)
}

/// Reads `AccountUpdateData` from its JSON object; `None` where a member is missing or mistyped.
pub fn decode_account_update_data(v: &JsonValue) -> (r: Option<AccountUpdateData>)
    ensures
        r is Some <==> account_update_data_decodes(*v),
        r matches Some(x) ==> account_update_data_matches(*v, x),
{
    let reason_type = match text_field(v, "m") { Some(x) => x, None => return None };
    let balances = match decode_event_balance_update_list(field(v, "B")) { Some(x) => x, None => return None };
    let positions = match decode_event_position_update_list(field(v, "P")) { Some(x) => x, None => return None };
    Some(AccountUpdateData { reason_type, balances, positions })
}

/// Balances or positions changed.
#[derive(Debug)]
pub struct AccountUpdateEvent {
    pub event_type: String,
    pub event_time: u64,
    pub transaction_time: u64,
    pub update_data: AccountUpdateData,
}

/// The JSON value holds every member that `AccountUpdateEvent` needs, each of the right type.
pub open spec fn account_update_event_decodes(v: JsonValue) -> bool {
    &&& json_text(json_field(v, "e"@)) is Some
    &&& json_int_in(json_field(v, "E"@), 0, u64::MAX as int) is Some
    &&& json_int_in(json_field(v, "T"@), 0, u64::MAX as int) is Some
    &&& (json_field(v, "a"@) is Some && account_update_data_decodes(json_field(v, "a"@)->0))
}

/// `x` holds exactly what the JSON value says.
pub open spec fn account_update_event_matches(v: JsonValue, x: AccountUpdateEvent) -> bool {
    &&& json_text(json_field(v, "e"@)) == Some(x.event_type@)
    &&& json_int_in(json_field(v, "E"@), 0, u64::MAX as int) == Some(x.event_time as int)
    &&& json_int_in(json_field(v, "T"@), 0, u64::MAX as int) == Some(x.transaction_time as int)
    &&& account_update_data_matches(json_field(v, "a"@)->0, x.update_data)
}

/// Reads `AccountUpdateEvent` from its JSON object; `None` where a member is missing or mistyped.
pub fn decode_account_update_event(v: &JsonValue) -> (r: Option<AccountUpdateEvent>)
    ensures
        r is Some <==> account_update_event_decodes(*v),
        r matches Some(x) ==> account_update_event_matches(*v, x),
{
    let event_type = match text_field(v, "e") { Some(x) => x, None => return None };
    let event_time = match u64_field(v, "E") { Some(x) => x, None => return None };
    let transaction_time = match u64_field(v, "T") { Some(x) => x, None => return None };
    let update_data = match field(v, "a") { Some(x) => match decode_account_update_data(x) { Some(y) => y, None => return None }, None => return None };
    Some(AccountUpdateEvent { event_type, event_time, transaction_time, update_data })
}

/// The stream's listen key expired.
#[derive(Debug)]
pub struct ListenKeyExpiredEvent {
    pub event_type: String,
    pub event_time: u64,
}

/// The JSON value holds every member that `ListenKeyExpiredEvent` needs, each of the right type.
pub open spec fn listen_key_expired_event_decodes(v: JsonValue) -> bool {
    &&& json_text(json_field(v, "e"@)) is Some
    &&& json_int_in(json_field(v, "E"@), 0, u64::MAX as int) is Some
}

/// `x` holds exactly what the JSON value says.
pub open spec fn listen_key_expired_event_matches(v: JsonValue, x: ListenKeyExpiredEvent) -> bool {
    &&& json_text(json_field(v, "e"@)) == Some(x.event_type@)
    &&& json_int_in(json_field(v, "E"@), 0, u64::MAX as int) == Some(x.event_time as int)
}

/// Reads `ListenKeyExpiredEvent` from its JSON object; `None` where a member is missing or mistyped.
pub fn decode_listen_key_expired_event(v: &JsonValue) -> (r: Option<ListenKeyExpiredEvent>)
    ensures
        r is Some <==> listen_key_expired_event_decodes(*v),
        r matches Some(x) ==> listen_key_expired_event_matches(*v, x),
{
    let event_type = match text_field(v, "e") { Some(x) => x, None => return None };
    let event_time = match u64_field(v, "E") { Some(x) => x, None => return None };
    Some(ListenKeyExpiredEvent { event_type, event_time })
}

/// A position named in a margin call.
#[derive(Debug)]
pub struct MarginCallPosition {
    pub symbol: String,
    pub position_side: String,
    pub position_amount: String,
    pub margin_type: String,
    pub isolated_wallet: String,
    pub mark_price: String,
    pub unrealized_profit: String,
    pub maintenance_margin: String,
}

/// The JSON value holds every member that `MarginCallPosition` needs, each of the right type.
pub open spec fn margin_call_position_decodes(v: JsonValue) -> bool {
    &&& json_text(json_field(v, "s"@)) is Some
    &&& json_text(json_field(v, "ps"@)) is Some
    &&& json_number_text(json_field(v, "pa"@)) is Some
    &&& json_text(json_field(v, "mt"@)) is Some
    &&& json_number_text(json_field(v, "iw"@)) is Some
    &&& json_number_text(json_field(v, "mp"@)) is Some
    &&& json_number_text(json_field(v, "up"@)) is Some
    &&& json_number_text(json_field(v, "mm"@)) is Some
}

/// `x` holds exactly what the JSON value says.
pub open spec fn margin_call_position_matches(v: JsonValue, x: MarginCallPosition) -> bool {
    &&& json_text(json_field(v, "s"@)) == Some(x.symbol@)
    &&& json_text(json_field(v, "ps"@)) == Some(x.position_side@)
    &&& json_number_text(json_field(v, "pa"@)) == Some(x.position_amount@)
    &&& json_text(json_field(v, "mt"@)) == Some(x.margin_type@)
    &&& json_number_text(json_field(v, "iw"@)) == Some(x.isolated_wallet@)
    &&& json_number_text(json_field(v, "mp"@)) == Some(x.mark_price@)
    &&& json_number_text(json_field(v, "up"@)) == Some(x.unrealized_profit@)
    &&& json_number_text(json_field(v, "mm"@)) == Some(x.maintenance_margin@)
}

/// Reads `MarginCallPosition` from its JSON object; `None` where a member is missing or mistyped.
pub fn decode_margin_call_position(v: &JsonValue) -> (r: Option<MarginCallPosition>)
    ensures
        r is Some <==> margin_call_position_decodes(*v),
        r matches Some(x) ==> margin_call_position_matches(*v, x),
{
    let symbol = match text_field(v, "s") { Some(x) => x, None => return None };
    let position_side = match text_field(v, "ps") { Some(x) => x, None => return None };
    let position_amount = match number_field(v, "pa") { Some(x) => x, None => return None };
    let margin_type = match text_field(v, "mt") { Some(x) => x, None => return None };
    let isolated_wallet = match number_field(v, "iw") { Some(x) => x, None => return None };
    let mark_price = match number_field(v, "mp") { Some(x) => x, None => return None };
    let unrealized_profit = match number_field(v, "up") { Some(x) => x, None => return None };
    let maintenance_margin = match number_field(v, "mm") { Some(x) => x, None => return None };
    Some(MarginCallPosition {
        symbol,
        position_side,
        position_amount,
        margin_type,
        isolated_wallet,
        mark_price,
        unrealized_profit,
        maintenance_margin,
    })
}

/// A JSON array whose every element is a `MarginCallPosition`.
pub open spec fn margin_call_position_list_decodes(f: Option<JsonValue>) -> bool {
    match f {
        Some(JsonValue::Array(a)) => forall|i: int| 0 <= i < a@.len() ==> margin_call_position_decodes(#[trigger] a@[i]),
        _ => false,
    }
}

/// `xs` holds the array's elements, in order.
pub open spec fn margin_call_position_list_matches(f: Option<JsonValue>, xs: Vec<MarginCallPosition>) -> bool {
    match f {
        Some(JsonValue::Array(a)) => xs@.len() == a@.len() && forall|i: int|
            0 <= i < a@.len() ==> margin_call_position_matches(#[trigger] a@[i], xs@[i]),
        _ => false,
    }
}

/// Reads an array of `MarginCallPosition`; `None` unless every element reads.
pub fn decode_margin_call_position_list(f: Option<&JsonValue>) -> (r: Option<Vec<MarginCallPosition>>)
    ensures
        r is Some <==> margin_call_position_list_decodes(match f { Some(x) => Some(*x), None => None }),
        r matches Some(xs) ==> margin_call_position_list_matches(match f { Some(x) => Some(*x), None => None }, xs),
{
    match f {
        Some(JsonValue::Array(a)) => {
            let mut out: Vec<MarginCallPosition> = Vec::new();
            let mut i: usize = 0;
            while i < a.len()
                invariant
                    i <= a@.len(),
                    match f { Some(x) => *x == JsonValue::Array(*a), None => false },
                    out@.len() == i,
                    forall|j: int| 0 <= j < i ==> margin_call_position_decodes(#[trigger] a@[j]),
                    forall|j: int| 0 <= j < i ==> margin_call_position_matches(#[trigger] a@[j], out@[j]),
                decreases a@.len() - i,
            {
                match decode_margin_call_position(&a[i]) {
                    Some(x) => out.push(x),
                    None => {
                        proof {
                            let fv = match f { Some(x) => Some(*x), None => None };
                            assert(fv == Some(JsonValue::Array(*a)));
                            assert(!margin_call_position_decodes(a@[i as int]));
                            let aa = fv->0->Array_0;
                            assert(aa == *a);
                            assert(aa@ == a@);
                            assert(aa@[i as int] == a@[i as int]);
                            assert(!margin_call_position_decodes(aa@[i as int]));
                            assert(!margin_call_position_list_decodes(fv));
                        }
                        return None;
                    },
                }
                i = i + 1;
            }
            Some(out)
        },
        _ => None,
    }
}

/// Positions are close to liquidation.
#[derive(Debug)]
pub struct MarginCallEvent {
    pub event_type: String,
    pub event_time: u64,
    pub cross_wallet_balance: String,
    pub positions: Vec<MarginCallPosition>,
}

/// The JSON value holds every member that `MarginCallEvent` needs, each of the right type.
pub open spec fn margin_call_event_decodes(v: JsonValue) -> bool {
    &&& json_text(json_field(v, "e"@)) is Some
    &&& json_int_in(json_field(v, "E"@), 0, u64::MAX as int) is Some
    &&& json_number_text(json_field(v, "cw"@)) is Some
    &&& margin_call_position_list_decodes(json_field(v, "p"@))
}

/// `x` holds exactly what the JSON value says.
pub open spec fn margin_call_event_matches(v: JsonValue, x: MarginCallEvent) -> bool {
    &&& json_text(json_field(v, "e"@)) == Some(x.event_type@)
    &&& json_int_in(json_field(v, "E"@), 0, u64::MAX as int) == Some(x.event_time as int)
    &&& json_number_text(json_field(v, "cw"@)) == Some(x.cross_wallet_balance@)
    &&& margin_call_position_list_matches(json_field(v, "p"@), x.positions)
}

/// Reads `MarginCallEvent` from its JSON object; `None` where a member is missing or mistyped.
pub fn decode_margin_call_event(v: &JsonValue) -> (r: Option<MarginCallEvent>)
    ensures
        r is Some <==> margin_call_event_decodes(*v),
        r matches Some(x) ==> margin_call_event_matches(*v, x),
{
    let event_type = match text_field(v, "e") { Some(x) => x, None => return None };
    let event_time = match u64_field(v, "E") { Some(x) => x, None => return None };
    let cross_wallet_balance = match number_field(v, "cw") { Some(x) => x, None => return None };
    let positions = match decode_margin_call_position_list(field(v, "p")) { Some(x) => x, None => return None };
    Some(MarginCallEvent { event_type, event_time, cross_wallet_balance, positions })
}

/// A symbol's new leverage.
#[derive(Debug)]
pub struct LeverageUpdate {
    pub symbol: String,
    pub leverage: u16,
}

/// The JSON value holds every member that `LeverageUpdate` needs, each of the right type.
pub open spec fn leverage_update_decodes(v: JsonValue) -> bool {
    &&& json_text(json_field(v, "s"@)) is Some
    &&& json_int_in(json_field(v, "l"@), 0, 65535) is Some
}

/// `x` holds exactly what the JSON value says.
pub open spec fn leverage_update_matches(v: JsonValue, x: LeverageUpdate) -> bool {
    &&& json_text(json_field(v, "s"@)) == Some(x.symbol@)
    &&& json_int_in(json_field(v, "l"@), 0, 65535) == Some(x.leverage as int)
}

/// Reads `LeverageUpdate` from its JSON object; `None` where a member is missing or mistyped.
pub fn decode_leverage_update(v: &JsonValue) -> (r: Option<LeverageUpdate>)
    ensures
        r is Some <==> leverage_update_decodes(*v),
        r matches Some(x) ==> leverage_update_matches(*v, x),
{
    let symbol = match text_field(v, "s") { Some(x) => x, None => return None };
    let leverage = match int_field_in(v, "l", 0, 65535) { Some(x) => x as u16, None => return None };
    Some(LeverageUpdate { symbol, leverage })
}

/// The leverage of a symbol changed.
#[derive(Debug)]
pub struct LeverageUpdateEvent {
    pub event_type: String,
    pub event_time: u64,
    pub transaction_time: u64,
    pub update_data: LeverageUpdate,
}

/// The JSON value holds every member that `LeverageUpdateEvent` needs, each of the right type.
pub open spec fn leverage_update_event_decodes(v: JsonValue) -> bool {
    &&& json_text(json_field(v, "e"@)) is Some
    &&& json_int_in(json_field(v, "E"@), 0, u64::MAX as int) is Some
    &&& json_int_in(json_field(v, "T"@), 0, u64::MAX as int) is Some
    &&& (json_field(v, "ac"@) is Some && leverage_update_decodes(json_field(v, "ac"@)->0))
}

/// `x` holds exactly what the JSON value says.
pub open spec fn leverage_update_event_matches(v: JsonValue, x: LeverageUpdateEvent) -> bool {
    &&& json_text(json_field(v, "e"@)) == Some(x.event_type@)
    &&& json_int_in(json_field(v, "E"@), 0, u64::MAX as int) == Some(x.event_time as int)
    &&& json_int_in(json_field(v, "T"@), 0, u64::MAX as int) == Some(x.transaction_time as int)
    &&& leverage_update_matches(json_field(v, "ac"@)->0, x.update_data)
}

/// Reads `LeverageUpdateEvent` from its JSON object; `None` where a member is missing or mistyped.
pub fn decode_leverage_update_event(v: &JsonValue) -> (r: Option<LeverageUpdateEvent>)
    ensures
        r is Some <==> leverage_update_event_decodes(*v),
        r matches Some(x) ==> leverage_update_event_matches(*v, x),
{
    let event_type = match text_field(v, "e") { Some(x) => x, None => return None };
    let event_time = match u64_field(v, "E") { Some(x) => x, None => return None };
    let transaction_time = match u64_field(v, "T") { Some(x) => x, None => return None };
    let update_data = match field(v, "ac") { Some(x) => match decode_leverage_update(x) { Some(y) => y, None => return None }, None => return None };
    Some(LeverageUpdateEvent { event_type, event_time, transaction_time, update_data })
}

/// Whether multi-assets margin is on.
#[derive(Debug)]
pub struct MultiAssetsMarginUpdate {
    pub enabled: bool,
}

/// The JSON value holds every member that `MultiAssetsMarginUpdate` needs, each of the right type.
pub open spec fn multi_assets_margin_update_decodes(v: JsonValue) -> bool {
    &&& json_bool(json_field(v, "j"@)) is Some
}

/// `x` holds exactly what the JSON value says.
pub open spec fn multi_assets_margin_update_matches(v: JsonValue, x: MultiAssetsMarginUpdate) -> bool {
    &&& json_bool(json_field(v, "j"@)) == Some(x.enabled)
}

/// Reads `MultiAssetsMarginUpdate` from its JSON object; `None` where a member is missing or mistyped.
pub fn decode_multi_assets_margin_update(v: &JsonValue) -> (r: Option<MultiAssetsMarginUpdate>)
    ensures
        r is Some <==> multi_assets_margin_update_decodes(*v),
        r matches Some(x) ==> multi_assets_margin_update_matches(*v, x),
{
    let enabled = match bool_field(v, "j") { Some(x) => x, None => return None };
    Some(MultiAssetsMarginUpdate { enabled })
}

/// Multi-assets margin mode changed.
#[derive(Debug)]
pub struct MultiAssetsMarginUpdateEvent {
    pub event_type: String,
    pub event_time: u64,
    pub transaction_time: u64,
    pub update_data: MultiAssetsMarginUpdate,
}

/// The JSON value holds every member that `MultiAssetsMarginUpdateEvent` needs, each of the right type.
pub open spec fn multi_assets_margin_update_event_decodes(v: JsonValue) -> bool {
    &&& json_text(json_field(v, "e"@)) is Some
    &&& json_int_in(json_field(v, "E"@), 0, u64::MAX as int) is Some
    &&& json_int_in(json_field(v, "T"@), 0, u64::MAX as int) is Some
    &&& (json_field(v, "ai"@) is Some && multi_assets_margin_update_decodes(json_field(v, "ai"@)->0))
}

/// `x` holds exactly what the JSON value says.
pub open spec fn multi_assets_margin_update_event_matches(v: JsonValue, x: MultiAssetsMarginUpdateEvent) -> bool {
    &&& json_text(json_field(v, "e"@)) == Some(x.event_type@)
    &&& json_int_in(json_field(v, "E"@), 0, u64::MAX as int) == Some(x.event_time as int)
    &&& json_int_in(json_field(v, "T"@), 0, u64::MAX as int) == Some(x.transaction_time as int)
    &&& multi_assets_margin_update_matches(json_field(v, "ai"@)->0, x.update_data)
}

/// Reads `MultiAssetsMarginUpdateEvent` from its JSON object; `None` where a member is missing or mistyped.
pub fn decode_multi_assets_margin_update_event(v: &JsonValue) -> (r: Option<MultiAssetsMarginUpdateEvent>)
    ensures
        r is Some <==> multi_assets_margin_update_event_decodes(*v),
        r matches Some(x) ==> multi_assets_margin_update_event_matches(*v, x),
{
    let event_type = match text_field(v, "e") { Some(x) => x, None => return None };
    let event_time = match u64_field(v, "E") { Some(x) => x, None => return None };
    let transaction_time = match u64_field(v, "T") { Some(x) => x, None => return None };
    let update_data = match field(v, "ai") { Some(x) => match decode_multi_assets_margin_update(x) { Some(y) => y, None => return None }, None => return None };
    Some(MultiAssetsMarginUpdateEvent { event_type, event_time, transaction_time, update_data })
}

/// 24-hour price statistics of a symbol.
#[derive(Debug)]
pub struct PriceStats {
    pub symbol: String,
    pub price_change: String,
    pub price_change_percent: String,
    pub weighted_avg_price: String,
    pub last_price: String,
    pub open_price: String,
    pub high_price: String,
    pub low_price: String,
    pub volume: String,
    pub quote_volume: String,
    pub last_qty: String,
    pub open_time: u64,
    pub close_time: u64,
    pub first_id: u64,
    pub last_id: u64,
    pub count: u64,
}

/// The JSON value holds every member that `PriceStats` needs, each of the right type.
pub open spec fn price_stats_decodes(v: JsonValue) -> bool {
    &&& json_text(json_field(v, "symbol"@)) is Some
    &&& json_text(json_field(v, "priceChange"@)) is Some
    &&& json_text(json_field(v, "priceChangePercent"@)) is Some
    &&& json_text(json_field(v, "weightedAvgPrice"@)) is Some
    &&& json_number_text(json_field(v, "lastPrice"@)) is Some
    &&& json_number_text(json_field(v, "openPrice"@)) is Some
    &&& json_number_text(json_field(v, "highPrice"@)) is Some
    &&& json_number_text(json_field(v, "lowPrice"@)) is Some
    &&& json_number_text(json_field(v, "volume"@)) is Some
    &&& json_number_text(json_field(v, "quoteVolume"@)) is Some
    &&& json_number_text(json_field(v, "lastQty"@)) is Some
    &&& json_int_in(json_field(v, "openTime"@), 0, u64::MAX as int) is Some
    &&& json_int_in(json_field(v, "closeTime"@), 0, u64::MAX as int) is Some
    &&& json_int_in(json_field(v, "firstId"@), 0, u64::MAX as int) is Some
    &&& json_int_in(json_field(v, "lastId"@), 0, u64::MAX as int) is Some
    &&& json_int_in(json_field(v, "count"@), 0, u64::MAX as int) is Some
}

/// `x` holds exactly what the JSON value says.
pub open spec fn price_stats_matches(v: JsonValue, x: PriceStats) -> bool {
    &&& json_text(json_field(v, "symbol"@)) == Some(x.symbol@)
    &&& json_text(json_field(v, "priceChange"@)) == Some(x.price_change@)
    &&& json_text(json_field(v, "priceChangePercent"@)) == Some(x.price_change_percent@)
    &&& json_text(json_field(v, "weightedAvgPrice"@)) == Some(x.weighted_avg_price@)
    &&& json_number_text(json_field(v, "lastPrice"@)) == Some(x.last_price@)
    &&& json_number_text(json_field(v, "openPrice"@)) == Some(x.open_price@)
    &&& json_number_text(json_field(v, "highPrice"@)) == Some(x.high_price@)
    &&& json_number_text(json_field(v, "lowPrice"@)) == Some(x.low_price@)
    &&& json_number_text(json_field(v, "volume"@)) == Some(x.volume@)
    &&& json_number_text(json_field(v, "quoteVolume"@)) == Some(x.quote_volume@)
    &&& json_number_text(json_field(v, "lastQty"@)) == Some(x.last_qty@)
    &&& json_int_in(json_field(v, "openTime"@), 0, u64::MAX as int) == Some(x.open_time as int)
    &&& json_int_in(json_field(v, "closeTime"@), 0, u64::MAX as int) == Some(x.close_time as int)
    &&& json_int_in(json_field(v, "firstId"@), 0, u64::MAX as int) == Some(x.first_id as int)
    &&& json_int_in(json_field(v, "lastId"@), 0, u64::MAX as int) == Some(x.last_id as int)
    &&& json_int_in(json_field(v, "count"@), 0, u64::MAX as int) == Some(x.count as int)
}

/// Reads `PriceStats` from its JSON object; `None` where a member is missing or mistyped.
pub fn decode_price_stats(v: &JsonValue) -> (r: Option<PriceStats>)
    ensures
        r is Some <==> price_stats_decodes(*v),
        r matches Some(x) ==> price_stats_matches(*v, x),
{
    let symbol = match text_field(v, "symbol") { Some(x) => x, None => return None };
    let price_change = match text_field(v, "priceChange") { Some(x) => x, None => return None };
    let price_change_percent = match text_field(v, "priceChangePercent") { Some(x) => x, None => return None };
    let weighted_avg_price = match text_field(v, "weightedAvgPrice") { Some(x) => x, None => return None };
    let last_price = match number_field(v, "lastPrice") { Some(x) => x, None => return None };
    let open_price = match number_field(v, "openPrice") { Some(x) => x, None => return None };
    let high_price = match number_field(v, "highPrice") { Some(x) => x, None => return None };
    let low_price = match number_field(v, "lowPrice") { Some(x) => x, None => return None };
    let volume = match number_field(v, "volume") { Some(x) => x, None => return None };
    let quote_volume = match number_field(v, "quoteVolume") { Some(x) => x, None => return None };
    let last_qty = match number_field(v, "lastQty") { Some(x) => x, None => return None };
    let open_time = match u64_field(v, "openTime") { Some(x) => x, None => return None };
    let close_time = match u64_field(v, "closeTime") { Some(x) => x, None => return None };
    let first_id = match u64_field(v, "firstId") { Some(x) => x, None => return None };
    let last_id = match u64_field(v, "lastId") { Some(x) => x, None => return None };
    let count = match u64_field(v, "count") { Some(x) => x, None => return None };
    Some(PriceStats {
        symbol,
        price_change,
        price_change_percent,
        weighted_avg_price,
        last_price,
        open_price,
        high_price,
        low_price,
        volume,
        quote_volume,
        last_qty,
        open_time,
        close_time,
        first_id,
        last_id,
        count,
    })
}

/// A public trade.
#[derive(Debug)]
pub struct Trade {
    pub id: u64,
    pub is_buyer_maker: bool,
    pub price: String,
    pub qty: String,
    pub quote_qty: String,
    pub time: u64,
}

/// The JSON value holds every member that `Trade` needs, each of the right type.
pub open spec fn trade_decodes(v: JsonValue) -> bool {
    &&& json_int_in(json_field(v, "id"@), 0, u64::MAX as int) is Some
    &&& json_bool(json_field(v, "isBuyerMaker"@)) is Some
    &&& json_number_text(json_field(v, "price"@)) is Some
    &&& json_number_text(json_field(v, "qty"@)) is Some
    &&& json_number_text(json_field(v, "quoteQty"@)) is Some
    &&& json_int_in(json_field(v, "time"@), 0, u64::MAX as int) is Some
}

/// `x` holds exactly what the JSON value says.
pub open spec fn trade_matches(v: JsonValue, x: Trade) -> bool {
    &&& json_int_in(json_field(v, "id"@), 0, u64::MAX as int) == Some(x.id as int)
    &&& json_bool(json_field(v, "isBuyerMaker"@)) == Some(x.is_buyer_maker)
    &&& json_number_text(json_field(v, "price"@)) == Some(x.price@)
    &&& json_number_text(json_field(v, "qty"@)) == Some(x.qty@)
    &&& json_number_text(json_field(v, "quoteQty"@)) == Some(x.quote_qty@)
    &&& json_int_in(json_field(v, "time"@), 0, u64::MAX as int) == Some(x.time as int)
}

/// Reads `Trade` from its JSON object; `None` where a member is missing or mistyped.
pub fn decode_trade(v: &JsonValue) -> (r: Option<Trade>)
    ensures
        r is Some <==> trade_decodes(*v),
        r matches Some(x) ==> trade_matches(*v, x),
{
    let id = match u64_field(v, "id") { Some(x) => x, None => return None };
    let is_buyer_maker = match bool_field(v, "isBuyerMaker") { Some(x) => x, None => return None };
    let price = match number_field(v, "price") { Some(x) => x, None => return None };
    let qty = match number_field(v, "qty") { Some(x) => x, None => return None };
    let quote_qty = match number_field(v, "quoteQty") { Some(x) => x, None => return None };
    let time = match u64_field(v, "time") { Some(x) => x, None => return None };
    Some(Trade {
        id,
        is_buyer_maker,
        price,
        qty,
        quote_qty,
        time,
    })
}

/// A JSON array whose every element is a `Trade`.
pub open spec fn trade_list_decodes(f: Option<JsonValue>) -> bool {
    match f {
        Some(JsonValue::Array(a)) => forall|i: int| 0 <= i < a@.len() ==> trade_decodes(#[trigger] a@[i]),
        _ => false,
    }
}

/// `xs` holds the array's elements, in order.
pub open spec fn trade_list_matches(f: Option<JsonValue>, xs: Vec<Trade>) -> bool {
    match f {
        Some(JsonValue::Array(a)) => xs@.len() == a@.len() && forall|i: int|
            0 <= i < a@.len() ==> trade_matches(#[trigger] a@[i], xs@[i]),
        _ => false,
    }
}

/// Reads an array of `Trade`; `None` unless every element reads.
pub fn decode_trade_list(f: Option<&JsonValue>) -> (r: Option<Vec<Trade>>)
    ensures
        r is Some <==> trade_list_decodes(match f { Some(x) => Some(*x), None => None }),
        r matches Some(xs) ==> trade_list_matches(match f { Some(x) => Some(*x), None => None }, xs),
{
    match f {
        Some(JsonValue::Array(a)) => {
            let mut out: Vec<Trade> = Vec::new();
            let mut i: usize = 0;
            while i < a.len()
                invariant
                    i <= a@.len(),
                    match f { Some(x) => *x == JsonValue::Array(*a), None => false },
                    out@.len() == i,
                    forall|j: int| 0 <= j < i ==> trade_decodes(#[trigger] a@[j]),
                    forall|j: int| 0 <= j < i ==> trade_matches(#[trigger] a@[j], out@[j]),
                decreases a@.len() - i,
            {
                match decode_trade(&a[i]) {
                    Some(x) => out.push(x),
                    None => {
                        proof {
                            let fv = match f { Some(x) => Some(*x), None => None };
                            assert(fv == Some(JsonValue::Array(*a)));
                            assert(!trade_decodes(a@[i as int]));
                            let aa = fv->0->Array_0;
                            assert(aa == *a);
                            assert(aa@ == a@);
                            assert(aa@[i as int] == a@[i as int]);
                            assert(!trade_decodes(aa@[i as int]));
                            assert(!trade_list_decodes(fv));
                        }
                        return None;
                    },
                }
                i = i + 1;
            }
            Some(out)
        },
        _ => None,
    }
}

/// A list of public trades.
#[derive(Debug)]
pub enum Trades {
    AllTrades(Vec<Trade>),
}

/// Reads an array of `Trade`.
pub fn decode_trades(v: &JsonValue) -> (r: Option<Trades>)
    ensures
        r is Some <==> trade_list_decodes(Some(*v)),
        r matches Some(Trades::AllTrades(xs)) ==> trade_list_matches(Some(*v), xs),
{
    match decode_trade_list(Some(v)) {
        Some(xs) => Some(Trades::AllTrades(xs)),
        None => None,
    }
}

/// Trades aggregated at one price.
#[derive(Debug)]
pub struct AggTrade {
    pub time: u64,
    pub agg_id: u64,
    pub first_id: u64,
    pub last_id: u64,
    pub maker: bool,
    pub price: String,
    pub qty: String,
}

/// The JSON value holds every member that `AggTrade` needs, each of the right type.
pub open spec fn agg_trade_decodes(v: JsonValue) -> bool {
    &&& json_int_in(json_field(v, "T"@), 0, u64::MAX as int) is Some
    &&& json_int_in(json_field(v, "a"@), 0, u64::MAX as int) is Some
    &&& json_int_in(json_field(v, "f"@), 0, u64::MAX as int) is Some
    &&& json_int_in(json_field(v, "l"@), 0, u64::MAX as int) is Some
    &&& json_bool(json_field(v, "m"@)) is Some
    &&& json_number_text(json_field(v, "p"@)) is Some
    &&& json_number_text(json_field(v, "q"@)) is Some
}

/// `x` holds exactly what the JSON value says.
pub open spec fn agg_trade_matches(v: JsonValue, x: AggTrade) -> bool {
    &&& json_int_in(json_field(v, "T"@), 0, u64::MAX as int) == Some(x.time as int)
    &&& json_int_in(json_field(v, "a"@), 0, u64::MAX as int) == Some(x.agg_id as int)
    &&& json_int_in(json_field(v, "f"@), 0, u64::MAX as int) == Some(x.first_id as int)
    &&& json_int_in(json_field(v, "l"@), 0, u64::MAX as int) == Some(x.last_id as int)
    &&& json_bool(json_field(v, "m"@)) == Some(x.maker)
    &&& json_number_text(json_field(v, "p"@)) == Some(x.price@)
    &&& json_number_text(json_field(v, "q"@)) == Some(x.qty@)
}

/// Reads `AggTrade` from its JSON object; `None` where a member is missing or mistyped.
pub fn decode_agg_trade(v: &JsonValue) -> (r: Option<AggTrade>)
    ensures
        r is Some <==> agg_trade_decodes(*v),
        r matches Some(x) ==> agg_trade_matches(*v, x),
{
    let time = match u64_field(v, "T") { Some(x) => x, None => return None };
    let agg_id = match u64_field(v, "a") { Some(x) => x, None => return None };
    let first_id = match u64_field(v, "f") { Some(x) => x, None => return None };
    let last_id = match u64_field(v, "l") { Some(x) => x, None => return None };
    let maker = match bool_field(v, "m") { Some(x) => x, None => return None };
    let price = match number_field(v, "p") { Some(x) => x, None => return None };
    let qty = match number_field(v, "q") { Some(x) => x, None => return None };
    Some(AggTrade {
        time,
        agg_id,
        first_id,
        last_id,
        maker,
        price,
        qty,
    })
}

/// A JSON array whose every element is a `AggTrade`.
pub open spec fn agg_trade_list_decodes(f: Option<JsonValue>) -> bool {
    match f {
        Some(JsonValue::Array(a)) => forall|i: int| 0 <= i < a@.len() ==> agg_trade_decodes(#[trigger] a@[i]),
        _ => false,
    }
}

/// `xs` holds the array's elements, in order.
pub open spec fn agg_trade_list_matches(f: Option<JsonValue>, xs: Vec<AggTrade>) -> bool {
    match f {
        Some(JsonValue::Array(a)) => xs@.len() == a@.len() && forall|i: int|
            0 <= i < a@.len() ==> agg_trade_matches(#[trigger] a@[i], xs@[i]),
        _ => false,
    }
}

/// Reads an array of `AggTrade`; `None` unless every element reads.
pub fn decode_agg_trade_list(f: Option<&JsonValue>) -> (r: Option<Vec<AggTrade>>)
    ensures
        r is Some <==> agg_trade_list_decodes(match f { Some(x) => Some(*x), None => None }),
        r matches Some(xs) ==> agg_trade_list_matches(match f { Some(x) => Some(*x), None => None }, xs),
{
    match f {
        Some(JsonValue::Array(a)) => {
            let mut out: Vec<AggTrade> = Vec::new();
            let mut i: usize = 0;
            while i < a.len()
                invariant
                    i <= a@.len(),
                    match f { Some(x) => *x == JsonValue::Array(*a), None => false },
                    out@.len() == i,
                    forall|j: int| 0 <= j < i ==> agg_trade_decodes(#[trigger] a@[j]),
                    forall|j: int| 0 <= j < i ==> agg_trade_matches(#[trigger] a@[j], out@[j]),
                decreases a@.len() - i,
            {
                match decode_agg_trade(&a[i]) {
                    Some(x) => out.push(x),
                    None => {
                        proof {
                            let fv = match f { Some(x) => Some(*x), None => None };
                            assert(fv == Some(JsonValue::Array(*a)));
                            assert(!agg_trade_decodes(a@[i as int]));
                            let aa = fv->0->Array_0;
                            assert(aa == *a);
                            assert(aa@ == a@);
                            assert(aa@[i as int] == a@[i as int]);
                            assert(!agg_trade_decodes(aa@[i as int]));
                            assert(!agg_trade_list_decodes(fv));
                        }
                        return None;
                    },
                }
                i = i + 1;
            }
            Some(out)
        },
        _ => None,
    }
}

/// A list of aggregated trades.
#[derive(Debug)]
pub enum AggTrades {
    AllAggTrades(Vec<AggTrade>),
}

/// Reads an array of `AggTrade`.
pub fn decode_agg_trades(v: &JsonValue) -> (r: Option<AggTrades>)
    ensures
        r is Some <==> agg_trade_list_decodes(Some(*v)),
        r matches Some(AggTrades::AllAggTrades(xs)) ==> agg_trade_list_matches(Some(*v), xs),
{
    match decode_agg_trade_list(Some(v)) {
        Some(xs) => Some(AggTrades::AllAggTrades(xs)),
        None => None,
    }
}

/// Mark price and funding of a symbol.
#[derive(Debug)]
pub struct MarkPrice {
    pub symbol: String,
    pub mark_price: String,
    pub last_funding_rate: String,
    pub next_funding_time: u64,
    pub time: u64,
}

/// The JSON value holds every member that `MarkPrice` needs, each of the right type.
pub open spec fn mark_price_decodes(v: JsonValue) -> bool {
    &&& json_text(json_field(v, "symbol"@)) is Some
    &&& json_number_text(json_field(v, "markPrice"@)) is Some
    &&& json_number_text(json_field(v, "lastFundingRate"@)) is Some
    &&& json_int_in(json_field(v, "nextFundingTime"@), 0, u64::MAX as int) is Some
    &&& json_int_in(json_field(v, "time"@), 0, u64::MAX as int) is Some
}

/// `x` holds exactly what the JSON value says.
pub open spec fn mark_price_matches(v: JsonValue, x: MarkPrice) -> bool {
    &&& json_text(json_field(v, "symbol"@)) == Some(x.symbol@)
    &&& json_number_text(json_field(v, "markPrice"@)) == Some(x.mark_price@)
    &&& json_number_text(json_field(v, "lastFundingRate"@)) == Some(x.last_funding_rate@)
    &&& json_int_in(json_field(v, "nextFundingTime"@), 0, u64::MAX as int) == Some(x.next_funding_time as int)
    &&& json_int_in(json_field(v, "time"@), 0, u64::MAX as int) == Some(x.time as int)
}

/// Reads `MarkPrice` from its JSON object; `None` where a member is missing or mistyped.
pub fn decode_mark_price(v: &JsonValue) -> (r: Option<MarkPrice>)
    ensures
        r is Some <==> mark_price_decodes(*v),
        r matches Some(x) ==> mark_price_matches(*v, x),
{
    let symbol = match text_field(v, "symbol") { Some(x) => x, None => return None };
    let mark_price = match number_field(v, "markPrice") { Some(x) => x, None => return None };
    let last_funding_rate = match number_field(v, "lastFundingRate") { Some(x) => x, None => return None };
    let next_funding_time = match u64_field(v, "nextFundingTime") { Some(x) => x, None => return None };
    let time = match u64_field(v, "time") { Some(x) => x, None => return None };
    Some(MarkPrice {
        symbol,
        mark_price,
        last_funding_rate,
        next_funding_time,
        time,
    })
}

/// A JSON array whose every element is a `MarkPrice`.
pub open spec fn mark_price_list_decodes(f: Option<JsonValue>) -> bool {
    match f {
        Some(JsonValue::Array(a)) => forall|i: int| 0 <= i < a@.len() ==> mark_price_decodes(#[trigger] a@[i]),
        _ => false,
    }
}

/// `xs` holds the array's elements, in order.
pub open spec fn mark_price_list_matches(f: Option<JsonValue>, xs: Vec<MarkPrice>) -> bool {
    match f {
        Some(JsonValue::Array(a)) => xs@.len() == a@.len() && forall|i: int|
            0 <= i < a@.len() ==> mark_price_matches(#[trigger] a@[i], xs@[i]),
        _ => false,
    }
}

/// Reads an array of `MarkPrice`; `None` unless every element reads.
pub fn decode_mark_price_list(f: Option<&JsonValue>) -> (r: Option<Vec<MarkPrice>>)
    ensures
        r is Some <==> mark_price_list_decodes(match f { Some(x) => Some(*x), None => None }),
        r matches Some(xs) ==> mark_price_list_matches(match f { Some(x) => Some(*x), None => None }, xs),
{
    match f {
        Some(JsonValue::Array(a)) => {
            let mut out: Vec<MarkPrice> = Vec::new();
            let mut i: usize = 0;
            while i < a.len()
                invariant
                    i <= a@.len(),
                    match f { Some(x) => *x == JsonValue::Array(*a), None => false },
                    out@.len() == i,
                    forall|j: int| 0 <= j < i ==> mark_price_decodes(#[trigger] a@[j]),
                    forall|j: int| 0 <= j < i ==> mark_price_matches(#[trigger] a@[j], out@[j]),
                decreases a@.len() - i,
            {
                match decode_mark_price(&a[i]) {
                    Some(x) => out.push(x),
                    None => {
                        proof {
                            let fv = match f { Some(x) => Some(*x), None => None };
                            assert(fv == Some(JsonValue::Array(*a)));
                            assert(!mark_price_decodes(a@[i as int]));
                            let aa = fv->0->Array_0;
                            assert(aa == *a);
                            assert(aa@ == a@);
                            assert(aa@[i as int] == a@[i as int]);
                            assert(!mark_price_decodes(aa@[i as int]));
                            assert(!mark_price_list_decodes(fv));
                        }
                        return None;
                    },
                }
                i = i + 1;
            }
            Some(out)
        },
        _ => None,
    }
}

/// Mark prices of several symbols.
#[derive(Debug)]
pub enum MarkPrices {
    AllMarkPrices(Vec<MarkPrice>),
}

/// Reads an array of `MarkPrice`.
pub fn decode_mark_prices(v: &JsonValue) -> (r: Option<MarkPrices>)
    ensures
        r is Some <==> mark_price_list_decodes(Some(*v)),
        r matches Some(MarkPrices::AllMarkPrices(xs)) ==> mark_price_list_matches(Some(*v), xs),
{
    match decode_mark_price_list(Some(v)) {
        Some(xs) => Some(MarkPrices::AllMarkPrices(xs)),
        None => None,
    }
}

/// A forced liquidation order.
#[derive(Debug)]
pub struct LiquidationOrder {
    pub average_price: String,
    pub executed_qty: String,
    pub orig_qty: String,
    pub price: String,
    pub side: String,
    pub status: String,
    pub symbol: String,
    pub time: u64,
    pub time_in_force: String,
    pub order_type: String,
}

/// The JSON value holds every member that `LiquidationOrder` needs, each of the right type.
pub open spec fn liquidation_order_decodes(v: JsonValue) -> bool {
    &&& json_number_text(json_field(v, "averagePrice"@)) is Some
    &&& json_number_text(json_field(v, "executedQty"@)) is Some
    &&& json_number_text(json_field(v, "origQty"@)) is Some
    &&& json_number_text(json_field(v, "price"@)) is Some
    &&& json_text(json_field(v, "side"@)) is Some
    &&& json_text(json_field(v, "status"@)) is Some
    &&& json_text(json_field(v, "symbol"@)) is Some
    &&& json_int_in(json_field(v, "time"@), 0, u64::MAX as int) is Some
    &&& json_text(json_field(v, "timeInForce"@)) is Some
    &&& json_text(json_field(v, "type"@)) is Some
}

/// `x` holds exactly what the JSON value says.
pub open spec fn liquidation_order_matches(v: JsonValue, x: LiquidationOrder) -> bool {
    &&& json_number_text(json_field(v, "averagePrice"@)) == Some(x.average_price@)
    &&& json_number_text(json_field(v, "executedQty"@)) == Some(x.executed_qty@)
    &&& json_number_text(json_field(v, "origQty"@)) == Some(x.orig_qty@)
    &&& json_number_text(json_field(v, "price"@)) == Some(x.price@)
    &&& json_text(json_field(v, "side"@)) == Some(x.side@)
    &&& json_text(json_field(v, "status"@)) == Some(x.status@)
    &&& json_text(json_field(v, "symbol"@)) == Some(x.symbol@)
    &&& json_int_in(json_field(v, "time"@), 0, u64::MAX as int) == Some(x.time as int)
    &&& json_text(json_field(v, "timeInForce"@)) == Some(x.time_in_force@)
    &&& json_text(json_field(v, "type"@)) == Some(x.order_type@)
}

/// Reads `LiquidationOrder` from its JSON object; `None` where a member is missing or mistyped.
pub fn decode_liquidation_order(v: &JsonValue) -> (r: Option<LiquidationOrder>)
    ensures
        r is Some <==> liquidation_order_decodes(*v),
        r matches Some(x) ==> liquidation_order_matches(*v, x),
{
    let average_price = match number_field(v, "averagePrice") { Some(x) => x, None => return None };
    let executed_qty = match number_field(v, "executedQty") { Some(x) => x, None => return None };
    let orig_qty = match number_field(v, "origQty") { Some(x) => x, None => return None };
    let price = match number_field(v, "price") { Some(x) => x, None => return None };
    let side = match text_field(v, "side") { Some(x) => x, None => return None };
    let status = match text_field(v, "status") { Some(x) => x, None => return None };
    let symbol = match text_field(v, "symbol") { Some(x) => x, None => return None };
    let time = match u64_field(v, "time") { Some(x) => x, None => return None };
    let time_in_force = match text_field(v, "timeInForce") { Some(x) => x, None => return None };
    let order_type = match text_field(v, "type") { Some(x) => x, None => return None };
    Some(LiquidationOrder {
        average_price,
        executed_qty,
        orig_qty,
        price,
        side,
        status,
        symbol,
        time,
        time_in_force,
        order_type,
    })
}

/// A JSON array whose every element is a `LiquidationOrder`.
pub open spec fn liquidation_order_list_decodes(f: Option<JsonValue>) -> bool {
    match f {
        Some(JsonValue::Array(a)) => forall|i: int| 0 <= i < a@.len() ==> liquidation_order_decodes(#[trigger] a@[i]),
        _ => false,
    }
}

/// `xs` holds the array's elements, in order.
pub open spec fn liquidation_order_list_matches(f: Option<JsonValue>, xs: Vec<LiquidationOrder>) -> bool {
    match f {
        Some(JsonValue::Array(a)) => xs@.len() == a@.len() && forall|i: int|
            0 <= i < a@.len() ==> liquidation_order_matches(#[trigger] a@[i], xs@[i]),
        _ => false,
    }
}

/// Reads an array of `LiquidationOrder`; `None` unless every element reads.
pub fn decode_liquidation_order_list(f: Option<&JsonValue>) -> (r: Option<Vec<LiquidationOrder>>)
    ensures
        r is Some <==> liquidation_order_list_decodes(match f { Some(x) => Some(*x), None => None }),
        r matches Some(xs) ==> liquidation_order_list_matches(match f { Some(x) => Some(*x), None => None }, xs),
{
    match f {
        Some(JsonValue::Array(a)) => {
            let mut out: Vec<LiquidationOrder> = Vec::new();
            let mut i: usize = 0;
            while i < a.len()
                invariant
                    i <= a@.len(),
                    match f { Some(x) => *x == JsonValue::Array(*a), None => false },
                    out@.len() == i,
                    forall|j: int| 0 <= j < i ==> liquidation_order_decodes(#[trigger] a@[j]),
                    forall|j: int| 0 <= j < i ==> liquidation_order_matches(#[trigger] a@[j], out@[j]),
                decreases a@.len() - i,
            {
                match decode_liquidation_order(&a[i]) {
                    Some(x) => out.push(x),
                    None => {
                        proof {
                            let fv = match f { Some(x) => Some(*x), None => None };
                            assert(fv == Some(JsonValue::Array(*a)));
                            assert(!liquidation_order_decodes(a@[i as int]));
                            let aa = fv->0->Array_0;
                            assert(aa == *a);
                            assert(aa@ == a@);
                            assert(aa@[i as int] == a@[i as int]);
                            assert(!liquidation_order_decodes(aa@[i as int]));
                            assert(!liquidation_order_list_decodes(fv));
                        }
                        return None;
                    },
                }
                i = i + 1;
            }
            Some(out)
        },
        _ => None,
    }
}

/// A list of liquidation orders.
#[derive(Debug)]
pub enum LiquidationOrders {
    AllLiquidationOrders(Vec<LiquidationOrder>),
}

/// Reads an array of `LiquidationOrder`.
pub fn decode_liquidation_orders(v: &JsonValue) -> (r: Option<LiquidationOrders>)
    ensures
        r is Some <==> liquidation_order_list_decodes(Some(*v)),
        r matches Some(LiquidationOrders::AllLiquidationOrders(xs)) ==> liquidation_order_list_matches(Some(*v), xs),
{
    match decode_liquidation_order_list(Some(v)) {
        Some(xs) => Some(LiquidationOrders::AllLiquidationOrders(xs)),
        None => None,
    }
}

/// Open interest of a symbol.
#[derive(Debug)]
pub struct OpenInterest {
    pub open_interest: String,
    pub symbol: String,
}

/// The JSON value holds every member that `OpenInterest` needs, each of the right type.
pub open spec fn open_interest_decodes(v: JsonValue) -> bool {
    &&& json_number_text(json_field(v, "openInterest"@)) is Some
    &&& json_text(json_field(v, "symbol"@)) is Some
}

/// `x` holds exactly what the JSON value says.
pub open spec fn open_interest_matches(v: JsonValue, x: OpenInterest) -> bool {
    &&& json_number_text(json_field(v, "openInterest"@)) == Some(x.open_interest@)
    &&& json_text(json_field(v, "symbol"@)) == Some(x.symbol@)
}

/// Reads `OpenInterest` from its JSON object; `None` where a member is missing or mistyped.
pub fn decode_open_interest(v: &JsonValue) -> (r: Option<OpenInterest>)
    ensures
        r is Some <==> open_interest_decodes(*v),
        r matches Some(x) ==> open_interest_matches(*v, x),
{
    let open_interest = match number_field(v, "openInterest") { Some(x) => x, None => return None };
    let symbol = match text_field(v, "symbol") { Some(x) => x, None => return None };
    Some(OpenInterest { open_interest, symbol })
}

/// The exchange's answer to a new order.
#[derive(Debug)]
pub struct Transaction {
    pub client_order_id: String,
    pub cum_qty: String,
    pub cum_quote: String,
    pub executed_qty: String,
    pub order_id: u64,
    pub avg_price: String,
    pub orig_qty: String,
    pub reduce_only: bool,
    pub side: String,
    pub position_side: String,
    pub status: String,
    pub stop_price: String,
    pub close_position: bool,
    pub symbol: String,
    pub time_in_force: String,
    pub order_type: String,
    pub orig_type: String,
    /// Absent unless the order is a trailing stop.
    pub activate_price: Option<String>,
    /// Absent unless the order is a trailing stop.
    pub price_rate: Option<String>,
    pub update_time: u64,
    pub working_type: String,
    pub price_protect: bool,
}

/// The JSON value holds every member that `Transaction` needs, each of the right type.
pub open spec fn transaction_decodes(v: JsonValue) -> bool {
    &&& json_text(json_field(v, "clientOrderId"@)) is Some
    &&& json_number_text(json_field(v, "cumQty"@)) is Some
    &&& json_number_text(json_field(v, "cumQuote"@)) is Some
    &&& json_number_text(json_field(v, "executedQty"@)) is Some
    &&& json_int_in(json_field(v, "orderId"@), 0, u64::MAX as int) is Some
    &&& json_number_text(json_field(v, "avgPrice"@)) is Some
    &&& json_number_text(json_field(v, "origQty"@)) is Some
    &&& json_bool(json_field(v, "reduceOnly"@)) is Some
    &&& json_text(json_field(v, "side"@)) is Some
    &&& json_text(json_field(v, "positionSide"@)) is Some
    &&& json_text(json_field(v, "status"@)) is Some
    &&& json_number_text(json_field(v, "stopPrice"@)) is Some
    &&& json_bool(json_field(v, "closePosition"@)) is Some
    &&& json_text(json_field(v, "symbol"@)) is Some
    &&& json_text(json_field(v, "timeInForce"@)) is Some
    &&& json_text(json_field(v, "type"@)) is Some
    &&& json_text(json_field(v, "origType"@)) is Some
    &&& (json_field(v, "activatePrice"@) is None || json_field(v, "activatePrice"@) matches Some(JsonValue::Null) || json_number_text(json_field(v, "activatePrice"@)) is Some)
    &&& (json_field(v, "priceRate"@) is None || json_field(v, "priceRate"@) matches Some(JsonValue::Null) || json_number_text(json_field(v, "priceRate"@)) is Some)
    &&& json_int_in(json_field(v, "updateTime"@), 0, u64::MAX as int) is Some
    &&& json_text(json_field(v, "workingType"@)) is Some
    &&& json_bool(json_field(v, "priceProtect"@)) is Some
}

/// `x` holds exactly what the JSON value says.
pub open spec fn transaction_matches(v: JsonValue, x: Transaction) -> bool {
    &&& json_text(json_field(v, "clientOrderId"@)) == Some(x.client_order_id@)
    &&& json_number_text(json_field(v, "cumQty"@)) == Some(x.cum_qty@)
    &&& json_number_text(json_field(v, "cumQuote"@)) == Some(x.cum_quote@)
    &&& json_number_text(json_field(v, "executedQty"@)) == Some(x.executed_qty@)
    &&& json_int_in(json_field(v, "orderId"@), 0, u64::MAX as int) == Some(x.order_id as int)
    &&& json_number_text(json_field(v, "avgPrice"@)) == Some(x.avg_price@)
    &&& json_number_text(json_field(v, "origQty"@)) == Some(x.orig_qty@)
    &&& json_bool(json_field(v, "reduceOnly"@)) == Some(x.reduce_only)
    &&& json_text(json_field(v, "side"@)) == Some(x.side@)
    &&& json_text(json_field(v, "positionSide"@)) == Some(x.position_side@)
    &&& json_text(json_field(v, "status"@)) == Some(x.status@)
    &&& json_number_text(json_field(v, "stopPrice"@)) == Some(x.stop_price@)
    &&& json_bool(json_field(v, "closePosition"@)) == Some(x.close_position)
    &&& json_text(json_field(v, "symbol"@)) == Some(x.symbol@)
    &&& json_text(json_field(v, "timeInForce"@)) == Some(x.time_in_force@)
    &&& json_text(json_field(v, "type"@)) == Some(x.order_type@)
    &&& json_text(json_field(v, "origType"@)) == Some(x.orig_type@)
    &&& (if json_field(v, "activatePrice"@) is None || json_field(v, "activatePrice"@) matches Some(JsonValue::Null) { x.activate_price is None } else { json_number_text(json_field(v, "activatePrice"@)) == opt_view(x.activate_price) })
    &&& (if json_field(v, "priceRate"@) is None || json_field(v, "priceRate"@) matches Some(JsonValue::Null) { x.price_rate is None } else { json_number_text(json_field(v, "priceRate"@)) == opt_view(x.price_rate) })
    &&& json_int_in(json_field(v, "updateTime"@), 0, u64::MAX as int) == Some(x.update_time as int)
    &&& json_text(json_field(v, "workingType"@)) == Some(x.working_type@)
    &&& json_bool(json_field(v, "priceProtect"@)) == Some(x.price_protect)
}

/// Reads `Transaction` from its JSON object; `None` where a member is missing or mistyped.
pub fn decode_transaction(v: &JsonValue) -> (r: Option<Transaction>)
    ensures
        r is Some <==> transaction_decodes(*v),
        r matches Some(x) ==> transaction_matches(*v, x),
{
    let client_order_id = match text_field(v, "clientOrderId") { Some(x) => x, None => return None };
    let cum_qty = match number_field(v, "cumQty") { Some(x) => x, None => return None };
    let cum_quote = match number_field(v, "cumQuote") { Some(x) => x, None => return None };
    let executed_qty = match number_field(v, "executedQty") { Some(x) => x, None => return None };
    let order_id = match u64_field(v, "orderId") { Some(x) => x, None => return None };
    let avg_price = match number_field(v, "avgPrice") { Some(x) => x, None => return None };
    let orig_qty = match number_field(v, "origQty") { Some(x) => x, None => return None };
    let reduce_only = match bool_field(v, "reduceOnly") { Some(x) => x, None => return None };
    let side = match text_field(v, "side") { Some(x) => x, None => return None };
    let position_side = match text_field(v, "positionSide") { Some(x) => x, None => return None };
    let status = match text_field(v, "status") { Some(x) => x, None => return None };
    let stop_price = match number_field(v, "stopPrice") { Some(x) => x, None => return None };
    let close_position = match bool_field(v, "closePosition") { Some(x) => x, None => return None };
    let symbol = match text_field(v, "symbol") { Some(x) => x, None => return None };
    let time_in_force = match text_field(v, "timeInForce") { Some(x) => x, None => return None };
    let order_type = match text_field(v, "type") { Some(x) => x, None => return None };
    let orig_type = match text_field(v, "origType") { Some(x) => x, None => return None };
    let activate_price = match field(v, "activatePrice") { None => None, Some(JsonValue::Null) => None, Some(_) => match number_field(v, "activatePrice") { Some(x) => Some(x), None => return None } };
    let price_rate = match field(v, "priceRate") { None => None, Some(JsonValue::Null) => None, Some(_) => match number_field(v, "priceRate") { Some(x) => Some(x), None => return None } };
    let update_time = match u64_field(v, "updateTime") { Some(x) => x, None => return None };
    let working_type = match text_field(v, "workingType") { Some(x) => x, None => return None };
    let price_protect = match bool_field(v, "priceProtect") { Some(x) => x, None => return None };
    Some(Transaction {
        client_order_id,
        cum_qty,
        cum_quote,
        executed_qty,
        order_id,
        avg_price,
        orig_qty,
        reduce_only,
        side,
        position_side,
        status,
        stop_price,
        close_position,
        symbol,
        time_in_force,
        order_type,
        orig_type,
        activate_price,
        price_rate,
        update_time,
        working_type,
        price_protect,
    })
}

/// The exchange's answer to a cancellation.
#[derive(Debug)]
pub struct CanceledOrder {
    pub client_order_id: String,
    pub cum_qty: String,
    pub cum_quote: String,
    pub executed_qty: String,
    pub order_id: u64,
    pub orig_qty: String,
    pub orig_type: String,
    pub price: String,
    pub reduce_only: bool,
    pub side: String,
    pub position_side: String,
    pub status: String,
    pub stop_price: String,
    pub close_position: bool,
    pub symbol: String,
    pub time_in_force: String,
    pub order_type: String,
    /// Absent unless the order is a trailing stop.
    pub activate_price: Option<String>,
    /// Absent unless the order is a trailing stop.
    pub price_rate: Option<String>,
    pub update_time: u64,
    pub working_type: String,
    pub price_protect: bool,
}

/// The JSON value holds every member that `CanceledOrder` needs, each of the right type.
pub open spec fn canceled_order_decodes(v: JsonValue) -> bool {
    &&& json_text(json_field(v, "clientOrderId"@)) is Some
    &&& json_number_text(json_field(v, "cumQty"@)) is Some
    &&& json_number_text(json_field(v, "cumQuote"@)) is Some
    &&& json_number_text(json_field(v, "executedQty"@)) is Some
    &&& json_int_in(json_field(v, "orderId"@), 0, u64::MAX as int) is Some
    &&& json_number_text(json_field(v, "origQty"@)) is Some
    &&& json_text(json_field(v, "origType"@)) is Some
    &&& json_number_text(json_field(v, "price"@)) is Some
    &&& json_bool(json_field(v, "reduceOnly"@)) is Some
    &&& json_text(json_field(v, "side"@)) is Some
    &&& json_text(json_field(v, "positionSide"@)) is Some
    &&& json_text(json_field(v, "status"@)) is Some
    &&& json_number_text(json_field(v, "stopPrice"@)) is Some
    &&& json_bool(json_field(v, "closePosition"@)) is Some
    &&& json_text(json_field(v, "symbol"@)) is Some
    &&& json_text(json_field(v, "timeInForce"@)) is Some
    &&& json_text(json_field(v, "type"@)) is Some
    &&& (json_field(v, "activatePrice"@) is None || json_field(v, "activatePrice"@) matches Some(JsonValue::Null) || json_number_text(json_field(v, "activatePrice"@)) is Some)
    &&& (json_field(v, "priceRate"@) is None || json_field(v, "priceRate"@) matches Some(JsonValue::Null) || json_number_text(json_field(v, "priceRate"@)) is Some)
    &&& json_int_in(json_field(v, "updateTime"@), 0, u64::MAX as int) is Some
    &&& json_text(json_field(v, "workingType"@)) is Some
    &&& json_bool(json_field(v, "priceProtect"@)) is Some
}

/// `x` holds exactly what the JSON value says.
pub open spec fn canceled_order_matches(v: JsonValue, x: CanceledOrder) -> bool {
    &&& json_text(json_field(v, "clientOrderId"@)) == Some(x.client_order_id@)
    &&& json_number_text(json_field(v, "cumQty"@)) == Some(x.cum_qty@)
    &&& json_number_text(json_field(v, "cumQuote"@)) == Some(x.cum_quote@)
    &&& json_number_text(json_field(v, "executedQty"@)) == Some(x.executed_qty@)
    &&& json_int_in(json_field(v, "orderId"@), 0, u64::MAX as int) == Some(x.order_id as int)
    &&& json_number_text(json_field(v, "origQty"@)) == Some(x.orig_qty@)
    &&& json_text(json_field(v, "origType"@)) == Some(x.orig_type@)
    &&& json_number_text(json_field(v, "price"@)) == Some(x.price@)
    &&& json_bool(json_field(v, "reduceOnly"@)) == Some(x.reduce_only)
    &&& json_text(json_field(v, "side"@)) == Some(x.side@)
    &&& json_text(json_field(v, "positionSide"@)) == Some(x.position_side@)
    &&& json_text(json_field(v, "status"@)) == Some(x.status@)
    &&& json_number_text(json_field(v, "stopPrice"@)) == Some(x.stop_price@)
    &&& json_bool(json_field(v, "closePosition"@)) == Some(x.close_position)
    &&& json_text(json_field(v, "symbol"@)) == Some(x.symbol@)
    &&& json_text(json_field(v, "timeInForce"@)) == Some(x.time_in_force@)
    &&& json_text(json_field(v, "type"@)) == Some(x.order_type@)
    &&& (if json_field(v, "activatePrice"@) is None || json_field(v, "activatePrice"@) matches Some(JsonValue::Null) { x.activate_price is None } else { json_number_text(json_field(v, "activatePrice"@)) == opt_view(x.activate_price) })
    &&& (if json_field(v, "priceRate"@) is None || json_field(v, "priceRate"@) matches Some(JsonValue::Null) { x.price_rate is None } else { json_number_text(json_field(v, "priceRate"@)) == opt_view(x.price_rate) })
    &&& json_int_in(json_field(v, "updateTime"@), 0, u64::MAX as int) == Some(x.update_time as int)
    &&& json_text(json_field(v, "workingType"@)) == Some(x.working_type@)
    &&& json_bool(json_field(v, "priceProtect"@)) == Some(x.price_protect)
}

/// Reads `CanceledOrder` from its JSON object; `None` where a member is missing or mistyped.
pub fn decode_canceled_order(v: &JsonValue) -> (r: Option<CanceledOrder>)
    ensures
        r is Some <==> canceled_order_decodes(*v),
        r matches Some(x) ==> canceled_order_matches(*v, x),
{
    let client_order_id = match text_field(v, "clientOrderId") { Some(x) => x, None => return None };
    let cum_qty = match number_field(v, "cumQty") { Some(x) => x, None => return None };
    let cum_quote = match number_field(v, "cumQuote") { Some(x) => x, None => return None };
    let executed_qty = match number_field(v, "executedQty") { Some(x) => x, None => return None };
    let order_id = match u64_field(v, "orderId") { Some(x) => x, None => return None };
    let orig_qty = match number_field(v, "origQty") { Some(x) => x, None => return None };
    let orig_type = match text_field(v, "origType") { Some(x) => x, None => return None };
    let price = match number_field(v, "price") { Some(x) => x, None => return None };
    let reduce_only = match bool_field(v, "reduceOnly") { Some(x) => x, None => return None };
    let side = match text_field(v, "side") { Some(x) => x, None => return None };
    let position_side = match text_field(v, "positionSide") { Some(x) => x, None => return None };
    let status = match text_field(v, "status") { Some(x) => x, None => return None };
    let stop_price = match number_field(v, "stopPrice") { Some(x) => x, None => return None };
    let close_position = match bool_field(v, "closePosition") { Some(x) => x, None => return None };
    let symbol = match text_field(v, "symbol") { Some(x) => x, None => return None };
    let time_in_force = match text_field(v, "timeInForce") { Some(x) => x, None => return None };
    let order_type = match text_field(v, "type") { Some(x) => x, None => return None };
    let activate_price = match field(v, "activatePrice") { None => None, Some(JsonValue::Null) => None, Some(_) => match number_field(v, "activatePrice") { Some(x) => Some(x), None => return None } };
    let price_rate = match field(v, "priceRate") { None => None, Some(JsonValue::Null) => None, Some(_) => match number_field(v, "priceRate") { Some(x) => Some(x), None => return None } };
    let update_time = match u64_field(v, "updateTime") { Some(x) => x, None => return None };
    let working_type = match text_field(v, "workingType") { Some(x) => x, None => return None };
    let price_protect = match bool_field(v, "priceProtect") { Some(x) => x, None => return None };
    Some(CanceledOrder {
        client_order_id,
        cum_qty,
        cum_quote,
        executed_qty,
        order_id,
        orig_qty,
        orig_type,
        price,
        reduce_only,
        side,
        position_side,
        status,
        stop_price,
        close_position,
        symbol,
        time_in_force,
        order_type,
        activate_price,
        price_rate,
        update_time,
        working_type,
        price_protect,
    })
}

/// A position's risk figures.
#[derive(Debug)]
pub struct Position {
    pub entry_price: String,
    pub margin_type: String,
    pub is_auto_add_margin: bool,
    pub isolated_margin: String,
    pub leverage: String,
    pub liquidation_price: String,
    pub mark_price: String,
    pub max_notional_value: String,
    pub position_amount: String,
    pub symbol: String,
    pub unrealized_profit: String,
    pub position_side: String,
}

/// The JSON value holds every member that `Position` needs, each of the right type.
pub open spec fn position_decodes(v: JsonValue) -> bool {
    &&& json_number_text(json_field(v, "entryPrice"@)) is Some
    &&& json_text(json_field(v, "marginType"@)) is Some
    &&& json_flag(json_field(v, "isAutoAddMargin"@)) is Some
    &&& json_number_text(json_field(v, "isolatedMargin"@)) is Some
    &&& json_text(json_field(v, "leverage"@)) is Some
    &&& json_number_text(json_field(v, "liquidationPrice"@)) is Some
    &&& json_number_text(json_field(v, "markPrice"@)) is Some
    &&& json_number_text(json_field(v, "maxNotionalValue"@)) is Some
    &&& json_number_text(json_field(v, "positionAmt"@)) is Some
    &&& json_text(json_field(v, "symbol"@)) is Some
    &&& json_number_text(json_field(v, "unRealizedProfit"@)) is Some
    &&& json_text(json_field(v, "positionSide"@)) is Some
}

/// `x` holds exactly what the JSON value says.
pub open spec fn position_matches(v: JsonValue, x: Position) -> bool {
    &&& json_number_text(json_field(v, "entryPrice"@)) == Some(x.entry_price@)
    &&& json_text(json_field(v, "marginType"@)) == Some(x.margin_type@)
    &&& json_flag(json_field(v, "isAutoAddMargin"@)) == Some(x.is_auto_add_margin)
    &&& json_number_text(json_field(v, "isolatedMargin"@)) == Some(x.isolated_margin@)
    &&& json_text(json_field(v, "leverage"@)) == Some(x.leverage@)
    &&& json_number_text(json_field(v, "liquidationPrice"@)) == Some(x.liquidation_price@)
    &&& json_number_text(json_field(v, "markPrice"@)) == Some(x.mark_price@)
    &&& json_number_text(json_field(v, "maxNotionalValue"@)) == Some(x.max_notional_value@)
    &&& json_number_text(json_field(v, "positionAmt"@)) == Some(x.position_amount@)
    &&& json_text(json_field(v, "symbol"@)) == Some(x.symbol@)
    &&& json_number_text(json_field(v, "unRealizedProfit"@)) == Some(x.unrealized_profit@)
    &&& json_text(json_field(v, "positionSide"@)) == Some(x.position_side@)
}

/// Reads `Position` from its JSON object; `None` where a member is missing or mistyped.
pub fn decode_position(v: &JsonValue) -> (r: Option<Position>)
    ensures
        r is Some <==> position_decodes(*v),
        r matches Some(x) ==> position_matches(*v, x),
{
    let entry_price = match number_field(v, "entryPrice") { Some(x) => x, None => return None };
    let margin_type = match text_field(v, "marginType") { Some(x) => x, None => return None };
    let is_auto_add_margin = match flag_field(v, "isAutoAddMargin") { Some(x) => x, None => return None };
    let isolated_margin = match number_field(v, "isolatedMargin") { Some(x) => x, None => return None };
    let leverage = match text_field(v, "leverage") { Some(x) => x, None => return None };
    let liquidation_price = match number_field(v, "liquidationPrice") { Some(x) => x, None => return None };
    let mark_price = match number_field(v, "markPrice") { Some(x) => x, None => return None };
    let max_notional_value = match number_field(v, "maxNotionalValue") { Some(x) => x, None => return None };
    let position_amount = match number_field(v, "positionAmt") { Some(x) => x, None => return None };
    let symbol = match text_field(v, "symbol") { Some(x) => x, None => return None };
    let unrealized_profit = match number_field(v, "unRealizedProfit") { Some(x) => x, None => return None };
    let position_side = match text_field(v, "positionSide") { Some(x) => x, None => return None };
    Some(Position {
        entry_price,
        margin_type,
        is_auto_add_margin,
        isolated_margin,
        leverage,
        liquidation_price,
        mark_price,
        max_notional_value,
        position_amount,
        symbol,
        unrealized_profit,
        position_side,
    })
}

/// A JSON array whose every element is a `Position`.
pub open spec fn position_list_decodes(f: Option<JsonValue>) -> bool {
    match f {
        Some(JsonValue::Array(a)) => forall|i: int| 0 <= i < a@.len() ==> position_decodes(#[trigger] a@[i]),
        _ => false,
    }
}

/// `xs` holds the array's elements, in order.
pub open spec fn position_list_matches(f: Option<JsonValue>, xs: Vec<Position>) -> bool {
    match f {
        Some(JsonValue::Array(a)) => xs@.len() == a@.len() && forall|i: int|
            0 <= i < a@.len() ==> position_matches(#[trigger] a@[i], xs@[i]),
        _ => false,
    }
}

/// Reads an array of `Position`; `None` unless every element reads.
pub fn decode_position_list(f: Option<&JsonValue>) -> (r: Option<Vec<Position>>)
    ensures
        r is Some <==> position_list_decodes(match f { Some(x) => Some(*x), None => None }),
        r matches Some(xs) ==> position_list_matches(match f { Some(x) => Some(*x), None => None }, xs),
{
    match f {
        Some(JsonValue::Array(a)) => {
            let mut out: Vec<Position> = Vec::new();
            let mut i: usize = 0;
            while i < a.len()
                invariant
                    i <= a@.len(),
                    match f { Some(x) => *x == JsonValue::Array(*a), None => false },
                    out@.len() == i,
                    forall|j: int| 0 <= j < i ==> position_decodes(#[trigger] a@[j]),
                    forall|j: int| 0 <= j < i ==> position_matches(#[trigger] a@[j], out@[j]),
                decreases a@.len() - i,
            {
                match decode_position(&a[i]) {
                    Some(x) => out.push(x),
                    None => {
                        proof {
                            let fv = match f { Some(x) => Some(*x), None => None };
                            assert(fv == Some(JsonValue::Array(*a)));
                            assert(!position_decodes(a@[i as int]));
                            let aa = fv->0->Array_0;
                            assert(aa == *a);
                            assert(aa@ == a@);
                            assert(aa@[i as int] == a@[i as int]);
                            assert(!position_decodes(aa@[i as int]));
                            assert(!position_list_decodes(fv));
                        }
                        return None;
                    },
                }
                i = i + 1;
            }
            Some(out)
        },
        _ => None,
    }
}

/// The balance of one asset.
#[derive(Debug)]
pub struct AccountBalance {
    pub account_alias: String,
    pub asset: String,
    pub balance: String,
    pub cross_wallet_balance: String,
    pub cross_unrealized_pnl: String,
    pub available_balance: String,
    pub max_withdraw_amount: String,
    pub margin_available: bool,
    pub update_time: u64,
}

/// The JSON value holds every member that `AccountBalance` needs, each of the right type.
pub open spec fn account_balance_decodes(v: JsonValue) -> bool {
    &&& json_text(json_field(v, "accountAlias"@)) is Some
    &&& json_text(json_field(v, "asset"@)) is Some
    &&& json_number_text(json_field(v, "balance"@)) is Some
    &&& json_number_text(json_field(v, "crossWalletBalance"@)) is Some
    &&& json_number_text(json_field(v, "crossUnPnl"@)) is Some
    &&& json_number_text(json_field(v, "availableBalance"@)) is Some
    &&& json_number_text(json_field(v, "maxWithdrawAmount"@)) is Some
    &&& json_bool(json_field(v, "marginAvailable"@)) is Some
    &&& json_int_in(json_field(v, "updateTime"@), 0, u64::MAX as int) is Some
}

/// `x` holds exactly what the JSON value says.
pub open spec fn account_balance_matches(v: JsonValue, x: AccountBalance) -> bool {
    &&& json_text(json_field(v, "accountAlias"@)) == Some(x.account_alias@)
    &&& json_text(json_field(v, "asset"@)) == Some(x.asset@)
    &&& json_number_text(json_field(v, "balance"@)) == Some(x.balance@)
    &&& json_number_text(json_field(v, "crossWalletBalance"@)) == Some(x.cross_wallet_balance@)
    &&& json_number_text(json_field(v, "crossUnPnl"@)) == Some(x.cross_unrealized_pnl@)
    &&& json_number_text(json_field(v, "availableBalance"@)) == Some(x.available_balance@)
    &&& json_number_text(json_field(v, "maxWithdrawAmount"@)) == Some(x.max_withdraw_amount@)
    &&& json_bool(json_field(v, "marginAvailable"@)) == Some(x.margin_available)
    &&& json_int_in(json_field(v, "updateTime"@), 0, u64::MAX as int) == Some(x.update_time as int)
}

/// Reads `AccountBalance` from its JSON object; `None` where a member is missing or mistyped.
pub fn decode_account_balance(v: &JsonValue) -> (r: Option<AccountBalance>)
    ensures
        r is Some <==> account_balance_decodes(*v),
        r matches Some(x) ==> account_balance_matches(*v, x),
{
    let account_alias = match text_field(v, "accountAlias") { Some(x) => x, None => return None };
    let asset = match text_field(v, "asset") { Some(x) => x, None => return None };
    let balance = match number_field(v, "balance") { Some(x) => x, None => return None };
    let cross_wallet_balance = match number_field(v, "crossWalletBalance") { Some(x) => x, None => return None };
    let cross_unrealized_pnl = match number_field(v, "crossUnPnl") { Some(x) => x, None => return None };
    let available_balance = match number_field(v, "availableBalance") { Some(x) => x, None => return None };
    let max_withdraw_amount = match number_field(v, "maxWithdrawAmount") { Some(x) => x, None => return None };
    let margin_available = match bool_field(v, "marginAvailable") { Some(x) => x, None => return None };
    let update_time = match u64_field(v, "updateTime") { Some(x) => x, None => return None };
    Some(AccountBalance {
        account_alias,
        asset,
        balance,
        cross_wallet_balance,
        cross_unrealized_pnl,
        available_balance,
        max_withdraw_amount,
        margin_available,
        update_time,
    })
}

/// A JSON array whose every element is a `AccountBalance`.
pub open spec fn account_balance_list_decodes(f: Option<JsonValue>) -> bool {
    match f {
        Some(JsonValue::Array(a)) => forall|i: int| 0 <= i < a@.len() ==> account_balance_decodes(#[trigger] a@[i]),
        _ => false,
    }
}

/// `xs` holds the array's elements, in order.
pub open spec fn account_balance_list_matches(f: Option<JsonValue>, xs: Vec<AccountBalance>) -> bool {
    match f {
        Some(JsonValue::Array(a)) => xs@.len() == a@.len() && forall|i: int|
            0 <= i < a@.len() ==> account_balance_matches(#[trigger] a@[i], xs@[i]),
        _ => false,
    }
}

/// Reads an array of `AccountBalance`; `None` unless every element reads.
pub fn decode_account_balance_list(f: Option<&JsonValue>) -> (r: Option<Vec<AccountBalance>>)
    ensures
        r is Some <==> account_balance_list_decodes(match f { Some(x) => Some(*x), None => None }),
        r matches Some(xs) ==> account_balance_list_matches(match f { Some(x) => Some(*x), None => None }, xs),
{
    match f {
        Some(JsonValue::Array(a)) => {
            let mut out: Vec<AccountBalance> = Vec::new();
            let mut i: usize = 0;
            while i < a.len()
                invariant
                    i <= a@.len(),
                    match f { Some(x) => *x == JsonValue::Array(*a), None => false },
                    out@.len() == i,
                    forall|j: int| 0 <= j < i ==> account_balance_decodes(#[trigger] a@[j]),
                    forall|j: int| 0 <= j < i ==> account_balance_matches(#[trigger] a@[j], out@[j]),
                decreases a@.len() - i,
            {
                match decode_account_balance(&a[i]) {
                    Some(x) => out.push(x),
                    None => {
                        proof {
                            let fv = match f { Some(x) => Some(*x), None => None };
                            assert(fv == Some(JsonValue::Array(*a)));
                            assert(!account_balance_decodes(a@[i as int]));
                            let aa = fv->0->Array_0;
                            assert(aa == *a);
                            assert(aa@ == a@);
                            assert(aa@[i as int] == a@[i as int]);
                            assert(!account_balance_decodes(aa@[i as int]));
                            assert(!account_balance_list_decodes(fv));
                        }
                        return None;
                    },
                }
                i = i + 1;
            }
            Some(out)
        },
        _ => None,
    }
}

/// The exchange's answer to a leverage change.
#[derive(Debug)]
pub struct ChangeLeverageResponse {
    pub leverage: u8,
    pub max_notional_value: String,
    pub symbol: String,
}

/// The JSON value holds every member that `ChangeLeverageResponse` needs, each of the right type.
pub open spec fn change_leverage_response_decodes(v: JsonValue) -> bool {
    &&& json_int_in(json_field(v, "leverage"@), 0, 255) is Some
    &&& json_number_text(json_field(v, "maxNotionalValue"@)) is Some
    &&& json_text(json_field(v, "symbol"@)) is Some
}

/// `x` holds exactly what the JSON value says.
pub open spec fn change_leverage_response_matches(v: JsonValue, x: ChangeLeverageResponse) -> bool {
    &&& json_int_in(json_field(v, "leverage"@), 0, 255) == Some(x.leverage as int)
    &&& json_number_text(json_field(v, "maxNotionalValue"@)) == Some(x.max_notional_value@)
    &&& json_text(json_field(v, "symbol"@)) == Some(x.symbol@)
}

/// Reads `ChangeLeverageResponse` from its JSON object; `None` where a member is missing or mistyped.
pub fn decode_change_leverage_response(v: &JsonValue) -> (r: Option<ChangeLeverageResponse>)
    ensures
        r is Some <==> change_leverage_response_decodes(*v),
        r matches Some(x) ==> change_leverage_response_matches(*v, x),
{
    let leverage = match int_field_in(v, "leverage", 0, 255) { Some(x) => x as u8, None => return None };
    let max_notional_value = match number_field(v, "maxNotionalValue") { Some(x) => x, None => return None };
    let symbol = match text_field(v, "symbol") { Some(x) => x, None => return None };
    Some(ChangeLeverageResponse { leverage, max_notional_value, symbol })
}

/// One price level of an order book, sent as `[price, qty]`.
#[derive(Debug)]
pub struct PriceLevel {
    pub price: String,
    pub qty: String,
}

/// The value is a two-element array of numbers (or numeric strings).
pub open spec fn price_level_decodes(v: JsonValue) -> bool {
    match v {
        JsonValue::Array(a) => a@.len() == 2 && json_number_text(Some(a@[0])) is Some
            && json_number_text(Some(a@[1])) is Some,
        _ => false,
    }
}

/// `x` holds the level's price and quantity text.
pub open spec fn price_level_matches(v: JsonValue, x: PriceLevel) -> bool {
    match v {
        JsonValue::Array(a) => a@.len() == 2 && json_number_text(Some(a@[0])) == Some(x.price@)
            && json_number_text(Some(a@[1])) == Some(x.qty@),
        _ => false,
    }
}

/// Reads a price level from its two-element array.
pub fn decode_price_level(v: &JsonValue) -> (r: Option<PriceLevel>)
    ensures
        r is Some <==> price_level_decodes(*v),
        r matches Some(x) ==> price_level_matches(*v, x),
{
    match v {
        JsonValue::Array(a) => {
            if a.len() != 2 {
                return None;
            }
            let price = match number_text(Some(&a[0])) {
                Some(t) => t,
                None => return None,
            };
            let qty = match number_text(Some(&a[1])) {
                Some(t) => t,
                None => return None,
            };
            Some(PriceLevel { price, qty })
        },
        _ => None,
    }
}

/// A JSON array whose every element is a `PriceLevel`.
pub open spec fn price_level_list_decodes(f: Option<JsonValue>) -> bool {
    match f {
        Some(JsonValue::Array(a)) => forall|i: int| 0 <= i < a@.len() ==> price_level_decodes(#[trigger] a@[i]),
        _ => false,
    }
}

/// `xs` holds the array's elements, in order.
pub open spec fn price_level_list_matches(f: Option<JsonValue>, xs: Vec<PriceLevel>) -> bool {
    match f {
        Some(JsonValue::Array(a)) => xs@.len() == a@.len() && forall|i: int|
            0 <= i < a@.len() ==> price_level_matches(#[trigger] a@[i], xs@[i]),
        _ => false,
    }
}

/// Reads an array of `PriceLevel`; `None` unless every element reads.
pub fn decode_price_level_list(f: Option<&JsonValue>) -> (r: Option<Vec<PriceLevel>>)
    ensures
        r is Some <==> price_level_list_decodes(match f { Some(x) => Some(*x), None => None }),
        r matches Some(xs) ==> price_level_list_matches(match f { Some(x) => Some(*x), None => None }, xs),
{
    match f {
        Some(JsonValue::Array(a)) => {
            let mut out: Vec<PriceLevel> = Vec::new();
            let mut i: usize = 0;
            while i < a.len()
                invariant
                    i <= a@.len(),
                    match f { Some(x) => *x == JsonValue::Array(*a), None => false },
                    out@.len() == i,
                    forall|j: int| 0 <= j < i ==> price_level_decodes(#[trigger] a@[j]),
                    forall|j: int| 0 <= j < i ==> price_level_matches(#[trigger] a@[j], out@[j]),
                decreases a@.len() - i,
            {
                match decode_price_level(&a[i]) {
                    Some(x) => out.push(x),
                    None => {
                        proof {
                            let fv = match f { Some(x) => Some(*x), None => None };
                            assert(fv == Some(JsonValue::Array(*a)));
                            assert(!price_level_decodes(a@[i as int]));
                            let aa = fv->0->Array_0;
                            assert(aa == *a);
                            assert(aa@ == a@);
                            assert(aa@[i as int] == a@[i as int]);
                            assert(!price_level_decodes(aa@[i as int]));
                            assert(!price_level_list_decodes(fv));
                        }
                        return None;
                    },
                }
                i = i + 1;
            }
            Some(out)
        },
        _ => None,
    }
}

/// A snapshot of an order book.
#[derive(Debug)]
pub struct OrderBook {
    pub last_update_id: u64,
    pub event_time: u64,
    pub trade_order_time: u64,
    pub bids: Vec<PriceLevel>,
    pub asks: Vec<PriceLevel>,
}

/// The JSON value holds every member that `OrderBook` needs, each of the right type.
pub open spec fn order_book_decodes(v: JsonValue) -> bool {
    &&& json_int_in(json_field(v, "lastUpdateId"@), 0, u64::MAX as int) is Some
    &&& json_int_in(json_field(v, "E"@), 0, u64::MAX as int) is Some
    &&& json_int_in(json_field(v, "T"@), 0, u64::MAX as int) is Some
    &&& price_level_list_decodes(json_field(v, "bids"@))
    &&& price_level_list_decodes(json_field(v, "asks"@))
}

/// `x` holds exactly what the JSON value says.
pub open spec fn order_book_matches(v: JsonValue, x: OrderBook) -> bool {
    &&& json_int_in(json_field(v, "lastUpdateId"@), 0, u64::MAX as int) == Some(x.last_update_id as int)
    &&& json_int_in(json_field(v, "E"@), 0, u64::MAX as int) == Some(x.event_time as int)
    &&& json_int_in(json_field(v, "T"@), 0, u64::MAX as int) == Some(x.trade_order_time as int)
    &&& price_level_list_matches(json_field(v, "bids"@), x.bids)
    &&& price_level_list_matches(json_field(v, "asks"@), x.asks)
}

/// Reads `OrderBook` from its JSON object; `None` where a member is missing or mistyped.
pub fn decode_order_book(v: &JsonValue) -> (r: Option<OrderBook>)
    ensures
        r is Some <==> order_book_decodes(*v),
        r matches Some(x) ==> order_book_matches(*v, x),
{
    let last_update_id = match u64_field(v, "lastUpdateId") { Some(x) => x, None => return None };
    let event_time = match u64_field(v, "E") { Some(x) => x, None => return None };
    let trade_order_time = match u64_field(v, "T") { Some(x) => x, None => return None };
    let bids = match decode_price_level_list(field(v, "bids")) { Some(x) => x, None => return None };
    let asks = match decode_price_level_list(field(v, "asks")) { Some(x) => x, None => return None };
    Some(OrderBook {
        last_update_id,
        event_time,
        trade_order_time,
        bids,
        asks,
    })
}

} // verus!
