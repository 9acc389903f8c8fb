//! The signed account endpoints: each builds its parameters and signs them;
//! sending the request and reading the answer is the caller's part.
use vstd::prelude::*;
use vstd::utf8::encode_utf8;
use crate::errors::Error;
use crate::order::{build_order, order_map, CustomOrderRequest};
use crate::params::ParameterSet;
use crate::signer::{build_signed_request_custom, signed_request_of};
use crate::text::{decimal_of, u64_to_decimal};
use crate::wire::{OrderSide, OrderType, TimeInForce};

verus! {

/// HTTP method of a request.
#[derive(Debug, Clone, Copy, PartialEq, Eq, Structural)]
pub enum Method {
    Get,
    Post,
    Delete,
}

/// The account endpoints.
#[derive(Debug, Clone, Copy, PartialEq, Eq, Structural)]
pub enum Endpoint {
    Order,
    PositionRisk,
    Balance,
    ChangeInitialLeverage,
    PositionSide,
    AllOpenOrders,
    OpenOrders,
    AllOrders,
}

/// The path of each endpoint on the exchange.
pub open spec fn endpoint_path(e: Endpoint) -> Seq<char> {
    match e {
        Endpoint::Order => "/fapi/v1/order"@,
        Endpoint::PositionRisk => "/fapi/v2/positionRisk"@,
        Endpoint::Balance => "/fapi/v2/balance"@,
        Endpoint::ChangeInitialLeverage => "/fapi/v1/leverage"@,
        Endpoint::PositionSide => "/fapi/v1/positionSide/dual"@,
        Endpoint::AllOpenOrders => "/fapi/v1/allOpenOrders"@,
        Endpoint::OpenOrders => "/fapi/v1/openOrders"@,
        Endpoint::AllOrders => "/fapi/v1/allOrders"@,
    }
}

impl Endpoint {
    /// The endpoint's path on the exchange.
    pub fn path(&self) -> (r: &'static str)
        ensures
            r@ == endpoint_path(*self),
    {
        match self {
            Endpoint::Order => "/fapi/v1/order",
            Endpoint::PositionRisk => "/fapi/v2/positionRisk",
            Endpoint::Balance => "/fapi/v2/balance",
            Endpoint::ChangeInitialLeverage => "/fapi/v1/leverage",
            Endpoint::PositionSide => "/fapi/v1/positionSide/dual",
            Endpoint::AllOpenOrders => "/fapi/v1/allOpenOrders",
            Endpoint::OpenOrders => "/fapi/v1/openOrders",
            Endpoint::AllOrders => "/fapi/v1/allOrders",
        }
    }
}

/// A request ready for the transport: method, endpoint and signed query.
#[derive(Debug)]
pub struct SignedRequest {
    pub method: Method,
    pub endpoint: Endpoint,
    pub query: String,
}

/// Account access with a receive window and the secret key that signs.
pub struct FuturesAccount {
    pub secret_key: Option<String>,
    pub recv_window: u64,
}

/// The outcome of signing `fields` for `endpoint` at `timestamp`: without a
/// secret key, a configuration error; with one, the signed request.
pub open spec fn signed_outcome(
    account: FuturesAccount,
    method: Method,
    endpoint: Endpoint,
    fields: Map<Seq<char>, Seq<char>>,
    timestamp: u64,
    r: Result<SignedRequest, Error>,
) -> bool {
    match account.secret_key {
        None => r matches Err(Error::ConfigurationError(_)),
        Some(k) => r matches Ok(q) && q.method == method && q.endpoint == endpoint && q.query@
            == signed_request_of(fields, account.recv_window, timestamp, encode_utf8(k@)),
    }
}

/// A limit order.
pub open spec fn limit_order(
    side: OrderSide,
    symbol: String,
    qty: String,
    price: String,
    time_in_force: TimeInForce,
) -> CustomOrderRequest {
    CustomOrderRequest {
        symbol,
        side,
        position_side: None,
        order_type: OrderType::Limit,
        time_in_force: Some(time_in_force),
        qty: Some(qty),
        reduce_only: None,
        price: Some(price),
        stop_price: None,
        close_position: None,
        activation_price: None,
        callback_rate: None,
        working_type: None,
        price_protect: None,
    }
}

/// A market order.
pub open spec fn market_order(side: OrderSide, symbol: String, qty: String) -> CustomOrderRequest {
    CustomOrderRequest {
        symbol,
        side,
        position_side: None,
        order_type: OrderType::Market,
        time_in_force: None,
        qty: Some(qty),
        reduce_only: None,
        price: None,
        stop_price: None,
        close_position: None,
        activation_price: None,
        callback_rate: None,
        working_type: None,
        price_protect: None,
    }
}

/// A stop-market order that closes the whole position.
pub open spec fn stop_market_close_order(
    side: OrderSide,
    symbol: String,
    stop_price: String,
) -> CustomOrderRequest {
    CustomOrderRequest {
        symbol,
        side,
        position_side: None,
        order_type: OrderType::StopMarket,
        time_in_force: None,
        qty: None,
        reduce_only: None,
        price: None,
        stop_price: Some(stop_price),
        close_position: Some(true),
        activation_price: None,
        callback_rate: None,
        working_type: None,
        price_protect: None,
    }
}

/// A symbol and an order id.
pub open spec fn order_id_fields(symbol: Seq<char>, order_id: u64) -> Map<Seq<char>, Seq<char>> {
    Map::empty().insert("symbol"@, symbol).insert("orderId"@, decimal_of(order_id as nat))
}

/// A symbol alone.
pub open spec fn symbol_fields(symbol: Seq<char>) -> Map<Seq<char>, Seq<char>> {
    Map::empty().insert("symbol"@, symbol)
}

/// Adds `key` when `value` is set.
pub open spec fn with_opt(
    m: Map<Seq<char>, Seq<char>>,
    key: Seq<char>,
    value: Option<u64>,
) -> Map<Seq<char>, Seq<char>> {
    match value {
        Some(x) => m.insert(key, decimal_of(x as nat)),
        None => m,
    }
}

/// The fields of an order history query.
pub open spec fn all_orders_fields(
    symbol: Seq<char>,
    from_id: Option<u64>,
    start_time: Option<u64>,
    end_time: Option<u64>,
    limit: Option<u16>,
) -> Map<Seq<char>, Seq<char>> {
    let l = match limit {
        Some(x) => Some(x as u64),
        None => None,
    };
    with_opt(
        with_opt(with_opt(with_opt(symbol_fields(symbol), "orderId"@, from_id), "startTime"@, start_time), "endTime"@, end_time),
        "limit"@,
        l,
    )
}

/// A lower-case JSON-style flag.
pub open spec fn lower_flag(b: bool) -> Seq<char> {
    if b { "true"@ } else { "false"@ }
}

fn put(params: &mut ParameterSet, key: &str, value: String)
    ensures
        final(params).as_map() == old(params).as_map().insert(key@, value@),
{
    params.insert(String::from_str(key), value);
}

fn put_opt(params: &mut ParameterSet, key: &str, value: Option<u64>)
    ensures
        final(params).as_map() == with_opt(old(params).as_map(), key@, value),
{
    match value {
        Some(x) => put(params, key, u64_to_decimal(x)),
        None => {},
    }
}

impl FuturesAccount {
    fn sign(
        &self,
        method: Method,
        endpoint: Endpoint,
        params: ParameterSet,
        timestamp: u64,
    ) -> (r: Result<SignedRequest, Error>)
        ensures
            signed_outcome(*self, method, endpoint, params.as_map(), timestamp, r),
    {
        match &self.secret_key {
            Some(k) => {
                let query = build_signed_request_custom(params, self.recv_window, timestamp, k.as_str());
                Ok(SignedRequest { method, endpoint, query })
            },
            None => Err(Error::ConfigurationError(String::from_str("secret key is not set"))),
        }
    }

    fn symbol_params(symbol: String) -> (r: ParameterSet)
        ensures
            r.as_map() == symbol_fields(symbol@),
    {
        let mut p = ParameterSet::new();
        put(&mut p, "symbol", symbol);
        p
    }

    fn order_id_params(symbol: String, order_id: u64) -> (r: ParameterSet)
        ensures
            r.as_map() == order_id_fields(symbol@, order_id),
    {
        let mut p = Self::symbol_params(symbol);
        put(&mut p, "orderId", u64_to_decimal(order_id));
        p
    }

    fn place(&self, order: CustomOrderRequest, timestamp: u64) -> (r: Result<SignedRequest, Error>)
        ensures
            signed_outcome(*self, Method::Post, Endpoint::Order, order_map(order), timestamp, r),
    {
        let params = build_order(&order);
        self.sign(Method::Post, Endpoint::Order, params, timestamp)
    }

    /// Places a limit buy order.
    pub fn limit_buy(
        &self,
        symbol: String,
        qty: String,
        price: String,
        time_in_force: TimeInForce,
        timestamp: u64,
    ) -> (r: Result<SignedRequest, Error>)
        ensures
            signed_outcome(*self, Method::Post, Endpoint::Order,
                order_map(limit_order(OrderSide::Buy, symbol, qty, price, time_in_force)), timestamp, r),
    {
        let order = CustomOrderRequest {
            symbol,
            side: OrderSide::Buy,
            position_side: None,
            order_type: OrderType::Limit,
            time_in_force: Some(time_in_force),
            qty: Some(qty),
            reduce_only: None,
            price: Some(price),
            stop_price: None,
            close_position: None,
            activation_price: None,
            callback_rate: None,
            working_type: None,
            price_protect: None,
        };
        self.place(order, timestamp)
    }

    /// Places a limit sell order.
    pub fn limit_sell(
        &self,
        symbol: String,
        qty: String,
        price: String,
        time_in_force: TimeInForce,
        timestamp: u64,
    ) -> (r: Result<SignedRequest, Error>)
        ensures
            signed_outcome(*self, Method::Post, Endpoint::Order,
                order_map(limit_order(OrderSide::Sell, symbol, qty, price, time_in_force)), timestamp, r),
    {
        let order = CustomOrderRequest {
            symbol,
            side: OrderSide::Sell,
            position_side: None,
            order_type: OrderType::Limit,
            time_in_force: Some(time_in_force),
            qty: Some(qty),
            reduce_only: None,
            price: Some(price),
            stop_price: None,
            close_position: None,
            activation_price: None,
            callback_rate: None,
            working_type: None,
            price_protect: None,
        };
        self.place(order, timestamp)
    }

    /// Places a market buy order.
    pub fn market_buy(
        &self,
        symbol: String,
        qty: String,
        timestamp: u64,
    ) -> (r: Result<SignedRequest, Error>)
        ensures
            signed_outcome(*self, Method::Post, Endpoint::Order, order_map(market_order(OrderSide::Buy, symbol, qty)), timestamp, r),
    {
        let order = CustomOrderRequest {
            symbol,
            side: OrderSide::Buy,
            position_side: None,
            order_type: OrderType::Market,
            time_in_force: None,
            qty: Some(qty),
            reduce_only: None,
            price: None,
            stop_price: None,
            close_position: None,
            activation_price: None,
            callback_rate: None,
            working_type: None,
            price_protect: None,
        };
        self.place(order, timestamp)
    }

    /// Places a market sell order.
    pub fn market_sell(
        &self,
        symbol: String,
        qty: String,
        timestamp: u64,
    ) -> (r: Result<SignedRequest, Error>)
        ensures
            signed_outcome(*self, Method::Post, Endpoint::Order, order_map(market_order(OrderSide::Sell, symbol, qty)), timestamp, r),
    {
        let order = CustomOrderRequest {
            symbol,
            side: OrderSide::Sell,
            position_side: None,
            order_type: OrderType::Market,
            time_in_force: None,
            qty: Some(qty),
            reduce_only: None,
            price: None,
            stop_price: None,
            close_position: None,
            activation_price: None,
            callback_rate: None,
            working_type: None,
            price_protect: None,
        };
        self.place(order, timestamp)
    }

    /// Places a stop-market order that closes a short position.
    pub fn stop_market_close_buy(
        &self,
        symbol: String,
        stop_price: String,
        timestamp: u64,
    ) -> (r: Result<SignedRequest, Error>)
        ensures
            signed_outcome(*self, Method::Post, Endpoint::Order,
                order_map(stop_market_close_order(OrderSide::Buy, symbol, stop_price)), timestamp, r),
    {
        let order = CustomOrderRequest {
            symbol,
            side: OrderSide::Buy,
            position_side: None,
            order_type: OrderType::StopMarket,
            time_in_force: None,
            qty: None,
            reduce_only: None,
            price: None,
            stop_price: Some(stop_price),
            close_position: Some(true),
            activation_price: None,
            callback_rate: None,
            working_type: None,
            price_protect: None,
        };
        self.place(order, timestamp)
    }

    /// Places a stop-market order that closes a long position.
    pub fn stop_market_close_sell(
        &self,
        symbol: String,
        stop_price: String,
        timestamp: u64,
    ) -> (r: Result<SignedRequest, Error>)
        ensures
            signed_outcome(*self, Method::Post, Endpoint::Order,
                order_map(stop_market_close_order(OrderSide::Sell, symbol, stop_price)), timestamp, r),
    {
        let order = CustomOrderRequest {
            symbol,
            side: OrderSide::Sell,
            position_side: None,
            order_type: OrderType::StopMarket,
            time_in_force: None,
            qty: None,
            reduce_only: None,
            price: None,
            stop_price: Some(stop_price),
            close_position: Some(true),
            activation_price: None,
            callback_rate: None,
            working_type: None,
            price_protect: None,
        };
        self.place(order, timestamp)
    }

    /// Places an order with every field chosen by the caller.
    pub fn custom_order(
        &self,
        order_request: CustomOrderRequest,
        timestamp: u64,
    ) -> (r: Result<SignedRequest, Error>)
        ensures
            signed_outcome(*self, Method::Post, Endpoint::Order, order_map(order_request), timestamp, r),
    {
        self.place(order_request, timestamp)
    }

    /// Queries one order.
    pub fn get_order(
        &self,
        symbol: String,
        order_id: u64,
        timestamp: u64,
    ) -> (r: Result<SignedRequest, Error>)
        ensures
            signed_outcome(*self, Method::Get, Endpoint::Order, order_id_fields(symbol@, order_id), timestamp, r),
    {
        self.sign(Method::Get, Endpoint::Order, Self::order_id_params(symbol, order_id), timestamp)
    }

    /// Cancels one order.
    pub fn cancel_order(
        &self,
        symbol: String,
        order_id: u64,
        timestamp: u64,
    ) -> (r: Result<SignedRequest, Error>)
        ensures
            signed_outcome(*self, Method::Delete, Endpoint::Order, order_id_fields(symbol@, order_id), timestamp, r),
    {
        self.sign(Method::Delete, Endpoint::Order, Self::order_id_params(symbol, order_id), timestamp)
    }

    /// Positions held in one symbol.
    pub fn position_information(
        &self,
        symbol: String,
        timestamp: u64,
    ) -> (r: Result<SignedRequest, Error>)
        ensures
            signed_outcome(*self, Method::Get, Endpoint::PositionRisk, symbol_fields(symbol@), timestamp, r),
    {
        self.sign(Method::Get, Endpoint::PositionRisk, Self::symbol_params(symbol), timestamp)
    }

    /// Positions held in every symbol.
    pub fn get_all_positions(&self, timestamp: u64) -> (r: Result<SignedRequest, Error>)
        ensures
            signed_outcome(*self, Method::Get, Endpoint::PositionRisk, Map::empty(), timestamp, r),
    {
        self.sign(Method::Get, Endpoint::PositionRisk, ParameterSet::new(), timestamp)
    }

    /// Balances of the account.
    pub fn account_balance(&self, timestamp: u64) -> (r: Result<SignedRequest, Error>)
        ensures
            signed_outcome(*self, Method::Get, Endpoint::Balance, Map::empty(), timestamp, r),
    {
        self.sign(Method::Get, Endpoint::Balance, ParameterSet::new(), timestamp)
    }

    /// Sets the initial leverage of a symbol.
    pub fn change_initial_leverage(
        &self,
        symbol: String,
        leverage: u8,
        timestamp: u64,
    ) -> (r: Result<SignedRequest, Error>)
        ensures
            signed_outcome(*self, Method::Post, Endpoint::ChangeInitialLeverage,
                symbol_fields(symbol@).insert("leverage"@, decimal_of(leverage as nat)), timestamp, r),
    {
        let mut p = Self::symbol_params(symbol);
        put(&mut p, "leverage", u64_to_decimal(leverage as u64));
        self.sign(Method::Post, Endpoint::ChangeInitialLeverage, p, timestamp)
    }

    /// Switches between one-way and hedge position mode.
    pub fn change_position_mode(
        &self,
        dual_side_position: bool,
        timestamp: u64,
    ) -> (r: Result<SignedRequest, Error>)
        ensures
            signed_outcome(*self, Method::Post, Endpoint::PositionSide,
                Map::empty().insert("dualSidePosition"@, lower_flag(dual_side_position)), timestamp, r),
    {
        let mut p = ParameterSet::new();
        let dual_side = if dual_side_position { "true" } else { "false" };
        put(&mut p, "dualSidePosition", String::from_str(dual_side));
        self.sign(Method::Post, Endpoint::PositionSide, p, timestamp)
    }

    /// Cancels every open order of a symbol.
    pub fn cancel_all_open_orders(
        &self,
        symbol: String,
        timestamp: u64,
    ) -> (r: Result<SignedRequest, Error>)
        ensures
            signed_outcome(*self, Method::Delete, Endpoint::AllOpenOrders, symbol_fields(symbol@), timestamp, r),
    {
        self.sign(Method::Delete, Endpoint::AllOpenOrders, Self::symbol_params(symbol), timestamp)
    }

    /// Open orders of a symbol.
    pub fn get_all_open_orders(
        &self,
        symbol: String,
        timestamp: u64,
    ) -> (r: Result<SignedRequest, Error>)
        ensures
            signed_outcome(*self, Method::Get, Endpoint::OpenOrders, symbol_fields(symbol@), timestamp, r),
    {
        self.sign(Method::Get, Endpoint::OpenOrders, Self::symbol_params(symbol), timestamp)
    }

    /// Open orders of every symbol.
    pub fn get_all_open_orders_for_all_symbols(
        &self,
        timestamp: u64,
    ) -> (r: Result<SignedRequest, Error>)
        ensures
            signed_outcome(*self, Method::Get, Endpoint::OpenOrders, Map::empty(), timestamp, r),
    {
        self.sign(Method::Get, Endpoint::OpenOrders, ParameterSet::new(), timestamp)
    }

    /// Order history of a symbol, narrowed by the bounds that are set.
    pub fn get_all_orders(
        &self,
        symbol: String,
        from_id: Option<u64>,
        start_time: Option<u64>,
        end_time: Option<u64>,
        limit: Option<u16>,
        timestamp: u64,
    ) -> (r: Result<SignedRequest, Error>)
        ensures
            signed_outcome(*self, Method::Get, Endpoint::AllOrders,
                all_orders_fields(symbol@, from_id, start_time, end_time, limit), timestamp, r),
    {
        let mut p = Self::symbol_params(symbol);
        put_opt(&mut p, "orderId", from_id);
        put_opt(&mut p, "startTime", start_time);
        put_opt(&mut p, "endTime", end_time);
        let l: Option<u64> = match limit {
            Some(x) => Some(x as u64),
            None => None,
        };
        put_opt(&mut p, "limit", l);
        self.sign(Method::Get, Endpoint::AllOrders, p, timestamp)
    }
}

} // verus!
