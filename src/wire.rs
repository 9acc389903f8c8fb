//! The exchange's enumerations and their upper-case wire names.
use vstd::prelude::*;
use crate::text::str_eq;

verus! {

/// Side of an order.
#[derive(Debug, Clone, Copy, PartialEq, Eq, Structural)]
pub enum OrderSide {
    Buy,
    Sell,
}

/// The wire name of each `OrderSide`.
pub open spec fn order_side_wire(x: OrderSide) -> Seq<char> {
    match x {
        OrderSide::Buy => "BUY"@,
        OrderSide::Sell => "SELL"@,
    }
}

/// The `OrderSide` whose wire name is `s`, if any.
pub open spec fn parse_order_side(s: Seq<char>) -> Option<OrderSide> {
    if s == "BUY"@ {
        Some(OrderSide::Buy)
    } else if s == "SELL"@ {
        Some(OrderSide::Sell)
    } else {
        None
    }
}

impl OrderSide {
    /// The upper-case name the exchange uses.
    pub fn as_str(&self) -> (r: &'static str)
        ensures
            r@ == order_side_wire(*self),
    {
        match self {
            OrderSide::Buy => "BUY",
            OrderSide::Sell => "SELL",
        }
    }

    /// Reads a wire name back; any other text is refused.
    pub fn from_wire(s: &str) -> (r: Option<Self>)
        ensures
            r == parse_order_side(s@),
    {
        if str_eq(s, "BUY") {
            Some(OrderSide::Buy)
        } else if str_eq(s, "SELL") {
            Some(OrderSide::Sell)
        } else {
            None
        }
    }
}

/// Every `OrderSide` reads back from its wire name, and no two share one.
pub proof fn lemma_order_side_round_trip(x: OrderSide, y: OrderSide)
    ensures
        parse_order_side(order_side_wire(x)) == Some(x),
        order_side_wire(x) == order_side_wire(y) ==> x == y,
{
    reveal_strlit("BUY");
    reveal_strlit("SELL");
    assert("BUY"@[0] != "SELL"@[0]);
}

/// How long an order stays working.
#[derive(Debug, Clone, Copy, PartialEq, Eq, Structural)]
pub enum TimeInForce {
    GTC,
    IOC,
    FOK,
    GTX,
}

/// The wire name of each `TimeInForce`.
pub open spec fn time_in_force_wire(x: TimeInForce) -> Seq<char> {
    match x {
        TimeInForce::GTC => "GTC"@,
        TimeInForce::IOC => "IOC"@,
        TimeInForce::FOK => "FOK"@,
        TimeInForce::GTX => "GTX"@,
    }
}

/// The `TimeInForce` whose wire name is `s`, if any.
pub open spec fn parse_time_in_force(s: Seq<char>) -> Option<TimeInForce> {
    if s == "GTC"@ {
        Some(TimeInForce::GTC)
    } else if s == "IOC"@ {
        Some(TimeInForce::IOC)
    } else if s == "FOK"@ {
        Some(TimeInForce::FOK)
    } else if s == "GTX"@ {
        Some(TimeInForce::GTX)
    } else {
        None
    }
}

impl TimeInForce {
    /// The upper-case name the exchange uses.
    pub fn as_str(&self) -> (r: &'static str)
        ensures
            r@ == time_in_force_wire(*self),
    {
        match self {
            TimeInForce::GTC => "GTC",
            TimeInForce::IOC => "IOC",
            TimeInForce::FOK => "FOK",
            TimeInForce::GTX => "GTX",
        }
    }

    /// Reads a wire name back; any other text is refused.
    pub fn from_wire(s: &str) -> (r: Option<Self>)
        ensures
            r == parse_time_in_force(s@),
    {
        if str_eq(s, "GTC") {
            Some(TimeInForce::GTC)
        } else if str_eq(s, "IOC") {
            Some(TimeInForce::IOC)
        } else if str_eq(s, "FOK") {
            Some(TimeInForce::FOK)
        } else if str_eq(s, "GTX") {
            Some(TimeInForce::GTX)
        } else {
            None
        }
    }
}

/// Every `TimeInForce` reads back from its wire name, and no two share one.
pub proof fn lemma_time_in_force_round_trip(x: TimeInForce, y: TimeInForce)
    ensures
        parse_time_in_force(time_in_force_wire(x)) == Some(x),
        time_in_force_wire(x) == time_in_force_wire(y) ==> x == y,
{
    reveal_strlit("GTC");
    reveal_strlit("IOC");
    reveal_strlit("FOK");
    reveal_strlit("GTX");
    assert("GTC"@[0] != "IOC"@[0]);
    assert("GTC"@[0] != "FOK"@[0]);
    assert("GTC"@[2] != "GTX"@[2]);
    assert("IOC"@[0] != "FOK"@[0]);
    assert("IOC"@[0] != "GTX"@[0]);
    assert("FOK"@[0] != "GTX"@[0]);
}

/// Delivery schedule of a contract.
#[derive(Debug, Clone, Copy, PartialEq, Eq, Structural)]
pub enum ContractType {
    Perpetual,
    CurrentMonth,
    NextMonth,
    CurrentQuarter,
    NextQuarter,
}

/// The wire name of each `ContractType`.
pub open spec fn contract_type_wire(x: ContractType) -> Seq<char> {
    match x {
        ContractType::Perpetual => "PERPETUAL"@,
        ContractType::CurrentMonth => "CURRENT_MONTH"@,
        ContractType::NextMonth => "NEXT_MONTH"@,
        ContractType::CurrentQuarter => "CURRENT_QUARTER"@,
        ContractType::NextQuarter => "NEXT_QUARTER"@,
    }
}

/// The `ContractType` whose wire name is `s`, if any.
pub open spec fn parse_contract_type(s: Seq<char>) -> Option<ContractType> {
    if s == "PERPETUAL"@ {
        Some(ContractType::Perpetual)
    } else if s == "CURRENT_MONTH"@ {
        Some(ContractType::CurrentMonth)
    } else if s == "NEXT_MONTH"@ {
        Some(ContractType::NextMonth)
    } else if s == "CURRENT_QUARTER"@ {
        Some(ContractType::CurrentQuarter)
    } else if s == "NEXT_QUARTER"@ {
        Some(ContractType::NextQuarter)
    } else {
        None
    }
}

impl ContractType {
    /// The upper-case name the exchange uses.
    pub fn as_str(&self) -> (r: &'static str)
        ensures
            r@ == contract_type_wire(*self),
    {
        match self {
            ContractType::Perpetual => "PERPETUAL",
            ContractType::CurrentMonth => "CURRENT_MONTH",
            ContractType::NextMonth => "NEXT_MONTH",
            ContractType::CurrentQuarter => "CURRENT_QUARTER",
            ContractType::NextQuarter => "NEXT_QUARTER",
        }
    }

    /// Reads a wire name back; any other text is refused.
    pub fn from_wire(s: &str) -> (r: Option<Self>)
        ensures
            r == parse_contract_type(s@),
    {
        if str_eq(s, "PERPETUAL") {
            Some(ContractType::Perpetual)
        } else if str_eq(s, "CURRENT_MONTH") {
            Some(ContractType::CurrentMonth)
        } else if str_eq(s, "NEXT_MONTH") {
            Some(ContractType::NextMonth)
        } else if str_eq(s, "CURRENT_QUARTER") {
            Some(ContractType::CurrentQuarter)
        } else if str_eq(s, "NEXT_QUARTER") {
            Some(ContractType::NextQuarter)
        } else {
            None
        }
    }
}

/// Every `ContractType` reads back from its wire name, and no two share one.
pub proof fn lemma_contract_type_round_trip(x: ContractType, y: ContractType)
    ensures
        parse_contract_type(contract_type_wire(x)) == Some(x),
        contract_type_wire(x) == contract_type_wire(y) ==> x == y,
{
    reveal_strlit("PERPETUAL");
    reveal_strlit("CURRENT_MONTH");
    reveal_strlit("NEXT_MONTH");
    reveal_strlit("CURRENT_QUARTER");
    reveal_strlit("NEXT_QUARTER");
    assert("PERPETUAL"@[0] != "CURRENT_MONTH"@[0]);
    assert("PERPETUAL"@[0] != "NEXT_MONTH"@[0]);
    assert("PERPETUAL"@[0] != "CURRENT_QUARTER"@[0]);
    assert("PERPETUAL"@[0] != "NEXT_QUARTER"@[0]);
    assert("CURRENT_MONTH"@[0] != "NEXT_MONTH"@[0]);
    assert("CURRENT_MONTH"@[8] != "CURRENT_QUARTER"@[8]);
    assert("CURRENT_MONTH"@[0] != "NEXT_QUARTER"@[0]);
    assert("NEXT_MONTH"@[0] != "CURRENT_QUARTER"@[0]);
    assert("NEXT_MONTH"@[5] != "NEXT_QUARTER"@[5]);
    assert("CURRENT_QUARTER"@[0] != "NEXT_QUARTER"@[0]);
}

/// Position that an order acts on.
#[derive(Debug, Clone, Copy, PartialEq, Eq, Structural)]
pub enum PositionSide {
    Both,
    Long,
    Short,
}

/// The wire name of each `PositionSide`.
pub open spec fn position_side_wire(x: PositionSide) -> Seq<char> {
    match x {
        PositionSide::Both => "BOTH"@,
        PositionSide::Long => "LONG"@,
        PositionSide::Short => "SHORT"@,
    }
}

/// The `PositionSide` whose wire name is `s`, if any.
pub open spec fn parse_position_side(s: Seq<char>) -> Option<PositionSide> {
    if s == "BOTH"@ {
        Some(PositionSide::Both)
    } else if s == "LONG"@ {
        Some(PositionSide::Long)
    } else if s == "SHORT"@ {
        Some(PositionSide::Short)
    } else {
        None
    }
}

impl PositionSide {
    /// The upper-case name the exchange uses.
    pub fn as_str(&self) -> (r: &'static str)
        ensures
            r@ == position_side_wire(*self),
    {
        match self {
            PositionSide::Both => "BOTH",
            PositionSide::Long => "LONG",
            PositionSide::Short => "SHORT",
        }
    }

    /// Reads a wire name back; any other text is refused.
    pub fn from_wire(s: &str) -> (r: Option<Self>)
        ensures
            r == parse_position_side(s@),
    {
        if str_eq(s, "BOTH") {
            Some(PositionSide::Both)
        } else if str_eq(s, "LONG") {
            Some(PositionSide::Long)
        } else if str_eq(s, "SHORT") {
            Some(PositionSide::Short)
        } else {
            None
        }
    }
}

/// Every `PositionSide` reads back from its wire name, and no two share one.
pub proof fn lemma_position_side_round_trip(x: PositionSide, y: PositionSide)
    ensures
        parse_position_side(position_side_wire(x)) == Some(x),
        position_side_wire(x) == position_side_wire(y) ==> x == y,
{
    reveal_strlit("BOTH");
    reveal_strlit("LONG");
    reveal_strlit("SHORT");
    assert("BOTH"@[0] != "LONG"@[0]);
    assert("BOTH"@[0] != "SHORT"@[0]);
    assert("LONG"@[0] != "SHORT"@[0]);
}

/// Kind of an order.
#[derive(Debug, Clone, Copy, PartialEq, Eq, Structural)]
pub enum OrderType {
    Limit,
    Market,
    Stop,
    StopMarket,
    TakeProfit,
    TakeProfitMarket,
    TrailingStopMarket,
}

/// The wire name of each `OrderType`.
pub open spec fn order_type_wire(x: OrderType) -> Seq<char> {
    match x {
        OrderType::Limit => "LIMIT"@,
        OrderType::Market => "MARKET"@,
        OrderType::Stop => "STOP"@,
        OrderType::StopMarket => "STOP_MARKET"@,
        OrderType::TakeProfit => "TAKE_PROFIT"@,
        OrderType::TakeProfitMarket => "TAKE_PROFIT_MARKET"@,
        OrderType::TrailingStopMarket => "TRAILING_STOP_MARKET"@,
    }
}

/// The `OrderType` whose wire name is `s`, if any.
pub open spec fn parse_order_type(s: Seq<char>) -> Option<OrderType> {
    if s == "LIMIT"@ {
        Some(OrderType::Limit)
    } else if s == "MARKET"@ {
        Some(OrderType::Market)
    } else if s == "STOP"@ {
        Some(OrderType::Stop)
    } else if s == "STOP_MARKET"@ {
        Some(OrderType::StopMarket)
    } else if s == "TAKE_PROFIT"@ {
        Some(OrderType::TakeProfit)
    } else if s == "TAKE_PROFIT_MARKET"@ {
        Some(OrderType::TakeProfitMarket)
    } else if s == "TRAILING_STOP_MARKET"@ {
        Some(OrderType::TrailingStopMarket)
    } else {
        None
    }
}

impl OrderType {
    /// The upper-case name the exchange uses.
    pub fn as_str(&self) -> (r: &'static str)
        ensures
            r@ == order_type_wire(*self),
    {
        match self {
            OrderType::Limit => "LIMIT",
            OrderType::Market => "MARKET",
            OrderType::Stop => "STOP",
            OrderType::StopMarket => "STOP_MARKET",
            OrderType::TakeProfit => "TAKE_PROFIT",
            OrderType::TakeProfitMarket => "TAKE_PROFIT_MARKET",
            OrderType::TrailingStopMarket => "TRAILING_STOP_MARKET",
        }
    }

    /// Reads a wire name back; any other text is refused.
    pub fn from_wire(s: &str) -> (r: Option<Self>)
        ensures
            r == parse_order_type(s@),
    {
        if str_eq(s, "LIMIT") {
            Some(OrderType::Limit)
        } else if str_eq(s, "MARKET") {
            Some(OrderType::Market)
        } else if str_eq(s, "STOP") {
            Some(OrderType::Stop)
        } else if str_eq(s, "STOP_MARKET") {
            Some(OrderType::StopMarket)
        } else if str_eq(s, "TAKE_PROFIT") {
            Some(OrderType::TakeProfit)
        } else if str_eq(s, "TAKE_PROFIT_MARKET") {
            Some(OrderType::TakeProfitMarket)
        } else if str_eq(s, "TRAILING_STOP_MARKET") {
            Some(OrderType::TrailingStopMarket)
        } else {
            None
        }
    }
}

/// Every `OrderType` reads back from its wire name, and no two share one.
pub proof fn lemma_order_type_round_trip(x: OrderType, y: OrderType)
    ensures
        parse_order_type(order_type_wire(x)) == Some(x),
        order_type_wire(x) == order_type_wire(y) ==> x == y,
{
    reveal_strlit("LIMIT");
    reveal_strlit("MARKET");
    reveal_strlit("STOP");
    reveal_strlit("STOP_MARKET");
    reveal_strlit("TAKE_PROFIT");
    reveal_strlit("TAKE_PROFIT_MARKET");
    reveal_strlit("TRAILING_STOP_MARKET");
    assert("LIMIT"@[0] != "MARKET"@[0]);
    assert("LIMIT"@[0] != "STOP"@[0]);
    assert("LIMIT"@[0] != "STOP_MARKET"@[0]);
    assert("LIMIT"@[0] != "TAKE_PROFIT"@[0]);
    assert("LIMIT"@[0] != "TAKE_PROFIT_MARKET"@[0]);
    assert("LIMIT"@[0] != "TRAILING_STOP_MARKET"@[0]);
    assert("MARKET"@[0] != "STOP"@[0]);
    assert("MARKET"@[0] != "STOP_MARKET"@[0]);
    assert("MARKET"@[0] != "TAKE_PROFIT"@[0]);
    assert("MARKET"@[0] != "TAKE_PROFIT_MARKET"@[0]);
    assert("MARKET"@[0] != "TRAILING_STOP_MARKET"@[0]);
    assert("STOP"@.len() != "STOP_MARKET"@.len());
    assert("STOP"@[0] != "TAKE_PROFIT"@[0]);
    assert("STOP"@[0] != "TAKE_PROFIT_MARKET"@[0]);
    assert("STOP"@[0] != "TRAILING_STOP_MARKET"@[0]);
    assert("STOP_MARKET"@[0] != "TAKE_PROFIT"@[0]);
    assert("STOP_MARKET"@[0] != "TAKE_PROFIT_MARKET"@[0]);
    assert("STOP_MARKET"@[0] != "TRAILING_STOP_MARKET"@[0]);
    assert("TAKE_PROFIT"@.len() != "TAKE_PROFIT_MARKET"@.len());
    assert("TAKE_PROFIT"@[1] != "TRAILING_STOP_MARKET"@[1]);
    assert("TAKE_PROFIT_MARKET"@[1] != "TRAILING_STOP_MARKET"@[1]);
}

/// Price that triggers a stop order.
#[derive(Debug, Clone, Copy, PartialEq, Eq, Structural)]
pub enum WorkingType {
    MarkPrice,
    ContractPrice,
}

/// The wire name of each `WorkingType`.
pub open spec fn working_type_wire(x: WorkingType) -> Seq<char> {
    match x {
        WorkingType::MarkPrice => "MARK_PRICE"@,
        WorkingType::ContractPrice => "CONTRACT_PRICE"@,
    }
}

/// The `WorkingType` whose wire name is `s`, if any.
pub open spec fn parse_working_type(s: Seq<char>) -> Option<WorkingType> {
    if s == "MARK_PRICE"@ {
        Some(WorkingType::MarkPrice)
    } else if s == "CONTRACT_PRICE"@ {
        Some(WorkingType::ContractPrice)
    } else {
        None
    }
}

impl WorkingType {
    /// The upper-case name the exchange uses.
    pub fn as_str(&self) -> (r: &'static str)
        ensures
            r@ == working_type_wire(*self),
    {
        match self {
            WorkingType::MarkPrice => "MARK_PRICE",
            WorkingType::ContractPrice => "CONTRACT_PRICE",
        }
    }

    /// Reads a wire name back; any other text is refused.
    pub fn from_wire(s: &str) -> (r: Option<Self>)
        ensures
            r == parse_working_type(s@),
    {
        if str_eq(s, "MARK_PRICE") {
            Some(WorkingType::MarkPrice)
        } else if str_eq(s, "CONTRACT_PRICE") {
            Some(WorkingType::ContractPrice)
        } else {
            None
        }
    }
}

/// Every `WorkingType` reads back from its wire name, and no two share one.
pub proof fn lemma_working_type_round_trip(x: WorkingType, y: WorkingType)
    ensures
        parse_working_type(working_type_wire(x)) == Some(x),
        working_type_wire(x) == working_type_wire(y) ==> x == y,
{
    reveal_strlit("MARK_PRICE");
    reveal_strlit("CONTRACT_PRICE");
    assert("MARK_PRICE"@[0] != "CONTRACT_PRICE"@[0]);
}

} // verus!
