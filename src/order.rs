//! Turning an order intent into its request parameters.
use vstd::prelude::*;
use crate::params::ParameterSet;
use crate::wire::{
    order_side_wire, order_type_wire, position_side_wire, time_in_force_wire, working_type_wire,
    OrderSide, OrderType, PositionSide, TimeInForce, WorkingType,
};

verus! {

/// An order as the caller states it. Numbers are held as the decimal text
/// that the exchange receives (`"1.5"`, `"20000"`); `None` leaves a field out.
pub struct CustomOrderRequest {
    pub symbol: String,
    pub side: OrderSide,
    pub position_side: Option<PositionSide>,
    pub order_type: OrderType,
    pub time_in_force: Option<TimeInForce>,
    pub qty: Option<String>,
    pub reduce_only: Option<bool>,
    pub price: Option<String>,
    pub stop_price: Option<String>,
    pub close_position: Option<bool>,
    pub activation_price: Option<String>,
    pub callback_rate: Option<String>,
    pub working_type: Option<WorkingType>,
    pub price_protect: Option<String>,
}

/// A row of the field table: the wire name, and the wire text if the field is set.
pub type FieldRow = (Seq<char>, Option<Seq<char>>);

/// The view of an optional string.
pub open spec fn opt_view(o: Option<String>) -> Option<Seq<char>> {
    match o {
        Some(s) => Some(s@),
        None => None,
    }
}

/// A shout-case flag.
pub open spec fn flag_wire(b: bool) -> Seq<char> {
    if b { "TRUE"@ } else { "FALSE"@ }
}

/// ASCII letters in upper case, every other character unchanged.
pub open spec fn ascii_upper(s: Seq<char>) -> Seq<char> {
    s.map_values(|c: char| if 'a' <= c && c <= 'z' { ((c as u32) - 32) as char } else { c })
}

pub open spec fn opt_flag(o: Option<bool>) -> Option<Seq<char>> {
    match o {
        Some(b) => Some(flag_wire(b)),
        None => None,
    }
}

pub open spec fn opt_upper(o: Option<String>) -> Option<Seq<char>> {
    match o {
        Some(s) => Some(ascii_upper(s@)),
        None => None,
    }
}

/// Each field of an order with its wire name and wire text, in the order
/// the exchange documents them.
pub open spec fn order_table(o: CustomOrderRequest) -> Seq<FieldRow> {
    seq![
        ("symbol"@, Some(o.symbol@)),
        ("side"@, Some(order_side_wire(o.side))),
        ("type"@, Some(order_type_wire(o.order_type))),
        ("positionSide"@, match o.position_side { Some(p) => Some(position_side_wire(p)), None => None }),
        ("timeInForce"@, match o.time_in_force { Some(t) => Some(time_in_force_wire(t)), None => None }),
        ("quantity"@, opt_view(o.qty)),
        ("reduceOnly"@, opt_flag(o.reduce_only)),
        ("price"@, opt_view(o.price)),
        ("stopPrice"@, opt_view(o.stop_price)),
        ("closePosition"@, opt_flag(o.close_position)),
        ("activationPrice"@, opt_view(o.activation_price)),
        ("callbackRate"@, opt_view(o.callback_rate)),
        ("workingType"@, match o.working_type { Some(w) => Some(working_type_wire(w)), None => None }),
        ("priceProtect"@, opt_upper(o.price_protect)),
    ]
}

/// The fields that a table sets, later rows winning.
pub open spec fn table_map(t: Seq<FieldRow>) -> Map<Seq<char>, Seq<char>>
    decreases t.len(),
{
    if t.len() == 0 {
        Map::empty()
    } else {
        match t.last().1 {
            Some(v) => table_map(t.drop_last()).insert(t.last().0, v),
            None => table_map(t.drop_last()),
        }
    }
}

/// The parameters of an order.
pub open spec fn order_map(o: CustomOrderRequest) -> Map<Seq<char>, Seq<char>> {
    table_map(order_table(o))
}

/// Relies on str::to_ascii_uppercase: ASCII letters `a`..`z` become
/// `A`..`Z`, every other character is kept.
#[verifier::external_body]
fn to_ascii_upper(s: &str) -> (r: String)
    ensures
        r@ == ascii_upper(s@),
{
    s.to_ascii_uppercase()
}

fn flag_text(b: bool) -> (r: &'static str)
    ensures
        r@ == flag_wire(b),
{
    if b { "TRUE" } else { "FALSE" }
}

fn opt_string(o: &Option<String>) -> (r: Option<String>)
    ensures
        opt_view(r) == opt_view(*o),
{
    match o {
        Some(s) => Some(s.clone()),
        None => None,
    }
}

fn opt_flag_text(o: Option<bool>) -> (r: Option<String>)
    ensures
        opt_view(r) == opt_flag(o),
{
    match o {
        Some(b) => Some(String::from_str(flag_text(b))),
        None => None,
    }
}

/// Builds the parameters of an order: every field that is set, with its
/// wire encoding, and none that is not.
pub fn build_order(order: &CustomOrderRequest) -> (r: ParameterSet)
    ensures
        r.wf(),
        r.as_map() == order_map(*order),
{
    let mut table: Vec<(&'static str, Option<String>)> = Vec::new();
    table.push(("symbol", Some(order.symbol.clone())));
    table.push(("side", Some(String::from_str(order.side.as_str()))));
    table.push(("type", Some(String::from_str(order.order_type.as_str()))));
    table.push((
        "positionSide",
        match order.position_side {
            Some(p) => Some(String::from_str(p.as_str())),
            None => None,
        },
    ));
    table.push((
        "timeInForce",
        match order.time_in_force {
            Some(t) => Some(String::from_str(t.as_str())),
            None => None,
        },
    ));
    table.push(("quantity", opt_string(&order.qty)));
    table.push(("reduceOnly", opt_flag_text(order.reduce_only)));
    table.push(("price", opt_string(&order.price)));
    table.push(("stopPrice", opt_string(&order.stop_price)));
    table.push(("closePosition", opt_flag_text(order.close_position)));
    table.push(("activationPrice", opt_string(&order.activation_price)));
    table.push(("callbackRate", opt_string(&order.callback_rate)));
    table.push((
        "workingType",
        match order.working_type {
            Some(w) => Some(String::from_str(w.as_str())),
            None => None,
        },
    ));
    table.push((
        "priceProtect",
        match &order.price_protect {
            Some(p) => Some(to_ascii_upper(p.as_str())),
            None => None,
        },
    ));
    let ghost rows = table@.map_values(|e: (&'static str, Option<String>)| (e.0@, opt_view(e.1)));
    assert(rows =~= order_table(*order));
    let mut params = ParameterSet::new();
    let mut i: usize = 0;
    while i < table.len()
        invariant
            i <= table@.len(),
            rows == table@.map_values(|e: (&'static str, Option<String>)| (e.0@, opt_view(e.1))),
            params.as_map() == table_map(rows.subrange(0, i as int)),
        decreases table@.len() - i,
    {
        assert(rows.subrange(0, i + 1).drop_last() =~= rows.subrange(0, i as int));
        match &table[i].1 {
            Some(v) => {
                params.insert(String::from_str(table[i].0), v.clone());
            },
            None => {},
        }
        i = i + 1;
    }
    assert(rows.subrange(0, table@.len() as int) =~= rows);
    proof {
        use_type_invariant(&params);
    }
    params
}

/// No two rows of a table name the same field.
pub open spec fn distinct_names(t: Seq<FieldRow>) -> bool {
    forall|a: int, b: int| 0 <= a < b < t.len() ==> #[trigger] t[a].0 != #[trigger] t[b].0
}

proof fn lemma_table_map_names(t: Seq<FieldRow>, k: Seq<char>)
    requires
        table_map(t).contains_key(k),
    ensures
        exists|j: int| 0 <= j < t.len() && #[trigger] t[j].0 == k,
    decreases t.len(),
{
    if t.last().0 != k {
        lemma_table_map_names(t.drop_last(), k);
        let j = choose|j: int| 0 <= j < t.len() - 1 && #[trigger] t.drop_last()[j].0 == k;
        assert(t[j].0 == k);
    } else {
        assert(t[t.len() - 1].0 == k);
    }
}

/// With distinct names, a row that is unset leaves its field out of the
/// mapping, and a row that is set gives its field exactly its text.
pub proof fn lemma_table_map_row(t: Seq<FieldRow>, i: int)
    requires
        distinct_names(t),
        0 <= i < t.len(),
    ensures
        t[i].1 is None ==> !table_map(t).contains_key(t[i].0),
        t[i].1 is Some ==> table_map(t).contains_key(t[i].0) && table_map(t)[t[i].0] == t[i].1->0,
    decreases t.len(),
{
    let p = t.drop_last();
    assert(distinct_names(p)) by {
        assert forall|a: int, b: int| 0 <= a < b < p.len() implies #[trigger] p[a].0 != #[trigger] p[b].0 by {
            assert(t[a].0 != t[b].0);
        }
    }
    if i == t.len() - 1 {
        if table_map(p).contains_key(t[i].0) {
            lemma_table_map_names(p, t[i].0);
            let j = choose|j: int| 0 <= j < p.len() && #[trigger] p[j].0 == t[i].0;
            assert(t[j].0 != t[i].0);
        }
    } else {
        lemma_table_map_row(p, i);
        assert(t.last().0 != t[i].0);
    }
}

/// The table of an order names every field once.
pub proof fn lemma_order_table_distinct(o: CustomOrderRequest)
    ensures
        distinct_names(order_table(o)),
{
    reveal_strlit("symbol");
    reveal_strlit("side");
    reveal_strlit("type");
    reveal_strlit("positionSide");
    reveal_strlit("timeInForce");
    reveal_strlit("quantity");
    reveal_strlit("reduceOnly");
    reveal_strlit("price");
    reveal_strlit("stopPrice");
    reveal_strlit("closePosition");
    reveal_strlit("activationPrice");
    reveal_strlit("callbackRate");
    reveal_strlit("workingType");
    reveal_strlit("priceProtect");
    assert("symbol"@[1] != "side"@[1]);
    assert("symbol"@[0] != "type"@[0]);
    assert("symbol"@[0] != "positionSide"@[0]);
    assert("symbol"@[0] != "timeInForce"@[0]);
    assert("symbol"@[0] != "quantity"@[0]);
    assert("symbol"@[0] != "reduceOnly"@[0]);
    assert("symbol"@[0] != "price"@[0]);
    assert("symbol"@[1] != "stopPrice"@[1]);
    assert("symbol"@[0] != "closePosition"@[0]);
    assert("symbol"@[0] != "activationPrice"@[0]);
    assert("symbol"@[0] != "callbackRate"@[0]);
    assert("symbol"@[0] != "workingType"@[0]);
    assert("symbol"@[0] != "priceProtect"@[0]);
    assert("side"@[0] != "type"@[0]);
    assert("side"@[0] != "positionSide"@[0]);
    assert("side"@[0] != "timeInForce"@[0]);
    assert("side"@[0] != "quantity"@[0]);
    assert("side"@[0] != "reduceOnly"@[0]);
    assert("side"@[0] != "price"@[0]);
    assert("side"@[1] != "stopPrice"@[1]);
    assert("side"@[0] != "closePosition"@[0]);
    assert("side"@[0] != "activationPrice"@[0]);
    assert("side"@[0] != "callbackRate"@[0]);
    assert("side"@[0] != "workingType"@[0]);
    assert("side"@[0] != "priceProtect"@[0]);
    assert("type"@[0] != "positionSide"@[0]);
    assert("type"@[1] != "timeInForce"@[1]);
    assert("type"@[0] != "quantity"@[0]);
    assert("type"@[0] != "reduceOnly"@[0]);
    assert("type"@[0] != "price"@[0]);
    assert("type"@[0] != "stopPrice"@[0]);
    assert("type"@[0] != "closePosition"@[0]);
    assert("type"@[0] != "activationPrice"@[0]);
    assert("type"@[0] != "callbackRate"@[0]);
    assert("type"@[0] != "workingType"@[0]);
    assert("type"@[0] != "priceProtect"@[0]);
    assert("positionSide"@[0] != "timeInForce"@[0]);
    assert("positionSide"@[0] != "quantity"@[0]);
    assert("positionSide"@[0] != "reduceOnly"@[0]);
    assert("positionSide"@[1] != "price"@[1]);
    assert("positionSide"@[0] != "stopPrice"@[0]);
    assert("positionSide"@[0] != "closePosition"@[0]);
    assert("positionSide"@[0] != "activationPrice"@[0]);
    assert("positionSide"@[0] != "callbackRate"@[0]);
    assert("positionSide"@[0] != "workingType"@[0]);
    assert("positionSide"@[1] != "priceProtect"@[1]);
    assert("timeInForce"@[0] != "quantity"@[0]);
    assert("timeInForce"@[0] != "reduceOnly"@[0]);
    assert("timeInForce"@[0] != "price"@[0]);
    assert("timeInForce"@[0] != "stopPrice"@[0]);
    assert("timeInForce"@[0] != "closePosition"@[0]);
    assert("timeInForce"@[0] != "activationPrice"@[0]);
    assert("timeInForce"@[0] != "callbackRate"@[0]);
    assert("timeInForce"@[0] != "workingType"@[0]);
    assert("timeInForce"@[0] != "priceProtect"@[0]);
    assert("quantity"@[0] != "reduceOnly"@[0]);
    assert("quantity"@[0] != "price"@[0]);
    assert("quantity"@[0] != "stopPrice"@[0]);
    assert("quantity"@[0] != "closePosition"@[0]);
    assert("quantity"@[0] != "activationPrice"@[0]);
    assert("quantity"@[0] != "callbackRate"@[0]);
    assert("quantity"@[0] != "workingType"@[0]);
    assert("quantity"@[0] != "priceProtect"@[0]);
    assert("reduceOnly"@[0] != "price"@[0]);
    assert("reduceOnly"@[0] != "stopPrice"@[0]);
    assert("reduceOnly"@[0] != "closePosition"@[0]);
    assert("reduceOnly"@[0] != "activationPrice"@[0]);
    assert("reduceOnly"@[0] != "callbackRate"@[0]);
    assert("reduceOnly"@[0] != "workingType"@[0]);
    assert("reduceOnly"@[0] != "priceProtect"@[0]);
    assert("price"@[0] != "stopPrice"@[0]);
    assert("price"@[0] != "closePosition"@[0]);
    assert("price"@[0] != "activationPrice"@[0]);
    assert("price"@[0] != "callbackRate"@[0]);
    assert("price"@[0] != "workingType"@[0]);
    assert("price"@.len() != "priceProtect"@.len());
    assert("stopPrice"@[0] != "closePosition"@[0]);
    assert("stopPrice"@[0] != "activationPrice"@[0]);
    assert("stopPrice"@[0] != "callbackRate"@[0]);
    assert("stopPrice"@[0] != "workingType"@[0]);
    assert("stopPrice"@[0] != "priceProtect"@[0]);
    assert("closePosition"@[0] != "activationPrice"@[0]);
    assert("closePosition"@[1] != "callbackRate"@[1]);
    assert("closePosition"@[0] != "workingType"@[0]);
    assert("closePosition"@[0] != "priceProtect"@[0]);
    assert("activationPrice"@[0] != "callbackRate"@[0]);
    assert("activationPrice"@[0] != "workingType"@[0]);
    assert("activationPrice"@[0] != "priceProtect"@[0]);
    assert("callbackRate"@[0] != "workingType"@[0]);
    assert("callbackRate"@[0] != "priceProtect"@[0]);
    assert("workingType"@[0] != "priceProtect"@[0]);
    let t = order_table(o);
    assert forall|a: int, b: int| 0 <= a < b < t.len() implies #[trigger] t[a].0 != #[trigger] t[b].0 by {
        assert(t.len() == 14);
    }
}

/// The parameters of an order hold no field that the order leaves unset,
/// and every field that it sets, with that field's wire encoding.
pub proof fn lemma_order_fields_exact(o: CustomOrderRequest, i: int)
    requires
        0 <= i < order_table(o).len(),
    ensures
        order_table(o)[i].1 is None ==> !order_map(o).contains_key(order_table(o)[i].0),
        order_table(o)[i].1 is Some ==> order_map(o).contains_key(order_table(o)[i].0)
            && order_map(o)[order_table(o)[i].0] == order_table(o)[i].1->0,
        o.qty is None ==> !order_map(o).contains_key("quantity"@),
        o.reduce_only == Some(true) ==> order_map(o)["reduceOnly"@] == "TRUE"@,
{
    lemma_order_table_distinct(o);
    lemma_table_map_row(order_table(o), i);
    lemma_table_map_row(order_table(o), 5);
    lemma_table_map_row(order_table(o), 6);
}

} // verus!
