//! Candlestick rows: arrays of loosely typed values read by position, where a
//! missing or mistyped position is reported by its index and name.
use vstd::prelude::*;
use crate::classify::{classify_response, decode_failure, failure_error, is_decode_error, is_success_status};
use crate::errors::Error;
use crate::json::{json_int_in, json_parse_of, json_text, JsonNumber, JsonValue};

verus! {

/// One candlestick.
#[derive(Debug)]
pub struct KlineSummary {
    pub open_time: i64,
    pub open: String,
    pub high: String,
    pub low: String,
    pub close: String,
    pub volume: String,
    pub close_time: i64,
    pub quote_asset_volume: String,
    pub number_of_trades: i64,
    pub taker_buy_base_asset_volume: String,
    pub taker_buy_quote_asset_volume: String,
}

/// The integer at position `i` of a row, if it is one that fits `i64`.
pub open spec fn row_int(row: Seq<JsonValue>, i: int) -> Option<int> {
    if 0 <= i < row.len() {
        json_int_in(Some(row[i]), i64::MIN as int, i64::MAX as int)
    } else {
        None
    }
}

/// The string at position `i` of a row, if it is one.
pub open spec fn row_text(row: Seq<JsonValue>, i: int) -> Option<Seq<char>> {
    if 0 <= i < row.len() {
        json_text(Some(row[i]))
    } else {
        None
    }
}

pub open spec fn row_int_ok(row: Seq<JsonValue>, i: int) -> bool {
    row_int(row, i) is Some
}

pub open spec fn row_text_ok(row: Seq<JsonValue>, i: int) -> bool {
    row_text(row, i) is Some
}

/// The first position of a row that does not hold what a candlestick needs there.
pub open spec fn kline_first_bad(row: Seq<JsonValue>) -> Option<int> {
    if !row_int_ok(row, 0) {
        Some(0int)
    } else if !row_text_ok(row, 1) {
        Some(1int)
    } else if !row_text_ok(row, 2) {
        Some(2int)
    } else if !row_text_ok(row, 3) {
        Some(3int)
    } else if !row_text_ok(row, 4) {
        Some(4int)
    } else if !row_text_ok(row, 5) {
        Some(5int)
    } else if !row_int_ok(row, 6) {
        Some(6int)
    } else if !row_text_ok(row, 7) {
        Some(7int)
    } else if !row_int_ok(row, 8) {
        Some(8int)
    } else if !row_text_ok(row, 9) {
        Some(9int)
    } else if !row_text_ok(row, 10) {
        Some(10int)
    } else {
        None
    }
}

/// The name of the candlestick field at position `i`.
pub open spec fn kline_field_name(i: int) -> Seq<char> {
    if i == 0 {
        "open_time"@
    } else if i == 1 {
        "open"@
    } else if i == 2 {
        "high"@
    } else if i == 3 {
        "low"@
    } else if i == 4 {
        "close"@
    } else if i == 5 {
        "volume"@
    } else if i == 6 {
        "close_time"@
    } else if i == 7 {
        "quote_asset_volume"@
    } else if i == 8 {
        "number_of_trades"@
    } else if i == 9 {
        "taker_buy_base_asset_volume"@
    } else {
        "taker_buy_quote_asset_volume"@
    }
}

/// `k` holds the row's values, position by position.
pub open spec fn kline_matches(row: Seq<JsonValue>, k: KlineSummary) -> bool {
    &&& row_int(row, 0) == Some(k.open_time as int)
    &&& row_text(row, 1) == Some(k.open@)
    &&& row_text(row, 2) == Some(k.high@)
    &&& row_text(row, 3) == Some(k.low@)
    &&& row_text(row, 4) == Some(k.close@)
    &&& row_text(row, 5) == Some(k.volume@)
    &&& row_int(row, 6) == Some(k.close_time as int)
    &&& row_text(row, 7) == Some(k.quote_asset_volume@)
    &&& row_int(row, 8) == Some(k.number_of_trades as int)
    &&& row_text(row, 9) == Some(k.taker_buy_base_asset_volume@)
    &&& row_text(row, 10) == Some(k.taker_buy_quote_asset_volume@)
}

fn missing(index: usize, name: &str) -> (r: Error)
    ensures
        r matches Error::KlineValueMissingError { index: i, name: n } && i == index && n@ == name@,
{
    Error::KlineValueMissingError { index, name: String::from_str(name) }
}

fn row_i64(row: &Vec<JsonValue>, index: usize, name: &str) -> (r: Result<i64, Error>)
    ensures
        match r {
            Ok(x) => row_int(row@, index as int) == Some(x as int),
            Err(e) => row_int(row@, index as int) is None && (e matches Error::KlineValueMissingError { index: i, name: n }
                && i == index && n@ == name@),
        },
{
    if index < row.len() {
        match &row[index] {
            JsonValue::Number(JsonNumber::PosInt(u)) => {
                if *u <= 9223372036854775807u64 {
                    return Ok(*u as i64);
                }
            },
            JsonValue::Number(JsonNumber::NegInt(i)) => {
                return Ok(*i);
            },
            _ => {},
        }
    }
    Err(missing(index, name))
}

fn row_string(row: &Vec<JsonValue>, index: usize, name: &str) -> (r: Result<String, Error>)
    ensures
        match r {
            Ok(x) => row_text(row@, index as int) == Some(x@),
            Err(e) => row_text(row@, index as int) is None && (e matches Error::KlineValueMissingError { index: i, name: n }
                && i == index && n@ == name@),
        },
{
    if index < row.len() {
        match &row[index] {
            JsonValue::Str(s) => {
                return Ok(s.clone());
            },
            _ => {},
        }
    }
    Err(missing(index, name))
}

/// Reads a candlestick from its row. The first position that is missing or
/// of the wrong type is reported with its index and field name.
pub fn decode_kline(row: &Vec<JsonValue>) -> (r: Result<KlineSummary, Error>)
    ensures
        match kline_first_bad(row@) {
            Some(i) => r matches Err(Error::KlineValueMissingError { index: j, name: n }) && j == i
                && n@ == kline_field_name(i),
            None => r matches Ok(k) && kline_matches(row@, k),
        },
{
    proof {
        reveal_strlit("open_time");
        reveal_strlit("open");
        reveal_strlit("high");
        reveal_strlit("low");
        reveal_strlit("close");
        reveal_strlit("volume");
        reveal_strlit("close_time");
        reveal_strlit("quote_asset_volume");
        reveal_strlit("number_of_trades");
        reveal_strlit("taker_buy_base_asset_volume");
        reveal_strlit("taker_buy_quote_asset_volume");
    }
    let open_time = match row_i64(row, 0, "open_time") {
        Ok(x) => x,
        Err(e) => return Err(e),
    };
    let open = match row_string(row, 1, "open") {
        Ok(x) => x,
        Err(e) => return Err(e),
    };
    let high = match row_string(row, 2, "high") {
        Ok(x) => x,
        Err(e) => return Err(e),
    };
    let low = match row_string(row, 3, "low") {
        Ok(x) => x,
        Err(e) => return Err(e),
    };
    let close = match row_string(row, 4, "close") {
        Ok(x) => x,
        Err(e) => return Err(e),
    };
    let volume = match row_string(row, 5, "volume") {
        Ok(x) => x,
        Err(e) => return Err(e),
    };
    let close_time = match row_i64(row, 6, "close_time") {
        Ok(x) => x,
        Err(e) => return Err(e),
    };
    let quote_asset_volume = match row_string(row, 7, "quote_asset_volume") {
        Ok(x) => x,
        Err(e) => return Err(e),
    };
    let number_of_trades = match row_i64(row, 8, "number_of_trades") {
        Ok(x) => x,
        Err(e) => return Err(e),
    };
    let taker_buy_base_asset_volume = match row_string(row, 9, "taker_buy_base_asset_volume") {
        Ok(x) => x,
        Err(e) => return Err(e),
    };
    let taker_buy_quote_asset_volume = match row_string(row, 10, "taker_buy_quote_asset_volume") {
        Ok(x) => x,
        Err(e) => return Err(e),
    };
    Ok(KlineSummary { open_time, open, high, low, close, volume, close_time, quote_asset_volume, number_of_trades, taker_buy_base_asset_volume, taker_buy_quote_asset_volume })
}

/// A row of a candlestick response is an array that reads as a candlestick.
pub open spec fn kline_row_ok(v: JsonValue) -> bool {
    v matches JsonValue::Array(a) && kline_first_bad(a@) is None
}

/// The error for a row that does not read: its first bad position, or a
/// decoding failure for a row that is not an array at all.
pub open spec fn kline_row_error(v: JsonValue, status: u16, body: Seq<u8>, e: Error) -> bool {
    match v {
        JsonValue::Array(a) => match kline_first_bad(a@) {
            Some(i) => e matches Error::KlineValueMissingError { index: j, name: n } && j == i
                && n@ == kline_field_name(i),
            None => false,
        },
        _ => is_decode_error(e, Some(status), body),
    }
}

/// What a candlestick response comes to once classified as a success with
/// rows `rows`: every row read in order, or the error of the first bad row.
pub open spec fn klines_outcome(
    rows: Seq<JsonValue>,
    status: u16,
    body: Seq<u8>,
    r: Result<Vec<KlineSummary>, Error>,
) -> bool {
    if forall|i: int| 0 <= i < rows.len() ==> kline_row_ok(#[trigger] rows[i]) {
        r matches Ok(ks) && ks@.len() == rows.len() && forall|i: int|
            0 <= i < rows.len() ==> (#[trigger] rows[i] matches JsonValue::Array(a) && kline_matches(a@, ks@[i]))
    } else {
        r matches Err(e) && exists|i: int|
            0 <= i < rows.len() && !kline_row_ok(#[trigger] rows[i]) && (forall|j: int| 0 <= j < i ==> kline_row_ok(#[trigger] rows[j]))
                && kline_row_error(rows[i], status, body, e)
    }
}

/// Reads the rows of a candlestick response.
pub fn decode_klines(
    rows: &Vec<JsonValue>,
    status: u16,
    body: &[u8],
) -> (r: Result<Vec<KlineSummary>, Error>)
    ensures
        klines_outcome(rows@, status, body@, r),
{
    let mut out: Vec<KlineSummary> = Vec::new();
    let mut i: usize = 0;
    while i < rows.len()
        invariant
            i <= rows@.len(),
            out@.len() == i,
            forall|j: int| 0 <= j < i ==> kline_row_ok(#[trigger] rows@[j]),
            forall|j: int| 0 <= j < i ==> (#[trigger] rows@[j] matches JsonValue::Array(a) && kline_matches(a@, out@[j])),
        decreases rows@.len() - i,
    {
        match &rows[i] {
            JsonValue::Array(a) => match decode_kline(a) {
                Ok(k) => out.push(k),
                Err(e) => {
                    assert(!kline_row_ok(rows@[i as int]));
                    return Err(e);
                },
            },
            _ => {
                assert(!kline_row_ok(rows@[i as int]));
                return Err(decode_failure(Some(status), body));
            },
        }
        i = i + 1;
    }
    Ok(out)
}

/// Reads a candlestick response: a classified failure, a decoding failure
/// for a body that is not an array, or the rows as `decode_klines` says.
pub fn kline_response(status: u16, body: &[u8]) -> (r: Result<Vec<KlineSummary>, Error>)
    ensures
        match json_parse_of(body@) {
            Some(JsonValue::Array(rows)) => if is_success_status(status) {
                klines_outcome(rows@, status, body@, r)
            } else {
                r matches Err(e) && failure_error(status, body@, json_parse_of(body@), e)
            },
            _ => r matches Err(e) && (if is_success_status(status) {
                is_decode_error(e, Some(status), body@)
            } else {
                failure_error(status, body@, json_parse_of(body@), e)
            }),
        },
{
    match classify_response(status, body) {
        Ok(JsonValue::Array(rows)) => decode_klines(&rows, status, body),
        Ok(_) => Err(decode_failure(Some(status), body)),
        Err(e) => Err(e),
    }
}

} // verus!
