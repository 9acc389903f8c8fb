//! Classifying raw responses: a typed success, the exchange's own business
//! error, or a decoding failure that keeps the raw body.
use vstd::prelude::*;
use vstd::slice::slice_to_vec;
use crate::errors::{BinanceContentError, Error};
use crate::json::{
    int_field_in, json_field, json_int_in, json_parse_of, json_text, parse_json, text_field, JsonValue,
};
use crate::model::{
    decode_open_interest_hist, decode_order, decode_order_list, open_interest_hist_decodes,
    open_interest_hist_matches, order_decodes, order_list_decodes, order_list_matches, order_matches,
    OpenInterestHist, Order, decode_transaction, transaction_decodes, transaction_matches, Transaction,
    decode_canceled_order, canceled_order_decodes, canceled_order_matches, CanceledOrder,
    decode_position_list, position_list_decodes, position_list_matches, Position,
    decode_account_balance_list, account_balance_list_decodes, account_balance_list_matches, AccountBalance,
    decode_change_leverage_response, change_leverage_response_decodes, change_leverage_response_matches,
    ChangeLeverageResponse,
};

verus! {

/// A 2xx HTTP status.
pub open spec fn is_success_status(status: u16) -> bool {
    200 <= status <= 299
}

/// The value is a `{code, msg}` envelope with a 16-bit code.
pub open spec fn content_error_decodes(v: JsonValue) -> bool {
    &&& json_int_in(json_field(v, "code"@), i16::MIN as int, i16::MAX as int) is Some
    &&& json_text(json_field(v, "msg"@)) is Some
}

/// `e` holds the envelope's code and message verbatim.
pub open spec fn content_error_matches(v: JsonValue, e: BinanceContentError) -> bool {
    &&& json_int_in(json_field(v, "code"@), i16::MIN as int, i16::MAX as int) == Some(e.code as int)
    &&& json_text(json_field(v, "msg"@)) == Some(e.msg@)
}

/// Reads the exchange's error envelope.
pub fn decode_content_error(v: &JsonValue) -> (r: Option<BinanceContentError>)
    ensures
        r is Some <==> content_error_decodes(*v),
        r matches Some(e) ==> content_error_matches(*v, e),
{
    let code = match int_field_in(v, "code", -32768, 32767) {
        Some(c) => c as i16,
        None => return None,
    };
    let msg = match text_field(v, "msg") {
        Some(m) => m,
        None => return None,
    };
    Some(BinanceContentError { code, msg })
}

/// A decoding failure that keeps the status (if any) and the raw bytes.
pub open spec fn is_decode_error(e: Error, status: Option<u16>, body: Seq<u8>) -> bool {
    e matches Error::DecodeError { status: s, body: b } && s == status && b@ == body
}

/// The error for a failing status: the business error when the body is a
/// well-formed envelope, else a decoding failure; never a made-up code.
pub open spec fn failure_error(
    status: u16,
    body: Seq<u8>,
    parsed: Option<JsonValue>,
    e: Error,
) -> bool {
    if parsed is Some && content_error_decodes(parsed->0) {
        e matches Error::BinanceError(c) && content_error_matches(parsed->0, c)
    } else {
        is_decode_error(e, Some(status), body)
    }
}

/// A decoding failure carrying `status` and a copy of `body`.
pub fn decode_failure(status: Option<u16>, body: &[u8]) -> (r: Error)
    ensures
        is_decode_error(r, status, body@),
{
    Error::DecodeError { status, body: slice_to_vec(body) }
}

/// The error of a failing response, from its parsed body.
pub fn classify_failure(status: u16, body: &[u8], parsed: &Option<JsonValue>) -> (r: Error)
    ensures
        failure_error(status, body@, *parsed, r),
{
    match parsed {
        Some(v) => match decode_content_error(v) {
            Some(c) => Error::BinanceError(c),
            None => decode_failure(Some(status), body),
        },
        None => decode_failure(Some(status), body),
    }
}

/// What a response comes to, given its status and what its body parsed to:
/// the JSON value on success, else the classified error.
pub open spec fn parsed_outcome(
    status: u16,
    body: Seq<u8>,
    parsed: Option<JsonValue>,
    r: Result<JsonValue, Error>,
) -> bool {
    if is_success_status(status) {
        match parsed {
            Some(v) => r == Ok::<JsonValue, Error>(v),
            None => r matches Err(e) && is_decode_error(e, Some(status), body),
        }
    } else {
        r matches Err(e) && failure_error(status, body, parsed, e)
    }
}

/// Classifies a response whose body has already been parsed.
pub fn classify_parsed(
    status: u16,
    body: &[u8],
    parsed: Option<JsonValue>,
) -> (r: Result<JsonValue, Error>)
    ensures
        parsed_outcome(status, body@, parsed, r),
{
    if 200 <= status && status <= 299 {
        match parsed {
            Some(v) => Ok(v),
            None => Err(decode_failure(Some(status), body)),
        }
    } else {
        Err(classify_failure(status, body, &parsed))
    }
}

/// Classifies a raw response: parses the body as JSON, then as
/// `classify_parsed` says.
pub fn classify_response(status: u16, body: &[u8]) -> (r: Result<JsonValue, Error>)
    ensures
        parsed_outcome(status, body@, json_parse_of(body@), r),
{
    let parsed = parse_json(body);
    classify_parsed(status, body, parsed)
}

/// What a typed response comes to: the decoded value where the status is a
/// success and the body holds one, a decoding failure where it does not, and
/// the classified error for a failing status.
pub open spec fn typed_outcome<T>(
    status: u16,
    body: Seq<u8>,
    decodes: spec_fn(JsonValue) -> bool,
    matches: spec_fn(JsonValue, T) -> bool,
    r: Result<T, Error>,
) -> bool {
    let parsed = json_parse_of(body);
    if is_success_status(status) {
        if parsed is Some && decodes(parsed->0) {
            r matches Ok(x) && matches(parsed->0, x)
        } else {
            r matches Err(e) && is_decode_error(e, Some(status), body)
        }
    } else {
        r matches Err(e) && failure_error(status, body, parsed, e)
    }
}

/// Reads an order response.
pub fn order_response(status: u16, body: &[u8]) -> (r: Result<Order, Error>)
    ensures
        typed_outcome(status, body@, |v: JsonValue| order_decodes(v), |v: JsonValue, x: Order| order_matches(v, x), r),
{
    match classify_response(status, body) {
        Ok(v) => match decode_order(&v) {
            Some(x) => Ok(x),
            None => Err(decode_failure(Some(status), body)),
        },
        Err(e) => Err(e),
    }
}

/// Reads a response that lists orders.
pub fn order_list_response(status: u16, body: &[u8]) -> (r: Result<Vec<Order>, Error>)
    ensures
        typed_outcome(
            status,
            body@,
            |v: JsonValue| order_list_decodes(Some(v)),
            |v: JsonValue, x: Vec<Order>| order_list_matches(Some(v), x),
            r,
        ),
{
    match classify_response(status, body) {
        Ok(v) => match decode_order_list(Some(&v)) {
            Some(x) => Ok(x),
            None => Err(decode_failure(Some(status), body)),
        },
        Err(e) => Err(e),
    }
}

/// Reads an open-interest history entry.
pub fn open_interest_hist_response(status: u16, body: &[u8]) -> (r: Result<OpenInterestHist, Error>)
    ensures
        typed_outcome(
            status,
            body@,
            |v: JsonValue| open_interest_hist_decodes(v),
            |v: JsonValue, x: OpenInterestHist| open_interest_hist_matches(v, x),
            r,
        ),
{
    match classify_response(status, body) {
        Ok(v) => match decode_open_interest_hist(&v) {
            Some(x) => Ok(x),
            None => Err(decode_failure(Some(status), body)),
        },
        Err(e) => Err(e),
    }
}

/// Reads the answer to a new order.
pub fn transaction_response(status: u16, body: &[u8]) -> (r: Result<Transaction, Error>)
    ensures
        typed_outcome(status, body@, |v: JsonValue| transaction_decodes(v), |v: JsonValue, x: Transaction| transaction_matches(v, x), r),
{
    match classify_response(status, body) {
        Ok(v) => match decode_transaction(&v) {
            Some(x) => Ok(x),
            None => Err(decode_failure(Some(status), body)),
        },
        Err(e) => Err(e),
    }
}

/// Reads the answer to a cancellation.
pub fn canceled_order_response(status: u16, body: &[u8]) -> (r: Result<CanceledOrder, Error>)
    ensures
        typed_outcome(status, body@, |v: JsonValue| canceled_order_decodes(v), |v: JsonValue, x: CanceledOrder| canceled_order_matches(v, x), r),
{
    match classify_response(status, body) {
        Ok(v) => match decode_canceled_order(&v) {
            Some(x) => Ok(x),
            None => Err(decode_failure(Some(status), body)),
        },
        Err(e) => Err(e),
    }
}

/// Reads a list of positions.
pub fn position_list_response(status: u16, body: &[u8]) -> (r: Result<Vec<Position>, Error>)
    ensures
        typed_outcome(status, body@, |v: JsonValue| position_list_decodes(Some(v)), |v: JsonValue, x: Vec<Position>| position_list_matches(Some(v), x), r),
{
    match classify_response(status, body) {
        Ok(v) => match decode_position_list(Some(&v)) {
            Some(x) => Ok(x),
            None => Err(decode_failure(Some(status), body)),
        },
        Err(e) => Err(e),
    }
}

/// Reads the balances of an account.
pub fn account_balance_list_response(
    status: u16,
    body: &[u8],
) -> (r: Result<Vec<AccountBalance>, Error>)
    ensures
        typed_outcome(status, body@, |v: JsonValue| account_balance_list_decodes(Some(v)), |v: JsonValue, x: Vec<AccountBalance>| account_balance_list_matches(Some(v), x), r),
{
    match classify_response(status, body) {
        Ok(v) => match decode_account_balance_list(Some(&v)) {
            Some(x) => Ok(x),
            None => Err(decode_failure(Some(status), body)),
        },
        Err(e) => Err(e),
    }
}

/// Reads the answer to a leverage change.
pub fn change_leverage_response(
    status: u16,
    body: &[u8],
) -> (r: Result<ChangeLeverageResponse, Error>)
    ensures
        typed_outcome(status, body@, |v: JsonValue| change_leverage_response_decodes(v), |v: JsonValue, x: ChangeLeverageResponse| change_leverage_response_matches(v, x), r),
{
    match classify_response(status, body) {
        Ok(v) => match decode_change_leverage_response(&v) {
            Some(x) => Ok(x),
            None => Err(decode_failure(Some(status), body)),
        },
        Err(e) => Err(e),
    }
}

/// Reads an answer that carries no data: any JSON object.
pub fn empty_response(status: u16, body: &[u8]) -> (r: Result<(), Error>)
    ensures
        typed_outcome(status, body@, |v: JsonValue| v is Object, |v: JsonValue, x: ()| true, r),
{
    match classify_response(status, body) {
        Ok(JsonValue::Object(_)) => Ok(()),
        Ok(_) => Err(decode_failure(Some(status), body)),
        Err(e) => Err(e),
    }
}

/// A business-error envelope under a failing status is reported as that
/// business error, with its code and message, and never as a decoding failure.
pub proof fn lemma_business_error_kept(status: u16, body: Seq<u8>, v: JsonValue, r: Result<JsonValue, Error>)
    requires
        !is_success_status(status),
        content_error_decodes(v),
        parsed_outcome(status, body, Some(v), r),
    ensures
        r matches Err(Error::BinanceError(c)) && content_error_matches(v, c),
        !(r matches Err(Error::DecodeError { .. })),
{
}

} // verus!
