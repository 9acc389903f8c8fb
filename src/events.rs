//! Stream events: the `"e"` member of a frame selects exactly one variant,
//! and a frame with no or an unknown discriminator is refused.
use vstd::prelude::*;
use crate::classify::{decode_failure, is_decode_error};
use crate::errors::Error;
use crate::json::{field, json_field, json_parse_of, json_text, parse_json, text_field, JsonValue};
use crate::model::{
    account_update_event_decodes, account_update_event_matches, decode_account_update_event,
    decode_leverage_update_event, decode_listen_key_expired_event, decode_margin_call_event,
    decode_multi_assets_margin_update_event, decode_order_trade_event, leverage_update_event_decodes,
    leverage_update_event_matches, listen_key_expired_event_decodes, listen_key_expired_event_matches,
    margin_call_event_decodes, margin_call_event_matches, multi_assets_margin_update_event_decodes,
    multi_assets_margin_update_event_matches, order_trade_event_decodes, order_trade_event_matches,
    AccountUpdateEvent, LeverageUpdateEvent, ListenKeyExpiredEvent, MarginCallEvent,
    MultiAssetsMarginUpdateEvent, OrderTradeEvent,
};
use crate::text::str_eq;

verus! {

/// Which variant a frame's discriminator selects.
#[derive(Debug, Clone, Copy, PartialEq, Eq, Structural)]
pub enum EventKind {
    OrderTradeUpdate,
    AccountUpdate,
    MarginCall,
    LeverageUpdate,
    MultiAssetsMarginUpdate,
    ListenKeyExpired,
}

/// One decoded stream event.
#[derive(Debug)]
pub enum StreamEvent {
    OrderTradeUpdate(OrderTradeEvent),
    AccountUpdate(AccountUpdateEvent),
    MarginCall(MarginCallEvent),
    LeverageUpdate(LeverageUpdateEvent),
    MultiAssetsMarginUpdate(MultiAssetsMarginUpdateEvent),
    ListenKeyExpired(ListenKeyExpiredEvent),
}

/// The variant that a frame's `"e"` member selects. An account configuration
/// update carries either a leverage change (`"ac"`) or a multi-assets margin
/// change (`"ai"`).
pub open spec fn event_kind(v: JsonValue) -> Option<EventKind> {
    match json_text(json_field(v, "e"@)) {
        Some(e) => if e == "ORDER_TRADE_UPDATE"@ {
            Some(EventKind::OrderTradeUpdate)
        } else if e == "ACCOUNT_UPDATE"@ {
            Some(EventKind::AccountUpdate)
        } else if e == "MARGIN_CALL"@ {
            Some(EventKind::MarginCall)
        } else if e == "ACCOUNT_CONFIG_UPDATE"@ {
            if json_field(v, "ac"@) is Some {
                Some(EventKind::LeverageUpdate)
            } else {
                Some(EventKind::MultiAssetsMarginUpdate)
            }
        } else if e == "listenKeyExpired"@ {
            Some(EventKind::ListenKeyExpired)
        } else {
            None
        },
        None => None,
    }
}

/// The frame is of a known kind and holds everything that kind needs.
pub open spec fn event_decodes(v: JsonValue) -> bool {
    match event_kind(v) {
        Some(EventKind::OrderTradeUpdate) => order_trade_event_decodes(v),
        Some(EventKind::AccountUpdate) => account_update_event_decodes(v),
        Some(EventKind::MarginCall) => margin_call_event_decodes(v),
        Some(EventKind::LeverageUpdate) => leverage_update_event_decodes(v),
        Some(EventKind::MultiAssetsMarginUpdate) => multi_assets_margin_update_event_decodes(v),
        Some(EventKind::ListenKeyExpired) => listen_key_expired_event_decodes(v),
        None => false,
    }
}

/// `ev` is the variant the frame selects, holding what the frame says.
pub open spec fn event_matches(v: JsonValue, ev: StreamEvent) -> bool {
    match ev {
        StreamEvent::OrderTradeUpdate(x) => event_kind(v) == Some(EventKind::OrderTradeUpdate)
            && order_trade_event_matches(v, x),
        StreamEvent::AccountUpdate(x) => event_kind(v) == Some(EventKind::AccountUpdate)
            && account_update_event_matches(v, x),
        StreamEvent::MarginCall(x) => event_kind(v) == Some(EventKind::MarginCall) && margin_call_event_matches(v, x),
        StreamEvent::LeverageUpdate(x) => event_kind(v) == Some(EventKind::LeverageUpdate)
            && leverage_update_event_matches(v, x),
        StreamEvent::MultiAssetsMarginUpdate(x) => event_kind(v) == Some(EventKind::MultiAssetsMarginUpdate)
            && multi_assets_margin_update_event_matches(v, x),
        StreamEvent::ListenKeyExpired(x) => event_kind(v) == Some(EventKind::ListenKeyExpired)
            && listen_key_expired_event_matches(v, x),
    }
}

/// Reads the discriminator of a frame.
pub fn event_kind_of(v: &JsonValue) -> (r: Option<EventKind>)
    ensures
        r == event_kind(*v),
{
    let e = match text_field(v, "e") {
        Some(e) => e,
        None => return None,
    };
    if str_eq(e.as_str(), "ORDER_TRADE_UPDATE") {
        Some(EventKind::OrderTradeUpdate)
    } else if str_eq(e.as_str(), "ACCOUNT_UPDATE") {
        Some(EventKind::AccountUpdate)
    } else if str_eq(e.as_str(), "MARGIN_CALL") {
        Some(EventKind::MarginCall)
    } else if str_eq(e.as_str(), "ACCOUNT_CONFIG_UPDATE") {
        if field(v, "ac").is_some() {
            Some(EventKind::LeverageUpdate)
        } else {
            Some(EventKind::MultiAssetsMarginUpdate)
        }
    } else if str_eq(e.as_str(), "listenKeyExpired") {
        Some(EventKind::ListenKeyExpired)
    } else {
        None
    }
}

/// Decodes one frame into the variant its discriminator selects.
pub fn decode_event(v: &JsonValue) -> (r: Option<StreamEvent>)
    ensures
        r is Some <==> event_decodes(*v),
        r matches Some(ev) ==> event_matches(*v, ev),
{
    match event_kind_of(v) {
        Some(EventKind::OrderTradeUpdate) => match decode_order_trade_event(v) {
            Some(x) => Some(StreamEvent::OrderTradeUpdate(x)),
            None => None,
        },
        Some(EventKind::AccountUpdate) => match decode_account_update_event(v) {
            Some(x) => Some(StreamEvent::AccountUpdate(x)),
            None => None,
        },
        Some(EventKind::MarginCall) => match decode_margin_call_event(v) {
            Some(x) => Some(StreamEvent::MarginCall(x)),
            None => None,
        },
        Some(EventKind::LeverageUpdate) => match decode_leverage_update_event(v) {
            Some(x) => Some(StreamEvent::LeverageUpdate(x)),
            None => None,
        },
        Some(EventKind::MultiAssetsMarginUpdate) => match decode_multi_assets_margin_update_event(v) {
            Some(x) => Some(StreamEvent::MultiAssetsMarginUpdate(x)),
            None => None,
        },
        Some(EventKind::ListenKeyExpired) => match decode_listen_key_expired_event(v) {
            Some(x) => Some(StreamEvent::ListenKeyExpired(x)),
            None => None,
        },
        None => None,
    }
}

/// What a raw frame comes to: its event, or a decoding failure that keeps
/// the frame's bytes.
pub open spec fn frame_outcome(
    frame: Seq<u8>,
    parsed: Option<JsonValue>,
    r: Result<StreamEvent, Error>,
) -> bool {
    if parsed is Some && event_decodes(parsed->0) {
        r matches Ok(ev) && event_matches(parsed->0, ev)
    } else {
        r matches Err(e) && is_decode_error(e, None, frame)
    }
}

/// Decodes a frame whose text has already been parsed.
pub fn decode_parsed_frame(
    frame: &[u8],
    parsed: Option<JsonValue>,
) -> (r: Result<StreamEvent, Error>)
    ensures
        frame_outcome(frame@, parsed, r),
{
    match parsed {
        Some(v) => match decode_event(&v) {
            Some(ev) => Ok(ev),
            None => Err(decode_failure(None, frame)),
        },
        None => Err(decode_failure(None, frame)),
    }
}

/// Decodes one raw frame of the user data stream.
pub fn decode_frame(frame: &[u8]) -> (r: Result<StreamEvent, Error>)
    ensures
        frame_outcome(frame@, json_parse_of(frame@), r),
{
    let parsed = parse_json(frame);
    decode_parsed_frame(frame, parsed)
}

/// A frame whose discriminator names no known event is refused, whatever
/// else it holds.
pub proof fn lemma_unknown_event_refused(frame: Seq<u8>, v: JsonValue, r: Result<StreamEvent, Error>)
    requires
        event_kind(v) is None,
        frame_outcome(frame, Some(v), r),
    ensures
        r matches Err(e) && is_decode_error(e, None, frame),
{
}

} // verus!
