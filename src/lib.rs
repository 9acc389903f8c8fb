//! Request construction, signing and response classification for a
//! derivatives exchange client: typed order intents become canonical signed
//! query strings, and raw responses and stream frames become typed values or
//! exactly one classified error.

pub mod account;
pub mod classify;
pub mod errors;
pub mod events;
pub mod json;
pub mod kline;
pub mod model;
pub mod order;
pub mod params;
pub mod signer;
pub mod text;
pub mod wire;
