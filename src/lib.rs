//! A meta-transaction relay: decodes a user's signed delegate action, wraps it in
//! a carrier transaction paid for by the relayer, and drives its broadcast.

pub mod broadcast;
pub mod carrier;
pub mod envelope;
pub mod nonce;
pub mod relay;
pub mod response;
pub mod text;
