//! Client side of the L402 pay-per-call scheme: reading a payment challenge,
//! composing the credential that proves payment, and deciding each step of the
//! exchange between the first request and the final response.

pub mod error;
pub mod text;
pub mod challenge;
pub mod credential;
pub mod http;
pub mod exchange;
pub mod chat;
pub mod mnemonic;
pub mod node;
