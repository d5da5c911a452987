//! A one-shot TLS echo exchange, centred on a verified handshake pump: a
//! state machine that decides, step by step, how to shuttle TLS records
//! between a session and its transport until the handshake completes or an
//! iteration budget runs out.

pub mod echo;
pub mod error;
pub mod laws;
pub mod pump;
