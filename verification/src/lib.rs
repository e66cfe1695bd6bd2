//! A client for the Low Level Reader Protocol (LLRP), by which RFID readers are
//! controlled over TCP.
//!
//! The library holds the wire codec, the transport framer's decisions and the
//! session's bookkeeping, each with its contract:
//!
//! - `wire`: byte buffers and big-endian integers;
//! - `message_types`, `parameter_types`: the two registries;
//! - `llrp`: messages, the requests that the client sends and the responses
//!   that it reads;
//! - `encoder`: parameter trees and their encoding;
//! - `params`: parameter lists and the typed decoders of parameters;
//! - `framer`: what a receive buffer holds;
//! - `client`: verbs, message ids and outstanding requests;
//! - `config`, `error`: the configuration and the errors.
//!
//! The socket, the timers and the channels are the caller's part.

pub mod client;
pub mod config;
pub mod encoder;
pub mod error;
pub mod framer;
pub mod llrp;
pub mod message_types;
pub mod parameter_types;
pub mod params;
pub mod wire;
