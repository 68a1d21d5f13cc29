//! Authentication against the account service and hardware attestation for
//! device registration: the login state machine with its second-factor
//! variants, the cache of device-fingerprint headers, the token store and the
//! three-step attestation handshake.
//!
//! Network transport lives outside this crate. A step that needs the
//! network comes as a function that builds what is to be sent and a function
//! that takes what came back; the caller carries the bytes between them.
//! The crate writes the property lists that it sends; the caller reads the
//! ones that come back and hands them in as documents. Time is an argument:
//! every function that needs the clock takes the current time in
//! milliseconds since the Unix epoch.

pub mod account;
pub mod anisette;
pub mod attestation;
pub mod bridge;
pub mod crypto;
pub mod document;
pub mod error;
pub mod hex;
pub mod http;
pub mod local_config;
pub mod macos;
pub mod message;
pub mod requests;
pub mod text;
pub mod token;
pub mod two_factor;
pub mod util;
