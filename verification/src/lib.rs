//! A client core for a compact request/response protocol carried over
//! datagram transport and secured by DTLS with pre-shared keys.
//!
//! The library holds every decision the client takes, each behind a proved
//! contract: decomposing `coap://` URLs, shaping request PDUs, generating
//! message ids, classifying response codes, synthesising acknowledgements
//! for pushed notifications, and the observe subsystem's registration,
//! worker loop and teardown, together with the session's bookkeeping.  The
//! sockets, the DTLS channels and the worker thread that carry those
//! decisions out stay outside the library and hand it plain values.

pub mod addr;
pub mod codec;
pub mod packet;
pub mod session;
pub mod url_parse;

use vstd::prelude::*;

verus! {

/// The error kinds the client surfaces to its callers.
#[derive(Clone, Copy, Debug, PartialEq, Eq, Structural)]
pub enum CoapError {
    /// Host resolution returned no entries.
    NoAddress,
    /// Malformed URL, empty host, port out of range, encode or decode failure.
    InvalidInput,
    /// An observe registration was answered with a non-`Content` status.
    NotFound,
    /// The receive timer elapsed without data.
    WouldBlock,
    /// The receive timer elapsed without data (reported so on some platforms).
    TimedOut,
    /// Partial write, socket clone failure, or handshake failure.
    Other,
}

} // verus!
