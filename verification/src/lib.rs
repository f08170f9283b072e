//! A verified model of a one-shot GPU compute round trip: negotiate a device,
//! build two four-byte buffers, record one dispatch followed by one copy,
//! submit, wait for the map-completion notification, and decode the scalar
//! result.  The driver calls themselves are performed by an unverified shell;
//! this library pins down every decision: which stage may follow which, when
//! an error is reported and with what message, when the mapped bytes may be
//! read, and what number they decode to.

pub mod codec;
pub mod commands;
pub mod errors;
pub mod readback;
pub mod resources;
pub mod session;
