//! Decision logic of a transparent TCP intercept point: recovering the
//! destination a redirected connection was originally addressed to, and
//! turning what is read from each connection into structured records.
//!
//! Nothing here touches a socket. The program around this library performs
//! the reads, asks the kernel for the redirect mapping and writes the records
//! out; this library decides what each of those outcomes means.

pub mod acceptor;
pub mod decimal;
pub mod destination;
pub mod endpoint;
pub mod payload;
pub mod record;
pub mod session;
pub mod trace;
