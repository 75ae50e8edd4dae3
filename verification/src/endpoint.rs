//! The address that the intercept point listens on.

use vstd::prelude::*;
use vstd::string::*;
use crate::decimal::{decimal, push_char, push_decimal};

verus! {

/// Where to listen: an address as it was configured, and a port.
#[derive(Clone, Debug, PartialEq, Eq)]
pub struct ListenEndpoint {
    pub address: String,
    pub port: u16,
}

/// The text that names an endpoint to the operating system: the address, a
/// colon, and the port in decimal.
pub open spec fn bind_text(address: Seq<char>, port: u16) -> Seq<char> {
    address + seq![':'] + decimal(port as nat)
}

impl ListenEndpoint {
    /// An endpoint at `address` and `port`.
    pub fn new(address: String, port: u16) -> (endpoint: ListenEndpoint)
        ensures
            endpoint.address@ == address@,
            endpoint.port == port,
    {
        ListenEndpoint { address, port }
    }

    /// The text to bind the listening socket to.
    pub fn bind_address(&self) -> (text: String)
        ensures
            text@ == bind_text(self.address@, self.port),
    {
        let mut text = String::new();
        text.append(self.address.as_str());
        push_char(&mut text, ':');
        push_decimal(&mut text, self.port as u64);
        assert(text@ =~= bind_text(self.address@, self.port));
        text
    }
}

} // verus!
