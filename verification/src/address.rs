//! Addresses that an endpoint is bound to, and their text.

use crate::decimal::{append_decimal, decimal_digits};
use vstd::prelude::*;

verus! {

/// An IPv4 host, by its four octets.
#[derive(Clone, Copy, Debug, PartialEq, Eq, Structural)]
pub struct Ipv4Host(pub u8, pub u8, pub u8, pub u8);

/// The host and port that an endpoint is bound to.
#[derive(Clone, Copy, Debug, PartialEq, Eq, Structural)]
pub struct BindAddress {
    pub host: Ipv4Host,
    pub port: u16,
}

/// The text of an address: the four octets of the host with dots between them, a colon, and
/// the port, each number in decimal.
pub open spec fn address_text(address: BindAddress) -> Seq<char> {
    let host = address.host;
    decimal_digits(host.0 as nat) + seq!['.'] + decimal_digits(host.1 as nat) + seq!['.']
        + decimal_digits(host.2 as nat) + seq!['.'] + decimal_digits(host.3 as nat) + seq![':']
        + decimal_digits(address.port as nat)
}

impl BindAddress {
    /// The address that binds `port` on all interfaces.
    pub open spec fn any_interface(port: u16) -> BindAddress {
        BindAddress { host: Ipv4Host(0, 0, 0, 0), port }
    }

    /// The address that binds `port` on all interfaces.
    pub fn wildcard(port: u16) -> (address: BindAddress)
        ensures
            address == BindAddress::any_interface(port),
    {
        BindAddress { host: Ipv4Host(0, 0, 0, 0), port }
    }

    /// Writes the address as text.
    pub fn text(&self) -> (text: String)
        ensures
            text@ == address_text(*self),
    {
        proof {
            reveal_strlit(".");
            reveal_strlit(":");
        }
        let mut text = String::new();
        append_decimal(&mut text, self.host.0 as u16);
        text.append(".");
        append_decimal(&mut text, self.host.1 as u16);
        text.append(".");
        append_decimal(&mut text, self.host.2 as u16);
        text.append(".");
        append_decimal(&mut text, self.host.3 as u16);
        text.append(":");
        append_decimal(&mut text, self.port);
        text
    }
}

} // verus!
