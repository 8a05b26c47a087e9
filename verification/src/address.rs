//! Internet addresses, which are redacted by the rule of their family.

pub mod ipv4;
pub mod ipv6;

use crate::address::ipv4::{lemma_ipv4_redaction_differs_from_text, Ipv4Address};
use crate::address::ipv6::{lemma_ipv6_redaction_differs_from_text, Ipv6Address};
use crate::redact::{mask, Redactable};
use crate::render::Render;
use vstd::prelude::*;

verus! {

/// An internet address of either family.
#[derive(Clone, Copy, Debug, PartialEq, Eq)]
pub enum IpAddress {
    /// An IPv4 address.
    V4(Ipv4Address),
    /// An IPv6 address.
    V6(Ipv6Address),
}

impl IpAddress {
    /// The address in the notation of its family.
    pub open spec fn text(&self) -> Seq<char> {
        match *self {
            IpAddress::V4(address) => address.text(),
            IpAddress::V6(address) => address.text(),
        }
    }

    /// The redaction by the rule of the address's family.
    pub open spec fn redaction(&self) -> Seq<char> {
        match *self {
            IpAddress::V4(address) => address.redaction(),
            IpAddress::V6(_) => mask(),
        }
    }
}

impl Render for IpAddress {
    /// Renders the address in the notation of its family.
    fn render(&self) -> (text: String)
        ensures
            text@ == self.text(),
    {
        match self {
            IpAddress::V4(address) => address.render(),
            IpAddress::V6(address) => address.render(),
        }
    }
}

impl Redactable for IpAddress {
    /// Redacts the address by the rule of its family: an IPv4 address keeps
    /// its first three octets, an IPv6 address is masked.
    fn redacted(&self) -> (text: String)
        ensures
            text@ == self.redaction(),
    {
        match self {
            IpAddress::V4(address) => address.redacted(),
            IpAddress::V6(address) => address.redacted(),
        }
    }
}

/// An address of either family is never redacted to its own rendering.
pub proof fn lemma_address_redaction_differs_from_text(address: IpAddress)
    ensures
        address.redaction() != address.text(),
{
    match address {
        IpAddress::V4(address) => lemma_ipv4_redaction_differs_from_text(address),
        IpAddress::V6(address) => lemma_ipv6_redaction_differs_from_text(address),
    }
}

} // verus!
