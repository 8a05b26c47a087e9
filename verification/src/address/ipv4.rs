//! IPv4 addresses. Redaction keeps the first three octets, which name the
//! network, and hides the fourth, which names the host.

use crate::numeral::{
    decimal, decimal_text, is_decimal_digit, lemma_decimal_ends_at_mark, lemma_decimal_notation,
};
use crate::redact::{is_redaction, Redactable};
use crate::render::Render;
use vstd::prelude::*;

verus! {

/// The text that takes the place of the last octet of a redacted IPv4 address.
pub open spec fn hidden_octet() -> Seq<char> {
    seq!['x', 'x', 'x']
}

/// The first three octets of an IPv4 address in decimal, each followed by a
/// period.
pub open spec fn ipv4_prefix(a: u8, b: u8, c: u8) -> Seq<char> {
    decimal(a as nat) + seq!['.'] + decimal(b as nat) + seq!['.'] + decimal(c as nat) + seq!['.']
}

/// An IPv4 address in dotted decimal notation.
pub open spec fn ipv4_text(a: u8, b: u8, c: u8, d: u8) -> Seq<char> {
    ipv4_prefix(a, b, c) + decimal(d as nat)
}

/// An IPv4 address: four octets, the most significant first.
#[derive(Clone, Copy, Debug, PartialEq, Eq)]
pub struct Ipv4Address {
    pub octets: [u8; 4],
}

impl Ipv4Address {
    /// The address `a.b.c.d`.
    pub fn new(a: u8, b: u8, c: u8, d: u8) -> (address: Ipv4Address)
        ensures
            address.octets@ == seq![a, b, c, d],
    {
        Ipv4Address { octets: [a, b, c, d] }
    }

    /// The four octets.
    pub fn octets(&self) -> (octets: [u8; 4])
        ensures
            octets == self.octets,
    {
        self.octets
    }

    /// The address in dotted decimal notation.
    pub open spec fn text(&self) -> Seq<char> {
        ipv4_text(self.octets[0], self.octets[1], self.octets[2], self.octets[3])
    }

    /// The address with its last octet hidden.
    pub open spec fn redaction(&self) -> Seq<char> {
        ipv4_prefix(self.octets[0], self.octets[1], self.octets[2]) + hidden_octet()
    }

    /// Writes the first three octets, each followed by a period.
    fn prefix_text(&self) -> (text: String)
        ensures
            text@ == ipv4_prefix(self.octets[0], self.octets[1], self.octets[2]),
    {
        proof {
            reveal_strlit(".");
        }
        let mut text = decimal_text(self.octets[0] as u128);
        text.append(".");
        text.append(decimal_text(self.octets[1] as u128).as_str());
        text.append(".");
        text.append(decimal_text(self.octets[2] as u128).as_str());
        text.append(".");
        assert(text@ =~= ipv4_prefix(self.octets[0], self.octets[1], self.octets[2]));
        text
    }
}

impl Render for Ipv4Address {
    /// Renders the address in dotted decimal notation.
    fn render(&self) -> (text: String)
        ensures
            text@ == self.text(),
    {
        let mut text = self.prefix_text();
        text.append(decimal_text(self.octets[3] as u128).as_str());
        text
    }
}

impl Redactable for Ipv4Address {
    /// Keeps the first three octets and puts `xxx` in place of the fourth.
    fn redacted(&self) -> (text: String)
        ensures
            text@ == self.redaction(),
    {
        proof {
            reveal_strlit("xxx");
        }
        let mut text = self.prefix_text();
        text.append("xxx");
        assert(text@ =~= self.redaction());
        text
    }
}

/// The redaction of an IPv4 address hides the host: two addresses that agree
/// in their first three octets have the same redaction, whatever their last
/// octets.
pub proof fn lemma_ipv4_redaction_hides_last_octet(first: Ipv4Address, second: Ipv4Address)
    requires
        first.octets[0] == second.octets[0],
        first.octets[1] == second.octets[1],
        first.octets[2] == second.octets[2],
    ensures
        first.redaction() == second.redaction(),
{
}

/// The redaction of an IPv4 address shows the network: two addresses with the
/// same redaction agree in their first three octets.
pub proof fn lemma_ipv4_redaction_shows_prefix(first: Ipv4Address, second: Ipv4Address)
    requires
        first.redaction() == second.redaction(),
    ensures
        first.octets[0] == second.octets[0],
        first.octets[1] == second.octets[1],
        first.octets[2] == second.octets[2],
{
    let period = seq!['.'];
    let a = first.octets[0] as nat;
    let b = first.octets[1] as nat;
    let c = first.octets[2] as nat;
    let other_a = second.octets[0] as nat;
    let other_b = second.octets[1] as nat;
    let other_c = second.octets[2] as nat;
    // What follows the first period, and what follows the second.
    let after_b = decimal(c) + period + hidden_octet();
    let after_a = decimal(b) + period + after_b;
    let other_after_b = decimal(other_c) + period + hidden_octet();
    let other_after_a = decimal(other_b) + period + other_after_b;
    assert(first.redaction() =~= decimal(a) + period + after_a);
    assert(second.redaction() =~= decimal(other_a) + period + other_after_a);
    lemma_decimal_ends_at_mark(a, other_a, '.', after_a, other_after_a);
    lemma_decimal_ends_at_mark(b, other_b, '.', after_b, other_after_b);
    lemma_decimal_ends_at_mark(c, other_c, '.', hidden_octet(), hidden_octet());
}

/// An IPv4 address is never redacted to its own rendering: the rendering ends
/// in a digit, the redaction does not.
pub proof fn lemma_ipv4_redaction_differs_from_text(address: Ipv4Address)
    ensures
        address.redaction() != address.text(),
{
    let last_octet = decimal(address.octets[3] as nat);
    lemma_decimal_notation(address.octets[3] as nat);
    assert(address.text().last() == last_octet.last());
    assert(is_decimal_digit(last_octet[last_octet.len() - 1]));
    assert(address.redaction().last() == 'x');
}

/// The redaction of the address `a.b.c.d` is `a.b.c.xxx`: the first three
/// octets in decimal, each followed by a period, and `xxx` for the fourth.
pub proof fn lemma_ipv4_redaction(address: Ipv4Address, text: String)
    requires
        is_redaction(&address, text),
    ensures
        text@ == decimal(address.octets[0] as nat) + seq!['.'] + decimal(
            address.octets[1] as nat,
        ) + seq!['.'] + decimal(address.octets[2] as nat) + seq!['.'] + seq!['x', 'x', 'x'],
{
}

} // verus!
