//! Redaction: the text that stands for a value where the value itself must
//! not be shown.
//!
//! Every redactable type has exactly one rule, the one in its implementation
//! of [`Redactable`]. A type that brings no rule of its own is hidden behind
//! the fixed mask; a type that brings one is always redacted by it, since a
//! call of `redacted` is bound to the type's own implementation.

use crate::render::{is_rendering, Displayed, Render};
use std::fmt::Display;
use vstd::prelude::*;

verus! {

/// The text that replaces a value of which nothing may be shown.
pub const DEFAULT_REDACTED_VALUE: &'static str = "***";

/// The mask, as a sequence of characters: three asterisks.
pub open spec fn mask() -> Seq<char> {
    seq!['*', '*', '*']
}

/// A fresh copy of the mask.
pub fn mask_text() -> (text: String)
    ensures
        text@ == mask(),
{
    proof {
        reveal_strlit("***");
    }
    let text = String::from_str(DEFAULT_REDACTED_VALUE);
    assert(text@ =~= mask());
    text
}

/// A value with a redacted form.
///
/// A type that has no rule of its own implements the trait with an empty
/// body and is then redacted to the mask. A type with a rule of its own
/// overrides `redacted` and states in its own `ensures` what the rule gives.
/// Generic code speaks of the outcome through [`is_redaction`].
pub trait Redactable {
    /// The text that stands for this value where it must not be shown.
    fn redacted(&self) -> (text: String)
        default_ensures
            text@ == mask(),
    {
        mask_text()
    }
}

/// `text` is a text that `value.redacted()` can return.
pub open spec fn is_redaction<T: Redactable>(value: &T, text: String) -> bool {
    call_ensures(T::redacted, (value,), text)
}

/// The type `T` keeps the generic rule: whatever a value of it is redacted
/// to is the mask. This holds of every type that implements [`Redactable`]
/// without a rule of its own.
pub open spec fn keeps_generic_rule<T: Redactable>() -> bool {
    forall|value: T, text: String| #[trigger] is_redaction(&value, text) ==> text@ == mask()
}

/// A value of a type that keeps the generic rule is redacted to the mask,
/// and so to something other than its rendering, unless it renders as the
/// mask itself.
pub proof fn lemma_generic_rule_hides_rendering<T: Render + Redactable>(
    value: T,
    rendering: String,
    redaction: String,
)
    requires
        keeps_generic_rule::<T>(),
        is_rendering(&value, rendering),
        is_redaction(&value, redaction),
    ensures
        redaction@ == mask(),
        rendering@ != mask() ==> redaction@ != rendering@,
{
}

/// Strings, truth values and integers keep the generic rule.
pub proof fn lemma_plain_types_keep_generic_rule()
    ensures
        keeps_generic_rule::<String>(),
        keeps_generic_rule::<&str>(),
        keeps_generic_rule::<bool>(),
        keeps_generic_rule::<u8>(),
        keeps_generic_rule::<u16>(),
        keeps_generic_rule::<u32>(),
        keeps_generic_rule::<u64>(),
        keeps_generic_rule::<u128>(),
        keeps_generic_rule::<usize>(),
        keeps_generic_rule::<i8>(),
        keeps_generic_rule::<i16>(),
        keeps_generic_rule::<i32>(),
        keeps_generic_rule::<i64>(),
        keeps_generic_rule::<i128>(),
        keeps_generic_rule::<isize>(),
{
}

/// A value that is rendered through its `Display` form keeps the generic
/// rule, whatever its type.
pub proof fn lemma_displayed_keeps_generic_rule<T: Display>()
    ensures
        keeps_generic_rule::<Displayed<T>>(),
{
}

impl Redactable for String {
}

impl<'a> Redactable for &'a str {
}

impl Redactable for bool {
}

impl Redactable for u8 {
}

impl Redactable for u16 {
}

impl Redactable for u32 {
}

impl Redactable for u64 {
}

impl Redactable for u128 {
}

impl Redactable for usize {
}

impl Redactable for i8 {
}

impl Redactable for i16 {
}

impl Redactable for i32 {
}

impl Redactable for i64 {
}

impl Redactable for i128 {
}

impl Redactable for isize {
}

impl<T: Display> Redactable for Displayed<T> {
}

} // verus!
