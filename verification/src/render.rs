//! Rendering a value as text.

use crate::numeral::{decimal, decimal_text, signed_decimal, signed_decimal_text};
use std::fmt::Display;
use vstd::prelude::*;
use vstd::string::to_string_from_display_ensures;

verus! {

/// A value that can be rendered as text.
///
/// The trait itself promises nothing of the text: each implementation states
/// in its own `ensures` what it renders, and generic code speaks of the
/// outcome through [`is_rendering`].
pub trait Render {
    /// The text that stands for this value when it is shown in the clear.
    fn render(&self) -> String;
}

/// `text` is a text that `value.render()` can return.
pub open spec fn is_rendering<T: Render>(value: &T, text: String) -> bool {
    call_ensures(T::render, (value,), text)
}

impl Render for String {
    /// A string renders as itself.
    fn render(&self) -> (text: String)
        ensures
            text@ == self@,
    {
        self.clone()
    }
}

impl<'a> Render for &'a str {
    /// A string slice renders as itself.
    fn render(&self) -> (text: String)
        ensures
            text@ == self@,
    {
        String::from_str(*self)
    }
}

impl Render for bool {
    /// A truth value renders as `true` or `false`.
    fn render(&self) -> (text: String)
        ensures
            text@ == (if *self {
                "true"@
            } else {
                "false"@
            }),
    {
        if *self {
            String::from_str("true")
        } else {
            String::from_str("false")
        }
    }
}

impl Render for u8 {
    /// An unsigned integer renders in decimal.
    fn render(&self) -> (text: String)
        ensures
            text@ == decimal(*self as nat),
    {
        decimal_text(*self as u128)
    }
}

impl Render for u16 {
    /// An unsigned integer renders in decimal.
    fn render(&self) -> (text: String)
        ensures
            text@ == decimal(*self as nat),
    {
        decimal_text(*self as u128)
    }
}

impl Render for u32 {
    /// An unsigned integer renders in decimal.
    fn render(&self) -> (text: String)
        ensures
            text@ == decimal(*self as nat),
    {
        decimal_text(*self as u128)
    }
}

impl Render for u64 {
    /// An unsigned integer renders in decimal.
    fn render(&self) -> (text: String)
        ensures
            text@ == decimal(*self as nat),
    {
        decimal_text(*self as u128)
    }
}

impl Render for usize {
    /// An unsigned integer renders in decimal.
    fn render(&self) -> (text: String)
        ensures
            text@ == decimal(*self as nat),
    {
        decimal_text(*self as u128)
    }
}

impl Render for u128 {
    /// An unsigned integer renders in decimal.
    fn render(&self) -> (text: String)
        ensures
            text@ == decimal(*self as nat),
    {
        decimal_text(*self)
    }
}

impl Render for i8 {
    /// A signed integer renders in decimal, a negative one after a minus sign.
    fn render(&self) -> (text: String)
        ensures
            text@ == signed_decimal(*self as int),
    {
        signed_decimal_text(*self as i128)
    }
}

impl Render for i16 {
    /// A signed integer renders in decimal, a negative one after a minus sign.
    fn render(&self) -> (text: String)
        ensures
            text@ == signed_decimal(*self as int),
    {
        signed_decimal_text(*self as i128)
    }
}

impl Render for i32 {
    /// A signed integer renders in decimal, a negative one after a minus sign.
    fn render(&self) -> (text: String)
        ensures
            text@ == signed_decimal(*self as int),
    {
        signed_decimal_text(*self as i128)
    }
}

impl Render for i64 {
    /// A signed integer renders in decimal, a negative one after a minus sign.
    fn render(&self) -> (text: String)
        ensures
            text@ == signed_decimal(*self as int),
    {
        signed_decimal_text(*self as i128)
    }
}

impl Render for isize {
    /// A signed integer renders in decimal, a negative one after a minus sign.
    fn render(&self) -> (text: String)
        ensures
            text@ == signed_decimal(*self as int),
    {
        signed_decimal_text(*self as i128)
    }
}

impl Render for i128 {
    /// A signed integer renders in decimal, a negative one after a minus sign.
    fn render(&self) -> (text: String)
        ensures
            text@ == signed_decimal(*self as int),
    {
        signed_decimal_text(*self)
    }
}

/// A value of any type that has a `Display` form, rendered as that form.
pub struct Displayed<T>(pub T);

impl<T: Display> Render for Displayed<T> {
    /// Renders as `to_string` does.
    fn render(&self) -> (text: String)
        ensures
            to_string_from_display_ensures::<T>(&self.0, text),
    {
        self.0.to_string()
    }
}

} // verus!
