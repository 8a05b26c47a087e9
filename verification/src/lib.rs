//! Data classes for values, and the text that a classified value is shown as.
//!
//! A value is tagged with a [`DataClass`]; the class decides whether the value
//! is rendered in the clear or redacted. Redaction masks a value entirely
//! unless its type brings a rule of its own, as the internet addresses do.

pub mod address;
pub mod classify;
pub mod numeral;
pub mod redact;
pub mod render;

pub use crate::address::ipv4::Ipv4Address;
pub use crate::address::ipv6::Ipv6Address;
pub use crate::address::IpAddress;
pub use crate::classify::{Classified, DataClass, DisplayBehavior};
pub use crate::numeral::{decimal_text, hexadecimal_text, signed_decimal_text};
pub use crate::redact::{is_redaction, mask, mask_text, Redactable, DEFAULT_REDACTED_VALUE};
pub use crate::render::{is_rendering, Displayed, Render};
