//! Data classes, and values tagged with one.
//!
//! Classifying a value restricts nothing: the value stays open to whoever
//! holds the wrapper. The class only decides what the wrapper renders as.

use crate::redact::{is_redaction, keeps_generic_rule, Redactable};
use crate::render::{is_rendering, Render};
use vstd::prelude::*;

verus! {

/// How values of a data class are displayed.
#[derive(Clone, Copy, Debug, PartialEq, Eq, Structural)]
pub enum DisplayBehavior {
    /// Values of this data class are not redacted and are displayed in the clear.
    Clear,
    /// Values of this data class are displayed in their redacted form.
    DefaultRedact,
}

/// A data class. Data classes are constants that live as long as the program;
/// the library defines none.
#[derive(Debug)]
pub struct DataClass {
    /// A key by which data of different classes is told apart. Nothing checks
    /// that two classes differ in it.
    pub name: &'static str,
    /// What to do when a value of this class is displayed.
    pub display_behavior: DisplayBehavior,
}

/// A value together with its data class.
#[derive(Debug)]
pub struct Classified<TValue> {
    /// The class of the value.
    pub class: &'static DataClass,
    /// The value, as it was classified.
    pub value: TValue,
}

impl DataClass {
    /// Tags `value` with this class. Any value is accepted, and it is kept as
    /// it is.
    pub fn classify<TValue>(&'static self, value: TValue) -> (classified: Classified<TValue>)
        ensures
            classified.class == self,
            classified.value == value,
    {
        Classified { class: self, value }
    }
}

impl<TValue: Render + Redactable> Render for Classified<TValue> {
    /// Renders the value as its class asks: in the clear as the value renders
    /// itself, else as the value's own redaction.
    fn render(&self) -> (text: String)
        ensures
            self.class.display_behavior is Clear ==> is_rendering(&self.value, text),
            self.class.display_behavior is DefaultRedact ==> is_redaction(&self.value, text),
    {
        match self.class.display_behavior {
            DisplayBehavior::DefaultRedact => self.value.redacted(),
            DisplayBehavior::Clear => self.value.render(),
        }
    }
}

/// A classified value has no redaction rule of its own: redacting the wrapper
/// gives the mask, whatever its class.
impl<TValue: Render + Redactable> Redactable for Classified<TValue> {
}

/// Whatever a wrapper of a clear class renders, the value inside renders too.
/// So code that handles renderable values alike cannot tell such a wrapper
/// from the value it holds.
pub proof fn lemma_clear_renders_as_value<TValue: Render + Redactable>(
    classified: Classified<TValue>,
    text: String,
)
    requires
        classified.class.display_behavior is Clear,
        is_rendering(&classified, text),
    ensures
        is_rendering(&classified.value, text),
{
}

/// A wrapper of a clear class renders as any value does that renders as the
/// value inside: whatever the two types are, the two texts are the same.
pub proof fn lemma_clear_wrapper_is_transparent<TValue: Render + Redactable, TOther: Render>(
    classified: Classified<TValue>,
    other: TOther,
    classified_text: String,
    other_text: String,
)
    requires
        classified.class.display_behavior is Clear,
        forall|inner: String, outer: String|
            is_rendering(&classified.value, inner) && is_rendering(&other, outer) ==> inner@
                == outer@,
        is_rendering(&classified, classified_text),
        is_rendering(&other, other_text),
    ensures
        classified_text@ == other_text@,
{
}

/// Whatever a wrapper of a redacting class renders is a redaction of the
/// value inside, by the value's own rule.
pub proof fn lemma_redacting_renders_as_redaction<TValue: Render + Redactable>(
    classified: Classified<TValue>,
    text: String,
)
    requires
        classified.class.display_behavior is DefaultRedact,
        is_rendering(&classified, text),
    ensures
        is_redaction(&classified.value, text),
{
}

/// What a wrapper renders depends on the display behaviour of its class, not
/// on the name: two wrappers of one value whose classes differ in display
/// behaviour render differently wherever the value's rendering and its
/// redaction differ, even if the classes have the same name.
pub proof fn lemma_display_behavior_decides<TValue: Render + Redactable>(
    first: Classified<TValue>,
    second: Classified<TValue>,
    first_text: String,
    second_text: String,
)
    requires
        first.value == second.value,
        first.class.display_behavior != second.class.display_behavior,
        is_rendering(&first, first_text),
        is_rendering(&second, second_text),
        forall|rendering: String, redaction: String|
            is_rendering(&first.value, rendering) && is_redaction(&first.value, redaction)
                ==> rendering@ != redaction@,
    ensures
        first_text@ != second_text@,
{
}

/// A wrapper keeps the generic rule, whatever it holds and whatever its
/// class: redacting a wrapper gives the mask.
pub proof fn lemma_classified_keeps_generic_rule<TValue: Render + Redactable>()
    ensures
        keeps_generic_rule::<Classified<TValue>>(),
{
}

} // verus!
