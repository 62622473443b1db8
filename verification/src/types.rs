//! The values that travel between the consumer and the worker, and their
//! mathematical models.

use std::time::Duration;
use vstd::prelude::*;

verus! {

/// The views of the items of a sequence, in order.
pub open spec fn views<T: View>(items: Seq<T>) -> Seq<T::V> {
    items.map_values(|item: T| item@)
}

/// The view of an optional string.
pub open spec fn text_view(text: Option<String>) -> Option<Seq<char>> {
    match text {
        Some(s) => Some(s@),
        None => None,
    }
}

/// The four groups into which the properties of a device fall.
#[derive(Clone, Copy, Debug, PartialEq, Eq, Structural)]
pub enum PropertyKind {
    General,
    Failure,
    Operation,
    Io,
}

/// The kinds of appliance that can be talked to.
#[derive(Clone, Copy, Debug, PartialEq, Eq, Structural)]
pub enum DeviceKind {
    WashingMachine,
    TumbleDryer,
    WasherDryer,
    Dishwasher,
    CoffeeMachine,
}

/// The whole seconds that a duration holds.
pub uninterp spec fn duration_secs(d: Duration) -> u64;

/// `Duration::as_secs`: the number of whole seconds in the duration, which
/// is a function of the duration alone.
#[verifier::external_body]
pub(crate) fn whole_seconds(d: &Duration) -> (secs: u64)
    ensures
        secs == duration_secs(*d),
{
    d.as_secs()
}

/// A value reported by a device.
#[derive(Debug)]
pub enum PropertyValue {
    Bool(bool),
    Number(u32),
    Sensor(u32, u32),
    String(String),
    Duration(Duration),
}

/// Model of a [`PropertyValue`].
pub enum PropertyValueView {
    Bool(bool),
    Number(u32),
    Sensor(u32, u32),
    String(Seq<char>),
    Duration(Duration),
}

impl View for PropertyValue {
    type V = PropertyValueView;

    open spec fn view(&self) -> PropertyValueView {
        match *self {
            PropertyValue::Bool(b) => PropertyValueView::Bool(b),
            PropertyValue::Number(n) => PropertyValueView::Number(n),
            PropertyValue::Sensor(current, target) => PropertyValueView::Sensor(current, target),
            PropertyValue::String(s) => PropertyValueView::String(s@),
            PropertyValue::Duration(d) => PropertyValueView::Duration(d),
        }
    }
}

impl Clone for PropertyValue {
    fn clone(&self) -> (res: Self)
        ensures
            res@ == self@,
    {
        match self {
            PropertyValue::Bool(b) => PropertyValue::Bool(*b),
            PropertyValue::Number(n) => PropertyValue::Number(*n),
            PropertyValue::Sensor(current, target) => PropertyValue::Sensor(*current, *target),
            PropertyValue::String(s) => PropertyValue::String(s.clone()),
            PropertyValue::Duration(d) => PropertyValue::Duration(*d),
        }
    }
}

/// Copies an optional string.
pub fn clone_text(text: &Option<String>) -> (res: Option<String>)
    ensures
        text_view(res) == text_view(*text),
{
    match text {
        Some(s) => Some(s.clone()),
        None => None,
    }
}

/// One property as it is shown: its name, its value and the unit of the
/// value, if it has one.
#[derive(Debug)]
pub struct PropertyData {
    pub name: String,
    pub value: PropertyValue,
    pub unit: Option<String>,
}

/// Model of a [`PropertyData`].
pub struct PropertyDataView {
    pub name: Seq<char>,
    pub value: PropertyValueView,
    pub unit: Option<Seq<char>>,
}

impl View for PropertyData {
    type V = PropertyDataView;

    open spec fn view(&self) -> PropertyDataView {
        PropertyDataView { name: self.name@, value: self.value@, unit: text_view(self.unit) }
    }
}

impl Clone for PropertyData {
    fn clone(&self) -> (res: Self)
        ensures
            res@ == self@,
    {
        PropertyData {
            name: self.name.clone(),
            value: self.value.clone(),
            unit: clone_text(&self.unit),
        }
    }
}

} // verus!
