//! Conversions of values into properties.
//!
//! Everything that can stand in a row converts through `IntoProperty`. A
//! mutable reference becomes a widget bound to the referent: the widget starts
//! out with the referent's content, and what is written through the widget is
//! written to the referent.

use vstd::prelude::*;
use egui::{Response, Ui, WidgetText};
use std::time::Duration;
use crate::property::{DrawFn, Property};
use crate::validation::ValidatedProperty;
use crate::widget::{BoundWidget, EmptyStringIsNone, Number, Widget};

verus! {

/// A value that can stand in a row of the editor.
pub trait IntoProperty<'a>: Sized {
    /// Makes the property.
    fn into_property(self) -> Property<'a>;
}

impl<'a> IntoProperty<'a> for Property<'a> {
    /// A property stands for itself.
    fn into_property(self) -> (property: Property<'a>)
        ensures
            property == self,
    {
        self
    }
}

impl<'a> IntoProperty<'a> for &'a mut String {
    /// A text becomes a single-line text input.
    fn into_property(self) -> (property: Property<'a>)
        ensures
            property.name is None,
            property.description is None,
            property.validation_result is Ok,
            property.draw_fn matches DrawFn::Widget(Widget::Text(slot)) && *slot == *old(self)
                && *final(slot) == *final(self),
    {
        Property::from_widget(Widget::Text(self))
    }
}

impl<'a> IntoProperty<'a> for &'a mut bool {
    /// A boolean becomes a checkbox.
    fn into_property(self) -> (property: Property<'a>)
        ensures
            property.name is None,
            property.description is None,
            property.validation_result is Ok,
            property.draw_fn matches DrawFn::Widget(Widget::Checkbox(slot)) && *slot == *old(self)
                && *final(slot) == *final(self),
    {
        Property::from_widget(Widget::Checkbox(self))
    }
}

impl<'a> IntoProperty<'a> for &'a mut Duration {
    /// A span of time becomes a drag input over seconds.
    fn into_property(self) -> (property: Property<'a>)
        ensures
            property.name is None,
            property.description is None,
            property.validation_result is Ok,
            property.draw_fn matches DrawFn::Widget(Widget::Duration(slot)) && *slot == *old(self)
                && *final(slot) == *final(self),
    {
        Property::from_widget(Widget::Duration(self))
    }
}

impl<'a> IntoProperty<'a> for EmptyStringIsNone<'a> {
    /// An optional text becomes a text input that clears its slot when left
    /// empty.
    fn into_property(self) -> (property: Property<'a>)
        ensures
            property == Property::of_widget(Widget::OptionalText(self)),
    {
        Property::from_widget(Widget::OptionalText(self))
    }
}

impl<'a> IntoProperty<'a> for &'a mut u8 {
    /// An integer becomes a drag input without a range.
    fn into_property(self) -> (property: Property<'a>)
        ensures
            property.name is None,
            property.description is None,
            property.validation_result is Ok,
            property.draw_fn matches DrawFn::Widget(Widget::Drag(Number::U8(slot))) && *slot == *old(
                self,
            ) && *final(slot) == *final(self),
    {
        Property::from_widget(Widget::Drag(Number::U8(self)))
    }
}

impl<'a> IntoProperty<'a> for &'a mut i8 {
    /// An integer becomes a drag input without a range.
    fn into_property(self) -> (property: Property<'a>)
        ensures
            property.name is None,
            property.description is None,
            property.validation_result is Ok,
            property.draw_fn matches DrawFn::Widget(Widget::Drag(Number::I8(slot))) && *slot == *old(
                self,
            ) && *final(slot) == *final(self),
    {
        Property::from_widget(Widget::Drag(Number::I8(self)))
    }
}

impl<'a> IntoProperty<'a> for &'a mut u16 {
    /// An integer becomes a drag input without a range.
    fn into_property(self) -> (property: Property<'a>)
        ensures
            property.name is None,
            property.description is None,
            property.validation_result is Ok,
            property.draw_fn matches DrawFn::Widget(Widget::Drag(Number::U16(slot))) && *slot == *old(
                self,
            ) && *final(slot) == *final(self),
    {
        Property::from_widget(Widget::Drag(Number::U16(self)))
    }
}

impl<'a> IntoProperty<'a> for &'a mut i16 {
    /// An integer becomes a drag input without a range.
    fn into_property(self) -> (property: Property<'a>)
        ensures
            property.name is None,
            property.description is None,
            property.validation_result is Ok,
            property.draw_fn matches DrawFn::Widget(Widget::Drag(Number::I16(slot))) && *slot == *old(
                self,
            ) && *final(slot) == *final(self),
    {
        Property::from_widget(Widget::Drag(Number::I16(self)))
    }
}

impl<'a> IntoProperty<'a> for &'a mut u32 {
    /// An integer becomes a drag input without a range.
    fn into_property(self) -> (property: Property<'a>)
        ensures
            property.name is None,
            property.description is None,
            property.validation_result is Ok,
            property.draw_fn matches DrawFn::Widget(Widget::Drag(Number::U32(slot))) && *slot == *old(
                self,
            ) && *final(slot) == *final(self),
    {
        Property::from_widget(Widget::Drag(Number::U32(self)))
    }
}

impl<'a> IntoProperty<'a> for &'a mut i32 {
    /// An integer becomes a drag input without a range.
    fn into_property(self) -> (property: Property<'a>)
        ensures
            property.name is None,
            property.description is None,
            property.validation_result is Ok,
            property.draw_fn matches DrawFn::Widget(Widget::Drag(Number::I32(slot))) && *slot == *old(
                self,
            ) && *final(slot) == *final(self),
    {
        Property::from_widget(Widget::Drag(Number::I32(self)))
    }
}

impl<'a> IntoProperty<'a> for &'a mut u64 {
    /// An integer becomes a drag input without a range.
    fn into_property(self) -> (property: Property<'a>)
        ensures
            property.name is None,
            property.description is None,
            property.validation_result is Ok,
            property.draw_fn matches DrawFn::Widget(Widget::Drag(Number::U64(slot))) && *slot == *old(
                self,
            ) && *final(slot) == *final(self),
    {
        Property::from_widget(Widget::Drag(Number::U64(self)))
    }
}

impl<'a> IntoProperty<'a> for &'a mut i64 {
    /// An integer becomes a drag input without a range.
    fn into_property(self) -> (property: Property<'a>)
        ensures
            property.name is None,
            property.description is None,
            property.validation_result is Ok,
            property.draw_fn matches DrawFn::Widget(Widget::Drag(Number::I64(slot))) && *slot == *old(
                self,
            ) && *final(slot) == *final(self),
    {
        Property::from_widget(Widget::Drag(Number::I64(self)))
    }
}

impl<'a> IntoProperty<'a> for &'a mut usize {
    /// An integer becomes a drag input without a range.
    fn into_property(self) -> (property: Property<'a>)
        ensures
            property.name is None,
            property.description is None,
            property.validation_result is Ok,
            property.draw_fn matches DrawFn::Widget(Widget::Drag(Number::Usize(slot))) && *slot == *old(
                self,
            ) && *final(slot) == *final(self),
    {
        Property::from_widget(Widget::Drag(Number::Usize(self)))
    }
}

impl<'a> IntoProperty<'a> for &'a mut isize {
    /// An integer becomes a drag input without a range.
    fn into_property(self) -> (property: Property<'a>)
        ensures
            property.name is None,
            property.description is None,
            property.validation_result is Ok,
            property.draw_fn matches DrawFn::Widget(Widget::Drag(Number::Isize(slot))) && *slot == *old(
                self,
            ) && *final(slot) == *final(self),
    {
        Property::from_widget(Widget::Drag(Number::Isize(self)))
    }
}

impl<'a, T: IntoProperty<'a>> IntoProperty<'a> for ValidatedProperty<T> {
    /// A validated value converts as the value does, and keeps the outcome of
    /// its validation.
    fn into_property(self) -> (property: Property<'a>)
        ensures
            exists|inner: Property<'a>| #[trigger]
                call_ensures(T::into_property, (self.value,), inner) && property
                    == inner.with_validation(self.validation_result),
    {
        let ValidatedProperty { value, validation_result } = self;
        let inner = value.into_property();
        assert(call_ensures(T::into_property, (self.value,), inner));
        inner.validated(validation_result)
    }
}

impl<'a, T: IntoProperty<'a>> IntoProperty<'a> for (WidgetText, T) {
    /// A name and a value: the value's property under that name.
    fn into_property(self) -> (property: Property<'a>)
        ensures
            exists|inner: Property<'a>| #[trigger]
                call_ensures(T::into_property, (self.1,), inner) && property == inner.with_name(
                    self.0,
                ),
    {
        let (name, value) = self;
        let inner = value.into_property();
        assert(call_ensures(T::into_property, (self.1,), inner));
        inner.name(name)
    }
}

impl<'a, T: IntoProperty<'a>> IntoProperty<'a> for (WidgetText, T, WidgetText) {
    /// A name, a value and a description: the value's property with both.
    fn into_property(self) -> (property: Property<'a>)
        ensures
            exists|inner: Property<'a>| #[trigger]
                call_ensures(T::into_property, (self.1,), inner) && property == inner.with_name(
                    self.0,
                ).with_description(self.2),
    {
        let (name, value, description) = self;
        let inner = value.into_property();
        assert(call_ensures(T::into_property, (self.1,), inner));
        inner.name(name).description(description)
    }
}

impl<T> ValidatedProperty<T> {
    /// Turns this validated value into a property whose widget is drawn by
    /// `cb`, called once with the value. The property keeps the outcome of the
    /// validation and has neither name nor description.
    pub fn with_widget_cb<'a, F: FnOnce(T, &mut Ui) -> Response + 'a>(self, cb: F) -> (property:
        Property<'a>) where T: 'a
        requires
            forall|ui: &mut Ui| call_requires(cb, (self.value, ui)),
        ensures
            property.name is None,
            property.description is None,
            property.validation_result == self.validation_result,
            property.draw_fn matches DrawFn::Widget(Widget::Custom(widget)) && forall|
                ui: Ui,
                response: Response,
            | #[trigger]
                widget.shows(ui, response) == exists|region: &mut Ui| #[trigger]
                    call_ensures(cb, (self.value, region), response) && *region == ui,
    {
        let ValidatedProperty { value, validation_result } = self;
        let widget = BoundWidget::new(value, cb);
        Property {
            name: None,
            description: None,
            draw_fn: DrawFn::Widget(Widget::Custom(Box::new(widget))),
            validation_result,
        }
    }
}

} // verus!
