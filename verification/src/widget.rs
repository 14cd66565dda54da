//! The widgets a row can show, each bound to the value it edits.

use vstd::prelude::*;
use egui::{Response, Ui};
use std::time::Duration;

verus! {

/// A callback that adds exactly one widget to the given region and returns
/// that widget's response. It runs once.
pub trait PropertyWidgetFn {
    /// Whether `response` can be what the callback returns when it is run on
    /// a region in the state `ui`. Each callback says for itself what it does;
    /// one that says nothing may return anything.
    open spec fn shows(&self, ui: Ui, response: Response) -> bool {
        true
    }

    /// Adds the widget.
    fn show(self: Box<Self>, ui: &mut Ui) -> (response: Response)
        ensures
            self.shows(*old(ui), response),
    ;
}

/// A closure in the role of a `PropertyWidgetFn`.
pub struct WidgetClosure<F: FnOnce(&mut Ui) -> Response> {
    cb: F,
}

impl<F: FnOnce(&mut Ui) -> Response> WidgetClosure<F> {
    #[verifier::type_invariant]
    spec fn callable(self) -> bool {
        forall|ui: &mut Ui| call_requires(self.cb, (ui,))
    }

    /// The closure that stands behind this widget.
    pub closed spec fn callback(self) -> F {
        self.cb
    }

    /// Wraps a closure that may be called on every region.
    pub fn new(cb: F) -> (widget: Self)
        requires
            forall|ui: &mut Ui| call_requires(cb, (ui,)),
        ensures
            widget.callback() == cb,
            forall|ui: Ui, response: Response| #[trigger]
                widget.shows(ui, response) == exists|region: &mut Ui| #[trigger]
                    call_ensures(cb, (region,), response) && *region == ui,
    {
        WidgetClosure { cb }
    }
}

impl<F: FnOnce(&mut Ui) -> Response> PropertyWidgetFn for WidgetClosure<F> {
    closed spec fn shows(&self, ui: Ui, response: Response) -> bool {
        exists|region: &mut Ui| #[trigger] call_ensures(self.cb, (region,), response) && *region == ui
    }

    /// Runs the closure on `ui`.
    fn show(self: Box<Self>, ui: &mut Ui) -> (response: Response) {
        let widget = *self;
        proof {
            use_type_invariant(&widget);
        }
        (widget.cb)(ui)
    }
}

/// A value and a closure that draws a widget for it.
pub struct BoundWidget<T, F: FnOnce(T, &mut Ui) -> Response> {
    value: T,
    cb: F,
}

impl<T, F: FnOnce(T, &mut Ui) -> Response> BoundWidget<T, F> {
    #[verifier::type_invariant]
    spec fn callable(self) -> bool {
        forall|ui: &mut Ui| call_requires(self.cb, (self.value, ui))
    }

    /// The value handed to the closure.
    pub closed spec fn value(self) -> T {
        self.value
    }

    /// The closure that stands behind this widget.
    pub closed spec fn callback(self) -> F {
        self.cb
    }

    /// Pairs `value` with a closure that accepts it on every region.
    pub fn new(value: T, cb: F) -> (widget: Self)
        requires
            forall|ui: &mut Ui| call_requires(cb, (value, ui)),
        ensures
            widget.value() == value,
            widget.callback() == cb,
            forall|ui: Ui, response: Response| #[trigger]
                widget.shows(ui, response) == exists|region: &mut Ui| #[trigger]
                    call_ensures(cb, (value, region), response) && *region == ui,
    {
        BoundWidget { value, cb }
    }
}

impl<T, F: FnOnce(T, &mut Ui) -> Response> PropertyWidgetFn for BoundWidget<T, F> {
    closed spec fn shows(&self, ui: Ui, response: Response) -> bool {
        exists|region: &mut Ui| #[trigger]
            call_ensures(self.cb, (self.value, region), response) && *region == ui
    }

    /// Runs the closure on the value and `ui`.
    fn show(self: Box<Self>, ui: &mut Ui) -> (response: Response) {
        let widget = *self;
        proof {
            use_type_invariant(&widget);
        }
        (widget.cb)(widget.value, ui)
    }
}

/// An integer behind a drag input, by width and sign.
pub enum Number<'a> {
    U8(&'a mut u8),
    I8(&'a mut i8),
    U16(&'a mut u16),
    I16(&'a mut i16),
    U32(&'a mut u32),
    I32(&'a mut i32),
    U64(&'a mut u64),
    I64(&'a mut i64),
    Usize(&'a mut usize),
    Isize(&'a mut isize),
}

/// An optional text in which the empty text stands for "absent".
pub struct EmptyStringIsNone<'a>(pub &'a mut Option<String>);

/// The text to edit for an optional text: the text that is there, or a new
/// empty one put into the slot.
pub fn open_text(slot: &mut Option<String>) -> (text: &mut String)
    ensures
        *old(slot) matches Some(present) ==> *text == present,
        *old(slot) is None ==> text@.len() == 0,
        *final(slot) == Some(*final(text)),
{
    slot.get_or_insert(String::new())
}

/// After the edit of an optional text: an empty text leaves the slot absent,
/// every other content stays as it is.
pub fn close_text(slot: &mut Option<String>)
    ensures
        match *old(slot) {
            Some(text) => if text@.len() == 0 {
                *final(slot) is None
            } else {
                *final(slot) == *old(slot)
            },
            None => *final(slot) is None,
        },
{
    let empty = match slot {
        Some(text) => text.as_str().is_empty(),
        None => false,
    };
    if empty {
        *slot = None;
    }
}

/// What a row puts into its middle column.
pub enum Widget<'a> {
    /// A single-line text input.
    Text(&'a mut String),
    /// A checkbox.
    Checkbox(&'a mut bool),
    /// A drag input over an integer, without a range.
    Drag(Number<'a>),
    /// A drag input over a span of time, in seconds.
    Duration(&'a mut Duration),
    /// A single-line text input that clears its slot when left empty.
    OptionalText(EmptyStringIsNone<'a>),
    /// A widget of the caller's own.
    Custom(Box<dyn PropertyWidgetFn + 'a>),
}

} // verus!
