//! A declarative property editor for egui.
//!
//! A caller describes a set of editable fields: texts, numbers, booleans,
//! spans of time, optional values, variants of an enum. The editor shows them
//! as a grid of rows, each with a name, a widget and, where one is given, a
//! description; it marks the rows whose value failed validation, and answers
//! whether all of them passed.
//!
//! This crate holds the editor's logic, and each function states in its
//! contract what it returns:
//!
//! - [`editor`]: the builder that collects the rows in order, and the walk
//!   that hands them out for drawing and folds their validation;
//! - [`property`]: one row, and what is drawn for it cell by cell;
//! - [`convert`]: how values become rows;
//! - [`validation`]: validation outcomes, fixed when a value is wrapped;
//! - [`optional`]: the presence toggle of an optional slot, and the selector
//!   among the variants of an enum;
//! - [`layout`]: the state of the two-pass layout, kept from frame to frame;
//! - [`duration`]: how a span of time is stepped, shown and read;
//! - [`widget`]: the widgets a row can show;
//! - [`host`]: the types of egui that rows and editors carry.
//!
//! Drawing itself, and all arithmetic on egui's floating-point lengths, is
//! left to the caller: the library says which cells a row has, where the
//! editor is placed and when a frame has to be redone.

pub mod convert;
pub mod duration;
pub mod editor;
pub mod host;
pub mod layout;
pub mod optional;
pub mod property;
pub mod validation;
pub mod widget;

pub use convert::IntoProperty;
pub use editor::{EditorLine, PropertyEditor, RowWalk, Step};
pub use layout::{Alignment, Length, Placement, PropertyEditorStore};
pub use optional::{OptionalPlan, OptionalProperty, PropertySlot};
pub use property::{
    default_property_draw_fn, CustomDraw, DescriptionCell, DrawFn, Drawing, Property,
    PropertyDrawFn, PropertyList, RowPlan,
};
pub use validation::{default_validation_cb, ValidatedProperty, ValidationError};
pub use widget::{EmptyStringIsNone, Number, PropertyWidgetFn, Widget};
