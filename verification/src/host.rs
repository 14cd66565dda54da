//! The types of the host toolkit that rows and editors carry.
//!
//! The library never looks inside a value of these types: it stores them,
//! compares them and hands them back.

use vstd::prelude::*;

verus! {

/// `egui::Ui`, the region of the screen that widgets are added to.
#[verifier::external_type_specification]
#[verifier::external_body]
pub struct ExUi(egui::Ui);

/// `egui::Response`, what a widget reports of the user's interaction with it.
#[verifier::external_type_specification]
#[verifier::external_body]
pub struct ExResponse(egui::Response);

/// `egui::WidgetText`, a text with its styling.
#[verifier::external_type_specification]
#[verifier::external_body]
pub struct ExWidgetText(egui::WidgetText);

/// `egui::Id`, the key under which the host keeps state across frames.
#[verifier::external_type_specification]
#[verifier::external_body]
pub struct ExId(egui::Id);

/// `egui::Context`, the host's state shared by all regions.
#[verifier::external_type_specification]
#[verifier::external_body]
pub struct ExContext(egui::Context);

/// `egui::Vec2`, a pair of lengths.
#[verifier::external_type_specification]
#[verifier::external_body]
pub struct ExVec2(egui::Vec2);

} // verus!
