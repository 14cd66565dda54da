//! One editable row: its texts, its widget and the outcome of its validation.

use vstd::prelude::*;
use egui::{Ui, WidgetText};
use crate::validation::{passes, ValidationError};
use crate::widget::{PropertyWidgetFn, Widget};

verus! {

/// A callback that draws a whole row by itself and says whether the row is
/// valid. It gets the region, the row's name and description, the outcome of
/// the row's validation, and whether the grid has a description column. It
/// runs once, and ends the grid row itself.
pub trait PropertyDrawFn {
    /// Whether `valid` can be what the callback returns when it is run on
    /// the given row and a region in the state `ui`. Each callback says for
    /// itself what it does; one that says nothing may return anything.
    open spec fn draws(
        &self,
        ui: Ui,
        name: Option<WidgetText>,
        description: Option<WidgetText>,
        validation_result: Result<(), ValidationError>,
        draw_description: bool,
        valid: bool,
    ) -> bool {
        true
    }

    /// Draws the row.
    fn draw(
        self: Box<Self>,
        ui: &mut Ui,
        name: Option<WidgetText>,
        description: Option<WidgetText>,
        validation_result: Result<(), ValidationError>,
        draw_description: bool,
    ) -> (valid: bool)
        ensures
            self.draws(*old(ui), name, description, validation_result, draw_description, valid),
    ;
}

/// A closure in the role of a `PropertyDrawFn`.
pub struct DrawClosure<
    F: FnOnce(
        &mut Ui,
        Option<WidgetText>,
        Option<WidgetText>,
        Result<(), ValidationError>,
        bool,
    ) -> bool,
> {
    cb: F,
}

impl<
    F: FnOnce(
        &mut Ui,
        Option<WidgetText>,
        Option<WidgetText>,
        Result<(), ValidationError>,
        bool,
    ) -> bool,
> DrawClosure<F> {
    #[verifier::type_invariant]
    spec fn callable(self) -> bool {
        forall|
            ui: &mut Ui,
            name: Option<WidgetText>,
            description: Option<WidgetText>,
            validation_result: Result<(), ValidationError>,
            draw_description: bool,
        |
            call_requires(self.cb, (ui, name, description, validation_result, draw_description))
    }

    /// The closure that stands behind this drawing.
    pub closed spec fn callback(self) -> F {
        self.cb
    }

    /// Wraps a closure that may be called on every row.
    pub fn new(cb: F) -> (draw_fn: Self)
        requires
            forall|
                ui: &mut Ui,
                name: Option<WidgetText>,
                description: Option<WidgetText>,
                validation_result: Result<(), ValidationError>,
                draw_description: bool,
            |
                call_requires(cb, (ui, name, description, validation_result, draw_description)),
        ensures
            draw_fn.callback() == cb,
            forall|
                ui: Ui,
                name: Option<WidgetText>,
                description: Option<WidgetText>,
                validation_result: Result<(), ValidationError>,
                draw_description: bool,
                valid: bool,
            | #[trigger]
                draw_fn.draws(ui, name, description, validation_result, draw_description, valid)
                    == exists|region: &mut Ui| #[trigger]
                    call_ensures(
                        cb,
                        (region, name, description, validation_result, draw_description),
                        valid,
                    ) && *region == ui,
    {
        DrawClosure { cb }
    }
}

impl<
    F: FnOnce(
        &mut Ui,
        Option<WidgetText>,
        Option<WidgetText>,
        Result<(), ValidationError>,
        bool,
    ) -> bool,
> PropertyDrawFn for DrawClosure<F> {
    closed spec fn draws(
        &self,
        ui: Ui,
        name: Option<WidgetText>,
        description: Option<WidgetText>,
        validation_result: Result<(), ValidationError>,
        draw_description: bool,
        valid: bool,
    ) -> bool {
        exists|region: &mut Ui| #[trigger]
            call_ensures(
                self.cb,
                (region, name, description, validation_result, draw_description),
                valid,
            ) && *region == ui
    }

    /// Runs the closure on the row.
    fn draw(
        self: Box<Self>,
        ui: &mut Ui,
        name: Option<WidgetText>,
        description: Option<WidgetText>,
        validation_result: Result<(), ValidationError>,
        draw_description: bool,
    ) -> (valid: bool) {
        let draw_fn = *self;
        proof {
            use_type_invariant(&draw_fn);
        }
        (draw_fn.cb)(ui, name, description, validation_result, draw_description)
    }
}

/// How a row is drawn.
pub enum DrawFn<'a> {
    /// Name, widget and description side by side, with a marker on the widget
    /// where validation failed.
    Widget(Widget<'a>),
    /// By a callback of the caller's own.
    Custom(Box<dyn PropertyDrawFn + 'a>),
}

/// An editable property: one row of the grid.
pub struct Property<'a> {
    /// The text of the first column, if any.
    pub name: Option<WidgetText>,
    /// The text of the third column, if any.
    pub description: Option<WidgetText>,
    /// How the row is drawn.
    pub draw_fn: DrawFn<'a>,
    /// The outcome of the row's validation, fixed when the row is made.
    pub validation_result: Result<(), ValidationError>,
}

/// A list of properties.
pub type PropertyList<'a> = Vec<Property<'a>>;

/// What a row puts into the description column.
pub enum DescriptionCell {
    /// The grid has no description column.
    Absent,
    /// The column is there and this row leaves it empty.
    Blank,
    /// The row's description, wrapped to the column.
    Text(WidgetText),
}

/// The description cell of a row with the given description, in a grid with
/// or without a description column.
pub open spec fn description_cell(
    description: Option<WidgetText>,
    draw_description: bool,
) -> DescriptionCell {
    if !draw_description {
        DescriptionCell::Absent
    } else {
        match description {
            Some(text) => DescriptionCell::Text(text),
            None => DescriptionCell::Blank,
        }
    }
}

impl DescriptionCell {
    /// The description cell of a row with the given description, in a grid
    /// with or without a description column.
    pub fn of(description: Option<WidgetText>, draw_description: bool) -> (cell: DescriptionCell)
        ensures
            cell == description_cell(description, draw_description),
    {
        if draw_description {
            match description {
                Some(text) => DescriptionCell::Text(text),
                None => DescriptionCell::Blank,
            }
        } else {
            DescriptionCell::Absent
        }
    }
}

/// The marker of a row with the given validation outcome: the failure, if
/// there is one.
pub open spec fn error_marker(validation_result: Result<(), ValidationError>) -> Option<
    ValidationError,
> {
    match validation_result {
        Ok(_) => None,
        Err(error) => Some(error),
    }
}

/// What is drawn for a row in the default layout, cell by cell.
pub struct RowPlan<'a> {
    /// The first cell: the name, or an empty label.
    pub name: Option<WidgetText>,
    /// The second cell.
    pub widget: Widget<'a>,
    /// The third cell.
    pub description: DescriptionCell,
    /// The failure to mark on the widget.
    pub error: Option<ValidationError>,
}

impl<'a> RowPlan<'a> {
    /// A row is valid when it has nothing to mark.
    pub open spec fn valid(self) -> bool {
        self.error is None
    }

    /// Whether the row is valid.
    pub fn is_valid(&self) -> (valid: bool)
        ensures
            valid == self.valid(),
    {
        self.error.is_none()
    }

    /// The explanation shown when the pointer rests on the marker: the text
    /// of the failure. A valid row has no marker and no explanation.
    pub open spec fn explanation(self) -> Option<Seq<char>> {
        match self.error {
            Some(error) => Some(error.message()),
            None => None,
        }
    }

    /// The explanation shown when the pointer rests on the marker.
    pub fn hover_text(&self) -> (text: Option<String>)
        ensures
            match text {
                Some(text) => self.explanation() == Some(text@),
                None => self.explanation() is None,
            },
    {
        match &self.error {
            Some(error) => Some(error.to_string()),
            None => None,
        }
    }
}

/// A row's own drawing callback with everything it is called on.
pub struct CustomDraw<'a> {
    /// The callback.
    pub draw_fn: Box<dyn PropertyDrawFn + 'a>,
    /// The row's name.
    pub name: Option<WidgetText>,
    /// The row's description.
    pub description: Option<WidgetText>,
    /// The outcome of the row's validation.
    pub validation_result: Result<(), ValidationError>,
    /// Whether the grid has a description column.
    pub draw_description: bool,
}

/// What drawing a property amounts to.
pub enum Drawing<'a> {
    /// The cells of the default layout.
    Row(RowPlan<'a>),
    /// A call of the row's own drawing callback.
    Custom(CustomDraw<'a>),
}

/// The cells of a row in the default layout: the name or an empty label, the
/// widget, the description cell where the grid has that column, and a marker
/// exactly where validation failed.
pub fn default_property_draw_fn<'a>(
    name: Option<WidgetText>,
    description: Option<WidgetText>,
    validation_result: Result<(), ValidationError>,
    draw_description: bool,
    widget: Widget<'a>,
) -> (plan: RowPlan<'a>)
    ensures
        plan.name == name,
        plan.widget == widget,
        plan.description == description_cell(description, draw_description),
        plan.error == error_marker(validation_result),
        plan.valid() == passes(validation_result),
{
    let description = DescriptionCell::of(description, draw_description);
    let error = match validation_result {
        Ok(_) => None,
        Err(error) => Some(error),
    };
    RowPlan { name, widget, description, error }
}

impl<'a> Property<'a> {
    /// A valid property without texts that shows the given widget.
    pub open spec fn of_widget(widget: Widget<'a>) -> Self {
        Property {
            name: None,
            description: None,
            draw_fn: DrawFn::Widget(widget),
            validation_result: Ok(()),
        }
    }

    /// This property under another name.
    pub open spec fn with_name(self, name: WidgetText) -> Self {
        Property { name: Some(name), ..self }
    }

    /// This property with another description.
    pub open spec fn with_description(self, description: WidgetText) -> Self {
        Property { description: Some(description), ..self }
    }

    /// This property with another validation outcome.
    pub open spec fn with_validation(self, validation_result: Result<(), ValidationError>) -> Self {
        Property { validation_result, ..self }
    }

    /// Whether the property passed its validation.
    pub open spec fn valid(self) -> bool {
        passes(self.validation_result)
    }

    /// What drawing this property amounts to, in a grid with or without a
    /// description column.
    pub open spec fn drawing(self, draw_description: bool) -> Drawing<'a> {
        match self.draw_fn {
            DrawFn::Widget(widget) => Drawing::Row(
                RowPlan {
                    name: self.name,
                    widget,
                    description: description_cell(self.description, draw_description),
                    error: error_marker(self.validation_result),
                },
            ),
            DrawFn::Custom(draw_fn) => Drawing::Custom(
                CustomDraw {
                    draw_fn,
                    name: self.name,
                    description: self.description,
                    validation_result: self.validation_result,
                    draw_description,
                },
            ),
        }
    }

    /// A property that shows the widget which `cb` adds, in the default
    /// layout. It has no name, no description, and is valid.
    pub fn from_widget_fn(cb: Box<dyn PropertyWidgetFn + 'a>) -> (property: Self)
        ensures
            property == Self::of_widget(Widget::Custom(cb)),
    {
        Property {
            name: None,
            description: None,
            draw_fn: DrawFn::Widget(Widget::Custom(cb)),
            validation_result: Ok(()),
        }
    }

    /// A property that `cb` draws by itself. It has no name, no description,
    /// and is valid.
    pub fn from_custom_draw_fn(cb: Box<dyn PropertyDrawFn + 'a>) -> (property: Self)
        ensures
            property == (Property {
                name: None,
                description: None,
                draw_fn: DrawFn::Custom(cb),
                validation_result: Ok(()),
            }),
    {
        Property {
            name: None,
            description: None,
            draw_fn: DrawFn::Custom(cb),
            validation_result: Ok(()),
        }
    }

    /// A property that shows the given widget in the default layout. It has
    /// no name, no description, and is valid.
    pub fn from_widget(widget: Widget<'a>) -> (property: Self)
        ensures
            property == Self::of_widget(widget),
    {
        Property {
            name: None,
            description: None,
            draw_fn: DrawFn::Widget(widget),
            validation_result: Ok(()),
        }
    }

    /// Sets the name of this property.
    pub fn name(self, name: WidgetText) -> (property: Self)
        ensures
            property == self.with_name(name),
    {
        Property { name: Some(name), ..self }
    }

    /// Sets the description of this property.
    pub fn description(self, description: WidgetText) -> (property: Self)
        ensures
            property == self.with_description(description),
    {
        Property { description: Some(description), ..self }
    }

    /// Sets the validation outcome of this property.
    pub fn validated(self, validation_result: Result<(), ValidationError>) -> (property: Self)
        ensures
            property == self.with_validation(validation_result),
    {
        Property { validation_result, ..self }
    }

    /// Says what is to be drawn for this property: the cells of the default
    /// layout, or a call of the property's own callback. The validation
    /// outcome is the one the property was made with; nothing is validated
    /// again.
    pub fn draw(self, draw_description: bool) -> (drawing: Drawing<'a>)
        ensures
            drawing == self.drawing(draw_description),
            drawing matches Drawing::Row(plan) ==> plan.valid() == self.valid(),
    {
        let Property { name, description, draw_fn, validation_result } = self;
        match draw_fn {
            DrawFn::Widget(widget) => Drawing::Row(
                default_property_draw_fn(name, description, validation_result, draw_description, widget),
            ),
            DrawFn::Custom(draw_fn) => Drawing::Custom(
                CustomDraw { draw_fn, name, description, validation_result, draw_description },
            ),
        }
    }
}

/// Drawing does not validate: whatever the grid looks like, a row in the
/// default layout reports the outcome that the property was made with.
pub proof fn lemma_outcome_fixed_at_conversion(
    property: Property<'_>,
    first_description_flag: bool,
    second_description_flag: bool,
)
    requires
        property.draw_fn is Widget,
    ensures
        property.drawing(first_description_flag) matches Drawing::Row(first)
            && property.drawing(second_description_flag) matches Drawing::Row(second)
            && first.valid() == second.valid()
            && first.valid() == property.valid()
            && first.error == second.error,
{
}

} // verus!
