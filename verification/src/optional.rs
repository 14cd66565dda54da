//! Rows that switch between alternatives: the optional slot with its presence
//! toggle, and the selector among the variants of an enum.

use vstd::prelude::*;
use egui::{Ui, WidgetText};
use crate::property::{description_cell, DescriptionCell, Property, PropertyList};

verus! {

/// The content of an optional slot after its presence toggle was drawn:
/// unchanged where the toggle agrees with the slot, the default where the
/// toggle was switched on, nothing where it was switched off.
pub open spec fn toggled<T>(slot: Option<T>, checked: bool, default: T) -> Option<T> {
    if checked {
        match slot {
            Some(_) => slot,
            None => Some(default),
        }
    } else {
        None
    }
}

/// Brings an optional slot in line with its presence toggle. Switching the
/// toggle on puts `default` into an empty slot; switching it off empties the
/// slot, whatever it held; a toggle that agrees with the slot changes nothing.
pub fn toggle_optional<T>(value: &mut Option<T>, checked: bool, default: T)
    ensures
        *final(value) == toggled(*old(value), checked, default),
{
    if checked != value.is_some() {
        if checked {
            *value = Some(default);
        } else {
            *value = None;
        }
    }
}

/// Switching an empty slot on yields exactly the default. Switching a slot
/// off empties it whatever was edited into it meanwhile, so that switching it
/// on once more yields the default again and nothing of the edits.
pub proof fn lemma_toggle_assigns_default_and_clears<T>(default: T, edited: T, next_default: T)
    ensures
        toggled(None::<T>, true, default) == Some(default),
        toggled(Some(edited), true, default) == Some(edited),
        toggled(Some(edited), false, default) == None::<T>,
        toggled(toggled(Some(edited), false, default), true, next_default) == Some(next_default),
        toggled(None::<T>, false, default) == None::<T>,
{
}

/// The enum value after one entry of its selector was drawn: the entry's
/// default where the entry was clicked while another variant was active, the
/// value as it was otherwise.
pub open spec fn selected<E>(current: E, active: bool, clicked: bool, default: E) -> E {
    if clicked && !active {
        default
    } else {
        current
    }
}

/// Applies one entry of a selector among value-carrying variants. `active`
/// says whether the value is of the entry's variant, `clicked` whether the
/// user picked the entry, `default` is the entry's fixed payload.
pub fn select_variant<E>(value: &mut E, active: bool, clicked: bool, default: E)
    ensures
        *final(value) == selected(*old(value), active, clicked, default),
{
    if clicked {
        if !active {
            *value = default;
        }
    }
}

/// Applies one entry of a selector among variants without payload: a click
/// assigns the entry's variant.
pub fn select_unit_variant<E>(value: &mut E, clicked: bool, variant: E)
    ensures
        *final(value) == (if clicked {
            variant
        } else {
            *old(value)
        }),
{
    if clicked {
        *value = variant;
    }
}

/// Picking another variant assigns that variant's default, whatever the value
/// held before; picking the variant that is active already leaves the value,
/// payload included, as it is; and without a click nothing changes.
pub proof fn lemma_selection<E>(current: E, default: E, active: bool)
    ensures
        selected(current, false, true, default) == default,
        selected(current, true, true, default) == current,
        selected(current, active, false, default) == current,
{
}

/// Whether `rows` can be the rows below the toggle of an optional slot with
/// the given content and default, once the toggle was left as `checked` says:
/// no rows with the toggle off; with the toggle on, what `property_cb` made
/// of the slot's content, which is the content it had, or the default where
/// it had none.
pub open spec fn optional_rows<'a, T, F: FnOnce(&Ui, &'a mut T) -> PropertyList<'a>>(
    property_cb: F,
    content: Option<T>,
    default: T,
    ui: &Ui,
    checked: bool,
    rows: PropertyList<'a>,
) -> bool {
    if checked {
        exists|inner: &'a mut T| #[trigger]
            call_ensures(property_cb, (ui, inner), rows) && Some(*inner) == toggled(
                content,
                checked,
                default,
            )
    } else {
        rows@.len() == 0
    }
}

/// An optional slot behind a presence toggle, with what is needed to fill it
/// and to make the rows of its content.
pub trait PropertySlot<'a> {
    /// Whether the slot holds a value.
    spec fn present(&self) -> bool;

    /// Whether `rows` can be what resolving the slot yields with the toggle
    /// left as `checked` says.
    spec fn yields(&self, ui: &Ui, checked: bool, rows: PropertyList<'a>) -> bool;

    /// Whether the slot holds a value: the state in which the toggle is drawn.
    fn is_present(&self) -> (present: bool)
        ensures
            present == self.present(),
    ;

    /// Brings the slot in line with the toggle as the user left it, and makes
    /// the rows for the slot's content. An empty slot has no rows.
    fn resolve(self: Box<Self>, ui: &Ui, checked: bool) -> (rows: PropertyList<'a>)
        ensures
            self.yields(ui, checked, rows),
            !checked ==> rows@.len() == 0,
    ;
}

/// An optional slot of any type, its default, and the callback that makes the
/// rows for its content.
pub struct OptionalSlot<'a, T, F: FnOnce(&Ui, &'a mut T) -> PropertyList<'a>> {
    value: &'a mut Option<T>,
    default: T,
    property_cb: F,
}

impl<'a, T, F: FnOnce(&Ui, &'a mut T) -> PropertyList<'a>> OptionalSlot<'a, T, F> {
    #[verifier::type_invariant]
    spec fn callable(self) -> bool {
        forall|ui: &Ui, inner: &'a mut T| call_requires(self.property_cb, (ui, inner))
    }

    /// The content of the slot.
    pub closed spec fn content(self) -> Option<T> {
        *self.value
    }

    /// The reference to the slot.
    pub closed spec fn target(self) -> &'a mut Option<T> {
        self.value
    }

    /// What the slot is filled with when the toggle is switched on.
    pub closed spec fn default(self) -> T {
        self.default
    }

    /// The callback that makes the rows.
    pub closed spec fn callback(self) -> F {
        self.property_cb
    }

    /// Binds a slot, its default and its callback together.
    pub fn new(value: &'a mut Option<T>, default: T, property_cb: F) -> (slot: Self)
        requires
            forall|ui: &Ui, inner: &'a mut T| call_requires(property_cb, (ui, inner)),
        ensures
            slot.content() == *old(value),
            slot.default() == default,
            slot.callback() == property_cb,
            slot.present() == (*old(value) is Some),
            *final(slot.target()) == *final(value),
            forall|ui: &Ui, checked: bool, rows: PropertyList<'a>| #[trigger]
                slot.yields(ui, checked, rows) == optional_rows(
                    property_cb,
                    *old(value),
                    default,
                    ui,
                    checked,
                    rows,
                ),
    {
        OptionalSlot { value, default, property_cb }
    }
}

impl<'a, T, F: FnOnce(&Ui, &'a mut T) -> PropertyList<'a>> PropertySlot<'a> for OptionalSlot<
    'a,
    T,
    F,
> {
    closed spec fn present(&self) -> bool {
        *self.value is Some
    }

    closed spec fn yields(&self, ui: &Ui, checked: bool, rows: PropertyList<'a>) -> bool {
        optional_rows(self.property_cb, *self.value, self.default, ui, checked, rows)
    }

    fn is_present(&self) -> (present: bool) {
        self.value.is_some()
    }

    /// With the toggle off the slot ends empty. With the toggle on the
    /// callback is called, once, on the slot's content: the content it had,
    /// or the default where it had none; the rows are what the callback made.
    fn resolve(self: Box<Self>, ui: &Ui, checked: bool) -> (rows: PropertyList<'a>)
        ensures
            optional_rows(self.callback(), self.content(), self.default(), ui, checked, rows),
            !checked ==> *final(self.target()) is None,
            checked ==> exists|inner: &'a mut T| #[trigger]
                call_ensures(self.callback(), (ui, inner), rows) && Some(*inner) == toggled(
                    self.content(),
                    checked,
                    self.default(),
                ) && *final(self.target()) == Some(*final(inner)),
    {
        let slot = *self;
        proof {
            use_type_invariant(&slot);
        }
        let OptionalSlot { value, default, property_cb } = slot;
        assert(property_cb == self.callback() && default == self.default() && *value
            == self.content());
        let ghost content = toggled(*value, checked, default);
        toggle_optional(value, checked, default);
        match value {
            Some(inner) => {
                assert(Some(*inner) == content);
                let rows = property_cb(ui, inner);
                assert(exists|inner: &'a mut T| #[trigger]
                    call_ensures(property_cb, (ui, inner), rows) && Some(*inner) == content
                        && *final(self.target()) == Some(*final(inner)));
                rows
            },
            None => Vec::new(),
        }
    }
}

/// A row with a presence toggle for an optional slot, followed by the rows of
/// the slot's content while it has one.
pub struct OptionalProperty<'a> {
    /// The text of the first column.
    pub name: WidgetText,
    /// The text of the third column, if any.
    pub description: Option<WidgetText>,
    /// The slot behind the toggle.
    pub slot: Box<dyn PropertySlot<'a> + 'a>,
}

/// What is drawn for the toggle row of an optional slot.
pub struct OptionalPlan<'a> {
    /// The first cell.
    pub name: WidgetText,
    /// The second cell is a checkbox, drawn in this state.
    pub checked: bool,
    /// The third cell.
    pub description: DescriptionCell,
    /// The slot, to be resolved with the state in which the user left the
    /// checkbox.
    pub slot: Box<dyn PropertySlot<'a> + 'a>,
}

impl<'a> OptionalProperty<'a> {
    /// What drawing the toggle row amounts to, in a grid with or without a
    /// description column.
    pub open spec fn drawing(self, draw_description: bool) -> OptionalPlan<'a> {
        OptionalPlan {
            name: self.name,
            checked: self.slot.present(),
            description: description_cell(self.description, draw_description),
            slot: self.slot,
        }
    }

    /// Says what is to be drawn for the toggle row: the name, a checkbox that
    /// shows whether the slot holds a value, and the description cell where
    /// the grid has that column.
    pub fn draw(self, draw_description: bool) -> (plan: OptionalPlan<'a>)
        ensures
            plan == self.drawing(draw_description),
    {
        let OptionalProperty { name, description, slot } = self;
        let checked = slot.is_present();
        let description = DescriptionCell::of(description, draw_description);
        OptionalPlan { name, checked, description, slot }
    }
}

impl<'a> Property<'a> {
    /// A row with a presence toggle for `value`. Switching the toggle on puts
    /// `default` into the slot, switching it off empties the slot; while the
    /// slot holds a value, `property_cb` makes the rows drawn below the toggle.
    pub fn new_optional<T: 'a, F: FnOnce(&Ui, &'a mut T) -> PropertyList<'a> + 'a>(
        name: WidgetText,
        description: Option<WidgetText>,
        value: &'a mut Option<T>,
        default: T,
        property_cb: F,
    ) -> (row: OptionalProperty<'a>)
        requires
            forall|ui: &Ui, inner: &'a mut T| call_requires(property_cb, (ui, inner)),
        ensures
            row.name == name,
            row.description == description,
            row.slot.present() == (*old(value) is Some),
            forall|ui: &Ui, checked: bool, rows: PropertyList<'a>| #[trigger]
                row.slot.yields(ui, checked, rows) == optional_rows(
                    property_cb,
                    *old(value),
                    default,
                    ui,
                    checked,
                    rows,
                ),
    {
        let slot = OptionalSlot::new(value, default, property_cb);
        OptionalProperty { name, description, slot: Box::new(slot) }
    }
}

} // verus!
