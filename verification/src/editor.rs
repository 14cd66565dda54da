//! The editor: an ordered list of rows with its display settings, and the
//! walk over the rows that folds their validation into one answer.

use vstd::prelude::*;
use egui::{Id, Ui, Vec2, WidgetText};
use std::collections::VecDeque;
use crate::convert::IntoProperty;
use crate::layout::Length;
use crate::optional::{optional_rows, OptionalPlan, OptionalProperty};
use crate::property::{CustomDraw, DrawFn, Drawing, Property, PropertyList, RowPlan};

verus! {

/// One line of the editor.
pub enum EditorLine<'a> {
    /// A headline that introduces a section.
    Headline(WidgetText),
    /// An editable property.
    Property(Property<'a>),
    /// A presence toggle for an optional slot, with the rows of its content.
    Optional(OptionalProperty<'a>),
}

/// A property editor: display settings and the rows in the order in which
/// they were added, which is the order in which they are shown.
pub struct PropertyEditor<'a> {
    /// The key under which the editor's layout state is kept across frames.
    pub id: Id,
    /// Whether the grid has a third column for descriptions.
    pub show_descriptions: bool,
    /// Whether the grid shades every other row.
    pub show_stripes: bool,
    /// Whether a border is drawn around the whole editor.
    pub group_all: bool,
    /// The least width of a grid column, if one is asked for.
    pub min_column_width: Option<Length>,
    /// The space around headlines, where it differs from the usual one of
    /// nothing across and five units down.
    pub headline_spacing: Option<Vec2>,
    /// The rows.
    pub entries: VecDeque<EditorLine<'a>>,
}

impl<'a> PropertyEditor<'a> {
    /// The rows in the order in which they are shown.
    pub open spec fn rows(self) -> Seq<EditorLine<'a>> {
        self.entries@
    }

    /// Whether `other` has the settings of this editor, the description
    /// column and the rows aside.
    pub open spec fn same_settings(self, other: Self) -> bool {
        &&& other.id == self.id
        &&& other.show_stripes == self.show_stripes
        &&& other.group_all == self.group_all
        &&& other.min_column_width == self.min_column_width
        &&& other.headline_spacing == self.headline_spacing
    }

    /// Whether `other` is this editor with `line` added at the end, and with
    /// the description column as `show_descriptions` says.
    pub open spec fn extended_by(
        self,
        other: Self,
        line: EditorLine<'a>,
        show_descriptions: bool,
    ) -> bool {
        &&& self.same_settings(other)
        &&& other.show_descriptions == show_descriptions
        &&& other.rows() == self.rows().push(line)
    }

    /// An editor without rows: no stripes, no border, no description column,
    /// no least column width, the usual headline spacing.
    pub fn new(id: Id) -> (editor: Self)
        ensures
            editor.id == id,
            !editor.show_descriptions,
            !editor.show_stripes,
            !editor.group_all,
            editor.min_column_width is None,
            editor.headline_spacing is None,
            editor.rows().len() == 0,
    {
        PropertyEditor {
            id,
            show_descriptions: false,
            show_stripes: false,
            group_all: false,
            min_column_width: None,
            headline_spacing: None,
            entries: VecDeque::new(),
        }
    }

    /// Sets whether the grid shades every other row.
    pub fn stripes(self, show_stripes: bool) -> (editor: Self)
        ensures
            editor == (PropertyEditor { show_stripes, ..self }),
    {
        PropertyEditor { show_stripes, ..self }
    }

    /// Sets whether a border is drawn around the whole editor.
    pub fn outer_border(self, outer_border: bool) -> (editor: Self)
        ensures
            editor == (PropertyEditor { group_all: outer_border, ..self }),
    {
        PropertyEditor { group_all: outer_border, ..self }
    }

    /// Sets the space around headlines.
    pub fn headline_spacing(self, spacing: Vec2) -> (editor: Self)
        ensures
            editor == (PropertyEditor { headline_spacing: Some(spacing), ..self }),
    {
        PropertyEditor { headline_spacing: Some(spacing), ..self }
    }

    /// Sets or removes the least width of a grid column.
    pub fn min_col_width(self, min_col_width: Option<Length>) -> (editor: Self)
        ensures
            editor == (PropertyEditor { min_column_width: min_col_width, ..self }),
    {
        PropertyEditor { min_column_width: min_col_width, ..self }
    }

    /// Sets whether the grid has a description column, whatever the rows
    /// added so far asked for.
    pub fn show_descriptions(self, show_descriptions: bool) -> (editor: Self)
        ensures
            editor == (PropertyEditor { show_descriptions, ..self }),
    {
        PropertyEditor { show_descriptions, ..self }
    }

    /// Adds a headline after the rows added so far.
    pub fn headline(self, text: WidgetText) -> (editor: Self)
        ensures
            self.extended_by(editor, EditorLine::Headline(text), self.show_descriptions),
    {
        let mut editor = self;
        editor.entries.push_back(EditorLine::Headline(text));
        editor
    }

    /// Adds a property after the rows added so far. A property with a
    /// description switches the description column on.
    pub fn add_property(self, property: Property<'a>) -> (editor: Self)
        ensures
            self.extended_by(
                editor,
                EditorLine::Property(property),
                self.show_descriptions || property.description is Some,
            ),
    {
        let mut editor = self;
        editor.show_descriptions = editor.show_descriptions || property.description.is_some();
        editor.entries.push_back(EditorLine::Property(property));
        editor
    }

    /// Converts `property` and adds it after the rows added so far. A
    /// property with a description switches the description column on.
    pub fn property<P: IntoProperty<'a>>(self, property: P) -> (editor: Self)
        ensures
            exists|row: Property<'a>| #[trigger]
                call_ensures(P::into_property, (property,), row) && self.extended_by(
                    editor,
                    EditorLine::Property(row),
                    self.show_descriptions || row.description is Some,
                ),
    {
        let row = property.into_property();
        assert(call_ensures(P::into_property, (property,), row));
        self.add_property(row)
    }

    /// Converts `property`, gives it the name `name`, and adds it after the
    /// rows added so far.
    pub fn named_property<P: IntoProperty<'a>>(self, name: WidgetText, property: P) -> (editor: Self)
        ensures
            exists|row: Property<'a>| #[trigger]
                call_ensures(P::into_property, (property,), row) && self.extended_by(
                    editor,
                    EditorLine::Property(row.with_name(name)),
                    self.show_descriptions || row.description is Some,
                ),
    {
        let row = property.into_property();
        assert(call_ensures(P::into_property, (property,), row));
        self.add_property(row.name(name))
    }

    /// Adds a row with a presence toggle for `value`, without a description.
    /// Switching the toggle on puts `default` into the slot, switching it off
    /// empties the slot; while the slot holds a value, `property_cb` makes the
    /// rows drawn below the toggle.
    pub fn optional_property<T: 'a, F: FnOnce(&Ui, &'a mut T) -> PropertyList<'a> + 'a>(
        self,
        name: WidgetText,
        value: &'a mut Option<T>,
        default: T,
        property_cb: F,
    ) -> (editor: Self)
        requires
            forall|ui: &Ui, inner: &'a mut T| call_requires(property_cb, (ui, inner)),
        ensures
            self.same_settings(editor),
            editor.show_descriptions == self.show_descriptions,
            editor.rows().len() == self.rows().len() + 1,
            editor.rows().drop_last() == self.rows(),
            editor.rows().last() matches EditorLine::Optional(row) && row.name == name
                && row.description is None && row.slot.present() == (*old(value) is Some)
                && forall|ui: &Ui, checked: bool, rows: PropertyList<'a>| #[trigger]
                row.slot.yields(ui, checked, rows) == optional_rows(
                    property_cb,
                    *old(value),
                    default,
                    ui,
                    checked,
                    rows,
                ),
    {
        let row = Property::new_optional(name, None, value, default, property_cb);
        let mut editor = self;
        editor.entries.push_back(EditorLine::Optional(row));
        assert(editor.rows().drop_last() =~= self.rows());
        editor
    }

    /// As `optional_property`, with the default taken from the type of the
    /// slot.
    pub fn optional_property_default<
        T: Default + 'a,
        F: FnOnce(&Ui, &'a mut T) -> PropertyList<'a> + 'a,
    >(self, name: WidgetText, value: &'a mut Option<T>, property_cb: F) -> (editor: Self)
        requires
            forall|ui: &Ui, inner: &'a mut T| call_requires(property_cb, (ui, inner)),
        ensures
            self.same_settings(editor),
            editor.show_descriptions == self.show_descriptions,
            editor.rows().len() == self.rows().len() + 1,
            editor.rows().drop_last() == self.rows(),
            editor.rows().last() matches EditorLine::Optional(row) && row.name == name
                && row.description is None && row.slot.present() == (*old(value) is Some)
                && exists|default: T| #[trigger]
                call_ensures(T::default, (), default) && forall|
                    ui: &Ui,
                    checked: bool,
                    rows: PropertyList<'a>,
                | #[trigger]
                    row.slot.yields(ui, checked, rows) == optional_rows(
                        property_cb,
                        *old(value),
                        default,
                        ui,
                        checked,
                        rows,
                    ),
    {
        let default = T::default();
        assert(call_ensures(T::default, (), default));
        self.optional_property(name, value, default, property_cb)
    }

    /// Takes the rows out of the editor for drawing. The walk hands them out
    /// in the order in which they were added and folds their validation; the
    /// editor keeps its settings and is left without rows.
    pub fn inner_ui(&mut self) -> (walk: RowWalk<'a>)
        ensures
            walk.wf(),
            walk.remaining() == old(self).rows(),
            walk.visited().len() == 0,
            walk.outcomes().len() == 0,
            !walk.awaiting(),
            walk.draw_description() == old(self).show_descriptions,
            old(self).same_settings(*final(self)),
            final(self).show_descriptions == old(self).show_descriptions,
            final(self).rows().len() == 0,
    {
        let mut rows = VecDeque::new();
        core::mem::swap(&mut self.entries, &mut rows);
        RowWalk {
            rows,
            draw_description: self.show_descriptions,
            valid: true,
            awaiting: false,
            visited: Ghost(Seq::empty()),
            outcomes: Ghost(Seq::empty()),
        }
    }

    /// The number of grid columns: name and widget, and the description where
    /// it is shown.
    pub fn columns(&self) -> (columns: usize)
        ensures
            columns == (if self.show_descriptions {
                3int
            } else {
                2int
            }),
    {
        if self.show_descriptions {
            3
        } else {
            2
        }
    }

    /// The number of gaps between the grid's columns.
    pub fn column_gaps(&self) -> (gaps: usize)
        ensures
            gaps + 1 == (if self.show_descriptions {
                3int
            } else {
                2int
            }),
    {
        self.columns().saturating_sub(1)
    }
}

impl<'a> EditorLine<'a> {
    /// Whether the row has a validation outcome. Headlines have none.
    pub open spec fn counts(self) -> bool {
        !(self is Headline)
    }

    /// The outcome of the row as far as it is fixed when the row is made: the
    /// validation result of a property in the default layout. The outcome of
    /// any other row is known once the row was drawn.
    pub open spec fn settled(self) -> Option<bool> {
        match self {
            EditorLine::Property(property) => match property.draw_fn {
                DrawFn::Widget(_) => Some(property.valid()),
                DrawFn::Custom(_) => None,
            },
            _ => None,
        }
    }
}

/// For each row that has an outcome, in the order of the rows: the outcome
/// where it is settled, nothing where it is reported after drawing.
pub open spec fn contributions<'a>(rows: Seq<EditorLine<'a>>) -> Seq<Option<bool>>
    decreases rows.len(),
{
    if rows.len() == 0 {
        Seq::empty()
    } else {
        let before = contributions(rows.drop_last());
        if rows.last().counts() {
            before.push(rows.last().settled())
        } else {
            before
        }
    }
}

/// The conjunction of a sequence of outcomes; true of the empty sequence.
pub open spec fn all_valid(outcomes: Seq<bool>) -> bool {
    forall|i: int| 0 <= i < outcomes.len() ==> outcomes[i]
}

/// Whether `outcomes` has one outcome for each contribution, and the settled
/// one wherever the contribution is settled.
pub open spec fn agrees(outcomes: Seq<bool>, contributions: Seq<Option<bool>>) -> bool {
    &&& outcomes.len() == contributions.len()
    &&& forall|i: int|
        0 <= i < outcomes.len() ==> (#[trigger] contributions[i] matches Some(settled)
            ==> outcomes[i] == settled)
}

/// What the caller of a walk does next.
pub enum Step<'a> {
    /// Draw a headline.
    Headline(WidgetText),
    /// Draw the cells of a row in the default layout. Its outcome is folded
    /// in already.
    Row(RowPlan<'a>),
    /// Call the row's own drawing callback, and report what it returns.
    Custom(CustomDraw<'a>),
    /// Draw the toggle row of an optional slot, resolve the slot, draw its
    /// rows, and report whether all of them were valid.
    Optional(OptionalPlan<'a>),
}

/// The step that a row stands for, in a grid with or without a description
/// column.
pub open spec fn step_of<'a>(line: EditorLine<'a>, draw_description: bool) -> Step<'a> {
    match line {
        EditorLine::Headline(text) => Step::Headline(text),
        EditorLine::Property(property) => match property.drawing(draw_description) {
            Drawing::Row(plan) => Step::Row(plan),
            Drawing::Custom(call) => Step::Custom(call),
        },
        EditorLine::Optional(row) => Step::Optional(row.drawing(draw_description)),
    }
}

/// A walk over the rows of an editor, in their order, that folds the outcome
/// of every row into one answer.
///
/// Rows in the default layout settle their outcome themselves. After a step
/// that calls for a report the walk waits for it, and goes on once `record`
/// was called.
pub struct RowWalk<'a> {
    rows: VecDeque<EditorLine<'a>>,
    draw_description: bool,
    valid: bool,
    awaiting: bool,
    visited: Ghost<Seq<EditorLine<'a>>>,
    outcomes: Ghost<Seq<bool>>,
}

impl<'a> RowWalk<'a> {
    /// The rows not handed out yet.
    pub closed spec fn remaining(self) -> Seq<EditorLine<'a>> {
        self.rows@
    }

    /// The rows handed out so far.
    pub closed spec fn visited(self) -> Seq<EditorLine<'a>> {
        self.visited@
    }

    /// The outcomes folded in so far, in the order of their rows.
    pub closed spec fn outcomes(self) -> Seq<bool> {
        self.outcomes@
    }

    /// Whether the walk waits for the outcome of the row handed out last.
    pub closed spec fn awaiting(self) -> bool {
        self.awaiting
    }

    /// Whether the rows are drawn with a description column.
    pub closed spec fn draw_description(self) -> bool {
        self.draw_description
    }

    /// The walk's invariant: the answer so far is the conjunction of the
    /// outcomes, and there is one outcome for each visited row that has one,
    /// the last aside while the walk waits for it.
    pub closed spec fn wf(self) -> bool {
        let expected = contributions(self.visited@);
        &&& self.valid == all_valid(self.outcomes@)
        &&& if self.awaiting {
            &&& expected.len() > 0
            &&& expected.last() is None
            &&& agrees(self.outcomes@, expected.drop_last())
        } else {
            agrees(self.outcomes@, expected)
        }
    }

    /// A walk over a list of properties, such as the rows of an optional
    /// slot, drawn with or without a description column.
    pub fn over(rows: PropertyList<'a>, draw_description: bool) -> (walk: Self)
        ensures
            walk.wf(),
            walk.remaining() == rows@.map_values(
                |property: Property<'a>| EditorLine::Property(property),
            ),
            walk.visited().len() == 0,
            walk.outcomes().len() == 0,
            !walk.awaiting(),
            walk.draw_description() == draw_description,
    {
        let mut rows = rows;
        let mut lines: VecDeque<EditorLine<'a>> = VecDeque::new();
        let ghost all = rows@.map_values(|property: Property<'a>| EditorLine::Property(property));
        while rows.len() > 0
            invariant
                rows@.len() + lines@.len() == all.len(),
                forall|i: int| 0 <= i < rows@.len() ==> all[i] == EditorLine::Property(rows@[i]),
                forall|i: int| 0 <= i < lines@.len() ==> all[rows@.len() + i] == lines@[i],
            decreases rows.len(),
        {
            let ghost before = lines@;
            let property = rows.pop().unwrap();
            lines.push_front(EditorLine::Property(property));
            assert forall|i: int| 0 <= i < lines@.len() implies all[rows@.len() + i]
                == lines@[i] by {
                if i > 0 {
                    assert(lines@[i] == before[i - 1]);
                }
            }
        }
        assert(lines@ =~= all);
        RowWalk {
            rows: lines,
            draw_description,
            valid: true,
            awaiting: false,
            visited: Ghost(Seq::empty()),
            outcomes: Ghost(Seq::empty()),
        }
    }

    /// Whether the rows are drawn with a description column.
    pub fn shows_descriptions(&self) -> (draw_description: bool)
        ensures
            draw_description == self.draw_description(),
    {
        self.draw_description
    }

    /// Whether the walk waits for the outcome of the row handed out last.
    pub fn is_awaiting(&self) -> (awaiting: bool)
        ensures
            awaiting == self.awaiting(),
    {
        self.awaiting
    }

    /// Hands out the next row as the step to take for it, or nothing once
    /// all rows were handed out. The outcome of a row in the default layout
    /// is folded in at once; after any other row but a headline the walk
    /// waits for `record`.
    pub fn next(&mut self) -> (step: Option<Step<'a>>)
        requires
            old(self).wf(),
            !old(self).awaiting(),
        ensures
            final(self).wf(),
            final(self).draw_description() == old(self).draw_description(),
            match step {
                None => {
                    &&& old(self).remaining().len() == 0
                    &&& final(self).remaining() == old(self).remaining()
                    &&& final(self).visited() == old(self).visited()
                    &&& final(self).outcomes() == old(self).outcomes()
                    &&& !final(self).awaiting()
                },
                Some(step) => {
                    let line = old(self).remaining()[0];
                    &&& old(self).remaining().len() > 0
                    &&& step == step_of(line, old(self).draw_description())
                    &&& final(self).remaining() == old(self).remaining().skip(1)
                    &&& final(self).visited() == old(self).visited().push(line)
                    &&& final(self).awaiting() == (line.counts() && line.settled() is None)
                    &&& final(self).outcomes() == (match line.settled() {
                        Some(outcome) => old(self).outcomes().push(outcome),
                        None => old(self).outcomes(),
                    })
                },
            },
    {
        let line = self.rows.pop_front();
        match line {
            None => None,
            Some(line) => {
                proof {
                    assert(self.visited@.push(line).drop_last() =~= self.visited@);
                    assert(self.rows@ =~= old(self).rows@.skip(1));
                    self.visited@ = self.visited@.push(line);
                }
                match line {
                    EditorLine::Headline(text) => Some(Step::Headline(text)),
                    EditorLine::Property(property) => {
                        match property.draw(self.draw_description) {
                            Drawing::Row(plan) => {
                                let valid = plan.is_valid();
                                proof {
                                    lemma_all_valid_push(self.outcomes@, valid);
                                    self.outcomes@ = self.outcomes@.push(valid);
                                }
                                self.valid = self.valid && valid;
                                Some(Step::Row(plan))
                            },
                            Drawing::Custom(call) => {
                                self.awaiting = true;
                                proof {
                                    assert(contributions(self.visited@).drop_last()
                                        =~= contributions(old(self).visited@));
                                }
                                Some(Step::Custom(call))
                            },
                        }
                    },
                    EditorLine::Optional(row) => {
                        self.awaiting = true;
                        proof {
                            assert(contributions(self.visited@).drop_last() =~= contributions(
                                old(self).visited@,
                            ));
                        }
                        Some(Step::Optional(row.draw(self.draw_description)))
                    },
                }
            },
        }
    }

    /// Hands out the next row if it goes on with the block of rows that is
    /// being drawn, that is, if there is one and it is no headline. A
    /// headline, or the end of the rows, ends the block: nothing is handed
    /// out and the walk stays where it is.
    pub fn next_in_block(&mut self) -> (step: Option<Step<'a>>)
        requires
            old(self).wf(),
            !old(self).awaiting(),
        ensures
            final(self).wf(),
            final(self).draw_description() == old(self).draw_description(),
            match step {
                None => {
                    &&& old(self).remaining().len() == 0 || old(self).remaining()[0] is Headline
                    &&& final(self).remaining() == old(self).remaining()
                    &&& final(self).visited() == old(self).visited()
                    &&& final(self).outcomes() == old(self).outcomes()
                    &&& !final(self).awaiting()
                },
                Some(step) => {
                    let line = old(self).remaining()[0];
                    &&& old(self).remaining().len() > 0
                    &&& line.counts()
                    &&& step == step_of(line, old(self).draw_description())
                    &&& final(self).remaining() == old(self).remaining().skip(1)
                    &&& final(self).visited() == old(self).visited().push(line)
                    &&& final(self).awaiting() == (line.settled() is None)
                    &&& final(self).outcomes() == (match line.settled() {
                        Some(outcome) => old(self).outcomes().push(outcome),
                        None => old(self).outcomes(),
                    })
                },
            },
    {
        if self.rows.len() == 0 {
            return None;
        }
        let ends_block = match &self.rows[0] {
            EditorLine::Headline(_) => true,
            _ => false,
        };
        if ends_block {
            None
        } else {
            self.next()
        }
    }

    /// Reports the outcome of the row handed out last, for which the walk
    /// waits.
    pub fn record(&mut self, outcome: bool)
        requires
            old(self).wf(),
            old(self).awaiting(),
        ensures
            final(self).wf(),
            !final(self).awaiting(),
            final(self).outcomes() == old(self).outcomes().push(outcome),
            final(self).remaining() == old(self).remaining(),
            final(self).visited() == old(self).visited(),
            final(self).draw_description() == old(self).draw_description(),
    {
        proof {
            lemma_all_valid_push(self.outcomes@, outcome);
            let expected = contributions(self.visited@);
            assert(expected =~= expected.drop_last().push(expected.last()));
            self.outcomes@ = self.outcomes@.push(outcome);
        }
        self.valid = self.valid && outcome;
        self.awaiting = false;
    }

    /// The answer so far: whether every outcome folded in was a valid one.
    /// There is one outcome for each visited row that has one, and it is the
    /// settled one wherever the row settles it.
    pub fn finish(&self) -> (valid: bool)
        requires
            self.wf(),
            !self.awaiting(),
        ensures
            valid == all_valid(self.outcomes()),
            agrees(self.outcomes(), contributions(self.visited())),
    {
        self.valid
    }
}

/// One more outcome: the conjunction is that of what was there and of the
/// new outcome.
pub proof fn lemma_all_valid_push(outcomes: Seq<bool>, outcome: bool)
    ensures
        all_valid(outcomes.push(outcome)) == (all_valid(outcomes) && outcome),
{
    let longer = outcomes.push(outcome);
    if all_valid(outcomes) && outcome {
        assert forall|i: int| 0 <= i < longer.len() implies longer[i] by {
            if i < outcomes.len() {
                assert(longer[i] == outcomes[i]);
            }
        }
    } else if !outcome {
        assert(!longer[outcomes.len() as int]);
    } else {
        let i = choose|i: int| 0 <= i < outcomes.len() && !outcomes[i];
        assert(!longer[i]);
    }
}

/// However a sequence of outcomes is cut in two, the conjunction of the
/// whole is the conjunction of the two parts: the answer of the editor does
/// not depend on how its rows are grouped.
pub proof fn lemma_all_valid_concat(first: Seq<bool>, second: Seq<bool>)
    ensures
        all_valid(first + second) == (all_valid(first) && all_valid(second)),
{
    let whole = first + second;
    if all_valid(first) && all_valid(second) {
        assert forall|i: int| 0 <= i < whole.len() implies whole[i] by {
            if i < first.len() {
                assert(whole[i] == first[i]);
            } else {
                assert(whole[i] == second[i - first.len()]);
            }
        }
    } else if !all_valid(first) {
        let i = choose|i: int| 0 <= i < first.len() && !first[i];
        assert(!whole[i]);
    } else {
        let i = choose|i: int| 0 <= i < second.len() && !second[i];
        assert(!whole[first.len() + i]);
    }
}

/// The contributions of rows that are drawn as two blocks, one after the
/// other, are those of the first block followed by those of the second.
pub proof fn lemma_contributions_concat<'a>(first: Seq<EditorLine<'a>>, second: Seq<EditorLine<'a>>)
    ensures
        contributions(first + second) == contributions(first) + contributions(second),
    decreases second.len(),
{
    if second.len() == 0 {
        assert(first + second =~= first);
        assert(contributions(first) + contributions(second) =~= contributions(first));
    } else {
        let whole = first + second;
        assert(whole.drop_last() =~= first + second.drop_last());
        assert(whole.last() == second.last());
        lemma_contributions_concat(first, second.drop_last());
        assert(contributions(whole) =~= contributions(first) + contributions(second));
    }
}

/// Rows that are all headlines contribute nothing: whatever was folded in
/// for them is the empty conjunction, and the editor is valid.
pub proof fn lemma_headlines_are_valid<'a>(rows: Seq<EditorLine<'a>>, outcomes: Seq<bool>)
    requires
        forall|i: int| 0 <= i < rows.len() ==> rows[i] is Headline,
        agrees(outcomes, contributions(rows)),
    ensures
        contributions(rows).len() == 0,
        outcomes.len() == 0,
        all_valid(outcomes),
    decreases rows.len(),
{
    if rows.len() > 0 {
        let before = rows.drop_last();
        assert(rows.last() is Headline);
        assert(contributions(rows) == contributions(before));
        lemma_headlines_are_valid(before, outcomes);
    }
}

/// Where every row with an outcome is a property in the default layout, the
/// answer of the editor is the conjunction of the validation results that
/// the properties were made with, taken in the order of the rows.
pub proof fn lemma_answer_is_conjunction_of_results<'a>(
    rows: Seq<EditorLine<'a>>,
    outcomes: Seq<bool>,
)
    requires
        forall|i: int| 0 <= i < rows.len() && rows[i].counts() ==> rows[i].settled() is Some,
        agrees(outcomes, contributions(rows)),
    ensures
        all_valid(outcomes) == (forall|i: int|
            0 <= i < rows.len() ==> (#[trigger] rows[i] matches EditorLine::Property(property)
                ==> property.valid())),
    decreases rows.len(),
{
    if rows.len() > 0 {
        let before = rows.drop_last();
        let last = rows.last();
        assert forall|i: int| 0 <= i < before.len() && before[i].counts() implies before[i].settled()
            is Some by {
            assert(before[i] == rows[i]);
        }
        if last.counts() {
            let expected = contributions(rows);
            assert(expected == contributions(before).push(last.settled()));
            let earlier = outcomes.drop_last();
            assert(outcomes =~= earlier.push(outcomes.last()));
            assert forall|i: int| 0 <= i < earlier.len() implies (#[trigger] contributions(
                before,
            )[i] matches Some(settled) ==> earlier[i] == settled) by {
                assert(expected[i] == contributions(before)[i]);
                assert(earlier[i] == outcomes[i]);
            }
            lemma_answer_is_conjunction_of_results(before, earlier);
            lemma_all_valid_push(earlier, outcomes.last());
            assert(expected[expected.len() - 1] == last.settled());
            assert(last matches EditorLine::Property(property) && outcomes.last()
                == property.valid());
        } else {
            assert(contributions(rows) == contributions(before));
            lemma_answer_is_conjunction_of_results(before, outcomes);
            assert(last is Headline);
        }
        let rows_valid = forall|i: int|
            0 <= i < rows.len() ==> (#[trigger] rows[i] matches EditorLine::Property(property)
                ==> property.valid());
        let before_valid = forall|i: int|
            0 <= i < before.len() ==> (#[trigger] before[i] matches EditorLine::Property(
                property,
            ) ==> property.valid());
        let last_valid = last matches EditorLine::Property(property) ==> property.valid();
        if rows_valid {
            assert forall|i: int| 0 <= i < before.len() implies (#[trigger] before[i] matches
                EditorLine::Property(property) ==> property.valid()) by {
                assert(before[i] == rows[i]);
            }
            assert(rows[rows.len() - 1] == last);
        }
        if before_valid && last_valid {
            assert forall|i: int| 0 <= i < rows.len() implies (#[trigger] rows[i] matches
                EditorLine::Property(property) ==> property.valid()) by {
                if i < before.len() {
                    assert(before[i] == rows[i]);
                }
            }
        }
        assert(rows_valid == (before_valid && last_valid));
    }
}

} // verus!
