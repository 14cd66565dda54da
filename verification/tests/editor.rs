use egui::{CentralPanel, Context, FontDefinitions, Id, RawInput, Ui, Vec2, WidgetText};
use egui_property_editor::{
    DescriptionCell, EditorLine, IntoProperty, Length, Property, PropertyDrawFn, PropertyEditor,
    PropertyList, PropertySlot, RowWalk, Step, ValidatedProperty, ValidationError, Widget,
};

fn with_ui(run: impl FnOnce(&mut Ui)) {
    let ctx = Context::default();
    ctx.set_fonts(FontDefinitions::empty());
    let mut run = Some(run);
    let _ = ctx.run(RawInput::default(), |ctx| {
        CentralPanel::default().show(ctx, |ui| {
            if let Some(run) = run.take() {
                run(ui);
            }
        });
    });
}

fn rejected<T>(value: T) -> ValidatedProperty<T> {
    ValidatedProperty::new(value, |_| Err(ValidationError::OutOfRange))
}

fn accepted<T>(value: T) -> ValidatedProperty<T> {
    ValidatedProperty::new(value, |_| Ok(()))
}

/// Walks an editor of headlines and default rows to its end.
fn answer(mut editor: PropertyEditor) -> bool {
    let mut walk = editor.inner_ui();
    while let Some(step) = walk.next() {
        match step {
            Step::Headline(_) | Step::Row(_) => {}
            Step::Custom(_) | Step::Optional(_) => panic!("no such row was added"),
        }
    }
    walk.finish()
}

struct Reports(bool);

impl PropertyDrawFn for Reports {
    fn draw(
        self: Box<Self>,
        _ui: &mut Ui,
        _name: Option<WidgetText>,
        _description: Option<WidgetText>,
        _validation_result: Result<(), ValidationError>,
        _draw_description: bool,
    ) -> bool {
        self.0
    }
}

#[test]
fn new_editor_has_no_rows_and_plain_settings() {
    let editor = PropertyEditor::new(Id::new("editor"));
    assert!(editor.id == Id::new("editor"));
    assert!(!editor.show_descriptions);
    assert!(!editor.show_stripes);
    assert!(!editor.group_all);
    assert!(editor.min_column_width.is_none());
    assert!(editor.headline_spacing.is_none());
    assert!(editor.entries.is_empty());
    assert_eq!(editor.columns(), 2);
    assert_eq!(editor.column_gaps(), 1);
}

#[test]
fn settings_are_set_one_by_one() {
    let editor = PropertyEditor::new(Id::new("editor"))
        .stripes(true)
        .outer_border(true)
        .headline_spacing(Vec2::new(1.0, 8.0))
        .min_col_width(Some(Length { bits: 125.0f32.to_bits() }))
        .show_descriptions(true);
    assert!(editor.show_stripes);
    assert!(editor.group_all);
    assert!(editor.headline_spacing == Some(Vec2::new(1.0, 8.0)));
    assert_eq!(editor.min_column_width, Some(Length { bits: 125.0f32.to_bits() }));
    assert!(editor.show_descriptions);
    assert_eq!(editor.columns(), 3);
    assert_eq!(editor.column_gaps(), 2);
    assert!(editor.entries.is_empty());

    let editor = editor.stripes(false).outer_border(false).min_col_width(None).show_descriptions(false);
    assert!(!editor.show_stripes);
    assert!(!editor.group_all);
    assert!(editor.min_column_width.is_none());
    assert!(!editor.show_descriptions);
    assert!(editor.headline_spacing == Some(Vec2::new(1.0, 8.0)));
    assert!(editor.id == Id::new("editor"));
}

#[test]
fn rows_keep_the_order_in_which_they_were_added() {
    let mut flag = false;
    let mut text = String::new();
    let mut number = 1u8;
    let editor = PropertyEditor::new(Id::new("editor"))
        .headline("first".into())
        .named_property("second".into(), &mut flag)
        .headline("third".into())
        .property((WidgetText::from("fourth"), &mut text))
        .add_property((&mut number).into_property().name("fifth".into()));
    let names: Vec<String> = editor
        .entries
        .iter()
        .map(|line| match line {
            EditorLine::Headline(text) => format!("headline {}", text.text()),
            EditorLine::Property(property) => {
                format!("property {}", property.name.as_ref().map_or("", |name| name.text()))
            }
            EditorLine::Optional(row) => format!("optional {}", row.name.text()),
        })
        .collect();
    assert_eq!(
        names,
        vec![
            "headline first",
            "property second",
            "headline third",
            "property fourth",
            "property fifth"
        ]
    );
}

#[test]
fn description_column_appears_with_the_first_description() {
    let mut a = 1i32;
    let mut b = 2i32;
    let mut c = 3i32;
    let editor = PropertyEditor::new(Id::new("editor")).property((WidgetText::from("a"), &mut a));
    assert!(!editor.show_descriptions);
    assert_eq!(editor.columns(), 2);
    let editor =
        editor.property((WidgetText::from("b"), &mut b, WidgetText::from("b descr")));
    assert!(editor.show_descriptions);
    assert_eq!(editor.columns(), 3);
    let editor = editor.named_property("c".into(), &mut c);
    assert!(editor.show_descriptions);
    assert_eq!(editor.entries.len(), 3);
}

#[test]
fn named_property_replaces_the_name_and_keeps_the_rest() {
    let mut a = 1i32;
    let editor = PropertyEditor::new(Id::new("editor")).named_property(
        "outer".into(),
        (WidgetText::from("inner"), rejected(&mut a), WidgetText::from("described")),
    );
    assert!(editor.show_descriptions);
    match editor.entries.front() {
        Some(EditorLine::Property(property)) => {
            assert_eq!(property.name.as_ref().map(|name| name.text()), Some("outer"));
            assert_eq!(property.description.as_ref().map(|text| text.text()), Some("described"));
            assert_eq!(property.validation_result, Err(ValidationError::OutOfRange));
        }
        _ => panic!("a property row was added"),
    };
}

#[test]
fn optional_property_adds_a_toggle_row_without_description() {
    let mut slot = Some(1u32);
    let editor = PropertyEditor::new(Id::new("editor")).optional_property(
        "Include a number?".into(),
        &mut slot,
        7,
        |_ui: &Ui, inner: &mut u32| -> PropertyList<'_> { vec![inner.into_property()] },
    );
    assert!(!editor.show_descriptions);
    assert_eq!(editor.entries.len(), 1);
    match editor.entries.front() {
        Some(EditorLine::Optional(row)) => {
            assert_eq!(row.name.text(), "Include a number?");
            assert!(row.description.is_none());
            assert!(row.slot.is_present());
        }
        _ => panic!("an optional row was added"),
    };
}

#[test]
fn optional_property_default_fills_with_the_default_of_the_type() {
    let mut slot: Option<String> = None;
    {
        let mut editor = PropertyEditor::new(Id::new("editor")).optional_property_default(
            "Include a text?".into(),
            &mut slot,
            |_ui: &Ui, inner: &mut String| -> PropertyList<'_> { vec![inner.into_property()] },
        );
        let mut walk = editor.inner_ui();
        match walk.next() {
            Some(Step::Optional(plan)) => {
                assert!(!plan.checked);
                with_ui(|ui| {
                    let rows = plan.slot.resolve(ui, true);
                    assert_eq!(rows.len(), 1);
                });
                walk.record(true);
            }
            _ => panic!("the toggle row comes first"),
        }
        assert!(walk.next().is_none());
        assert!(walk.finish());
    }
    assert_eq!(slot, Some(String::new()));
}

#[test]
fn editor_without_rows_is_valid() {
    assert!(answer(PropertyEditor::new(Id::new("editor"))));
}

#[test]
fn editor_of_headlines_only_is_valid() {
    let editor = PropertyEditor::new(Id::new("editor"))
        .headline("one".into())
        .headline("two".into())
        .headline("three".into());
    assert!(answer(editor));
}

#[test]
fn editor_of_valid_rows_is_valid() {
    let (mut a, mut b, mut c) = (1u8, false, String::new());
    let editor = PropertyEditor::new(Id::new("editor"))
        .named_property("a".into(), &mut a)
        .headline("section".into())
        .named_property("b".into(), accepted(&mut b))
        .named_property("c".into(), ValidatedProperty::unvalidated(&mut c));
    assert!(answer(editor));
}

#[test]
fn one_failed_row_makes_the_editor_invalid_wherever_it_stands() {
    for failing in 0..3 {
        let (mut a, mut b, mut c) = (1u8, 2u8, 3u8);
        let row = |at: usize, value| {
            if at == failing {
                rejected(value).into_property()
            } else {
                accepted(value).into_property()
            }
        };
        let editor = PropertyEditor::new(Id::new("editor"))
            .property(row(0, &mut a))
            .headline("between".into())
            .property(row(1, &mut b))
            .property(row(2, &mut c));
        assert!(!answer(editor), "row {failing} failed");
    }
}

#[test]
fn answer_does_not_depend_on_where_headlines_cut_the_rows() {
    let outcomes = [true, false, true, true];
    for cut in 0..=outcomes.len() {
        let mut values = [0u8; 4];
        let mut editor = PropertyEditor::new(Id::new("editor"));
        for (at, value) in values.iter_mut().enumerate() {
            if at == cut {
                editor = editor.headline("cut".into());
            }
            editor = editor.property(if outcomes[at] {
                accepted(value)
            } else {
                rejected(value)
            });
        }
        assert!(!answer(editor));
    }
    for cut in 0..=3 {
        let mut values = [0u8; 3];
        let mut editor = PropertyEditor::new(Id::new("editor"));
        for (at, value) in values.iter_mut().enumerate() {
            if at == cut {
                editor = editor.headline("cut".into());
            }
            editor = editor.property(accepted(value));
        }
        assert!(answer(editor));
    }
}

#[test]
fn walk_hands_out_every_row_once_and_in_order() {
    let (mut a, mut b) = (1u8, 2u8);
    let mut editor = PropertyEditor::new(Id::new("editor"))
        .headline("h".into())
        .property((WidgetText::from("a"), &mut a))
        .property((WidgetText::from("b"), rejected(&mut b), WidgetText::from("about b")));
    let mut walk = editor.inner_ui();
    assert!(walk.shows_descriptions());
    assert!(!walk.is_awaiting());
    match walk.next() {
        Some(Step::Headline(text)) => assert_eq!(text.text(), "h"),
        _ => panic!("the headline comes first"),
    }
    match walk.next() {
        Some(Step::Row(plan)) => {
            assert_eq!(plan.name.as_ref().map(|name| name.text()), Some("a"));
            assert!(matches!(plan.description, DescriptionCell::Blank));
            assert!(plan.is_valid());
        }
        _ => panic!("the first property comes second"),
    }
    assert!(!walk.is_awaiting());
    match walk.next() {
        Some(Step::Row(plan)) => {
            assert_eq!(plan.name.as_ref().map(|name| name.text()), Some("b"));
            assert!(matches!(plan.description, DescriptionCell::Text(_)));
            assert_eq!(plan.error, Some(ValidationError::OutOfRange));
        }
        _ => panic!("the second property comes third"),
    }
    assert!(walk.next().is_none());
    assert!(walk.next().is_none());
    assert!(!walk.finish());
    assert!(editor.entries.is_empty());
    assert!(editor.show_descriptions);
}

#[test]
fn block_of_rows_ends_at_a_headline_and_at_the_end() {
    let (mut a, mut b, mut c) = (1u8, 2u8, 3u8);
    let mut editor = PropertyEditor::new(Id::new("editor"))
        .named_property("a".into(), &mut a)
        .named_property("b".into(), rejected(&mut b))
        .headline("h".into())
        .named_property("c".into(), &mut c);
    let mut walk = editor.inner_ui();
    let mut blocks: Vec<Vec<String>> = Vec::new();
    while let Some(step) = walk.next() {
        match step {
            Step::Headline(text) => blocks.push(vec![format!("headline {}", text.text())]),
            Step::Row(first) => {
                let mut block = vec![first.name.map_or(String::new(), |name| name.text().to_string())];
                while let Some(step) = walk.next_in_block() {
                    match step {
                        Step::Row(plan) => {
                            block.push(plan.name.map_or(String::new(), |name| name.text().to_string()))
                        }
                        _ => panic!("no such row was added"),
                    }
                }
                assert!(walk.next_in_block().is_none());
                blocks.push(block);
            }
            _ => panic!("no such row was added"),
        }
    }
    assert!(walk.next_in_block().is_none());
    assert_eq!(
        blocks,
        vec![
            vec!["a".to_string(), "b".to_string()],
            vec!["headline h".to_string()],
            vec!["c".to_string()]
        ]
    );
    assert!(!walk.finish());
}

#[test]
fn walk_waits_for_the_report_of_a_custom_row() {
    for reported in [true, false] {
        let mut a = 1u8;
        let mut editor = PropertyEditor::new(Id::new("editor"))
            .named_property("a".into(), &mut a)
            .add_property(
                Property::from_custom_draw_fn(Box::new(Reports(reported)))
                    .validated(Err(ValidationError::OutOfRange)),
            );
        let mut walk = editor.inner_ui();
        assert!(matches!(walk.next(), Some(Step::Row(_))));
        match walk.next() {
            Some(Step::Custom(call)) => {
                assert!(walk.is_awaiting());
                assert_eq!(call.validation_result, Err(ValidationError::OutOfRange));
                assert!(!call.draw_description);
                let mut outcome = !reported;
                with_ui(|ui| {
                    outcome = call.draw_fn.draw(
                        ui,
                        call.name,
                        call.description,
                        call.validation_result,
                        call.draw_description,
                    );
                });
                walk.record(outcome);
            }
            _ => panic!("the custom row comes second"),
        }
        assert!(!walk.is_awaiting());
        assert!(walk.next().is_none());
        assert_eq!(walk.finish(), reported);
    }
}

#[test]
fn rows_of_an_optional_slot_are_folded_into_one_report() {
    for (inner_value, expected) in [(0i32, false), (5i32, true)] {
        let mut slot = Some(inner_value);
        let mut flag = false;
        let mut editor = PropertyEditor::new(Id::new("editor"))
            .optional_property(
                "number".into(),
                &mut slot,
                1,
                |_ui: &Ui, inner: &mut i32| -> PropertyList<'_> {
                    vec![
                        ValidatedProperty::new(inner, |value| {
                            if **value == 0 {
                                Err(ValidationError::OutOfRange)
                            } else {
                                Ok(())
                            }
                        })
                        .into_property(),
                    ]
                },
            )
            .named_property("flag".into(), &mut flag);
        let mut walk = editor.inner_ui();
        match walk.next() {
            Some(Step::Optional(plan)) => {
                assert!(plan.checked);
                let mut report = None;
                with_ui(|ui| {
                    let rows = plan.slot.resolve(ui, plan.checked);
                    let mut inner = RowWalk::over(rows, false);
                    assert!(matches!(inner.next(), Some(Step::Row(_))));
                    assert!(inner.next().is_none());
                    report = Some(inner.finish());
                });
                walk.record(report.expect("the slot was resolved"));
            }
            _ => panic!("the toggle row comes first"),
        };
        assert!(matches!(walk.next(), Some(Step::Row(_))));
        assert!(walk.next().is_none());
        assert_eq!(walk.finish(), expected);
    }
}

#[test]
fn walk_over_a_list_keeps_its_order() {
    let (mut a, mut b, mut c) = (1u8, 2u8, 3u8);
    let rows = vec![
        (WidgetText::from("a"), &mut a).into_property(),
        (WidgetText::from("b"), rejected(&mut b)).into_property(),
        (WidgetText::from("c"), &mut c).into_property(),
    ];
    let mut walk = RowWalk::over(rows, true);
    assert!(walk.shows_descriptions());
    let mut names = Vec::new();
    while let Some(step) = walk.next() {
        match step {
            Step::Row(plan) => {
                assert!(matches!(plan.widget, Widget::Drag(_)));
                assert!(matches!(plan.description, DescriptionCell::Blank));
                names.push(plan.name.map(|name| name.text().to_string()));
            }
            _ => panic!("the list holds default rows only"),
        }
    }
    assert_eq!(
        names,
        vec![Some("a".to_string()), Some("b".to_string()), Some("c".to_string())]
    );
    assert!(!walk.finish());
}

#[test]
fn walk_over_an_empty_list_is_valid() {
    let mut walk = RowWalk::over(Vec::new(), false);
    assert!(!walk.shows_descriptions());
    assert!(walk.next().is_none());
    assert!(walk.finish());
}
