use theme_editor::color::Color;
use theme_editor::state::{DropdownValues, TemplateApp, DEFAULT_VALUE_BITS};
use theme_editor::theme::{Theme, ThemeSlot};

#[test]
fn each_edit_changes_its_field_only() {
    let start = TemplateApp::default();

    let mut app = start.clone();
    app.set_label("other".to_owned());
    assert_eq!(app.label, "other");
    assert_eq!(
        (app.boolean, app.radio, app.value_bits),
        (false, DropdownValues::First, DEFAULT_VALUE_BITS)
    );
    assert_eq!(app.theme, start.theme);

    let mut app = start.clone();
    app.set_boolean(true);
    assert!(app.boolean);
    app.set_boolean(false);
    assert_eq!(app, start);

    let mut app = start.clone();
    app.set_radio(DropdownValues::Second);
    assert_eq!(app.radio, DropdownValues::Second);
    assert_eq!(app.label, start.label);
    assert_eq!(app.theme, start.theme);

    let mut app = start.clone();
    app.set_value_bits(180.0f32.to_bits());
    assert_eq!(f32::from_bits(app.value_bits), 180.0f32);
    assert_eq!(app.label, start.label);
    assert_eq!(app.radio, start.radio);

    let mut app = start.clone();
    app.set_color(ThemeSlot::CodeBgColor, Color::new(1, 1, 1, 1));
    assert_eq!(app.theme.get(ThemeSlot::CodeBgColor), Color::new(1, 1, 1, 1));
    assert_eq!(
        app.theme.get(ThemeSlot::ExtremeBgColor),
        Theme::dark().get(ThemeSlot::ExtremeBgColor)
    );
    assert_eq!(app.label, start.label);
}

#[test]
fn the_choice_stays_one_of_the_three() {
    let mut app = TemplateApp::default();
    let picks = [
        DropdownValues::Third,
        DropdownValues::First,
        DropdownValues::Second,
        DropdownValues::Second,
        DropdownValues::Third,
    ];
    for (i, pick) in picks.iter().enumerate() {
        app.set_boolean(i % 2 == 0);
        app.set_radio(*pick);
        app.set_label(format!("step {}", i));
        assert!(matches!(
            app.radio,
            DropdownValues::First | DropdownValues::Second | DropdownValues::Third
        ));
        assert_eq!(app.radio, *pick);
        assert_eq!(TemplateApp::new(Some(app.save())).radio, *pick);
    }
}
