use theme_editor::color::Color;
use theme_editor::theme::{Theme, ThemeSlot, SLOT_COUNT};

fn egui_color(visuals: &egui::Visuals, slot: ThemeSlot) -> egui::Color32 {
    let w = &visuals.widgets;
    match slot {
        ThemeSlot::HyperlinkColor => visuals.hyperlink_color,
        ThemeSlot::FaintBgColor => visuals.faint_bg_color,
        ThemeSlot::ExtremeBgColor => visuals.extreme_bg_color,
        ThemeSlot::CodeBgColor => visuals.code_bg_color,
        ThemeSlot::WarnFgColor => visuals.warn_fg_color,
        ThemeSlot::ErrorFgColor => visuals.error_fg_color,
        ThemeSlot::WindowFill => visuals.window_fill,
        ThemeSlot::PanelFill => visuals.panel_fill,
        ThemeSlot::WindowStroke => visuals.window_stroke.color,
        ThemeSlot::SelectionBgFill => visuals.selection.bg_fill,
        ThemeSlot::SelectionStroke => visuals.selection.stroke.color,
        ThemeSlot::WindowShadow => visuals.window_shadow.color,
        ThemeSlot::PopupShadow => visuals.popup_shadow.color,
        ThemeSlot::InactiveBgFill => w.inactive.bg_fill,
        ThemeSlot::InactiveWeakBgFill => w.inactive.weak_bg_fill,
        ThemeSlot::InactiveBgStroke => w.inactive.bg_stroke.color,
        ThemeSlot::HoveredBgFill => w.hovered.bg_fill,
        ThemeSlot::HoveredWeakBgFill => w.hovered.weak_bg_fill,
        ThemeSlot::HoveredBgStroke => w.hovered.bg_stroke.color,
        ThemeSlot::ActiveBgFill => w.active.bg_fill,
        ThemeSlot::ActiveWeakBgFill => w.active.weak_bg_fill,
        ThemeSlot::ActiveBgStroke => w.active.bg_stroke.color,
        ThemeSlot::NoninteractiveBgFill => w.noninteractive.bg_fill,
        ThemeSlot::NoninteractiveWeakBgFill => w.noninteractive.weak_bg_fill,
        ThemeSlot::NoninteractiveBgStroke => w.noninteractive.bg_stroke.color,
    }
}

#[test]
fn dark_theme_is_the_dark_style_of_egui() {
    let visuals = egui::Visuals::dark();
    let theme = Theme::dark();
    for i in 0..SLOT_COUNT {
        let slot = ThemeSlot::from_index(i).unwrap();
        let expected = Color::from_array(egui_color(&visuals, slot).to_array());
        assert_eq!(theme.get(slot), expected, "slot {:?}", slot);
    }
}

#[test]
fn dark_theme_has_these_colours() {
    let grey = |l: u8| Color::new(l, l, l, 255);
    let expected = [
        Color::new(90, 170, 255, 255),
        Color::new(5, 5, 5, 0),
        grey(10),
        grey(64),
        Color::new(255, 143, 0, 255),
        Color::new(255, 0, 0, 255),
        grey(27),
        grey(27),
        grey(60),
        Color::new(0, 92, 128, 255),
        Color::new(192, 222, 255, 255),
        Color::new(0, 0, 0, 96),
        Color::new(0, 0, 0, 96),
        grey(60),
        grey(60),
        Color::new(0, 0, 0, 0),
        grey(70),
        grey(70),
        grey(150),
        grey(55),
        grey(55),
        grey(255),
        grey(27),
        grey(27),
        grey(60),
    ];
    assert_eq!(Theme::dark().colors, expected);
}

#[test]
fn from_array_takes_the_channels_in_order() {
    assert_eq!(Color::from_array([1, 2, 3, 4]), Color::new(1, 2, 3, 4));
    assert_eq!(Color::from_array([255, 0, 128, 7]), Color { r: 255, g: 0, b: 128, a: 7 });
}

#[test]
fn slots_and_positions_match() {
    assert_eq!(SLOT_COUNT, 25);
    for i in 0..SLOT_COUNT {
        let slot = ThemeSlot::from_index(i).unwrap();
        assert_eq!(slot.index(), i);
    }
    assert_eq!(ThemeSlot::from_index(SLOT_COUNT), None);
    assert_eq!(ThemeSlot::from_index(usize::MAX), None);
    assert_eq!(ThemeSlot::HyperlinkColor.index(), 0);
    assert_eq!(ThemeSlot::WindowStroke.index(), 8);
    assert_eq!(ThemeSlot::InactiveBgFill.index(), 13);
    assert_eq!(ThemeSlot::NoninteractiveBgStroke.index(), 24);
}

#[test]
fn set_changes_one_slot_only() {
    let mut theme = Theme::dark();
    let color = Color::new(9, 8, 7, 6);
    theme.set(ThemeSlot::PanelFill, color);
    for i in 0..SLOT_COUNT {
        let slot = ThemeSlot::from_index(i).unwrap();
        if slot == ThemeSlot::PanelFill {
            assert_eq!(theme.get(slot), color);
        } else {
            assert_eq!(theme.get(slot), Theme::dark().get(slot));
        }
    }
}
