//! The editable colours of the theme: which slots there are, and what they hold.

use crate::color::Color;
use vstd::prelude::*;

verus! {

/// How many colours of the theme can be edited.
pub const SLOT_COUNT: usize = 25;

/// One editable colour of the theme. The names follow the fields of egui's
/// `Visuals`; the order is the order of the editor's panel, and it is also the
/// order of [`ThemeSlot::index`].
#[derive(Clone, Copy, Debug, PartialEq, Eq, Structural)]
pub enum ThemeSlot {
    /// `hyperlink_color`
    HyperlinkColor,
    /// `faint_bg_color`
    FaintBgColor,
    /// `extreme_bg_color`
    ExtremeBgColor,
    /// `code_bg_color`
    CodeBgColor,
    /// `warn_fg_color`
    WarnFgColor,
    /// `error_fg_color`
    ErrorFgColor,
    /// `window_fill`
    WindowFill,
    /// `panel_fill`
    PanelFill,
    /// `window_stroke.color`
    WindowStroke,
    /// `selection.bg_fill`
    SelectionBgFill,
    /// `selection.stroke.color`
    SelectionStroke,
    /// `window_shadow.color`
    WindowShadow,
    /// `popup_shadow.color`
    PopupShadow,
    /// `widgets.inactive.bg_fill`
    InactiveBgFill,
    /// `widgets.inactive.weak_bg_fill`
    InactiveWeakBgFill,
    /// `widgets.inactive.bg_stroke.color`
    InactiveBgStroke,
    /// `widgets.hovered.bg_fill`
    HoveredBgFill,
    /// `widgets.hovered.weak_bg_fill`
    HoveredWeakBgFill,
    /// `widgets.hovered.bg_stroke.color`
    HoveredBgStroke,
    /// `widgets.active.bg_fill`
    ActiveBgFill,
    /// `widgets.active.weak_bg_fill`
    ActiveWeakBgFill,
    /// `widgets.active.bg_stroke.color`
    ActiveBgStroke,
    /// `widgets.noninteractive.bg_fill`
    NoninteractiveBgFill,
    /// `widgets.noninteractive.weak_bg_fill`
    NoninteractiveWeakBgFill,
    /// `widgets.noninteractive.bg_stroke.color`
    NoninteractiveBgStroke,
}

impl ThemeSlot {
    /// The position of the slot, counted from zero.
    pub open spec fn spec_index(self) -> usize {
        match self {
            ThemeSlot::HyperlinkColor => 0,
            ThemeSlot::FaintBgColor => 1,
            ThemeSlot::ExtremeBgColor => 2,
            ThemeSlot::CodeBgColor => 3,
            ThemeSlot::WarnFgColor => 4,
            ThemeSlot::ErrorFgColor => 5,
            ThemeSlot::WindowFill => 6,
            ThemeSlot::PanelFill => 7,
            ThemeSlot::WindowStroke => 8,
            ThemeSlot::SelectionBgFill => 9,
            ThemeSlot::SelectionStroke => 10,
            ThemeSlot::WindowShadow => 11,
            ThemeSlot::PopupShadow => 12,
            ThemeSlot::InactiveBgFill => 13,
            ThemeSlot::InactiveWeakBgFill => 14,
            ThemeSlot::InactiveBgStroke => 15,
            ThemeSlot::HoveredBgFill => 16,
            ThemeSlot::HoveredWeakBgFill => 17,
            ThemeSlot::HoveredBgStroke => 18,
            ThemeSlot::ActiveBgFill => 19,
            ThemeSlot::ActiveWeakBgFill => 20,
            ThemeSlot::ActiveBgStroke => 21,
            ThemeSlot::NoninteractiveBgFill => 22,
            ThemeSlot::NoninteractiveWeakBgFill => 23,
            ThemeSlot::NoninteractiveBgStroke => 24,
        }
    }

    /// The slot at a position, where there is one.
    pub open spec fn spec_from_index(i: usize) -> Option<ThemeSlot> {
        if i == 0 {
            Some(ThemeSlot::HyperlinkColor)
        } else if i == 1 {
            Some(ThemeSlot::FaintBgColor)
        } else if i == 2 {
            Some(ThemeSlot::ExtremeBgColor)
        } else if i == 3 {
            Some(ThemeSlot::CodeBgColor)
        } else if i == 4 {
            Some(ThemeSlot::WarnFgColor)
        } else if i == 5 {
            Some(ThemeSlot::ErrorFgColor)
        } else if i == 6 {
            Some(ThemeSlot::WindowFill)
        } else if i == 7 {
            Some(ThemeSlot::PanelFill)
        } else if i == 8 {
            Some(ThemeSlot::WindowStroke)
        } else if i == 9 {
            Some(ThemeSlot::SelectionBgFill)
        } else if i == 10 {
            Some(ThemeSlot::SelectionStroke)
        } else if i == 11 {
            Some(ThemeSlot::WindowShadow)
        } else if i == 12 {
            Some(ThemeSlot::PopupShadow)
        } else if i == 13 {
            Some(ThemeSlot::InactiveBgFill)
        } else if i == 14 {
            Some(ThemeSlot::InactiveWeakBgFill)
        } else if i == 15 {
            Some(ThemeSlot::InactiveBgStroke)
        } else if i == 16 {
            Some(ThemeSlot::HoveredBgFill)
        } else if i == 17 {
            Some(ThemeSlot::HoveredWeakBgFill)
        } else if i == 18 {
            Some(ThemeSlot::HoveredBgStroke)
        } else if i == 19 {
            Some(ThemeSlot::ActiveBgFill)
        } else if i == 20 {
            Some(ThemeSlot::ActiveWeakBgFill)
        } else if i == 21 {
            Some(ThemeSlot::ActiveBgStroke)
        } else if i == 22 {
            Some(ThemeSlot::NoninteractiveBgFill)
        } else if i == 23 {
            Some(ThemeSlot::NoninteractiveWeakBgFill)
        } else if i == 24 {
            Some(ThemeSlot::NoninteractiveBgStroke)
        } else {
            None
        }
    }

    /// The position of the slot, counted from zero: below [`SLOT_COUNT`], and
    /// different for different slots.
    #[verifier::when_used_as_spec(spec_index)]
    pub fn index(self) -> (i: usize)
        ensures
            i == self.spec_index(),
            i < SLOT_COUNT,
            ThemeSlot::spec_from_index(i) == Some(self),
    {
        match self {
            ThemeSlot::HyperlinkColor => 0,
            ThemeSlot::FaintBgColor => 1,
            ThemeSlot::ExtremeBgColor => 2,
            ThemeSlot::CodeBgColor => 3,
            ThemeSlot::WarnFgColor => 4,
            ThemeSlot::ErrorFgColor => 5,
            ThemeSlot::WindowFill => 6,
            ThemeSlot::PanelFill => 7,
            ThemeSlot::WindowStroke => 8,
            ThemeSlot::SelectionBgFill => 9,
            ThemeSlot::SelectionStroke => 10,
            ThemeSlot::WindowShadow => 11,
            ThemeSlot::PopupShadow => 12,
            ThemeSlot::InactiveBgFill => 13,
            ThemeSlot::InactiveWeakBgFill => 14,
            ThemeSlot::InactiveBgStroke => 15,
            ThemeSlot::HoveredBgFill => 16,
            ThemeSlot::HoveredWeakBgFill => 17,
            ThemeSlot::HoveredBgStroke => 18,
            ThemeSlot::ActiveBgFill => 19,
            ThemeSlot::ActiveWeakBgFill => 20,
            ThemeSlot::ActiveBgStroke => 21,
            ThemeSlot::NoninteractiveBgFill => 22,
            ThemeSlot::NoninteractiveWeakBgFill => 23,
            ThemeSlot::NoninteractiveBgStroke => 24,
        }
    }

    /// The slot at position `i`: there is one exactly for the positions below
    /// [`SLOT_COUNT`], and its own position is `i`.
    #[verifier::when_used_as_spec(spec_from_index)]
    pub fn from_index(i: usize) -> (slot: Option<ThemeSlot>)
        ensures
            slot == ThemeSlot::spec_from_index(i),
            slot is Some <==> i < SLOT_COUNT,
            slot matches Some(s) ==> s.spec_index() == i,
    {
        match i {
            0 => Some(ThemeSlot::HyperlinkColor),
            1 => Some(ThemeSlot::FaintBgColor),
            2 => Some(ThemeSlot::ExtremeBgColor),
            3 => Some(ThemeSlot::CodeBgColor),
            4 => Some(ThemeSlot::WarnFgColor),
            5 => Some(ThemeSlot::ErrorFgColor),
            6 => Some(ThemeSlot::WindowFill),
            7 => Some(ThemeSlot::PanelFill),
            8 => Some(ThemeSlot::WindowStroke),
            9 => Some(ThemeSlot::SelectionBgFill),
            10 => Some(ThemeSlot::SelectionStroke),
            11 => Some(ThemeSlot::WindowShadow),
            12 => Some(ThemeSlot::PopupShadow),
            13 => Some(ThemeSlot::InactiveBgFill),
            14 => Some(ThemeSlot::InactiveWeakBgFill),
            15 => Some(ThemeSlot::InactiveBgStroke),
            16 => Some(ThemeSlot::HoveredBgFill),
            17 => Some(ThemeSlot::HoveredWeakBgFill),
            18 => Some(ThemeSlot::HoveredBgStroke),
            19 => Some(ThemeSlot::ActiveBgFill),
            20 => Some(ThemeSlot::ActiveWeakBgFill),
            21 => Some(ThemeSlot::ActiveBgStroke),
            22 => Some(ThemeSlot::NoninteractiveBgFill),
            23 => Some(ThemeSlot::NoninteractiveWeakBgFill),
            24 => Some(ThemeSlot::NoninteractiveBgStroke),
            _ => None,
        }
    }
}

/// The colours of the built-in dark style, slot by slot, as egui's
/// `Visuals::dark` sets them.
pub open spec fn dark_palette() -> Seq<Color> {
    seq![
        Color { r: 90, g: 170, b: 255, a: 255 },
        Color { r: 5, g: 5, b: 5, a: 0 },
        Color { r: 10, g: 10, b: 10, a: 255 },
        Color { r: 64, g: 64, b: 64, a: 255 },
        Color { r: 255, g: 143, b: 0, a: 255 },
        Color { r: 255, g: 0, b: 0, a: 255 },
        Color { r: 27, g: 27, b: 27, a: 255 },
        Color { r: 27, g: 27, b: 27, a: 255 },
        Color { r: 60, g: 60, b: 60, a: 255 },
        Color { r: 0, g: 92, b: 128, a: 255 },
        Color { r: 192, g: 222, b: 255, a: 255 },
        Color { r: 0, g: 0, b: 0, a: 96 },
        Color { r: 0, g: 0, b: 0, a: 96 },
        Color { r: 60, g: 60, b: 60, a: 255 },
        Color { r: 60, g: 60, b: 60, a: 255 },
        Color { r: 0, g: 0, b: 0, a: 0 },
        Color { r: 70, g: 70, b: 70, a: 255 },
        Color { r: 70, g: 70, b: 70, a: 255 },
        Color { r: 150, g: 150, b: 150, a: 255 },
        Color { r: 55, g: 55, b: 55, a: 255 },
        Color { r: 55, g: 55, b: 55, a: 255 },
        Color { r: 255, g: 255, b: 255, a: 255 },
        Color { r: 27, g: 27, b: 27, a: 255 },
        Color { r: 27, g: 27, b: 27, a: 255 },
        Color { r: 60, g: 60, b: 60, a: 255 },
    ]
}

/// `egui::Visuals::dark`, and of what it returns the colours of the editable
/// slots, in slot order. Believed, not proved: these colours are those of
/// [`dark_palette`], which lists what egui's source gives each of the fields.
#[verifier::external_body]
fn egui_dark_colors() -> (colors: [Color; 25])
    ensures
        colors@ == dark_palette(),
{
    let v = egui::Visuals::dark();
    let w = &v.widgets;
    [
        v.hyperlink_color, v.faint_bg_color, v.extreme_bg_color, v.code_bg_color,
        v.warn_fg_color, v.error_fg_color, v.window_fill, v.panel_fill, v.window_stroke.color,
        v.selection.bg_fill, v.selection.stroke.color, v.window_shadow.color,
        v.popup_shadow.color, w.inactive.bg_fill, w.inactive.weak_bg_fill,
        w.inactive.bg_stroke.color, w.hovered.bg_fill, w.hovered.weak_bg_fill,
        w.hovered.bg_stroke.color, w.active.bg_fill, w.active.weak_bg_fill,
        w.active.bg_stroke.color, w.noninteractive.bg_fill, w.noninteractive.weak_bg_fill,
        w.noninteractive.bg_stroke.color,
    ].map(|c| Color::from_array(c.to_array()))
}

/// The editable colours of a theme, one for each [`ThemeSlot`].
#[derive(Clone, Copy, Debug, PartialEq, Eq)]
pub struct Theme {
    /// The colour of each slot, at the slot's position.
    pub colors: [Color; 25],
}

impl View for Theme {
    type V = Seq<Color>;

    /// The colours in slot order; always [`SLOT_COUNT`] of them.
    open spec fn view(&self) -> Seq<Color> {
        self.colors@
    }
}

impl Theme {
    /// The built-in dark style: the colours that egui's dark visuals give
    /// the editable slots.
    pub fn dark() -> (theme: Theme)
        ensures
            theme@ == dark_palette(),
    {
        Theme { colors: egui_dark_colors() }
    }

    /// The colour of a slot.
    pub fn get(&self, slot: ThemeSlot) -> (color: Color)
        ensures
            color == self@[slot.spec_index() as int],
    {
        self.colors[slot.index()]
    }

    /// Gives a slot a colour and leaves the other slots as they are.
    pub fn set(&mut self, slot: ThemeSlot, color: Color)
        ensures
            final(self)@ == old(self)@.update(slot.spec_index() as int, color),
    {
        let i: usize = slot.index();
        self.colors[i] = color;
    }
}

} // verus!
