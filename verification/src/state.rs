//! The editor's state, its mathematical model, and the edits a user makes.

use crate::color::Color;
use crate::theme::{dark_palette, Theme, ThemeSlot, SLOT_COUNT};
use vstd::prelude::*;

verus! {

/// The bit pattern of the slider's default value, the binary32 number nearest to 2.7.
pub const DEFAULT_VALUE_BITS: u32 = 0x402c_cccd;

/// The three choices of the radio buttons and of the drop-down list.
#[derive(Clone, Copy, Debug, PartialEq, Eq, Structural)]
pub enum DropdownValues {
    First,
    Second,
    Third,
}

/// What a state is, as plain mathematical values.
pub struct AppModel {
    /// The text of the text field.
    pub label: Seq<char>,
    /// Whether the checkbox is ticked.
    pub boolean: bool,
    /// The choice made with the radio buttons.
    pub radio: DropdownValues,
    /// The slider's value, as the bit pattern of a binary32 number.
    pub value_bits: u32,
    /// The theme's colours in slot order.
    pub theme: Seq<Color>,
}

/// One change that a user makes through a widget.
pub enum Edit {
    /// The text field now holds this text.
    Label(Seq<char>),
    /// The checkbox is now ticked, or not.
    Boolean(bool),
    /// This choice was picked.
    Radio(DropdownValues),
    /// The slider now stands at the number with this bit pattern.
    Value(u32),
    /// This slot of the theme now has this colour.
    Color(ThemeSlot, Color),
}

impl AppModel {
    /// A model has one colour for each slot of the theme.
    pub open spec fn wf(self) -> bool {
        self.theme.len() == SLOT_COUNT
    }

    /// The state after one edit: the edited field has its new value, and
    /// every other field is as before.
    pub open spec fn apply(self, edit: Edit) -> AppModel {
        match edit {
            Edit::Label(label) => AppModel { label, ..self },
            Edit::Boolean(boolean) => AppModel { boolean, ..self },
            Edit::Radio(radio) => AppModel { radio, ..self },
            Edit::Value(value_bits) => AppModel { value_bits, ..self },
            Edit::Color(slot, color) => AppModel {
                theme: self.theme.update(slot.spec_index() as int, color),
                ..self
            },
        }
    }

    /// The state after a run of edits, the first of them made first.
    pub open spec fn apply_all(self, edits: Seq<Edit>) -> AppModel
        decreases edits.len(),
    {
        if edits.len() == 0 {
            self
        } else {
            self.apply(edits[0]).apply_all(edits.skip(1))
        }
    }
}

/// The state of a first start: the greeting as text, nothing ticked, the
/// first choice, the slider at its default, and the dark theme.
pub open spec fn default_model() -> AppModel {
    AppModel {
        label: "Hello World!"@,
        boolean: false,
        radio: DropdownValues::First,
        value_bits: DEFAULT_VALUE_BITS,
        theme: dark_palette(),
    }
}

/// The state of the editor: what its widgets show and what its theme is.
#[derive(Clone, Debug, PartialEq)]
pub struct TemplateApp {
    /// The text of the text field.
    pub label: String,
    /// Whether the checkbox is ticked.
    pub boolean: bool,
    /// The choice made with the radio buttons.
    pub radio: DropdownValues,
    /// The slider's value, as the bit pattern of a binary32 number. It is
    /// never kept between runs.
    pub value_bits: u32,
    /// The theme that is being edited.
    pub theme: Theme,
}

impl View for TemplateApp {
    type V = AppModel;

    open spec fn view(&self) -> AppModel {
        AppModel {
            label: self.label@,
            boolean: self.boolean,
            radio: self.radio,
            value_bits: self.value_bits,
            theme: self.theme@,
        }
    }
}

impl Default for TemplateApp {
    /// The state of a first start.
    fn default() -> (app: TemplateApp)
        ensures
            app@ == default_model(),
    {
        TemplateApp {
            label: "Hello World!".to_owned(),
            boolean: false,
            radio: DropdownValues::First,
            value_bits: DEFAULT_VALUE_BITS,
            theme: Theme::dark(),
        }
    }
}

impl TemplateApp {
    /// Replaces the text of the text field.
    pub fn set_label(&mut self, label: String)
        ensures
            final(self)@ == old(self)@.apply(Edit::Label(label@)),
    {
        self.label = label;
    }

    /// Ticks or clears the checkbox.
    pub fn set_boolean(&mut self, boolean: bool)
        ensures
            final(self)@ == old(self)@.apply(Edit::Boolean(boolean)),
    {
        self.boolean = boolean;
    }

    /// Picks one of the three choices.
    pub fn set_radio(&mut self, radio: DropdownValues)
        ensures
            final(self)@ == old(self)@.apply(Edit::Radio(radio)),
    {
        self.radio = radio;
    }

    /// Moves the slider to the number with the given bit pattern.
    pub fn set_value_bits(&mut self, value_bits: u32)
        ensures
            final(self)@ == old(self)@.apply(Edit::Value(value_bits)),
    {
        self.value_bits = value_bits;
    }

    /// Gives one slot of the theme a colour.
    pub fn set_color(&mut self, slot: ThemeSlot, color: Color)
        ensures
            final(self)@ == old(self)@.apply(Edit::Color(slot, color)),
    {
        self.theme.set(slot, color);
    }
}

} // verus!
