//! What is kept of a state between runs, and what a start makes of it.
//!
//! The host keeps the text, the checkbox, the choice and the theme, each
//! under its own name; the slider's value is never kept. What the host reads
//! back may lack any of the fields: a writer that knew fewer fields wrote
//! fewer. A start takes each field that was read and gives every other
//! field the value of a first start.

use crate::color::Color;
use crate::state::{default_model, AppModel, DropdownValues, TemplateApp, DEFAULT_VALUE_BITS};
use crate::theme::Theme;
use vstd::prelude::*;

verus! {

/// The fields of a state as the host keeps them. A field that was not
/// among what the host read back is `None`.
#[derive(Clone, Debug, PartialEq)]
pub struct Kept {
    /// The text of the text field.
    pub label: Option<String>,
    /// Whether the checkbox is ticked.
    pub boolean: Option<bool>,
    /// The choice made with the radio buttons.
    pub radio: Option<DropdownValues>,
    /// The editable colours of the theme.
    pub theme: Option<Theme>,
}

/// What kept fields are, as plain mathematical values.
pub struct KeptModel {
    pub label: Option<Seq<char>>,
    pub boolean: Option<bool>,
    pub radio: Option<DropdownValues>,
    pub theme: Option<Seq<Color>>,
}

impl View for Kept {
    type V = KeptModel;

    open spec fn view(&self) -> KeptModel {
        KeptModel {
            label: match self.label {
                Some(label) => Some(label@),
                None => None,
            },
            boolean: self.boolean,
            radio: self.radio,
            theme: match self.theme {
                Some(theme) => Some(theme@),
                None => None,
            },
        }
    }
}

/// What is kept of a state: every field but the slider's value.
pub open spec fn kept_of(state: AppModel) -> KeptModel {
    KeptModel {
        label: Some(state.label),
        boolean: Some(state.boolean),
        radio: Some(state.radio),
        theme: Some(state.theme),
    }
}

/// Which fields a writer knows. A writer that knows fewer fields than this
/// library keeps nothing under the names of the others.
pub struct Schema {
    pub label: bool,
    pub boolean: bool,
    pub radio: bool,
    pub theme: bool,
}

/// What a writer with the given schema keeps of a state.
pub open spec fn kept_with(state: AppModel, schema: Schema) -> KeptModel {
    KeptModel {
        label: if schema.label {
            Some(state.label)
        } else {
            None
        },
        boolean: if schema.boolean {
            Some(state.boolean)
        } else {
            None
        },
        radio: if schema.radio {
            Some(state.radio)
        } else {
            None
        },
        theme: if schema.theme {
            Some(state.theme)
        } else {
            None
        },
    }
}

/// What a start makes of what the host read back: the state of a first
/// start where nothing was read; else each field that was read, the value
/// of a first start for each field that was not, and the slider at its
/// default in any case.
pub open spec fn restored(kept: Option<KeptModel>) -> AppModel {
    match kept {
        None => default_model(),
        Some(fields) => AppModel {
            label: match fields.label {
                Some(label) => label,
                None => default_model().label,
            },
            boolean: match fields.boolean {
                Some(boolean) => boolean,
                None => default_model().boolean,
            },
            radio: match fields.radio {
                Some(radio) => radio,
                None => default_model().radio,
            },
            value_bits: DEFAULT_VALUE_BITS,
            theme: match fields.theme {
                Some(theme) => theme,
                None => default_model().theme,
            },
        },
    }
}

impl TemplateApp {
    /// The state at start, from what the host read back of the last run:
    /// see [`restored`]. Never fails.
    pub fn new(kept: Option<Kept>) -> (app: TemplateApp)
        ensures
            kept is None ==> app@ == default_model(),
            app@ == restored(
                match kept {
                    Some(fields) => Some(fields@),
                    None => None,
                },
            ),
    {
        let mut app: TemplateApp = TemplateApp::default();
        match kept {
            Some(fields) => {
                match fields.label {
                    Some(label) => {
                        app.label = label;
                    },
                    None => {},
                }
                match fields.boolean {
                    Some(boolean) => {
                        app.boolean = boolean;
                    },
                    None => {},
                }
                match fields.radio {
                    Some(radio) => {
                        app.radio = radio;
                    },
                    None => {},
                }
                match fields.theme {
                    Some(theme) => {
                        app.theme = theme;
                    },
                    None => {},
                }
            },
            None => {},
        }
        app
    }

    /// What the host is to keep of the state: every field but the slider's
    /// value. A start with these fields restores the state in every field
    /// but the slider's value, which is that of a first start.
    pub fn save(&self) -> (kept: Kept)
        ensures
            kept@ == kept_of(self@),
            restored(Some(kept@)) == (AppModel { value_bits: DEFAULT_VALUE_BITS, ..self@ }),
    {
        Kept {
            label: Some(self.label.clone()),
            boolean: Some(self.boolean),
            radio: Some(self.radio),
            theme: Some(self.theme),
        }
    }
}

} // verus!
