//! What holds of keeping and restoring, and of editing, for every state.

use crate::persist::{kept_of, kept_with, restored, KeptModel, Schema};
use crate::state::{default_model, AppModel, DropdownValues, Edit, DEFAULT_VALUE_BITS};
use vstd::prelude::*;

verus! {

/// Round trip. A start with what was kept of a state restores the state
/// in every field but the slider's value, which is that of a first start.
pub proof fn law_save_then_restore(state: AppModel)
    ensures
        restored(Some(kept_of(state))) == (AppModel { value_bits: DEFAULT_VALUE_BITS, ..state }),
{
}

/// A start with nothing kept gives the state of a first start.
pub proof fn law_nothing_kept_gives_defaults()
    ensures
        restored(None) == default_model(),
{
}

/// Schema tolerance. Of a state kept by a writer that knows only some of
/// the fields, a start restores the fields that the writer knew as they
/// were, and gives every other field the value of a first start.
pub proof fn law_missing_fields_take_defaults(state: AppModel, schema: Schema)
    ensures
        restored(Some(kept_with(state, schema))).label == if schema.label {
            state.label
        } else {
            default_model().label
        },
        restored(Some(kept_with(state, schema))).boolean == if schema.boolean {
            state.boolean
        } else {
            default_model().boolean
        },
        restored(Some(kept_with(state, schema))).radio == if schema.radio {
            state.radio
        } else {
            default_model().radio
        },
        restored(Some(kept_with(state, schema))).theme == if schema.theme {
            state.theme
        } else {
            default_model().theme
        },
        restored(Some(kept_with(state, schema))).value_bits == default_model().value_bits,
{
}

/// Fields that were read are never replaced by defaults: whatever was
/// read of a field is the field's value after the start.
pub proof fn law_fields_read_are_kept(fields: KeptModel)
    ensures
        fields.label matches Some(label) ==> restored(Some(fields)).label == label,
        fields.boolean matches Some(boolean) ==> restored(Some(fields)).boolean == boolean,
        fields.radio matches Some(radio) ==> restored(Some(fields)).radio == radio,
        fields.theme matches Some(theme) ==> restored(Some(fields)).theme == theme,
{
}

/// Edits keep a state a state: whatever run of edits is made, the choice
/// is one of the three, and the theme has a colour for each slot and no more.
pub proof fn law_edits_keep_the_state_closed(state: AppModel, edits: Seq<Edit>)
    requires
        state.wf(),
    ensures
        state.apply_all(edits).wf(),
        state.apply_all(edits).radio == DropdownValues::First || state.apply_all(edits).radio
            == DropdownValues::Second || state.apply_all(edits).radio == DropdownValues::Third,
    decreases edits.len(),
{
    if edits.len() > 0 {
        law_edits_keep_the_state_closed(state.apply(edits[0]), edits.skip(1));
    }
}

} // verus!
