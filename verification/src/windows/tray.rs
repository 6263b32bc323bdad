use vstd::prelude::*;

use crate::shared::text::{opt_str_eq, opt_view};
use crate::shared::types::YesNo;

verus! {

/// Whether the stored preference lets the pet be dragged: only an explicit `"Y"` does.
pub open spec fn spec_drag_enabled_pref(stored: Option<Seq<char>>) -> bool {
    stored == Some(YesNo::Yes.spec_as_str())
}

/// Whether the pet can be dragged, from the stored preference.
pub fn drag_enabled_pref(stored: Option<&str>) -> (r: bool)
    ensures
        r == spec_drag_enabled_pref(opt_view(stored)),
{
    proof {
        reveal_strlit("Y");
    }
    opt_str_eq(stored, YesNo::Yes.as_str())
}

/// The value stored when the drag switch is flipped from `enabled`.
pub fn toggled_drag_value(enabled: bool) -> (r: YesNo)
    ensures
        r == (if enabled {
            YesNo::No
        } else {
            YesNo::Yes
        }),
{
    if enabled {
        YesNo::No
    } else {
        YesNo::Yes
    }
}

/// The menu text key of the pet item: the action that applies to the pet's state.
pub fn pet_menu_key(pet_visible: bool) -> (r: &'static str)
    ensures
        r@ == (if pet_visible {
            "pet-hide"@
        } else {
            "pet-show"@
        }),
{
    if pet_visible {
        "pet-hide"
    } else {
        "pet-show"
    }
}

/// The menu text key of the drag item: the action that applies to the switch's state.
pub fn drag_menu_key(enabled: bool) -> (r: &'static str)
    ensures
        r@ == (if enabled {
            "drag-off"@
        } else {
            "drag-on"@
        }),
{
    if enabled {
        "drag-off"
    } else {
        "drag-on"
    }
}

} // verus!

verus! {

/// Flipping the drag switch stores the value that reads back as the opposite state.
pub proof fn lemma_drag_toggle_flips(enabled: bool)
    ensures
        spec_drag_enabled_pref(Some((if enabled {
            YesNo::No
        } else {
            YesNo::Yes
        }).spec_as_str())) == !enabled,
{
    assert(seq!['Y'][0] != seq!['N'][0]);
}

} // verus!
