use vstd::prelude::*;

use crate::shared::text::{opt_str_eq, opt_view};
use crate::shared::types::YesNo;

verus! {

/// Whether the stored preference shows the pet: only an explicit `"N"` hides it.
pub open spec fn spec_pet_visible_pref(stored: Option<Seq<char>>) -> bool {
    stored != Some(YesNo::No.spec_as_str())
}

/// Whether the pet is shown at start, from the stored preference.
pub fn pet_visible_pref(stored: Option<&str>) -> (r: bool)
    ensures
        r == spec_pet_visible_pref(opt_view(stored)),
{
    proof {
        reveal_strlit("N");
    }
    !opt_str_eq(stored, YesNo::No.as_str())
}

/// Whether the pet is visible after a toggle: a visible pet is hidden, a hidden one
/// shown, and a pet without window gets one and is shown.
pub open spec fn spec_toggled_visibility(window_exists: bool, visible: bool) -> bool {
    !(window_exists && visible)
}

/// Whether the pet is visible after a toggle.
pub fn toggled_visibility(window_exists: bool, visible: bool) -> (r: bool)
    ensures
        r == spec_toggled_visibility(window_exists, visible),
{
    if window_exists {
        !visible
    } else {
        true
    }
}

/// The preference stored after a toggle left the pet `visible` or not.
pub fn visibility_pref(visible: bool) -> (r: YesNo)
    ensures
        r == (if visible {
            YesNo::Yes
        } else {
            YesNo::No
        }),
{
    if visible {
        YesNo::Yes
    } else {
        YesNo::No
    }
}

} // verus!

verus! {

/// The preference stored after a toggle reads back as the visibility it recorded, so a
/// restart restores the user's choice.
pub proof fn lemma_visibility_pref_round_trip(visible: bool)
    ensures
        spec_pet_visible_pref(Some((if visible {
            YesNo::Yes
        } else {
            YesNo::No
        }).spec_as_str())) == visible,
{
    assert(seq!['Y'][0] != seq!['N'][0]);
}

/// Toggling a pet that has a window flips its visibility.
pub proof fn lemma_toggle_flips(visible: bool)
    ensures
        spec_toggled_visibility(true, visible) == !visible,
{
}

} // verus!
