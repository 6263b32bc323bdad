use vstd::prelude::*;

verus! {

/// Whether the task panel next to the pet is shown: only while the pet is visible and
/// some session is active.
pub open spec fn spec_pet_task_visible(pet_visible: bool, active_count: nat) -> bool {
    pet_visible && active_count > 0
}

/// Whether the task panel next to the pet is shown.
pub fn pet_task_visible(pet_visible: bool, active_count: usize) -> (r: bool)
    ensures
        r == spec_pet_task_visible(pet_visible, active_count as nat),
{
    pet_visible && active_count > 0
}

} // verus!
