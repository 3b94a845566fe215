//! Development tools: naming the frame-rate overlay so that the world
//! inspector lists it.

use vstd::prelude::*;

verus! {

/// The name given to the frame-rate overlay, `FpsOverlay`.
pub open spec fn fps_overlay_label() -> Seq<char> {
    seq!['F', 'p', 's', 'O', 'v', 'e', 'r', 'l', 'a', 'y']
}

/// The name to give an entity, if it is an unnamed frame-rate overlay: an
/// entity without a name that has children and a z-index.
pub fn fps_overlay_name(has_name: bool, has_children: bool, has_z_index: bool) -> (r: Option<String>)
    ensures
        r is Some <==> (!has_name && has_children && has_z_index),
        r matches Some(name) ==> name@ == fps_overlay_label(),
{
    if !has_name && has_children && has_z_index {
        let label = "FpsOverlay";
        proof {
            reveal_strlit("FpsOverlay");
        }
        Some(label.to_owned())
    } else {
        None
    }
}

} // verus!
