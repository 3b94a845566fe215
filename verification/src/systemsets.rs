//! The system sets that the schedule is organised in.

use vstd::prelude::*;

verus! {

/// Configuration systems: those that may only run while nothing is being
/// encoded, and those that may run at any time.
#[derive(Clone, Copy, Debug, PartialEq, Eq, Hash, Structural)]
pub enum MyConfigSystemSet {
    OfflineEditable,
    LiveEditable,
}

/// Compositing systems: previews, and the programs that are encoded.
#[derive(Clone, Copy, Debug, PartialEq, Eq, Hash, Structural)]
pub enum MyCompositingSystemSet {
    Previews,
    Programs,
}

} // verus!
