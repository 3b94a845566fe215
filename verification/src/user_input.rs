//! Keyboard shortcuts of the application.

use vstd::prelude::*;

verus! {

/// A key that a shortcut can be bound to.
#[derive(Clone, Copy, Debug, PartialEq, Eq, Hash, Structural)]
pub enum ShortcutKey {
    F8,
    F9,
}

/// The keys bound to the application's actions.
#[derive(Clone, Copy, Debug, PartialEq, Eq, Structural)]
pub struct KeyboardSettings {
    /// Toggles the diagnostics.
    pub diag: ShortcutKey,
    /// Dumps the current scene.
    pub dump_scene: ShortcutKey,
}

impl KeyboardSettings {
    /// The default bindings: F8 toggles the diagnostics, F9 dumps the scene.
    pub fn default() -> (s: KeyboardSettings)
        ensures
            s.diag == ShortcutKey::F8,
            s.dump_scene == ShortcutKey::F9,
    {
        KeyboardSettings { diag: ShortcutKey::F8, dump_scene: ShortcutKey::F9 }
    }
}

} // verus!
