//! Switching Bevy diagnostics on and off, always keeping the frame-rate
//! diagnostic (path `fps`) as it is.

use bevy::diagnostic::DiagnosticPath;
use bevy::diagnostic::DiagnosticsStore;
use bevy::diagnostic::FrameTimeDiagnosticsPlugin;
use vstd::prelude::*;

verus! {

/// Seconds after start-up at which the diagnostics are disabled.
pub const DISABLE_AFTER_SECS: u64 = 5;

#[verifier::external_type_specification]
#[verifier::external_body]
pub struct ExDiagnosticsStore(DiagnosticsStore);

#[verifier::external_type_specification]
#[verifier::external_body]
pub struct ExDiagnosticPath(DiagnosticPath);

/// What a `DiagnosticsStore` holds. The store is a hash map from
/// `DiagnosticPath` to `Diagnostic`; path equality is equality of the path
/// texts, so the map is keyed here by the text of each key. Each entry is
/// the stored diagnostic: the text of its own path (`Diagnostic::path`, which
/// is normally its key, but a caller may file a diagnostic under another
/// key), its `is_enabled` flag, and a number that stands for everything else
/// it holds (suffix, history, sums, smoothing, history limit): two entries
/// carry the same number exactly when those parts are equal.
pub uninterp spec fn diagnostics_entries(store: DiagnosticsStore) -> Map<Seq<char>, (Seq<char>, bool, int)>;

/// The text of a diagnostic path, as `DiagnosticPath::as_str` returns it.
pub uninterp spec fn path_text(path: DiagnosticPath) -> Seq<char>;

/// The path text of the frame-rate diagnostic, `fps`.
pub open spec fn fps_text() -> Seq<char> {
    seq!['f', 'p', 's']
}

/// A rule that gives each diagnostic its new `is_enabled` flag from its own
/// path and its current flag.
pub trait FlagRule {
    /// The new flag of a diagnostic with this path text and this flag.
    spec fn spec_new_flag(path: Seq<char>, enabled: bool) -> bool;

    /// Computes the new flag of a diagnostic.
    fn new_flag(&self, path: &DiagnosticPath, enabled: bool) -> (r: bool)
        ensures
            r == Self::spec_new_flag(path_text(*path), enabled),
    ;
}

/// The entries after every flag was replaced by the rule's new flag; keys,
/// paths and everything else stay.
pub open spec fn with_new_flags<R: FlagRule>(m: Map<Seq<char>, (Seq<char>, bool, int)>) -> Map<Seq<char>, (Seq<char>, bool, int)> {
    Map::new(|k: Seq<char>| m.dom().contains(k), |k: Seq<char>| (m[k].0, R::spec_new_flag(m[k].0, m[k].1), m[k].2))
}

/// The flag after `disable`: off, unless the path is the frame-rate one.
pub open spec fn disabled_flag(path: Seq<char>, enabled: bool) -> bool {
    if path == fps_text() { enabled } else { false }
}

/// The flag after `toggle_diag`: flipped, unless the path is the frame-rate one.
pub open spec fn toggled_flag(path: Seq<char>, enabled: bool) -> bool {
    if path == fps_text() { enabled } else { !enabled }
}

/// The entries after `disable`.
pub open spec fn disabled_entries(m: Map<Seq<char>, (Seq<char>, bool, int)>) -> Map<Seq<char>, (Seq<char>, bool, int)> {
    Map::new(|k: Seq<char>| m.dom().contains(k), |k: Seq<char>| (m[k].0, disabled_flag(m[k].0, m[k].1), m[k].2))
}

/// The entries after `toggle_diag`.
pub open spec fn toggled_entries(m: Map<Seq<char>, (Seq<char>, bool, int)>) -> Map<Seq<char>, (Seq<char>, bool, int)> {
    Map::new(|k: Seq<char>| m.dom().contains(k), |k: Seq<char>| (m[k].0, toggled_flag(m[k].0, m[k].1), m[k].2))
}

/// The entries after `n` calls of `toggle_diag`.
pub open spec fn toggled_times(m: Map<Seq<char>, (Seq<char>, bool, int)>, n: nat) -> Map<Seq<char>, (Seq<char>, bool, int)>
    decreases n,
{
    if n == 0 { m } else { toggled_entries(toggled_times(m, (n - 1) as nat)) }
}

/// `DiagnosticsStore::iter_mut`, setting on each diagnostic it yields
/// `is_enabled = rule.new_flag(diagnostic.path(), is_enabled)`. The map
/// yields every stored diagnostic once, and the write touches only
/// `is_enabled`: the keys, each diagnostic's path and everything else stay.
#[verifier::external_body]
fn store_update_flags<R: FlagRule>(store: &mut DiagnosticsStore, rule: &R)
    ensures
        diagnostics_entries(*final(store)) == with_new_flags::<R>(diagnostics_entries(*old(store))),
{
    store.iter_mut().for_each(|d| d.is_enabled = rule.new_flag(d.path(), d.is_enabled));
}

/// `FrameTimeDiagnosticsPlugin::FPS`, which is `DiagnosticPath::const_new("fps")`.
#[verifier::external_body]
fn fps_path() -> (p: DiagnosticPath)
    ensures
        path_text(p) == fps_text(),
{
    FrameTimeDiagnosticsPlugin::FPS
}

/// `PartialEq` of `DiagnosticPath`: the hashes and the texts are equal; the
/// hash is computed from the text alone, so this is equality of the texts.
#[verifier::external_body]
fn path_eq(a: &DiagnosticPath, b: &DiagnosticPath) -> (r: bool)
    ensures
        r == (path_text(*a) == path_text(*b)),
{
    a == b
}

/// The rule of `disable`.
pub struct DisableRule;

impl FlagRule for DisableRule {
    open spec fn spec_new_flag(path: Seq<char>, enabled: bool) -> bool {
        disabled_flag(path, enabled)
    }

    fn new_flag(&self, path: &DiagnosticPath, enabled: bool) -> (r: bool) {
        if path_eq(path, &fps_path()) {
            enabled
        } else {
            false
        }
    }
}

/// The rule of `toggle_diag`.
pub struct ToggleRule;

impl FlagRule for ToggleRule {
    open spec fn spec_new_flag(path: Seq<char>, enabled: bool) -> bool {
        toggled_flag(path, enabled)
    }

    fn new_flag(&self, path: &DiagnosticPath, enabled: bool) -> (r: bool) {
        if path_eq(path, &fps_path()) {
            enabled
        } else {
            !enabled
        }
    }
}

/// Turns every diagnostic off, except the frame-rate one; nothing else of
/// any diagnostic changes.
pub fn disable(store: &mut DiagnosticsStore)
    ensures
        diagnostics_entries(*final(store)) == disabled_entries(diagnostics_entries(*old(store))),
{
    store_update_flags(store, &DisableRule);
    assert(diagnostics_entries(*store) =~= disabled_entries(diagnostics_entries(*old(store))));
}

/// Flips every diagnostic on or off, except the frame-rate one; nothing else
/// of any diagnostic changes.
pub fn toggle_diag(store: &mut DiagnosticsStore)
    ensures
        diagnostics_entries(*final(store)) == toggled_entries(diagnostics_entries(*old(store))),
{
    store_update_flags(store, &ToggleRule);
    assert(diagnostics_entries(*store) =~= toggled_entries(diagnostics_entries(*old(store))));
}

/// Neither switch adds or removes a diagnostic, or changes anything of one
/// but its flag, and neither touches a diagnostic whose path is `fps`.
pub proof fn lemma_only_flags_change(m: Map<Seq<char>, (Seq<char>, bool, int)>)
    ensures
        disabled_entries(m).dom() == m.dom(),
        toggled_entries(m).dom() == m.dom(),
        forall|k: Seq<char>| #[trigger] m.dom().contains(k) ==>
            disabled_entries(m)[k].0 == m[k].0 && disabled_entries(m)[k].2 == m[k].2
            && toggled_entries(m)[k].0 == m[k].0 && toggled_entries(m)[k].2 == m[k].2,
        forall|k: Seq<char>| #[trigger] m.dom().contains(k) && m[k].0 == fps_text() ==>
            disabled_entries(m)[k] == m[k] && toggled_entries(m)[k] == m[k],
{
    assert(disabled_entries(m).dom() =~= m.dom());
    assert(toggled_entries(m).dom() =~= m.dom());
}

/// Toggling twice gives back the store's contents as they were.
pub proof fn lemma_toggle_twice_restores(m: Map<Seq<char>, (Seq<char>, bool, int)>)
    ensures
        toggled_entries(toggled_entries(m)) == m,
{
    assert(toggled_entries(toggled_entries(m)) =~= m);
}

/// Disabling a second time changes nothing.
pub proof fn lemma_disable_idempotent(m: Map<Seq<char>, (Seq<char>, bool, int)>)
    ensures
        disabled_entries(disabled_entries(m)) == disabled_entries(m),
{
    assert(disabled_entries(disabled_entries(m)) =~= disabled_entries(m));
}

/// Disabling forgets any number of earlier toggles.
pub proof fn lemma_disable_absorbs_toggles(m: Map<Seq<char>, (Seq<char>, bool, int)>, n: nat)
    ensures
        disabled_entries(toggled_times(m, n)) == disabled_entries(m),
    decreases n,
{
    if n > 0 {
        let prev = toggled_times(m, (n - 1) as nat);
        lemma_disable_absorbs_toggles(m, (n - 1) as nat);
        assert(disabled_entries(toggled_entries(prev)) =~= disabled_entries(prev));
    }
}

/// After the diagnostics were disabled, one toggle turns every one of them
/// on; the frame-rate diagnostic keeps its flag.
pub proof fn lemma_toggle_after_disable_enables(m: Map<Seq<char>, (Seq<char>, bool, int)>)
    ensures
        forall|k: Seq<char>| #[trigger] m.dom().contains(k) && m[k].0 != fps_text() ==>
            toggled_entries(disabled_entries(m))[k].1,
        forall|k: Seq<char>| #[trigger] m.dom().contains(k) && m[k].0 == fps_text() ==>
            toggled_entries(disabled_entries(m))[k] == m[k],
{
}

/// After `disable` and then `n` toggles, every diagnostic whose path is not
/// `fps` is on exactly when `n` is odd, and a diagnostic whose path is `fps`
/// is as it was before `disable`; nothing but the flags ever changes.
pub proof fn lemma_toggles_after_disable(m: Map<Seq<char>, (Seq<char>, bool, int)>, n: nat)
    ensures
        toggled_times(disabled_entries(m), n).dom() == m.dom(),
        forall|k: Seq<char>| #[trigger] m.dom().contains(k) ==>
            toggled_times(disabled_entries(m), n)[k].0 == m[k].0
            && toggled_times(disabled_entries(m), n)[k].2 == m[k].2,
        forall|k: Seq<char>| #[trigger] m.dom().contains(k) && m[k].0 != fps_text() ==>
            toggled_times(disabled_entries(m), n)[k].1 == (n % 2 == 1),
        forall|k: Seq<char>| #[trigger] m.dom().contains(k) && m[k].0 == fps_text() ==>
            toggled_times(disabled_entries(m), n)[k] == m[k],
    decreases n,
{
    if n == 0 {
        assert(disabled_entries(m).dom() =~= m.dom());
    } else {
        lemma_toggles_after_disable(m, (n - 1) as nat);
        let prev = toggled_times(disabled_entries(m), (n - 1) as nat);
        assert(toggled_entries(prev).dom() =~= prev.dom());
    }
}

} // verus!
