//! The application state and the rules that tie the system sets to it:
//! in which state each set runs, and after which set it runs.

use crate::systemsets::MyCompositingSystemSet;
use crate::systemsets::MyConfigSystemSet;
use vstd::prelude::*;

verus! {

/// Whether the application is idle or encoding.
#[derive(Clone, Copy, Debug, PartialEq, Eq, Hash, Structural)]
pub enum MyAppState {
    Idling,
    Encoding,
}

impl Default for MyAppState {
    /// The application starts idle.
    fn default() -> (s: Self)
        ensures
            s == MyAppState::Idling,
    {
        MyAppState::Idling
    }
}

/// A system set of the schedule, of either kind.
#[derive(Clone, Copy, Debug, PartialEq, Eq, Hash, Structural)]
pub enum ScheduledSet {
    Config(MyConfigSystemSet),
    Compositing(MyCompositingSystemSet),
}

/// The state a set is restricted to, if any: offline-editable configuration
/// only while idling, programs only while encoding.
pub open spec fn spec_run_condition(set: ScheduledSet) -> Option<MyAppState> {
    match set {
        ScheduledSet::Config(MyConfigSystemSet::OfflineEditable) => Some(MyAppState::Idling),
        ScheduledSet::Config(MyConfigSystemSet::LiveEditable) => None,
        ScheduledSet::Compositing(MyCompositingSystemSet::Previews) => None,
        ScheduledSet::Compositing(MyCompositingSystemSet::Programs) => Some(MyAppState::Encoding),
    }
}

/// The set that a set is ordered after, if any: previews and programs come
/// after the live-editable configuration.
pub open spec fn spec_runs_after(set: ScheduledSet) -> Option<ScheduledSet> {
    match set {
        ScheduledSet::Compositing(_) => Some(ScheduledSet::Config(MyConfigSystemSet::LiveEditable)),
        ScheduledSet::Config(_) => None,
    }
}

/// Whether a set runs in a state.
pub open spec fn spec_runs_in(set: ScheduledSet, state: MyAppState) -> bool {
    match spec_run_condition(set) {
        None => true,
        Some(s) => s == state,
    }
}

/// The sets that the core logic configures, in the order it configures them.
pub open spec fn spec_configured_sets() -> Seq<ScheduledSet> {
    seq![
        ScheduledSet::Config(MyConfigSystemSet::OfflineEditable),
        ScheduledSet::Config(MyConfigSystemSet::LiveEditable),
        ScheduledSet::Compositing(MyCompositingSystemSet::Previews),
        ScheduledSet::Compositing(MyCompositingSystemSet::Programs),
    ]
}

/// The state that `set` is restricted to, if any.
pub fn run_condition(set: ScheduledSet) -> (r: Option<MyAppState>)
    ensures
        r == spec_run_condition(set),
{
    match set {
        ScheduledSet::Config(MyConfigSystemSet::OfflineEditable) => Some(MyAppState::Idling),
        ScheduledSet::Config(MyConfigSystemSet::LiveEditable) => None,
        ScheduledSet::Compositing(MyCompositingSystemSet::Previews) => None,
        ScheduledSet::Compositing(MyCompositingSystemSet::Programs) => Some(MyAppState::Encoding),
    }
}

/// The set that `set` runs after, if any.
pub fn runs_after(set: ScheduledSet) -> (r: Option<ScheduledSet>)
    ensures
        r == spec_runs_after(set),
{
    match set {
        ScheduledSet::Compositing(_) => Some(ScheduledSet::Config(MyConfigSystemSet::LiveEditable)),
        ScheduledSet::Config(_) => None,
    }
}

/// Whether `set` runs while the application is in `state`.
pub fn runs_in(set: ScheduledSet, state: MyAppState) -> (r: bool)
    ensures
        r == spec_runs_in(set, state),
{
    match run_condition(set) {
        None => true,
        Some(s) => s == state,
    }
}

/// The sets that the core logic configures, in order.
pub fn configured_sets() -> (sets: Vec<ScheduledSet>)
    ensures
        sets@ == spec_configured_sets(),
{
    let mut sets = Vec::new();
    sets.push(ScheduledSet::Config(MyConfigSystemSet::OfflineEditable));
    sets.push(ScheduledSet::Config(MyConfigSystemSet::LiveEditable));
    sets.push(ScheduledSet::Compositing(MyCompositingSystemSet::Previews));
    sets.push(ScheduledSet::Compositing(MyCompositingSystemSet::Programs));
    sets
}

/// Offline-editable configuration and the encoded programs never run in the
/// same state: configuration that cannot change live is only edited while
/// nothing is encoded.
pub proof fn lemma_offline_editing_excludes_programs(state: MyAppState)
    ensures
        !(spec_runs_in(ScheduledSet::Config(MyConfigSystemSet::OfflineEditable), state)
            && spec_runs_in(ScheduledSet::Compositing(MyCompositingSystemSet::Programs), state)),
{
}

/// Live-editable configuration and the previews run in every state.
pub proof fn lemma_live_and_previews_always_run(state: MyAppState)
    ensures
        spec_runs_in(ScheduledSet::Config(MyConfigSystemSet::LiveEditable), state),
        spec_runs_in(ScheduledSet::Compositing(MyCompositingSystemSet::Previews), state),
{
}

/// Each state runs exactly one of the two restricted sets: offline editing
/// while idling, programs while encoding.
pub proof fn lemma_state_selects_restricted_set(state: MyAppState)
    ensures
        spec_runs_in(ScheduledSet::Config(MyConfigSystemSet::OfflineEditable), state) <==> state == MyAppState::Idling,
        spec_runs_in(ScheduledSet::Compositing(MyCompositingSystemSet::Programs), state) <==> state == MyAppState::Encoding,
{
}

/// A set that runs after another set only runs in states where that other
/// set runs too, so the ordering never waits on an absent set.
pub proof fn lemma_predecessor_runs(set: ScheduledSet, state: MyAppState)
    ensures
        spec_runs_after(set) is Some && spec_runs_in(set, state) ==> spec_runs_in(spec_runs_after(set)->0, state),
{
}

/// The configured sets are every set, each once, and each predecessor is
/// configured before the sets that run after it.
pub proof fn lemma_configured_sets_complete(set: ScheduledSet)
    ensures
        spec_configured_sets().contains(set),
        forall|i: int, j: int| 0 <= i < j < spec_configured_sets().len() ==>
            spec_configured_sets()[i] != spec_configured_sets()[j],
        forall|i: int| 0 <= i < spec_configured_sets().len() && spec_runs_after(#[trigger] spec_configured_sets()[i]) is Some ==>
            exists|j: int| 0 <= j < i && spec_configured_sets()[j] == spec_runs_after(spec_configured_sets()[i])->0,
{
    match set {
        ScheduledSet::Config(MyConfigSystemSet::OfflineEditable) => assert(spec_configured_sets()[0] == set),
        ScheduledSet::Config(MyConfigSystemSet::LiveEditable) => assert(spec_configured_sets()[1] == set),
        ScheduledSet::Compositing(MyCompositingSystemSet::Previews) => assert(spec_configured_sets()[2] == set),
        ScheduledSet::Compositing(MyCompositingSystemSet::Programs) => assert(spec_configured_sets()[3] == set),
    }
    assert forall|i: int| 0 <= i < spec_configured_sets().len() && spec_runs_after(#[trigger] spec_configured_sets()[i]) is Some implies
        exists|j: int| 0 <= j < i && spec_configured_sets()[j] == spec_runs_after(spec_configured_sets()[i])->0 by {
        assert(spec_configured_sets()[1] == ScheduledSet::Config(MyConfigSystemSet::LiveEditable));
    }
}

} // verus!
