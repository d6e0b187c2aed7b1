//! What holds of scenes and their manager across several calls.

use crate::scene::{
    active_after_switch, loaded, names_after_switch, switch_finds, unloaded, Loadable, Scene,
    SceneManager, SceneState,
};
use vstd::prelude::*;

verus! {

/// A state that is loaded, and whose scene is unloaded again, comes back
/// under the name it had; the scene went by that name all along, and so does
/// what loading and unloading left behind.
pub proof fn lemma_round_trip_keeps_name<L: Scene>(
    state: L::State,
    spent: L::State,
    scene: L,
    parked: L,
    back: L::State,
)
    requires
        loaded(&state, &spent, &scene),
        unloaded(&scene, &parked, &back),
    ensures
        back.name_spec() == state.name_spec(),
        L::State::live_name(&scene) == state.name_spec(),
        spent.name_spec() == state.name_spec(),
        L::State::live_name(&parked) == state.name_spec(),
{
}

/// The names in the registry after the scene that goes by `active` has been
/// switched to its own name `times` times in a row.
pub open spec fn names_after_reloads(
    names: Set<Seq<char>>,
    active: Seq<char>,
    times: nat,
) -> Set<Seq<char>>
    decreases times,
{
    if times == 0 {
        names
    } else {
        names_after_reloads(names_after_switch(names, active, active), active, (times - 1) as nat)
    }
}

/// Switching a scene to its own name, however often, always finds the state
/// that was just unloaded, leaves the scene of that name in control, and
/// brings no name into the registry that was not there before.
pub proof fn lemma_reloads_add_no_name(names: Set<Seq<char>>, active: Seq<char>, times: nat)
    ensures
        switch_finds(names, active, active),
        active_after_switch(names, active, active) == active,
        names_after_reloads(names, active, times).subset_of(names),
        times > 0 ==> !names_after_reloads(names, active, times).contains(active),
    decreases times,
{
    if times > 0 {
        let next = names_after_switch(names, active, active);
        assert(next =~= names.remove(active));
        lemma_reloads_add_no_name(next, active, (times - 1) as nat);
        if times == 1 {
            assert(names_after_reloads(next, active, 0) == next);
        }
    }
}

/// A switch neither loses a mode nor invents one: whether it succeeds or
/// fails, the names in the registry together with the name of the scene in
/// control are afterwards what they were before.
pub proof fn lemma_switch_keeps_known_modes(
    names: Set<Seq<char>>,
    active: Seq<char>,
    target: Seq<char>,
)
    ensures
        names_after_switch(names, active, target).insert(
            active_after_switch(names, active, target),
        ) == names.insert(active),
{
    assert(names_after_switch(names, active, target).insert(
        active_after_switch(names, active, target),
    ) =~= names.insert(active));
}

/// After a switch that succeeds, the registry holds no state under the name
/// of the scene in control: the state that was loaded has left it.
pub proof fn lemma_loaded_state_leaves_registry(
    names: Set<Seq<char>>,
    active: Seq<char>,
    target: Seq<char>,
)
    requires
        switch_finds(names, active, target),
    ensures
        !names_after_switch(names, active, target).contains(
            active_after_switch(names, active, target),
        ),
{
}

/// Once a state has been added under the name `added`, a switch to that name
/// succeeds and leaves the scene of that name in control. Unless the scene
/// that ran before went by the same name, the registry then holds a state
/// under the name of that scene.
pub proof fn lemma_switch_to_added(names: Set<Seq<char>>, active: Seq<char>, added: Seq<char>)
    ensures
        switch_finds(names.insert(added), active, added),
        active_after_switch(names.insert(added), active, added) == added,
        active != added ==> names_after_switch(names.insert(added), active, added).contains(
            active,
        ),
{
}

/// A switch to a name that neither the registry nor the scene in control
/// goes by fails. The scene that ran has been unloaded all the same: its
/// state is in the registry, no other name has come or gone, and that scene
/// is still the one in control.
pub proof fn lemma_switch_to_unknown(names: Set<Seq<char>>, active: Seq<char>, target: Seq<char>)
    requires
        !names.contains(target),
        target != active,
    ensures
        !switch_finds(names, active, target),
        names_after_switch(names, active, target) == names.insert(active),
        names_after_switch(names, active, target).contains(active),
        active_after_switch(names, active, target) == active,
{
}

/// Of two states added under one name, the registry keeps the second: the
/// manager is as if the first had never been added.
pub proof fn lemma_second_add_wins<T: Loadable>(
    before: SceneManager<T>,
    first: <T::Scene as Scene>::State,
    between: SceneManager<T>,
    second: <T::Scene as Scene>::State,
    after: SceneManager<T>,
)
    requires
        before.added(first, &between),
        between.added(second, &after),
        first.name_spec() == second.name_spec(),
    ensures
        before.added(second, &after),
        after.registry().contains_key(second.name_spec()),
        after.registry()[second.name_spec()] == second,
{
    assert(after.registry() =~= before.registry().insert(second.name_spec(), second));
}

/// Whatever a switch makes of a manager, the names that it leaves in the
/// registry and the name of the scene that it leaves in control are those
/// that follow from the names before; and every state is still kept under
/// the name that it reports.
pub proof fn lemma_switch_by_names<T: Loadable>(
    before: SceneManager<T>,
    target: Seq<char>,
    after: SceneManager<T>,
)
    requires
        before.well_kept(),
        before.switched(target, &after),
    ensures
        after.names() == names_after_switch(before.names(), before.current_name(), target),
        after.current_name() == active_after_switch(
            before.names(),
            before.current_name(),
            target,
        ),
        after.well_kept(),
{
    assert(after.names() =~= names_after_switch(before.names(), before.current_name(), target));
}

/// A switch to a registered name other than that of the scene in control
/// succeeds, and the scene that takes control is loaded from the state that
/// the registry held under that name.
pub proof fn lemma_switch_loads_registered<T: Loadable>(
    before: SceneManager<T>,
    target: Seq<char>,
    after: SceneManager<T>,
)
    requires
        before.well_kept(),
        before.switched(target, &after),
        before.registry().contains_key(target),
        target != before.current_name(),
    ensures
        exists|spent: <T::Scene as Scene>::State| #[trigger]
            loaded(&before.registry()[target], &spent, &after.current_scene()),
        after.current_name() == target,
        !after.registry().contains_key(target),
{
}

/// Of two states added under one name, a switch to that name loads the
/// second, provided the scene in control goes by another name.
pub proof fn lemma_switch_loads_second<T: Loadable>(
    before: SceneManager<T>,
    first: <T::Scene as Scene>::State,
    between: SceneManager<T>,
    second: <T::Scene as Scene>::State,
    added: SceneManager<T>,
    after: SceneManager<T>,
)
    requires
        before.well_kept(),
        before.added(first, &between),
        between.added(second, &added),
        first.name_spec() == second.name_spec(),
        second.name_spec() != before.current_name(),
        added.switched(second.name_spec(), &after),
    ensures
        exists|spent: <T::Scene as Scene>::State| #[trigger]
            loaded(&second, &spent, &after.current_scene()),
        after.current_name() == second.name_spec(),
{
    lemma_second_add_wins(before, first, between, second, added);
    lemma_switch_loads_registered(added, second.name_spec(), after);
}

} // verus!
