//! Scenes, their dormant states, and the manager that moves between them.
//!
//! A game is in one mode at a time: a menu, a level, a pause screen. The
//! mode that runs is a [`Scene`]; every other mode waits as a [`SceneState`]
//! under its name. A [`SceneManager`] owns the scene in control and the
//! registry of the states, forwards each frame to the scene, and on
//! [`SceneManager::switch_scene`] unloads the scene into its state and loads
//! the state that was asked for.
//!
//! The modes are the game's own types. The contracts of the two traits say
//! what the manager relies on: that a mode keeps its name through loading,
//! unloading and every frame. Verus holds an implementation written in
//! Verus to that; of one written outside it is taken on trust. What else a
//! mode does is its own business, which it can describe in the trait's spec
//! functions; the manager's contracts hand those descriptions on.
//!
//! An implementation outside Verus writes the executable functions only:
//! the spec functions have bodies here that promise nothing.

use crate::registry::Registry;
use std::time::Duration;
use vstd::prelude::*;

verus! {

/// A dormant mode: the data of a mode that is not running, under a name.
pub trait SceneState: Sized {
    /// The live form of this mode.
    type Scene;

    /// The name that the state is registered under. It is left open here;
    /// an implementation in Verus says what it is.
    open spec fn name_spec(&self) -> Seq<char> {
        arbitrary()
    }

    /// The name that a live scene goes by: the name of the state that it was
    /// loaded from, which is also the name of the state that it unloads into.
    /// It is left open here; an implementation in Verus says what it is.
    /// (It stands in this trait because the trait of scenes builds on this
    /// one, and not the other way round.)
    open spec fn live_name(scene: &Self::Scene) -> Seq<char> {
        arbitrary()
    }

    /// Whether `load` may hand out `scene` for this state and leave `after`
    /// behind. Unless an implementation says more, anything may come.
    open spec fn loads(&self, after: &Self, scene: &Self::Scene) -> bool {
        true
    }

    /// Makes a live scene of the state. The scene goes by the state's name,
    /// and the state keeps its name.
    fn load(&mut self) -> (scene: Self::Scene)
        ensures
            old(self).loads(final(self), &scene),
            Self::live_name(&scene) == old(self).name_spec(),
            final(self).name_spec() == old(self).name_spec(),
    ;

    /// The state's name.
    fn name(&self) -> (name: String)
        ensures
            name@ == self.name_spec(),
    ;
}

/// A live mode: it runs frame by frame, and can be suspended into a state.
pub trait Scene: Sized {
    /// The dormant form of this mode.
    type State: SceneState<Scene = Self>;

    /// The handle of the host that a frame works on.
    type Context;

    /// What a frame can fail with.
    type Error;

    /// Whether `unload` may hand out `state` for this scene and leave `after`
    /// behind. Unless an implementation says more, anything may come.
    open spec fn unloads(&self, after: &Self, state: &Self::State) -> bool {
        true
    }

    /// Whether `update` over `dt` may take this scene and `ctx` to `after`
    /// and `ctx_after` with `outcome`. Unless an implementation says more,
    /// anything may come.
    open spec fn updates(
        &self,
        ctx: &Self::Context,
        dt: Duration,
        after: &Self,
        ctx_after: &Self::Context,
        outcome: Result<(), Self::Error>,
    ) -> bool {
        true
    }

    /// Whether `draw` may take this scene and `ctx` to `after` and
    /// `ctx_after` with `outcome`. Unless an implementation says more,
    /// anything may come.
    open spec fn draws(
        &self,
        ctx: &Self::Context,
        after: &Self,
        ctx_after: &Self::Context,
        outcome: Result<(), Self::Error>,
    ) -> bool {
        true
    }

    /// Suspends the scene. The state carries the scene's name, and the scene
    /// keeps it.
    fn unload(&mut self) -> (state: Self::State)
        ensures
            old(self).unloads(final(self), &state),
            state.name_spec() == Self::State::live_name(old(self)),
            Self::State::live_name(final(self)) == Self::State::live_name(old(self)),
    ;

    /// Advances the scene by `dt`. A scene with nothing to do in a frame
    /// succeeds and leaves everything as it is.
    fn update(&mut self, ctx: &mut Self::Context, dt: Duration) -> (outcome: Result<
        (),
        Self::Error,
    >)
        ensures
            old(self).updates(old(ctx), dt, final(self), final(ctx), outcome),
            Self::State::live_name(final(self)) == Self::State::live_name(old(self)),
    ;

    /// Renders the scene. A scene with nothing to show succeeds and leaves
    /// everything as it is.
    fn draw(&mut self, ctx: &mut Self::Context) -> (outcome: Result<(), Self::Error>)
        ensures
            old(self).draws(old(ctx), final(self), final(ctx), outcome),
            Self::State::live_name(final(self)) == Self::State::live_name(old(self)),
    ;
}

/// What `load` owes: `scene` is one that `before` may load into, it goes by
/// the state's name, and the state keeps its name.
pub open spec fn loaded<S: SceneState>(before: &S, after: &S, scene: &S::Scene) -> bool {
    &&& before.loads(after, scene)
    &&& S::live_name(scene) == before.name_spec()
    &&& after.name_spec() == before.name_spec()
}

/// What `unload` owes: `state` is one that `before` may unload into, it
/// carries the scene's name, and the scene keeps its name.
pub open spec fn unloaded<L: Scene>(before: &L, after: &L, state: &L::State) -> bool {
    &&& before.unloads(after, state)
    &&& state.name_spec() == L::State::live_name(before)
    &&& L::State::live_name(after) == L::State::live_name(before)
}

/// What `update` owes: the frame is one that the scene admits, and the scene
/// keeps its name.
pub open spec fn updated<L: Scene>(
    before: &L,
    ctx: &L::Context,
    dt: Duration,
    after: &L,
    ctx_after: &L::Context,
    outcome: Result<(), L::Error>,
) -> bool {
    &&& before.updates(ctx, dt, after, ctx_after, outcome)
    &&& L::State::live_name(after) == L::State::live_name(before)
}

/// What `draw` owes: the frame is one that the scene admits, and the scene
/// keeps its name.
pub open spec fn drawn<L: Scene>(
    before: &L,
    ctx: &L::Context,
    after: &L,
    ctx_after: &L::Context,
    outcome: Result<(), L::Error>,
) -> bool {
    &&& before.draws(ctx, after, ctx_after, outcome)
    &&& L::State::live_name(after) == L::State::live_name(before)
}

/// The host's game data, which also names the mode that the game starts in.
pub trait Loadable: Sized {
    /// The live form of the game's modes.
    type Scene: Scene;

    /// The host's configuration record.
    type Conf;

    /// Whether `load` may take `ctx` to `ctx_after` with `outcome`. Unless
    /// an implementation says more, anything may come.
    open spec fn provides(
        ctx: &<Self::Scene as Scene>::Context,
        conf: &Self::Conf,
        ctx_after: &<Self::Scene as Scene>::Context,
        outcome: Result<Self, <Self::Scene as Scene>::Error>,
    ) -> bool {
        true
    }

    /// Whether `default_scene` may hand out `state`. Unless an
    /// implementation says more, any state may come.
    open spec fn starts_in(state: &<Self::Scene as Scene>::State) -> bool {
        true
    }

    /// Builds the game data from the host's context and configuration.
    fn load(ctx: &mut <Self::Scene as Scene>::Context, conf: &Self::Conf) -> (outcome: Result<
        Self,
        <Self::Scene as Scene>::Error,
    >)
        ensures
            Self::provides(old(ctx), conf, final(ctx), outcome),
    ;

    /// The state of the mode that the game starts in.
    fn default_scene() -> (state: <Self::Scene as Scene>::State)
        ensures
            Self::starts_in(&state),
    ;
}

/// Why a switch did not take place.
#[derive(Debug, PartialEq, Eq)]
pub enum SceneError {
    /// No state is registered under the name that was asked for; the name is
    /// carried along.
    ResourceNotFound(String),
}

/// The text that reports that no scene goes by `name`.
pub open spec fn not_found_message(name: Seq<char>) -> Seq<char> {
    "SceneManager: Asked to load scene "@ + name + " but it did not exist?"@
}

impl SceneError {
    /// The name that the failed switch asked for.
    pub open spec fn wanted(&self) -> Seq<char> {
        match self {
            SceneError::ResourceNotFound(name) => name@,
        }
    }

    /// The error as a line of text.
    pub fn message(&self) -> (text: String)
        ensures
            text@ == not_found_message(self.wanted()),
    {
        match self {
            SceneError::ResourceNotFound(name) => {
                let mut text = String::from_str("SceneManager: Asked to load scene ");
                text.append(name.as_str());
                text.append(" but it did not exist?");
                text
            },
        }
    }
}

/// Whether a switch to `target` finds a state to load, in a manager that
/// holds states under `names` while the scene `active` runs: the running
/// scene is put away first, so its own name is found too.
pub open spec fn switch_finds(names: Set<Seq<char>>, active: Seq<char>, target: Seq<char>) -> bool {
    names.contains(target) || target == active
}

/// The names that a manager holds states under after a switch to `target`.
/// The scene that ran is put away under its name; the state that is loaded
/// leaves the registry.
pub open spec fn names_after_switch(
    names: Set<Seq<char>>,
    active: Seq<char>,
    target: Seq<char>,
) -> Set<Seq<char>> {
    if switch_finds(names, active, target) {
        names.insert(active).remove(target)
    } else {
        names.insert(active)
    }
}

/// The name of the scene that is in control after a switch to `target`.
pub open spec fn active_after_switch(
    names: Set<Seq<char>>,
    active: Seq<char>,
    target: Seq<char>,
) -> Seq<char> {
    if switch_finds(names, active, target) {
        target
    } else {
        active
    }
}

/// The dormant states of a game, each kept under the name that it reports.
struct Dormant<S: SceneState> {
    by_name: Registry<S>,
}

impl<S: SceneState> Dormant<S> {
    #[verifier::type_invariant]
    spec fn well_formed(self) -> bool {
        forall|name: Seq<char>| #[trigger]
            self.by_name@.contains_key(name) ==> self.by_name@[name].name_spec() == name
    }

    closed spec fn states(&self) -> Map<Seq<char>, S> {
        self.by_name@
    }

    fn new() -> (dormant: Self)
        ensures
            dormant.states() == Map::<Seq<char>, S>::empty(),
    {
        Dormant { by_name: Registry::new() }
    }

    /// Keeps `state` under the name that it reports, in place of whatever was
    /// kept under that name.
    fn put(&mut self, state: S)
        ensures
            final(self).states() == old(self).states().insert(state.name_spec(), state),
    {
        proof {
            use_type_invariant(&*self);
        }
        let name = state.name();
        let mut by_name = Registry::new();
        core::mem::swap(&mut by_name, &mut self.by_name);
        by_name.insert(name, state);
        self.by_name = by_name;
    }

    /// Takes out the state kept under `name`, if there is one.
    fn take(&mut self, name: &str) -> (taken: Option<S>)
        ensures
            match taken {
                Some(state) => old(self).states().contains_key(name@) && state == old(
                    self,
                ).states()[name@] && state.name_spec() == name@,
                None => !old(self).states().contains_key(name@),
            },
            final(self).states() == old(self).states().remove(name@),
    {
        proof {
            use_type_invariant(&*self);
        }
        let mut by_name = Registry::new();
        core::mem::swap(&mut by_name, &mut self.by_name);
        let taken = by_name.remove(name);
        self.by_name = by_name;
        taken
    }
}

/// The owner of the one scene that runs and of the states of all the others.
pub struct SceneManager<T: Loadable> {
    states: Dormant<<T::Scene as Scene>::State>,
    current: T::Scene,
    game_data: T,
}

impl<T: Loadable> SceneManager<T> {
    /// The registry: the dormant states, by name.
    pub closed spec fn registry(&self) -> Map<Seq<char>, <T::Scene as Scene>::State> {
        self.states.states()
    }

    /// The scene that is in control.
    pub closed spec fn current_scene(&self) -> T::Scene {
        self.current
    }

    /// The host's game data.
    pub closed spec fn game_data(&self) -> T {
        self.game_data
    }

    /// The names that states are registered under.
    pub open spec fn names(&self) -> Set<Seq<char>> {
        self.registry().dom()
    }

    /// The name that the scene in control goes by.
    pub open spec fn current_name(&self) -> Seq<char> {
        <T::Scene as Scene>::State::live_name(&self.current_scene())
    }

    /// Every state in the registry is kept under the name that it reports.
    /// This holds of every manager that the functions below hand out or
    /// leave behind.
    pub open spec fn well_kept(&self) -> bool {
        forall|name: Seq<char>| #[trigger]
            self.registry().contains_key(name) ==> self.registry()[name].name_spec() == name
    }

    /// Whether the manager is one that starts in `first`: the scene in
    /// control was loaded from `first`, and the registry is empty.
    pub open spec fn began_with(&self, first: <T::Scene as Scene>::State) -> bool {
        &&& self.registry() == Map::<Seq<char>, <T::Scene as Scene>::State>::empty()
        &&& exists|spent: <T::Scene as Scene>::State| #[trigger]
            loaded(&first, &spent, &self.current_scene())
    }

    /// Whether `after` is what a switch to `target` may make of this
    /// manager. The scene in control is unloaded and its state registered
    /// under the scene's name, in place of any state of that name. If the
    /// registry then holds a state for `target`, that state leaves the
    /// registry and the scene loaded from it takes control; if not, the
    /// registry keeps the unloaded state and the unloaded scene stays in
    /// control.
    pub open spec fn switched(&self, target: Seq<char>, after: &Self) -> bool {
        exists|parked: T::Scene, stored: <T::Scene as Scene>::State|
            {
                &&& #[trigger] unloaded(&self.current_scene(), &parked, &stored)
                &&& after.game_data() == self.game_data()
                &&& {
                    let kept = self.registry().insert(stored.name_spec(), stored);
                    if kept.contains_key(target) {
                        &&& after.registry() == kept.remove(target)
                        &&& exists|spent: <T::Scene as Scene>::State| #[trigger]
                            loaded(&kept[target], &spent, &after.current_scene())
                    } else {
                        &&& after.registry() == kept
                        &&& after.current_scene() == parked
                    }
                }
            }
    }

    /// Whether `after` is this manager with `state` registered under the
    /// name that it reports, in place of any state of that name.
    pub open spec fn added(&self, state: <T::Scene as Scene>::State, after: &Self) -> bool {
        &&& after.registry() == self.registry().insert(state.name_spec(), state)
        &&& after.current_scene() == self.current_scene()
        &&& after.game_data() == self.game_data()
    }

    /// A manager that starts in `default_scene` and carries `game_data`.
    pub fn new(default_scene: <T::Scene as Scene>::State, game_data: T) -> (manager: Self)
        ensures
            manager.began_with(default_scene),
            manager.current_name() == default_scene.name_spec(),
            manager.game_data() == game_data,
            manager.well_kept(),
    {
        let mut default_scene_state = default_scene;
        let current = default_scene_state.load();
        let manager = SceneManager { states: Dormant::new(), current, game_data };
        assert(loaded(&default_scene, &default_scene_state, &manager.current_scene()));
        manager
    }

    /// Starts the game: a manager that starts in the host's default scene,
    /// with the game data that the host loads. Where the host fails to load
    /// them, its error is handed on as it is.
    pub fn load(ctx: &mut <T::Scene as Scene>::Context, conf: &T::Conf) -> (outcome: Result<
        Self,
        <T::Scene as Scene>::Error,
    >)
        ensures
            T::provides(
                old(ctx),
                conf,
                final(ctx),
                match outcome {
                    Ok(manager) => Ok(manager.game_data()),
                    Err(e) => Err(e),
                },
            ),
            outcome matches Ok(manager) ==> manager.well_kept() && exists|
                first: <T::Scene as Scene>::State,
            | #[trigger] T::starts_in(&first) && manager.began_with(first),
    {
        let mut default_scene_state = T::default_scene();
        let ghost first = default_scene_state;
        let current = default_scene_state.load();
        match T::load(ctx, conf) {
            Ok(game_data) => {
                let manager = SceneManager { states: Dormant::new(), current, game_data };
                assert(loaded(&first, &default_scene_state, &manager.current_scene()));
                assert(T::starts_in(&first) && manager.began_with(first));
                Ok(manager)
            },
            Err(e) => Err(e),
        }
    }

    /// Leaves the scene in control for the one that goes by `scene_name`.
    ///
    /// The scene in control is unloaded first, and its state registered.
    /// Where no state goes by `scene_name` after that, the switch fails: the
    /// unloaded state stays in the registry, and the unloaded scene stays in
    /// control.
    pub fn switch_scene(&mut self, scene_name: &str) -> (res: Result<(), SceneError>)
        ensures
            res is Ok <==> switch_finds(
                old(self).names(),
                old(self).current_name(),
                scene_name@,
            ),
            res matches Err(e) ==> e.wanted() == scene_name@,
            final(self).names() == names_after_switch(
                old(self).names(),
                old(self).current_name(),
                scene_name@,
            ),
            final(self).current_name() == active_after_switch(
                old(self).names(),
                old(self).current_name(),
                scene_name@,
            ),
            forall|name: Seq<char>|
                name != old(self).current_name() && name != scene_name@ && old(
                    self,
                ).registry().contains_key(name) ==> #[trigger] final(self).registry()[name] == old(
                    self,
                ).registry()[name],
            old(self).switched(scene_name@, final(self)),
            final(self).game_data() == old(self).game_data(),
            final(self).well_kept(),
    {
        let ghost before = *self;
        let old_scene_state = self.current.unload();
        let ghost parked = self.current;
        let ghost stored = old_scene_state;
        self.states.put(old_scene_state);
        let ghost kept = self.states.states();
        let taken = self.states.take(scene_name);
        proof {
            use_type_invariant(&self.states);
        }
        match taken {
            Some(scene_state) => {
                let mut scene_state = scene_state;
                let new_scene = scene_state.load();
                self.current = new_scene;
                proof {
                    assert(loaded(&kept[scene_name@], &scene_state, &self.current_scene()));
                    assert(unloaded(&before.current_scene(), &parked, &stored));
                    assert(self.names() =~= names_after_switch(
                        before.names(),
                        before.current_name(),
                        scene_name@,
                    ));
                }
                Ok(())
            },
            None => {
                proof {
                    assert(unloaded(&before.current_scene(), &parked, &stored));
                    assert(self.registry() =~= kept);
                    assert(self.names() =~= names_after_switch(
                        before.names(),
                        before.current_name(),
                        scene_name@,
                    ));
                }
                Err(SceneError::ResourceNotFound(scene_name.to_owned()))
            },
        }
    }

    /// Registers `scene_state` under the name that it reports, in place of
    /// any state of that name.
    pub fn add(&mut self, scene_state: <T::Scene as Scene>::State)
        ensures
            old(self).added(scene_state, final(self)),
            final(self).well_kept(),
    {
        self.states.put(scene_state);
        proof {
            use_type_invariant(&self.states);
        }
    }

    /// The scene in control.
    pub fn current(&self) -> (scene: &T::Scene)
        ensures
            *scene == self.current_scene(),
            self.well_kept(),
    {
        proof {
            use_type_invariant(&self.states);
        }
        &self.current
    }

    /// The scene in control, to work on. What the caller leaves behind the
    /// reference is the scene in control afterwards.
    pub fn current_mut(&mut self) -> (scene: &mut T::Scene)
        ensures
            *scene == old(self).current_scene(),
            final(self).current_scene() == *final(scene),
            final(self).registry() == old(self).registry(),
            final(self).game_data() == old(self).game_data(),
            final(self).well_kept(),
    {
        proof {
            use_type_invariant(&self.states);
        }
        &mut self.current
    }

    /// One frame of simulation: exactly what the scene in control makes of
    /// it, with the outcome that the scene gives.
    pub fn update(&mut self, ctx: &mut <T::Scene as Scene>::Context, dt: Duration) -> (outcome:
        Result<(), <T::Scene as Scene>::Error>)
        ensures
            updated(
                &old(self).current_scene(),
                old(ctx),
                dt,
                &final(self).current_scene(),
                final(ctx),
                outcome,
            ),
            final(self).registry() == old(self).registry(),
            final(self).game_data() == old(self).game_data(),
            final(self).well_kept(),
    {
        proof {
            use_type_invariant(&self.states);
        }
        self.current.update(ctx, dt)
    }

    /// One frame of drawing: exactly what the scene in control makes of it,
    /// with the outcome that the scene gives.
    pub fn draw(&mut self, ctx: &mut <T::Scene as Scene>::Context) -> (outcome: Result<
        (),
        <T::Scene as Scene>::Error,
    >)
        ensures
            drawn(
                &old(self).current_scene(),
                old(ctx),
                &final(self).current_scene(),
                final(ctx),
                outcome,
            ),
            final(self).registry() == old(self).registry(),
            final(self).game_data() == old(self).game_data(),
            final(self).well_kept(),
    {
        proof {
            use_type_invariant(&self.states);
        }
        self.current.draw(ctx)
    }
}

} // verus!
