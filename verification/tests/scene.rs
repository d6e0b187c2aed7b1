use goodies::scene::{Loadable, Scene, SceneError, SceneManager, SceneState};
use std::time::Duration;

#[derive(Clone, Debug, PartialEq)]
struct TestSceneState {
    value: i32,
    name: String,
}

impl SceneState for TestSceneState {
    type Scene = TestScene;

    fn load(&mut self) -> TestScene {
        TestScene(self.clone())
    }

    fn name(&self) -> String {
        self.name.clone()
    }
}

#[derive(Clone, Debug, PartialEq)]
struct TestScene(TestSceneState);

impl Scene for TestScene {
    type State = TestSceneState;
    type Context = ();
    type Error = String;

    fn unload(&mut self) -> TestSceneState {
        self.0.clone()
    }

    fn update(&mut self, _ctx: &mut (), _dt: Duration) -> Result<(), String> {
        Ok(())
    }

    fn draw(&mut self, _ctx: &mut ()) -> Result<(), String> {
        Ok(())
    }
}

struct NoData;

impl Loadable for NoData {
    type Scene = TestScene;
    type Conf = ();

    fn load(_ctx: &mut (), _conf: &()) -> Result<Self, String> {
        Ok(NoData)
    }

    fn default_scene() -> TestSceneState {
        state("menu", 42)
    }
}

fn state(name: &str, value: i32) -> TestSceneState {
    TestSceneState { name: name.to_string(), value }
}

fn manager(name: &str, value: i32) -> SceneManager<NoData> {
    SceneManager::new(state(name, value), NoData)
}

fn active(sm: &mut SceneManager<NoData>) -> TestSceneState {
    sm.current_mut().unload()
}

#[test]
fn test_scene_switching() {
    let default_scene = TestSceneState {
        name: "default scene".to_string(),
        value: 42,
    };
    let new_scene = TestSceneState {
        name: "other scene".to_string(),
        value: 23,
    };
    let mut sm = SceneManager::new(default_scene, NoData);
    sm.add(new_scene);

    {
        let s = sm.current_mut().unload();
        assert_eq!(s.name(), "default scene");
    }

    let res = sm.switch_scene("other scene");
    assert!(res.is_ok());

    {
        let s = sm.current_mut().unload();
        assert_eq!(s.name(), "other scene");
    }

    let res = sm.switch_scene("non existent scene");
    assert!(res.is_err());
}

#[test]
fn round_trip_keeps_the_name() {
    let mut s = state("n", 5);
    let back = s.load().unload();
    assert_eq!(back.name(), "n");
    assert_eq!(back, state("n", 5));
    let mut s = back;
    for _ in 0..25 {
        s = s.load().unload();
        assert_eq!(s.name(), "n");
    }
    assert_eq!(s, state("n", 5));
}

#[test]
fn reloading_brings_no_other_name_into_the_registry() {
    let mut sm = manager("n", 5);
    for _ in 0..25 {
        assert_eq!(sm.switch_scene("n"), Ok(()));
        assert_eq!(active(&mut sm), state("n", 5));
    }
    assert_eq!(
        sm.switch_scene("m"),
        Err(SceneError::ResourceNotFound("m".to_string()))
    );
    assert_eq!(
        sm.switch_scene(""),
        Err(SceneError::ResourceNotFound(String::new()))
    );
    assert_eq!(sm.switch_scene("n"), Ok(()));
}

#[test]
fn switch_to_an_added_state() {
    let mut sm = manager("a", 1);
    sm.add(state("b", 2));
    assert_eq!(sm.switch_scene("b"), Ok(()));
    assert_eq!(sm.current().0, state("b", 2));
    assert_eq!(active(&mut sm).name(), "b");
    // the scene that ran before is registered under its own name
    assert_eq!(sm.switch_scene("a"), Ok(()));
    assert_eq!(sm.current().0, state("a", 1));
}

#[test]
fn add_leaves_the_scene_in_control() {
    let mut sm = manager("a", 1);
    sm.add(state("b", 2));
    sm.add(state("c", 3));
    assert_eq!(sm.current().0, state("a", 1));
    assert_eq!(active(&mut sm).name(), "a");
}

#[test]
fn failed_switch_strands_the_scene_that_ran() {
    let mut sm = manager("a", 1);
    sm.add(state("b", 2));
    let res = sm.switch_scene("nonexistent");
    assert_eq!(
        res,
        Err(SceneError::ResourceNotFound("nonexistent".to_string()))
    );
    // no other scene has taken control: the one that ran was unloaded and
    // is still the one that the manager points at
    assert_eq!(sm.current().0, state("a", 1));
    assert_eq!(active(&mut sm).name(), "a");
    // its state sits in the registry, so a switch to its name finds it
    assert_eq!(sm.switch_scene("a"), Ok(()));
    assert_eq!(sm.current().0, state("a", 1));
    // and the other states are where they were
    assert_eq!(sm.switch_scene("b"), Ok(()));
    assert_eq!(sm.current().0, state("b", 2));
}

#[test]
fn failed_switch_registers_what_the_scene_unloads_into() {
    let mut sm = manager("a", 1);
    sm.add(state("b", 2));
    // work on the live scene, so that it differs from the state it came from
    sm.current_mut().0.value = 100;
    assert!(sm.switch_scene("nowhere").is_err());
    assert_eq!(sm.switch_scene("b"), Ok(()));
    assert_eq!(sm.switch_scene("a"), Ok(()));
    assert_eq!(sm.current().0, state("a", 100));
}

#[test]
fn second_add_under_a_name_wins() {
    let mut sm = manager("a", 1);
    sm.add(state("s", 10));
    sm.add(state("s", 20));
    assert_eq!(sm.switch_scene("s"), Ok(()));
    assert_eq!(sm.current().0, state("s", 20));
    assert_eq!(active(&mut sm), state("s", 20));
    // nothing of the first is left behind
    assert_eq!(sm.switch_scene("a"), Ok(()));
    assert_eq!(sm.switch_scene("s"), Ok(()));
    assert_eq!(sm.current().0, state("s", 20));
}

#[test]
fn add_under_the_name_of_the_scene_in_control_is_overwritten_by_the_switch() {
    let mut sm = manager("a", 1);
    sm.add(state("a", 99));
    // the switch unloads the scene in control first, under the same name
    assert_eq!(sm.switch_scene("a"), Ok(()));
    assert_eq!(sm.current().0, state("a", 1));
}

#[test]
fn end_to_end() {
    let mut ctx = ();
    let mut sm: SceneManager<NoData> = match SceneManager::load(&mut ctx, &()) {
        Ok(sm) => sm,
        Err(e) => panic!("{}", e),
    };
    assert_eq!(sm.current().0, state("menu", 42));
    sm.add(state("play", 7));

    assert_eq!(sm.switch_scene("play"), Ok(()));
    assert_eq!(active(&mut sm).name(), "play");
    assert_eq!(sm.current().0.value, 7);

    let res = sm.switch_scene("missing");
    assert_eq!(
        res,
        Err(SceneError::ResourceNotFound("missing".to_string()))
    );
    match res {
        Err(e) => assert!(e.message().contains("missing")),
        Ok(()) => unreachable!(),
    }

    assert_eq!(sm.switch_scene("menu"), Ok(()));
    assert_eq!(active(&mut sm).name(), "menu");
    assert_eq!(sm.current().0.value, 42);
}

#[test]
fn switch_keeps_what_the_scene_accumulated() {
    let mut sm = manager("menu", 0);
    sm.add(state("play", 0));
    sm.current_mut().0.value = 3;
    assert_eq!(sm.switch_scene("play"), Ok(()));
    sm.current_mut().0.value = 8;
    assert_eq!(sm.switch_scene("menu"), Ok(()));
    assert_eq!(sm.current().0, state("menu", 3));
    assert_eq!(sm.switch_scene("play"), Ok(()));
    assert_eq!(sm.current().0, state("play", 8));
}

#[test]
fn names_are_matched_exactly() {
    let mut sm = manager("menu", 1);
    sm.add(state("Play", 2));
    assert_eq!(
        sm.switch_scene("play"),
        Err(SceneError::ResourceNotFound("play".to_string()))
    );
    assert_eq!(
        sm.switch_scene("Play "),
        Err(SceneError::ResourceNotFound("Play ".to_string()))
    );
    assert_eq!(sm.switch_scene("Play"), Ok(()));
    assert_eq!(sm.current().0, state("Play", 2));
}

#[test]
fn the_loaded_state_leaves_the_registry() {
    let mut sm = manager("a", 1);
    sm.add(state("b", 2));
    assert_eq!(sm.switch_scene("b"), Ok(()));
    // the live scene is the only holder of "b" now: what it becomes is what
    // comes back, not the state that was added
    sm.current_mut().0.value = 50;
    assert_eq!(sm.switch_scene("a"), Ok(()));
    assert_eq!(sm.switch_scene("b"), Ok(()));
    assert_eq!(sm.current().0, state("b", 50));
}

#[test]
fn not_found_message() {
    let e = SceneError::ResourceNotFound("missing".to_string());
    assert_eq!(
        e.message(),
        "SceneManager: Asked to load scene missing but it did not exist?"
    );
    let e = SceneError::ResourceNotFound(String::new());
    assert_eq!(
        e.message(),
        "SceneManager: Asked to load scene  but it did not exist?"
    );
}
