use scene_manager::{NoInput, SavedScene, Scene, SceneManager, SceneNotFound};

#[derive(Clone, Debug, PartialEq)]
struct TestSavedScene {
    value: i32,
    name: String,
}

impl SavedScene for TestSavedScene {
    type Live = TestScene;

    fn load(&self) -> TestScene {
        TestScene(self.clone())
    }

    fn name(&self) -> &str {
        &self.name
    }
}

#[derive(Clone, Debug)]
struct TestScene(TestSavedScene);

impl Scene for TestScene {
    type Saved = TestSavedScene;
    type Context = ();
    type Error = String;
    type MouseButton = u8;
    type MouseState = u32;
    type Keycode = i32;
    type KeyMod = u16;

    fn update(&mut self, _ctx: &mut (), _dt: std::time::Duration) -> Result<(), String> {
        Ok(())
    }

    fn draw(&mut self, _ctx: &mut ()) -> Result<(), String> {
        Ok(())
    }

    fn unload(&mut self) -> TestSavedScene {
        self.0.clone()
    }
}

impl NoInput for TestScene {}

fn saved(name: &str, value: i32) -> TestSavedScene {
    TestSavedScene { name: name.to_string(), value }
}

#[test]
fn test_scene_switching() {
    let default_scene = TestSavedScene {
        name: "default scene".to_string(),
        value: 42,
    };
    let new_scene = TestSavedScene {
        name: "other scene".to_string(),
        value: 23,
    };
    let mut sm = SceneManager::new(default_scene, ());
    sm.store_mut().add(new_scene);

    {
        let s = sm.current_mut().unload();
        assert_eq!(s.name(), "default scene");
    }
    let res = sm.switch_scene("other scene");
    assert!(res.is_ok());

    {
        let s = sm.current_mut().unload();
        assert_eq!(s.name(), "other scene");
    }

    let res = sm.switch_scene("non existent scene");
    assert!(res.is_err());
}

#[test]
fn new_manager_loads_and_registers_the_starting_scene() {
    let sm = SceneManager::new(saved("default", 42), 7u8);
    assert_eq!(sm.current().0, saved("default", 42));
    assert_eq!(sm.store().get("default"), Some(&saved("default", 42)));
    assert_eq!(sm.store().game_data, 7);
    assert_eq!(sm.next_scene(), None);
}

#[test]
fn switch_to_never_registered_name_fails_with_that_name() {
    let mut sm = SceneManager::new(saved("A", 1), ());
    let res = sm.switch_scene("X");
    assert_eq!(res, Err(SceneNotFound { name: "X".to_string() }));
}

#[test]
fn failed_switch_names_the_scene_in_its_message() {
    let mut sm = SceneManager::new(saved("A", 1), ());
    let err = sm.switch_scene("missing").unwrap_err();
    assert_eq!(err.name, "missing");
    assert_eq!(
        err.message(),
        "SceneManager: Asked to load scene missing but it did not exist?"
    );
}

#[test]
fn failed_switch_leaves_the_old_scene_live_and_stored() {
    let mut sm = SceneManager::new(saved("A", 1), ());
    sm.current_mut().0.value = 5;
    assert!(sm.switch_scene("X").is_err());
    assert_eq!(sm.current().0, saved("A", 5));
    assert_eq!(sm.store().get("A"), Some(&saved("A", 5)));
    assert_eq!(sm.store().get("X"), None);
    assert_eq!(sm.current_mut().unload(), saved("A", 5));
}

#[test]
fn switch_to_registered_scene_makes_it_current() {
    let mut sm = SceneManager::new(saved("A", 1), ());
    sm.store_mut().add(saved("B", 2));
    assert_eq!(sm.switch_scene("B"), Ok(()));
    let s = sm.current_mut().unload();
    assert_eq!(s.name(), "B");
    assert_eq!(s.value, 2);
}

#[test]
fn switch_stores_the_unloaded_scene_under_its_name() {
    let mut sm = SceneManager::new(saved("A", 1), ());
    sm.store_mut().add(saved("B", 2));
    sm.current_mut().0.value = 10;
    assert_eq!(sm.switch_scene("B"), Ok(()));
    assert_eq!(sm.store().get("A"), Some(&saved("A", 10)));
    assert_eq!(sm.store().get("B"), Some(&saved("B", 2)));
}

#[test]
fn switch_there_and_back_restores_the_scene() {
    let mut sm = SceneManager::new(saved("A", 1), ());
    sm.store_mut().add(saved("B", 2));
    sm.current_mut().0.value = 99;
    let first = sm.current().clone().unload();
    assert_eq!(first, saved("A", 99));
    assert_eq!(sm.switch_scene("B"), Ok(()));
    assert_eq!(sm.switch_scene("A"), Ok(()));
    let restored = sm.current_mut().unload();
    assert_eq!(restored.name(), "A");
    assert_eq!(restored, first);
}

#[test]
fn switch_to_the_current_scenes_own_name_reloads_it() {
    let mut sm = SceneManager::new(saved("A", 1), ());
    sm.current_mut().0.value = 3;
    assert_eq!(sm.switch_scene("A"), Ok(()));
    assert_eq!(sm.current().0, saved("A", 3));
}

#[test]
fn last_registered_scene_of_a_name_wins() {
    let mut sm = SceneManager::new(saved("A", 1), ());
    sm.store_mut().add(saved("B", 2));
    sm.store_mut().add(saved("B", 3));
    assert_eq!(sm.store().get("B"), Some(&saved("B", 3)));
    assert_eq!(sm.switch_scene("B"), Ok(()));
    assert_eq!(sm.current_mut().unload(), saved("B", 3));
}

#[test]
fn direct_switch_drops_a_pending_request() {
    let mut sm = SceneManager::new(saved("A", 1), ());
    sm.store_mut().add(saved("B", 2));
    sm.store_mut().add(saved("C", 3));
    sm.request_switch("B");
    assert_eq!(sm.next_scene(), Some("B"));
    assert_eq!(sm.switch_scene("C"), Ok(()));
    assert_eq!(sm.next_scene(), None);
    assert_eq!(sm.current().0, saved("C", 3));
}

#[test]
fn shared_data_is_open_for_reading_and_writing() {
    let mut sm = SceneManager::new(saved("A", 1), vec![1, 2]);
    sm.store_mut().game_data.push(3);
    assert_eq!(sm.store().game_data, vec![1, 2, 3]);
    assert_eq!(sm.switch_scene("A"), Ok(()));
    assert_eq!(sm.store().game_data, vec![1, 2, 3]);
}
