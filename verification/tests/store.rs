use scene_manager::{NoInput, SavedScene, Scene, SceneStore};

#[derive(Clone, Debug, PartialEq)]
struct Level {
    name: String,
    score: u32,
}

struct Playing(Level);

impl SavedScene for Level {
    type Live = Playing;

    fn name(&self) -> &str {
        &self.name
    }

    fn load(&self) -> Playing {
        Playing(self.clone())
    }
}

impl Scene for Playing {
    type Saved = Level;
    type Context = ();
    type Error = ();
    type MouseButton = ();
    type MouseState = ();
    type Keycode = ();
    type KeyMod = ();

    fn unload(&mut self) -> Level {
        self.0.clone()
    }

    fn update(&mut self, _ctx: &mut (), _dt: std::time::Duration) -> Result<(), ()> {
        Ok(())
    }

    fn draw(&mut self, _ctx: &mut ()) -> Result<(), ()> {
        Ok(())
    }
}

impl NoInput for Playing {}

fn level(name: &str, score: u32) -> Level {
    Level { name: name.to_string(), score }
}

#[test]
fn new_store_holds_the_data_and_no_scene() {
    let store: SceneStore<&str, Level> = SceneStore::new("shared");
    assert_eq!(store.game_data, "shared");
    assert_eq!(store.get("menu"), None);
    assert_eq!(store.get(""), None);
}

#[test]
fn added_scene_is_found_under_its_name() {
    let mut store = SceneStore::new(());
    store.add(level("menu", 1));
    store.add(level("game", 2));
    store.add(level("pause", 3));
    assert_eq!(store.get("menu"), Some(&level("menu", 1)));
    assert_eq!(store.get("game"), Some(&level("game", 2)));
    assert_eq!(store.get("pause"), Some(&level("pause", 3)));
    assert_eq!(store.get("Menu"), None);
    assert_eq!(store.get("men"), None);
}

#[test]
fn adding_under_a_taken_name_replaces_the_scene() {
    let mut store = SceneStore::new(());
    store.add(level("menu", 1));
    store.add(level("game", 2));
    store.add(level("menu", 9));
    assert_eq!(store.get("menu"), Some(&level("menu", 9)));
    assert_eq!(store.get("game"), Some(&level("game", 2)));
}

#[test]
fn adding_leaves_the_shared_data_alone() {
    let mut store = SceneStore::new(41u64);
    store.game_data += 1;
    store.add(level("menu", 1));
    assert_eq!(store.game_data, 42);
}

#[test]
fn empty_and_non_ascii_names_are_names_like_any_other() {
    let mut store = SceneStore::new(());
    store.add(level("", 1));
    store.add(level("szene ä", 2));
    assert_eq!(store.get(""), Some(&level("", 1)));
    assert_eq!(store.get("szene ä"), Some(&level("szene ä", 2)));
    assert_eq!(store.get("szene a"), None);
}
