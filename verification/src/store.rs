//! The store: saved scenes by name, and the data that all scenes share.
use crate::registry::{keyed_by_name, Registry};
use crate::scene::SavedScene;
use vstd::prelude::*;

verus! {

/// The saved scenes of an application, each under its own name, beside the
/// data that its scenes share.
pub struct SceneStore<T, P: SavedScene> {
    /// The saved scenes by name.
    pub states: Registry<P>,
    /// The data that all scenes share, open to whoever holds the store.
    pub game_data: T,
}

impl<T, P: SavedScene> SceneStore<T, P> {
    /// The saved scenes by name.
    pub open spec fn scenes(&self) -> Map<Seq<char>, P> {
        self.states@
    }

    /// A store that holds `game_data` and no scene.
    pub fn new(game_data: T) -> (store: Self)
        ensures
            store.scenes() == Map::<Seq<char>, P>::empty(),
            store.game_data == game_data,
            keyed_by_name(store.scenes()),
    {
        SceneStore { states: Registry::new(), game_data }
    }

    /// Registers `scene_state` under its own name. A scene that was there
    /// under that name is replaced: the last one added is the one that stays.
    pub fn add(&mut self, scene_state: P)
        ensures
            final(self).scenes() == old(self).scenes().insert(
                scene_state.spec_name(),
                scene_state,
            ),
            final(self).game_data == old(self).game_data,
            keyed_by_name(final(self).scenes()),
    {
        self.states.insert(scene_state);
    }

    /// The saved scene registered under `name`.
    pub fn get(&self, name: &str) -> (found: Option<&P>)
        ensures
            match found {
                Some(saved) => self.scenes().contains_key(name@) && *saved == self.scenes()[name@],
                None => !self.scenes().contains_key(name@),
            },
            keyed_by_name(self.scenes()),
    {
        self.states.get(name)
    }
}

} // verus!
