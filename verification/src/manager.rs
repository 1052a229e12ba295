//! The manager: the one live scene, the store, and the switch between scenes.
use crate::error::{SceneNotFound, UpdateError};
use crate::registry::keyed_by_name;
use crate::scene::{InputScene, SavedScene, Scene};
use crate::store::SceneStore;
use std::time::Duration;
use vstd::prelude::*;

verus! {

/// The scenes of a store once `current` has been unloaded into it: the
/// saved form of `current` stands under its own name, in place of what was
/// there.
pub open spec fn unloaded_into<P: SavedScene>(
    scenes: Map<Seq<char>, P>,
    current: P::Live,
) -> Map<Seq<char>, P> {
    scenes.insert(current.spec_unload().spec_name(), current.spec_unload())
}

/// Whether a switch from `current` to `name` finds its target: after
/// `current` has been unloaded into the store, a scene stands under `name`.
pub open spec fn switch_finds<P: SavedScene>(
    scenes: Map<Seq<char>, P>,
    current: P::Live,
    name: Seq<char>,
) -> bool {
    unloaded_into(scenes, current).contains_key(name)
}

/// The saved scene that a switch from `current` to `name` loads: the one that
/// stands under `name` once `current` has been unloaded into the store; where
/// there is none, the saved form of `current`, so that the scene that was
/// live is live again.
pub open spec fn switch_loads<P: SavedScene>(
    scenes: Map<Seq<char>, P>,
    current: P::Live,
    name: Seq<char>,
) -> P {
    if switch_finds(scenes, current, name) {
        unloaded_into(scenes, current)[name]
    } else {
        current.spec_unload()
    }
}

/// Owns the one live scene and the store, hands the host's callbacks on to
/// the live scene, and switches to another scene on request.
pub struct SceneManager<T, P: SavedScene> {
    store: SceneStore<T, P>,
    current: P::Live,
    next_scene: Option<String>,
}

impl<T, P: SavedScene> SceneManager<T, P> {
    /// The store.
    pub closed spec fn spec_store(&self) -> &SceneStore<T, P> {
        &self.store
    }

    /// The live scene.
    pub closed spec fn spec_current(&self) -> &P::Live {
        &self.current
    }

    /// The name of the scene that a switch has been requested to and not yet
    /// made.
    pub closed spec fn pending(&self) -> Option<Seq<char>> {
        match self.next_scene {
            Some(name) => Some(name@),
            None => None,
        }
    }

    /// What `new` makes of a starting scene and the shared data.
    pub open spec fn starts_with(&self, starting_scene_state: P, game_data: T) -> bool {
        &&& self.store().scenes() == Map::<Seq<char>, P>::empty().insert(
            starting_scene_state.spec_name(),
            starting_scene_state,
        )
        &&& self.store().game_data == game_data
        &&& *self.current() == starting_scene_state.spec_load()
        &&& self.pending() is None
        &&& keyed_by_name(self.store().scenes())
    }

    /// What a switch to `name` makes of the manager `pre`.
    pub open spec fn switched(
        pre: Self,
        name: Seq<char>,
        post: Self,
        result: Result<(), SceneNotFound>,
    ) -> bool {
        let scenes = pre.store().scenes();
        let current = *pre.current();
        &&& post.store().scenes() == unloaded_into(scenes, current)
        &&& post.store().game_data == pre.store().game_data
        &&& *post.current() == switch_loads(scenes, current, name).spec_load()
        &&& post.pending() is None
        &&& keyed_by_name(post.store().scenes())
        &&& match result {
            Ok(()) => switch_finds(scenes, current, name),
            Err(e) => !switch_finds(scenes, current, name) && e.name@ == name,
        }
    }

    /// Whether `post` differs from `pre` in the live scene at most.
    pub open spec fn same_but_scene(pre: Self, post: Self) -> bool {
        &&& post.store() == pre.store()
        &&& post.pending() == pre.pending()
    }

    /// What one frame's `update` makes of the manager `pre` and the context.
    ///
    /// A switch that is pending is made first. Where it fails, the frame ends
    /// there with the name, and the context is left alone. Otherwise the live
    /// scene, the one just switched to if there was a switch, is updated, and
    /// its result is the frame's result.
    pub open spec fn updated(
        pre: Self,
        ctx: <P::Live as Scene>::Context,
        dt: Duration,
        post: Self,
        ctx_post: <P::Live as Scene>::Context,
        result: Result<(), UpdateError<<P::Live as Scene>::Error>>,
    ) -> bool {
        let scenes = pre.store().scenes();
        let current = *pre.current();
        &&& post.store().game_data == pre.store().game_data
        &&& post.pending() is None
        &&& match pre.pending() {
            None => {
                &&& post.store().scenes() == scenes
                &&& Self::scene_updated(current, ctx, dt, *post.current(), ctx_post, result)
            },
            Some(name) => {
                &&& post.store().scenes() == unloaded_into(scenes, current)
                &&& if switch_finds(scenes, current, name) {
                    Self::scene_updated(
                        switch_loads(scenes, current, name).spec_load(),
                        ctx,
                        dt,
                        *post.current(),
                        ctx_post,
                        result,
                    )
                } else {
                    &&& *post.current() == switch_loads(scenes, current, name).spec_load()
                    &&& ctx_post == ctx
                    &&& result matches Err(UpdateError::SceneNotFound(e))
                    &&& e.name@ == name
                }
            },
        }
    }

    /// Whether `result` is what the update of the scene `pre` came to, and
    /// `post` and `ctx_post` what it left.
    pub open spec fn scene_updated(
        pre: P::Live,
        ctx: <P::Live as Scene>::Context,
        dt: Duration,
        post: P::Live,
        ctx_post: <P::Live as Scene>::Context,
        result: Result<(), UpdateError<<P::Live as Scene>::Error>>,
    ) -> bool {
        match result {
            Ok(done) => P::Live::update_spec(pre, ctx, dt, post, ctx_post, Ok(done)),
            Err(UpdateError::Scene(e)) => P::Live::update_spec(
                pre,
                ctx,
                dt,
                post,
                ctx_post,
                Err(e),
            ),
            Err(UpdateError::SceneNotFound(_)) => false,
        }
    }

    /// A manager whose live scene is loaded from `starting_scene_state`. The
    /// starting scene is registered in the store under its name as well.
    pub fn new(starting_scene_state: P, game_data: T) -> (manager: Self)
        ensures
            manager.starts_with(starting_scene_state, game_data),
    {
        let starting_scene = starting_scene_state.load();
        let mut store = SceneStore::new(game_data);
        store.add(starting_scene_state);
        SceneManager { store, current: starting_scene, next_scene: None }
    }

    /// The store.
    #[verifier::when_used_as_spec(spec_store)]
    pub fn store(&self) -> (store: &SceneStore<T, P>)
        ensures
            store == self.spec_store(),
    {
        &self.store
    }

    /// The store, to register scenes in and to change the shared data.
    pub fn store_mut(&mut self) -> (store: &mut SceneStore<T, P>)
        ensures
            *store == *old(self).store(),
            *final(self).store() == *final(store),
            final(self).current() == old(self).current(),
            final(self).pending() == old(self).pending(),
    {
        &mut self.store
    }

    /// The live scene.
    #[verifier::when_used_as_spec(spec_current)]
    pub fn current(&self) -> (scene: &P::Live)
        ensures
            scene == self.spec_current(),
    {
        &self.current
    }

    /// The live scene, to act on it directly.
    pub fn current_mut(&mut self) -> (scene: &mut P::Live)
        ensures
            *scene == *old(self).current(),
            *final(self).current() == *final(scene),
            final(self).store() == old(self).store(),
            final(self).pending() == old(self).pending(),
    {
        &mut self.current
    }

    /// Switches to the scene registered under `scene_name`, at once.
    ///
    /// The live scene is unloaded and its saved form registered under its
    /// name. Then the scene under `scene_name` is loaded and made the live
    /// one. Where the store holds no scene of that name, the switch fails
    /// with the name, and the scene that was just unloaded is loaded again.
    /// Either way a request that was pending is dropped.
    pub fn switch_scene(&mut self, scene_name: &str) -> (result: Result<(), SceneNotFound>)
        ensures
            Self::switched(*old(self), scene_name@, *final(self), result),
    {
        let old_scene_state = self.current.unload();
        let old_scene_name = old_scene_state.name().to_owned();
        self.next_scene = None;
        self.store.add(old_scene_state);
        match self.store.get(scene_name) {
            Some(scene_state) => {
                self.current = scene_state.load();
                Ok(())
            },
            None => {
                // The scene that was live has been spent by `unload`. Its
                // saved form went into the store a moment ago and is found.
                if let Some(old_scene_state) = self.store.get(old_scene_name.as_str()) {
                    self.current = old_scene_state.load();
                }
                Err(SceneNotFound { name: scene_name.to_owned() })
            },
        }
    }

    /// Records a request to switch to the scene registered under
    /// `scene_name`. The switch is made at the start of the next `update`. A
    /// request that was pending is overwritten.
    pub fn request_switch(&mut self, scene_name: &str)
        ensures
            final(self).pending() == Some(scene_name@),
            final(self).store() == old(self).store(),
            final(self).current() == old(self).current(),
    {
        self.next_scene = Some(scene_name.to_owned());
    }

    /// The name of the scene that a switch has been requested to and not yet
    /// made.
    pub fn next_scene(&self) -> (name: Option<&str>)
        ensures
            match name {
                Some(name) => self.pending() == Some(name@),
                None => self.pending() is None,
            },
    {
        match &self.next_scene {
            Some(name) => Some(name.as_str()),
            None => None,
        }
    }

    /// One frame: makes the switch that is pending, if there is one, and
    /// then updates the live scene.
    pub fn update(&mut self, ctx: &mut <P::Live as Scene>::Context, dt: Duration) -> (result:
        Result<(), UpdateError<<P::Live as Scene>::Error>>)
        ensures
            Self::updated(*old(self), *old(ctx), dt, *final(self), *final(ctx), result),
    {
        if let Some(scene_name) = self.next_scene.take() {
            if let Err(e) = self.switch_scene(scene_name.as_str()) {
                return Err(UpdateError::SceneNotFound(e));
            }
        }
        match self.current.update(ctx, dt) {
            Ok(done) => Ok(done),
            Err(e) => Err(UpdateError::Scene(e)),
        }
    }

    /// Renders the live scene.
    pub fn draw(&mut self, ctx: &mut <P::Live as Scene>::Context) -> (result: Result<
        (),
        <P::Live as Scene>::Error,
    >)
        ensures
            Self::same_but_scene(*old(self), *final(self)),
            P::Live::draw_spec(
                *old(self).current(),
                *old(ctx),
                *final(self).current(),
                *final(ctx),
                result,
            ),
    {
        self.current.draw(ctx)
    }

    /// Hands a pointer button press on to the live scene.
    pub fn mouse_button_down_event(
        &mut self,
        button: <P::Live as Scene>::MouseButton,
        x: i32,
        y: i32,
    )
        ensures
            Self::same_but_scene(*old(self), *final(self)),
            P::Live::mouse_button_down_spec(
                *old(self).current(),
                button,
                x,
                y,
                *final(self).current(),
            ),
    {
        self.current.mouse_button_down_event(button, x, y)
    }

    /// Hands a pointer button release on to the live scene.
    pub fn mouse_button_up_event(
        &mut self,
        button: <P::Live as Scene>::MouseButton,
        x: i32,
        y: i32,
    )
        ensures
            Self::same_but_scene(*old(self), *final(self)),
            P::Live::mouse_button_up_spec(
                *old(self).current(),
                button,
                x,
                y,
                *final(self).current(),
            ),
    {
        self.current.mouse_button_up_event(button, x, y)
    }

    /// Hands a pointer motion on to the live scene.
    pub fn mouse_motion_event(
        &mut self,
        state: <P::Live as Scene>::MouseState,
        x: i32,
        y: i32,
        xrel: i32,
        yrel: i32,
    )
        ensures
            Self::same_but_scene(*old(self), *final(self)),
            P::Live::mouse_motion_spec(
                *old(self).current(),
                state,
                x,
                y,
                xrel,
                yrel,
                *final(self).current(),
            ),
    {
        self.current.mouse_motion_event(state, x, y, xrel, yrel)
    }

    /// Hands a turn of the wheel on to the live scene.
    pub fn mouse_wheel_event(&mut self, x: i32, y: i32)
        ensures
            Self::same_but_scene(*old(self), *final(self)),
            P::Live::mouse_wheel_spec(
                *old(self).current(),
                x,
                y,
                *final(self).current(),
            ),
    {
        self.current.mouse_wheel_event(x, y)
    }

    /// Hands a key press on to the live scene.
    pub fn key_down_event(
        &mut self,
        keycode: <P::Live as Scene>::Keycode,
        keymod: <P::Live as Scene>::KeyMod,
        repeat: bool,
    )
        ensures
            Self::same_but_scene(*old(self), *final(self)),
            P::Live::key_down_spec(
                *old(self).current(),
                keycode,
                keymod,
                repeat,
                *final(self).current(),
            ),
    {
        self.current.key_down_event(keycode, keymod, repeat)
    }

    /// Hands a key release on to the live scene.
    pub fn key_up_event(
        &mut self,
        keycode: <P::Live as Scene>::Keycode,
        keymod: <P::Live as Scene>::KeyMod,
        repeat: bool,
    )
        ensures
            Self::same_but_scene(*old(self), *final(self)),
            P::Live::key_up_spec(
                *old(self).current(),
                keycode,
                keymod,
                repeat,
                *final(self).current(),
            ),
    {
        self.current.key_up_event(keycode, keymod, repeat)
    }

    /// Hands a change of focus on to the live scene.
    pub fn focus_event(&mut self, gained: bool)
        ensures
            Self::same_but_scene(*old(self), *final(self)),
            P::Live::focus_spec(
                *old(self).current(),
                gained,
                *final(self).current(),
            ),
    {
        self.current.focus_event(gained)
    }

    /// Asks the live scene whether to veto a quit. `true` means that the
    /// host is not to exit.
    pub fn quit_event(&mut self) -> (veto: bool)
        ensures
            Self::same_but_scene(*old(self), *final(self)),
            P::Live::quit_spec(
                *old(self).current(),
                *final(self).current(),
                veto,
            ),
    {
        self.current.quit_event()
    }
}

} // verus!
