//! The two forms of a scene: live and saved.
use std::time::Duration;
use vstd::prelude::*;

verus! {

/// A live scene: the unit of application behaviour that the host's callbacks
/// reach while it is the current one.
///
/// `update`, `draw` and `unload` have to be provided. The handlers for
/// input, focus and quit are those of [`InputScene`]; a scene that is marked
/// [`NoInput`] has them without writing any, and they do nothing.
///
/// `update` and `draw` each come with a relation, named after it with the
/// ending `_spec`, which says what the callback may do. A verified
/// implementation overrides the relations it wants to promise something
/// about. The others allow everything, and an implementation that is not
/// verified need not mention any of them.
pub trait Scene: Sized {
    /// The saved form that `unload` produces.
    type Saved;

    /// What the host hands to `update` and `draw`.
    type Context;

    /// The failure that `update` and `draw` may report.
    type Error;

    /// The host's name for a pointer button.
    type MouseButton;

    /// The host's record of the buttons held down during a pointer motion.
    type MouseState;

    /// The host's name for a key.
    type Keycode;

    /// The host's record of the modifier keys held down with a key.
    type KeyMod;

    /// The saved form that `unload` makes of this scene. A verified
    /// implementation overrides this with what its `unload` returns.
    open spec fn spec_unload(&self) -> Self::Saved {
        arbitrary()
    }

    /// What one frame's `update` may make of the scene and the context.
    open spec fn update_spec(
        pre: Self,
        ctx: Self::Context,
        dt: Duration,
        post: Self,
        ctx_post: Self::Context,
        result: Result<(), Self::Error>,
    ) -> bool {
        true
    }

    /// What `draw` may make of the scene and the context.
    open spec fn draw_spec(
        pre: Self,
        ctx: Self::Context,
        post: Self,
        ctx_post: Self::Context,
        result: Result<(), Self::Error>,
    ) -> bool {
        true
    }

    /// Suspends the scene into its saved form. The scene is spent by this:
    /// nothing is said of what is left of it, and it is not to be used again.
    fn unload(&mut self) -> (saved: Self::Saved)
        ensures
            saved == old(self).spec_unload(),
    ;

    /// Advances the scene by one frame of `dt`.
    fn update(&mut self, ctx: &mut Self::Context, dt: Duration) -> (result: Result<
        (),
        Self::Error,
    >)
        ensures
            Self::update_spec(*old(self), *old(ctx), dt, *final(self), *final(ctx), result),
    ;

    /// Renders the scene.
    fn draw(&mut self, ctx: &mut Self::Context) -> (result: Result<(), Self::Error>)
        ensures
            Self::draw_spec(*old(self), *old(ctx), *final(self), *final(ctx), result),
    ;
}

/// A live scene that takes input: the handlers for the pointer, the keys,
/// the focus and the request to quit.
///
/// Every handler comes with a relation, named after it with the ending
/// `_spec`, which says what the handler does. A verified implementation
/// overrides the relations it wants to promise something about; the others
/// allow everything. A scene that takes no input is marked [`NoInput`] and
/// has handlers that do nothing.
pub trait InputScene: Scene {
    /// What `mouse_button_down_event` may make of the scene.
    open spec fn mouse_button_down_spec(
        pre: Self,
        button: Self::MouseButton,
        x: i32,
        y: i32,
        post: Self,
    ) -> bool {
        true
    }

    /// What `mouse_button_up_event` may make of the scene.
    open spec fn mouse_button_up_spec(
        pre: Self,
        button: Self::MouseButton,
        x: i32,
        y: i32,
        post: Self,
    ) -> bool {
        true
    }

    /// What `mouse_motion_event` may make of the scene.
    open spec fn mouse_motion_spec(
        pre: Self,
        state: Self::MouseState,
        x: i32,
        y: i32,
        xrel: i32,
        yrel: i32,
        post: Self,
    ) -> bool {
        true
    }

    /// What `mouse_wheel_event` may make of the scene.
    open spec fn mouse_wheel_spec(pre: Self, x: i32, y: i32, post: Self) -> bool {
        true
    }

    /// What `key_down_event` may make of the scene.
    open spec fn key_down_spec(
        pre: Self,
        keycode: Self::Keycode,
        keymod: Self::KeyMod,
        repeat: bool,
        post: Self,
    ) -> bool {
        true
    }

    /// What `key_up_event` may make of the scene.
    open spec fn key_up_spec(
        pre: Self,
        keycode: Self::Keycode,
        keymod: Self::KeyMod,
        repeat: bool,
        post: Self,
    ) -> bool {
        true
    }

    /// What `focus_event` may make of the scene.
    open spec fn focus_spec(pre: Self, gained: bool, post: Self) -> bool {
        true
    }

    /// What `quit_event` may make of the scene, and whether it may veto
    /// the quit.
    open spec fn quit_spec(pre: Self, post: Self, veto: bool) -> bool {
        true
    }

    /// A pointer button went down at `(x, y)`.
    fn mouse_button_down_event(&mut self, button: Self::MouseButton, x: i32, y: i32)
        ensures
            Self::mouse_button_down_spec(*old(self), button, x, y, *final(self)),
    ;

    /// A pointer button came up at `(x, y)`.
    fn mouse_button_up_event(&mut self, button: Self::MouseButton, x: i32, y: i32)
        ensures
            Self::mouse_button_up_spec(*old(self), button, x, y, *final(self)),
    ;

    /// The pointer moved to `(x, y)`, by `(xrel, yrel)`.
    fn mouse_motion_event(&mut self, state: Self::MouseState, x: i32, y: i32, xrel: i32, yrel: i32)
        ensures
            Self::mouse_motion_spec(*old(self), state, x, y, xrel, yrel, *final(self)),
    ;

    /// The wheel was turned by `(x, y)`.
    fn mouse_wheel_event(&mut self, x: i32, y: i32)
        ensures
            Self::mouse_wheel_spec(*old(self), x, y, *final(self)),
    ;

    /// A key went down.
    fn key_down_event(&mut self, keycode: Self::Keycode, keymod: Self::KeyMod, repeat: bool)
        ensures
            Self::key_down_spec(*old(self), keycode, keymod, repeat, *final(self)),
    ;

    /// A key came up.
    fn key_up_event(&mut self, keycode: Self::Keycode, keymod: Self::KeyMod, repeat: bool)
        ensures
            Self::key_up_spec(*old(self), keycode, keymod, repeat, *final(self)),
    ;

    /// The window gained or lost the focus.
    fn focus_event(&mut self, gained: bool)
        ensures
            Self::focus_spec(*old(self), gained, *final(self)),
    ;

    /// The host was asked to quit. `true` vetoes the quit: the host then goes
    /// on for this frame.
    fn quit_event(&mut self) -> (veto: bool)
        ensures
            Self::quit_spec(*old(self), *final(self), veto),
    ;
}

/// Marks a scene that takes no input. Its handlers do nothing, and its
/// `quit_event` does not veto.
pub trait NoInput: Scene {
}

/// The handlers of a scene that takes no input: each leaves the scene as it
/// is, and a quit is never vetoed.
impl<S: NoInput> InputScene for S {
    open spec fn mouse_button_down_spec(
        pre: Self,
        button: Self::MouseButton,
        x: i32,
        y: i32,
        post: Self,
    ) -> bool {
        post == pre
    }

    open spec fn mouse_button_up_spec(
        pre: Self,
        button: Self::MouseButton,
        x: i32,
        y: i32,
        post: Self,
    ) -> bool {
        post == pre
    }

    open spec fn mouse_motion_spec(
        pre: Self,
        state: Self::MouseState,
        x: i32,
        y: i32,
        xrel: i32,
        yrel: i32,
        post: Self,
    ) -> bool {
        post == pre
    }

    open spec fn mouse_wheel_spec(pre: Self, x: i32, y: i32, post: Self) -> bool {
        post == pre
    }

    open spec fn key_down_spec(
        pre: Self,
        keycode: Self::Keycode,
        keymod: Self::KeyMod,
        repeat: bool,
        post: Self,
    ) -> bool {
        post == pre
    }

    open spec fn key_up_spec(
        pre: Self,
        keycode: Self::Keycode,
        keymod: Self::KeyMod,
        repeat: bool,
        post: Self,
    ) -> bool {
        post == pre
    }

    open spec fn focus_spec(pre: Self, gained: bool, post: Self) -> bool {
        post == pre
    }

    open spec fn quit_spec(pre: Self, post: Self, veto: bool) -> bool {
        post == pre && !veto
    }

    fn mouse_button_down_event(&mut self, button: Self::MouseButton, x: i32, y: i32) {
    }

    fn mouse_button_up_event(&mut self, button: Self::MouseButton, x: i32, y: i32) {
    }

    fn mouse_motion_event(&mut self, state: Self::MouseState, x: i32, y: i32, xrel: i32, yrel: i32) {
    }

    fn mouse_wheel_event(&mut self, x: i32, y: i32) {
    }

    fn key_down_event(&mut self, keycode: Self::Keycode, keymod: Self::KeyMod, repeat: bool) {
    }

    fn key_up_event(&mut self, keycode: Self::Keycode, keymod: Self::KeyMod, repeat: bool) {
    }

    fn focus_event(&mut self, gained: bool) {
    }

    fn quit_event(&mut self) -> (veto: bool) {
        false
    }
}

/// A saved scene: the name of a scene and what it needs to become live again.
pub trait SavedScene: Sized {
    /// The live form that `load` produces, which unloads into this type again.
    type Live: InputScene<Saved = Self>;

    /// The name that `name` returns, the same at every call. A verified
    /// implementation overrides this with what its `name` returns.
    open spec fn spec_name(&self) -> Seq<char> {
        arbitrary()
    }

    /// The live scene that `load` makes of this saved scene. A verified
    /// implementation overrides this with what its `load` returns.
    open spec fn spec_load(&self) -> Self::Live {
        arbitrary()
    }

    /// The name under which the scene is stored.
    fn name(&self) -> (name: &str)
        ensures
            name@ == self.spec_name(),
    ;

    /// Builds the live scene. The saved scene stays as it is.
    fn load(&self) -> (scene: Self::Live)
        ensures
            scene == self.spec_load(),
    ;
}

/// Whether loading `saved` and unloading the result gives `saved` back.
pub open spec fn round_trips<P: SavedScene>(saved: P) -> bool {
    saved.spec_load().spec_unload() == saved
}

/// Whether the scene loaded from `saved` unloads under the name of `saved`.
pub open spec fn keeps_name<P: SavedScene>(saved: P) -> bool {
    saved.spec_load().spec_unload().spec_name() == saved.spec_name()
}

} // verus!
