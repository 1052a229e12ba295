//! A scene-switching runtime for applications driven by an update/render loop.
//!
//! A [`Scene`] is the live form of one application state, a [`SavedScene`]
//! its inert, storable form. An [`InputScene`] is a scene with handlers for
//! the host's input events, which a scene marked [`NoInput`] has for free. A [`SceneStore`] keeps saved scenes by name
//! beside the data that all scenes share, and a [`SceneManager`] owns the one
//! live scene, hands every callback of the host on to it, and moves from one
//! scene to another by unloading the live scene into the store and loading
//! the requested one out of it.
pub mod error;
pub mod laws;
pub mod manager;
pub mod registry;
pub mod scene;
pub mod store;

pub use error::{SceneNotFound, UpdateError};
pub use manager::SceneManager;
pub use scene::{InputScene, NoInput, SavedScene, Scene};
pub use store::SceneStore;
