//! What a switch and a frame can fail with.
use vstd::prelude::*;
use vstd::string::*;

verus! {

/// The one failure of a switch: the store holds no scene of the name that
/// was asked for.
#[derive(Debug, Clone, PartialEq, Eq)]
pub struct SceneNotFound {
    /// The name that was asked for.
    pub name: String,
}

/// The text that describes a failed switch to `name`.
pub open spec fn not_found_message(name: Seq<char>) -> Seq<char> {
    "SceneManager: Asked to load scene "@ + name + " but it did not exist?"@
}

impl SceneNotFound {
    /// A description of the failure for the host's diagnostics.
    pub fn message(&self) -> (text: String)
        ensures
            text@ == not_found_message(self.name@),
    {
        let mut text = String::from_str("SceneManager: Asked to load scene ");
        text.append(self.name.as_str());
        text.append(" but it did not exist?");
        text
    }
}

/// What a frame's update can fail with.
#[derive(Debug, Clone, PartialEq, Eq)]
pub enum UpdateError<E> {
    /// The switch that was pending at the start of the frame failed. The
    /// scene's own update did not run.
    SceneNotFound(SceneNotFound),
    /// The current scene's own update failed with this.
    Scene(E),
}

} // verus!
