use vstd::prelude::*;

verus! {

/// Adds a window, and the systems that drive it, to a scene.
pub struct WindowPlugin {
    name: String,
}

impl WindowPlugin {
    /// The plugin of a window titled `name`.
    pub fn new(name: &str) -> (r: Self)
        ensures
            r.name()@ == name@,
    {
        WindowPlugin { name: name.to_owned() }
    }

    /// The title of the window.
    pub closed spec fn name(&self) -> String {
        self.name
    }
}

} // verus!
