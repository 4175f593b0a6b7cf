use vstd::prelude::*;

verus! {

/// Where the model directories live.
#[derive(Debug, Clone)]
pub struct Settings {
    /// The base directory under which each direction's model directory lies.
    pub path: String,
}

impl Settings {
    /// Settings rooted at `path`.
    pub fn new(path: String) -> (r: Settings)
        ensures
            r.path@ == path@,
    {
        Settings { path }
    }
}

} // verus!
