//! Developer-facing helpers configuration.

use vstd::prelude::*;

verus! {

/// Configuration of the debug helpers: whether the world inspector
/// overlay is enabled.
#[derive(Clone, Copy, Debug, PartialEq, Eq, Structural)]
pub struct HelpersPlugin {
    pub inspector: bool,
}

impl Default for HelpersPlugin {
    /// The inspector is on by default.
    fn default() -> (r: Self)
        ensures
            r.inspector,
    {
        HelpersPlugin { inspector: true }
    }
}

} // verus!
