use vstd::prelude::*;

verus! {

/// A background image painted behind the map, named by its asset path.
#[derive(Clone, Debug)]
pub struct FixedBackdrop {
    pub surface_id: String,
}

impl FixedBackdrop {
    /// A backdrop drawn from the image at `path`.
    pub fn new(path: String) -> (r: FixedBackdrop)
        ensures
            r.surface_id@ == path@,
    {
        FixedBackdrop { surface_id: path }
    }
}

} // verus!
