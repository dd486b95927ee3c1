use vstd::prelude::*;

verus! {

/// Identifies one attribute by its group and element numbers.
#[derive(Debug, Clone, Copy, PartialEq, Eq, Structural)]
pub struct AttrTag {
    pub group: u16,
    pub element: u16,
}

impl AttrTag {
    /// Builds the identifier of the attribute `(group, element)`.
    pub fn new(group: u16, element: u16) -> (t: AttrTag)
        ensures
            t == (AttrTag { group, element }),
    {
        AttrTag { group, element }
    }
}

} // verus!
