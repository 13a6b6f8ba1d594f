//! What every artifact of a build can do: say where it belongs and what
//! is saved there.

use vstd::prelude::*;

verus! {

/// Saves a content type to disk
pub trait ToDisk {
    type Err;

    /// The text that is saved for this item.
    fn to_disk(&self) -> Result<String, Self::Err>;
}

/// Gets the path of a content item
pub trait GetPath {
    /// The path of the item below `root`, in `subdir` where one is given.
    fn get_path(root: &str, subdir: Option<&str>) -> String;
}

} // verus!
