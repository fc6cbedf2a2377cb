use vstd::prelude::*;

verus! {

/// The argument `crate = path` of the attribute `type_registry`: the path
/// under which the item's crate reaches this library.
#[derive(Debug)]
pub struct CrateAttribute {
    path: String,
}

impl CrateAttribute {
    /// The path.
    pub closed spec fn path(&self) -> String {
        self.path
    }

    /// The argument that names `path`.
    pub fn new(path: String) -> (attribute: Self)
        ensures
            attribute.path() == path,
    {
        CrateAttribute { path }
    }

    /// The path.
    pub fn into_path(self) -> (path: String)
        ensures
            path == self.path(),
    {
        self.path
    }
}

} // verus!
