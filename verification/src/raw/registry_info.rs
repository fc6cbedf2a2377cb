use crate::logical::Registry;
use crate::raw::RegistryId;
use crate::raw::TypeKey;
use vstd::prelude::*;
use vstd::std_specs::cmp::PartialEqSpecImpl;

verus! {

/// Information about a particular registry.
#[derive(Copy, Clone, Debug)]
pub struct RegistryInfo {
    id: RegistryId,
}

impl RegistryInfo {
    /// The identifier of the described registry.
    pub closed spec fn spec_id(&self) -> RegistryId {
        self.id
    }

    /// Gets the information about the registry `R`.
    pub fn of<R: Registry>() -> (info: Self)
        ensures
            info.id().key() == R::KEY,
            info.id().name() == R::NAME,
    {
        RegistryInfo { id: RegistryId::of::<R>() }
    }

    /// The information about the registry that `id` identifies.
    pub(crate) fn describing(id: RegistryId) -> (info: Self)
        ensures
            info.id() == id,
    {
        RegistryInfo { id }
    }

    /// The identifier of the registry.
    #[verifier::when_used_as_spec(spec_id)]
    pub fn id(&self) -> (id: RegistryId)
        ensures
            id == self.spec_id(),
    {
        self.id
    }

    /// The key of the registry.
    pub fn type_id(&self) -> (key: TypeKey)
        ensures
            key == self.id().key(),
    {
        self.id.key()
    }

    /// The name of the registry.
    pub fn name(&self) -> (name: &'static str)
        ensures
            name == self.id().name(),
    {
        self.id.name()
    }
}

impl PartialEq for RegistryInfo {
    fn eq(&self, other: &Self) -> (same: bool) {
        self.id == other.id
    }
}

impl PartialEqSpecImpl for RegistryInfo {
    open spec fn obeys_eq_spec() -> bool {
        true
    }

    open spec fn eq_spec(&self, other: &Self) -> bool {
        self.id().key() == other.id().key()
    }
}

impl Eq for RegistryInfo {

}

} // verus!
