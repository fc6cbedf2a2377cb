use crate::logical::Registry;
use crate::raw::RegistryInfo;
use vstd::prelude::*;
use vstd::std_specs::cmp::PartialEqSpecImpl;

verus! {

/// The number that stands for the identity of a type: of a registry, or of a
/// type registered to one.
pub type TypeKey = u64;

/// Identifier of a particular registry.
///
/// Two identifiers are equal exactly when their keys are; the name is carried
/// along for messages only.
#[derive(Copy, Clone, Debug)]
pub struct RegistryId {
    key: TypeKey,
    name: &'static str,
}

impl RegistryId {
    /// The key of the identified registry.
    pub closed spec fn spec_key(&self) -> TypeKey {
        self.key
    }

    /// The name of the identified registry.
    pub closed spec fn spec_name(&self) -> &'static str {
        self.name
    }

    /// The key of the identified registry.
    #[verifier::when_used_as_spec(spec_key)]
    pub fn key(&self) -> (key: TypeKey)
        ensures
            key == self.spec_key(),
    {
        self.key
    }

    /// The name of the identified registry.
    #[verifier::when_used_as_spec(spec_name)]
    pub fn name(&self) -> (name: &'static str)
        ensures
            name == self.spec_name(),
    {
        self.name
    }

    /// Gets the identifier of the registry `R`.
    pub fn of<R: Registry>() -> (id: Self)
        ensures
            id.key() == R::KEY,
            id.name() == R::NAME,
    {
        RegistryId { key: R::KEY, name: R::NAME }
    }

    /// Gets the information about the identified registry.
    pub fn info(&self) -> (info: RegistryInfo)
        ensures
            info.id() == *self,
    {
        RegistryInfo::describing(*self)
    }
}

impl PartialEq for RegistryId {
    fn eq(&self, other: &Self) -> (same: bool) {
        self.key == other.key
    }
}

impl PartialEqSpecImpl for RegistryId {
    open spec fn obeys_eq_spec() -> bool {
        true
    }

    open spec fn eq_spec(&self, other: &Self) -> bool {
        self.key() == other.key()
    }
}

impl Eq for RegistryId {

}

} // verus!
