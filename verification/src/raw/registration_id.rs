use crate::raw::RawRegistry;
use crate::raw::RegistryEntry;
use crate::raw::RegistryId;
use vstd::prelude::*;

verus! {

/// An identifier of a single registered type, in any logical registry:
/// the position of its entry in the raw collection.
#[derive(Copy, Clone, PartialEq, Eq, Structural, Hash, Debug)]
pub struct RegistrationId {
    /// The position of the entry in the raw collection.
    index: usize,
}

impl RegistrationId {
    /// The position of the entry in the raw collection.
    pub closed spec fn spec_index(self) -> usize {
        self.index
    }

    /// The identifier of the entry at a position.
    pub fn new(index: usize) -> (id: Self)
        ensures
            id.spec_index() == index,
    {
        RegistrationId { index }
    }

    /// The position of the entry in the raw collection.
    #[verifier::when_used_as_spec(spec_index)]
    pub fn index(self) -> (index: usize)
        ensures
            index == self.spec_index(),
    {
        self.index
    }

    /// The registry to which the identified entry belongs.
    pub fn registry<M>(self, registry: &RawRegistry<M>) -> (id: RegistryId)
        requires
            self.index() < registry@.len(),
        ensures
            id == registry@[self.index() as int].registry_id(),
    {
        self.entry(registry).registry_id()
    }

    /// The identified entry.
    pub fn entry<M>(self, registry: &RawRegistry<M>) -> (entry: &RegistryEntry<M>)
        requires
            self.index() < registry@.len(),
        ensures
            *entry == registry@[self.index() as int],
    {
        registry.get(self.index)
    }
}

} // verus!
