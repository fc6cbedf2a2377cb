use crate::logical::type_index;
use crate::logical::RegistrationId;
use crate::logical::Registry;
use crate::raw::RawRegistry;
use crate::raw::RegistryEntry as RawRegistryEntry;
use core::marker::PhantomData;
use vstd::prelude::*;

verus! {

/// An entry describing a type registered to the registry `R`.
///
/// It is a raw entry that is known to belong to `R`.
pub struct RegistryEntry<'a, R: Registry> {
    /// The entry's corresponding raw entry.
    raw_entry: &'a RawRegistryEntry<R::TypeInfo>,
    /// Marker of the relevant registry.
    registry: PhantomData<R>,
}

impl<'a, R: Registry> RegistryEntry<'a, R> {
    /// The entry's corresponding raw entry.
    pub closed spec fn spec_raw(&self) -> &'a RawRegistryEntry<R::TypeInfo> {
        self.raw_entry
    }

    /// Every entry of `R` is a raw entry of `R`.
    #[verifier::type_invariant]
    pub open spec fn belongs(&self) -> bool {
        self.raw().registry_id().key() == R::KEY
    }

    pub(crate) fn new(raw_entry: &'a RawRegistryEntry<R::TypeInfo>) -> (entry: Self)
        requires
            raw_entry.registry_id().key() == R::KEY,
        ensures
            entry.raw() == raw_entry,
    {
        RegistryEntry { raw_entry, registry: PhantomData }
    }

    /// The entry's corresponding raw entry.
    #[verifier::when_used_as_spec(spec_raw)]
    pub fn raw(&self) -> (raw_entry: &'a RawRegistryEntry<R::TypeInfo>)
        ensures
            raw_entry == self.spec_raw(),
            raw_entry.registry_id().key() == R::KEY,
    {
        proof {
            use_type_invariant(self);
        }
        self.raw_entry
    }

    /// Gets the identifier of this entry, through the index by type of `R`
    /// over the raw collection that the entry stands in.
    pub fn registration_id(
        &self,
        registry: &'static RawRegistry<R::TypeInfo>,
    ) -> (id: RegistrationId<R>)
        requires
            type_index::<R>(registry@).duplicate is None,
            type_index::<R>(registry@).ids.contains_key(self.raw().type_id()),
        ensures
            id@ == type_index::<R>(registry@).ids[self.raw().type_id()],
            id.names(registry@),
            registry@[id@.raw as int].type_id() == self.raw().type_id(),
    {
        RegistrationId::from_raw_entry(self.raw_entry, registry)
    }

    /// Gets the information that was provided for this entry.
    pub fn type_info(&self) -> (info: &'a R::TypeInfo)
        ensures
            info == self.raw().type_info(),
    {
        self.raw_entry.type_info()
    }
}

impl<'a, R: Registry> Clone for RegistryEntry<'a, R> {
    fn clone(&self) -> (copy: Self)
        ensures
            copy == *self,
    {
        proof {
            use_type_invariant(self);
        }
        RegistryEntry { raw_entry: self.raw_entry, registry: PhantomData }
    }
}

impl<'a, R: Registry> Copy for RegistryEntry<'a, R> {

}

} // verus!
