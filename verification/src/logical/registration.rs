use crate::logical::Registered;
use crate::logical::Registry;
use crate::raw::RawRegistry;
use crate::raw::RegistrationId as RawRegistrationId;
use crate::raw::RegistryEntry;
use core::marker::PhantomData;
use vstd::prelude::*;

verus! {

/// Existence of a value of this type indicates that registration has
/// occurred: the only way to one is [`Registration::new`], which registers.
#[derive(Debug)]
pub struct Registration<R: Registry, T: Registered<R> + ?Sized> {
    raw_id: RawRegistrationId,
    registry: PhantomData<R>,
    marker: PhantomData<T>,
}

impl<R: Registry, T: Registered<R> + ?Sized> Registration<R, T> {
    /// The position of the entry that this registration added.
    pub closed spec fn spec_raw(&self) -> RawRegistrationId {
        self.raw_id
    }

    /// Registers `T` to `R`: adds the entry for the two at the end of a raw
    /// collection, and returns the registration that stands for it.
    pub fn new(registry: &mut RawRegistry<R::TypeInfo>) -> (registration: Self)
        ensures
            final(registry)@.len() == old(registry)@.len() + 1,
            final(registry)@.drop_last() == old(registry)@,
            final(registry)@.last().registers::<R, T>(),
            registration.raw().index() == old(registry)@.len(),
    {
        let index = registry.len();
        registry.append(RegistryEntry::new::<R, T>());
        assert(registry@.drop_last() =~= old(registry)@);
        Registration { raw_id: RawRegistrationId::new(index), registry: PhantomData, marker: PhantomData }
    }

    /// The position of the entry that this registration added.
    #[verifier::when_used_as_spec(spec_raw)]
    pub fn raw(&self) -> (raw_id: RawRegistrationId)
        ensures
            raw_id == self.spec_raw(),
    {
        self.raw_id
    }
}

} // verus!
