use crate::logical::Registered;
use crate::logical::Registry;
use crate::raw::RegistryId;
use crate::raw::TypeKey;
use vstd::prelude::*;

verus! {

/// The raw entry for a type registered to any registry.
///
/// `M` is the type of the information that the entries of one raw collection
/// carry: that of the registries that share the collection.
#[derive(Debug)]
pub struct RegistryEntry<M> {
    /// The registry to which the entry belongs.
    registry_id: RegistryId,
    /// The key of the registered type.
    type_id: TypeKey,
    /// The name of the registered type.
    display_name: &'static str,
    /// The information about the registered type.
    type_info: M,
}

impl<M> RegistryEntry<M> {
    /// The registry to which the entry belongs.
    pub closed spec fn spec_registry_id(&self) -> RegistryId {
        self.registry_id
    }

    /// The key of the registered type.
    pub closed spec fn spec_type_id(&self) -> TypeKey {
        self.type_id
    }

    /// The name of the registered type.
    pub closed spec fn spec_display_name(&self) -> &'static str {
        self.display_name
    }

    /// The information about the registered type.
    pub closed spec fn spec_type_info(&self) -> &M {
        &self.type_info
    }

    /// Whether the entry is the one that registering `T` to `R` makes.
    pub open spec fn registers<R: Registry<TypeInfo = M>, T: Registered<R> + ?Sized>(
        &self,
    ) -> bool {
        &&& self.registry_id().key() == R::KEY
        &&& self.registry_id().name() == R::NAME
        &&& self.type_id() == T::TYPE_KEY
        &&& self.display_name() == T::TYPE_NAME
        &&& *self.type_info() == T::TYPE_INFO
    }

    /// Creates the entry for a type `T` registered to the registry `R`.
    pub fn new<R: Registry<TypeInfo = M>, T: Registered<R> + ?Sized>() -> (entry: Self)
        ensures
            entry.registers::<R, T>(),
    {
        RegistryEntry {
            registry_id: RegistryId::of::<R>(),
            type_id: T::TYPE_KEY,
            display_name: T::TYPE_NAME,
            type_info: T::TYPE_INFO,
        }
    }

    /// Gets the identifier of the registry to which the type was registered.
    #[verifier::when_used_as_spec(spec_registry_id)]
    pub fn registry_id(&self) -> (id: RegistryId)
        ensures
            id == self.spec_registry_id(),
    {
        self.registry_id
    }

    /// Gets the information about the registered type.
    #[verifier::when_used_as_spec(spec_type_info)]
    pub fn type_info(&self) -> (info: &M)
        ensures
            info == self.spec_type_info(),
    {
        &self.type_info
    }

    /// Gets the key of the registered type.
    #[verifier::when_used_as_spec(spec_type_id)]
    pub fn type_id(&self) -> (key: TypeKey)
        ensures
            key == self.spec_type_id(),
    {
        self.type_id
    }

    /// Gets the name of the registered type.
    #[verifier::when_used_as_spec(spec_display_name)]
    pub fn display_name(&self) -> (name: &'static str)
        ensures
            name == self.spec_display_name(),
    {
        self.display_name
    }
}

} // verus!
