use crate::logical::lemma_listing_complete;
use crate::logical::lemma_strict_index;
use crate::logical::lemma_type_index_ids;
use crate::logical::listing;
use crate::logical::type_index;
use crate::logical::Registered;
use crate::logical::Registry;
use crate::logical::RegistryEntry;
use crate::logical::RegistryExt;
use crate::logical::StrictTypeIndex;
use crate::raw::RawRegistry;
use crate::raw::RegistrationId as RawRegistrationId;
use crate::raw::RegistryEntry as RawRegistryEntry;
use crate::raw::TypeKey;
use crate::text::decimal;
use crate::text::decimal_string;
use core::marker::PhantomData;
use vstd::prelude::*;
use vstd::std_specs::cmp::PartialEqSpecImpl;
use vstd::std_specs::convert::FromSpecImpl;
use vstd::string::StringExecFns;

verus! {

/// What a [`RegistrationId`] says: where the entry stands in the raw
/// collection, and where among the entries of its own registry.
pub struct RegistrationIdView {
    /// The position of the entry in the raw collection.
    pub raw: nat,
    /// The position of the entry among the entries of its registry.
    pub ordinal: nat,
}

/// A type that is registered to a registry is found through the index by
/// type of the registry, wherever that index was not given up: under the key
/// of the type the index holds the identifier of the entry that registering
/// the type made, and the information in that entry is the information that
/// the type provides.
pub proof fn lemma_registered_type_is_found<R: Registry, T: Registered<R> + ?Sized>(
    entries: Seq<RawRegistryEntry<R::TypeInfo>>,
    position: int,
)
    requires
        0 <= position < entries.len(),
        entries[position].registers::<R, T>(),
        type_index::<R>(entries).duplicate is None,
    ensures
        type_index::<R>(entries).ids.contains_key(T::TYPE_KEY),
        type_index::<R>(entries).ids[T::TYPE_KEY].raw == position,
        *entries[type_index::<R>(entries).ids[T::TYPE_KEY].raw as int].type_info() == T::TYPE_INFO,
{
    let items = listing(entries, R::KEY);
    lemma_strict_index::<R>(items);
    lemma_listing_complete(entries, R::KEY, position);
    let k = listing(entries.take(position), R::KEY).len() as int;
    assert(items[k].entry.type_id() == T::TYPE_KEY);
}

/// Identifies a registered type in a particular registry.
#[derive(Debug)]
pub struct RegistrationId<R: Registry> {
    /// The registration's raw identifier.
    raw_id: RawRegistrationId,
    /// The position of the type's registration within the particular registry.
    registry_index: usize,
    /// Marker of the registry to which the type is registered.
    registry: PhantomData<R>,
}

impl<R: Registry> View for RegistrationId<R> {
    type V = RegistrationIdView;

    closed spec fn view(&self) -> RegistrationIdView {
        RegistrationIdView {
            raw: self.raw_id.index() as nat,
            ordinal: self.registry_index as nat,
        }
    }
}

impl<R: Registry> RegistrationId<R> {
    pub(crate) fn new(raw_index: usize, registry_index: usize) -> (id: Self)
        ensures
            id@ == (RegistrationIdView { raw: raw_index as nat, ordinal: registry_index as nat }),
    {
        RegistrationId {
            raw_id: RawRegistrationId::new(raw_index),
            registry_index,
            registry: PhantomData,
        }
    }

    /// The registration's raw identifier.
    #[verifier::when_used_as_spec(spec_raw)]
    pub fn raw(self) -> (raw: RawRegistrationId)
        ensures
            raw == self.spec_raw(),
            raw.index() == self@.raw,
    {
        self.raw_id
    }

    /// The position of the identified type in the registry.
    pub fn index(self) -> (index: usize)
        ensures
            index == self@.ordinal,
    {
        self.registry_index
    }

    /// Whether the identifier names an entry of `R` in a raw collection.
    pub open spec fn names(self, entries: Seq<RawRegistryEntry<R::TypeInfo>>) -> bool {
        &&& self@.raw < entries.len()
        &&& entries[self@.raw as int].registry_id().key() == R::KEY
    }

    /// Gets the entry that the identifier names in a raw collection.
    pub fn entry<'a>(self, registry: &'a RawRegistry<R::TypeInfo>) -> (entry: RegistryEntry<'a, R>)
        requires
            self.names(registry@),
        ensures
            *entry.raw() == registry@[self@.raw as int],
    {
        RegistryEntry::new(self.raw_id.entry(registry))
    }

    /// Gets the information that was provided for the identified type.
    pub fn metadata<'a>(self, registry: &'a RawRegistry<R::TypeInfo>) -> (info: &'a R::TypeInfo)
        requires
            self.names(registry@),
        ensures
            info == registry@[self@.raw as int].type_info(),
    {
        self.entry(registry).type_info()
    }

    /// Gets the identifier under which `T` is registered to `R` in a raw
    /// collection, through the index by type of `R`.
    pub fn of<T: Registered<R> + ?Sized>(
        registry: &'static RawRegistry<R::TypeInfo>,
    ) -> (id: Self)
        requires
            type_index::<R>(registry@).duplicate is None,
            type_index::<R>(registry@).ids.contains_key(T::TYPE_KEY),
        ensures
            id@ == type_index::<R>(registry@).ids[T::TYPE_KEY],
            id.names(registry@),
            registry@[id@.raw as int].type_id() == T::TYPE_KEY,
    {
        Self::from_type_id(registry, T::TYPE_KEY)
    }

    pub(crate) fn from_raw_entry(
        raw_entry: &RawRegistryEntry<R::TypeInfo>,
        registry: &'static RawRegistry<R::TypeInfo>,
    ) -> (id: Self)
        requires
            type_index::<R>(registry@).duplicate is None,
            type_index::<R>(registry@).ids.contains_key(raw_entry.type_id()),
        ensures
            id@ == type_index::<R>(registry@).ids[raw_entry.type_id()],
            id.names(registry@),
            registry@[id@.raw as int].type_id() == raw_entry.type_id(),
    {
        Self::from_type_id(registry, raw_entry.type_id())
    }

    pub(crate) fn from_type_id(
        registry: &'static RawRegistry<R::TypeInfo>,
        type_id: TypeKey,
    ) -> (id: Self)
        requires
            type_index::<R>(registry@).duplicate is None,
            type_index::<R>(registry@).ids.contains_key(type_id),
        ensures
            id@ == type_index::<R>(registry@).ids[type_id],
            id.names(registry@),
            registry@[id@.raw as int].type_id() == type_id,
    {
        proof {
            lemma_type_index_ids::<R>(registry@, type_id);
        }
        R::index::<StrictTypeIndex>(registry).get(type_id).unwrap()
    }

    /// The registration's raw identifier.
    pub closed spec fn spec_raw(self) -> RawRegistrationId {
        self.raw_id
    }

    /// What is shown for the identifier: the name of the registry and the
    /// position of the identified type in it.
    pub open spec fn spec_to_string(&self) -> Seq<char> {
        "'"@ + R::NAME@ + "' registration ID #"@ + decimal(self@.ordinal)
    }

    /// What is shown for the identifier.
    pub fn to_string(&self) -> (text: String)
        ensures
            text@ == self.spec_to_string(),
    {
        let mut text = String::from_str("'");
        text.append(R::NAME);
        text.append("' registration ID #");
        text.append(decimal_string(self.registry_index).as_str());
        text
    }
}

impl<R: Registry> Clone for RegistrationId<R> {
    fn clone(&self) -> (copy: Self)
        ensures
            copy == *self,
    {
        RegistrationId { raw_id: self.raw_id, registry_index: self.registry_index, registry: PhantomData }
    }
}

impl<R: Registry> Copy for RegistrationId<R> {

}

impl<R: Registry> PartialEq for RegistrationId<R> {
    fn eq(&self, other: &Self) -> (same: bool) {
        self.raw_id.index() == other.raw_id.index()
    }
}

impl<R: Registry> PartialEqSpecImpl for RegistrationId<R> {
    open spec fn obeys_eq_spec() -> bool {
        true
    }

    open spec fn eq_spec(&self, other: &Self) -> bool {
        self@.raw == other@.raw
    }
}

impl<R: Registry> Eq for RegistrationId<R> {

}

impl<R: Registry> From<RegistrationId<R>> for RawRegistrationId {
    fn from(value: RegistrationId<R>) -> (raw: RawRegistrationId) {
        value.raw_id
    }
}

impl<R: Registry> FromSpecImpl<RegistrationId<R>> for RawRegistrationId {
    open spec fn obeys_from_spec() -> bool {
        true
    }

    open spec fn from_spec(value: RegistrationId<R>) -> RawRegistrationId {
        value.raw()
    }
}

impl<R: Registry> PartialEq<RawRegistrationId> for RegistrationId<R> {
    fn eq(&self, other: &RawRegistrationId) -> (same: bool) {
        self.raw_id.index() == other.index()
    }
}

impl<R: Registry> PartialEqSpecImpl<RawRegistrationId> for RegistrationId<R> {
    open spec fn obeys_eq_spec() -> bool {
        true
    }

    open spec fn eq_spec(&self, other: &RawRegistrationId) -> bool {
        self@.raw == other.index()
    }
}

impl<R: Registry> PartialEq<RegistrationId<R>> for RawRegistrationId {
    fn eq(&self, other: &RegistrationId<R>) -> (same: bool) {
        self.index() == other.raw_id.index()
    }
}

impl<R: Registry> PartialEqSpecImpl<RegistrationId<R>> for RawRegistrationId {
    open spec fn obeys_eq_spec() -> bool {
        true
    }

    open spec fn eq_spec(&self, other: &RegistrationId<R>) -> bool {
        self.index() == other@.raw
    }
}

} // verus!
