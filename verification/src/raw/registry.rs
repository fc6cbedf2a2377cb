use crate::logical::build_index;
use crate::logical::index_of;
use crate::logical::Index;
use crate::logical::Registry;
use crate::raw::RegistryEntry;
use core::any::Any;
use generic_static::StaticTypeMap;
use vstd::prelude::*;

verus! {

/// The indexes that were built over one raw collection: at most one for each
/// registry and kind of index, kept for as long as the collection is.
///
/// The map keeps storages of every type behind `dyn Any`, which Verus does
/// not take, so what is in it is out of Verus's sight. A call to it changes
/// what it holds without a `&mut`, so what it holds has no name in contracts
/// either: [`RawRegistry::index_once`] says what comes out of it.
#[verifier::external_body]
struct IndexCache {
    slots: StaticTypeMap<Box<dyn Any + Send + Sync>>,
}

impl IndexCache {
    /// `generic_static::StaticTypeMap::new`: a map that holds no value yet.
    #[verifier::external_body]
    fn new() -> IndexCache {
        IndexCache { slots: StaticTypeMap::new() }
    }
}

/// The raw collection: the entries of all logical registries, in the order in
/// which they were registered. Each entry says to which registry it belongs.
///
/// Entries are only ever added at the end, so an entry keeps its position.
/// The indexes over a collection are asked for through a reference that lasts
/// for the rest of the program, so no entry is added once one was built.
pub struct RawRegistry<M> {
    entries: Vec<RegistryEntry<M>>,
    indexes: IndexCache,
}

impl<M> View for RawRegistry<M> {
    type V = Seq<RegistryEntry<M>>;

    closed spec fn view(&self) -> Seq<RegistryEntry<M>> {
        self.entries@
    }
}

impl<M> RawRegistry<M> {
    /// Creates a collection without entries.
    pub fn new() -> (registry: Self)
        ensures
            registry@ == Seq::<RegistryEntry<M>>::empty(),
    {
        RawRegistry { entries: Vec::new(), indexes: IndexCache::new() }
    }

    /// The number of entries, over all registries.
    pub fn len(&self) -> (len: usize)
        ensures
            len == self@.len(),
    {
        self.entries.len()
    }

    /// The entry at a position.
    pub fn get(&self, index: usize) -> (entry: &RegistryEntry<M>)
        requires
            index < self@.len(),
        ensures
            *entry == self@[index as int],
    {
        &self.entries[index]
    }

    /// Adds an entry at the end. No entry that is already there moves.
    pub fn append(&mut self, entry: RegistryEntry<M>)
        ensures
            final(self)@ == old(self)@.push(entry),
    {
        self.entries.push(entry);
    }

    /// `generic_static::StaticTypeMap::call_once`, with the pair of `R` and
    /// `I` as the type that the value is kept under: it hands out the value
    /// that is kept under that type, after keeping what the closure returns
    /// where none was kept yet. Callers that come while the closure of another
    /// runs wait for it, and the closure of one caller only is run.
    ///
    /// Nothing else keeps a value in the map of this collection, and the
    /// closure builds the index `I` over the registry `R` from the entries of
    /// this collection, which no longer change: the collection is borrowed
    /// for the rest of the program. So the value kept under the pair is a
    /// storage of `I`, and it holds what building `I` over `R` comes to,
    /// whichever call built it.
    ///
    /// Not covered: an index whose `allocate` or `associate` asks for the
    /// index that is being built. That call does not return.
    #[verifier::external_body]
    pub(crate) fn index_once<R: Registry<TypeInfo = M>, I: Index<R>>(
        &'static self,
    ) -> (storage: Option<&'static I::Storage>)
        ensures
            storage is Some,
            (I::contents(storage.unwrap()) == index_of::<R, I>(self@)),
    {
        let kept = self.indexes.slots.call_once::<(fn(R), I), _>(
            || Box::new(build_index::<R, I>(self)),
        );
        kept.downcast_ref()
    }
}

} // verus!
