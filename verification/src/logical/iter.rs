use crate::logical::RegistrationId;
use crate::logical::RegistrationIdView;
use crate::logical::Registry;
use crate::logical::RegistryEntry;
use crate::raw::RawRegistry;
use crate::raw::RegistryEntry as RawRegistryEntry;
use crate::raw::RegistryId;
use crate::raw::TypeKey;
use core::marker::PhantomData;
use vstd::prelude::*;

verus! {

/// One item of the enumeration of a registry: an entry that belongs to it,
/// and the identifier that the entry has in it.
pub struct Listed<M> {
    /// Where the entry stands, in the raw collection and in its registry.
    pub id: RegistrationIdView,
    /// The entry.
    pub entry: RawRegistryEntry<M>,
}

/// The enumeration of the registry with the key `key`: the raw collection is
/// gone through from its beginning, and each entry that belongs to the
/// registry is listed, with the number of entries listed before it as its
/// position in the registry.
pub open spec fn listing<M>(entries: Seq<RawRegistryEntry<M>>, key: TypeKey) -> Seq<Listed<M>>
    decreases entries.len(),
{
    if entries.len() == 0 {
        Seq::empty()
    } else {
        let before = listing(entries.drop_last(), key);
        if entries.last().registry_id().key() == key {
            before.push(
                Listed {
                    id: RegistrationIdView {
                        raw: (entries.len() - 1) as nat,
                        ordinal: before.len(),
                    },
                    entry: entries.last(),
                },
            )
        } else {
            before
        }
    }
}

/// What the entry at `position` adds to the enumeration of the entries
/// before it.
pub proof fn lemma_listing_step<M>(entries: Seq<RawRegistryEntry<M>>, key: TypeKey, position: int)
    requires
        0 <= position < entries.len(),
    ensures
        entries[position].registry_id().key() == key ==> listing(entries.take(position + 1), key)
            == listing(entries.take(position), key).push(
            Listed {
                id: RegistrationIdView {
                    raw: position as nat,
                    ordinal: listing(entries.take(position), key).len(),
                },
                entry: entries[position],
            },
        ),
        entries[position].registry_id().key() != key ==> listing(entries.take(position + 1), key)
            == listing(entries.take(position), key),
{
    assert(entries.take(position + 1).drop_last() =~= entries.take(position));
}

/// The enumeration of the first entries of a collection begins the
/// enumeration of the whole collection.
pub proof fn lemma_listing_prefix<M>(entries: Seq<RawRegistryEntry<M>>, key: TypeKey, count: int)
    requires
        0 <= count <= entries.len(),
    ensures
        listing(entries.take(count), key).len() <= listing(entries, key).len(),
        listing(entries.take(count), key) == listing(entries, key).take(
            listing(entries.take(count), key).len() as int,
        ),
    decreases entries.len(),
{
    if count == entries.len() {
        assert(entries.take(count) =~= entries);
        assert(listing(entries, key).take(listing(entries, key).len() as int) =~= listing(
            entries,
            key,
        ));
    } else {
        let before = entries.drop_last();
        assert(before.take(count) =~= entries.take(count));
        lemma_listing_prefix(before, key, count);
        let short = listing(entries.take(count), key);
        assert(listing(entries, key).take(short.len() as int) =~= listing(before, key).take(
            short.len() as int,
        ));
    }
}

/// An entry is listed at most once, so a registry has no more entries than
/// the collection.
pub proof fn lemma_listing_len<M>(entries: Seq<RawRegistryEntry<M>>, key: TypeKey)
    ensures
        listing(entries, key).len() <= entries.len(),
    decreases entries.len(),
{
    if entries.len() > 0 {
        lemma_listing_len(entries.drop_last(), key);
    }
}

/// What the enumeration of a registry lists: entries of the collection that
/// belong to the registry, each at its own position in the collection and
/// under the number of entries listed before it, so that the positions in the
/// registry are 0, 1, 2 and so on without a gap, and the positions in the
/// collection go up.
pub proof fn lemma_listing_items<M>(entries: Seq<RawRegistryEntry<M>>, key: TypeKey)
    ensures
        forall|k: int|
            0 <= k < listing(entries, key).len() ==> {
                let item = #[trigger] listing(entries, key)[k];
                &&& item.id.ordinal == k
                &&& item.id.raw < entries.len()
                &&& item.entry == entries[item.id.raw as int]
                &&& item.entry.registry_id().key() == key
            },
        forall|j: int, k: int|
            0 <= j < k < listing(entries, key).len() ==> (#[trigger] listing(entries, key)[j]).id.raw
                < (#[trigger] listing(entries, key)[k]).id.raw,
    decreases entries.len(),
{
    if entries.len() > 0 {
        let earlier = entries.drop_last();
        let before = listing(earlier, key);
        let all = listing(entries, key);
        lemma_listing_items(earlier, key);
        assert forall|k: int| 0 <= k < all.len() implies {
            let item = #[trigger] all[k];
            &&& item.id.ordinal == k
            &&& item.id.raw < entries.len()
            &&& item.entry == entries[item.id.raw as int]
            &&& item.entry.registry_id().key() == key
        } by {
            if k < before.len() {
                assert(all[k] == before[k]);
                assert(earlier[before[k].id.raw as int] == entries[before[k].id.raw as int]);
            }
        }
        assert forall|j: int, k: int| 0 <= j < k < all.len() implies (#[trigger] all[j]).id.raw < (
        #[trigger] all[k]).id.raw by {
            assert(all[j] == before[j]);
            if k < before.len() {
                assert(all[k] == before[k]);
            }
        }
    }
}

/// The entries that the enumeration of a registry lists are the entries of
/// the collection that belong to the registry, all of them and in their
/// order. So a registry with `n` entries has the positions 0 to `n - 1`.
pub proof fn lemma_listing_entries<M>(entries: Seq<RawRegistryEntry<M>>, key: TypeKey)
    ensures
        listing(entries, key).map_values(|item: Listed<M>| item.entry) == entries.filter(
            |entry: RawRegistryEntry<M>| entry.registry_id().key() == key,
        ),
        listing(entries, key).len() == entries.filter(
            |entry: RawRegistryEntry<M>| entry.registry_id().key() == key,
        ).len(),
    decreases entries.len(),
{
    let belongs = |entry: RawRegistryEntry<M>| entry.registry_id().key() == key;
    let entry_of = |item: Listed<M>| item.entry;
    reveal(Seq::filter);
    if entries.len() > 0 {
        lemma_listing_entries(entries.drop_last(), key);
    }
    assert(listing(entries, key).map_values(entry_of) =~= entries.filter(belongs));
}

/// Every entry that belongs to a registry is listed: the one at `position`
/// comes after the entries of the registry that stand before it.
pub proof fn lemma_listing_complete<M>(
    entries: Seq<RawRegistryEntry<M>>,
    key: TypeKey,
    position: int,
)
    requires
        0 <= position < entries.len(),
        entries[position].registry_id().key() == key,
    ensures
        listing(entries.take(position), key).len() < listing(entries, key).len(),
        listing(entries, key)[listing(entries.take(position), key).len() as int] == (Listed {
            id: RegistrationIdView {
                raw: position as nat,
                ordinal: listing(entries.take(position), key).len(),
            },
            entry: entries[position],
        }),
{
    lemma_listing_step(entries, key, position);
    lemma_listing_prefix(entries, key, position + 1);
    let found = listing(entries.take(position + 1), key);
    let ordinal = listing(entries.take(position), key).len() as int;
    assert(listing(entries, key).take(found.len() as int)[ordinal] == found[ordinal]);
}

/// Adding an entry at the end of a collection leaves the enumeration of
/// every registry as it was, but for the new entry at its end where the entry
/// belongs to the registry. So an identifier keeps naming its entry.
pub proof fn lemma_listing_append<M>(
    entries: Seq<RawRegistryEntry<M>>,
    entry: RawRegistryEntry<M>,
    key: TypeKey,
)
    ensures
        entry.registry_id().key() == key ==> listing(entries.push(entry), key) == listing(
            entries,
            key,
        ).push(
            Listed {
                id: RegistrationIdView {
                    raw: entries.len(),
                    ordinal: listing(entries, key).len(),
                },
                entry,
            },
        ),
        entry.registry_id().key() != key ==> listing(entries.push(entry), key) == listing(
            entries,
            key,
        ),
{
    assert(entries.push(entry).drop_last() =~= entries);
}

/// Iterator over the entries in a registry.
pub struct Iter<'a, R: Registry> {
    /// The raw collection that is gone through.
    registry: &'a RawRegistry<R::TypeInfo>,
    /// The position in the raw collection at which the scan goes on.
    raw_index: usize,
    /// Keeps track of the next entry's position in its registry.
    next_index: usize,
    /// Marker of the registry being iterated over.
    marker: PhantomData<R>,
}

impl<'a, R: Registry> Iter<'a, R> {
    #[verifier::type_invariant]
    spec fn well_formed(&self) -> bool {
        &&& self.raw_index <= self.registry@.len()
        &&& self.next_index == listing(self.registry@.take(self.raw_index as int), R::KEY).len()
    }

    /// The raw collection that is gone through.
    pub closed spec fn source(&self) -> Seq<RawRegistryEntry<R::TypeInfo>> {
        self.registry@
    }

    /// The number of entries that the iterator has handed out.
    pub closed spec fn yielded(&self) -> nat {
        self.next_index as nat
    }

    /// What the iterator has yet to hand out: the enumeration of the registry
    /// without the entries handed out so far.
    pub open spec fn remaining(&self) -> Seq<Listed<R::TypeInfo>> {
        listing(self.source(), R::KEY).skip(self.yielded() as int)
    }

    /// What an iterator hands out from now on is settled by the collection it
    /// goes through, the registry, and the number of entries it has handed
    /// out: two enumerations of one registry over one collection hand out the
    /// same identifiers and entries in the same order.
    pub proof fn lemma_enumeration_repeats<'b>(self, other: Iter<'b, R>)
        requires
            self.source() == other.source(),
            self.yielded() == other.yielded(),
        ensures
            self.remaining() == other.remaining(),
    {
    }

    /// Creates a new iterator over the entries, and their identifiers, of the
    /// registry `R` in a raw collection.
    pub fn new(registry: &'a RawRegistry<R::TypeInfo>) -> (iter: Self)
        ensures
            iter.source() == registry@,
            iter.yielded() == 0,
            iter.remaining() == listing(registry@, R::KEY),
    {
        assert(registry@.take(0) =~= Seq::empty());
        assert(listing(registry@, R::KEY).skip(0) =~= listing(registry@, R::KEY));
        Iter { registry, raw_index: 0, next_index: 0, marker: PhantomData }
    }

    /// Hands out the next entry of the registry, with its identifier, or
    /// `None` when every entry of the registry has been handed out.
    pub fn next(&mut self) -> (item: Option<(RegistrationId<R>, RegistryEntry<'a, R>)>)
        ensures
            final(self).source() == old(self).source(),
            match item {
                Some((id, entry)) => {
                    &&& old(self).remaining().len() > 0
                    &&& id@ == old(self).remaining()[0].id
                    &&& id@.ordinal == old(self).yielded()
                    &&& id.names(old(self).source())
                    &&& *entry.raw() == old(self).remaining()[0].entry
                    &&& *entry.raw() == old(self).source()[id@.raw as int]
                    &&& final(self).yielded() == old(self).yielded() + 1
                    &&& final(self).remaining() == old(self).remaining().drop_first()
                },
                None => {
                    &&& old(self).remaining().len() == 0
                    &&& final(self).yielded() == old(self).yielded()
                    &&& final(self).remaining() == old(self).remaining()
                },
            },
    {
        proof {
            use_type_invariant(&*self);
        }
        let registry = self.registry;
        let len = registry.len();
        let ghost entries = registry@;
        let ghost all = listing(entries, R::KEY);
        while self.raw_index < len
            invariant
                old(self).registry == registry,
                self.registry == registry,
                entries == registry@,
                all == listing(entries, R::KEY),
                len == entries.len(),
                self.raw_index <= len,
                self.next_index == old(self).next_index,
                self.next_index == listing(entries.take(self.raw_index as int), R::KEY).len(),
            decreases len - self.raw_index,
        {
            let raw_index = self.raw_index;
            let registry_index = self.next_index;
            let next_raw = registry.get(raw_index);
            proof {
                lemma_listing_step(entries, R::KEY, raw_index as int);
                lemma_listing_prefix(entries, R::KEY, raw_index as int + 1);
                lemma_listing_len(entries.take(raw_index as int + 1), R::KEY);
            }
            if next_raw.registry_id() == RegistryId::of::<R>() {
                *self =
                Iter {
                    registry,
                    raw_index: raw_index + 1,
                    next_index: registry_index + 1,
                    marker: PhantomData,
                };
                proof {
                    let found = listing(entries.take(raw_index as int + 1), R::KEY);
                    assert(all[registry_index as int] == found[registry_index as int]);
                    assert(all.skip(registry_index as int + 1) =~= all.skip(
                        registry_index as int,
                    ).drop_first());
                }
                return Some(
                    (RegistrationId::new(raw_index, registry_index), RegistryEntry::new(next_raw)),
                );
            }
            *self = Iter { registry, raw_index: raw_index + 1, next_index: registry_index, marker: PhantomData };
        }
        proof {
            assert(entries.take(len as int) =~= entries);
        }
        None
    }
}

} // verus!
