use crate::logical::lemma_listing_items;
use crate::logical::listing;
use crate::logical::Listed;
use crate::logical::RegistrationId;
use crate::logical::RegistrationIdView;
use crate::logical::Registry;
use crate::logical::RegistryEntry;
use crate::raw::RegistryEntry as RawRegistryEntry;
use crate::raw::TypeKey;
use core::ops::ControlFlow;
use std::collections::HashMap;
use vstd::prelude::*;
use vstd::string::StringExecFns;

verus! {

/// An index over a registry: something that is built by going through the
/// entries of the registry once, in their order.
///
/// What a storage holds is spoken of as a mathematical value, its contents.
/// An index says what a new storage holds, and what a storage holds after one
/// more entry went into it.
pub trait Index<R: Registry>: 'static {
    /// The type used to store the index.
    type Storage: 'static + Sync + Send;

    /// What a storage holds.
    type Contents;

    /// What `storage` holds.
    spec fn contents(storage: &Self::Storage) -> Self::Contents;

    /// What a new storage holds.
    spec fn empty() -> Self::Contents;

    /// What a storage that held `contents` holds once `item` went into it,
    /// and whether the index is complete with that and asks for no more
    /// entries.
    spec fn step(contents: Self::Contents, item: Listed<R::TypeInfo>) -> (Self::Contents, bool);

    /// Allocates the storage (initially empty).
    fn allocate() -> (storage: Self::Storage)
        ensures
            Self::contents(&storage) == Self::empty(),
    ;

    /// Inserts a registration into the index. The return value indicates
    /// whether to continue building the index or to stop early.
    fn associate<'a>(
        storage: &mut Self::Storage,
        id: RegistrationId<R>,
        entry: RegistryEntry<'a, R>,
    ) -> (flow: ControlFlow<()>)
        ensures
            Self::contents(final(storage)) == Self::step(
                Self::contents(old(storage)),
                Listed { id: id@, entry: *entry.raw() },
            ).0,
            (flow is Break) == Self::step(
                Self::contents(old(storage)),
                Listed { id: id@, entry: *entry.raw() },
            ).1,
    ;
}

/// What the index `I` holds once the items went into it in their order, and
/// whether it asked for no more on the way. Items that follow the one at
/// which it asked for no more do not go into it.
pub open spec fn fold<R: Registry, I: Index<R>>(items: Seq<Listed<R::TypeInfo>>) -> (
    I::Contents,
    bool,
)
    decreases items.len(),
{
    if items.len() == 0 {
        (I::empty(), false)
    } else {
        let before = fold::<R, I>(items.drop_last());
        if before.1 {
            before
        } else {
            I::step(before.0, items.last())
        }
    }
}

/// What the index `I` over the registry `R` holds, built from the entries of
/// a raw collection: the entries of `R` went into it, in their order, until
/// it asked for no more.
pub open spec fn index_of<R: Registry, I: Index<R>>(
    entries: Seq<RawRegistryEntry<R::TypeInfo>>,
) -> I::Contents {
    fold::<R, I>(listing(entries, R::KEY)).0
}

/// Once an index has asked for no more entries, the items that follow change
/// nothing.
pub proof fn lemma_fold_stopped<R: Registry, I: Index<R>>(
    items: Seq<Listed<R::TypeInfo>>,
    count: int,
)
    requires
        0 <= count <= items.len(),
        fold::<R, I>(items.take(count)).1,
    ensures
        fold::<R, I>(items) == fold::<R, I>(items.take(count)),
    decreases items.len(),
{
    if count == items.len() {
        assert(items.take(count) =~= items);
    } else {
        assert(items.drop_last().take(count) =~= items.take(count));
        lemma_fold_stopped::<R, I>(items.drop_last(), count);
    }
}

/// A registration of a key that was registered already.
pub struct Duplicate {
    /// The identifier of the registration.
    pub id: RegistrationIdView,
    /// The name of the registered type.
    pub name: &'static str,
}

/// What a [`TypeIndex`] holds.
pub struct TypeIndexView {
    /// The identifier that is found under the key of a registered type.
    pub ids: Map<TypeKey, RegistrationIdView>,
    /// The registration at which the index was given up: the first one whose
    /// key was there already, where the index takes no key twice.
    pub duplicate: Option<Duplicate>,
}

/// The storage of an index that finds the registrations of a registry by the
/// key of the registered type.
pub struct TypeIndex<R: Registry> {
    ids: HashMap<TypeKey, RegistrationId<R>>,
    duplicate: Option<(RegistrationId<R>, &'static str)>,
}

impl<R: Registry> View for TypeIndex<R> {
    type V = TypeIndexView;

    closed spec fn view(&self) -> TypeIndexView {
        TypeIndexView {
            ids: self.ids@.map_values(|id: RegistrationId<R>| id@),
            duplicate: match self.duplicate {
                Some((id, name)) => Some(Duplicate { id: id@, name }),
                None => None,
            },
        }
    }
}

impl<R: Registry> TypeIndex<R> {
    fn new() -> (index: Self)
        ensures
            index@ == (TypeIndexView { ids: Map::empty(), duplicate: None }),
    {
        let index = TypeIndex { ids: HashMap::new(), duplicate: None };
        assert(index@.ids =~= Map::empty());
        index
    }

    fn insert(&mut self, key: TypeKey, id: RegistrationId<R>)
        ensures
            final(self)@ == (TypeIndexView {
                ids: old(self)@.ids.insert(key, id@),
                duplicate: old(self)@.duplicate,
            }),
    {
        self.ids.insert(key, id);
        assert(self@.ids =~= old(self)@.ids.insert(key, id@));
    }

    fn give_up(&mut self, id: RegistrationId<R>, name: &'static str)
        ensures
            final(self)@ == (TypeIndexView {
                ids: old(self)@.ids,
                duplicate: Some(Duplicate { id: id@, name }),
            }),
    {
        self.duplicate = Some((id, name));
    }

    /// Whether a registration is found under `key`.
    pub fn contains(&self, key: TypeKey) -> (found: bool)
        ensures
            found == self@.ids.contains_key(key),
    {
        self.ids.contains_key(&key)
    }

    /// The identifier of the registration that is found under `key`.
    pub fn get(&self, key: TypeKey) -> (id: Option<RegistrationId<R>>)
        ensures
            match id {
                Some(id) => self@.ids.contains_key(key) && id@ == self@.ids[key],
                None => !self@.ids.contains_key(key),
            },
    {
        match self.ids.get(&key) {
            Some(id) => Some(*id),
            None => None,
        }
    }

    /// The registration at which the index was given up, if it was.
    pub fn duplicate(&self) -> (id: Option<RegistrationId<R>>)
        ensures
            match id {
                Some(id) => self@.duplicate matches Some(duplicate) && duplicate.id == id@,
                None => self@.duplicate is None,
            },
    {
        match self.duplicate {
            Some((id, _)) => Some(id),
            None => None,
        }
    }

    /// What is said of the registration at which the index was given up.
    pub open spec fn spec_failure(&self) -> Option<Seq<char>> {
        match self@.duplicate {
            Some(duplicate) => Some(
                "duplicate '"@ + R::NAME@ + "' registration for '"@ + duplicate.name@ + "'"@,
            ),
            None => None,
        }
    }

    /// What is said of the registration at which the index was given up, if
    /// it was: the name of the registry, and the name of the type that was
    /// registered once more.
    pub fn failure(&self) -> (message: Option<String>)
        ensures
            match message {
                Some(text) => self.spec_failure() == Some(text@),
                None => self.spec_failure() is None,
            },
    {
        match self.duplicate {
            Some((_, name)) => {
                let mut text = String::from_str("duplicate '");
                text.append(R::NAME);
                text.append("' registration for '");
                text.append(name);
                text.append("'");
                Some(text)
            },
            None => None,
        }
    }
}

/// What the index by type that takes no key twice holds, built over the
/// registry `R` from the entries of a raw collection.
pub open spec fn type_index<R: Registry>(
    entries: Seq<RawRegistryEntry<R::TypeInfo>>,
) -> TypeIndexView {
    index_of::<R, StrictTypeIndex>(entries)
}

/// The index of a registry by the key of the registered type that takes no
/// key twice: at the first registration whose key is there already it is
/// given up, and asks for no more entries.
pub struct StrictTypeIndex;

/// The index of a registry by the key of the registered type in which a later
/// registration of a key takes the place of an earlier one.
pub struct LenientTypeIndex;

impl<R: Registry> Index<R> for StrictTypeIndex {
    type Storage = TypeIndex<R>;

    type Contents = TypeIndexView;

    open spec fn contents(storage: &TypeIndex<R>) -> TypeIndexView {
        storage@
    }

    open spec fn empty() -> TypeIndexView {
        TypeIndexView { ids: Map::empty(), duplicate: None }
    }

    open spec fn step(contents: TypeIndexView, item: Listed<R::TypeInfo>) -> (TypeIndexView, bool) {
        if contents.ids.contains_key(item.entry.type_id()) {
            (
                TypeIndexView {
                    ids: contents.ids,
                    duplicate: Some(Duplicate { id: item.id, name: item.entry.display_name() }),
                },
                true,
            )
        } else {
            (
                TypeIndexView {
                    ids: contents.ids.insert(item.entry.type_id(), item.id),
                    duplicate: contents.duplicate,
                },
                false,
            )
        }
    }

    fn allocate() -> (storage: TypeIndex<R>) {
        TypeIndex::new()
    }

    fn associate<'a>(
        storage: &mut TypeIndex<R>,
        id: RegistrationId<R>,
        entry: RegistryEntry<'a, R>,
    ) -> (flow: ControlFlow<()>) {
        let key = entry.raw().type_id();
        if storage.contains(key) {
            storage.give_up(id, entry.raw().display_name());
            ControlFlow::Break(())
        } else {
            storage.insert(key, id);
            ControlFlow::Continue(())
        }
    }
}

impl<R: Registry> Index<R> for LenientTypeIndex {
    type Storage = TypeIndex<R>;

    type Contents = TypeIndexView;

    open spec fn contents(storage: &TypeIndex<R>) -> TypeIndexView {
        storage@
    }

    open spec fn empty() -> TypeIndexView {
        TypeIndexView { ids: Map::empty(), duplicate: None }
    }

    open spec fn step(contents: TypeIndexView, item: Listed<R::TypeInfo>) -> (TypeIndexView, bool) {
        (
            TypeIndexView {
                ids: contents.ids.insert(item.entry.type_id(), item.id),
                duplicate: contents.duplicate,
            },
            false,
        )
    }

    fn allocate() -> (storage: TypeIndex<R>) {
        TypeIndex::new()
    }

    fn associate<'a>(
        storage: &mut TypeIndex<R>,
        id: RegistrationId<R>,
        entry: RegistryEntry<'a, R>,
    ) -> (flow: ControlFlow<()>) {
        storage.insert(entry.raw().type_id(), id);
        ControlFlow::Continue(())
    }
}

/// Whether no two of the items are registrations of one key.
pub open spec fn keys_distinct<M>(items: Seq<Listed<M>>) -> bool {
    forall|i: int, j: int|
        0 <= i < j < items.len() ==> (#[trigger] items[i]).entry.type_id() != (
        #[trigger] items[j]).entry.type_id()
}

/// Whether the item at `position` is the last registration of its key.
pub open spec fn last_of_key<M>(items: Seq<Listed<M>>, position: int) -> bool {
    &&& 0 <= position < items.len()
    &&& forall|j: int|
        position < j < items.len() ==> (#[trigger] items[j]).entry.type_id()
            != items[position].entry.type_id()
}

/// What the index that takes no key twice comes to.
///
/// Where no two items are registrations of one key, it is not given up, and
/// under the key of each item it holds the identifier of that item, and
/// nothing under any other key. Where two are, it is given up at the first
/// item whose key an earlier item has, and holds what it held before that
/// item.
pub proof fn lemma_strict_index<R: Registry>(items: Seq<Listed<R::TypeInfo>>)
    ensures
        keys_distinct(items) ==> {
            let built = fold::<R, StrictTypeIndex>(items);
            &&& !built.1
            &&& built.0.duplicate is None
            &&& forall|k: int|
                0 <= k < items.len() ==> built.0.ids.contains_key(
                    (#[trigger] items[k]).entry.type_id(),
                ) && built.0.ids[items[k].entry.type_id()] == items[k].id
            &&& forall|key: TypeKey| #[trigger]
                built.0.ids.contains_key(key) ==> exists|k: int|
                    0 <= k < items.len() && (#[trigger] items[k]).entry.type_id() == key
        },
        !keys_distinct(items) ==> {
            let built = fold::<R, StrictTypeIndex>(items);
            &&& built.1
            &&& exists|at: int|
                {
                    &&& 0 <= at < items.len()
                    &&& keys_distinct(#[trigger] items.take(at))
                    &&& !keys_distinct(items.take(at + 1))
                    &&& built.0.duplicate == Some(
                        Duplicate { id: items[at].id, name: items[at].entry.display_name() },
                    )
                    &&& built.0.ids == fold::<R, StrictTypeIndex>(items.take(at)).0.ids
                }
        },
    decreases items.len(),
{
    if items.len() > 0 {
        let earlier = items.drop_last();
        let last = items.last();
        let before = fold::<R, StrictTypeIndex>(earlier);
        let built = fold::<R, StrictTypeIndex>(items);
        lemma_strict_index::<R>(earlier);
        assert(forall|i: int| 0 <= i < earlier.len() ==> earlier[i] == items[i]);
        assert(items.take(items.len() as int) =~= items);
        assert(items.take(items.len() - 1) =~= earlier);
        if keys_distinct(earlier) {
            if before.0.ids.contains_key(last.entry.type_id()) {
                let k = choose|k: int|
                    0 <= k < earlier.len() && (#[trigger] earlier[k]).entry.type_id()
                        == last.entry.type_id();
                assert(items[k].entry.type_id() == items[items.len() - 1].entry.type_id());
                assert(!keys_distinct(items));
                assert(keys_distinct(items.take(items.len() - 1)));
            } else {
                assert forall|i: int, j: int| 0 <= i < j < items.len() implies (
                #[trigger] items[i]).entry.type_id() != (#[trigger] items[j]).entry.type_id() by {
                    if j == items.len() - 1 {
                        assert(before.0.ids.contains_key(earlier[i].entry.type_id()));
                    } else {
                        assert(earlier[i].entry.type_id() != earlier[j].entry.type_id());
                    }
                }
                assert forall|key: TypeKey| #[trigger]
                    built.0.ids.contains_key(key) implies exists|k: int|
                    0 <= k < items.len() && (#[trigger] items[k]).entry.type_id() == key by {
                    if key == last.entry.type_id() {
                        assert(items[items.len() - 1].entry.type_id() == key);
                    } else {
                        assert(before.0.ids.contains_key(key));
                        let k = choose|k: int|
                            0 <= k < earlier.len() && (#[trigger] earlier[k]).entry.type_id()
                                == key;
                        assert(items[k].entry.type_id() == key);
                    }
                }
                assert forall|k: int| 0 <= k < items.len() implies built.0.ids.contains_key(
                    (#[trigger] items[k]).entry.type_id(),
                ) && built.0.ids[items[k].entry.type_id()] == items[k].id by {
                    if k < items.len() - 1 {
                        assert(earlier[k].entry.type_id() != last.entry.type_id());
                    }
                }
            }
        } else {
            let (i, j) = choose|i: int, j: int|
                0 <= i < j < earlier.len() && (#[trigger] earlier[i]).entry.type_id() == (
                #[trigger] earlier[j]).entry.type_id();
            assert(items[i].entry.type_id() == items[j].entry.type_id());
            assert(!keys_distinct(items));
            let at = choose|at: int|
                {
                    &&& 0 <= at < earlier.len()
                    &&& keys_distinct(#[trigger] earlier.take(at))
                    &&& !keys_distinct(earlier.take(at + 1))
                    &&& before.0.duplicate == Some(
                        Duplicate { id: earlier[at].id, name: earlier[at].entry.display_name() },
                    )
                    &&& before.0.ids == fold::<R, StrictTypeIndex>(earlier.take(at)).0.ids
                };
            assert(items.take(at) =~= earlier.take(at));
            assert(items.take(at + 1) =~= earlier.take(at + 1));
        }
    }
}

/// The index by type of a registry is given up exactly where two entries of
/// the registry are registrations of one key.
pub proof fn lemma_type_index_given_up<R: Registry>(entries: Seq<RawRegistryEntry<R::TypeInfo>>)
    ensures
        type_index::<R>(entries).duplicate is None <==> keys_distinct(listing(entries, R::KEY)),
{
    lemma_strict_index::<R>(listing(entries, R::KEY));
}

/// Where the index by type of a registry was not given up, what it holds
/// under a key is the identifier of the one entry of the registry that is a
/// registration of that key: an item of the enumeration of the registry.
pub proof fn lemma_type_index_ids<R: Registry>(
    entries: Seq<RawRegistryEntry<R::TypeInfo>>,
    key: TypeKey,
)
    requires
        type_index::<R>(entries).duplicate is None,
        type_index::<R>(entries).ids.contains_key(key),
    ensures
        ({
            let id = type_index::<R>(entries).ids[key];
            &&& id.raw < entries.len()
            &&& entries[id.raw as int].registry_id().key() == R::KEY
            &&& entries[id.raw as int].type_id() == key
            &&& id.ordinal < listing(entries, R::KEY).len()
            &&& listing(entries, R::KEY)[id.ordinal as int] == (Listed {
                id,
                entry: entries[id.raw as int],
            })
        }),
{
    let items = listing(entries, R::KEY);
    lemma_strict_index::<R>(items);
    lemma_listing_items(entries, R::KEY);
    let k = choose|k: int| 0 <= k < items.len() && (#[trigger] items[k]).entry.type_id() == key;
    assert(type_index::<R>(entries).ids[items[k].entry.type_id()] == items[k].id);
}

/// What the index in which a later registration takes the place of an
/// earlier one comes to: it is never given up, it holds something under a key
/// exactly where an item is a registration of that key, and under the key of
/// an item that is the last registration of its key it holds the identifier
/// of that item. Every key under which it holds something has such a last
/// registration.
pub proof fn lemma_lenient_index<R: Registry>(items: Seq<Listed<R::TypeInfo>>)
    ensures
        !fold::<R, LenientTypeIndex>(items).1,
        fold::<R, LenientTypeIndex>(items).0.duplicate is None,
        forall|key: TypeKey| #[trigger]
            fold::<R, LenientTypeIndex>(items).0.ids.contains_key(key) <==> exists|k: int|
                0 <= k < items.len() && (#[trigger] items[k]).entry.type_id() == key,
        forall|key: TypeKey| #[trigger]
            fold::<R, LenientTypeIndex>(items).0.ids.contains_key(key) ==> exists|k: int| #[trigger]
                last_of_key(items, k) && items[k].entry.type_id() == key,
        forall|k: int| #[trigger]
            last_of_key(items, k) ==> fold::<R, LenientTypeIndex>(items).0.ids.contains_key(
                items[k].entry.type_id(),
            ) && fold::<R, LenientTypeIndex>(items).0.ids[items[k].entry.type_id()] == items[k].id,
    decreases items.len(),
{
    if items.len() > 0 {
        let earlier = items.drop_last();
        let last = items.last();
        let before = fold::<R, LenientTypeIndex>(earlier);
        let built = fold::<R, LenientTypeIndex>(items);
        lemma_lenient_index::<R>(earlier);
        assert(forall|i: int| 0 <= i < earlier.len() ==> earlier[i] == items[i]);
        assert forall|key: TypeKey| #[trigger] built.0.ids.contains_key(key) <==> exists|k: int|
            0 <= k < items.len() && (#[trigger] items[k]).entry.type_id() == key by {
            if key == last.entry.type_id() {
                assert(items[items.len() - 1].entry.type_id() == key);
            } else if before.0.ids.contains_key(key) {
                let k = choose|k: int|
                    0 <= k < earlier.len() && (#[trigger] earlier[k]).entry.type_id() == key;
                assert(items[k].entry.type_id() == key);
            } else if exists|k: int|
                0 <= k < items.len() && (#[trigger] items[k]).entry.type_id() == key {
                let k = choose|k: int|
                    0 <= k < items.len() && (#[trigger] items[k]).entry.type_id() == key;
                assert(earlier[k].entry.type_id() == key);
            }
        }
        assert forall|key: TypeKey| #[trigger] built.0.ids.contains_key(key) implies exists|k: int|
            #[trigger] last_of_key(items, k) && items[k].entry.type_id() == key by {
            if key == last.entry.type_id() {
                assert(last_of_key(items, items.len() - 1));
            } else {
                assert(before.0.ids.contains_key(key));
                let k = choose|k: int| #[trigger]
                    last_of_key(earlier, k) && earlier[k].entry.type_id() == key;
                assert forall|j: int| k < j < items.len() implies (
                #[trigger] items[j]).entry.type_id() != items[k].entry.type_id() by {
                    if j < earlier.len() {
                        assert(earlier[j].entry.type_id() != earlier[k].entry.type_id());
                    }
                }
                assert(last_of_key(items, k));
            }
        }
        assert forall|k: int| #[trigger] last_of_key(items, k) implies built.0.ids.contains_key(
            items[k].entry.type_id(),
        ) && built.0.ids[items[k].entry.type_id()] == items[k].id by {
            if k < items.len() - 1 {
                assert(items[items.len() - 1].entry.type_id() != items[k].entry.type_id());
                assert(last_of_key(earlier, k)) by {
                    assert forall|j: int| k < j < earlier.len() implies (
                    #[trigger] earlier[j]).entry.type_id() != earlier[k].entry.type_id() by {
                        assert(items[j].entry.type_id() != items[k].entry.type_id());
                    }
                }
            }
        }
    }
}

} // verus!
