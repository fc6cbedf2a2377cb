use crate::logical::fold;
use crate::logical::index_of;
use crate::logical::lemma_fold_stopped;
use crate::logical::listing;
use crate::logical::Index;
use crate::logical::Iter;
use crate::logical::Registry;
use crate::raw::RawRegistry;
use crate::raw::RegistryEntry as RawRegistryEntry;
use core::ops::ControlFlow;
use vstd::prelude::*;

verus! {

/// Extension methods for registries.
pub trait RegistryExt: Registry + Sized {
    /// Iterates over the entries of the registry in a raw collection.
    fn iter<'a>(registry: &'a RawRegistry<Self::TypeInfo>) -> (iter: Iter<'a, Self>)
        ensures
            iter.source() == registry@,
            iter.yielded() == 0,
            iter.remaining() == listing(registry@, Self::KEY),
    ;

    /// Accesses an index of the registry over a raw collection. The index is
    /// built when it is first asked for, and that storage is handed out from
    /// then on.
    fn index<I: Index<Self>>(
        registry: &'static RawRegistry<Self::TypeInfo>,
    ) -> (storage: &'static I::Storage)
        ensures
            I::contents(storage) == index_of::<Self, I>(registry@),
    ;
}

impl<R: Registry> RegistryExt for R {
    fn iter<'a>(registry: &'a RawRegistry<R::TypeInfo>) -> (iter: Iter<'a, R>) {
        Iter::new(registry)
    }

    fn index<I: Index<R>>(
        registry: &'static RawRegistry<R::TypeInfo>,
    ) -> (storage: &'static I::Storage) {
        registry.index_once::<R, I>().unwrap()
    }
}

/// Whoever asks for the index `I` of the registry `R` over one collection is
/// handed a storage that holds the same: what [`RegistryExt::index`] hands out
/// to one caller holds what it hands out to any other.
pub proof fn lemma_index_is_shared<R: Registry, I: Index<R>>(
    entries: Seq<RawRegistryEntry<R::TypeInfo>>,
    first: &I::Storage,
    second: &I::Storage,
)
    requires
        I::contents(first) == index_of::<R, I>(entries),
        I::contents(second) == index_of::<R, I>(entries),
    ensures
        I::contents(first) == I::contents(second),
{
}

/// Builds the index `I` over the registry `R`: allocates its storage, then
/// hands it the entries of `R` in their order, until the last of them went in
/// or the index asks for no more.
pub fn build_index<R: Registry, I: Index<R>>(
    registry: &RawRegistry<R::TypeInfo>,
) -> (storage: I::Storage)
    ensures
        I::contents(&storage) == index_of::<R, I>(registry@),
{
    let mut storage = I::allocate();
    let mut iter = Iter::<R>::new(registry);
    let ghost all = listing(registry@, R::KEY);
    let ghost mut done: int = 0;
    proof {
        assert(all.take(0) =~= Seq::empty());
    }
    loop
        invariant_except_break
            !fold::<R, I>(all.take(done)).1,
        invariant
            all == listing(registry@, R::KEY),
            iter.source() == registry@,
            0 <= done <= all.len(),
            iter.yielded() == done,
            I::contents(&storage) == fold::<R, I>(all.take(done)).0,
        ensures
            I::contents(&storage) == fold::<R, I>(all).0,
        decreases all.len() - done,
    {
        match iter.next() {
            None => {
                proof {
                    assert(all.take(done) =~= all);
                }
                break ;
            },
            Some((id, entry)) => {
                let flow = I::associate(&mut storage, id, entry);
                proof {
                    assert(all.take(done + 1).drop_last() =~= all.take(done));
                    assert(all.take(done + 1).last() == all[done]);
                    done = done + 1;
                }
                match flow {
                    ControlFlow::Continue(_) => {},
                    ControlFlow::Break(_) => {
                        proof {
                            lemma_fold_stopped::<R, I>(all, done);
                        }
                        break ;
                    },
                }
            },
        }
    }
    storage
}

} // verus!
