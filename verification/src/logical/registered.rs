use crate::logical::Registry;
use crate::raw::TypeKey;
use vstd::prelude::*;

verus! {

/// Marks a type as one that is registered to the registry `R`, and says what
/// its entry holds. [`Registration::new`](crate::logical::Registration::new)
/// adds that entry to a raw collection.
pub trait Registered<R: Registry> {
    /// The key of the type: what tells it from every other type.
    const TYPE_KEY: TypeKey;

    /// The name of the type. Only used for informational purposes.
    const TYPE_NAME: &'static str;

    /// The information about the type that the registry asks for.
    const TYPE_INFO: R::TypeInfo;
}

} // verus!
