use crate::raw::TypeKey;
use vstd::prelude::*;

verus! {

/// A logical registry of types.
///
/// The type that implements it is a marker: it stands for the registry, and
/// no value of it is ever asked for.
pub trait Registry: 'static + Send + Sync {
    /// The type of the information that is provided for each registered type.
    type TypeInfo;

    /// The key of the registry: what tells it from every other registry.
    const KEY: TypeKey;

    /// A name for the registry. Only used for informational purposes.
    const NAME: &'static str;
}

} // verus!
