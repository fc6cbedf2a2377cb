//! Registries of types.
//!
//! Types are registered into one raw collection, each entry tagged with the
//! logical registry it belongs to. A logical registry is a type that
//! implements [`Registry`]; the entries that belong to it are enumerated in
//! the order in which they were registered, each with its position within the
//! registry, and indexes over them are built by folding that enumeration.
//!
//! Identities are numbers. A registry names its own through
//! [`Registry::KEY`], a registered type through [`Registered::TYPE_KEY`], and
//! two registries, or two registered types, are the same exactly when their
//! keys are equal.
//!
//! - [`raw`] holds the raw collection and what stands in it.
//! - [`logical`] holds the registries: their enumeration, the identifiers and
//!   entries that it hands out, and the indexes that are built from it.
//! - [`frontend`] holds what the attribute that registers a type decides.
//! - [`text`] writes numbers.

pub mod frontend;
pub mod logical;
pub mod raw;
pub mod text;

pub use logical::build_index;
pub use logical::fold;
pub use logical::index_of;
pub use logical::listing;
pub use logical::type_index;
pub use logical::Duplicate;
pub use logical::Index;
pub use logical::Iter;
pub use logical::LenientTypeIndex;
pub use logical::Listed;
pub use logical::Registered;
pub use logical::Registration;
pub use logical::RegistrationId;
pub use logical::RegistrationIdView;
pub use logical::Registry;
pub use logical::RegistryEntry;
pub use logical::RegistryExt;
pub use logical::StrictTypeIndex;
pub use logical::TypeIndex;
pub use logical::TypeIndexView;
pub use raw::RawRegistry;
pub use raw::RegistryId;
pub use raw::TypeKey;
