//! Logical registries, built on top of the raw registry.

mod index;
mod iter;
mod registered;
mod registration;
mod registration_id;
mod registry;
mod registry_entry;
mod registry_ext;

pub use index::fold;
pub use index::index_of;
pub use index::keys_distinct;
pub use index::last_of_key;
pub use index::lemma_fold_stopped;
pub use index::lemma_lenient_index;
pub use index::lemma_strict_index;
pub use index::lemma_type_index_given_up;
pub use index::lemma_type_index_ids;
pub use index::type_index;
pub use index::Duplicate;
pub use index::Index;
pub use index::LenientTypeIndex;
pub use index::StrictTypeIndex;
pub use index::TypeIndex;
pub use index::TypeIndexView;
pub use iter::lemma_listing_append;
pub use iter::lemma_listing_complete;
pub use iter::lemma_listing_entries;
pub use iter::lemma_listing_items;
pub use iter::lemma_listing_len;
pub use iter::lemma_listing_prefix;
pub use iter::lemma_listing_step;
pub use iter::listing;
pub use iter::Iter;
pub use iter::Listed;
pub use registered::Registered;
pub use registration::Registration;
pub use registration_id::lemma_registered_type_is_found;
pub use registration_id::RegistrationId;
pub use registration_id::RegistrationIdView;
pub use registry::Registry;
pub use registry_entry::RegistryEntry;
pub use registry_ext::build_index;
pub use registry_ext::lemma_index_is_shared;
pub use registry_ext::RegistryExt;
