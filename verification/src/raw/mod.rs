//! The raw registry: one ordered collection that holds the entries of every
//! logical registry, each entry saying to which registry it belongs.

mod registration_id;
mod registry;
mod registry_entry;
mod registry_id;
mod registry_info;

pub use registration_id::RegistrationId;
pub use registry::RawRegistry;
pub use registry_entry::RegistryEntry;
pub use registry_id::RegistryId;
pub use registry_id::TypeKey;
pub use registry_info::RegistryInfo;
