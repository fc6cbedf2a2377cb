//! What the `register` attribute decides.
//!
//! The attribute is written on a struct, an enum or a union, and names the
//! registry that the type is registered to. Its arguments and the item arrive
//! here read already, as text and plain values; what is decided here is
//! which items are accepted, which of the item's attributes are the
//! attribute's own, and what the implementation that is written out for the
//! type is made of.

mod crate_attribute;
mod register;
mod register_attr;
mod register_input;

pub use crate_attribute::CrateAttribute;
pub use register::register;
pub use register::Expansion;
pub use register::RegisterError;
pub use register_attr::default_init_type_info_expr;
pub use register_attr::RegisterAttr;
pub use register_input::AttrStyle;
pub use register_input::Attribute;
pub use register_input::ItemKind;
pub use register_input::Meta;
pub use register_input::RegisterInput;
