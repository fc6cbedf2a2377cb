use type_registry::raw::RegistryEntry;
use type_registry::raw::RegistryInfo;
use type_registry::{Registered, Registry, RegistryId, TypeKey};

struct Shapes;

impl Registry for Shapes {
    type TypeInfo = u32;

    const KEY: TypeKey = 1;

    const NAME: &'static str = "Shapes";
}

/// The same registry, reached under another name.
struct ShapesAgain;

impl Registry for ShapesAgain {
    type TypeInfo = u32;

    const KEY: TypeKey = 1;

    const NAME: &'static str = "Shapes, again";
}

struct Solids;

impl Registry for Solids {
    type TypeInfo = u32;

    const KEY: TypeKey = 2;

    const NAME: &'static str = "Solids";
}

struct Circle;

impl Registered<Shapes> for Circle {
    const TYPE_KEY: TypeKey = 10;

    const TYPE_NAME: &'static str = "Circle";

    const TYPE_INFO: u32 = 42;
}

#[test]
fn registry_identity_is_its_key() {
    let shapes = RegistryId::of::<Shapes>();
    assert_eq!(shapes.key(), 1);
    assert_eq!(shapes.name(), "Shapes");
    assert!(shapes == RegistryId::of::<Shapes>());
    assert!(shapes == RegistryId::of::<ShapesAgain>());
    assert!(shapes != RegistryId::of::<Solids>());
    assert_eq!(RegistryId::of::<Solids>().key(), 2);
}

#[test]
fn registry_info_describes_the_registry() {
    let info = RegistryInfo::of::<Solids>();
    assert_eq!(info.type_id(), 2);
    assert_eq!(info.name(), "Solids");
    assert!(info.id() == RegistryId::of::<Solids>());
    assert!(info == RegistryInfo::of::<Solids>());
    assert!(info != RegistryInfo::of::<Shapes>());
    assert!(RegistryInfo::of::<Shapes>() == RegistryInfo::of::<ShapesAgain>());

    let through_id = RegistryId::of::<Shapes>().info();
    assert_eq!(through_id.type_id(), 1);
    assert_eq!(through_id.name(), "Shapes");
    assert!(through_id.id() == RegistryId::of::<Shapes>());
}

#[test]
fn raw_entry_holds_what_the_type_provides() {
    let entry: RegistryEntry<u32> = RegistryEntry::new::<Shapes, Circle>();
    assert!(entry.registry_id() == RegistryId::of::<Shapes>());
    assert_eq!(entry.registry_id().name(), "Shapes");
    assert_eq!(entry.type_id(), 10);
    assert_eq!(entry.display_name(), "Circle");
    assert_eq!(*entry.type_info(), 42);
}
