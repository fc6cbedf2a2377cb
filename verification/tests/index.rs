use std::ops::ControlFlow;
use type_registry::{
    build_index, Index, LenientTypeIndex, Listed, RawRegistry, Registered, Registration,
    RegistrationId, Registry, RegistryEntry, RegistryExt, StrictTypeIndex, TypeKey,
};

struct ShapeInfo {
    area_fn: fn() -> u32,
}

fn const_area_42() -> u32 {
    42
}

fn const_area_7() -> u32 {
    7
}

fn const_area_3() -> u32 {
    3
}

struct Shapes;

impl Registry for Shapes {
    type TypeInfo = ShapeInfo;

    const KEY: TypeKey = 1;

    const NAME: &'static str = "Shapes";
}

struct Solids;

impl Registry for Solids {
    type TypeInfo = ShapeInfo;

    const KEY: TypeKey = 2;

    const NAME: &'static str = "Solids";
}

struct Circle;

impl Registered<Shapes> for Circle {
    const TYPE_KEY: TypeKey = 10;

    const TYPE_NAME: &'static str = "Circle";

    const TYPE_INFO: ShapeInfo = ShapeInfo { area_fn: const_area_42 };
}

struct Square;

impl Registered<Shapes> for Square {
    const TYPE_KEY: TypeKey = 11;

    const TYPE_NAME: &'static str = "Square";

    const TYPE_INFO: ShapeInfo = ShapeInfo { area_fn: const_area_7 };
}

/// A type that registers under the key of `Circle`.
struct Disc;

impl Registered<Shapes> for Disc {
    const TYPE_KEY: TypeKey = 10;

    const TYPE_NAME: &'static str = "Disc";

    const TYPE_INFO: ShapeInfo = ShapeInfo { area_fn: const_area_3 };
}

struct Cube;

impl Registered<Solids> for Cube {
    const TYPE_KEY: TypeKey = 10;

    const TYPE_NAME: &'static str = "Cube";

    const TYPE_INFO: ShapeInfo = ShapeInfo { area_fn: const_area_3 };
}

/// A shape without a size of its own.
#[allow(dead_code)]
struct Outline([u8]);

impl Registered<Shapes> for Outline {
    const TYPE_KEY: TypeKey = 13;

    const TYPE_NAME: &'static str = "Outline";

    const TYPE_INFO: ShapeInfo = ShapeInfo { area_fn: const_area_3 };
}

const TRIANGLE_KEY: TypeKey = 12;

fn circle_and_square() -> RawRegistry<ShapeInfo> {
    let mut registry = RawRegistry::new();
    Registration::<Shapes, Circle>::new(&mut registry);
    Registration::<Solids, Cube>::new(&mut registry);
    Registration::<Shapes, Square>::new(&mut registry);
    registry
}

fn circle_square_and_disc() -> RawRegistry<ShapeInfo> {
    let mut registry = RawRegistry::new();
    Registration::<Shapes, Circle>::new(&mut registry);
    Registration::<Shapes, Square>::new(&mut registry);
    Registration::<Solids, Cube>::new(&mut registry);
    Registration::<Shapes, Disc>::new(&mut registry);
    Registration::<Shapes, Square>::new(&mut registry);
    registry
}

fn forever(registry: RawRegistry<ShapeInfo>) -> &'static RawRegistry<ShapeInfo> {
    Box::leak(Box::new(registry))
}

#[test]
fn index_by_type_finds_registered_shapes() {
    let registry = forever(circle_and_square());

    let index = Shapes::index::<StrictTypeIndex>(registry);
    let circle = index.get(<Circle as Registered<Shapes>>::TYPE_KEY).unwrap();
    let square = index.get(<Square as Registered<Shapes>>::TYPE_KEY).unwrap();
    assert!(circle != square);
    assert_eq!((circle.raw().index(), circle.index()), (0, 0));
    assert_eq!((square.raw().index(), square.index()), (2, 1));
    assert_eq!(circle.entry(registry).raw().display_name(), "Circle");
    assert_eq!(square.entry(registry).raw().display_name(), "Square");
    assert!(index.contains(10));
    assert!(index.contains(11));
    assert!(!index.contains(TRIANGLE_KEY));
    assert!(index.get(TRIANGLE_KEY).is_none());
    assert!(index.duplicate().is_none());
    assert!(index.failure().is_none());
}

#[test]
fn registered_type_resolves_to_its_metadata() {
    let registry = forever(circle_and_square());

    let circle = RegistrationId::<Shapes>::of::<Circle>(registry);
    let square = RegistrationId::<Shapes>::of::<Square>(registry);
    assert_eq!((circle.metadata(registry).area_fn)(), 42);
    assert_eq!((square.metadata(registry).area_fn)(), 7);
    assert_eq!((circle.entry(registry).type_info().area_fn)(), 42);
    assert_eq!(circle.index(), 0);
    assert_eq!(square.index(), 1);

    let cube = RegistrationId::<Solids>::of::<Cube>(registry);
    assert_eq!((cube.raw().index(), cube.index()), (1, 0));
    assert_eq!((cube.metadata(registry).area_fn)(), 3);
}

#[test]
fn unsized_type_is_registered_like_any_other() {
    let mut registry: RawRegistry<ShapeInfo> = RawRegistry::new();
    Registration::<Shapes, Circle>::new(&mut registry);
    let outline = Registration::<Shapes, Outline>::new(&mut registry);
    assert_eq!(outline.raw().index(), 1);
    let registry = forever(registry);

    let id = RegistrationId::<Shapes>::of::<Outline>(registry);
    assert_eq!((id.raw().index(), id.index()), (1, 1));
    assert_eq!(id.entry(registry).raw().display_name(), "Outline");
    assert_eq!((id.metadata(registry).area_fn)(), 3);
}

#[test]
fn entry_finds_its_own_identifier() {
    let registry = forever(circle_and_square());
    let mut iter = Shapes::iter(registry);
    while let Some((id, entry)) = iter.next() {
        let found = entry.registration_id(registry);
        assert!(found == id);
        assert_eq!(found.index(), id.index());
    }
}

#[test]
fn index_is_built_once_and_shared() {
    let registry = forever(circle_and_square());
    let first = Shapes::index::<StrictTypeIndex>(registry);
    let second = Shapes::index::<StrictTypeIndex>(registry);
    assert!(std::ptr::eq(first, second));

    let lenient = Shapes::index::<LenientTypeIndex>(registry);
    assert!(!std::ptr::eq(first, lenient));
    assert!(std::ptr::eq(lenient, Shapes::index::<LenientTypeIndex>(registry)));

    let solids = Solids::index::<StrictTypeIndex>(registry);
    assert_eq!(solids.get(10).unwrap().raw().index(), 1);
    assert_eq!(first.get(10).unwrap().raw().index(), 0);
}

#[test]
fn collections_keep_their_own_indexes() {
    let small = forever(circle_and_square());
    let large = forever(circle_square_and_disc());
    let of_small = Shapes::index::<LenientTypeIndex>(small);
    let of_large = Shapes::index::<LenientTypeIndex>(large);
    assert_eq!(of_small.get(11).unwrap().raw().index(), 2);
    assert_eq!(of_large.get(11).unwrap().raw().index(), 4);
}

#[test]
fn strict_index_is_given_up_at_a_duplicate() {
    let registry = circle_square_and_disc();
    let index = build_index::<Shapes, StrictTypeIndex>(&registry);

    let duplicate = index.duplicate().unwrap();
    assert_eq!((duplicate.raw().index(), duplicate.index()), (3, 2));
    assert_eq!(duplicate.entry(&registry).raw().display_name(), "Disc");
    assert_eq!(
        index.failure().unwrap(),
        "duplicate 'Shapes' registration for 'Disc'"
    );

    assert_eq!(index.get(10).unwrap().raw().index(), 0);
    assert_eq!(index.get(11).unwrap().raw().index(), 1);
}

#[test]
fn lenient_index_keeps_the_later_registration() {
    let registry = circle_square_and_disc();
    let index = build_index::<Shapes, LenientTypeIndex>(&registry);

    assert!(index.duplicate().is_none());
    assert!(index.failure().is_none());
    let disc = index.get(10).unwrap();
    assert_eq!((disc.raw().index(), disc.index()), (3, 2));
    assert_eq!(disc.entry(&registry).raw().display_name(), "Disc");
    assert_eq!((disc.metadata(&registry).area_fn)(), 3);
    let square = index.get(11).unwrap();
    assert_eq!((square.raw().index(), square.index()), (4, 3));
    assert!(index.get(TRIANGLE_KEY).is_none());
}

#[test]
fn strict_and_lenient_agree_without_duplicates() {
    let registry = circle_and_square();
    let strict = build_index::<Shapes, StrictTypeIndex>(&registry);
    let lenient = build_index::<Shapes, LenientTypeIndex>(&registry);
    for key in [10, 11, TRIANGLE_KEY] {
        assert!(strict.get(key) == lenient.get(key));
    }
    assert!(strict.duplicate().is_none());
}

#[test]
fn index_over_empty_registry_is_empty() {
    let registry: RawRegistry<ShapeInfo> = RawRegistry::new();
    let index = build_index::<Shapes, StrictTypeIndex>(&registry);
    assert!(index.get(10).is_none());
    assert!(index.duplicate().is_none());
}

/// Finds the first shape whose area is under ten, and asks for no more
/// entries once it has one. It counts the entries that it was handed.
struct FirstSmall;

struct Search {
    seen: usize,
    found: Option<usize>,
}

impl Index<Shapes> for FirstSmall {
    type Storage = Search;

    type Contents = ();

    fn contents(_storage: &Search) {
        unreachable!()
    }

    fn empty() {
        unreachable!()
    }

    fn step(_contents: (), _item: Listed<ShapeInfo>) -> ((), bool) {
        unreachable!()
    }

    fn allocate() -> Search {
        Search { seen: 0, found: None }
    }

    fn associate<'a>(
        storage: &mut Search,
        id: RegistrationId<Shapes>,
        entry: RegistryEntry<'a, Shapes>,
    ) -> ControlFlow<()> {
        storage.seen += 1;
        if (entry.type_info().area_fn)() < 10 {
            storage.found = Some(id.index());
            ControlFlow::Break(())
        } else {
            ControlFlow::Continue(())
        }
    }
}

#[test]
fn index_that_asks_for_no_more_gets_no_more() {
    let registry = circle_square_and_disc();
    let search = build_index::<Shapes, FirstSmall>(&registry);
    assert_eq!(search.found, Some(1));
    assert_eq!(search.seen, 2);

    let mut circles = RawRegistry::new();
    Registration::<Shapes, Circle>::new(&mut circles);
    Registration::<Shapes, Circle>::new(&mut circles);
    Registration::<Shapes, Circle>::new(&mut circles);
    let search = build_index::<Shapes, FirstSmall>(&circles);
    assert_eq!(search.found, None);
    assert_eq!(search.seen, 3);

    let shared = Shapes::index::<FirstSmall>(forever(circle_square_and_disc()));
    assert_eq!((shared.seen, shared.found), (2, Some(1)));
}
