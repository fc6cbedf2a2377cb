use type_registry::frontend::{
    register, AttrStyle, Attribute, CrateAttribute, ItemKind, Meta, RegisterAttr, RegisterError,
    RegisterInput,
};

fn list(path: &str, tokens: &str) -> Attribute {
    Attribute {
        style: AttrStyle::Outer,
        path: path.to_string(),
        meta: Meta::List { tokens: tokens.to_string() },
    }
}

fn item(kind: ItemKind, generics: &str, attrs: Vec<Attribute>) -> RegisterInput {
    RegisterInput::parse::<String>(kind, "Circle".to_string(), generics.to_string(), attrs).unwrap()
}

fn paths(input: &mut RegisterInput) -> Vec<String> {
    let rest = input.type_registry_attributes();
    assert!(rest.is_empty());
    format!("{:?}", input)
        .split("path: \"")
        .skip(1)
        .map(|tail| tail.split('"').next().unwrap().to_string())
        .collect()
}

#[test]
fn structs_enums_and_unions_are_accepted() {
    for kind in [ItemKind::Struct, ItemKind::Enum, ItemKind::Union] {
        let input = item(kind, "", Vec::new());
        assert_eq!(input.ident(), "Circle");
        assert_eq!(input.generics(), "");
    }
}

#[test]
fn other_items_are_refused() {
    let refused = RegisterInput::parse::<String>(
        ItemKind::Other,
        "area".to_string(),
        String::new(),
        Vec::new(),
    );
    let error = refused.unwrap_err();
    assert!(matches!(error, RegisterError::NotRegistrable));
    assert_eq!(
        error.message(),
        Some("only structs, enums and unions can be registered")
    );
}

#[test]
fn generic_items_are_refused() {
    let input = item(ItemKind::Struct, "< T >", Vec::new());
    let attr = RegisterAttr::new("Shapes".to_string(), false, None);
    let error = register::<String>(&input, None, Ok(attr)).unwrap_err();
    assert!(matches!(error, RegisterError::Generics));
    assert_eq!(error.message(), Some("registration does not support generics"));
}

#[test]
fn generics_are_refused_before_attribute_errors() {
    let input = item(ItemKind::Enum, "< 'a >", Vec::new());
    let error = register::<String>(
        &input,
        Some(Err("expected `crate`".to_string())),
        Err("expected type".to_string()),
    )
    .unwrap_err();
    assert!(matches!(error, RegisterError::Generics));
}

#[test]
fn error_in_the_crate_attribute_comes_first() {
    let input = item(ItemKind::Struct, "", Vec::new());
    let error = register::<String>(
        &input,
        Some(Err("expected `crate`".to_string())),
        Err("expected type".to_string()),
    )
    .unwrap_err();
    assert!(matches!(&error, RegisterError::Syntax(message) if message == "expected `crate`"));
    assert_eq!(error.message(), None);

    let attr = RegisterAttr::new("Shapes".to_string(), false, None);
    let error = register::<String>(&input, Some(Err("expected `=`".to_string())), Ok(attr))
        .unwrap_err();
    assert!(matches!(error, RegisterError::Syntax(message) if message == "expected `=`"));
}

#[test]
fn error_in_the_arguments_is_reported() {
    let input = item(ItemKind::Struct, "", Vec::new());
    let error = register::<String>(&input, None, Err("extra tokens at end of input".to_string()))
        .unwrap_err();
    assert!(
        matches!(error, RegisterError::Syntax(message) if message == "extra tokens at end of input")
    );

    let named = CrateAttribute::new("reexport::type_registry".to_string());
    let error = register::<String>(&input, Some(Ok(named)), Err("expected type".to_string()))
        .unwrap_err();
    assert!(matches!(error, RegisterError::Syntax(message) if message == "expected type"));
}

#[test]
fn default_expression_makes_the_information() {
    let input = item(ItemKind::Struct, "", Vec::new());
    let attr = RegisterAttr::new("Shapes".to_string(), false, None);
    let expansion = register::<String>(&input, None, Ok(attr)).unwrap();
    assert_eq!(expansion.crate_, "::type_registry");
    assert_eq!(expansion.registry, "Shapes");
    assert_eq!(expansion.ident, "Circle");
    assert_eq!(
        expansion.init_type_info_expr,
        "<Shapes as ::type_registry::Registry>::TypeInfo::new::<Circle>()"
    );
}

#[test]
fn trailing_comma_still_takes_the_default_expression() {
    let input = item(ItemKind::Union, "", Vec::new());
    let attr = RegisterAttr::new("my::Shapes".to_string(), true, None);
    let named = CrateAttribute::new("reexport::registry".to_string());
    let expansion = register::<String>(&input, Some(Ok(named)), Ok(attr)).unwrap();
    assert_eq!(expansion.crate_, "reexport::registry");
    assert_eq!(expansion.registry, "my::Shapes");
    assert_eq!(
        expansion.init_type_info_expr,
        "<my::Shapes as reexport::registry::Registry>::TypeInfo::new::<Circle>()"
    );
}

#[test]
fn given_expression_is_kept() {
    let input = item(ItemKind::Struct, "", Vec::new());
    let attr = RegisterAttr::new(
        "Shapes".to_string(),
        true,
        Some("ShapeInfo::new_unsized(42)".to_string()),
    );
    let expansion = register::<String>(&input, None, Ok(attr)).unwrap();
    assert_eq!(expansion.init_type_info_expr, "ShapeInfo::new_unsized(42)");
    assert_eq!(expansion.crate_, "::type_registry");
}

#[test]
fn parts_of_the_arguments() {
    let attr = RegisterAttr::new("Shapes".to_string(), false, None);
    let (registry, expr) = attr.into_parts("Square", "::type_registry");
    assert_eq!(registry, "Shapes");
    assert_eq!(
        expr,
        "<Shapes as ::type_registry::Registry>::TypeInfo::new::<Square>()"
    );

    let attr = RegisterAttr::new("Shapes".to_string(), true, Some("INFO".to_string()));
    let (registry, expr) = attr.into_parts("Square", "::type_registry");
    assert_eq!((registry.as_str(), expr.as_str()), ("Shapes", "INFO"));
}

#[test]
fn crate_path_defaults() {
    assert_eq!(RegisterInput::default_crate(), "::type_registry");
    assert_eq!(CrateAttribute::new("a::b".to_string()).into_path(), "a::b");
}

#[test]
fn own_attributes_are_taken_off_in_order() {
    let attrs = vec![
        list("derive", "Debug"),
        list("type_registry", "crate = first"),
        Attribute { style: AttrStyle::Outer, path: "type_registry".to_string(), meta: Meta::Path },
        list("repr", "C"),
        list("type_registry", "crate = second"),
        Attribute {
            style: AttrStyle::Inner,
            path: "type_registry".to_string(),
            meta: Meta::List { tokens: "crate = inner".to_string() },
        },
        Attribute {
            style: AttrStyle::Outer,
            path: "type_registry".to_string(),
            meta: Meta::NameValue,
        },
        list("my::type_registry", "crate = other"),
    ];
    let mut input = item(ItemKind::Struct, "", attrs);
    let own = input.type_registry_attributes();
    assert_eq!(own, vec!["crate = first".to_string(), "crate = second".to_string()]);
    assert_eq!(input.ident(), "Circle");
    assert_eq!(
        paths(&mut input),
        vec!["derive", "type_registry", "repr", "type_registry", "type_registry", "my::type_registry"]
    );
}

#[test]
fn first_own_attribute_names_the_crate() {
    let attrs = vec![
        list("derive", "Clone"),
        list("type_registry", "crate = first"),
        list("type_registry", "crate = second"),
    ];
    let mut input = item(ItemKind::Enum, "", attrs);
    assert_eq!(input.crate_(), Some("crate = first".to_string()));
    assert_eq!(input.crate_(), None);
    assert_eq!(paths(&mut input), vec!["derive"]);
}

#[test]
fn item_without_own_attributes_names_no_crate() {
    let mut input = item(ItemKind::Struct, "", vec![list("derive", "Clone")]);
    assert_eq!(input.crate_(), None);
    assert_eq!(paths(&mut input), vec!["derive"]);
}

#[test]
fn expression_is_read_after_a_comma_with_more() {
    assert!(RegisterAttr::reads_expr(true, false));
    assert!(!RegisterAttr::reads_expr(true, true));
    assert!(!RegisterAttr::reads_expr(false, false));
    assert!(!RegisterAttr::reads_expr(false, true));
}

#[test]
fn tokens_after_the_arguments_are_an_error() {
    assert_eq!(RegisterAttr::extra_tokens(true), None);
    assert_eq!(RegisterAttr::extra_tokens(false), Some("extra tokens at end of input"));
}
