use crate::frontend::default_init_type_info_expr;
use crate::frontend::CrateAttribute;
use crate::frontend::RegisterAttr;
use crate::frontend::RegisterInput;
use vstd::prelude::*;

verus! {

/// Why an item is not registered. `E` is the error of whatever read the
/// attributes.
#[derive(Debug)]
pub enum RegisterError<E> {
    /// The item is no struct, enum or union.
    NotRegistrable,
    /// The item has generic parameters.
    Generics,
    /// An attribute could not be read.
    Syntax(E),
}

impl<E> RegisterError<E> {
    /// What is said of an item that is refused; `None` for an error of
    /// whatever read the attributes, which has its own words.
    pub fn message(&self) -> (message: Option<&'static str>)
        ensures
            match self {
                RegisterError::NotRegistrable => message matches Some(text) && text@
                    == "only structs, enums and unions can be registered"@,
                RegisterError::Generics => message matches Some(text) && text@
                    == "registration does not support generics"@,
                RegisterError::Syntax(_) => message is None,
            },
    {
        match self {
            RegisterError::NotRegistrable => Some(
                "only structs, enums and unions can be registered",
            ),
            RegisterError::Generics => Some("registration does not support generics"),
            RegisterError::Syntax(_) => None,
        }
    }
}

/// What is written out for a registered type is made of these.
#[derive(Debug)]
pub struct Expansion {
    /// The path under which this library is reached.
    pub crate_: String,
    /// The registry that the type is registered to.
    pub registry: String,
    /// The name of the registered type.
    pub ident: String,
    /// The expression that makes the information about the type.
    pub init_type_info_expr: String,
}

/// Decides what the attribute `register` writes out for an item.
///
/// `crate_attribute` is what reading the tokens that
/// [`RegisterInput::crate_`] handed out came to, where it handed any out, and
/// `attr` what reading the arguments of the attribute came to.
///
/// An item with generic parameters is refused. Otherwise an error in the
/// item's own attribute is reported, otherwise an error in the arguments.
/// Otherwise the type is registered to the registry that the arguments name,
/// with the information that the expression in the arguments makes, or else
/// the default expression.
pub fn register<E>(
    input: &RegisterInput,
    crate_attribute: Option<Result<CrateAttribute, E>>,
    attr: Result<RegisterAttr, E>,
) -> (expansion: Result<Expansion, RegisterError<E>>)
    ensures
        input.generics()@.len() > 0 ==> expansion == Err::<Expansion, RegisterError<E>>(
            RegisterError::Generics,
        ),
        input.generics()@.len() == 0 ==> match (crate_attribute, attr) {
            (Some(Err(error)), _) => expansion == Err::<Expansion, RegisterError<E>>(
                RegisterError::Syntax(error),
            ),
            (_, Err(error)) => expansion == Err::<Expansion, RegisterError<E>>(
                RegisterError::Syntax(error),
            ),
            (found, Ok(attr)) => {
                &&& expansion matches Ok(parts)
                &&& match found {
                    Some(Ok(attribute)) => parts.crate_ == attribute.path(),
                    _ => parts.crate_@ == "::type_registry"@,
                }
                &&& parts.registry == attr.registry()
                &&& parts.ident == *input.ident()
                &&& match attr.init_type_info_expr() {
                    Some(expr) => parts.init_type_info_expr == expr,
                    None => parts.init_type_info_expr@
                        == default_init_type_info_expr(
                        attr.registry()@,
                        input.ident()@,
                        parts.crate_@,
                    ),
                }
            },
        },
{
    if !input.generics().as_str().is_empty() {
        return Err(RegisterError::Generics);
    }
    let crate_ = match crate_attribute {
        Some(Ok(attribute)) => attribute.into_path(),
        Some(Err(error)) => {
            return Err(RegisterError::Syntax(error));
        },
        None => RegisterInput::default_crate(),
    };
    let ident = input.ident().clone();
    let attr = match attr {
        Ok(attr) => attr,
        Err(error) => {
            return Err(RegisterError::Syntax(error));
        },
    };
    let (registry, init_type_info_expr) = attr.into_parts(ident.as_str(), crate_.as_str());
    Ok(Expansion { crate_, registry, ident, init_type_info_expr })
}

} // verus!
