use crate::frontend::RegisterError;
use vstd::prelude::*;
use vstd::string::StringExecFns;

verus! {

/// The kind of an item.
#[derive(Copy, Clone, PartialEq, Eq, Structural, Debug)]
pub enum ItemKind {
    Struct,
    Enum,
    Union,
    /// Any other item: a function, a module, a trait and so on.
    Other,
}

/// Where an attribute stands: before its item, or inside it.
#[derive(Copy, Clone, PartialEq, Eq, Structural, Debug)]
pub enum AttrStyle {
    Outer,
    Inner,
}

/// What follows the path of an attribute.
#[derive(Debug)]
pub enum Meta {
    /// Nothing.
    Path,
    /// Tokens in brackets.
    List { tokens: String },
    /// `=` and a value.
    NameValue,
}

/// An attribute of an item.
#[derive(Debug)]
pub struct Attribute {
    pub style: AttrStyle,
    /// The path of the attribute: a single name, or names with `::` between.
    pub path: String,
    pub meta: Meta,
}

impl Clone for Meta {
    fn clone(&self) -> (copy: Self)
        ensures
            copy == *self,
    {
        match self {
            Meta::Path => Meta::Path,
            Meta::List { tokens } => Meta::List { tokens: tokens.clone() },
            Meta::NameValue => Meta::NameValue,
        }
    }
}

impl Clone for Attribute {
    fn clone(&self) -> (copy: Self)
        ensures
            copy == *self,
    {
        Attribute { style: self.style, path: self.path.clone(), meta: self.meta.clone() }
    }
}

impl Attribute {
    /// Whether the attribute is one of this library's own: an outer attribute
    /// `type_registry` with tokens in brackets.
    pub open spec fn spec_is_own(&self) -> bool {
        &&& self.style == AttrStyle::Outer
        &&& self.meta is List
        &&& self.path@ == "type_registry"@
    }

    /// Whether the attribute is one of this library's own.
    #[verifier::when_used_as_spec(spec_is_own)]
    pub fn is_own(&self) -> (own: bool)
        ensures
            own == self.spec_is_own(),
    {
        let outer = match self.style {
            AttrStyle::Outer => true,
            AttrStyle::Inner => false,
        };
        let list = match &self.meta {
            Meta::List { .. } => true,
            _ => false,
        };
        outer && list && self.path == String::from_str("type_registry")
    }
}

/// The item that the attribute `register` is written on: a struct, an enum
/// or a union.
#[derive(Debug)]
pub struct RegisterInput {
    kind: ItemKind,
    ident: String,
    generics: String,
    attrs: Vec<Attribute>,
}

impl RegisterInput {
    /// The kind of the item: never [`ItemKind::Other`].
    pub closed spec fn kind(&self) -> ItemKind {
        self.kind
    }

    /// The name of the item.
    pub closed spec fn spec_ident(&self) -> &String {
        &self.ident
    }

    /// The generic parameters of the item, as they are written; empty where
    /// it has none.
    pub closed spec fn spec_generics(&self) -> &String {
        &self.generics
    }

    /// The attributes of the item.
    pub closed spec fn attrs(&self) -> Seq<Attribute> {
        self.attrs@
    }

    #[verifier::type_invariant]
    spec fn registrable(&self) -> bool {
        self.kind != ItemKind::Other
    }

    /// Takes an item as the target of a registration: a struct, an enum or a
    /// union is accepted, any other item is refused.
    pub fn parse<E>(
        kind: ItemKind,
        ident: String,
        generics: String,
        attrs: Vec<Attribute>,
    ) -> (input: Result<Self, RegisterError<E>>)
        ensures
            match input {
                Ok(input) => {
                    &&& kind != ItemKind::Other
                    &&& input.kind() == kind
                    &&& *input.spec_ident() == ident
                    &&& *input.spec_generics() == generics
                    &&& input.attrs() == attrs@
                },
                Err(error) => kind == ItemKind::Other && error is NotRegistrable,
            },
    {
        match kind {
            ItemKind::Other => Err(RegisterError::NotRegistrable),
            _ => Ok(RegisterInput { kind, ident, generics, attrs }),
        }
    }

    /// The name of the item.
    #[verifier::when_used_as_spec(spec_ident)]
    pub fn ident(&self) -> (ident: &String)
        ensures
            ident == self.spec_ident(),
    {
        &self.ident
    }

    /// The generic parameters of the item.
    #[verifier::when_used_as_spec(spec_generics)]
    pub fn generics(&self) -> (generics: &String)
        ensures
            generics == self.spec_generics(),
    {
        &self.generics
    }

    /// Takes this library's own attributes off the item, and returns the
    /// tokens of each, in their order. The other attributes stay, in their
    /// order.
    pub fn type_registry_attributes(&mut self) -> (own: Vec<String>)
        ensures
            final(self).attrs() == old(self).attrs().filter(|attr: Attribute| !attr.is_own()),
            own@ == old(self).attrs().filter(|attr: Attribute| attr.is_own()).map_values(
                |attr: Attribute| attr.meta->tokens,
            ),
            final(self).kind() == old(self).kind(),
            final(self).spec_ident() == old(self).spec_ident(),
            final(self).spec_generics() == old(self).spec_generics(),
    {
        proof {
            use_type_invariant(&*self);
        }
        let ghost all = self.attrs@;
        let ghost is_own = |attr: Attribute| attr.is_own();
        let ghost is_other = |attr: Attribute| !attr.is_own();
        let ghost tokens_of = |attr: Attribute| attr.meta->tokens;
        let mut own_attrs: Vec<String> = Vec::new();
        let mut others: Vec<Attribute> = Vec::new();
        let mut index: usize = 0;
        proof {
            assert(all.take(0) =~= Seq::empty());
            assert(all.take(0).filter(is_own) =~= Seq::empty());
            assert(all.take(0).filter(is_other) =~= Seq::empty());
        }
        while index < self.attrs.len()
            invariant
                self.attrs@ == all,
                index <= all.len(),
                others@ == all.take(index as int).filter(is_other),
                own_attrs@ == all.take(index as int).filter(is_own).map_values(tokens_of),
                is_own == |attr: Attribute| attr.is_own(),
                is_other == |attr: Attribute| !attr.is_own(),
                tokens_of == |attr: Attribute| attr.meta->tokens,
            decreases all.len() - index,
        {
            let attr = &self.attrs[index];
            proof {
                reveal(Seq::filter);
                assert(all.take(index + 1).drop_last() =~= all.take(index as int));
            }
            if attr.is_own() {
                match &attr.meta {
                    Meta::List { tokens } => {
                        own_attrs.push(tokens.clone());
                    },
                    _ => {},
                }
                proof {
                    assert(all.take(index + 1).filter(is_own).map_values(tokens_of)
                        =~= all.take(index as int).filter(is_own).map_values(tokens_of).push(
                        tokens_of(all[index as int]),
                    ));
                }
            } else {
                others.push(attr.clone());
            }
            index = index + 1;
        }
        proof {
            assert(all.take(all.len() as int) =~= all);
        }
        *self =
        RegisterInput {
            kind: self.kind,
            ident: self.ident.clone(),
            generics: self.generics.clone(),
            attrs: others,
        };
        own_attrs
    }

    /// The tokens of the attribute that says how this library is reached:
    /// those of the first of this library's own attributes on the item, which
    /// are all taken off it.
    pub fn crate_(&mut self) -> (tokens: Option<String>)
        ensures
            final(self).attrs() == old(self).attrs().filter(|attr: Attribute| !attr.is_own()),
            final(self).kind() == old(self).kind(),
            final(self).spec_ident() == old(self).spec_ident(),
            final(self).spec_generics() == old(self).spec_generics(),
            match tokens {
                Some(tokens) => {
                    let own = old(self).attrs().filter(|attr: Attribute| attr.is_own());
                    own.len() > 0 && tokens == own[0].meta->tokens
                },
                None => old(self).attrs().filter(|attr: Attribute| attr.is_own()).len() == 0,
            },
    {
        let our_attrs = self.type_registry_attributes();
        if our_attrs.len() > 0 {
            Some(our_attrs[0].clone())
        } else {
            None
        }
    }

    /// The path under which this library is reached where the item does not
    /// say otherwise.
    pub fn default_crate() -> (path: String)
        ensures
            path@ == "::type_registry"@,
    {
        String::from_str("::type_registry")
    }
}

} // verus!
