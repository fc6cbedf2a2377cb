use vstd::prelude::*;
use vstd::string::StringExecFns;

verus! {

/// The arguments of the attribute `register`: the registry, and after a comma
/// the expression that makes the information about the type, where one is
/// given.
#[derive(Debug)]
pub struct RegisterAttr {
    registry: String,
    comma: bool,
    init_type_info_expr: Option<String>,
}

/// The expression that makes the information about a type where the
/// attribute gives none: the function `new` of the registry's information
/// type, without arguments, for the registered type.
pub open spec fn default_init_type_info_expr(
    registry: Seq<char>,
    ident: Seq<char>,
    crate_: Seq<char>,
) -> Seq<char> {
    "<"@ + registry + " as "@ + crate_ + "::Registry>::TypeInfo::new::<"@ + ident + ">()"@
}

impl RegisterAttr {
    /// The registry.
    pub closed spec fn registry(&self) -> String {
        self.registry
    }

    /// Whether a comma follows the registry.
    pub closed spec fn comma(&self) -> bool {
        self.comma
    }

    /// The expression that makes the information about the type, where one
    /// is given.
    pub closed spec fn init_type_info_expr(&self) -> Option<String> {
        self.init_type_info_expr
    }

    /// Whether an expression is read after the registry: where a comma
    /// follows the registry, and something follows the comma.
    pub fn reads_expr(comma: bool, at_end: bool) -> (reads: bool)
        ensures
            reads == (comma && !at_end),
    {
        comma && !at_end
    }

    /// What is said of tokens that follow the arguments: nothing where the
    /// arguments end there.
    pub fn extra_tokens(at_end: bool) -> (message: Option<&'static str>)
        ensures
            match message {
                Some(text) => !at_end && text@ == "extra tokens at end of input"@,
                None => at_end,
            },
    {
        if at_end {
            None
        } else {
            Some("extra tokens at end of input")
        }
    }

    /// The arguments as they were read.
    pub fn new(registry: String, comma: bool, init_type_info_expr: Option<String>) -> (attr: Self)
        ensures
            attr.registry() == registry,
            attr.comma() == comma,
            attr.init_type_info_expr() == init_type_info_expr,
    {
        RegisterAttr { registry, comma, init_type_info_expr }
    }

    /// The registry, and the expression that makes the information about the
    /// type `ident`: the one that was given, or else the default one.
    pub fn into_parts(self, ident: &str, crate_: &str) -> (parts: (String, String))
        ensures
            parts.0 == self.registry(),
            match self.init_type_info_expr() {
                Some(expr) => parts.1 == expr,
                None => parts.1@ == default_init_type_info_expr(
                    self.registry()@,
                    ident@,
                    crate_@,
                ),
            },
    {
        let RegisterAttr { registry, init_type_info_expr, .. } = self;
        let init_type_info_expr = match init_type_info_expr {
            Some(expr) => expr,
            None => Self::default_init_type_info_expr(registry.as_str(), ident, crate_),
        };
        (registry, init_type_info_expr)
    }

    fn default_init_type_info_expr(registry: &str, ident: &str, crate_: &str) -> (expr: String)
        ensures
            expr@ == default_init_type_info_expr(registry@, ident@, crate_@),
    {
        let mut expr = String::from_str("<");
        expr.append(registry);
        expr.append(" as ");
        expr.append(crate_);
        expr.append("::Registry>::TypeInfo::new::<");
        expr.append(ident);
        expr.append(">()");
        expr
    }
}

} // verus!
