use vstd::prelude::*;

verus! {

/// How a property's value may vary over time.
///
/// `Constant` fields hold one plain value; `Single` fields hold one
/// time-varying value; `Collection` fields hold a time-varying ordered
/// sequence with incremental change notifications.
#[derive(Clone, Copy, PartialEq, Eq, Structural, Debug)]
pub enum ReactivityMode {
    Constant,
    Single,
    Collection,
}

/// One declared type parameter of a component: identifier, trait bounds,
/// and an optional default type. Lookup is by identifier.
pub struct GenericParam {
    pub ident: String,
    pub bounds: Vec<String>,
    pub default_type: Option<String>,
}

/// A generic argument attached to a type path segment. Lifetime and
/// constant arguments carry no type information the analyzer cares about.
pub enum GenericArg {
    TypeArg(TypeExpr),
    LifetimeArg,
    ConstArg,
}

/// One segment of a type path, e.g. the `Vec<T>` in `std::vec::Vec<T>`,
/// with its angle-bracketed generic arguments, if any.
pub struct Segment {
    pub ident: String,
    pub args: Vec<GenericArg>,
}

/// A field's declared type: a path of segments, or any other kind of type
/// expression (tuple, reference, ...), in which no generic parameter is
/// searched for.
pub enum TypeExpr {
    Path(Vec<Segment>),
    Other,
}

/// One property of a component, after validation.
pub struct FieldSpec {
    /// Field identifier, unique within the component.
    pub name: String,
    /// The field's value type expression.
    pub declared_type: TypeExpr,
    /// Whether the field is constant, a single reactive value, or a
    /// reactive collection.
    pub reactivity_mode: ReactivityMode,
    /// Optional default expression, taken verbatim; substituted only at
    /// consumption time when the field was left unset.
    pub default: Option<String>,
    /// Explicit marker requesting that the generated bound for this
    /// field's reactive value require the cross-thread capability.
    pub thread_safe_marker: bool,
    /// Documentation strings attached to the field, in order.
    pub docs: Vec<String>,
}

/// The parsed unit: one component definition, consumed once by the renderer.
pub struct ComponentSchema {
    /// Component name; every generated name derives from it.
    pub name: String,
    /// The function that will consume the generated consumption contract.
    pub render_entry: String,
    /// Declared type parameters, in declaration order.
    pub generics: Vec<GenericParam>,
    /// The component's properties, in declaration order.
    pub fields: Vec<FieldSpec>,
    /// Documentation strings attached to the component, in order.
    pub docs: Vec<String>,
}

/// The view of a sequence of strings: each string as its character sequence.
pub open spec fn string_views(ss: Seq<String>) -> Seq<Seq<char>> {
    ss.map_values(|s: String| s@)
}

/// The view of an optional string.
pub open spec fn opt_view(s: Option<String>) -> Option<Seq<char>> {
    match s {
        Some(x) => Some(x@),
        None => None,
    }
}

/// A generic parameter reduced to the views of its parts; two parameters
/// with equal `GenericParamView`s declare the same thing.
pub struct GenericParamView {
    pub ident: Seq<char>,
    pub bounds: Seq<Seq<char>>,
    pub default_type: Option<Seq<char>>,
}

impl View for GenericParam {
    type V = GenericParamView;

    open spec fn view(&self) -> GenericParamView {
        GenericParamView {
            ident: self.ident@,
            bounds: string_views(self.bounds@),
            default_type: opt_view(self.default_type),
        }
    }
}

/// The views of a sequence of generic parameters.
pub open spec fn gp_views(gs: Seq<GenericParam>) -> Seq<GenericParamView> {
    gs.map_values(|g: GenericParam| g@)
}

} // verus!
