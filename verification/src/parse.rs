use vstd::prelude::*;

use crate::schema::{ComponentSchema, FieldSpec, GenericParam, ReactivityMode, TypeExpr};

verus! {

/// One annotation attached to a raw field or to the raw struct. Doc
/// annotations carry their text, default annotations carry the default
/// expression verbatim; any other annotation is `OtherAttr` and is
/// filtered out during parsing.
pub enum RawAttr {
    DocAttr(String),
    SignalAttr,
    SignalVecAttr,
    DefaultAttr(String),
    ThreadSafeAttr,
    OtherAttr,
}

/// The kind of a declared generic parameter; only type parameters are
/// supported.
#[derive(Clone, Copy, PartialEq, Eq, Structural, Debug)]
pub enum RawGenericKind {
    TypeKind,
    LifetimeKind,
    ConstKind,
}

/// A declared generic parameter as it appears on the raw struct.
pub struct RawGenericParam {
    pub kind: RawGenericKind,
    pub ident: String,
    pub bounds: Vec<String>,
    pub default_type: Option<String>,
}

/// A raw struct field: positional fields have no name.
pub struct RawField {
    pub name: Option<String>,
    pub declared_type: TypeExpr,
    pub attrs: Vec<RawAttr>,
}

/// The raw component definition handed to the generator.
pub struct RawStruct {
    pub name: String,
    pub generics: Vec<RawGenericParam>,
    pub fields: Vec<RawField>,
    pub attrs: Vec<RawAttr>,
}

/// The component-level annotation argument naming the render entry.
pub struct AttributeArgument {
    pub fn_name: String,
}

/// A fatal schema validation error; generation cannot proceed.
#[derive(Debug)]
pub enum SchemaError {
    /// The struct uses positional fields; `field_index` is the first one.
    UnnamedFields { field_index: usize },
    /// A declared generic parameter is not a type parameter.
    UnsupportedGenericKind { param_index: usize, param_ident: String },
    /// A field declares both the single-value and the collection
    /// reactivity annotation.
    ConflictingReactivity { field_index: usize, field_name: String },
}

/// Whether the attribute list contains the single-value reactivity
/// annotation.
pub open spec fn has_signal(attrs: Seq<RawAttr>) -> bool
    decreases attrs.len(),
{
    attrs.len() > 0 && (has_signal(attrs.drop_last()) || attrs.last() is SignalAttr)
}

/// Whether the attribute list contains the collection reactivity
/// annotation.
pub open spec fn has_signal_vec(attrs: Seq<RawAttr>) -> bool
    decreases attrs.len(),
{
    attrs.len() > 0 && (has_signal_vec(attrs.drop_last()) || attrs.last() is SignalVecAttr)
}

/// Whether the attribute list carries the explicit thread-safety marker.
pub open spec fn has_marker(attrs: Seq<RawAttr>) -> bool
    decreases attrs.len(),
{
    attrs.len() > 0 && (has_marker(attrs.drop_last()) || attrs.last() is ThreadSafeAttr)
}

/// A field may carry at most one reactivity annotation.
pub open spec fn conflicting(attrs: Seq<RawAttr>) -> bool {
    has_signal(attrs) && has_signal_vec(attrs)
}

/// The reactivity mode selected by an attribute list without a conflict.
pub open spec fn mode_of(attrs: Seq<RawAttr>) -> ReactivityMode {
    if has_signal(attrs) {
        ReactivityMode::Single
    } else if has_signal_vec(attrs) {
        ReactivityMode::Collection
    } else {
        ReactivityMode::Constant
    }
}

/// The expression of the first default annotation, if any.
pub open spec fn first_default(attrs: Seq<RawAttr>) -> Option<String>
    decreases attrs.len(),
{
    if attrs.len() == 0 {
        None
    } else {
        match first_default(attrs.drop_last()) {
            Some(d) => Some(d),
            None => if attrs.last() is DefaultAttr {
                Some(attrs.last()->DefaultAttr_0)
            } else {
                None
            },
        }
    }
}

/// The documentation strings of an attribute list, in order; every other
/// annotation is filtered out.
pub open spec fn docs_of(attrs: Seq<RawAttr>) -> Seq<String>
    decreases attrs.len(),
{
    if attrs.len() == 0 {
        Seq::empty()
    } else {
        docs_of(attrs.drop_last()) + if attrs.last() is DocAttr {
            seq![attrs.last()->DocAttr_0]
        } else {
            Seq::empty()
        }
    }
}

/// What parsing one named raw field must produce.
pub open spec fn parsed_field_ok(f: FieldSpec, rf: RawField) -> bool {
    &&& rf.name == Some(f.name)
    &&& f.declared_type == rf.declared_type
    &&& f.reactivity_mode == mode_of(rf.attrs@)
    &&& f.default == first_default(rf.attrs@)
    &&& f.thread_safe_marker == has_marker(rf.attrs@)
    &&& f.docs@ == docs_of(rf.attrs@)
}

/// Validates one named field and its annotations: documentation is kept in
/// order, the reactivity mode is selected, the first default expression is
/// taken verbatim, the thread-safety marker is recorded, and every other
/// annotation is dropped. Fails exactly when both reactivity annotations
/// are present.
#[verifier::loop_isolation(false)]
pub fn parse_field(field: RawField, index: usize) -> (r: Result<FieldSpec, SchemaError>)
    requires
        field.name is Some,
    ensures
        match r {
            Ok(f) => !conflicting(field.attrs@) && parsed_field_ok(f, field),
            Err(e) => conflicting(field.attrs@) && (e matches SchemaError::ConflictingReactivity {
                field_index,
                field_name,
            } && field_index == index && Some(field_name) == field.name),
        },
{
    let RawField { name, declared_type, attrs } = field;
    let name = match name {
        Some(n) => n,
        None => vstd::pervasive::unreached(),
    };
    let ghost orig = attrs@;
    let mut attrs = attrs;
    let total: usize = attrs.len();
    let mut k: usize = 0;
    let mut docs: Vec<String> = Vec::new();
    let mut default: Option<String> = None;
    let mut signal = false;
    let mut signal_vec = false;
    let mut marker = false;
    proof {
        assert(orig.take(0int) =~= Seq::<RawAttr>::empty());
        assert(attrs@ =~= orig.subrange(0int, orig.len() as int));
    }
    while attrs.len() > 0
        invariant
            total == orig.len(),
            k + attrs@.len() == orig.len(),
            attrs@ == orig.subrange(k as int, orig.len() as int),
            docs@ == docs_of(orig.take(k as int)),
            default == first_default(orig.take(k as int)),
            signal == has_signal(orig.take(k as int)),
            signal_vec == has_signal_vec(orig.take(k as int)),
            marker == has_marker(orig.take(k as int)),
        decreases attrs@.len(),
    {
        let a = attrs.remove(0);
        proof {
            assert(a == orig[k as int]);
            assert(attrs@ =~= orig.subrange(k as int + 1, orig.len() as int));
        }
        match a {
            RawAttr::DocAttr(s) => {
                docs.push(s);
            },
            RawAttr::DefaultAttr(s) => {
                if default.is_none() {
                    default = Some(s);
                }
            },
            RawAttr::SignalAttr => {
                signal = true;
            },
            RawAttr::SignalVecAttr => {
                signal_vec = true;
            },
            RawAttr::ThreadSafeAttr => {
                marker = true;
            },
            RawAttr::OtherAttr => {},
        }
        k = k + 1;
        proof {
            let pre = orig.take(k as int - 1);
            let post = orig.take(k as int);
            assert(post.drop_last() =~= pre);
            assert(post.last() == orig[k as int - 1]);
            assert(docs@ =~= docs_of(post));
        }
    }
    proof {
        assert(orig.take(orig.len() as int) =~= orig);
    }
    if signal && signal_vec {
        return Err(SchemaError::ConflictingReactivity { field_index: index, field_name: name });
    }
    let reactivity_mode = if signal {
        ReactivityMode::Single
    } else if signal_vec {
        ReactivityMode::Collection
    } else {
        ReactivityMode::Constant
    };
    Ok(
        FieldSpec {
            name,
            declared_type,
            reactivity_mode,
            default,
            thread_safe_marker: marker,
            docs,
        },
    )
}

/// Extracts the documentation strings of an attribute list, in order.
#[verifier::loop_isolation(false)]
pub fn extract_docs(attrs: Vec<RawAttr>) -> (r: Vec<String>)
    ensures
        r@ == docs_of(attrs@),
{
    let ghost orig = attrs@;
    let mut attrs = attrs;
    let total: usize = attrs.len();
    let mut k: usize = 0;
    let mut docs: Vec<String> = Vec::new();
    proof {
        assert(orig.take(0int) =~= Seq::<RawAttr>::empty());
        assert(attrs@ =~= orig.subrange(0int, orig.len() as int));
    }
    while attrs.len() > 0
        invariant
            total == orig.len(),
            k + attrs@.len() == orig.len(),
            attrs@ == orig.subrange(k as int, orig.len() as int),
            docs@ == docs_of(orig.take(k as int)),
        decreases attrs@.len(),
    {
        let a = attrs.remove(0);
        proof {
            assert(a == orig[k as int]);
            assert(attrs@ =~= orig.subrange(k as int + 1, orig.len() as int));
        }
        match a {
            RawAttr::DocAttr(s) => {
                docs.push(s);
            },
            _ => {},
        }
        k = k + 1;
        proof {
            let pre = orig.take(k as int - 1);
            let post = orig.take(k as int);
            assert(post.drop_last() =~= pre);
            assert(post.last() == orig[k as int - 1]);
            assert(docs@ =~= docs_of(post));
        }
    }
    proof {
        assert(orig.take(orig.len() as int) =~= orig);
    }
    docs
}

/// What a successfully parsed schema must be, for a given raw definition:
/// the definition is valid, and every part of the schema is pinned to the
/// corresponding part of the input.
pub open spec fn schema_parsed_ok(
    s: ComponentSchema,
    args: AttributeArgument,
    input: RawStruct,
) -> bool {
    &&& forall|i: int|
        0 <= i < input.fields@.len() ==> (#[trigger] input.fields@[i]).name is Some
    &&& forall|j: int|
        0 <= j < input.generics@.len() ==> (#[trigger] input.generics@[j]).kind
            == RawGenericKind::TypeKind
    &&& forall|i: int|
        0 <= i < input.fields@.len() ==> !conflicting((#[trigger] input.fields@[i]).attrs@)
    &&& s.name == input.name
    &&& s.render_entry == args.fn_name
    &&& s.docs@ == docs_of(input.attrs@)
    &&& s.generics@.len() == input.generics@.len()
    &&& forall|j: int|
        0 <= j < input.generics@.len() ==> {
            &&& (#[trigger] s.generics@[j]).ident == input.generics@[j].ident
            &&& s.generics@[j].bounds == input.generics@[j].bounds
            &&& s.generics@[j].default_type == input.generics@[j].default_type
        }
    &&& s.fields@.len() == input.fields@.len()
    &&& forall|i: int|
        0 <= i < input.fields@.len() ==> parsed_field_ok(
            #[trigger] s.fields@[i],
            input.fields@[i],
        )
}

/// Which error a raw definition is reported with: the first positional
/// field; else the first non-type generic parameter, named; else the first
/// field with conflicting reactivity annotations, named.
pub open spec fn schema_error_reported(e: SchemaError, input: RawStruct) -> bool {
    match e {
        SchemaError::UnnamedFields { field_index } => {
            &&& field_index < input.fields@.len()
            &&& input.fields@[field_index as int].name is None
            &&& forall|i: int|
                0 <= i < field_index ==> (#[trigger] input.fields@[i]).name is Some
        },
        SchemaError::UnsupportedGenericKind { param_index, param_ident } => {
            &&& forall|i: int|
                0 <= i < input.fields@.len() ==> (#[trigger] input.fields@[i]).name is Some
            &&& param_index < input.generics@.len()
            &&& input.generics@[param_index as int].kind != RawGenericKind::TypeKind
            &&& param_ident == input.generics@[param_index as int].ident
            &&& forall|j: int|
                0 <= j < param_index ==> (#[trigger] input.generics@[j]).kind
                    == RawGenericKind::TypeKind
        },
        SchemaError::ConflictingReactivity { field_index, field_name } => {
            &&& forall|i: int|
                0 <= i < input.fields@.len() ==> (#[trigger] input.fields@[i]).name is Some
            &&& forall|j: int|
                0 <= j < input.generics@.len() ==> (#[trigger] input.generics@[j]).kind
                    == RawGenericKind::TypeKind
            &&& field_index < input.fields@.len()
            &&& conflicting(input.fields@[field_index as int].attrs@)
            &&& Some(field_name) == input.fields@[field_index as int].name
            &&& forall|i: int|
                0 <= i < field_index ==> !conflicting((#[trigger] input.fields@[i]).attrs@)
        },
    }
}

impl SchemaError {
    /// The user-facing message a failed generation aborts the build with.
    pub fn describe(&self) -> (r: String)
        ensures
            match self {
                SchemaError::UnnamedFields { .. } => r@ == "struct must have named fields"@,
                SchemaError::UnsupportedGenericKind { param_ident, .. } => r@
                    == "prop struct must have only type params: "@ + param_ident@,
                SchemaError::ConflictingReactivity { field_name, .. } => r@
                    == "a field may carry at most one reactivity annotation: "@ + field_name@,
            },
    {
        match self {
            SchemaError::UnnamedFields { .. } => String::from_str("struct must have named fields"),
            SchemaError::UnsupportedGenericKind { param_ident, .. } => String::from_str(
                "prop struct must have only type params: ",
            ).concat(param_ident.as_str()),
            SchemaError::ConflictingReactivity { field_name, .. } => String::from_str(
                "a field may carry at most one reactivity annotation: ",
            ).concat(field_name.as_str()),
        }
    }
}

/// Validates a raw component definition and produces the schema the
/// renderer consumes. The checks run in order: first positional fields,
/// then non-type generic parameters, then per-field reactivity conflicts;
/// the first violation is reported and is fatal.
#[verifier::loop_isolation(false)]
pub fn parse_schema(args: AttributeArgument, input: RawStruct) -> (r: Result<
    ComponentSchema,
    SchemaError,
>)
    ensures
        match r {
            Ok(s) => schema_parsed_ok(s, args, input),
            Err(e) => schema_error_reported(e, input),
        },
{
    let RawStruct { name, generics, fields, attrs } = input;

    // Positional fields are rejected first.
    let mut i: usize = 0;
    while i < fields.len()
        invariant
            i <= fields@.len(),
            forall|l: int| 0 <= l < i ==> (#[trigger] fields@[l]).name is Some,
        decreases fields@.len() - i,
    {
        if fields[i].name.is_none() {
            return Err(SchemaError::UnnamedFields { field_index: i });
        }
        i = i + 1;
    }

    // Only type parameters are supported.
    let ghost orig_generics = generics@;
    let mut generics = generics;
    let g_total: usize = generics.len();
    let mut out_generics: Vec<GenericParam> = Vec::new();
    let mut j: usize = 0;
    proof {
        assert(generics@ =~= orig_generics.subrange(0int, orig_generics.len() as int));
    }
    while generics.len() > 0
        invariant
            g_total == orig_generics.len(),
            j + generics@.len() == orig_generics.len(),
            generics@ == orig_generics.subrange(j as int, orig_generics.len() as int),
            out_generics@.len() == j,
            forall|l: int|
                0 <= l < j ==> (#[trigger] orig_generics[l]).kind == RawGenericKind::TypeKind,
            forall|l: int|
                0 <= l < j ==> {
                    &&& (#[trigger] out_generics@[l]).ident == orig_generics[l].ident
                    &&& out_generics@[l].bounds == orig_generics[l].bounds
                    &&& out_generics@[l].default_type == orig_generics[l].default_type
                },
        decreases generics@.len(),
    {
        let g = generics.remove(0);
        proof {
            assert(g == orig_generics[j as int]);
            assert(generics@ =~= orig_generics.subrange(j as int + 1, orig_generics.len() as int));
        }
        let RawGenericParam { kind, ident, bounds, default_type } = g;
        if !matches!(kind, RawGenericKind::TypeKind) {
            return Err(SchemaError::UnsupportedGenericKind { param_index: j, param_ident: ident });
        }
        out_generics.push(GenericParam { ident, bounds, default_type });
        j = j + 1;
    }

    // Component documentation.
    let docs = extract_docs(attrs);

    // Per-field validation.
    let ghost orig_fields = fields@;
    let mut fields = fields;
    let f_total: usize = fields.len();
    let mut out_fields: Vec<FieldSpec> = Vec::new();
    let mut k: usize = 0;
    proof {
        assert(fields@ =~= orig_fields.subrange(0int, orig_fields.len() as int));
    }
    while fields.len() > 0
        invariant
            f_total == orig_fields.len(),
            k + fields@.len() == orig_fields.len(),
            fields@ == orig_fields.subrange(k as int, orig_fields.len() as int),
            out_fields@.len() == k,
            forall|l: int| 0 <= l < orig_fields.len() ==> (#[trigger] orig_fields[l]).name is Some,
            forall|l: int| 0 <= l < k ==> !conflicting((#[trigger] orig_fields[l]).attrs@),
            forall|l: int|
                0 <= l < k ==> parsed_field_ok(#[trigger] out_fields@[l], orig_fields[l]),
        decreases fields@.len(),
    {
        let f = fields.remove(0);
        proof {
            assert(f == orig_fields[k as int]);
            assert(fields@ =~= orig_fields.subrange(k as int + 1, orig_fields.len() as int));
        }
        let parsed = parse_field(f, k)?;
        out_fields.push(parsed);
        k = k + 1;
    }

    Ok(
        ComponentSchema {
            name,
            render_entry: args.fn_name,
            generics: out_generics,
            fields: out_fields,
            docs,
        },
    )
}

} // verus!
