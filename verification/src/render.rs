use vstd::prelude::*;

use crate::analyze::{get_type_generic_param_use, used_generics};
use crate::schema::{
    gp_views, string_views, ComponentSchema, FieldSpec, GenericParam, GenericParamView,
    ReactivityMode,
};
use crate::text::{str_eq, upper_first, upper_first_of};

verus! {

/// What a generated setter does with its argument.
#[derive(Clone, Copy, PartialEq, Eq, Structural, Debug)]
pub enum SetterKind {
    /// Stores a raw value in a constant field's slot.
    SetRaw,
    /// Wraps a plain value into a trivial always-available reactive value
    /// and stores it.
    WrapSignal,
    /// Stores a caller-supplied reactive value directly.
    SetSignal,
    /// Wraps a plain sequence into a trivial always-available reactive
    /// collection and stores it.
    WrapSignalVec,
    /// Stores a caller-supplied reactive collection directly.
    SetSignalVec,
}

/// How a field is stored in the optional-value container.
#[derive(Clone, Copy, PartialEq, Eq, Structural, Debug)]
pub enum SlotForm {
    RawSlot,
    SignalSlot,
    SignalVecSlot,
}

/// The synthetic type parameter added to the container for one reactive
/// field: it stands for whatever concrete reactive value or collection the
/// caller supplies, and is defaulted to a trivial always-available
/// implementation so the container stays constructible with no field set.
pub struct SyntheticParam {
    pub ident: String,
    pub bounds: Vec<String>,
    pub default_type: String,
}

/// One generated builder operation.
pub struct SetterSpec {
    pub name: String,
    pub kind: SetterKind,
    /// The storage slot the setter writes; both setters of a reactive
    /// field target the same slot.
    pub field_index: usize,
    /// The component generic parameters the field's type actually uses;
    /// the setter requires no bound beyond these.
    pub used_generics: Vec<GenericParam>,
    /// The synthetic parameter a caller-supplied reactive value binds to.
    pub synthetic: Option<SyntheticParam>,
}

/// The generated builder operations of one field.
pub struct FieldSetters {
    pub field_name: String,
    pub setters: Vec<SetterSpec>,
}

/// One optional slot of the generated container type.
pub struct ContainerField {
    pub name: String,
    pub form: SlotForm,
    pub synthetic: Option<SyntheticParam>,
}

/// The generated optional-value container type.
pub struct ContainerSpec {
    pub name: String,
    pub generics: Vec<GenericParam>,
    pub fields: Vec<ContainerField>,
}

/// One field of the flattened value struct the consumption contract
/// yields: optional exactly when the field has no default.
pub struct FlatField {
    pub name: String,
    pub form: SlotForm,
    pub optional: bool,
}

/// The generated consumption contract: one consuming operation that takes
/// ownership of the container and yields the flattened value struct.
pub struct TraitSpec {
    pub name: String,
    pub output_name: String,
    pub fields: Vec<FlatField>,
}

/// The generated shorthand invocation form: it constructs an empty
/// container, applies the written setter chain, and hands the container to
/// the component's render entry.
pub struct MacroSpec {
    pub name: String,
    pub render_entry: String,
}

/// The complete generated surface for one component schema.
pub struct GeneratedSurface {
    pub container: ContainerSpec,
    pub contract: TraitSpec,
    pub setters: Vec<FieldSetters>,
    pub shorthand: MacroSpec,
}

/// The storage form of a reactivity mode.
pub open spec fn slot_form_of(m: ReactivityMode) -> SlotForm {
    match m {
        ReactivityMode::Constant => SlotForm::RawSlot,
        ReactivityMode::Single => SlotForm::SignalSlot,
        ReactivityMode::Collection => SlotForm::SignalVecSlot,
    }
}

/// Whether one of the bound views equals `b`.
pub open spec fn bounds_have(bounds: Seq<Seq<char>>, b: Seq<char>) -> bool
    decreases bounds.len(),
{
    bounds.len() > 0 && (bounds_have(bounds.drop_last(), b) || bounds.last() == b)
}

/// Whether one of the parameters carries `b` among its bounds.
pub open spec fn any_bound(gvs: Seq<GenericParamView>, b: Seq<char>) -> bool
    decreases gvs.len(),
{
    gvs.len() > 0 && (any_bound(gvs.drop_last(), b) || bounds_have(gvs.last().bounds, b))
}

/// Whether the generated bound for this field's reactive value must
/// require the cross-thread capability: either the field carries the
/// explicit marker, or its type uses a generic parameter whose own bounds
/// already require that capability.
pub open spec fn needs_thread_safe(f: FieldSpec, generics: Seq<GenericParam>) -> bool {
    f.thread_safe_marker || any_bound(gp_views(used_generics(f.declared_type, generics)), "Send"@)
}

/// The bound views of the synthetic parameter of a reactive field: the
/// reactive contract itself, plus the cross-thread capability exactly when
/// the field requires it.
pub open spec fn synthetic_bounds(f: FieldSpec, generics: Seq<GenericParam>) -> Seq<Seq<char>> {
    let base: Seq<Seq<char>> = if f.reactivity_mode is Single {
        seq!["Signal"@]
    } else {
        seq!["SignalVec"@]
    };
    if needs_thread_safe(f, generics) {
        base.push("Send"@)
    } else {
        base
    }
}

/// What the synthetic parameter of a reactive field must be.
pub open spec fn synthetic_ok(sp: SyntheticParam, f: FieldSpec, generics: Seq<GenericParam>) -> bool {
    &&& sp.ident@ == "T"@ + upper_first_of(f.name@) + if f.reactivity_mode is Single {
        "Signal"@
    } else {
        "SignalVec"@
    }
    &&& string_views(sp.bounds@) == synthetic_bounds(f, generics)
    &&& sp.default_type@ == if f.reactivity_mode is Single {
        "Always"@
    } else {
        "AlwaysVec"@
    }
}

/// What every setter of a field must satisfy: it writes that field's slot
/// and requires exactly the generic parameters the field's type uses.
pub open spec fn setter_base_ok(
    s: SetterSpec,
    f: FieldSpec,
    generics: Seq<GenericParam>,
    idx: int,
) -> bool {
    &&& s.field_index == idx
    &&& gp_views(s.used_generics@) == gp_views(used_generics(f.declared_type, generics))
}

/// What the generated builder operations of one field must be: one raw
/// setter for a constant field; a wrapping setter and a reactive setter,
/// both writing the same slot, for a reactive field.
pub open spec fn setters_ok(
    fs: FieldSetters,
    f: FieldSpec,
    generics: Seq<GenericParam>,
    idx: int,
) -> bool {
    &&& fs.field_name@ == f.name@
    &&& match f.reactivity_mode {
        ReactivityMode::Constant => {
            &&& fs.setters@.len() == 1
            &&& setter_base_ok(fs.setters@[0], f, generics, idx)
            &&& fs.setters@[0].name@ == f.name@
            &&& fs.setters@[0].kind == SetterKind::SetRaw
            &&& fs.setters@[0].synthetic is None
        },
        ReactivityMode::Single => {
            &&& fs.setters@.len() == 2
            &&& setter_base_ok(fs.setters@[0], f, generics, idx)
            &&& setter_base_ok(fs.setters@[1], f, generics, idx)
            &&& fs.setters@[0].name@ == f.name@
            &&& fs.setters@[0].kind == SetterKind::WrapSignal
            &&& fs.setters@[0].synthetic is None
            &&& fs.setters@[1].name@ == f.name@ + "_signal"@
            &&& fs.setters@[1].kind == SetterKind::SetSignal
            &&& fs.setters@[1].synthetic matches Some(sp) && synthetic_ok(sp, f, generics)
        },
        ReactivityMode::Collection => {
            &&& fs.setters@.len() == 2
            &&& setter_base_ok(fs.setters@[0], f, generics, idx)
            &&& setter_base_ok(fs.setters@[1], f, generics, idx)
            &&& fs.setters@[0].name@ == f.name@
            &&& fs.setters@[0].kind == SetterKind::WrapSignalVec
            &&& fs.setters@[0].synthetic is None
            &&& fs.setters@[1].name@ == f.name@ + "_signal_vec"@
            &&& fs.setters@[1].kind == SetterKind::SetSignalVec
            &&& fs.setters@[1].synthetic matches Some(sp) && synthetic_ok(sp, f, generics)
        },
    }
}

/// What one container slot must be.
pub open spec fn container_field_ok(
    cf: ContainerField,
    f: FieldSpec,
    generics: Seq<GenericParam>,
) -> bool {
    &&& cf.name@ == f.name@
    &&& cf.form == slot_form_of(f.reactivity_mode)
    &&& if f.reactivity_mode is Constant {
        cf.synthetic is None
    } else {
        cf.synthetic matches Some(sp) && synthetic_ok(sp, f, generics)
    }
}

/// What one flattened field must be: it keeps the field's storage form and
/// is optional exactly when the field has no default.
pub open spec fn flat_field_ok(ff: FlatField, f: FieldSpec) -> bool {
    &&& ff.name@ == f.name@
    &&& ff.form == slot_form_of(f.reactivity_mode)
    &&& ff.optional == (f.default is None)
}

/// Whether one of the strings in `bounds` reads `b`.
#[verifier::loop_isolation(false)]
fn bounds_contain(bounds: &Vec<String>, b: &str) -> (r: bool)
    ensures
        r == bounds_have(string_views(bounds@), b@),
{
    let n = bounds.len();
    let mut i: usize = 0;
    proof {
        assert(string_views(bounds@).len() == n);
        assert(string_views(bounds@.take(0int)) =~= Seq::<Seq<char>>::empty());
    }
    while i < n
        invariant
            i <= n,
            n == bounds@.len(),
            !bounds_have(string_views(bounds@.take(i as int)), b@),
        decreases n - i,
    {
        if str_eq(bounds[i].as_str(), b) {
            proof {
                lemma_bounds_have_extend(bounds@, i as int, b@);
            }
            return true;
        }
        proof {
            let pre = string_views(bounds@.take(i as int));
            let post = string_views(bounds@.take(i as int + 1));
            assert(post.drop_last() =~= pre);
            assert(post.last() == bounds@[i as int]@);
        }
        i = i + 1;
    }
    proof {
        assert(bounds@.take(n as int) =~= bounds@);
    }
    false
}

/// If entry `i` of `bounds` reads `b`, the whole list has `b`.
proof fn lemma_bounds_have_extend(bounds: Seq<String>, i: int, b: Seq<char>)
    requires
        0 <= i < bounds.len(),
        bounds[i]@ == b,
    ensures
        bounds_have(string_views(bounds), b),
    decreases bounds.len(),
{
    if i == bounds.len() - 1 {
        assert(string_views(bounds).last() == bounds[i]@);
    } else {
        lemma_bounds_have_extend(bounds.drop_last(), i, b);
        assert(string_views(bounds.drop_last()) =~= string_views(bounds).drop_last());
    }
}

/// Whether the field must propagate the cross-thread capability to its
/// generated bound.
#[verifier::loop_isolation(false)]
pub fn field_needs_thread_safe(f: &FieldSpec, generics: &Vec<GenericParam>) -> (r: bool)
    ensures
        r == needs_thread_safe(*f, generics@),
{
    if f.thread_safe_marker {
        return true;
    }
    let used = get_type_generic_param_use(&f.declared_type, generics);
    let ghost goal = gp_views(used_generics(f.declared_type, generics@));
    let n = used.len();
    let mut i: usize = 0;
    proof {
        assert(gp_views(used@.take(0int)) =~= Seq::<GenericParamView>::empty());
    }
    while i < n
        invariant
            i <= n,
            n == used@.len(),
            gp_views(used@) == goal,
            !any_bound(gp_views(used@.take(i as int)), "Send"@),
        decreases n - i,
    {
        let has = bounds_contain(&used[i].bounds, "Send");
        proof {
            let pre = gp_views(used@.take(i as int));
            let post = gp_views(used@.take(i as int + 1));
            assert(post.drop_last() =~= pre);
            assert(post.last() == used@[i as int]@);
        }
        if has {
            proof {
                lemma_any_bound_extend(used@, i as int, "Send"@);
                assert(any_bound(goal, "Send"@));
            }
            return true;
        }
        i = i + 1;
    }
    proof {
        assert(used@.take(n as int) =~= used@);
    }
    false
}

/// If entry `i` of `gs` carries bound `b`, the whole list has a parameter
/// with bound `b`.
proof fn lemma_any_bound_extend(gs: Seq<GenericParam>, i: int, b: Seq<char>)
    requires
        0 <= i < gs.len(),
        bounds_have(gs[i]@.bounds, b),
    ensures
        any_bound(gp_views(gs), b),
    decreases gs.len(),
{
    if i == gs.len() - 1 {
        assert(gp_views(gs).last() == gs[i]@);
    } else {
        lemma_any_bound_extend(gs.drop_last(), i, b);
        assert(gp_views(gs.drop_last()) =~= gp_views(gs).drop_last());
    }
}

/// What the generated surface of a schema must be: every generated name is
/// a pure function of the schema and field names; the container keeps the
/// component's generic parameters and one slot per field; the contract's
/// flattened struct is optional exactly where no default exists; each
/// field gets its builder operations; and the shorthand form names the
/// snake-case component and its render entry.
pub open spec fn surface_renders(r: GeneratedSurface, cmp: ComponentSchema) -> bool {
    &&& r.container.name@ == cmp.name@ + "Props"@
    &&& gp_views(r.container.generics@) == gp_views(cmp.generics@)
    &&& r.container.fields@.len() == cmp.fields@.len()
    &&& forall|i: int|
        0 <= i < cmp.fields@.len() ==> container_field_ok(
            #[trigger] r.container.fields@[i],
            cmp.fields@[i],
            cmp.generics@,
        )
    &&& r.contract.name@ == cmp.name@ + "PropsTrait"@
    &&& r.contract.output_name@ == cmp.name@ + "Props"@
    &&& r.contract.fields@.len() == cmp.fields@.len()
    &&& forall|i: int|
        0 <= i < cmp.fields@.len() ==> flat_field_ok(
            #[trigger] r.contract.fields@[i],
            cmp.fields@[i],
        )
    &&& r.setters@.len() == cmp.fields@.len()
    &&& forall|i: int|
        0 <= i < cmp.fields@.len() ==> setters_ok(
            #[trigger] r.setters@[i],
            cmp.fields@[i],
            cmp.generics@,
            i,
        )
    &&& r.shorthand.name@ == crate::text::snake_of(cmp.name@)
    &&& r.shorthand.render_entry == cmp.render_entry
}

/// Emits the complete generated surface for one schema: the optional-value
/// container, the consumption contract with its flattened value struct,
/// the per-field builder operations, and the shorthand invocation form.
/// Every generated name is a pure function of the schema and field names,
/// and every generated reference to a generic parameter is one the usage
/// analysis confirmed for that field.
#[verifier::loop_isolation(false)]
pub fn render_props(cmp: ComponentSchema) -> (r: GeneratedSurface)
    ensures
        surface_renders(r, cmp),
{
    let ComponentSchema { name, render_entry, generics, fields, docs: _ } = cmp;

    let n = fields.len();
    let mut container_fields: Vec<ContainerField> = Vec::new();
    let mut flat_fields: Vec<FlatField> = Vec::new();
    let mut all_setters: Vec<FieldSetters> = Vec::new();
    let mut i: usize = 0;
    while i < n
        invariant
            i <= n,
            n == fields@.len(),
            container_fields@.len() == i,
            flat_fields@.len() == i,
            all_setters@.len() == i,
            forall|l: int|
                0 <= l < i ==> container_field_ok(
                    #[trigger] container_fields@[l],
                    fields@[l],
                    generics@,
                ),
            forall|l: int| 0 <= l < i ==> flat_field_ok(#[trigger] flat_fields@[l], fields@[l]),
            forall|l: int|
                0 <= l < i ==> setters_ok(#[trigger] all_setters@[l], fields@[l], generics@, l),
        decreases n - i,
    {
        let f = &fields[i];
        let used = get_type_generic_param_use(&f.declared_type, &generics);
        let sync = field_needs_thread_safe(f, &generics);
        let form = match f.reactivity_mode {
            ReactivityMode::Constant => SlotForm::RawSlot,
            ReactivityMode::Single => SlotForm::SignalSlot,
            ReactivityMode::Collection => SlotForm::SignalVecSlot,
        };
        let optional = f.default.is_none();

        let synthetic: Option<SyntheticParam> = match f.reactivity_mode {
            ReactivityMode::Constant => None,
            ReactivityMode::Single => Some(
                make_synthetic(f.name.as_str(), "Signal", "Always", sync),
            ),
            ReactivityMode::Collection => Some(
                make_synthetic(f.name.as_str(), "SignalVec", "AlwaysVec", sync),
            ),
        };
        let setter_synthetic: Option<SyntheticParam> = match f.reactivity_mode {
            ReactivityMode::Constant => None,
            ReactivityMode::Single => Some(
                make_synthetic(f.name.as_str(), "Signal", "Always", sync),
            ),
            ReactivityMode::Collection => Some(
                make_synthetic(f.name.as_str(), "SignalVec", "AlwaysVec", sync),
            ),
        };
        proof {
            assert(synthetic_bounds(fields@[i as int], generics@) == if fields@[i as int].reactivity_mode is Single {
                if needs_thread_safe(fields@[i as int], generics@) {
                    seq!["Signal"@, "Send"@]
                } else {
                    seq!["Signal"@]
                }
            } else {
                if needs_thread_safe(fields@[i as int], generics@) {
                    seq!["SignalVec"@, "Send"@]
                } else {
                    seq!["SignalVec"@]
                }
            }) by {
                if needs_thread_safe(fields@[i as int], generics@) {
                    assert(seq!["Signal"@].push("Send"@) =~= seq!["Signal"@, "Send"@]);
                    assert(seq!["SignalVec"@].push("Send"@) =~= seq!["SignalVec"@, "Send"@]);
                }
            }
        }

        container_fields.push(
            ContainerField { name: f.name.clone(), form, synthetic },
        );
        flat_fields.push(FlatField { name: f.name.clone(), form, optional });

        let mut setters: Vec<SetterSpec> = Vec::new();
        match f.reactivity_mode {
            ReactivityMode::Constant => {
                setters.push(
                    SetterSpec {
                        name: f.name.clone(),
                        kind: SetterKind::SetRaw,
                        field_index: i,
                        used_generics: used,
                        synthetic: None,
                    },
                );
            },
            ReactivityMode::Single => {
                let used2 = get_type_generic_param_use(&f.declared_type, &generics);
                setters.push(
                    SetterSpec {
                        name: f.name.clone(),
                        kind: SetterKind::WrapSignal,
                        field_index: i,
                        used_generics: used,
                        synthetic: None,
                    },
                );
                setters.push(
                    SetterSpec {
                        name: f.name.clone().concat("_signal"),
                        kind: SetterKind::SetSignal,
                        field_index: i,
                        used_generics: used2,
                        synthetic: setter_synthetic,
                    },
                );
            },
            ReactivityMode::Collection => {
                let used2 = get_type_generic_param_use(&f.declared_type, &generics);
                setters.push(
                    SetterSpec {
                        name: f.name.clone(),
                        kind: SetterKind::WrapSignalVec,
                        field_index: i,
                        used_generics: used,
                        synthetic: None,
                    },
                );
                setters.push(
                    SetterSpec {
                        name: f.name.clone().concat("_signal_vec"),
                        kind: SetterKind::SetSignalVec,
                        used_generics: used2,
                        field_index: i,
                        synthetic: setter_synthetic,
                    },
                );
            },
        }
        all_setters.push(FieldSetters { field_name: f.name.clone(), setters });
        i = i + 1;
    }

    let container = ContainerSpec {
        name: String::from_str(name.as_str()).concat("Props"),
        generics,
        fields: container_fields,
    };
    let contract = TraitSpec {
        name: String::from_str(name.as_str()).concat("PropsTrait"),
        output_name: String::from_str(name.as_str()).concat("Props"),
        fields: flat_fields,
    };
    let shorthand = MacroSpec { name: crate::text::snake_case(name.as_str()), render_entry };
    GeneratedSurface { container, contract, setters: all_setters, shorthand }
}

/// Builds the synthetic parameter for a reactive field.
fn make_synthetic(field_name: &str, contract: &str, trivial: &str, sync: bool) -> (r:
    SyntheticParam)
    ensures
        r.ident@ == "T"@ + upper_first_of(field_name@) + contract@,
        string_views(r.bounds@) == if sync {
            seq![contract@, "Send"@]
        } else {
            seq![contract@]
        },
        r.default_type@ == trivial@,
{
    let ident = String::from_str("T").concat(upper_first(field_name).as_str()).concat(contract);
    let mut bounds: Vec<String> = Vec::new();
    bounds.push(String::from_str(contract));
    if sync {
        bounds.push(String::from_str("Send"));
        proof {
            assert(string_views(bounds@) =~= seq![contract@, "Send"@]);
        }
    } else {
        proof {
            assert(string_views(bounds@) =~= seq![contract@]);
        }
    }
    SyntheticParam { ident, bounds, default_type: String::from_str(trivial) }
}

} // verus!
