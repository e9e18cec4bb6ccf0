use vstd::prelude::*;

use crate::schema::ReactivityMode;

verus! {

/// A plain property value in the runtime model of a generated component.
#[derive(Clone, PartialEq, Debug)]
pub enum PropValue {
    IntVal(i64),
    StrVal(String),
    UnitVal,
}

/// A single reactive value: the trivial always-available wrapper around a
/// plain value, or an external time-varying source identified by a handle,
/// together with whether it may cross concurrent execution contexts.
#[derive(Clone, PartialEq, Debug)]
pub enum Reactive {
    AlwaysSig(PropValue),
    ExternalSig { id: u64, sync: bool },
}

/// A reactive ordered collection, in the same two forms.
#[derive(Clone, PartialEq, Debug)]
pub enum ReactiveVec {
    AlwaysVec(Vec<PropValue>),
    ExternalVec { id: u64, sync: bool },
}

/// What one container slot stores.
#[derive(Clone, PartialEq, Debug)]
pub enum Stored {
    RawVal(PropValue),
    SigVal(Reactive),
    SigVecVal(ReactiveVec),
}

/// An incremental change notification of a reactive collection.
#[derive(Clone, PartialEq, Debug)]
pub enum VecChange {
    ReplaceAll(Vec<PropValue>),
}

/// Whether a reactive value may cross concurrent execution contexts: the
/// trivial wrapper of a plain value always may; an external source only
/// when it was created with the capability.
pub open spec fn sig_sync(s: Reactive) -> bool {
    match s {
        Reactive::AlwaysSig(_) => true,
        Reactive::ExternalSig { sync, .. } => sync,
    }
}

/// The same capability for a reactive collection.
pub open spec fn sig_vec_sync(s: ReactiveVec) -> bool {
    match s {
        ReactiveVec::AlwaysVec(_) => true,
        ReactiveVec::ExternalVec { sync, .. } => sync,
    }
}

/// One field of a runtime container: its reactivity mode, its default in
/// storage form, and whether stored reactive values must carry the
/// cross-thread capability.
pub struct RuntimeField {
    pub mode: ReactivityMode,
    pub default: Option<Stored>,
    pub needs_sync: bool,
}

/// A stored value has the storage form of the field's mode.
pub open spec fn stored_form_ok(mode: ReactivityMode, s: Stored) -> bool {
    match mode {
        ReactivityMode::Constant => s is RawVal,
        ReactivityMode::Single => s is SigVal,
        ReactivityMode::Collection => s is SigVecVal,
    }
}

/// A field's default, when present, is in its storage form.
pub open spec fn field_wf(f: RuntimeField) -> bool {
    match f.default {
        Some(d) => stored_form_ok(f.mode, d),
        None => true,
    }
}

/// One field of the flattened value struct, after consumption: plain when
/// the field had a default, optional when it had none.
#[derive(Clone, PartialEq, Debug)]
pub enum FlatSlot {
    RawOpt(Option<PropValue>),
    Raw(PropValue),
    SigOpt(Option<Reactive>),
    Sig(Reactive),
    SigVecOpt(Option<ReactiveVec>),
    SigVec(ReactiveVec),
}

/// The flattened value struct yielded by consuming a container.
#[derive(Clone, PartialEq, Debug)]
pub struct FlatProps {
    pub slots: Vec<FlatSlot>,
}

/// What consuming one slot yields: the stored value if the slot was set,
/// otherwise the default; optional when the field has no default. Defaults
/// take effect here and nowhere else.
pub open spec fn flat_of(f: RuntimeField, slot: Option<Stored>) -> FlatSlot {
    match f.mode {
        ReactivityMode::Constant => match f.default {
            None => FlatSlot::RawOpt(
                match slot {
                    Some(Stored::RawVal(v)) => Some(v),
                    _ => None,
                },
            ),
            Some(d) => FlatSlot::Raw(
                match slot {
                    Some(Stored::RawVal(v)) => v,
                    _ => d->RawVal_0,
                },
            ),
        },
        ReactivityMode::Single => match f.default {
            None => FlatSlot::SigOpt(
                match slot {
                    Some(Stored::SigVal(s)) => Some(s),
                    _ => None,
                },
            ),
            Some(d) => FlatSlot::Sig(
                match slot {
                    Some(Stored::SigVal(s)) => s,
                    _ => d->SigVal_0,
                },
            ),
        },
        ReactivityMode::Collection => match f.default {
            None => FlatSlot::SigVecOpt(
                match slot {
                    Some(Stored::SigVecVal(s)) => Some(s),
                    _ => None,
                },
            ),
            Some(d) => FlatSlot::SigVec(
                match slot {
                    Some(Stored::SigVecVal(s)) => s,
                    _ => d->SigVecVal_0,
                },
            ),
        },
    }
}

/// The runtime model of a generated optional-value container: one optional
/// slot per field; absent means the caller has not provided the field yet.
pub struct PropsContainer {
    pub fields: Vec<RuntimeField>,
    pub slots: Vec<Option<Stored>>,
}

impl PropsContainer {
    /// One slot per field, well-formed fields, and every set slot holds a
    /// value of its field's storage form.
    pub open spec fn wf(self) -> bool {
        &&& self.slots@.len() == self.fields@.len()
        &&& forall|i: int| 0 <= i < self.fields@.len() ==> field_wf(#[trigger] self.fields@[i])
        &&& forall|i: int|
            0 <= i < self.slots@.len() ==> match #[trigger] self.slots@[i] {
                Some(s) => stored_form_ok(self.fields@[i].mode, s),
                None => true,
            }
    }

    /// Constructs the container with every slot unset. Construction is
    /// cheap: no default is read or substituted here.
    pub fn new(fields: Vec<RuntimeField>) -> (r: Self)
        requires
            forall|i: int| 0 <= i < fields@.len() ==> field_wf(#[trigger] fields@[i]),
        ensures
            r.wf(),
            r.fields == fields,
            r.slots@.len() == fields@.len(),
            forall|i: int| 0 <= i < fields@.len() ==> (#[trigger] r.slots@[i]) is None,
    {
        let n = fields.len();
        let mut slots: Vec<Option<Stored>> = Vec::new();
        let mut i: usize = 0;
        #[verifier::loop_isolation(false)]
        while i < n
            invariant
                i <= n,
                slots@.len() == i,
                forall|l: int| 0 <= l < i ==> (#[trigger] slots@[l]) is None,
            decreases n - i,
        {
            slots.push(None);
            i = i + 1;
        }
        PropsContainer { fields, slots }
    }

    /// Replaces slot `idx` with `s`; every other slot is untouched.
    fn with_slot(self, idx: usize, s: Stored) -> (r: Self)
        requires
            self.wf(),
            idx < self.fields@.len(),
            stored_form_ok(self.fields@[idx as int].mode, s),
        ensures
            r.wf(),
            r.fields == self.fields,
            r.slots@ == self.slots@.update(idx as int, Some(s)),
    {
        let PropsContainer { fields, slots } = self;
        let mut slots = slots;
        let ghost orig = slots@;
        slots.remove(idx);
        slots.insert(idx, Some(s));
        proof {
            assert(slots@ =~= orig.update(idx as int, Some(s)));
        }
        PropsContainer { fields, slots }
    }

    /// The setter of a constant field: stores the raw value, overwriting
    /// any previously stored value (last write wins).
    pub fn set_constant(self, idx: usize, v: PropValue) -> (r: Self)
        requires
            self.wf(),
            idx < self.fields@.len(),
            self.fields@[idx as int].mode == ReactivityMode::Constant,
        ensures
            r.wf(),
            r.fields == self.fields,
            r.slots@ == self.slots@.update(idx as int, Some(Stored::RawVal(v))),
    {
        self.with_slot(idx, Stored::RawVal(v))
    }

    /// The constant-form setter of a single reactive field: wraps the
    /// plain value into the trivial always-available reactive value and
    /// stores it, overwriting any previously stored value.
    pub fn set_value(self, idx: usize, v: PropValue) -> (r: Self)
        requires
            self.wf(),
            idx < self.fields@.len(),
            self.fields@[idx as int].mode == ReactivityMode::Single,
        ensures
            r.wf(),
            r.fields == self.fields,
            r.slots@ == self.slots@.update(
                idx as int,
                Some(Stored::SigVal(Reactive::AlwaysSig(v))),
            ),
    {
        self.with_slot(idx, Stored::SigVal(Reactive::AlwaysSig(v)))
    }

    /// The reactive-form setter of a single reactive field: stores the
    /// caller-supplied reactive value directly, overwriting any previously
    /// stored value. A field that requires the cross-thread capability
    /// only accepts reactive values that carry it.
    pub fn set_signal(self, idx: usize, s: Reactive) -> (r: Self)
        requires
            self.wf(),
            idx < self.fields@.len(),
            self.fields@[idx as int].mode == ReactivityMode::Single,
            self.fields@[idx as int].needs_sync ==> sig_sync(s),
        ensures
            r.wf(),
            r.fields == self.fields,
            r.slots@ == self.slots@.update(idx as int, Some(Stored::SigVal(s))),
    {
        self.with_slot(idx, Stored::SigVal(s))
    }

    /// The constant-form setter of a reactive collection field: wraps the
    /// plain sequence into the trivial always-available collection.
    pub fn set_values(self, idx: usize, vs: Vec<PropValue>) -> (r: Self)
        requires
            self.wf(),
            idx < self.fields@.len(),
            self.fields@[idx as int].mode == ReactivityMode::Collection,
        ensures
            r.wf(),
            r.fields == self.fields,
            r.slots@ == self.slots@.update(
                idx as int,
                Some(Stored::SigVecVal(ReactiveVec::AlwaysVec(vs))),
            ),
    {
        self.with_slot(idx, Stored::SigVecVal(ReactiveVec::AlwaysVec(vs)))
    }

    /// The reactive-form setter of a reactive collection field.
    pub fn set_signal_vec(self, idx: usize, s: ReactiveVec) -> (r: Self)
        requires
            self.wf(),
            idx < self.fields@.len(),
            self.fields@[idx as int].mode == ReactivityMode::Collection,
            self.fields@[idx as int].needs_sync ==> sig_vec_sync(s),
        ensures
            r.wf(),
            r.fields == self.fields,
            r.slots@ == self.slots@.update(idx as int, Some(Stored::SigVecVal(s))),
    {
        self.with_slot(idx, Stored::SigVecVal(s))
    }

    /// Consumes the container and yields the flattened value struct:
    /// per field, the stored value if one was set, otherwise the default;
    /// optional where the field has no default. This is the only place
    /// where defaults take effect.
    pub fn take(self) -> (r: FlatProps)
        requires
            self.wf(),
        ensures
            r.slots@.len() == self.fields@.len(),
            forall|i: int|
                0 <= i < self.fields@.len() ==> r.slots@[i] == flat_of(
                    self.fields@[i],
                    self.slots@[i],
                ),
    {
        let PropsContainer { fields, slots } = self;
        let ghost orig_fields = fields@;
        let ghost orig_slots = slots@;
        let mut fields = fields;
        let mut slots = slots;
        let total: usize = fields.len();
        let mut out: Vec<FlatSlot> = Vec::new();
        let mut k: usize = 0;
        proof {
            assert(fields@ =~= orig_fields.subrange(0int, orig_fields.len() as int));
            assert(slots@ =~= orig_slots.subrange(0int, orig_slots.len() as int));
        }
        #[verifier::loop_isolation(false)]
        while fields.len() > 0
            invariant
                total == orig_fields.len(),
                orig_slots.len() == orig_fields.len(),
                k + fields@.len() == orig_fields.len(),
                slots@.len() == fields@.len(),
                fields@ == orig_fields.subrange(k as int, orig_fields.len() as int),
                slots@ == orig_slots.subrange(k as int, orig_slots.len() as int),
                out@.len() == k,
                forall|l: int|
                    0 <= l < k ==> out@[l] == flat_of(orig_fields[l], orig_slots[l]),
            decreases fields@.len(),
        {
            let f = fields.remove(0);
            let slot = slots.remove(0);
            proof {
                assert(f == orig_fields[k as int]);
                assert(slot == orig_slots[k as int]);
                assert(fields@ =~= orig_fields.subrange(k as int + 1, orig_fields.len() as int));
                assert(slots@ =~= orig_slots.subrange(k as int + 1, orig_slots.len() as int));
                assert(field_wf(orig_fields[k as int]));
                assert(match orig_slots[k as int] {
                    Some(s) => stored_form_ok(orig_fields[k as int].mode, s),
                    None => true,
                });
            }
            let flat = match f.mode {
                ReactivityMode::Constant => match f.default {
                    None => FlatSlot::RawOpt(
                        match slot {
                            Some(Stored::RawVal(v)) => Some(v),
                            _ => None,
                        },
                    ),
                    Some(Stored::RawVal(d)) => FlatSlot::Raw(
                        match slot {
                            Some(Stored::RawVal(v)) => v,
                            _ => d,
                        },
                    ),
                    Some(_) => vstd::pervasive::unreached(),
                },
                ReactivityMode::Single => match f.default {
                    None => FlatSlot::SigOpt(
                        match slot {
                            Some(Stored::SigVal(s)) => Some(s),
                            _ => None,
                        },
                    ),
                    Some(Stored::SigVal(d)) => FlatSlot::Sig(
                        match slot {
                            Some(Stored::SigVal(s)) => s,
                            _ => d,
                        },
                    ),
                    Some(_) => vstd::pervasive::unreached(),
                },
                ReactivityMode::Collection => match f.default {
                    None => FlatSlot::SigVecOpt(
                        match slot {
                            Some(Stored::SigVecVal(s)) => Some(s),
                            _ => None,
                        },
                    ),
                    Some(Stored::SigVecVal(d)) => FlatSlot::SigVec(
                        match slot {
                            Some(Stored::SigVecVal(s)) => s,
                            _ => d,
                        },
                    ),
                    Some(_) => vstd::pervasive::unreached(),
                },
            };
            out.push(flat);
            k = k + 1;
        }
        FlatProps { slots: out }
    }
}

/// Whether the generated constraints let this reactive value be stored in
/// the field: a field that requires the cross-thread capability rejects a
/// reactive value lacking it; a field that does not accepts both.
pub fn signal_accepted(f: &RuntimeField, s: &Reactive) -> (r: bool)
    ensures
        r == (f.needs_sync ==> sig_sync(*s)),
{
    if !f.needs_sync {
        true
    } else {
        match s {
            Reactive::AlwaysSig(_) => true,
            Reactive::ExternalSig { sync, .. } => *sync,
        }
    }
}

/// The collection form of the same check.
pub fn signal_vec_accepted(f: &RuntimeField, s: &ReactiveVec) -> (r: bool)
    ensures
        r == (f.needs_sync ==> sig_vec_sync(*s)),
{
    if !f.needs_sync {
        true
    } else {
        match s {
            ReactiveVec::AlwaysVec(_) => true,
            ReactiveVec::ExternalVec { sync, .. } => *sync,
        }
    }
}

/// Draining the incremental change notifications of an always-available
/// reactive collection yields exactly one replace-all change carrying its
/// contents.
pub fn vec_changes(sv: ReactiveVec) -> (r: Vec<VecChange>)
    requires
        sv is AlwaysVec,
    ensures
        r@ == seq![VecChange::ReplaceAll(sv->AlwaysVec_0)],
{
    match sv {
        ReactiveVec::AlwaysVec(vs) => {
            let mut out: Vec<VecChange> = Vec::new();
            out.push(VecChange::ReplaceAll(vs));
            proof {
                assert(out@ =~= seq![VecChange::ReplaceAll(sv->AlwaysVec_0)]);
            }
            out
        },
        ReactiveVec::ExternalVec { .. } => vstd::pervasive::unreached(),
    }
}

/// Law: builder setters overwrite. Writing a slot twice leaves exactly the
/// second value, whichever setter forms the two writes took; in
/// particular, the constant-form setter followed by the reactive-form
/// setter (or the reverse) stores exactly the second call's value.
pub proof fn lemma_last_write_wins(slots: Seq<Option<Stored>>, idx: int, a: Stored, b: Stored)
    requires
        0 <= idx < slots.len(),
    ensures
        slots.update(idx, Some(a)).update(idx, Some(b)) =~= slots.update(idx, Some(b)),
        slots.update(idx, Some(a)).update(idx, Some(b))[idx] == Some(b),
{
}

/// Law: a value that was set wins over the default. Consuming a slot that
/// holds a stored value yields exactly that value, whatever the field's
/// default is.
pub proof fn lemma_set_value_wins(f: RuntimeField, s: Stored)
    requires
        field_wf(f),
        stored_form_ok(f.mode, s),
    ensures
        f.default is Some ==> match f.mode {
            ReactivityMode::Constant => flat_of(f, Some(s)) == FlatSlot::Raw(s->RawVal_0),
            ReactivityMode::Single => flat_of(f, Some(s)) == FlatSlot::Sig(s->SigVal_0),
            ReactivityMode::Collection => flat_of(f, Some(s)) == FlatSlot::SigVec(s->SigVecVal_0),
        },
        f.default is None ==> match f.mode {
            ReactivityMode::Constant => flat_of(f, Some(s)) == FlatSlot::RawOpt(
                Some(s->RawVal_0),
            ),
            ReactivityMode::Single => flat_of(f, Some(s)) == FlatSlot::SigOpt(Some(s->SigVal_0)),
            ReactivityMode::Collection => flat_of(f, Some(s)) == FlatSlot::SigVecOpt(
                Some(s->SigVecVal_0),
            ),
        },
{
}

/// Law: consuming an untouched slot substitutes the default exactly then,
/// and yields exactly the default value.
pub proof fn lemma_unset_yields_default(f: RuntimeField)
    requires
        field_wf(f),
        f.default is Some,
    ensures
        match f.mode {
            ReactivityMode::Constant => flat_of(f, None) == FlatSlot::Raw(
                f.default->0->RawVal_0,
            ),
            ReactivityMode::Single => flat_of(f, None) == FlatSlot::Sig(f.default->0->SigVal_0),
            ReactivityMode::Collection => flat_of(f, None) == FlatSlot::SigVec(
                f.default->0->SigVecVal_0,
            ),
        },
{
}

} // verus!

