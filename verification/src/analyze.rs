use vstd::prelude::*;

use crate::schema::{gp_views, string_views, GenericArg, GenericParam, Segment, TypeExpr};
use crate::text::str_eq;

verus! {

/// Whether the identifier `id` occurs anywhere in the type expression `t`
/// as the identifier of a path segment, including inside nested
/// generic-argument positions.
pub open spec fn expr_mentions(t: TypeExpr, id: Seq<char>) -> bool
    decreases t,
    via expr_mentions_dec
{
    t is Path && segs_mention(t->Path_0@, id)
}

/// Whether some segment of `segs` mentions `id`.
pub open spec fn segs_mention(segs: Seq<Segment>, id: Seq<char>) -> bool
    decreases segs,
    via segs_mention_dec
{
    segs.len() > 0 && (segment_mentions(segs[0], id) || segs_mention(
        segs.subrange(1, segs.len() as int),
        id,
    ))
}

/// Whether `id` is the segment's own identifier or occurs in one of its
/// generic arguments.
pub open spec fn segment_mentions(s: Segment, id: Seq<char>) -> bool
    decreases s,
    via segment_mentions_dec
{
    s.ident@ == id || args_mention(s.args@, id)
}

/// Whether some generic argument of `args` mentions `id`.
pub open spec fn args_mention(args: Seq<GenericArg>, id: Seq<char>) -> bool
    decreases args,
    via args_mention_dec
{
    args.len() > 0 && (arg_mentions(args[0], id) || args_mention(
        args.subrange(1, args.len() as int),
        id,
    ))
}

/// Whether `id` occurs in a generic argument. Lifetime and constant
/// arguments never mention a type parameter.
pub open spec fn arg_mentions(a: GenericArg, id: Seq<char>) -> bool
    decreases a,
{
    a is TypeArg && expr_mentions(a->TypeArg_0, id)
}

#[via_fn]
proof fn expr_mentions_dec(t: TypeExpr, id: Seq<char>) {
    if t is Path {
        assert(decreases_to!(t => t->Path_0));
        assert(decreases_to!(t->Path_0 => t->Path_0@));
    }
}

#[via_fn]
proof fn segs_mention_dec(segs: Seq<Segment>, id: Seq<char>) {
    if segs.len() > 0 {
        assert(decreases_to!(segs => segs[0]));
        assert(decreases_to!(segs => segs.subrange(1, segs.len() as int)));
    }
}

#[via_fn]
proof fn segment_mentions_dec(s: Segment, id: Seq<char>) {
    assert(decreases_to!(s => s.args));
    assert(decreases_to!(s.args => s.args@));
}

#[via_fn]
proof fn args_mention_dec(args: Seq<GenericArg>, id: Seq<char>) {
    if args.len() > 0 {
        assert(decreases_to!(args => args[0]));
        assert(decreases_to!(args => args.subrange(1, args.len() as int)));
    }
}

/// The declared parameters of `generics` that `t` mentions, in declaration
/// order, each at most once.
pub open spec fn used_generics(t: TypeExpr, generics: Seq<GenericParam>) -> Seq<GenericParam> {
    generics.filter(|g: GenericParam| expr_mentions(t, g.ident@))
}

/// Law: the usage analysis is self-consistent. Every parameter it returns
/// is one the declared list contains, and one whose identifier the type
/// actually mentions; artifacts generated to request exactly these
/// parameters therefore never reference a parameter the analysis did not
/// confirm.
pub proof fn lemma_used_generics_confirmed(t: TypeExpr, generics: Seq<GenericParam>)
    ensures
        forall|k: int|
            0 <= k < used_generics(t, generics).len() ==> expr_mentions(
                t,
                (#[trigger] used_generics(t, generics)[k]).ident@,
            ),
        forall|k: int|
            0 <= k < used_generics(t, generics).len() ==> generics.contains(
                #[trigger] used_generics(t, generics)[k],
            ),
    decreases generics.len(),
{
    reveal(Seq::filter);
    let pred = |g: GenericParam| expr_mentions(t, g.ident@);
    let out = generics.filter(pred);
    if generics.len() > 0 {
        let prev = generics.drop_last();
        lemma_used_generics_confirmed(t, prev);
        let sub = prev.filter(pred);
        assert forall|k: int|
            0 <= k < out.len() implies expr_mentions(t, (#[trigger] out[k]).ident@)
            && generics.contains(out[k]) by {
            if k < sub.len() {
                assert(out[k] == sub[k]);
                assert(prev.contains(sub[k]));
                let j = choose|j: int| 0 <= j < prev.len() && prev[j] == sub[k];
                assert(generics[j] == out[k]);
            } else {
                assert(out[k] == generics.last());
                assert(generics[generics.len() - 1] == out[k]);
            }
        }
    }
}

#[verifier::loop_isolation(false)]
fn expr_uses(t: &TypeExpr, id: &str) -> (r: bool)
    ensures
        r == expr_mentions(*t, id@),
    decreases *t,
{
    match t {
        TypeExpr::Path(segs) => {
            let n = segs.len();
            let mut i: usize = 0;
            proof {
                assert(segs@.subrange(0, n as int) =~= segs@);
            }
            while i < n
                invariant
                    i <= n,
                    n == segs@.len(),
                    segs_mention(segs@, id@) == segs_mention(
                        segs@.subrange(i as int, n as int),
                        id@,
                    ),
                decreases n - i,
            {
                proof {
                    assert(decreases_to!(*segs => segs@[i as int]));
                    assert(decreases_to!(*t => segs@[i as int]));
                }
                let ghost tail = segs@.subrange(i as int, n as int);
                proof {
                    assert(tail[0] == segs@[i as int]);
                }
                if segment_uses(&segs[i], id) {
                    proof {
                        assert(segs_mention(tail, id@));
                    }
                    return true;
                }
                proof {
                    assert(tail.subrange(1, tail.len() as int) =~= segs@.subrange(
                        i as int + 1,
                        n as int,
                    ));
                }
                i = i + 1;
            }
            proof {
                assert(segs@.subrange(n as int, n as int) =~= Seq::<Segment>::empty());
            }
            false
        },
        TypeExpr::Other => false,
    }
}

#[verifier::loop_isolation(false)]
fn segment_uses(s: &Segment, id: &str) -> (r: bool)
    ensures
        r == segment_mentions(*s, id@),
    decreases *s,
{
    if str_eq(s.ident.as_str(), id) {
        return true;
    }
    let n = s.args.len();
    let mut j: usize = 0;
    proof {
        assert(s.args@.subrange(0, n as int) =~= s.args@);
    }
    while j < n
        invariant
            j <= n,
            n == s.args@.len(),
            args_mention(s.args@, id@) == args_mention(s.args@.subrange(j as int, n as int), id@),
        decreases n - j,
    {
        proof {
            assert(decreases_to!(s.args => s.args@[j as int]));
            assert(decreases_to!(*s => s.args@[j as int]));
        }
        let ghost tail = s.args@.subrange(j as int, n as int);
        proof {
            assert(tail[0] == s.args@[j as int]);
        }
        if arg_uses(&s.args[j], id) {
            proof {
                assert(args_mention(tail, id@));
            }
            return true;
        }
        proof {
            assert(tail.subrange(1, tail.len() as int) =~= s.args@.subrange(
                j as int + 1,
                n as int,
            ));
        }
        j = j + 1;
    }
    proof {
        assert(s.args@.subrange(n as int, n as int) =~= Seq::<GenericArg>::empty());
    }
    false
}

fn arg_uses(a: &GenericArg, id: &str) -> (r: bool)
    ensures
        r == arg_mentions(*a, id@),
    decreases *a,
{
    match a {
        GenericArg::TypeArg(t) => expr_uses(t, id),
        GenericArg::LifetimeArg => false,
        GenericArg::ConstArg => false,
    }
}

/// Copies a generic parameter; the copy declares the same parameter.
#[verifier::loop_isolation(false)]
fn clone_param(g: &GenericParam) -> (r: GenericParam)
    ensures
        r@ == g@,
{
    let mut bounds: Vec<String> = Vec::new();
    let mut i: usize = 0;
    while i < g.bounds.len()
        invariant
            i <= g.bounds@.len(),
            string_views(bounds@) == string_views(g.bounds@.take(i as int)),
        decreases g.bounds@.len() - i,
    {
        bounds.push(g.bounds[i].clone());
        proof {
            let a = string_views(bounds@);
            let b = string_views(g.bounds@.take(i as int + 1));
            assert forall|k: int| 0 <= k < a.len() implies a[k] == b[k] by {
                assert(a[k] == bounds@[k]@);
                assert(b[k] == g.bounds@.take(i as int + 1)[k]@);
                if k < i {
                    assert(string_views(g.bounds@.take(i as int))[k] == g.bounds@.take(
                        i as int,
                    )[k]@);
                }
            }
            assert(a =~= b);
        }
        i = i + 1;
    }
    let default_type = match &g.default_type {
        Some(d) => Some(d.clone()),
        None => None,
    };
    let r = GenericParam { ident: g.ident.clone(), bounds, default_type };
    proof {
        assert(g.bounds@.take(g.bounds@.len() as int) =~= g.bounds@);
        assert(string_views(r.bounds@) =~= string_views(g.bounds@));
        assert(r@ =~= g@);
    }
    r
}

/// The parameters among `struct_generics` that the type expression `type_`
/// actually references, including parameters nested inside the generic
/// arguments of that type: the result declares exactly the parameters of
/// `used_generics(*type_, struct_generics@)`, in declaration order, each
/// once.
#[verifier::loop_isolation(false)]
pub fn get_type_generic_param_use(
    type_: &TypeExpr,
    struct_generics: &Vec<GenericParam>,
) -> (r: Vec<GenericParam>)
    ensures
        gp_views(r@) == gp_views(used_generics(*type_, struct_generics@)),
{
    let ghost pred = |g: GenericParam| expr_mentions(*type_, g.ident@);
    let mut out: Vec<GenericParam> = Vec::new();
    let mut i: usize = 0;
    proof {
        reveal(Seq::filter);
        assert(struct_generics@.take(0int).filter(pred) =~= Seq::<GenericParam>::empty());
    }
    while i < struct_generics.len()
        invariant
            i <= struct_generics@.len(),
            gp_views(out@) == gp_views(struct_generics@.take(i as int).filter(pred)),
        decreases struct_generics@.len() - i,
    {
        let g = &struct_generics[i];
        let used = expr_uses(type_, g.ident.as_str());
        if used {
            let c = clone_param(g);
            out.push(c);
            proof {
                reveal(Seq::filter);
                let pre = struct_generics@.take(i as int);
                let post = struct_generics@.take(i as int + 1);
                assert(post.drop_last() =~= pre);
                assert(post.last() == struct_generics@[i as int]);
                assert(pred(post.last()));
                assert(post.filter(pred) == pre.filter(pred).push(post.last()));
                let a = gp_views(out@);
                let b = gp_views(post.filter(pred));
                assert forall|k: int| 0 <= k < a.len() implies a[k] == b[k] by {
                    assert(a[k] == out@[k]@);
                    assert(b[k] == post.filter(pred)[k]@);
                    if k < a.len() - 1 {
                        assert(gp_views(pre.filter(pred))[k] == pre.filter(pred)[k]@);
                    }
                }
                assert(a =~= b);
            }
        } else {
            proof {
                reveal(Seq::filter);
                let pre = struct_generics@.take(i as int);
                let post = struct_generics@.take(i as int + 1);
                assert(post.drop_last() =~= pre);
                assert(post.last() == struct_generics@[i as int]);
                assert(!pred(post.last()));
                assert(post.filter(pred) == pre.filter(pred));
            }
        }
        i = i + 1;
    }
    proof {
        assert(struct_generics@.take(struct_generics@.len() as int) =~= struct_generics@);
    }
    out
}

} // verus!
