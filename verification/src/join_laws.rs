//! Laws of the join pass, stated over `desugars_to`.

use crate::air::{Match, Stage};
use crate::join_spec::{
    children_desugared, count_stages, desugars_to, is_equijoin_stage, is_equilookup_stage,
    is_join_stage, is_lookup_stage, equijoin_expansion_lookup, join_expansion_lookup,
    join_expansion_right, join_free,
};
use vstd::prelude::*;

verus! {

/// A desugared pipeline holds no `Join` and no `EquiJoin` stage, at any depth.
pub proof fn lemma_desugared_is_join_free(s: Stage, r: Stage)
    requires
        desugars_to(s, r),
    ensures
        join_free(r),
    decreases s,
{
    if !(s is Join) && !(s is EquiJoin) {
        assert(children_desugared(s, r));
    }
    match s {
        Stage::Join(j) => {
            let lk = join_expansion_lookup(r);
            let right = join_expansion_right(j, r);
            lemma_desugared_is_join_free(*j.left, *lk.source);
            lemma_desugared_is_join_free(*j.right, right);
            if j.condition is Some {
                let m = *lk.pipeline;
                assert(m matches Stage::Match(Match::ExprLanguage(el)) && *el.source == right);
                assert(join_free(m));
            }
            assert(join_free(*lk.pipeline));
            let p = r->Project_0;
            let rw = (*p.source)->ReplaceWith_0;
            let u = (*rw.source)->Unwind_0;
            assert(join_free(*u.source));
            assert(join_free(*rw.source));
            assert(join_free(*p.source));
        },
        Stage::EquiJoin(e) => {
            let el = equijoin_expansion_lookup(r);
            lemma_desugared_is_join_free(*e.source, *el.source);
            let u = r->Unwind_0;
            assert(join_free(*u.source));
        },
        Stage::Project(p) => lemma_desugared_is_join_free(*p.source, *r->Project_0.source),
        Stage::Limit(l) => lemma_desugared_is_join_free(*l.source, *r->Limit_0.source),
        Stage::Skip(k) => lemma_desugared_is_join_free(*k.source, *r->Skip_0.source),
        Stage::Collection(_) => {},
        Stage::Documents(_) => {},
        Stage::Lookup(l) => {
            lemma_desugared_is_join_free(*l.source, *r->Lookup_0.source);
            lemma_desugared_is_join_free(*l.pipeline, *r->Lookup_0.pipeline);
        },
        Stage::EquiLookup(l) => lemma_desugared_is_join_free(*l.source, *r->EquiLookup_0.source),
        Stage::Unwind(u) => lemma_desugared_is_join_free(*u.source, *r->Unwind_0.source),
        Stage::ReplaceWith(w) => lemma_desugared_is_join_free(*w.source, *r->ReplaceWith_0.source),
        Stage::Match(Match::ExprLanguage(x)) => {
            let m = r->Match_0->ExprLanguage_0;
            lemma_desugared_is_join_free(*x.source, *m.source);
        },
        Stage::UnionWith(u) => {
            lemma_desugared_is_join_free(*u.source, *r->UnionWith_0.source);
            lemma_desugared_is_join_free(*u.pipeline, *r->UnionWith_0.pipeline);
        },
        Stage::Sentinel => {},
    }
}

/// A pipeline without joins is left as it is: it desugars to itself, and to nothing else.
pub proof fn lemma_join_free_is_unchanged(s: Stage, r: Stage)
    requires
        join_free(s),
    ensures
        desugars_to(s, s),
        desugars_to(s, r) ==> r == s,
    decreases s,
{
    if desugars_to(s, r) {
        assert(children_desugared(s, r));
    }
    match s {
        Stage::Project(p) => lemma_join_free_is_unchanged(*p.source, *r->Project_0.source),
        Stage::Limit(l) => lemma_join_free_is_unchanged(*l.source, *r->Limit_0.source),
        Stage::Skip(k) => lemma_join_free_is_unchanged(*k.source, *r->Skip_0.source),
        Stage::Lookup(l) => {
            lemma_join_free_is_unchanged(*l.source, *r->Lookup_0.source);
            lemma_join_free_is_unchanged(*l.pipeline, *r->Lookup_0.pipeline);
        },
        Stage::EquiLookup(l) => lemma_join_free_is_unchanged(*l.source, *r->EquiLookup_0.source),
        Stage::Unwind(u) => lemma_join_free_is_unchanged(*u.source, *r->Unwind_0.source),
        Stage::ReplaceWith(w) => lemma_join_free_is_unchanged(*w.source, *r->ReplaceWith_0.source),
        Stage::Match(Match::ExprLanguage(x)) => {
            let m = r->Match_0->ExprLanguage_0;
            lemma_join_free_is_unchanged(*x.source, *m.source);
        },
        Stage::UnionWith(u) => {
            lemma_join_free_is_unchanged(*u.source, *r->UnionWith_0.source);
            lemma_join_free_is_unchanged(*u.pipeline, *r->UnionWith_0.pipeline);
        },
        _ => {},
    }
    assert(children_desugared(s, s));
}

/// Desugaring is idempotent: a desugared pipeline desugars to itself, and to nothing else.
pub proof fn lemma_desugaring_is_idempotent(s: Stage, r: Stage, r2: Stage)
    requires
        desugars_to(s, r),
    ensures
        desugars_to(r, r),
        desugars_to(r, r2) ==> r2 == r,
{
    lemma_desugared_is_join_free(s, r);
    lemma_join_free_is_unchanged(r, r2);
}

/// Each `Join` becomes exactly one `Lookup` and each `EquiJoin` exactly one
/// `EquiLookup`; the lookups already in the pipeline stay.
pub proof fn lemma_each_join_becomes_one_lookup(s: Stage, r: Stage)
    requires
        desugars_to(s, r),
    ensures
        count_stages(r, |t: Stage| is_lookup_stage(t)) == count_stages(s, |t: Stage| is_lookup_stage(t))
            + count_stages(s, |t: Stage| is_join_stage(t)),
        count_stages(r, |t: Stage| is_equilookup_stage(t)) == count_stages(
            s,
            |t: Stage| is_equilookup_stage(t),
        ) + count_stages(s, |t: Stage| is_equijoin_stage(t)),
    decreases s,
{
    let lookups = |t: Stage| is_lookup_stage(t);
    let equilookups = |t: Stage| is_equilookup_stage(t);
    let joins = |t: Stage| is_join_stage(t);
    let equijoins = |t: Stage| is_equijoin_stage(t);
    if !(s is Join) && !(s is EquiJoin) {
        assert(children_desugared(s, r));
    }
    match s {
        Stage::Join(j) => {
            let lk = join_expansion_lookup(r);
            let right = join_expansion_right(j, r);
            lemma_each_join_becomes_one_lookup(*j.left, *lk.source);
            lemma_each_join_becomes_one_lookup(*j.right, right);
            let p = r->Project_0;
            let rw = (*p.source)->ReplaceWith_0;
            let u = (*rw.source)->Unwind_0;
            assert(*u.source == Stage::Lookup(lk));
            if j.condition is Some {
                let m = *lk.pipeline;
                assert(m matches Stage::Match(Match::ExprLanguage(el)) && *el.source == right);
                assert(count_stages(m, lookups) == count_stages(right, lookups));
                assert(count_stages(m, equilookups) == count_stages(right, equilookups));
            }
            assert(count_stages(*u.source, lookups) == 1 + count_stages(*lk.source, lookups)
                + count_stages(*lk.pipeline, lookups));
            assert(count_stages(*u.source, equilookups) == count_stages(*lk.source, equilookups)
                + count_stages(*lk.pipeline, equilookups));
            assert(count_stages(*rw.source, lookups) == count_stages(*u.source, lookups));
            assert(count_stages(*p.source, lookups) == count_stages(*rw.source, lookups));
            assert(count_stages(*rw.source, equilookups) == count_stages(*u.source, equilookups));
            assert(count_stages(*p.source, equilookups) == count_stages(*rw.source, equilookups));
        },
        Stage::EquiJoin(e) => {
            let el = equijoin_expansion_lookup(r);
            lemma_each_join_becomes_one_lookup(*e.source, *el.source);
            let u = r->Unwind_0;
            assert(count_stages(*u.source, lookups) == count_stages(*el.source, lookups));
            assert(count_stages(*u.source, equilookups) == 1 + count_stages(*el.source, equilookups));
        },
        Stage::Project(p) => lemma_each_join_becomes_one_lookup(*p.source, *r->Project_0.source),
        Stage::Limit(l) => lemma_each_join_becomes_one_lookup(*l.source, *r->Limit_0.source),
        Stage::Skip(k) => lemma_each_join_becomes_one_lookup(*k.source, *r->Skip_0.source),
        Stage::Collection(_) => {},
        Stage::Documents(_) => {},
        Stage::Lookup(l) => {
            lemma_each_join_becomes_one_lookup(*l.source, *r->Lookup_0.source);
            lemma_each_join_becomes_one_lookup(*l.pipeline, *r->Lookup_0.pipeline);
        },
        Stage::EquiLookup(l) => lemma_each_join_becomes_one_lookup(*l.source, *r->EquiLookup_0.source),
        Stage::Unwind(u) => lemma_each_join_becomes_one_lookup(*u.source, *r->Unwind_0.source),
        Stage::ReplaceWith(w) => lemma_each_join_becomes_one_lookup(*w.source, *r->ReplaceWith_0.source),
        Stage::Match(Match::ExprLanguage(x)) => {
            let m = r->Match_0->ExprLanguage_0;
            lemma_each_join_becomes_one_lookup(*x.source, *m.source);
        },
        Stage::UnionWith(u) => {
            lemma_each_join_becomes_one_lookup(*u.source, *r->UnionWith_0.source);
            lemma_each_join_becomes_one_lookup(*u.pipeline, *r->UnionWith_0.pipeline);
        },
        Stage::Sentinel => {},
    }
}

} // verus!
