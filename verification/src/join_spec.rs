//! What the join pass makes of a pipeline, stated over the pipeline's stages.

use crate::air::{
    EquiJoin, EquiLookup, Expression, FieldRef, Join, JoinType, Lookup, Match, MqlOperator,
    ProjectItem, Stage,
};
use crate::projection::projection_entries;
use vstd::prelude::*;

verus! {

/// The field under which a desugared `Join` holds the matched rows of its right side.
/// It is highly unlikely to conflict with user data.
pub const JOIN_AS_VAR_NAME: &'static str = "eca58228-b657-498a-b76e-f48a9161a404";

/// The name of the document identifier field.
pub const ID_FIELD_NAME: &'static str = "_id";

/// The name of the variable that holds the current document.
pub const ROOT_VAR_NAME: &'static str = "ROOT";

/// The `$project` specifications that end a desugared `Join`: the identifier and the
/// lookup field are removed, in that order.
pub open spec fn join_project_entries() -> Seq<(Seq<char>, ProjectItem)> {
    seq![(ID_FIELD_NAME@, ProjectItem::Exclusion), (JOIN_AS_VAR_NAME@, ProjectItem::Exclusion)]
}

/// `e` is `$$ROOT`.
pub open spec fn is_root(e: Expression) -> bool {
    &&& e matches Expression::Variable(v)
    &&& v.parent is None
    &&& v.name@ == ROOT_VAR_NAME@
}

/// The `Lookup` inside the `Project(ReplaceWith(Unwind(Lookup ..)))` that a `Join` becomes.
pub open spec fn join_expansion_lookup(r: Stage) -> Lookup {
    (*(*(*r->Project_0.source)->ReplaceWith_0.source)->Unwind_0.source)->Lookup_0
}

/// Where the (rewritten) right side of a `Join` stands in its expansion: the lookup's
/// pipeline, or the source of the `$match` that the lookup's pipeline is when the join
/// has a condition.
pub open spec fn join_expansion_right(j: Join, r: Stage) -> Stage {
    let lk = join_expansion_lookup(r);
    match j.condition {
        None => *lk.pipeline,
        Some(_) => *(*lk.pipeline)->Match_0->ExprLanguage_0.source,
    }
}

/// `r` has the shape that `j` is desugared into, with every field of `j` but its two
/// pipelines carried over:
///
///     Project { _id: 0, <as>: 0 }
///       ReplaceWith { $mergeObjects: [$$ROOT, $<as>] }
///         Unwind { path: $<as>, preserveNullAndEmptyArrays: <join type> == left }
///           Lookup { let: <let vars>, pipeline: <right> or Match(<condition>, <right>), as: <as> }
///             <left>
pub open spec fn is_join_expansion(j: Join, r: Stage) -> bool {
    &&& r matches Stage::Project(p)
    &&& *p.source matches Stage::ReplaceWith(rw)
    &&& *rw.source matches Stage::Unwind(u)
    &&& *u.source matches Stage::Lookup(lk)
    &&& projection_entries(p.specifications) == join_project_entries()
    &&& *rw.new_root matches Expression::MqlSemanticOperator(merge)
    &&& merge.op == MqlOperator::MergeObjects
    &&& merge.args@.len() == 2
    &&& is_root(merge.args@[0])
    &&& merge.args@[1] == Expression::FieldRef(FieldRef { parent: None, name: lk.as_var })
    &&& u.path == Expression::FieldRef(FieldRef { parent: None, name: lk.as_var })
    &&& u.index is None
    &&& u.outer == (j.join_type == JoinType::Left)
    &&& lk.as_var@ == JOIN_AS_VAR_NAME@
    &&& lk.let_vars == j.let_vars
    &&& match j.condition {
        None => true,
        Some(c) => {
            &&& *lk.pipeline matches Stage::Match(Match::ExprLanguage(el))
            &&& *el.expr == c
        },
    }
}

/// The `EquiLookup` inside the `Unwind(EquiLookup ..)` that an `EquiJoin` becomes.
pub open spec fn equijoin_expansion_lookup(r: Stage) -> EquiLookup {
    (*r->Unwind_0.source)->EquiLookup_0
}

/// `r` has the shape that `e` is desugared into, with every field of `e` but its source
/// carried over:
///
///     Unwind { path: $<as name>, preserveNullAndEmptyArrays: <join type> == left }
///       EquiLookup { from, localField, foreignField, as: <as name> }
///         <source>
pub open spec fn is_equijoin_expansion(e: EquiJoin, r: Stage) -> bool {
    &&& r matches Stage::Unwind(u)
    &&& *u.source matches Stage::EquiLookup(el)
    &&& el.from == e.from
    &&& el.local_field == e.local_field
    &&& el.foreign_field == e.foreign_field
    &&& el.as_var == e.as_name
    &&& u.path == Expression::FieldRef(FieldRef { parent: None, name: e.as_name })
    &&& u.index is None
    &&& u.outer == (e.join_type == JoinType::Left)
}

/// `r` is `s` with each pipeline that `s` reads from desugared, and every other field of
/// `s` unchanged (the stage itself is not rewritten).
pub open spec fn children_desugared(s: Stage, r: Stage) -> bool
    decreases s, 0int,
{
    match s {
        Stage::Project(p) => r matches Stage::Project(q) && q.specifications == p.specifications
            && desugars_to(*p.source, *q.source),
        Stage::Limit(l) => r matches Stage::Limit(m) && m.limit == l.limit
            && desugars_to(*l.source, *m.source),
        Stage::Skip(k) => r matches Stage::Skip(m) && m.skip == k.skip
            && desugars_to(*k.source, *m.source),
        Stage::Collection(c) => r == Stage::Collection(c),
        Stage::Documents(d) => r == Stage::Documents(d),
        Stage::Join(j) => r matches Stage::Join(m) && m.join_type == j.join_type
            && m.let_vars == j.let_vars && m.condition == j.condition
            && desugars_to(*j.left, *m.left) && desugars_to(*j.right, *m.right),
        Stage::EquiJoin(e) => r matches Stage::EquiJoin(m) && m.join_type == e.join_type
            && m.from == e.from && m.local_field == e.local_field
            && m.foreign_field == e.foreign_field && m.as_name == e.as_name
            && desugars_to(*e.source, *m.source),
        Stage::Lookup(l) => r matches Stage::Lookup(m) && m.let_vars == l.let_vars
            && m.as_var == l.as_var && desugars_to(*l.source, *m.source)
            && desugars_to(*l.pipeline, *m.pipeline),
        Stage::EquiLookup(l) => r matches Stage::EquiLookup(m) && m.from == l.from
            && m.local_field == l.local_field && m.foreign_field == l.foreign_field
            && m.as_var == l.as_var && desugars_to(*l.source, *m.source),
        Stage::Unwind(u) => r matches Stage::Unwind(m) && m.path == u.path
            && m.index == u.index && m.outer == u.outer && desugars_to(*u.source, *m.source),
        Stage::ReplaceWith(w) => r matches Stage::ReplaceWith(m) && m.new_root == w.new_root
            && desugars_to(*w.source, *m.source),
        Stage::Match(Match::ExprLanguage(x)) => r matches Stage::Match(Match::ExprLanguage(m))
            && m.expr == x.expr && desugars_to(*x.source, *m.source),
        Stage::UnionWith(u) => r matches Stage::UnionWith(m) && desugars_to(*u.source, *m.source)
            && desugars_to(*u.pipeline, *m.pipeline),
        Stage::Sentinel => r == Stage::Sentinel,
    }
}

/// `r` is what the join pass makes of `s`: every pipeline that `s` reads from is
/// desugared, then a `Join` becomes its `Lookup` expansion and an `EquiJoin` its
/// `EquiLookup` expansion; every other stage keeps its kind and fields.
pub open spec fn desugars_to(s: Stage, r: Stage) -> bool
    decreases s, 1int,
{
    match s {
        Stage::Join(j) => {
            &&& is_join_expansion(j, r)
            &&& desugars_to(*j.left, *join_expansion_lookup(r).source)
            &&& desugars_to(*j.right, join_expansion_right(j, r))
        },
        Stage::EquiJoin(e) => {
            &&& is_equijoin_expansion(e, r)
            &&& desugars_to(*e.source, *equijoin_expansion_lookup(r).source)
        },
        _ => children_desugared(s, r),
    }
}

/// No `Join` or `EquiJoin` stage occurs anywhere in `s`.
pub open spec fn join_free(s: Stage) -> bool
    decreases s,
{
    match s {
        Stage::Join(_) => false,
        Stage::EquiJoin(_) => false,
        Stage::Project(p) => join_free(*p.source),
        Stage::Limit(l) => join_free(*l.source),
        Stage::Skip(k) => join_free(*k.source),
        Stage::Collection(_) => true,
        Stage::Documents(_) => true,
        Stage::Lookup(l) => join_free(*l.source) && join_free(*l.pipeline),
        Stage::EquiLookup(l) => join_free(*l.source),
        Stage::Unwind(u) => join_free(*u.source),
        Stage::ReplaceWith(w) => join_free(*w.source),
        Stage::Match(Match::ExprLanguage(x)) => join_free(*x.source),
        Stage::UnionWith(u) => join_free(*u.source) && join_free(*u.pipeline),
        Stage::Sentinel => true,
    }
}

/// The number of stages of `s`, at any depth and `s` included, that are of the kind `kind`.
pub open spec fn count_stages(s: Stage, kind: spec_fn(Stage) -> bool) -> nat
    decreases s,
{
    let own: nat = if kind(s) { 1 } else { 0 };
    let below: nat = match s {
        Stage::Project(p) => count_stages(*p.source, kind),
        Stage::Limit(l) => count_stages(*l.source, kind),
        Stage::Skip(k) => count_stages(*k.source, kind),
        Stage::Collection(_) => 0,
        Stage::Documents(_) => 0,
        Stage::Join(j) => count_stages(*j.left, kind) + count_stages(*j.right, kind),
        Stage::EquiJoin(e) => count_stages(*e.source, kind),
        Stage::Lookup(l) => count_stages(*l.source, kind) + count_stages(*l.pipeline, kind),
        Stage::EquiLookup(l) => count_stages(*l.source, kind),
        Stage::Unwind(u) => count_stages(*u.source, kind),
        Stage::ReplaceWith(w) => count_stages(*w.source, kind),
        Stage::Match(Match::ExprLanguage(x)) => count_stages(*x.source, kind),
        Stage::UnionWith(u) => count_stages(*u.source, kind) + count_stages(*u.pipeline, kind),
        Stage::Sentinel => 0,
    };
    own + below
}

/// `s` is a `Join` stage.
pub open spec fn is_join_stage(s: Stage) -> bool {
    s is Join
}

/// `s` is an `EquiJoin` stage.
pub open spec fn is_equijoin_stage(s: Stage) -> bool {
    s is EquiJoin
}

/// `s` is a `Lookup` stage.
pub open spec fn is_lookup_stage(s: Stage) -> bool {
    s is Lookup
}

/// `s` is an `EquiLookup` stage.
pub open spec fn is_equilookup_stage(s: Stage) -> bool {
    s is EquiLookup
}

} // verus!
