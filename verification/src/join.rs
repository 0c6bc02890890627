//! The join desugaring pass.

use crate::air::{
    EquiJoin, EquiLookup, ExprLanguage, Expression, FieldRef, Join, JoinType, Limit, Lookup,
    Match, MqlOperator, MqlSemanticOperator, Project, ProjectItem, ReplaceWith, Skip, Stage,
    UnionWith, Unwind, Variable,
};
use crate::desugarer::{Error, Pass, Visitor};
use crate::join_spec::{
    children_desugared, desugars_to, equijoin_expansion_lookup, is_equijoin_expansion,
    is_join_expansion, is_root, join_expansion_lookup, join_expansion_right,
    join_project_entries, ID_FIELD_NAME, JOIN_AS_VAR_NAME, ROOT_VAR_NAME,
};
use crate::projection::{entries_after_insert, projection_insert, projection_new};
use vstd::prelude::*;

verus! {

broadcast use vstd::string::to_string_from_display_ensures_for_str;

/// `$$ROOT`, the variable that holds the current document.
pub fn root() -> (e: Expression)
    ensures
        is_root(e),
{
    Expression::Variable(Variable { parent: None, name: ROOT_VAR_NAME.to_string() })
}

/// Desugars any Join stages in the pipeline into sequences of equivalent,
/// existing Mql stages. Specifically, a Join is desugared into a sequence
/// of Lookup, Unwind, ReplaceWith, and Project.
pub struct JoinDesugarerPass;

impl Pass for JoinDesugarerPass {
    /// Never fails: the result is the pipeline with every join desugared.
    fn apply(&self, pipeline: Stage) -> (res: Result<Stage, Error>)
        ensures
            res matches Ok(r) && desugars_to(pipeline, r),
    {
        let mut visitor = JoinDesugarerPassVisitor;
        Ok(visitor.visit_stage(pipeline))
    }
}

/// Inserting `_id` and then the lookup field, both excluded, into an empty projection
/// gives the specifications that end a desugared `Join`.
proof fn lemma_join_project_entries()
    ensures
        entries_after_insert(
            entries_after_insert(
                Seq::<(Seq<char>, ProjectItem)>::empty(),
                ID_FIELD_NAME@,
                ProjectItem::Exclusion,
            ),
            JOIN_AS_VAR_NAME@,
            ProjectItem::Exclusion,
        ) == join_project_entries(),
{
    reveal_strlit("_id");
    reveal_strlit("eca58228-b657-498a-b76e-f48a9161a404");
    let id_entry = (ID_FIELD_NAME@, ProjectItem::Exclusion);
    let e0 = Seq::<(Seq<char>, ProjectItem)>::empty();
    let pred_id = |p: (Seq<char>, ProjectItem)| p.0 != ID_FIELD_NAME@;
    let pred_as = |p: (Seq<char>, ProjectItem)| p.0 != JOIN_AS_VAR_NAME@;
    assert(ID_FIELD_NAME@.len() != JOIN_AS_VAR_NAME@.len());
    assert(e0.filter(pred_id) == e0) by {
        reveal(Seq::filter);
    }
    let e1 = e0.push(id_entry);
    assert(e1.filter(pred_as) == e1) by {
        reveal_with_fuel(Seq::filter, 2);
        assert(e1.drop_last() == e0);
    }
}

/// The visitor that the join pass runs over a pipeline.
pub struct JoinDesugarerPassVisitor;

impl JoinDesugarerPassVisitor {
    /// desugar_join_stage desugars a Join stage into a sequence of expressive Lookup,
    /// Unwind, ReplaceWith, and Project stages: the lookup reads from the left side and
    /// runs the right side (under a `$match` on the condition, if there is one) with the
    /// join's let variables; the unwind preserves unmatched rows exactly for a left join;
    /// the replaceWith merges the matched row into the current one; the project drops
    /// `_id` and the lookup field.
    pub fn desugar_join_stage(&self, join: Join) -> (r: Stage)
        ensures
            is_join_expansion(join, r),
            *join_expansion_lookup(r).source == *join.left,
            join_expansion_right(join, r) == *join.right,
    {
        let lookup_pipeline = match join.condition {
            None => join.right,
            Some(expr) => Box::new(
                Stage::Match(
                    Match::ExprLanguage(ExprLanguage { source: join.right, expr: Box::new(expr) }),
                ),
            ),
        };

        // Arbitrary unique field name. This is highly unlikely to conflict
        // with user data.
        let as_var_name = JOIN_AS_VAR_NAME.to_string();

        let lookup = Stage::Lookup(
            Lookup {
                source: join.left,
                let_vars: join.let_vars,
                pipeline: lookup_pipeline,
                as_var: as_var_name.clone(),
            },
        );

        let unwind = Stage::Unwind(
            Unwind {
                source: Box::new(lookup),
                path: Expression::FieldRef(as_var_name.clone().into()),
                index: None,
                outer: join.join_type == JoinType::Left,
            },
        );

        let replace_with = Stage::ReplaceWith(
            ReplaceWith {
                source: Box::new(unwind),
                new_root: Box::new(
                    Expression::MqlSemanticOperator(
                        MqlSemanticOperator {
                            op: MqlOperator::MergeObjects,
                            args: vec![root(), Expression::FieldRef(as_var_name.clone().into())],
                        },
                    ),
                ),
            },
        );

        let mut specs = projection_new();
        projection_insert(&mut specs, ID_FIELD_NAME.to_string(), ProjectItem::Exclusion);
        projection_insert(&mut specs, as_var_name, ProjectItem::Exclusion);
        proof {
            lemma_join_project_entries();
        }

        Stage::Project(Project { source: Box::new(replace_with), specifications: specs })
    }

    /// desugar_equijoin_stage desugars an EquiJoin stage into an EquiLookup of the same
    /// collection, fields and name, followed by an Unwind of that name that preserves
    /// unmatched rows exactly for a left join.
    pub fn desugar_equijoin_stage(&self, eqj: EquiJoin) -> (r: Stage)
        ensures
            is_equijoin_expansion(eqj, r),
            *equijoin_expansion_lookup(r).source == *eqj.source,
    {
        let lookup = Stage::EquiLookup(
            EquiLookup {
                source: eqj.source,
                from: eqj.from,
                local_field: eqj.local_field,
                foreign_field: eqj.foreign_field,
                as_var: eqj.as_name.clone(),
            },
        );

        Stage::Unwind(
            Unwind {
                source: Box::new(lookup),
                path: Expression::FieldRef(eqj.as_name.clone().into()),
                index: None,
                outer: eqj.join_type == JoinType::Left,
            },
        )
    }
}

} // verus!

verus! {

impl Visitor for JoinDesugarerPassVisitor {
    /// Desugars the pipelines that `node` reads from, then `node` itself if it is a
    /// `Join` or an `EquiJoin`.
    fn visit_stage(&mut self, node: Stage) -> (r: Stage)
        ensures
            desugars_to(node, r),
        decreases node, 1int,
    {
        let node = node.walk(self);
        match node {
            Stage::Join(j) => self.desugar_join_stage(j),
            Stage::EquiJoin(eqj) => self.desugar_equijoin_stage(eqj),
            other => other,
        }
    }
}

impl Stage {
    /// Runs the visitor over each pipeline that this stage reads from, keeping the stage
    /// itself and its other fields.
    pub fn walk(self, visitor: &mut JoinDesugarerPassVisitor) -> (r: Stage)
        ensures
            children_desugared(self, r),
        decreases self, 0int,
    {
        match self {
            Stage::Project(p) => Stage::Project(
                Project {
                    source: Box::new(visitor.visit_stage(*p.source)),
                    specifications: p.specifications,
                },
            ),
            Stage::Limit(l) => Stage::Limit(
                Limit { source: Box::new(visitor.visit_stage(*l.source)), limit: l.limit },
            ),
            Stage::Skip(k) => Stage::Skip(
                Skip { source: Box::new(visitor.visit_stage(*k.source)), skip: k.skip },
            ),
            Stage::Collection(c) => Stage::Collection(c),
            Stage::Documents(d) => Stage::Documents(d),
            Stage::Join(j) => {
                let left = visitor.visit_stage(*j.left);
                let right = visitor.visit_stage(*j.right);
                Stage::Join(
                    Join {
                        join_type: j.join_type,
                        left: Box::new(left),
                        right: Box::new(right),
                        let_vars: j.let_vars,
                        condition: j.condition,
                    },
                )
            },
            Stage::EquiJoin(e) => Stage::EquiJoin(
                EquiJoin {
                    join_type: e.join_type,
                    source: Box::new(visitor.visit_stage(*e.source)),
                    from: e.from,
                    local_field: e.local_field,
                    foreign_field: e.foreign_field,
                    as_name: e.as_name,
                },
            ),
            Stage::Lookup(l) => {
                let source = visitor.visit_stage(*l.source);
                let pipeline = visitor.visit_stage(*l.pipeline);
                Stage::Lookup(
                    Lookup {
                        source: Box::new(source),
                        let_vars: l.let_vars,
                        pipeline: Box::new(pipeline),
                        as_var: l.as_var,
                    },
                )
            },
            Stage::EquiLookup(l) => Stage::EquiLookup(
                EquiLookup {
                    source: Box::new(visitor.visit_stage(*l.source)),
                    from: l.from,
                    local_field: l.local_field,
                    foreign_field: l.foreign_field,
                    as_var: l.as_var,
                },
            ),
            Stage::Unwind(u) => Stage::Unwind(
                Unwind {
                    source: Box::new(visitor.visit_stage(*u.source)),
                    path: u.path,
                    index: u.index,
                    outer: u.outer,
                },
            ),
            Stage::ReplaceWith(w) => Stage::ReplaceWith(
                ReplaceWith {
                    source: Box::new(visitor.visit_stage(*w.source)),
                    new_root: w.new_root,
                },
            ),
            Stage::Match(Match::ExprLanguage(x)) => Stage::Match(
                Match::ExprLanguage(
                    ExprLanguage { source: Box::new(visitor.visit_stage(*x.source)), expr: x.expr },
                ),
            ),
            Stage::UnionWith(u) => {
                let source = visitor.visit_stage(*u.source);
                let pipeline = visitor.visit_stage(*u.pipeline);
                Stage::UnionWith(
                    UnionWith { source: Box::new(source), pipeline: Box::new(pipeline) },
                )
            },
            Stage::Sentinel => Stage::Sentinel,
        }
    }
}

} // verus!
