use join_desugarer::air::{
    Collection, EquiJoin, EquiLookup, ExprLanguage, Expression, FieldRef, Join, JoinType,
    LetVariable, Limit, LiteralValue, Lookup, Match, MqlOperator, MqlSemanticOperator, Project,
    ProjectItem, ReplaceWith, Stage, UnionWith, Unwind, Variable,
};
use join_desugarer::desugarer::{Pass, Visitor};
use join_desugarer::join::{root, JoinDesugarerPass, JoinDesugarerPassVisitor};
use join_desugarer::join_spec::JOIN_AS_VAR_NAME;
use join_desugarer::projection::{projection_insert, projection_new};
use linked_hash_map::LinkedHashMap;

const AS: &str = "eca58228-b657-498a-b76e-f48a9161a404";

fn coll(db: &str, c: &str) -> Stage {
    Stage::Collection(Collection { db: db.to_string(), collection: c.to_string() })
}

fn field(name: &str) -> Expression {
    Expression::FieldRef(FieldRef { parent: None, name: name.to_string() })
}

fn eq_cond(a: &str, b: &str) -> Expression {
    Expression::MqlSemanticOperator(MqlSemanticOperator {
        op: MqlOperator::Eq,
        args: vec![field(a), field(b)],
    })
}

fn join(join_type: JoinType, left: Stage, right: Stage, condition: Option<Expression>) -> Stage {
    Stage::Join(Join {
        join_type,
        left: Box::new(left),
        right: Box::new(right),
        let_vars: None,
        condition,
    })
}

fn equijoin(join_type: JoinType, source: Stage, as_name: &str) -> Stage {
    Stage::EquiJoin(EquiJoin {
        join_type,
        source: Box::new(source),
        from: Collection { db: "db".to_string(), collection: "bar".to_string() },
        local_field: FieldRef { parent: None, name: "a".to_string() },
        foreign_field: FieldRef { parent: None, name: "b".to_string() },
        as_name: as_name.to_string(),
    })
}

fn exclusions(names: &[&str]) -> LinkedHashMap<String, ProjectItem> {
    let mut m = LinkedHashMap::new();
    for n in names {
        m.insert(n.to_string(), ProjectItem::Exclusion);
    }
    m
}

/// The expansion that the documentation gives for a join.
fn expected_join_expansion(
    join_type: JoinType,
    left: Stage,
    lookup_pipeline: Stage,
    let_vars: Option<Vec<LetVariable>>,
) -> Stage {
    Stage::Project(Project {
        source: Box::new(Stage::ReplaceWith(ReplaceWith {
            source: Box::new(Stage::Unwind(Unwind {
                source: Box::new(Stage::Lookup(Lookup {
                    source: Box::new(left),
                    let_vars,
                    pipeline: Box::new(lookup_pipeline),
                    as_var: AS.to_string(),
                })),
                path: field(AS),
                index: None,
                outer: join_type == JoinType::Left,
            })),
            new_root: Box::new(Expression::MqlSemanticOperator(MqlSemanticOperator {
                op: MqlOperator::MergeObjects,
                args: vec![
                    Expression::Variable(Variable { parent: None, name: "ROOT".to_string() }),
                    field(AS),
                ],
            })),
        })),
        specifications: exclusions(&["_id", AS]),
    })
}

fn expected_equijoin_expansion(join_type: JoinType, source: Stage, as_name: &str) -> Stage {
    Stage::Unwind(Unwind {
        source: Box::new(Stage::EquiLookup(EquiLookup {
            source: Box::new(source),
            from: Collection { db: "db".to_string(), collection: "bar".to_string() },
            local_field: FieldRef { parent: None, name: "a".to_string() },
            foreign_field: FieldRef { parent: None, name: "b".to_string() },
            as_var: as_name.to_string(),
        })),
        path: field(as_name),
        index: None,
        outer: join_type == JoinType::Left,
    })
}

fn count(s: &Stage, f: &dyn Fn(&Stage) -> bool) -> usize {
    let own = if f(s) { 1 } else { 0 };
    own + match s {
        Stage::Project(p) => count(&p.source, f),
        Stage::Limit(l) => count(&l.source, f),
        Stage::Skip(k) => count(&k.source, f),
        Stage::Collection(_) | Stage::Documents(_) | Stage::Sentinel => 0,
        Stage::Join(j) => count(&j.left, f) + count(&j.right, f),
        Stage::EquiJoin(e) => count(&e.source, f),
        Stage::Lookup(l) => count(&l.source, f) + count(&l.pipeline, f),
        Stage::EquiLookup(l) => count(&l.source, f),
        Stage::Unwind(u) => count(&u.source, f),
        Stage::ReplaceWith(w) => count(&w.source, f),
        Stage::Match(Match::ExprLanguage(x)) => count(&x.source, f),
        Stage::UnionWith(u) => count(&u.source, f) + count(&u.pipeline, f),
    }
}

fn joins(s: &Stage) -> usize {
    count(s, &|t| matches!(t, Stage::Join(_) | Stage::EquiJoin(_)))
}

fn desugar(s: Stage) -> Stage {
    JoinDesugarerPass.apply(s).unwrap()
}

/// A pipeline with joins nested in the left side, the right side and a union.
fn nested_pipeline() -> Stage {
    let inner = join(JoinType::Inner, coll("db", "a"), coll("db", "b"), Some(eq_cond("x", "y")));
    let right = equijoin(JoinType::Left, coll("db", "c"), "c_docs");
    let outer = join(JoinType::Left, inner, right, None);
    Stage::UnionWith(UnionWith {
        source: Box::new(Stage::Limit(Limit { source: Box::new(outer), limit: 10 })),
        pipeline: Box::new(equijoin(JoinType::Inner, coll("db", "d"), "d_docs")),
    })
}

#[test]
fn as_var_name_is_the_documented_constant() {
    assert_eq!(JOIN_AS_VAR_NAME, AS);
}

#[test]
fn left_join_without_condition_desugars_to_documented_stages() {
    let s = join(JoinType::Left, coll("db", "foo"), coll("db", "bar"), None);
    let expected = expected_join_expansion(JoinType::Left, coll("db", "foo"), coll("db", "bar"), None);
    assert_eq!(desugar(s), expected);
}

#[test]
fn inner_join_with_condition_matches_on_the_right_side() {
    let let_vars = || {
        Some(vec![LetVariable {
            name: "vfoo_a".to_string(),
            expr: Box::new(field("a")),
        }])
    };
    let s = Stage::Join(Join {
        join_type: JoinType::Inner,
        left: Box::new(coll("db", "foo")),
        right: Box::new(coll("db", "bar")),
        let_vars: let_vars(),
        condition: Some(eq_cond("a", "b")),
    });
    let pipeline = Stage::Match(Match::ExprLanguage(ExprLanguage {
        source: Box::new(coll("db", "bar")),
        expr: Box::new(eq_cond("a", "b")),
    }));
    let expected = expected_join_expansion(JoinType::Inner, coll("db", "foo"), pipeline, let_vars());
    assert_eq!(desugar(s), expected);
}

#[test]
fn join_project_excludes_id_then_the_lookup_field() {
    match desugar(join(JoinType::Inner, coll("db", "foo"), coll("db", "bar"), None)) {
        Stage::Project(p) => {
            let keys: Vec<&String> = p.specifications.keys().collect();
            assert_eq!(keys, vec!["_id", AS]);
            assert!(p.specifications.values().all(|v| *v == ProjectItem::Exclusion));
        }
        other => panic!("expected a project, got {:?}", other),
    }
}

#[test]
fn left_equijoin_desugars_to_outer_unwind() {
    let s = equijoin(JoinType::Left, coll("db", "foo"), "bar_docs");
    assert_eq!(desugar(s), expected_equijoin_expansion(JoinType::Left, coll("db", "foo"), "bar_docs"));
}

#[test]
fn inner_equijoin_desugars_to_inner_unwind() {
    let s = equijoin(JoinType::Inner, coll("db", "foo"), "bar_docs");
    assert_eq!(desugar(s), expected_equijoin_expansion(JoinType::Inner, coll("db", "foo"), "bar_docs"));
}

#[test]
fn visitor_desugars_direct_calls() {
    let v = JoinDesugarerPassVisitor;
    let r = v.desugar_equijoin_stage(EquiJoin {
        join_type: JoinType::Inner,
        source: Box::new(Stage::Sentinel),
        from: Collection { db: "db".to_string(), collection: "bar".to_string() },
        local_field: FieldRef { parent: None, name: "a".to_string() },
        foreign_field: FieldRef { parent: None, name: "b".to_string() },
        as_name: "x".to_string(),
    });
    assert_eq!(r, expected_equijoin_expansion(JoinType::Inner, Stage::Sentinel, "x"));
    let r = v.desugar_join_stage(Join {
        join_type: JoinType::Left,
        left: Box::new(Stage::Sentinel),
        right: Box::new(Stage::Sentinel),
        let_vars: None,
        condition: None,
    });
    assert_eq!(r, expected_join_expansion(JoinType::Left, Stage::Sentinel, Stage::Sentinel, None));
    let mut visitor = JoinDesugarerPassVisitor;
    assert_eq!(visitor.visit_stage(Stage::Sentinel), Stage::Sentinel);
}

#[test]
fn nested_joins_are_all_desugared() {
    let s = nested_pipeline();
    assert_eq!(joins(&s), 4);
    let r = desugar(s);
    assert_eq!(joins(&r), 0);
}

#[test]
fn nested_joins_desugar_bottom_up() {
    let inner = join(JoinType::Inner, coll("db", "a"), coll("db", "b"), None);
    let s = join(JoinType::Left, inner, coll("db", "c"), None);
    let inner_expected = expected_join_expansion(JoinType::Inner, coll("db", "a"), coll("db", "b"), None);
    let expected = expected_join_expansion(JoinType::Left, inner_expected, coll("db", "c"), None);
    assert_eq!(desugar(s), expected);
}

#[test]
fn each_join_becomes_one_lookup() {
    let s = nested_pipeline();
    let is_join = |t: &Stage| matches!(t, Stage::Join(_));
    let is_equijoin = |t: &Stage| matches!(t, Stage::EquiJoin(_));
    let is_lookup = |t: &Stage| matches!(t, Stage::Lookup(_));
    let is_equilookup = |t: &Stage| matches!(t, Stage::EquiLookup(_));
    let (j, e, l, el) = (count(&s, &is_join), count(&s, &is_equijoin), count(&s, &is_lookup), count(&s, &is_equilookup));
    assert_eq!((j, e, l, el), (2, 2, 0, 0));
    let r = desugar(s);
    assert_eq!(count(&r, &is_lookup), l + j);
    assert_eq!(count(&r, &is_equilookup), el + e);
}

#[test]
fn desugaring_is_idempotent() {
    let once = desugar(nested_pipeline());
    let twice = desugar(desugar(nested_pipeline()));
    assert_eq!(once, twice);
}

#[test]
fn join_free_pipeline_is_unchanged() {
    let build = || {
        Stage::Limit(Limit {
            source: Box::new(Stage::Lookup(Lookup {
                source: Box::new(coll("db", "foo")),
                let_vars: None,
                pipeline: Box::new(Stage::Match(Match::ExprLanguage(ExprLanguage {
                    source: Box::new(coll("db", "bar")),
                    expr: Box::new(Expression::Literal(LiteralValue::Boolean(true))),
                }))),
                as_var: "bar".to_string(),
            })),
            limit: 3,
        })
    };
    assert_eq!(desugar(build()), build());
}

#[test]
fn root_is_the_root_variable() {
    assert_eq!(root(), Expression::Variable(Variable { parent: None, name: "ROOT".to_string() }));
}

#[test]
fn field_ref_from_string_is_top_level() {
    let f: FieldRef = "abc".to_string().into();
    assert_eq!(f, FieldRef { parent: None, name: "abc".to_string() });
}

#[test]
fn projection_insert_moves_an_existing_key_to_the_back() {
    let mut m = projection_new();
    assert!(m.is_empty());
    assert_eq!(projection_insert(&mut m, "a".to_string(), ProjectItem::Exclusion), None);
    assert_eq!(projection_insert(&mut m, "b".to_string(), ProjectItem::Exclusion), None);
    assert_eq!(
        projection_insert(&mut m, "a".to_string(), ProjectItem::Inclusion),
        Some(ProjectItem::Exclusion)
    );
    let entries: Vec<(&String, &ProjectItem)> = m.iter().collect();
    assert_eq!(
        entries,
        vec![(&"b".to_string(), &ProjectItem::Exclusion), (&"a".to_string(), &ProjectItem::Inclusion)]
    );
}
