//! The aggregation intermediate representation that the desugaring passes rewrite.

use linked_hash_map::LinkedHashMap;
use vstd::prelude::*;

verus! {

/// How rows of the left side without a match on the right side are treated.
#[derive(Clone, Copy, Debug, PartialEq, Eq, Structural)]
pub enum JoinType {
    Left,
    Inner,
}

/// Operators that evaluate with aggregation-language semantics.
#[derive(Clone, Copy, Debug, PartialEq, Eq, Structural)]
pub enum MqlOperator {
    MergeObjects,
    Eq,
    Lt,
    And,
    Or,
    Not,
}

/// A constant value.
#[derive(Debug, PartialEq)]
pub enum LiteralValue {
    Null,
    Boolean(bool),
    Integer(i32),
    Long(i64),
    String(String),
}

/// A reference to a (possibly nested) field of the current document.
#[derive(Debug, PartialEq)]
pub struct FieldRef {
    pub parent: Option<Box<FieldRef>>,
    pub name: String,
}

impl From<String> for FieldRef {
    /// The top-level field of the given name.
    fn from(name: String) -> (f: FieldRef) {
        FieldRef { parent: None, name }
    }
}

impl vstd::std_specs::convert::FromSpecImpl<String> for FieldRef {
    open spec fn obeys_from_spec() -> bool {
        true
    }

    open spec fn from_spec(name: String) -> FieldRef {
        FieldRef { parent: None, name }
    }
}

/// A reference to a (possibly nested) field of a variable such as `$$ROOT`.
#[derive(Debug, PartialEq)]
pub struct Variable {
    pub parent: Option<Box<Variable>>,
    pub name: String,
}

/// An operator applied to a list of argument expressions.
#[derive(Debug, PartialEq)]
pub struct MqlSemanticOperator {
    pub op: MqlOperator,
    pub args: Vec<Expression>,
}

/// An aggregation expression.
#[derive(Debug, PartialEq)]
pub enum Expression {
    Literal(LiteralValue),
    FieldRef(FieldRef),
    Variable(Variable),
    MqlSemanticOperator(MqlSemanticOperator),
}

/// A variable bound for the sub-pipeline of a lookup.
#[derive(Debug, PartialEq)]
pub struct LetVariable {
    pub name: String,
    pub expr: Box<Expression>,
}

/// What a `$project` does with one field.
#[derive(Debug, PartialEq)]
pub enum ProjectItem {
    Exclusion,
    Inclusion,
    Assignment(Expression),
}

/// A collection of a database, the start of a pipeline.
#[derive(Debug, PartialEq)]
pub struct Collection {
    pub db: String,
    pub collection: String,
}

/// A literal list of documents, the start of a pipeline.
#[derive(Debug, PartialEq)]
pub struct Documents {
    pub array: Vec<Expression>,
}

/// `$project`: the field specifications, in order.
#[derive(Debug, PartialEq)]
pub struct Project {
    pub source: Box<Stage>,
    pub specifications: LinkedHashMap<String, ProjectItem>,
}

/// `$limit`.
#[derive(Debug, PartialEq)]
pub struct Limit {
    pub source: Box<Stage>,
    pub limit: i64,
}

/// `$skip`.
#[derive(Debug, PartialEq)]
pub struct Skip {
    pub source: Box<Stage>,
    pub skip: i64,
}

/// A join of two pipelines, with optional let bindings and condition.
#[derive(Debug, PartialEq)]
pub struct Join {
    pub join_type: JoinType,
    pub left: Box<Stage>,
    pub right: Box<Stage>,
    pub let_vars: Option<Vec<LetVariable>>,
    pub condition: Option<Expression>,
}

/// A join on equality of a local and a foreign field.
#[derive(Debug, PartialEq)]
pub struct EquiJoin {
    pub join_type: JoinType,
    pub source: Box<Stage>,
    pub from: Collection,
    pub local_field: FieldRef,
    pub foreign_field: FieldRef,
    pub as_name: String,
}

/// `$lookup` with a sub-pipeline.
#[derive(Debug, PartialEq)]
pub struct Lookup {
    pub source: Box<Stage>,
    pub let_vars: Option<Vec<LetVariable>>,
    pub pipeline: Box<Stage>,
    pub as_var: String,
}

/// `$lookup` on equality of a local and a foreign field.
#[derive(Debug, PartialEq)]
pub struct EquiLookup {
    pub source: Box<Stage>,
    pub from: Collection,
    pub local_field: FieldRef,
    pub foreign_field: FieldRef,
    pub as_var: String,
}

/// `$unwind`; `outer` is `preserveNullAndEmptyArrays`.
#[derive(Debug, PartialEq)]
pub struct Unwind {
    pub source: Box<Stage>,
    pub path: Expression,
    pub index: Option<String>,
    pub outer: bool,
}

/// `$replaceWith`.
#[derive(Debug, PartialEq)]
pub struct ReplaceWith {
    pub source: Box<Stage>,
    pub new_root: Box<Expression>,
}

/// A `$match` whose condition is an aggregation expression.
#[derive(Debug, PartialEq)]
pub struct ExprLanguage {
    pub source: Box<Stage>,
    pub expr: Box<Expression>,
}

/// `$match`.
#[derive(Debug, PartialEq)]
pub enum Match {
    ExprLanguage(ExprLanguage),
}

/// `$unionWith`.
#[derive(Debug, PartialEq)]
pub struct UnionWith {
    pub source: Box<Stage>,
    pub pipeline: Box<Stage>,
}

/// A pipeline, given by its last stage; each stage holds the stages it reads from.
#[derive(Debug, PartialEq)]
pub enum Stage {
    Project(Project),
    Limit(Limit),
    Skip(Skip),
    Collection(Collection),
    Documents(Documents),
    Join(Join),
    EquiJoin(EquiJoin),
    Lookup(Lookup),
    EquiLookup(EquiLookup),
    Unwind(Unwind),
    ReplaceWith(ReplaceWith),
    Match(Match),
    UnionWith(UnionWith),
    Sentinel,
}

} // verus!
