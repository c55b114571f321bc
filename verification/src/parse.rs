use vstd::prelude::*;

use surrealdb::sql::statements::DefineStatement;
use surrealdb::sql::{Expression, Function, Kind, Statement, Value};

use crate::model::{view_stmts, FieldKind, SchemaStatement, SchemaStatementV, ValueExpr};

verus! {

#[verifier::external_type_specification]
#[verifier::external_body]
pub struct ExSqlStatement(Statement);

#[verifier::external_type_specification]
#[verifier::external_body]
pub struct ExSqlDefineStatement(DefineStatement);

#[verifier::external_type_specification]
#[verifier::external_body]
pub struct ExSqlValue(Value);

#[verifier::external_type_specification]
#[verifier::external_body]
pub struct ExSqlFunction(Function);

#[verifier::external_type_specification]
#[verifier::external_body]
pub struct ExSqlExpression(Expression);

#[verifier::external_type_specification]
#[verifier::external_body]
pub struct ExSqlKind(Kind);

/// What the schema-language parser yields for a given text: the
/// statement tree, reduced to the library's model, or nothing where the
/// parser rejects the text.  Same characters in, same outcome out.
pub uninterp spec fn parse_of(text: Seq<char>) -> Option<Seq<SchemaStatementV>>;

/// Relies on surrealdb's `sql::parse`: whether a text parses, and what
/// it parses to, are a function of the characters of the text alone.
#[verifier::external_body]
pub(crate) fn parse_statements(text: &str) -> (r: Option<Vec<SchemaStatement>>)
    ensures
        match r {
            Some(v) => parse_of(text@) == Some(view_stmts(v@)),
            None => parse_of(text@) is None,
        },
{
    match surrealdb::sql::parse(text) {
        Ok(query) => Some(query.0.0.into_iter().map(statement_to_model).collect()),
        Err(_) => None,
    }
}

/// Relies on the statement layout of surrealdb's `sql` module: the
/// three define statements that drive generation keep their name, owner
/// table, kind and value expression; every other statement collapses.
#[verifier::external_body]
fn statement_to_model(statement: Statement) -> SchemaStatement {
    match statement {
        Statement::Define(DefineStatement::Table(t)) => SchemaStatement::DefineTable {
            name: t.name.to_string(),
        },
        Statement::Define(DefineStatement::Field(f)) => SchemaStatement::DefineField {
            name: f.name.to_string(),
            what: f.what.to_string(),
            kind: kind_to_model(&f.kind),
            value: f.value.map(value_to_model),
        },
        Statement::Define(DefineStatement::Event(e)) => SchemaStatement::DefineEvent {
            name: e.name.to_string(),
        },
        _ => SchemaStatement::OtherStatement,
    }
}

/// Relies on surrealdb's `sql::Kind`: the textual and record-reference
/// kinds are told apart; everything else, a missing kind included, is
/// left to the type mapper's fallback.
#[verifier::external_body]
fn kind_to_model(kind: &Option<Kind>) -> FieldKind {
    match kind {
        Some(Kind::String) => FieldKind::StringKind,
        Some(Kind::Record(_)) => FieldKind::RecordKind,
        _ => FieldKind::OtherKind,
    }
}

/// Relies on surrealdb's `sql::Value`: constant leaves, parameter
/// references, casts, function calls and binary expressions keep their
/// shape; every other shape becomes the unrecognised one.
#[verifier::external_body]
fn value_to_model(value: Value) -> ValueExpr {
    match value {
        Value::None | Value::Null | Value::Bool(_) | Value::Number(_) | Value::Strand(_)
        | Value::Duration(_) | Value::Datetime(_) | Value::Uuid(_) | Value::Array(_)
        | Value::Object(_) | Value::Geometry(_) | Value::Bytes(_) | Value::Thing(_)
        | Value::Constant(_) => ValueExpr::Literal,
        Value::Param(param) => ValueExpr::Param(param.0.0),
        Value::Cast(cast) => ValueExpr::CastOf(Box::new(value_to_model(cast.1))),
        Value::Function(function) => function_to_model(*function),
        Value::Expression(expression) => expression_to_model(*expression),
        _ => ValueExpr::OtherExpr,
    }
}

/// Relies on surrealdb's `sql::Function`: normal, custom and scripted
/// calls hand their arguments on.
#[verifier::external_body]
fn function_to_model(function: Function) -> ValueExpr {
    match function {
        Function::Normal(_, args) | Function::Custom(_, args) | Function::Script(_, args) => {
            ValueExpr::CallOf(args.into_iter().map(value_to_model).collect())
        },
        _ => ValueExpr::OtherExpr,
    }
}

/// Relies on surrealdb's `sql::Expression`: a binary expression hands
/// its two operands on; a unary one is an unrecognised shape.
#[verifier::external_body]
fn expression_to_model(expression: Expression) -> ValueExpr {
    match expression {
        Expression::Binary { l, o: _, r } => ValueExpr::BinaryOf(
            Box::new(value_to_model(l)),
            Box::new(value_to_model(r)),
        ),
        _ => ValueExpr::OtherExpr,
    }
}

} // verus!
