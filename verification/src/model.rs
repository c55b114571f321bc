use vstd::prelude::*;

use crate::strutil::str_eq;

verus! {

/// The value expression attached to a field definition, reduced to the
/// shapes that the generator distinguishes.  A conforming parser for the
/// schema language produces these as part of the statement tree.
pub enum ValueExpr {
    /// A constant leaf: none, null, a boolean, a number, a string, a
    /// duration, a datetime, a uuid, an array, an object, a geometry,
    /// raw bytes, a record id, or a named constant.
    Literal,
    /// A reference to the parameter `$name`.
    Param(String),
    /// A cast applied to one inner expression.
    CastOf(Box<ValueExpr>),
    /// A function call (normal, custom or script) with its arguments.
    CallOf(Vec<ValueExpr>),
    /// A binary expression with its two operands.
    BinaryOf(Box<ValueExpr>, Box<ValueExpr>),
    /// Any shape not recognised above.
    OtherExpr,
}

/// The mathematical shape of a `ValueExpr`: the same tree with every
/// string replaced by its character sequence.
pub enum ValueExprV {
    Literal,
    Param(Seq<char>),
    CastOf(Box<ValueExprV>),
    CallOf(Seq<ValueExprV>),
    BinaryOf(Box<ValueExprV>, Box<ValueExprV>),
    OtherExpr,
}

/// The declared kind of a field, reduced to the kinds the generator maps.
#[derive(Clone, Copy)]
pub enum FieldKind {
    /// A textual kind.
    StringKind,
    /// A record-reference kind.
    RecordKind,
    /// Any other kind, or no declared kind at all.
    OtherKind,
}

/// One parsed statement from a definition file.  Only the three define
/// statements that drive generation keep their payload; everything else
/// collapses to `OtherStatement`.
pub enum SchemaStatement {
    DefineTable { name: String },
    DefineField { name: String, what: String, kind: FieldKind, value: Option<ValueExpr> },
    DefineEvent { name: String },
    OtherStatement,
}

/// The mathematical shape of a `SchemaStatement`.
pub enum SchemaStatementV {
    DefineTable { name: Seq<char> },
    DefineField { name: Seq<char>, what: Seq<char>, kind: FieldKind, value: Option<ValueExprV> },
    DefineEvent { name: Seq<char> },
    OtherStatement,
}

/// A table definition selected out of a statement tree.
pub struct TableDef {
    pub name: String,
}

/// A field definition selected out of a statement tree: the field name,
/// the owning table (`what`), the declared kind and the value expression.
pub struct FieldDef {
    pub name: String,
    pub what: String,
    pub kind: FieldKind,
    pub value: Option<ValueExpr>,
}

/// The mathematical shape of a `FieldDef`.
pub struct FieldDefV {
    pub name: Seq<char>,
    pub what: Seq<char>,
    pub kind: FieldKind,
    pub value: Option<ValueExprV>,
}

/// An event definition selected out of a statement tree.
pub struct EventDef {
    pub name: String,
}

pub open spec fn view_expr(e: ValueExpr) -> ValueExprV
    decreases e,
{
    match e {
        ValueExpr::Literal => ValueExprV::Literal,
        ValueExpr::Param(name) => ValueExprV::Param(name@),
        ValueExpr::CastOf(inner) => ValueExprV::CastOf(Box::new(view_expr(*inner))),
        ValueExpr::CallOf(args) => ValueExprV::CallOf(view_expr_seq(args@)),
        ValueExpr::BinaryOf(l, r) => ValueExprV::BinaryOf(
            Box::new(view_expr(*l)),
            Box::new(view_expr(*r)),
        ),
        ValueExpr::OtherExpr => ValueExprV::OtherExpr,
    }
}

pub open spec fn view_expr_seq(s: Seq<ValueExpr>) -> Seq<ValueExprV>
    decreases s,
{
    if s.len() == 0 {
        Seq::empty()
    } else {
        view_expr_seq(s.drop_last()).push(view_expr(s.last()))
    }
}

pub open spec fn view_opt_expr(v: Option<ValueExpr>) -> Option<ValueExprV> {
    match v {
        Some(e) => Some(view_expr(e)),
        None => None,
    }
}

pub open spec fn view_stmt(s: SchemaStatement) -> SchemaStatementV {
    match s {
        SchemaStatement::DefineTable { name } => SchemaStatementV::DefineTable { name: name@ },
        SchemaStatement::DefineField { name, what, kind, value } => SchemaStatementV::DefineField {
            name: name@,
            what: what@,
            kind,
            value: view_opt_expr(value),
        },
        SchemaStatement::DefineEvent { name } => SchemaStatementV::DefineEvent { name: name@ },
        SchemaStatement::OtherStatement => SchemaStatementV::OtherStatement,
    }
}

pub open spec fn view_stmts(s: Seq<SchemaStatement>) -> Seq<SchemaStatementV> {
    s.map_values(|x: SchemaStatement| view_stmt(x))
}

pub open spec fn view_table_defs(s: Seq<TableDef>) -> Seq<Seq<char>> {
    s.map_values(|d: TableDef| d.name@)
}

pub open spec fn view_field_def(d: FieldDef) -> FieldDefV {
    FieldDefV { name: d.name@, what: d.what@, kind: d.kind, value: view_opt_expr(d.value) }
}

pub open spec fn view_field_defs(s: Seq<FieldDef>) -> Seq<FieldDefV> {
    s.map_values(|d: FieldDef| view_field_def(d))
}

pub open spec fn view_event_defs(s: Seq<EventDef>) -> Seq<Seq<char>> {
    s.map_values(|d: EventDef| d.name@)
}

/// The names of the table definitions in a statement tree, in order.
pub open spec fn spec_table_defs(stmts: Seq<SchemaStatementV>) -> Seq<Seq<char>>
    decreases stmts.len(),
{
    if stmts.len() == 0 {
        Seq::empty()
    } else {
        spec_table_defs(stmts.drop_last()) + (match stmts.last() {
            SchemaStatementV::DefineTable { name } => seq![name],
            _ => Seq::empty(),
        })
    }
}

/// The field definitions in a statement tree, in order.
pub open spec fn spec_field_defs(stmts: Seq<SchemaStatementV>) -> Seq<FieldDefV>
    decreases stmts.len(),
{
    if stmts.len() == 0 {
        Seq::empty()
    } else {
        spec_field_defs(stmts.drop_last()) + (match stmts.last() {
            SchemaStatementV::DefineField { name, what, kind, value } => seq![
                FieldDefV { name, what, kind, value },
            ],
            _ => Seq::empty(),
        })
    }
}

/// The names of the event definitions in a statement tree, in order.
pub open spec fn spec_event_defs(stmts: Seq<SchemaStatementV>) -> Seq<Seq<char>>
    decreases stmts.len(),
{
    if stmts.len() == 0 {
        Seq::empty()
    } else {
        spec_event_defs(stmts.drop_last()) + (match stmts.last() {
            SchemaStatementV::DefineEvent { name } => seq![name],
            _ => Seq::empty(),
        })
    }
}

/// Select the table definitions out of a statement tree, in order.
pub fn extract_define_table_statements(statements: &Vec<SchemaStatement>) -> (r: Vec<TableDef>)
    ensures
        view_table_defs(r@) == spec_table_defs(view_stmts(statements@)),
{
    let mut r: Vec<TableDef> = Vec::new();
    let n = statements.len();
    for i in 0..n
        invariant
            n == statements@.len(),
            view_table_defs(r@) == spec_table_defs(view_stmts(statements@.take(i as int))),
    {
        let ghost pre = r@;
        match &statements[i] {
            SchemaStatement::DefineTable { name } => {
                r.push(TableDef { name: name.clone() });
                proof {
                    assert(view_table_defs(r@) =~= view_table_defs(pre).push(
                        statements@[i as int]->DefineTable_name@,
                    ));
                }
            },
            _ => {},
        }
        proof {
            let prev = view_stmts(statements@.take(i as int));
            let cur = view_stmts(statements@.take(i as int + 1));
            assert(cur.drop_last() =~= prev);
            assert(cur.last() == view_stmt(statements@[i as int]));
            assert(view_table_defs(r@) =~= spec_table_defs(cur));
        }
    }
    proof {
        assert(statements@.take(n as int) =~= statements@);
    }
    r
}

/// Select the field definitions out of a statement tree, in order.
pub fn extract_define_field_statements(statements: &Vec<SchemaStatement>) -> (r: Vec<FieldDef>)
    ensures
        view_field_defs(r@) == spec_field_defs(view_stmts(statements@)),
{
    let mut r: Vec<FieldDef> = Vec::new();
    let n = statements.len();
    for i in 0..n
        invariant
            n == statements@.len(),
            view_field_defs(r@) == spec_field_defs(view_stmts(statements@.take(i as int))),
    {
        let ghost pre = r@;
        match &statements[i] {
            SchemaStatement::DefineField { name, what, kind, value } => {
                let d = FieldDef {
                    name: name.clone(),
                    what: what.clone(),
                    kind: *kind,
                    value: clone_opt_value_expr(value),
                };
                proof {
                    assert(view_field_def(d) == view_field_def(
                        FieldDef {
                            name: *name,
                            what: *what,
                            kind: *kind,
                            value: statements@[i as int]->DefineField_value,
                        },
                    ));
                }
                r.push(d);
                proof {
                    assert(view_field_defs(r@) =~= view_field_defs(pre).push(view_field_def(d)));
                }
            },
            _ => {},
        }
        proof {
            let prev = view_stmts(statements@.take(i as int));
            let cur = view_stmts(statements@.take(i as int + 1));
            assert(cur.drop_last() =~= prev);
            assert(cur.last() == view_stmt(statements@[i as int]));
            assert(view_field_defs(r@) =~= spec_field_defs(cur));
        }
    }
    proof {
        assert(statements@.take(n as int) =~= statements@);
    }
    r
}

/// Select the event definitions out of a statement tree, in order.
pub fn extract_define_event_statements(statements: &Vec<SchemaStatement>) -> (r: Vec<EventDef>)
    ensures
        view_event_defs(r@) == spec_event_defs(view_stmts(statements@)),
{
    let mut r: Vec<EventDef> = Vec::new();
    let n = statements.len();
    for i in 0..n
        invariant
            n == statements@.len(),
            view_event_defs(r@) == spec_event_defs(view_stmts(statements@.take(i as int))),
    {
        let ghost pre = r@;
        match &statements[i] {
            SchemaStatement::DefineEvent { name } => {
                r.push(EventDef { name: name.clone() });
                proof {
                    assert(view_event_defs(r@) =~= view_event_defs(pre).push(
                        statements@[i as int]->DefineEvent_name@,
                    ));
                }
            },
            _ => {},
        }
        proof {
            let prev = view_stmts(statements@.take(i as int));
            let cur = view_stmts(statements@.take(i as int + 1));
            assert(cur.drop_last() =~= prev);
            assert(cur.last() == view_stmt(statements@[i as int]));
            assert(view_event_defs(r@) =~= spec_event_defs(cur));
        }
    }
    proof {
        assert(statements@.take(n as int) =~= statements@);
    }
    r
}

/// Whether a value expression depends on the implicit `$value` parameter:
/// false only for constant leaves and for references to parameters other
/// than `value`; true for every other shape, including every shape the
/// generator does not recognise.
pub open spec fn spec_expr_uses_value(e: ValueExprV) -> bool
    decreases e,
{
    match e {
        ValueExprV::Literal => false,
        ValueExprV::Param(name) => name == "value"@,
        ValueExprV::CastOf(inner) => spec_expr_uses_value(*inner),
        ValueExprV::CallOf(args) => spec_exprs_any_uses_value(args),
        ValueExprV::BinaryOf(l, r) => spec_expr_uses_value(*l) || spec_expr_uses_value(*r),
        ValueExprV::OtherExpr => true,
    }
}

/// Whether any expression of a sequence depends on `$value`.
pub open spec fn spec_exprs_any_uses_value(args: Seq<ValueExprV>) -> bool
    decreases args,
{
    exists|i: int| 0 <= i < args.len() && spec_expr_uses_value(#[trigger] args[i])
}

/// Whether a field's value expression depends on `$value`; a field with
/// no value expression counts as depending on it.
pub open spec fn spec_value_param_used(v: Option<ValueExprV>) -> bool {
    match v {
        Some(e) => spec_expr_uses_value(e),
        None => true,
    }
}

pub proof fn lemma_view_expr_seq_props(s: Seq<ValueExpr>)
    ensures
        view_expr_seq(s).len() == s.len(),
        forall|i: int| 0 <= i < s.len() ==> view_expr_seq(s)[i] == view_expr(s[i]),
    decreases s.len(),
{
    if s.len() > 0 {
        lemma_view_expr_seq_props(s.drop_last());
    }
}

fn expr_uses_value(e: &ValueExpr) -> (r: bool)
    ensures
        r == spec_expr_uses_value(view_expr(*e)),
    decreases *e,
{
    match e {
        ValueExpr::Literal => false,
        ValueExpr::Param(name) => str_eq(name.as_str(), "value"),
        ValueExpr::CastOf(inner) => expr_uses_value(inner),
        ValueExpr::CallOf(args) => exprs_any_uses_value(args),
        ValueExpr::BinaryOf(l, r) => {
            let used_left = expr_uses_value(l);
            if used_left {
                true
            } else {
                expr_uses_value(r)
            }
        },
        ValueExpr::OtherExpr => true,
    }
}

fn exprs_any_uses_value(args: &Vec<ValueExpr>) -> (r: bool)
    ensures
        r == spec_exprs_any_uses_value(view_expr_seq(args@)),
    decreases *args,
{
    let ghost argsv = view_expr_seq(args@);
    proof {
        lemma_view_expr_seq_props(args@);
    }
    let n = args.len();
    let mut i: usize = 0;
    while i < n
        invariant
            argsv == view_expr_seq(args@),
            argsv.len() == args@.len(),
            forall|j: int| 0 <= j < args@.len() ==> argsv[j] == view_expr(args@[j]),
            n == args@.len(),
            i <= n,
            forall|j: int| 0 <= j < i ==> !spec_expr_uses_value(#[trigger] argsv[j]),
        decreases n - i,
    {
        if expr_uses_value(&args[i]) {
            proof {
                assert(spec_expr_uses_value(argsv[i as int]));
            }
            return true;
        }
        i = i + 1;
    }
    false
}

/// Whether a field definition's value expression references the implicit
/// `$value` parameter, directly or through casts, calls and binary
/// operators; unrecognised shapes and absent expressions count as used.
pub fn is_value_param_used(value_statement: &Option<ValueExpr>) -> (r: bool)
    ensures
        r == spec_value_param_used(view_opt_expr(*value_statement)),
{
    match value_statement {
        Some(e) => expr_uses_value(e),
        None => true,
    }
}

pub fn clone_value_expr(e: &ValueExpr) -> (r: ValueExpr)
    ensures
        view_expr(r) == view_expr(*e),
    decreases *e,
{
    match e {
        ValueExpr::Literal => ValueExpr::Literal,
        ValueExpr::Param(name) => ValueExpr::Param(name.clone()),
        ValueExpr::CastOf(inner) => ValueExpr::CastOf(Box::new(clone_value_expr(inner))),
        ValueExpr::CallOf(args) => ValueExpr::CallOf(clone_value_exprs(args)),
        ValueExpr::BinaryOf(l, r) => ValueExpr::BinaryOf(
            Box::new(clone_value_expr(l)),
            Box::new(clone_value_expr(r)),
        ),
        ValueExpr::OtherExpr => ValueExpr::OtherExpr,
    }
}

fn clone_value_exprs(args: &Vec<ValueExpr>) -> (r: Vec<ValueExpr>)
    ensures
        view_expr_seq(r@) == view_expr_seq(args@),
    decreases *args,
{
    let ghost argsv = view_expr_seq(args@);
    proof {
        lemma_view_expr_seq_props(args@);
    }
    let mut cloned: Vec<ValueExpr> = Vec::new();
    let n = args.len();
    let mut i: usize = 0;
    while i < n
        invariant
            argsv == view_expr_seq(args@),
            argsv.len() == args@.len(),
            forall|j: int| 0 <= j < args@.len() ==> argsv[j] == view_expr(args@[j]),
            n == args@.len(),
            i <= n,
            cloned@.len() == i,
            view_expr_seq(cloned@) =~= argsv.take(i as int),
        decreases n - i,
    {
        let ghost pre = cloned@;
        cloned.push(clone_value_expr(&args[i]));
        proof {
            assert(cloned@.drop_last() =~= pre);
            lemma_view_expr_seq_props(cloned@);
            assert(view_expr_seq(cloned@) =~= argsv.take(i as int + 1));
        }
        i = i + 1;
    }
    proof {
        assert(argsv.take(n as int) =~= argsv);
    }
    cloned
}

pub fn clone_opt_value_expr(v: &Option<ValueExpr>) -> (r: Option<ValueExpr>)
    ensures
        view_opt_expr(r) == view_opt_expr(*v),
{
    match v {
        Some(e) => Some(clone_value_expr(e)),
        None => None,
    }
}

} // verus!
