use vstd::prelude::*;
use vstd::string::StringExecFns;

use crate::casing::{pascal_of, snake_of, to_pascal_case, to_snake_case};
use crate::common::{extract_query_variables, spec_annotations};
use crate::error::GenerateError;
use crate::fields::{
    extract_struct_fields, spec_struct_fields, spec_upsert, lemma_upsert_found,
    lemma_upsert_not_found,
};
use crate::model::{
    extract_define_event_statements, extract_define_field_statements,
    extract_define_table_statements, is_value_param_used, spec_event_defs, spec_field_defs,
    spec_table_defs, spec_value_param_used, view_field_def, view_field_defs, view_stmts, FieldDef,
    FieldDefV,
};
use crate::render::{
    generate_from_crud_template, generate_from_event_template, generate_from_mutation_template,
    generate_from_query_template, render_mod_lines, spec_crud_text, spec_event_text,
    spec_mod_lines, spec_mutation_text, spec_query_text,
};
use crate::parse::{parse_of, parse_statements};
use crate::strutil::{str_eq, string_eq};

verus! {

/// One definition file handed to the generator: the file stem and the
/// raw text.  The schema-language parser turns the text into a
/// statement tree during the pass.
pub struct SourceFile {
    pub stem: String,
    pub text: String,
}

/// The mathematical shape of a `SourceFile`.
pub struct SourceFileV {
    pub stem: Seq<char>,
    pub text: Seq<char>,
}

pub open spec fn view_source_file(f: SourceFile) -> SourceFileV {
    SourceFileV { stem: f.stem@, text: f.text@ }
}

pub open spec fn view_source_files(s: Seq<SourceFile>) -> Seq<SourceFileV> {
    s.map_values(|f: SourceFile| view_source_file(f))
}

/// One module of generated source text, keyed by its canonical name.
pub struct GeneratedModule {
    pub name: String,
    pub content: String,
}

pub open spec fn view_modules(s: Seq<GeneratedModule>) -> Seq<(Seq<char>, Seq<char>)> {
    s.map_values(|m: GeneratedModule| (m.name@, m.content@))
}

/// What one category of the generation pass produced: its modules and
/// the text of its index file.  A category with no modules writes
/// nothing, its index text included.
pub struct CategoryOutput {
    pub modules: Vec<GeneratedModule>,
    pub index_content: String,
}

/// The complete, write-ready outcome of one generation pass.
pub struct DbPlan {
    pub queries: CategoryOutput,
    pub mutations: CategoryOutput,
    pub crud: CategoryOutput,
    pub events: CategoryOutput,
    /// The text of the top-level index, or nothing when every category
    /// is empty: an existing index is then left untouched.
    pub top_index: Option<String>,
}

/// The mathematical shape of a `DbPlan`.
pub struct DbPlanV {
    pub queries: Seq<(Seq<char>, Seq<char>)>,
    pub queries_index: Seq<char>,
    pub mutations: Seq<(Seq<char>, Seq<char>)>,
    pub mutations_index: Seq<char>,
    pub crud: Seq<(Seq<char>, Seq<char>)>,
    pub crud_index: Seq<char>,
    pub events: Seq<(Seq<char>, Seq<char>)>,
    pub events_index: Seq<char>,
    pub top_index: Option<Seq<char>>,
}

pub open spec fn view_db_plan(p: DbPlan) -> DbPlanV {
    DbPlanV {
        queries: view_modules(p.queries.modules@),
        queries_index: p.queries.index_content@,
        mutations: view_modules(p.mutations.modules@),
        mutations_index: p.mutations.index_content@,
        crud: view_modules(p.crud.modules@),
        crud_index: p.crud.index_content@,
        events: view_modules(p.events.modules@),
        events_index: p.events.index_content@,
        top_index: match p.top_index {
            Some(s) => Some(s@),
            None => None,
        },
    }
}

/// The stem of the first file the parser rejects, if any.
pub open spec fn spec_find_unparsed(files: Seq<SourceFileV>) -> Option<Seq<char>>
    decreases files.len(),
{
    if files.len() == 0 {
        None
    } else if parse_of(files.first().text) is None {
        Some(files.first().stem)
    } else {
        spec_find_unparsed(files.drop_first())
    }
}

pub open spec fn cat_names(mods: Seq<(Seq<char>, Seq<char>)>) -> Seq<Seq<char>> {
    mods.map_values(|p: (Seq<char>, Seq<char>)| p.0)
}

/// The content of the generated module for one query file.
pub open spec fn spec_query_content(f: SourceFileV) -> Seq<char> {
    spec_query_text(f.stem, spec_annotations(f.text), pascal_of(f.stem + "_Query"@))
}

pub open spec fn spec_query_modules_fold(
    acc: Seq<(Seq<char>, Seq<char>)>,
    files: Seq<SourceFileV>,
) -> Seq<(Seq<char>, Seq<char>)>
    decreases files.len(),
{
    if files.len() == 0 {
        acc
    } else {
        spec_query_modules_fold(
            spec_upsert(acc, files.first().stem, spec_query_content(files.first())),
            files.drop_first(),
        )
    }
}

pub open spec fn spec_query_modules(files: Seq<SourceFileV>) -> Seq<(Seq<char>, Seq<char>)> {
    spec_query_modules_fold(Seq::empty(), files)
}

/// The content of the generated module for one mutation file.
pub open spec fn spec_mutation_content(f: SourceFileV) -> Seq<char> {
    spec_mutation_text(f.stem, spec_annotations(f.text), pascal_of(f.stem + "_Mutation"@))
}

pub open spec fn spec_mutation_modules_fold(
    acc: Seq<(Seq<char>, Seq<char>)>,
    files: Seq<SourceFileV>,
) -> Seq<(Seq<char>, Seq<char>)>
    decreases files.len(),
{
    if files.len() == 0 {
        acc
    } else {
        spec_mutation_modules_fold(
            spec_upsert(acc, files.first().stem, spec_mutation_content(files.first())),
            files.drop_first(),
        )
    }
}

pub open spec fn spec_mutation_modules(files: Seq<SourceFileV>) -> Seq<(Seq<char>, Seq<char>)> {
    spec_mutation_modules_fold(Seq::empty(), files)
}

/// The field definitions that belong to one table, in order.
pub open spec fn spec_fields_for_table(defs: Seq<FieldDefV>, t: Seq<char>) -> Seq<FieldDefV>
    decreases defs.len(),
{
    if defs.len() == 0 {
        Seq::empty()
    } else {
        spec_fields_for_table(defs.drop_last(), t) + (if defs.last().what == t {
            seq![defs.last()]
        } else {
            Seq::empty()
        })
    }
}

/// The content of the generated table-access module for one table.
pub open spec fn spec_crud_content(t: Seq<char>, defs: Seq<FieldDefV>) -> Seq<char> {
    spec_crud_text(t, pascal_of(t), spec_struct_fields(spec_fields_for_table(defs, t), true))
}

pub open spec fn spec_crud_tables_fold(
    acc: Seq<(Seq<char>, Seq<char>)>,
    tables: Seq<Seq<char>>,
    defs: Seq<FieldDefV>,
) -> Seq<(Seq<char>, Seq<char>)>
    decreases tables.len(),
{
    if tables.len() == 0 {
        acc
    } else {
        spec_crud_tables_fold(
            spec_upsert(acc, tables.first(), spec_crud_content(tables.first(), defs)),
            tables.drop_first(),
            defs,
        )
    }
}

pub open spec fn spec_crud_modules_fold(
    acc: Seq<(Seq<char>, Seq<char>)>,
    files: Seq<SourceFileV>,
) -> Seq<(Seq<char>, Seq<char>)>
    decreases files.len(),
{
    if files.len() == 0 {
        acc
    } else {
        let stmts = parse_of(files.first().text)->0;
        spec_crud_modules_fold(
            spec_crud_tables_fold(acc, spec_table_defs(stmts), spec_field_defs(stmts)),
            files.drop_first(),
        )
    }
}

pub open spec fn spec_crud_modules(files: Seq<SourceFileV>) -> Seq<(Seq<char>, Seq<char>)> {
    spec_crud_modules_fold(Seq::empty(), files)
}

/// The field definitions of one event whose value expression references
/// the implicit `$value` parameter, in order.
pub open spec fn spec_fields_for_event(defs: Seq<FieldDefV>, t: Seq<char>) -> Seq<FieldDefV>
    decreases defs.len(),
{
    if defs.len() == 0 {
        Seq::empty()
    } else {
        spec_fields_for_event(defs.drop_last(), t) + (if defs.last().what == t
            && spec_value_param_used(defs.last().value) {
            seq![defs.last()]
        } else {
            Seq::empty()
        })
    }
}

/// The content of the generated module for one event.
pub open spec fn spec_event_content(ev: Seq<char>, defs: Seq<FieldDefV>) -> Seq<char> {
    spec_event_text(
        snake_of(ev),
        ev,
        pascal_of(ev + "Data"@),
        spec_struct_fields(spec_fields_for_event(defs, ev), false),
    )
}

/// An event is generated only when a table with the same name exists
/// and at least one of its field definitions references the implicit
/// `$value` payload: an event none of whose fields depend on the
/// payload synthesizes nothing.
pub open spec fn spec_event_generated(
    name: Seq<char>,
    tables: Seq<Seq<char>>,
    defs: Seq<FieldDefV>,
) -> bool {
    tables.contains(name) && spec_fields_for_event(defs, name).len() > 0
}

pub open spec fn spec_event_names_fold(
    acc: Seq<(Seq<char>, Seq<char>)>,
    names: Seq<Seq<char>>,
    tables: Seq<Seq<char>>,
    defs: Seq<FieldDefV>,
) -> Seq<(Seq<char>, Seq<char>)>
    decreases names.len(),
{
    if names.len() == 0 {
        acc
    } else {
        let acc2 = if spec_event_generated(names.first(), tables, defs) {
            spec_upsert(acc, names.first(), spec_event_content(names.first(), defs))
        } else {
            acc
        };
        spec_event_names_fold(acc2, names.drop_first(), tables, defs)
    }
}

pub open spec fn spec_event_modules_fold(
    acc: Seq<(Seq<char>, Seq<char>)>,
    files: Seq<SourceFileV>,
) -> Seq<(Seq<char>, Seq<char>)>
    decreases files.len(),
{
    if files.len() == 0 {
        acc
    } else {
        let stmts = parse_of(files.first().text)->0;
        spec_event_modules_fold(
            spec_event_names_fold(
                acc,
                spec_event_defs(stmts),
                spec_table_defs(stmts),
                spec_field_defs(stmts),
            ),
            files.drop_first(),
        )
    }
}

pub open spec fn spec_event_modules(files: Seq<SourceFileV>) -> Seq<(Seq<char>, Seq<char>)> {
    spec_event_modules_fold(Seq::empty(), files)
}

/// The category names the top-level index re-exports, in the fixed
/// priority order.
pub open spec fn spec_top_names(
    has_crud: bool,
    has_events: bool,
    has_mutations: bool,
    has_queries: bool,
) -> Seq<Seq<char>> {
    (if has_crud {
        seq!["crud"@]
    } else {
        Seq::empty()
    }) + (if has_events {
        seq!["events"@]
    } else {
        Seq::empty()
    }) + (if has_mutations {
        seq!["mutations"@]
    } else {
        Seq::empty()
    }) + (if has_queries {
        seq!["queries"@]
    } else {
        Seq::empty()
    })
}

/// The complete plan of one generation pass over parsed inputs.
pub open spec fn spec_db_plan(
    q: Seq<SourceFileV>,
    m: Seq<SourceFileV>,
    s: Seq<SourceFileV>,
    e: Seq<SourceFileV>,
) -> DbPlanV {
    let qm = spec_query_modules(q);
    let mm = spec_mutation_modules(m);
    let sm = spec_crud_modules(s);
    let em = spec_event_modules(e);
    DbPlanV {
        queries: qm,
        queries_index: spec_mod_lines(cat_names(qm)),
        mutations: mm,
        mutations_index: spec_mod_lines(cat_names(mm)),
        crud: sm,
        crud_index: spec_mod_lines(cat_names(sm)),
        events: em,
        events_index: spec_mod_lines(cat_names(em)),
        top_index: if sm.len() > 0 || em.len() > 0 || mm.len() > 0 || qm.len() > 0 {
            Some(
                spec_mod_lines(
                    spec_top_names(sm.len() > 0, em.len() > 0, mm.len() > 0, qm.len() > 0),
                ),
            )
        } else {
            None
        },
    }
}

/// What one generation pass yields: the plan, or the stem of the first
/// file — in the fixed category order queries, mutations, schemas,
/// events — that the parser rejected.
pub open spec fn spec_db_outcome(
    q: Seq<SourceFileV>,
    m: Seq<SourceFileV>,
    s: Seq<SourceFileV>,
    e: Seq<SourceFileV>,
) -> Result<DbPlanV, Seq<char>> {
    if spec_find_unparsed(q) is Some {
        Err(spec_find_unparsed(q)->0)
    } else if spec_find_unparsed(m) is Some {
        Err(spec_find_unparsed(m)->0)
    } else if spec_find_unparsed(s) is Some {
        Err(spec_find_unparsed(s)->0)
    } else if spec_find_unparsed(e) is Some {
        Err(spec_find_unparsed(e)->0)
    } else {
        Ok(spec_db_plan(q, m, s, e))
    }
}

fn upsert_module(modules: &mut Vec<GeneratedModule>, name: String, content: String)
    ensures
        view_modules(final(modules)@) == spec_upsert(view_modules(old(modules)@), name@, content@),
{
    let ghost accv = view_modules(modules@);
    let n = modules.len();
    let mut i: usize = 0;
    while i < n
        invariant
            accv == view_modules(modules@),
            accv == view_modules(old(modules)@),
            n == modules@.len(),
            i <= n,
            forall|j: int| 0 <= j < i ==> (#[trigger] accv[j]).0 != name@,
        decreases n - i,
    {
        if string_eq(&modules[i].name, &name) {
            modules.set(i, GeneratedModule { name, content });
            proof {
                lemma_upsert_found(accv, name@, content@, i as int);
                assert(view_modules(modules@) =~= accv.update(i as int, (name@, content@)));
            }
            return ;
        }
        i = i + 1;
    }
    modules.push(GeneratedModule { name, content });
    proof {
        lemma_upsert_not_found(accv, name@, content@);
        assert(view_modules(modules@) =~= accv.push((name@, content@)));
    }
}

fn clone_field_def(d: &FieldDef) -> (r: FieldDef)
    ensures
        view_field_def(r) == view_field_def(*d),
{
    FieldDef {
        name: d.name.clone(),
        what: d.what.clone(),
        kind: d.kind,
        value: crate::model::clone_opt_value_expr(&d.value),
    }
}

fn fields_for_table(defs: &Vec<FieldDef>, t: &str) -> (r: Vec<FieldDef>)
    ensures
        view_field_defs(r@) == spec_fields_for_table(view_field_defs(defs@), t@),
{
    let ghost dv = view_field_defs(defs@);
    let mut r: Vec<FieldDef> = Vec::new();
    let n = defs.len();
    let mut i: usize = 0;
    while i < n
        invariant
            dv == view_field_defs(defs@),
            n == defs@.len(),
            i <= n,
            view_field_defs(r@) == spec_fields_for_table(dv.take(i as int), t@),
        decreases n - i,
    {
        let ghost pre = view_field_defs(r@);
        if str_eq(defs[i].what.as_str(), t) {
            let d = clone_field_def(&defs[i]);
            r.push(d);
            proof {
                assert(view_field_defs(r@) =~= pre.push(view_field_def(d)));
            }
        }
        proof {
            assert(dv.take(i as int + 1).drop_last() =~= dv.take(i as int));
            assert(dv.take(i as int + 1).last() == dv[i as int]);
            assert(view_field_defs(r@) =~= spec_fields_for_table(dv.take(i as int + 1), t@));
        }
        i = i + 1;
    }
    proof {
        assert(dv.take(n as int) =~= dv);
    }
    r
}

fn fields_for_event(defs: &Vec<FieldDef>, t: &str) -> (r: Vec<FieldDef>)
    ensures
        view_field_defs(r@) == spec_fields_for_event(view_field_defs(defs@), t@),
{
    let ghost dv = view_field_defs(defs@);
    let mut r: Vec<FieldDef> = Vec::new();
    let n = defs.len();
    let mut i: usize = 0;
    while i < n
        invariant
            dv == view_field_defs(defs@),
            n == defs@.len(),
            i <= n,
            view_field_defs(r@) == spec_fields_for_event(dv.take(i as int), t@),
        decreases n - i,
    {
        let ghost pre = view_field_defs(r@);
        if str_eq(defs[i].what.as_str(), t) && is_value_param_used(&defs[i].value) {
            let d = clone_field_def(&defs[i]);
            r.push(d);
            proof {
                assert(view_field_defs(r@) =~= pre.push(view_field_def(d)));
            }
        }
        proof {
            assert(dv.take(i as int + 1).drop_last() =~= dv.take(i as int));
            assert(dv.take(i as int + 1).last() == dv[i as int]);
            assert(view_field_defs(r@) =~= spec_fields_for_event(dv.take(i as int + 1), t@));
        }
        i = i + 1;
    }
    proof {
        assert(dv.take(n as int) =~= dv);
    }
    r
}

fn table_names_contain(tables: &Vec<crate::model::TableDef>, name: &str) -> (r: bool)
    ensures
        r == crate::model::view_table_defs(tables@).contains(name@),
{
    let ghost tv = crate::model::view_table_defs(tables@);
    let n = tables.len();
    let mut i: usize = 0;
    while i < n
        invariant
            tv == crate::model::view_table_defs(tables@),
            n == tables@.len(),
            i <= n,
            forall|j: int| 0 <= j < i ==> tv[j] != name@,
        decreases n - i,
    {
        if str_eq(tables[i].name.as_str(), name) {
            proof {
                assert(tv[i as int] == name@);
            }
            return true;
        }
        i = i + 1;
    }
    proof {
        assert(forall|j: int| 0 <= j < tv.len() ==> tv[j] != name@);
    }
    false
}

fn generate_queries_category(files: &Vec<SourceFile>) -> (r: Result<
    Vec<GeneratedModule>,
    GenerateError,
>)
    ensures
        match r {
            Ok(ms) => spec_find_unparsed(view_source_files(files@)) is None && view_modules(ms@)
                == spec_query_modules(view_source_files(files@)),
            Err(e) => {
                &&& spec_find_unparsed(view_source_files(files@)) is Some
                &&& e is ParseFailed
                &&& e->ParseFailed_0@ == spec_find_unparsed(view_source_files(files@))->0
            },
        },
{
    let ghost fv = view_source_files(files@);
    let mut modules: Vec<GeneratedModule> = Vec::new();
    proof {
        assert(view_modules(modules@) =~= Seq::<(Seq<char>, Seq<char>)>::empty());
        assert(fv.skip(0) =~= fv);
    }
    let n = files.len();
    let mut i: usize = 0;
    while i < n
        invariant
            fv == view_source_files(files@),
            n == files@.len(),
            i <= n,
            forall|j: int| 0 <= j < i ==> parse_of((#[trigger] fv[j]).text) is Some,
            spec_query_modules_fold(view_modules(modules@), fv.skip(i as int))
                == spec_query_modules(fv),
        decreases n - i,
    {
        let f = &files[i];
        proof {
            assert(fv.skip(i as int).first() == fv[i as int]);
            assert(fv.skip(i as int).drop_first() =~= fv.skip(i as int + 1));
        }
        match parse_statements(f.text.as_str()) {
            None => {
                proof {
                    lemma_find_unparsed_at(fv, i as int);
                }
                return Err(GenerateError::ParseFailed(f.stem.clone()));
            },
            Some(_) => {},
        }
        let variables = match extract_query_variables(f.text.as_str()) {
            Ok(v) => v,
            Err(e) => {
                return Err(e);
            },
        };
        let mut resp_base = String::from_str(f.stem.as_str());
        resp_base.append("_Query");
        let response_type = to_pascal_case(resp_base.as_str());
        let content = match generate_from_query_template(
            f.stem.as_str(),
            &variables,
            response_type.as_str(),
        ) {
            Ok(c) => c,
            Err(e) => {
                return Err(e);
            },
        };
        proof {
            assert(content@ == spec_query_content(fv[i as int]));
        }
        upsert_module(&mut modules, f.stem.clone(), content);
        i = i + 1;
    }
    proof {
        assert(fv.skip(n as int) =~= Seq::<SourceFileV>::empty());
        lemma_find_unparsed_none(fv);
    }
    Ok(modules)
}

fn generate_mutations_category(files: &Vec<SourceFile>) -> (r: Result<
    Vec<GeneratedModule>,
    GenerateError,
>)
    ensures
        match r {
            Ok(ms) => spec_find_unparsed(view_source_files(files@)) is None && view_modules(ms@)
                == spec_mutation_modules(view_source_files(files@)),
            Err(e) => {
                &&& spec_find_unparsed(view_source_files(files@)) is Some
                &&& e is ParseFailed
                &&& e->ParseFailed_0@ == spec_find_unparsed(view_source_files(files@))->0
            },
        },
{
    let ghost fv = view_source_files(files@);
    let mut modules: Vec<GeneratedModule> = Vec::new();
    proof {
        assert(view_modules(modules@) =~= Seq::<(Seq<char>, Seq<char>)>::empty());
        assert(fv.skip(0) =~= fv);
    }
    let n = files.len();
    let mut i: usize = 0;
    while i < n
        invariant
            fv == view_source_files(files@),
            n == files@.len(),
            i <= n,
            forall|j: int| 0 <= j < i ==> parse_of((#[trigger] fv[j]).text) is Some,
            spec_mutation_modules_fold(view_modules(modules@), fv.skip(i as int))
                == spec_mutation_modules(fv),
        decreases n - i,
    {
        let f = &files[i];
        proof {
            assert(fv.skip(i as int).first() == fv[i as int]);
            assert(fv.skip(i as int).drop_first() =~= fv.skip(i as int + 1));
        }
        match parse_statements(f.text.as_str()) {
            None => {
                proof {
                    lemma_find_unparsed_at(fv, i as int);
                }
                return Err(GenerateError::ParseFailed(f.stem.clone()));
            },
            Some(_) => {},
        }
        let variables = match extract_query_variables(f.text.as_str()) {
            Ok(v) => v,
            Err(e) => {
                return Err(e);
            },
        };
        let mut resp_base = String::from_str(f.stem.as_str());
        resp_base.append("_Mutation");
        let response_type = to_pascal_case(resp_base.as_str());
        let content = match generate_from_mutation_template(
            f.stem.as_str(),
            &variables,
            response_type.as_str(),
        ) {
            Ok(c) => c,
            Err(e) => {
                return Err(e);
            },
        };
        proof {
            assert(content@ == spec_mutation_content(fv[i as int]));
        }
        upsert_module(&mut modules, f.stem.clone(), content);
        i = i + 1;
    }
    proof {
        assert(fv.skip(n as int) =~= Seq::<SourceFileV>::empty());
        lemma_find_unparsed_none(fv);
    }
    Ok(modules)
}

fn generate_crud_category(files: &Vec<SourceFile>) -> (r: Result<
    Vec<GeneratedModule>,
    GenerateError,
>)
    ensures
        match r {
            Ok(ms) => spec_find_unparsed(view_source_files(files@)) is None && view_modules(ms@)
                == spec_crud_modules(view_source_files(files@)),
            Err(e) => {
                &&& spec_find_unparsed(view_source_files(files@)) is Some
                &&& e is ParseFailed
                &&& e->ParseFailed_0@ == spec_find_unparsed(view_source_files(files@))->0
            },
        },
{
    let ghost fv = view_source_files(files@);
    let mut modules: Vec<GeneratedModule> = Vec::new();
    proof {
        assert(view_modules(modules@) =~= Seq::<(Seq<char>, Seq<char>)>::empty());
        assert(fv.skip(0) =~= fv);
    }
    let n = files.len();
    let mut i: usize = 0;
    while i < n
        invariant
            fv == view_source_files(files@),
            n == files@.len(),
            i <= n,
            forall|j: int| 0 <= j < i ==> parse_of((#[trigger] fv[j]).text) is Some,
            spec_crud_modules_fold(view_modules(modules@), fv.skip(i as int)) == spec_crud_modules(
                fv,
            ),
        decreases n - i,
    {
        let f = &files[i];
        proof {
            assert(fv.skip(i as int).first() == fv[i as int]);
            assert(fv.skip(i as int).drop_first() =~= fv.skip(i as int + 1));
        }
        let stmts = match parse_statements(f.text.as_str()) {
            None => {
                proof {
                    lemma_find_unparsed_at(fv, i as int);
                }
                return Err(GenerateError::ParseFailed(f.stem.clone()));
            },
            Some(stmts) => stmts,
        };
        let ghost sv = view_stmts(stmts@);
        let tables = extract_define_table_statements(&stmts);
        let fdefs = extract_define_field_statements(&stmts);
        let ghost tablesv = spec_table_defs(sv);
        let ghost defsv = spec_field_defs(sv);
        let ghost target = spec_crud_tables_fold(view_modules(modules@), tablesv, defsv);
        proof {
            assert(tablesv.skip(0) =~= tablesv);
        }
        let tn = tables.len();
        let mut j: usize = 0;
        while j < tn
            invariant
                crate::model::view_table_defs(tables@) == tablesv,
                view_field_defs(fdefs@) == defsv,
                tn == tables@.len(),
                j <= tn,
                spec_crud_tables_fold(view_modules(modules@), tablesv.skip(j as int), defsv)
                    == target,
            decreases tn - j,
        {
            proof {
                assert(tablesv.skip(j as int).first() == tablesv[j as int]);
                assert(tablesv.skip(j as int).drop_first() =~= tablesv.skip(j as int + 1));
            }
            let t = &tables[j].name;
            let struct_name = to_pascal_case(t.as_str());
            let filtered = fields_for_table(&fdefs, t.as_str());
            let sf = extract_struct_fields(&filtered, true);
            let content = match generate_from_crud_template(
                t.as_str(),
                struct_name.as_str(),
                &sf,
            ) {
                Ok(c) => c,
                Err(e) => {
                    return Err(e);
                },
            };
            proof {
                assert(content@ == spec_crud_content(tablesv[j as int], defsv));
            }
            upsert_module(&mut modules, t.clone(), content);
            j = j + 1;
        }
        proof {
            assert(tablesv.skip(tn as int) =~= Seq::<Seq<char>>::empty());
        }
        i = i + 1;
    }
    proof {
        assert(fv.skip(n as int) =~= Seq::<SourceFileV>::empty());
        lemma_find_unparsed_none(fv);
    }
    Ok(modules)
}

fn generate_events_category(files: &Vec<SourceFile>) -> (r: Result<
    Vec<GeneratedModule>,
    GenerateError,
>)
    ensures
        match r {
            Ok(ms) => spec_find_unparsed(view_source_files(files@)) is None && view_modules(ms@)
                == spec_event_modules(view_source_files(files@)),
            Err(e) => {
                &&& spec_find_unparsed(view_source_files(files@)) is Some
                &&& e is ParseFailed
                &&& e->ParseFailed_0@ == spec_find_unparsed(view_source_files(files@))->0
            },
        },
{
    let ghost fv = view_source_files(files@);
    let mut modules: Vec<GeneratedModule> = Vec::new();
    proof {
        assert(view_modules(modules@) =~= Seq::<(Seq<char>, Seq<char>)>::empty());
        assert(fv.skip(0) =~= fv);
    }
    let n = files.len();
    let mut i: usize = 0;
    while i < n
        invariant
            fv == view_source_files(files@),
            n == files@.len(),
            i <= n,
            forall|j: int| 0 <= j < i ==> parse_of((#[trigger] fv[j]).text) is Some,
            spec_event_modules_fold(view_modules(modules@), fv.skip(i as int))
                == spec_event_modules(fv),
        decreases n - i,
    {
        let f = &files[i];
        proof {
            assert(fv.skip(i as int).first() == fv[i as int]);
            assert(fv.skip(i as int).drop_first() =~= fv.skip(i as int + 1));
        }
        let stmts = match parse_statements(f.text.as_str()) {
            None => {
                proof {
                    lemma_find_unparsed_at(fv, i as int);
                }
                return Err(GenerateError::ParseFailed(f.stem.clone()));
            },
            Some(stmts) => stmts,
        };
        let ghost sv = view_stmts(stmts@);
        let tables = extract_define_table_statements(&stmts);
        let fdefs = extract_define_field_statements(&stmts);
        let edefs = extract_define_event_statements(&stmts);
        let ghost tablesv = spec_table_defs(sv);
        let ghost defsv = spec_field_defs(sv);
        let ghost namesv = spec_event_defs(sv);
        let ghost target = spec_event_names_fold(view_modules(modules@), namesv, tablesv, defsv);
        proof {
            assert(namesv.skip(0) =~= namesv);
        }
        let en = edefs.len();
        let mut j: usize = 0;
        while j < en
            invariant
                crate::model::view_table_defs(tables@) == tablesv,
                view_field_defs(fdefs@) == defsv,
                crate::model::view_event_defs(edefs@) == namesv,
                en == edefs@.len(),
                j <= en,
                spec_event_names_fold(view_modules(modules@), namesv.skip(j as int), tablesv, defsv)
                    == target,
            decreases en - j,
        {
            proof {
                assert(namesv.skip(j as int).first() == namesv[j as int]);
                assert(namesv.skip(j as int).drop_first() =~= namesv.skip(j as int + 1));
            }
            let ev = &edefs[j].name;
            let filtered = fields_for_event(&fdefs, ev.as_str());
            proof {
                assert(view_field_defs(filtered@).len() == filtered@.len());
            }
            if table_names_contain(&tables, ev.as_str()) && filtered.len() > 0 {
                let mut data_name = String::from_str(ev.as_str());
                data_name.append("Data");
                let struct_name = to_pascal_case(data_name.as_str());
                let func_name = to_snake_case(ev.as_str());
                let sf = extract_struct_fields(&filtered, false);
                let content = match generate_from_event_template(
                    func_name.as_str(),
                    ev.as_str(),
                    struct_name.as_str(),
                    &sf,
                ) {
                    Ok(c) => c,
                    Err(e) => {
                        return Err(e);
                    },
                };
                proof {
                    assert(content@ == spec_event_content(namesv[j as int], defsv));
                }
                upsert_module(&mut modules, ev.clone(), content);
            }
            j = j + 1;
        }
        proof {
            assert(namesv.skip(en as int) =~= Seq::<Seq<char>>::empty());
        }
        i = i + 1;
    }
    proof {
        assert(fv.skip(n as int) =~= Seq::<SourceFileV>::empty());
        lemma_find_unparsed_none(fv);
    }
    Ok(modules)
}

fn module_names(modules: &Vec<GeneratedModule>) -> (r: Vec<String>)
    ensures
        crate::strutil::view_strings(r@) == cat_names(view_modules(modules@)),
{
    let ghost mv = view_modules(modules@);
    let mut r: Vec<String> = Vec::new();
    let n = modules.len();
    let mut i: usize = 0;
    while i < n
        invariant
            mv == view_modules(modules@),
            n == modules@.len(),
            i <= n,
            r@.len() == i,
            crate::strutil::view_strings(r@) =~= cat_names(mv).take(i as int),
        decreases n - i,
    {
        let ghost pre = r@;
        r.push(modules[i].name.clone());
        proof {
            let rv = crate::strutil::view_strings(r@);
            let cn = cat_names(mv);
            assert(r@[i as int]@ == mv[i as int].0);
            assert forall|k: int| 0 <= k < i + 1 implies rv[k] == cn.take(i as int + 1)[k] by {
                if k < i {
                    assert(r@[k] == pre[k]);
                    assert(crate::strutil::view_strings(pre)[k] == cn.take(i as int)[k]);
                }
            }
            assert(rv =~= cn.take(i as int + 1));
        }
        i = i + 1;
    }
    proof {
        assert(cat_names(mv).take(n as int) =~= cat_names(mv));
    }
    r
}

fn category_output(modules: Vec<GeneratedModule>) -> (r: CategoryOutput)
    ensures
        view_modules(r.modules@) == view_modules(modules@),
        r.index_content@ == spec_mod_lines(cat_names(view_modules(modules@))),
{
    let names = module_names(&modules);
    let index_content = render_mod_lines(&names);
    CategoryOutput { modules, index_content }
}

/// Run the four category generators in the fixed order queries,
/// mutations, table-access, events over pre-parsed definition files and
/// compute the full, write-ready output tree.  Nothing is written here:
/// the caller owns the file system.
pub fn generate_db_folder(
    queries: &Vec<SourceFile>,
    mutations: &Vec<SourceFile>,
    schemas: &Vec<SourceFile>,
    events: &Vec<SourceFile>,
) -> (r: Result<DbPlan, GenerateError>)
    ensures
        match spec_db_outcome(
            view_source_files(queries@),
            view_source_files(mutations@),
            view_source_files(schemas@),
            view_source_files(events@),
        ) {
            Ok(pv) => r is Ok && view_db_plan(r->Ok_0) == pv,
            Err(stem) => r is Err && r->Err_0 is ParseFailed && r->Err_0->ParseFailed_0@ == stem,
        },
{
    let query_modules = match generate_queries_category(queries) {
        Ok(ms) => ms,
        Err(e) => {
            return Err(e);
        },
    };
    let mutation_modules = match generate_mutations_category(mutations) {
        Ok(ms) => ms,
        Err(e) => {
            return Err(e);
        },
    };
    let crud_modules = match generate_crud_category(schemas) {
        Ok(ms) => ms,
        Err(e) => {
            return Err(e);
        },
    };
    let event_modules = match generate_events_category(events) {
        Ok(ms) => ms,
        Err(e) => {
            return Err(e);
        },
    };
    let has_queries = query_modules.len() > 0;
    let has_mutations = mutation_modules.len() > 0;
    let has_crud = crud_modules.len() > 0;
    let has_events = event_modules.len() > 0;
    let top_index = if has_crud || has_events || has_mutations || has_queries {
        let mut top_names: Vec<String> = Vec::new();
        if has_crud {
            top_names.push(String::from_str("crud"));
        }
        if has_events {
            top_names.push(String::from_str("events"));
        }
        if has_mutations {
            top_names.push(String::from_str("mutations"));
        }
        if has_queries {
            top_names.push(String::from_str("queries"));
        }
        proof {
            assert(crate::strutil::view_strings(top_names@) =~= spec_top_names(
                has_crud,
                has_events,
                has_mutations,
                has_queries,
            ));
        }
        Some(render_mod_lines(&top_names))
    } else {
        None
    };
    let plan = DbPlan {
        queries: category_output(query_modules),
        mutations: category_output(mutation_modules),
        crud: category_output(crud_modules),
        events: category_output(event_modules),
        top_index,
    };
    proof {
        assert(view_db_plan(plan) == spec_db_plan(
            view_source_files(queries@),
            view_source_files(mutations@),
            view_source_files(schemas@),
            view_source_files(events@),
        ));
    }
    Ok(plan)
}

/// Which fields an event synthesizes: a field definition enters the
/// event's struct exactly when it belongs to the event's table and its
/// value expression depends on the implicit `$value` parameter —
/// literal and constant expressions are excluded, `$value` itself and
/// every cast, call or binary operator around it are included, and so
/// is every shape the generator does not recognise.
pub proof fn lemma_event_field_usage(defs: Seq<FieldDefV>, t: Seq<char>, d: FieldDefV)
    ensures
        spec_fields_for_event(defs, t).contains(d) <==> (defs.contains(d) && d.what == t
            && spec_value_param_used(d.value)),
    decreases defs.len(),
{
    if defs.len() > 0 {
        lemma_event_field_usage(defs.drop_last(), t, d);
        assert(defs.contains(d) <==> (defs.drop_last().contains(d) || defs.last() == d)) by {
            if defs.contains(d) {
                let i = choose|i: int| 0 <= i < defs.len() && defs[i] == d;
                if i < defs.len() - 1 {
                    assert(defs.drop_last()[i] == d);
                }
            }
            if defs.drop_last().contains(d) {
                let i = choose|i: int| 0 <= i < defs.drop_last().len() && defs.drop_last()[i]
                    == d;
                assert(defs[i] == d);
            }
        }
        let tail = if defs.last().what == t && spec_value_param_used(defs.last().value) {
            seq![defs.last()]
        } else {
            Seq::<FieldDefV>::empty()
        };
        assert(spec_fields_for_event(defs, t).contains(d) <==> (spec_fields_for_event(
            defs.drop_last(),
            t,
        ).contains(d) || tail.contains(d))) by {
            let whole = spec_fields_for_event(defs.drop_last(), t) + tail;
            if whole.contains(d) {
                let i = choose|i: int| 0 <= i < whole.len() && whole[i] == d;
                if i < spec_fields_for_event(defs.drop_last(), t).len() {
                    assert(spec_fields_for_event(defs.drop_last(), t)[i] == d);
                } else {
                    assert(tail[i - spec_fields_for_event(defs.drop_last(), t).len()] == d);
                }
            }
            if spec_fields_for_event(defs.drop_last(), t).contains(d) {
                let i = choose|i: int|
                    0 <= i < spec_fields_for_event(defs.drop_last(), t).len()
                        && spec_fields_for_event(defs.drop_last(), t)[i] == d;
                assert(whole[i] == d);
            }
            if tail.contains(d) {
                assert(whole[spec_fields_for_event(defs.drop_last(), t).len() as int] == d);
            }
        }
        assert(tail.contains(d) <==> (defs.last() == d && defs.last().what == t
            && spec_value_param_used(defs.last().value))) by {
            if defs.last().what == t && spec_value_param_used(defs.last().value) {
                if defs.last() == d {
                    assert(tail[0] == d);
                }
            }
        }
    }
}

/// Generation is a mathematical function of its inputs: two passes over
/// inputs with the same character-level content yield the same outcome,
/// index files and top-level index included.  Together with the caller
/// overwriting every planned file unconditionally, running generation
/// twice with unchanged inputs yields byte-identical output trees.
pub proof fn lemma_generation_idempotent(
    q1: Seq<SourceFileV>,
    m1: Seq<SourceFileV>,
    s1: Seq<SourceFileV>,
    e1: Seq<SourceFileV>,
    q2: Seq<SourceFileV>,
    m2: Seq<SourceFileV>,
    s2: Seq<SourceFileV>,
    e2: Seq<SourceFileV>,
)
    requires
        q1 == q2,
        m1 == m2,
        s1 == s2,
        e1 == e2,
    ensures
        spec_db_outcome(q1, m1, s1, e1) == spec_db_outcome(q2, m2, s2, e2),
{
}

/// Every subset of the four input directories may be present — an
/// absent directory hands the generator an empty file list — and as
/// long as every present file parses, generation succeeds, and the
/// top-level index exists exactly when some category produced modules
/// and then lists exactly the non-empty categories, in the fixed
/// priority order: table-access, events, mutations, queries.
pub proof fn lemma_absence_tolerance(
    q: Seq<SourceFileV>,
    m: Seq<SourceFileV>,
    s: Seq<SourceFileV>,
    e: Seq<SourceFileV>,
)
    requires
        spec_find_unparsed(q) is None,
        spec_find_unparsed(m) is None,
        spec_find_unparsed(s) is None,
        spec_find_unparsed(e) is None,
    ensures
        spec_db_outcome(q, m, s, e) is Ok,
        ({
            let p = spec_db_outcome(q, m, s, e)->Ok_0;
            &&& (p.top_index is Some <==> (p.crud.len() > 0 || p.events.len() > 0
                || p.mutations.len() > 0 || p.queries.len() > 0))
            &&& (p.top_index is Some ==> p.top_index->0 == spec_mod_lines(
                spec_top_names(
                    p.crud.len() > 0,
                    p.events.len() > 0,
                    p.mutations.len() > 0,
                    p.queries.len() > 0,
                ),
            ))
        }),
{
}

proof fn lemma_find_unparsed_at(files: Seq<SourceFileV>, i: int)
    requires
        0 <= i < files.len(),
        parse_of(files[i].text) is None,
        forall|j: int| 0 <= j < i ==> parse_of((#[trigger] files[j]).text) is Some,
    ensures
        spec_find_unparsed(files) == Some(files[i].stem),
    decreases files.len(),
{
    if i > 0 {
        lemma_find_unparsed_at(files.drop_first(), i - 1);
    }
}

proof fn lemma_find_unparsed_none(files: Seq<SourceFileV>)
    requires
        forall|j: int| 0 <= j < files.len() ==> parse_of((#[trigger] files[j]).text) is Some,
    ensures
        spec_find_unparsed(files) is None,
    decreases files.len(),
{
    if files.len() > 0 {
        lemma_find_unparsed_none(files.drop_first());
    }
}

} // verus!
