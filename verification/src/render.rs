use vstd::prelude::*;
use vstd::string::StringExecFns;

use crate::common::QueryVariable;
use crate::common::view_qvars;
use crate::error::GenerateError;
use crate::fields::{StructField, view_sfields};
use crate::strutil::str_eq;

verus! {

/// The struct-body lines of a generated record type, one per field.
pub open spec fn spec_fields_block(fields: Seq<(Seq<char>, Seq<char>)>) -> Seq<char>
    decreases fields.len(),
{
    if fields.len() == 0 {
        Seq::empty()
    } else {
        spec_fields_block(fields.drop_last()) + "    pub "@ + fields.last().0 + ": "@
            + fields.last().1 + ",\n"@
    }
}

fn append_fields_block(out: &mut String, fields: &Vec<StructField>)
    ensures
        final(out)@ == old(out)@ + spec_fields_block(view_sfields(fields@)),
{
    let ghost base = out@;
    let ghost fv = view_sfields(fields@);
    let n = fields.len();
    let mut i: usize = 0;
    while i < n
        invariant
            base == old(out)@,
            fv == view_sfields(fields@),
            n == fields@.len(),
            i <= n,
            out@ == base + spec_fields_block(fv.take(i as int)),
        decreases n - i,
    {
        out.append("    pub ");
        out.append(fields[i].name.as_str());
        out.append(": ");
        out.append(fields[i].type_str.as_str());
        out.append(",\n");
        proof {
            assert(fv.take(i as int + 1).drop_last() =~= fv.take(i as int));
            assert(fv.take(i as int + 1).last() == fv[i as int]);
            assert(out@ =~= base + spec_fields_block(fv.take(i as int + 1)));
        }
        i = i + 1;
    }
    proof {
        assert(fv.take(n as int) =~= fv);
    }
}

/// The header and read-only part of a generated table-access module.
pub open spec fn spec_crud_read_part(
    t: Seq<char>,
    s: Seq<char>,
    fields: Seq<(Seq<char>, Seq<char>)>,
) -> Seq<char> {
    "use serde::{Deserialize, Serialize};\nuse surrealdb::{sql::Thing, Connection, Result, Surreal};\n\n#[derive(Debug, Clone, PartialEq, Serialize, Deserialize)]\npub struct "@
        + s + " {\n"@ + spec_fields_block(fields) + "}\n\npub async fn get_all_"@ + t
        + "<C: Connection>(db: &'_ Surreal<C>) -> Result<Vec<"@ + s
        + ">> {\n    let result = db.select(\""@ + t
        + "\").await?;\n    Ok(result)\n}\n\npub async fn get_"@ + t
        + "<C: Connection>(db: &'_ Surreal<C>, id: &str) -> Result<"@ + s
        + "> {\n    let result = db.select((\""@ + t
        + "\", id)).await?;\n    Ok(result)\n}\n\npub async fn find_"@ + t
        + "<C: Connection>(db: &'_ Surreal<C>, id: &str) -> Result<Option<"@ + s
        + ">> {\n    let result = db.select((\""@ + t + "\", id)).await?;\n    Ok(result)\n}"@
}

/// The mutating part of a generated table-access module, left out for
/// the migration bookkeeping table.
pub open spec fn spec_crud_mutating_part(t: Seq<char>, s: Seq<char>) -> Seq<char> {
    "\n\npub async fn create_"@ + t + "<C: Connection>(db: &'_ Surreal<C>, data: "@ + s
        + ") -> Result<"@ + s + "> {\n    let result = db.create(\""@ + t
        + "\").content(data).await?;\n    Ok(result)\n}\n\npub async fn update_"@ + t
        + "<C: Connection>(db: &'_ Surreal<C>, id: &str, data: "@ + s + ") -> Result<Option<"@ + s
        + ">> {\n    let result = db.update((\""@ + t
        + "\", id)).content(data).await?;\n    Ok(result)\n}\n\npub async fn delete_all_"@ + t
        + "<C: Connection>(db: &'_ Surreal<C>) -> Result<Vec<"@ + s
        + ">> {\n    let result = db.delete(\""@ + t
        + "\").await?;\n    Ok(result)\n}\n\npub async fn delete_"@ + t
        + "<C: Connection>(db: &'_ Surreal<C>, id: &str) -> Result<Option<"@ + s
        + ">> {\n    let result = db.delete((\""@ + t + "\", id)).await?;\n    Ok(result)\n}"@
}

/// The full text of a generated table-access module.
pub open spec fn spec_crud_text(
    t: Seq<char>,
    s: Seq<char>,
    fields: Seq<(Seq<char>, Seq<char>)>,
) -> Seq<char> {
    spec_crud_read_part(t, s, fields) + if t == "script_migration"@ {
        Seq::<char>::empty()
    } else {
        spec_crud_mutating_part(t, s)
    }
}

/// Render the table-access module for one table.
#[verifier::rlimit(100)]
pub fn generate_from_crud_template(
    table_name: &str,
    struct_name: &str,
    struct_fields: &Vec<StructField>,
) -> (r: Result<String, GenerateError>)
    ensures
        r is Ok,
        r->Ok_0@ == spec_crud_text(table_name@, struct_name@, view_sfields(struct_fields@)),
{
    let mut out = String::from_str(
        "use serde::{Deserialize, Serialize};\nuse surrealdb::{sql::Thing, Connection, Result, Surreal};\n\n#[derive(Debug, Clone, PartialEq, Serialize, Deserialize)]\npub struct ",
    );
    out.append(struct_name);
    out.append(" {\n");
    append_fields_block(&mut out, struct_fields);
    out.append("}\n\npub async fn get_all_");
    out.append(table_name);
    out.append("<C: Connection>(db: &'_ Surreal<C>) -> Result<Vec<");
    out.append(struct_name);
    out.append(">> {\n    let result = db.select(\"");
    out.append(table_name);
    out.append("\").await?;\n    Ok(result)\n}\n\npub async fn get_");
    out.append(table_name);
    out.append("<C: Connection>(db: &'_ Surreal<C>, id: &str) -> Result<");
    out.append(struct_name);
    out.append("> {\n    let result = db.select((\"");
    out.append(table_name);
    out.append("\", id)).await?;\n    Ok(result)\n}\n\npub async fn find_");
    out.append(table_name);
    out.append("<C: Connection>(db: &'_ Surreal<C>, id: &str) -> Result<Option<");
    out.append(struct_name);
    out.append(">> {\n    let result = db.select((\"");
    out.append(table_name);
    out.append("\", id)).await?;\n    Ok(result)\n}");
    proof {
        assert(out@ =~= spec_crud_read_part(
            table_name@,
            struct_name@,
            view_sfields(struct_fields@),
        ));
    }
    if !str_eq(table_name, "script_migration") {
        out.append("\n\npub async fn create_");
        out.append(table_name);
        out.append("<C: Connection>(db: &'_ Surreal<C>, data: ");
        out.append(struct_name);
        out.append(") -> Result<");
        out.append(struct_name);
        out.append("> {\n    let result = db.create(\"");
        out.append(table_name);
        out.append("\").content(data).await?;\n    Ok(result)\n}\n\npub async fn update_");
        out.append(table_name);
        out.append("<C: Connection>(db: &'_ Surreal<C>, id: &str, data: ");
        out.append(struct_name);
        out.append(") -> Result<Option<");
        out.append(struct_name);
        out.append(">> {\n    let result = db.update((\"");
        out.append(table_name);
        out.append("\", id)).content(data).await?;\n    Ok(result)\n}\n\npub async fn delete_all_");
        out.append(table_name);
        out.append("<C: Connection>(db: &'_ Surreal<C>) -> Result<Vec<");
        out.append(struct_name);
        out.append(">> {\n    let result = db.delete(\"");
        out.append(table_name);
        out.append("\").await?;\n    Ok(result)\n}\n\npub async fn delete_");
        out.append(table_name);
        out.append("<C: Connection>(db: &'_ Surreal<C>, id: &str) -> Result<Option<");
        out.append(struct_name);
        out.append(">> {\n    let result = db.delete((\"");
        out.append(table_name);
        out.append("\", id)).await?;\n    Ok(result)\n}");
        proof {
            assert(out@ =~= spec_crud_read_part(
                table_name@,
                struct_name@,
                view_sfields(struct_fields@),
            ) + spec_crud_mutating_part(table_name@, struct_name@));
        }
    } else {
        proof {
            assert(out@ =~= spec_crud_text(
                table_name@,
                struct_name@,
                view_sfields(struct_fields@),
            ));
        }
    }
    Ok(out)
}

/// The full text of a generated event module.
pub open spec fn spec_event_text(
    f: Seq<char>,
    t: Seq<char>,
    s: Seq<char>,
    fields: Seq<(Seq<char>, Seq<char>)>,
) -> Seq<char> {
    "use serde::{Deserialize, Serialize};\nuse surrealdb::{sql::Thing, Connection, Result, Surreal};\n\n#[derive(Debug, Clone, PartialEq, Serialize, Deserialize)]\npub struct "@
        + s + " {\n"@ + spec_fields_block(fields) + "}\n\npub async fn "@ + f
        + "<C: Connection>(db: &'_ Surreal<C>, data: "@ + s + ") -> Result<"@ + s
        + "> {\n    let record: "@ + s + " = db.create(\""@ + t
        + "\").content(data).await?;\n    Ok(record)\n}"@
}

/// Render the module for one reactive event.
pub fn generate_from_event_template(
    func_name: &str,
    table_name: &str,
    struct_name: &str,
    struct_fields: &Vec<StructField>,
) -> (r: Result<String, GenerateError>)
    ensures
        r is Ok,
        r->Ok_0@ == spec_event_text(
            func_name@,
            table_name@,
            struct_name@,
            view_sfields(struct_fields@),
        ),
{
    let mut out = String::from_str(
        "use serde::{Deserialize, Serialize};\nuse surrealdb::{sql::Thing, Connection, Result, Surreal};\n\n#[derive(Debug, Clone, PartialEq, Serialize, Deserialize)]\npub struct ",
    );
    out.append(struct_name);
    out.append(" {\n");
    append_fields_block(&mut out, struct_fields);
    out.append("}\n\npub async fn ");
    out.append(func_name);
    out.append("<C: Connection>(db: &'_ Surreal<C>, data: ");
    out.append(struct_name);
    out.append(") -> Result<");
    out.append(struct_name);
    out.append("> {\n    let record: ");
    out.append(struct_name);
    out.append(" = db.create(\"");
    out.append(table_name);
    out.append("\").content(data).await?;\n    Ok(record)\n}");
    proof {
        assert(out@ =~= spec_event_text(
            func_name@,
            table_name@,
            struct_name@,
            view_sfields(struct_fields@),
        ));
    }
    Ok(out)
}

/// The extra parameters of a generated operation, one per declared
/// variable.
pub open spec fn spec_params_block(vars: Seq<(Seq<char>, Seq<char>)>) -> Seq<char>
    decreases vars.len(),
{
    if vars.len() == 0 {
        Seq::empty()
    } else {
        spec_params_block(vars.drop_last()) + ",\n    "@ + vars.last().0 + ": "@ + vars.last().1
    }
}

/// The bind calls of a generated operation, one per declared variable.
pub open spec fn spec_binds_block(vars: Seq<(Seq<char>, Seq<char>)>) -> Seq<char>
    decreases vars.len(),
{
    if vars.len() == 0 {
        Seq::empty()
    } else {
        spec_binds_block(vars.drop_last()) + "\n        .bind((\""@ + vars.last().0 + "\", "@
            + vars.last().0 + "))"@
    }
}

fn append_params_block(out: &mut String, vars: &Vec<QueryVariable>)
    ensures
        final(out)@ == old(out)@ + spec_params_block(view_qvars(vars@)),
{
    let ghost base = out@;
    let ghost vv = view_qvars(vars@);
    let n = vars.len();
    let mut i: usize = 0;
    while i < n
        invariant
            base == old(out)@,
            vv == view_qvars(vars@),
            n == vars@.len(),
            i <= n,
            out@ == base + spec_params_block(vv.take(i as int)),
        decreases n - i,
    {
        out.append(",\n    ");
        out.append(vars[i].name.as_str());
        out.append(": ");
        out.append(vars[i].type_.as_str());
        proof {
            assert(vv.take(i as int + 1).drop_last() =~= vv.take(i as int));
            assert(vv.take(i as int + 1).last() == vv[i as int]);
            assert(out@ =~= base + spec_params_block(vv.take(i as int + 1)));
        }
        i = i + 1;
    }
    proof {
        assert(vv.take(n as int) =~= vv);
    }
}

fn append_binds_block(out: &mut String, vars: &Vec<QueryVariable>)
    ensures
        final(out)@ == old(out)@ + spec_binds_block(view_qvars(vars@)),
{
    let ghost base = out@;
    let ghost vv = view_qvars(vars@);
    let n = vars.len();
    let mut i: usize = 0;
    while i < n
        invariant
            base == old(out)@,
            vv == view_qvars(vars@),
            n == vars@.len(),
            i <= n,
            out@ == base + spec_binds_block(vv.take(i as int)),
        decreases n - i,
    {
        out.append("\n        .bind((\"");
        out.append(vars[i].name.as_str());
        out.append("\", ");
        out.append(vars[i].name.as_str());
        out.append("))");
        proof {
            assert(vv.take(i as int + 1).drop_last() =~= vv.take(i as int));
            assert(vv.take(i as int + 1).last() == vv[i as int]);
            assert(out@ =~= base + spec_binds_block(vv.take(i as int + 1)));
        }
        i = i + 1;
    }
    proof {
        assert(vv.take(n as int) =~= vv);
    }
}

/// The full text of a generated query module.
pub open spec fn spec_query_text(
    q: Seq<char>,
    vars: Seq<(Seq<char>, Seq<char>)>,
    resp: Seq<char>,
) -> Seq<char> {
    "use surrealdb::{Surreal, Connection, Result};\n\nuse crate::models::queries::"@ + resp
        + ";\n\npub async fn query_"@ + q + "<C: Connection>(\n    db: &'_ Surreal<C>"@
        + spec_params_block(vars) + "\n) -> Result<"@ + resp
        + "> {\n    const QUERY: &str = include_str!(\"../../../queries/"@ + q
        + ".surql\");\n\n    let result: "@ + resp + " = db\n        .query(QUERY)"@
        + spec_binds_block(vars) + "\n        .await?\n        .take(0)?;\n\n    Ok(result)\n}"@
}

/// Render the module for one parameterized query.
pub fn generate_from_query_template(
    file_name: &str,
    variables: &Vec<QueryVariable>,
    response_type: &str,
) -> (r: Result<String, GenerateError>)
    ensures
        r is Ok,
        r->Ok_0@ == spec_query_text(file_name@, view_qvars(variables@), response_type@),
{
    let mut out = String::from_str(
        "use surrealdb::{Surreal, Connection, Result};\n\nuse crate::models::queries::",
    );
    out.append(response_type);
    out.append(";\n\npub async fn query_");
    out.append(file_name);
    out.append("<C: Connection>(\n    db: &'_ Surreal<C>");
    append_params_block(&mut out, variables);
    out.append("\n) -> Result<");
    out.append(response_type);
    out.append("> {\n    const QUERY: &str = include_str!(\"../../../queries/");
    out.append(file_name);
    out.append(".surql\");\n\n    let result: ");
    out.append(response_type);
    out.append(" = db\n        .query(QUERY)");
    append_binds_block(&mut out, variables);
    out.append("\n        .await?\n        .take(0)?;\n\n    Ok(result)\n}");
    proof {
        assert(out@ =~= spec_query_text(file_name@, view_qvars(variables@), response_type@));
    }
    Ok(out)
}

/// The full text of a generated mutation module.
pub open spec fn spec_mutation_text(
    q: Seq<char>,
    vars: Seq<(Seq<char>, Seq<char>)>,
    resp: Seq<char>,
) -> Seq<char> {
    "use surrealdb::{Surreal, Connection, Result};\n\nuse crate::models::mutations::"@ + resp
        + ";\n\npub async fn mutate_"@ + q + "<C: Connection>(\n    db: &'_ Surreal<C>"@
        + spec_params_block(vars) + "\n) -> Result<"@ + resp
        + "> {\n    const QUERY: &str = include_str!(\"../../../mutations/"@ + q
        + ".surql\");\n\n    let result: "@ + resp + " = db\n        .query(QUERY)"@
        + spec_binds_block(vars) + "\n        .await?\n        .take(0)?;\n\n    Ok(result)\n}"@
}

/// Render the module for one parameterized mutation.
pub fn generate_from_mutation_template(
    file_name: &str,
    variables: &Vec<QueryVariable>,
    response_type: &str,
) -> (r: Result<String, GenerateError>)
    ensures
        r is Ok,
        r->Ok_0@ == spec_mutation_text(file_name@, view_qvars(variables@), response_type@),
{
    let mut out = String::from_str(
        "use surrealdb::{Surreal, Connection, Result};\n\nuse crate::models::mutations::",
    );
    out.append(response_type);
    out.append(";\n\npub async fn mutate_");
    out.append(file_name);
    out.append("<C: Connection>(\n    db: &'_ Surreal<C>");
    append_params_block(&mut out, variables);
    out.append("\n) -> Result<");
    out.append(response_type);
    out.append("> {\n    const QUERY: &str = include_str!(\"../../../mutations/");
    out.append(file_name);
    out.append(".surql\");\n\n    let result: ");
    out.append(response_type);
    out.append(" = db\n        .query(QUERY)");
    append_binds_block(&mut out, variables);
    out.append("\n        .await?\n        .take(0)?;\n\n    Ok(result)\n}");
    proof {
        assert(out@ =~= spec_mutation_text(file_name@, view_qvars(variables@), response_type@));
    }
    Ok(out)
}

/// The index lines for a set of generated modules: one re-export per
/// module name, joined by line breaks.
pub open spec fn spec_mod_lines(names: Seq<Seq<char>>) -> Seq<char>
    decreases names.len(),
{
    if names.len() == 0 {
        Seq::empty()
    } else if names.len() == 1 {
        "pub mod "@ + names.last() + ";"@
    } else {
        spec_mod_lines(names.drop_last()) + "\npub mod "@ + names.last() + ";"@
    }
}

/// Render an index file enumerating the given module names.
pub fn render_mod_lines(names: &Vec<String>) -> (r: String)
    ensures
        r@ == spec_mod_lines(crate::strutil::view_strings(names@)),
{
    let ghost nv = crate::strutil::view_strings(names@);
    let mut out = String::new();
    let n = names.len();
    let mut i: usize = 0;
    while i < n
        invariant
            nv == names@.map_values(|s: String| s@),
            n == names@.len(),
            i <= n,
            out@ == spec_mod_lines(nv.take(i as int)),
        decreases n - i,
    {
        if i > 0 {
            out.append("\npub mod ");
        } else {
            out.append("pub mod ");
        }
        out.append(names[i].as_str());
        out.append(";");
        proof {
            assert(nv.take(i as int + 1).drop_last() =~= nv.take(i as int));
            assert(nv.take(i as int + 1).last() == nv[i as int]);
            assert(out@ =~= spec_mod_lines(nv.take(i as int + 1)));
        }
        i = i + 1;
    }
    proof {
        assert(nv.take(n as int) =~= nv);
    }
    out
}

/// The fixed body of a generated view component, around its name.
pub open spec fn spec_component_text(name: Seq<char>) -> Seq<char> {
    "use leptos::*;\n\n#[component]\npub fn "@ + name
        + "(cx: Scope) -> impl IntoView {\n    let (count, set_count) = create_signal(cx, 0);\n    let on_click = move |_| set_count.update(|count| *count += 1);\n\n    view! { cx,\n        <button type=\"button\" on:click=on_click>\n            {count}\n        </button>\n    }\n}"@
}

/// Render a view component with the given (already cased) name.
pub fn render_component_text(name: &str) -> (r: String)
    ensures
        r@ == spec_component_text(name@),
{
    let mut out = String::from_str("use leptos::*;\n\n#[component]\npub fn ");
    out.append(name);
    out.append(
        "(cx: Scope) -> impl IntoView {\n    let (count, set_count) = create_signal(cx, 0);\n    let on_click = move |_| set_count.update(|count| *count += 1);\n\n    view! { cx,\n        <button type=\"button\" on:click=on_click>\n            {count}\n        </button>\n    }\n}",
    );
    proof {
        assert(out@ =~= spec_component_text(name@));
    }
    out
}

} // verus!
