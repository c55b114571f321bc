use vstd::prelude::*;
use vstd::string::StringExecFns;

use crate::casing::{pascal_of, snake_of, to_pascal_case, to_snake_case};
use crate::cli::GenerateEndpointFromSchemaMethod;
use crate::common::{extract_query_variables, spec_annotations, view_qvars, QueryVariable};
use crate::error::{view_gen_error, GenerateError, GenerateErrorV};
use crate::strutil::{str_chars, chars_to_string};

verus! {

/// What the caller asks a new endpoint to be generated from.
pub struct GenerateEndpointArgs {
    pub name: String,
    pub from_query: Option<String>,
    pub from_mutation: Option<String>,
    pub from_event: Option<String>,
    pub from_schema: Option<String>,
    pub method: Option<GenerateEndpointFromSchemaMethod>,
}

/// The per-source data an endpoint template is rendered from.
pub struct DetailsForEndpoint {
    pub name: String,
    pub short_name: String,
    pub data_type: Option<String>,
    pub output_type: String,
    pub params: Vec<QueryVariable>,
}

/// The mathematical shape of a `DetailsForEndpoint`.
pub struct DetailsV {
    pub name: Seq<char>,
    pub short_name: Seq<char>,
    pub data_type: Option<Seq<char>>,
    pub output_type: Seq<char>,
    pub params: Seq<(Seq<char>, Seq<char>)>,
}

pub open spec fn view_details(d: DetailsForEndpoint) -> DetailsV {
    DetailsV {
        name: d.name@,
        short_name: d.short_name@,
        data_type: match d.data_type {
            Some(t) => Some(t@),
            None => None,
        },
        output_type: d.output_type@,
        params: view_qvars(d.params@),
    }
}

pub open spec fn spec_ends_with(s: Seq<char>, suffix: Seq<char>) -> bool {
    s.len() >= suffix.len() && s.skip(s.len() - suffix.len()) == suffix
}

/// Every occurrence of a pattern removed, scanning left to right over
/// non-overlapping matches.
pub open spec fn spec_remove_all(s: Seq<char>, pat: Seq<char>) -> Seq<char>
    decreases s.len(),
{
    if pat.len() == 0 || s.len() < pat.len() {
        s
    } else if s.take(pat.len() as int) == pat {
        spec_remove_all(s.skip(pat.len() as int), pat)
    } else {
        seq![s[0]] + spec_remove_all(s.drop_first(), pat)
    }
}

/// The canonical operation name of a source argument: a `.rs` or
/// `.surql` suffix marks a file name, and every occurrence of that
/// suffix is removed, as the standard replace does.
pub open spec fn spec_query_name(s: Seq<char>) -> Seq<char> {
    if spec_ends_with(s, ".rs"@) {
        spec_remove_all(s, ".rs"@)
    } else if spec_ends_with(s, ".surql"@) {
        spec_remove_all(s, ".surql"@)
    } else {
        s
    }
}

fn window_matches(s: &Vec<char>, at: usize, pat: &Vec<char>) -> (r: bool)
    requires
        at + pat@.len() <= s@.len(),
    ensures
        r == (s@.subrange(at as int, at as int + pat@.len() as int) == pat@),
{
    let n = s.len();
    let plen = pat.len();
    let mut k: usize = 0;
    while k < plen
        invariant
            n == s@.len(),
            at + plen <= n,
            plen == pat@.len(),
            k <= plen,
            forall|j: int| 0 <= j < k ==> s@[at + j] == pat@[j],
        decreases plen - k,
    {
        if s[at + k] != pat[k] {
            proof {
                assert(s@.subrange(at as int, at as int + plen as int)[k as int] != pat@[
                    k as int
                ]);
            }
            return false;
        }
        k = k + 1;
    }
    proof {
        assert(s@.subrange(at as int, at as int + plen as int) =~= pat@);
    }
    true
}

fn remove_all_occurrences(s: &Vec<char>, pat: &Vec<char>) -> (r: Vec<char>)
    requires
        pat@.len() > 0,
    ensures
        r@ == spec_remove_all(s@, pat@),
{
    let n = s.len();
    let plen = pat.len();
    let mut out: Vec<char> = Vec::new();
    proof {
        assert(s@.skip(0) =~= s@);
        assert(out@ + spec_remove_all(s@, pat@) =~= spec_remove_all(s@, pat@));
    }
    let mut i: usize = 0;
    while i < n
        invariant
            n == s@.len(),
            plen == pat@.len(),
            plen > 0,
            i <= n,
            out@ + spec_remove_all(s@.skip(i as int), pat@) == spec_remove_all(s@, pat@),
        decreases n - i,
    {
        let ghost suffix = s@.skip(i as int);
        if plen <= n - i && window_matches(s, i, pat) {
            proof {
                assert(suffix.take(plen as int) =~= s@.subrange(i as int, i as int + plen as int));
                assert(suffix.skip(plen as int) =~= s@.skip(i as int + plen as int));
            }
            i = i + plen;
        } else {
            proof {
                if plen <= n - i {
                    assert(suffix.take(plen as int) =~= s@.subrange(
                        i as int,
                        i as int + plen as int,
                    ));
                } else {
                    assert(suffix.len() < plen);
                    assert(s@.skip(i as int + 1).len() < plen);
                    assert(spec_remove_all(s@.skip(i as int + 1), pat@) == s@.skip(i as int + 1));
                }
                assert(suffix.drop_first() =~= s@.skip(i as int + 1));
                assert(suffix[0] == s@[i as int]);
                assert(spec_remove_all(suffix, pat@) =~= seq![s@[i as int]] + spec_remove_all(
                    s@.skip(i as int + 1),
                    pat@,
                ));
            }
            let ghost pre = out@;
            out.push(s[i]);
            proof {
                assert(out@ + spec_remove_all(s@.skip(i as int + 1), pat@) =~= pre + (seq![
                    s@[i as int],
                ] + spec_remove_all(s@.skip(i as int + 1), pat@)));
            }
            i = i + 1;
        }
    }
    proof {
        assert(s@.skip(n as int) =~= Seq::<char>::empty());
        assert(out@ + spec_remove_all(s@.skip(n as int), pat@) =~= out@);
    }
    out
}

fn str_ends_with(s: &Vec<char>, suffix: &Vec<char>) -> (r: bool)
    ensures
        r == spec_ends_with(s@, suffix@),
{
    let n = s.len();
    let m = suffix.len();
    if n < m {
        return false;
    }
    let r = window_matches(s, n - m, suffix);
    proof {
        assert(s@.subrange(n - m, n as int) =~= s@.skip(n - m));
    }
    r
}

/// Strip a `.rs` or `.surql` file suffix off a source argument.
pub fn get_query_name(from: &str) -> (r: String)
    ensures
        r@ == spec_query_name(from@),
{
    let chars = str_chars(from);
    let rs = str_chars(".rs");
    let surql = str_chars(".surql");
    proof {
        reveal_strlit(".rs");
        reveal_strlit(".surql");
    }
    if str_ends_with(&chars, &rs) {
        let out = remove_all_occurrences(&chars, &rs);
        chars_to_string(&out)
    } else if str_ends_with(&chars, &surql) {
        let out = remove_all_occurrences(&chars, &surql);
        chars_to_string(&out)
    } else {
        chars_to_string(&chars)
    }
}

pub open spec fn spec_method_prefix(method: GenerateEndpointFromSchemaMethod) -> Seq<char> {
    match method {
        GenerateEndpointFromSchemaMethod::List => "list"@,
        GenerateEndpointFromSchemaMethod::Get => "get"@,
        GenerateEndpointFromSchemaMethod::Find => "find"@,
        GenerateEndpointFromSchemaMethod::Create => "create"@,
        GenerateEndpointFromSchemaMethod::Update => "update"@,
        GenerateEndpointFromSchemaMethod::Delete => "delete"@,
        GenerateEndpointFromSchemaMethod::DeleteAll => "delete_all"@,
    }
}

/// The short name of a schema access method.
pub fn get_method_prefix(method: GenerateEndpointFromSchemaMethod) -> (r: &'static str)
    ensures
        r@ == spec_method_prefix(method),
{
    match method {
        GenerateEndpointFromSchemaMethod::List => "list",
        GenerateEndpointFromSchemaMethod::Get => "get",
        GenerateEndpointFromSchemaMethod::Find => "find",
        GenerateEndpointFromSchemaMethod::Create => "create",
        GenerateEndpointFromSchemaMethod::Update => "update",
        GenerateEndpointFromSchemaMethod::Delete => "delete",
        GenerateEndpointFromSchemaMethod::DeleteAll => "delete_all",
    }
}

/// The rendering data for an endpoint wrapping one query.
pub open spec fn spec_query_details(qn: Seq<char>, text: Seq<char>) -> DetailsV {
    DetailsV {
        name: snake_of("query-"@ + qn),
        short_name: snake_of(qn),
        data_type: None,
        output_type: pascal_of(qn + "-query"@),
        params: spec_annotations(text),
    }
}

/// The rendering data for an endpoint wrapping one mutation.
pub open spec fn spec_mutation_details(mn: Seq<char>, text: Seq<char>) -> DetailsV {
    DetailsV {
        name: snake_of("mutate-"@ + mn),
        short_name: snake_of(mn),
        data_type: None,
        output_type: pascal_of(mn + "-mutation"@),
        params: spec_annotations(text),
    }
}

/// The rendering data for an endpoint wrapping one event.
pub open spec fn spec_event_details(en: Seq<char>) -> DetailsV {
    DetailsV {
        name: snake_of(en),
        short_name: snake_of(en),
        data_type: Some(pascal_of(en + "-data"@)),
        output_type: "()"@,
        params: seq![("data"@, pascal_of(en + "-data"@))],
    }
}

/// The rendering data for an endpoint wrapping one table-access method.
pub open spec fn spec_schema_details(
    sn: Seq<char>,
    method: GenerateEndpointFromSchemaMethod,
) -> DetailsV {
    let st = pascal_of(sn);
    let short = snake_of(sn);
    DetailsV {
        name: match method {
            GenerateEndpointFromSchemaMethod::List => "get_all_"@ + short,
            GenerateEndpointFromSchemaMethod::Get => "get_"@ + short,
            GenerateEndpointFromSchemaMethod::Find => "find_"@ + short,
            GenerateEndpointFromSchemaMethod::Create => "create_"@ + short,
            GenerateEndpointFromSchemaMethod::Update => "update_"@ + short,
            GenerateEndpointFromSchemaMethod::Delete => "delete_"@ + short,
            GenerateEndpointFromSchemaMethod::DeleteAll => "delete_all_"@ + short,
        },
        short_name: short,
        data_type: None,
        output_type: match method {
            GenerateEndpointFromSchemaMethod::List => "Vec<"@ + st + ">"@,
            GenerateEndpointFromSchemaMethod::Find => "Option<"@ + st + ">"@,
            GenerateEndpointFromSchemaMethod::DeleteAll => "Vec<"@ + st + ">"@,
            _ => st,
        },
        params: match method {
            GenerateEndpointFromSchemaMethod::Get => seq![("id"@, "&'static str"@)],
            GenerateEndpointFromSchemaMethod::Find => seq![("id"@, "&'static str"@)],
            GenerateEndpointFromSchemaMethod::Create => seq![("data"@, st)],
            GenerateEndpointFromSchemaMethod::Update => seq![("data"@, st)],
            GenerateEndpointFromSchemaMethod::Delete => seq![("data"@, st)],
            _ => Seq::empty(),
        },
    }
}

/// Resolve the data for a query-backed endpoint.  `file_text` carries
/// the content of the query file, or nothing where no such file exists.
pub fn get_query_details_for_endpoint(
    from_query: &Option<String>,
    file_text: &Option<String>,
) -> (r: Result<Option<DetailsForEndpoint>, GenerateError>)
    ensures
        match *from_query {
            None => r is Ok && r->Ok_0 is None,
            Some(fq) => {
                let qn = spec_query_name(fq@);
                match *file_text {
                    None => r is Err && view_gen_error(r->Err_0)
                        == GenerateErrorV::QueryDoesNotExist(qn + ".surql"@),
                    Some(text) => r is Ok && r->Ok_0 is Some && view_details(r->Ok_0->0)
                        == spec_query_details(qn, text@),
                }
            },
        },
{
    match from_query {
        None => Ok(None),
        Some(fq) => {
            let qn = get_query_name(fq.as_str());
            match file_text {
                None => {
                    let mut file_name = qn;
                    file_name.append(".surql");
                    Err(GenerateError::QueryDoesNotExist(file_name))
                },
                Some(text) => {
                    let params = match extract_query_variables(text.as_str()) {
                        Ok(v) => v,
                        Err(e) => {
                            return Err(e);
                        },
                    };
                    let mut long_name = String::from_str("query-");
                    long_name.append(qn.as_str());
                    let mut ot_base = String::from_str(qn.as_str());
                    ot_base.append("-query");
                    Ok(
                        Some(
                            DetailsForEndpoint {
                                name: to_snake_case(long_name.as_str()),
                                short_name: to_snake_case(qn.as_str()),
                                data_type: None,
                                output_type: to_pascal_case(ot_base.as_str()),
                                params,
                            },
                        ),
                    )
                },
            }
        },
    }
}

/// Resolve the data for a mutation-backed endpoint.
pub fn get_mutation_details_for_endpoint(
    from_mutation: &Option<String>,
    file_text: &Option<String>,
) -> (r: Result<Option<DetailsForEndpoint>, GenerateError>)
    ensures
        match *from_mutation {
            None => r is Ok && r->Ok_0 is None,
            Some(fm) => {
                let mn = spec_query_name(fm@);
                match *file_text {
                    None => r is Err && view_gen_error(r->Err_0)
                        == GenerateErrorV::MutationDoesNotExist(mn + ".surql"@),
                    Some(text) => r is Ok && r->Ok_0 is Some && view_details(r->Ok_0->0)
                        == spec_mutation_details(mn, text@),
                }
            },
        },
{
    match from_mutation {
        None => Ok(None),
        Some(fm) => {
            let mn = get_query_name(fm.as_str());
            match file_text {
                None => {
                    let mut file_name = mn;
                    file_name.append(".surql");
                    Err(GenerateError::MutationDoesNotExist(file_name))
                },
                Some(text) => {
                    let params = match extract_query_variables(text.as_str()) {
                        Ok(v) => v,
                        Err(e) => {
                            return Err(e);
                        },
                    };
                    let mut long_name = String::from_str("mutate-");
                    long_name.append(mn.as_str());
                    let mut ot_base = String::from_str(mn.as_str());
                    ot_base.append("-mutation");
                    Ok(
                        Some(
                            DetailsForEndpoint {
                                name: to_snake_case(long_name.as_str()),
                                short_name: to_snake_case(mn.as_str()),
                                data_type: None,
                                output_type: to_pascal_case(ot_base.as_str()),
                                params,
                            },
                        ),
                    )
                },
            }
        },
    }
}

/// Resolve the data for an event-backed endpoint.  `file_exists` says
/// whether the event file is present; its content is not needed.
pub fn get_event_details_for_endpoint(from_event: &Option<String>, file_exists: bool) -> (r:
    Result<Option<DetailsForEndpoint>, GenerateError>)
    ensures
        match *from_event {
            None => r is Ok && r->Ok_0 is None,
            Some(fe) => {
                let en = spec_query_name(fe@);
                if !file_exists {
                    r is Err && view_gen_error(r->Err_0) == GenerateErrorV::EventDoesNotExist(
                        en + ".surql"@,
                    )
                } else {
                    r is Ok && r->Ok_0 is Some && view_details(r->Ok_0->0) == spec_event_details(
                        en,
                    )
                }
            },
        },
{
    match from_event {
        None => Ok(None),
        Some(fe) => {
            let en = get_query_name(fe.as_str());
            if !file_exists {
                let mut file_name = en;
                file_name.append(".surql");
                Err(GenerateError::EventDoesNotExist(file_name))
            } else {
                let mut dt_base = String::from_str(en.as_str());
                dt_base.append("-data");
                let data_type = to_pascal_case(dt_base.as_str());
                let mut params: Vec<QueryVariable> = Vec::new();
                params.push(
                    QueryVariable { name: String::from_str("data"), type_: data_type.clone() },
                );
                proof {
                    assert(view_qvars(params@) =~= seq![
                        ("data"@, pascal_of(en@ + "-data"@)),
                    ]);
                }
                Ok(
                    Some(
                        DetailsForEndpoint {
                            name: to_snake_case(en.as_str()),
                            short_name: to_snake_case(en.as_str()),
                            data_type: Some(data_type),
                            output_type: String::from_str("()"),
                            params,
                        },
                    ),
                )
            }
        },
    }
}

/// Resolve the data for a schema-backed endpoint.  `file_exists` says
/// whether the schema file is present; its content is not needed.
pub fn get_schema_details_for_endpoint(
    from_schema: &Option<String>,
    method: GenerateEndpointFromSchemaMethod,
    file_exists: bool,
) -> (r: Result<Option<DetailsForEndpoint>, GenerateError>)
    ensures
        match *from_schema {
            None => r is Ok && r->Ok_0 is None,
            Some(fs) => {
                let sn = spec_query_name(fs@);
                if !file_exists {
                    r is Err && view_gen_error(r->Err_0) == GenerateErrorV::SchemaDoesNotExist(
                        sn + ".surql"@,
                    )
                } else {
                    r is Ok && r->Ok_0 is Some && view_details(r->Ok_0->0) == spec_schema_details(
                        sn,
                        method,
                    )
                }
            },
        },
{
    match from_schema {
        None => Ok(None),
        Some(fs) => {
            let sn = get_query_name(fs.as_str());
            if !file_exists {
                let mut file_name = sn;
                file_name.append(".surql");
                Err(GenerateError::SchemaDoesNotExist(file_name))
            } else {
                let schema_type = to_pascal_case(sn.as_str());
                let short_name = to_snake_case(sn.as_str());
                let output_type = match method {
                    GenerateEndpointFromSchemaMethod::List => {
                        let mut t = String::from_str("Vec<");
                        t.append(schema_type.as_str());
                        t.append(">");
                        t
                    },
                    GenerateEndpointFromSchemaMethod::Find => {
                        let mut t = String::from_str("Option<");
                        t.append(schema_type.as_str());
                        t.append(">");
                        t
                    },
                    GenerateEndpointFromSchemaMethod::DeleteAll => {
                        let mut t = String::from_str("Vec<");
                        t.append(schema_type.as_str());
                        t.append(">");
                        t
                    },
                    _ => schema_type.clone(),
                };
                let mut inner_name = match method {
                    GenerateEndpointFromSchemaMethod::List => String::from_str("get_all_"),
                    GenerateEndpointFromSchemaMethod::Get => String::from_str("get_"),
                    GenerateEndpointFromSchemaMethod::Find => String::from_str("find_"),
                    GenerateEndpointFromSchemaMethod::Create => String::from_str("create_"),
                    GenerateEndpointFromSchemaMethod::Update => String::from_str("update_"),
                    GenerateEndpointFromSchemaMethod::Delete => String::from_str("delete_"),
                    GenerateEndpointFromSchemaMethod::DeleteAll => String::from_str("delete_all_"),
                };
                inner_name.append(short_name.as_str());
                let mut params: Vec<QueryVariable> = Vec::new();
                match method {
                    GenerateEndpointFromSchemaMethod::Get => {
                        params.push(
                            QueryVariable {
                                name: String::from_str("id"),
                                type_: String::from_str("&'static str"),
                            },
                        );
                    },
                    GenerateEndpointFromSchemaMethod::Find => {
                        params.push(
                            QueryVariable {
                                name: String::from_str("id"),
                                type_: String::from_str("&'static str"),
                            },
                        );
                    },
                    GenerateEndpointFromSchemaMethod::Create => {
                        params.push(
                            QueryVariable {
                                name: String::from_str("data"),
                                type_: schema_type.clone(),
                            },
                        );
                    },
                    GenerateEndpointFromSchemaMethod::Update => {
                        params.push(
                            QueryVariable {
                                name: String::from_str("data"),
                                type_: schema_type.clone(),
                            },
                        );
                    },
                    GenerateEndpointFromSchemaMethod::Delete => {
                        params.push(
                            QueryVariable {
                                name: String::from_str("data"),
                                type_: schema_type.clone(),
                            },
                        );
                    },
                    _ => {},
                }
                proof {
                    assert(view_qvars(params@) =~= spec_schema_details(sn@, method).params);
                }
                Ok(
                    Some(
                        DetailsForEndpoint {
                            name: inner_name,
                            short_name,
                            data_type: None,
                            output_type,
                            params,
                        },
                    ),
                )
            }
        },
    }
}

/// The parameter list of a generated endpoint signature: empty
/// parentheses, or one indented line per parameter.
pub open spec fn spec_sig_params_items(params: Seq<(Seq<char>, Seq<char>)>) -> Seq<char>
    decreases params.len(),
{
    if params.len() == 0 {
        Seq::empty()
    } else {
        spec_sig_params_items(params.drop_last()) + "    "@ + params.last().0 + ": "@
            + params.last().1 + ",\n"@
    }
}

pub open spec fn spec_sig_params(params: Seq<(Seq<char>, Seq<char>)>) -> Seq<char> {
    if params.len() == 0 {
        "()"@
    } else {
        "(\n"@ + spec_sig_params_items(params) + ")"@
    }
}

/// The extra arguments of the inner call, one per parameter.
pub open spec fn spec_call_args(params: Seq<(Seq<char>, Seq<char>)>) -> Seq<char>
    decreases params.len(),
{
    if params.len() == 0 {
        Seq::empty()
    } else {
        spec_call_args(params.drop_last()) + ", "@ + params.last().0
    }
}

fn append_sig_params(out: &mut String, params: &Vec<QueryVariable>)
    ensures
        final(out)@ == old(out)@ + spec_sig_params(view_qvars(params@)),
{
    let ghost base = out@;
    let ghost pv = view_qvars(params@);
    let n = params.len();
    if n == 0 {
        out.append("()");
        return ;
    }
    out.append("(\n");
    let mut i: usize = 0;
    while i < n
        invariant
            base == old(out)@,
            pv == view_qvars(params@),
            n == params@.len(),
            n > 0,
            i <= n,
            out@ == base + "(\n"@ + spec_sig_params_items(pv.take(i as int)),
        decreases n - i,
    {
        out.append("    ");
        out.append(params[i].name.as_str());
        out.append(": ");
        out.append(params[i].type_.as_str());
        out.append(",\n");
        proof {
            assert(pv.take(i as int + 1).drop_last() =~= pv.take(i as int));
            assert(pv.take(i as int + 1).last() == pv[i as int]);
            assert(out@ =~= base + "(\n"@ + spec_sig_params_items(pv.take(i as int + 1)));
        }
        i = i + 1;
    }
    out.append(")");
    proof {
        assert(pv.take(n as int) =~= pv);
        assert(out@ =~= base + spec_sig_params(pv));
    }
}

fn append_call_args(out: &mut String, params: &Vec<QueryVariable>)
    ensures
        final(out)@ == old(out)@ + spec_call_args(view_qvars(params@)),
{
    let ghost base = out@;
    let ghost pv = view_qvars(params@);
    let n = params.len();
    let mut i: usize = 0;
    while i < n
        invariant
            base == old(out)@,
            pv == view_qvars(params@),
            n == params@.len(),
            i <= n,
            out@ == base + spec_call_args(pv.take(i as int)),
        decreases n - i,
    {
        out.append(", ");
        out.append(params[i].name.as_str());
        proof {
            assert(pv.take(i as int + 1).drop_last() =~= pv.take(i as int));
            assert(pv.take(i as int + 1).last() == pv[i as int]);
            assert(out@ =~= base + spec_call_args(pv.take(i as int + 1)));
        }
        i = i + 1;
    }
    proof {
        assert(pv.take(n as int) =~= pv);
    }
}

/// The fixed connection preamble every non-empty endpoint carries.
pub open spec fn spec_db_connect_text() -> Seq<char> {
    "    let db = Surreal::new::<Ws>(\"localhost:8000\")\n        .await\n        .map_err(|_| ServerFnError::ServerError(\"Cannot open connection to SurrealDB\".to_string()))?;\n\n    db\n        .signin(Root {\n            username: \"root\",\n            password: \"root\",\n        })\n        .await\n        .map_err(|_| ServerFnError::ServerError(\"Cannot signin to SurrealDB\".to_string()))?;\n\n    db\n        .use_ns(\"test\")\n        .use_db(\"test\")\n        .await\n        .map_err(|_| ServerFnError::ServerError(\"Cannot use namespace and database\".to_string()))?;\n\n"@
}

/// The text of an endpoint wired to nothing.
pub open spec fn spec_endpoint_empty_text(ep: Seq<char>, func: Seq<char>) -> Seq<char> {
    "use leptos::*;\n\n#[server("@ + ep + ", \"/api\")]\npub async fn "@ + func
        + "() -> Result<(), ServerFnError> {\n    Ok(())\n}"@
}

/// The text of an endpoint wrapping one query.
pub open spec fn spec_endpoint_query_text(ep: Seq<char>, func: Seq<char>, d: DetailsV) -> Seq<
    char,
> {
    "use leptos::*;\n\nuse crate::models::queries::"@ + d.output_type + ";\n\n#[server("@ + ep
        + ", \"/api\")]\npub async fn "@ + func + spec_sig_params(d.params) + " -> Result<"@
        + d.output_type
        + ", ServerFnError> {\n    use surrealdb::{engine::remote::ws::Ws, Surreal, opt::auth::Root};\n\n    use crate::db::queries::"@
        + d.short_name + "::query_"@ + d.short_name + ";\n\n"@ + spec_db_connect_text()
        + "    let result = query_"@ + d.short_name + "(&db"@ + spec_call_args(d.params)
        + ")\n        .await\n        .map_err(|_| ServerFnError::ServerError(\"Cannot apply query "@
        + d.short_name + "\".to_string()))?;\n\n    Ok(result)\n}"@
}

/// The text of an endpoint wrapping one mutation.
pub open spec fn spec_endpoint_mutation_text(ep: Seq<char>, func: Seq<char>, d: DetailsV) -> Seq<
    char,
> {
    "use leptos::*;\n\nuse crate::models::mutations::"@ + d.output_type + ";\n\n#[server("@ + ep
        + ", \"/api\")]\npub async fn "@ + func + spec_sig_params(d.params) + " -> Result<"@
        + d.output_type
        + ", ServerFnError> {\n    use surrealdb::{engine::remote::ws::Ws, Surreal, opt::auth::Root};\n\n    use crate::db::mutations::"@
        + d.short_name + "::mutate_"@ + d.short_name + ";\n\n"@ + spec_db_connect_text()
        + "    let result = mutate_"@ + d.short_name + "(&db"@ + spec_call_args(d.params)
        + ")\n        .await\n        .map_err(|_| ServerFnError::ServerError(\"Cannot apply mutation "@
        + d.short_name + "\".to_string()))?;\n\n    Ok(result)\n}"@
}

/// The text of an endpoint wrapping one event.
pub open spec fn spec_endpoint_event_text(ep: Seq<char>, func: Seq<char>, d: DetailsV) -> Seq<
    char,
> {
    "use leptos::*;\n\nuse crate::db::events::"@ + d.short_name + "::"@ + d.data_type->0
        + ";\n\n#[server("@ + ep + ", \"/api\")]\npub async fn "@ + func + spec_sig_params(
        d.params,
    ) + " -> Result<"@ + d.output_type
        + ", ServerFnError> {\n    use surrealdb::{engine::remote::ws::Ws, Surreal, opt::auth::Root};\n\n"@
        + spec_db_connect_text() + "    crate::db::events::"@ + d.short_name + "::"@
        + d.short_name + "(&db"@ + spec_call_args(d.params)
        + ")\n        .await\n        .map_err(|_| ServerFnError::ServerError(\"Cannot apply event "@
        + d.short_name + "\".to_string()))?;\n\n    Ok(())\n}"@
}

/// The text of an endpoint wrapping one table-access method.
pub open spec fn spec_endpoint_schema_text(ep: Seq<char>, func: Seq<char>, d: DetailsV) -> Seq<
    char,
> {
    "use leptos::*;\n\nuse crate::db::crud::"@ + d.short_name + "::"@ + pascal_of(d.short_name)
        + ";\n\n#[server("@ + ep + ", \"/api\")]\npub async fn "@ + func + spec_sig_params(
        d.params,
    ) + " -> Result<"@ + d.output_type
        + ", ServerFnError> {\n    use surrealdb::{engine::remote::ws::Ws, Surreal, opt::auth::Root};\n\n    use crate::db::crud::"@
        + d.short_name + "::"@ + d.name + ";\n\n"@ + spec_db_connect_text() + "    "@ + d.name
        + "(&db"@ + spec_call_args(d.params)
        + ")\n        .await\n        .map_err(|_| ServerFnError::ServerError(\"Cannot apply function "@
        + d.name + "\".to_string()))?;\n\n    Ok(())\n}"@
}

fn append_db_connect(out: &mut String)
    ensures
        final(out)@ == old(out)@ + spec_db_connect_text(),
{
    out.append(
        "    let db = Surreal::new::<Ws>(\"localhost:8000\")\n        .await\n        .map_err(|_| ServerFnError::ServerError(\"Cannot open connection to SurrealDB\".to_string()))?;\n\n    db\n        .signin(Root {\n            username: \"root\",\n            password: \"root\",\n        })\n        .await\n        .map_err(|_| ServerFnError::ServerError(\"Cannot signin to SurrealDB\".to_string()))?;\n\n    db\n        .use_ns(\"test\")\n        .use_db(\"test\")\n        .await\n        .map_err(|_| ServerFnError::ServerError(\"Cannot use namespace and database\".to_string()))?;\n\n",
    );
}

fn render_endpoint_empty(ep: &str, func: &str) -> (r: String)
    ensures
        r@ == spec_endpoint_empty_text(ep@, func@),
{
    let mut out = String::from_str("use leptos::*;\n\n#[server(");
    out.append(ep);
    out.append(", \"/api\")]\npub async fn ");
    out.append(func);
    out.append("() -> Result<(), ServerFnError> {\n    Ok(())\n}");
    proof {
        assert(out@ =~= spec_endpoint_empty_text(ep@, func@));
    }
    out
}

#[verifier::rlimit(60)]
fn render_endpoint_query(ep: &str, func: &str, d: &DetailsForEndpoint) -> (r: String)
    ensures
        r@ == spec_endpoint_query_text(ep@, func@, view_details(*d)),
{
    let mut out = String::from_str("use leptos::*;\n\nuse crate::models::queries::");
    out.append(d.output_type.as_str());
    out.append(";\n\n#[server(");
    out.append(ep);
    out.append(", \"/api\")]\npub async fn ");
    out.append(func);
    append_sig_params(&mut out, &d.params);
    out.append(" -> Result<");
    out.append(d.output_type.as_str());
    out.append(
        ", ServerFnError> {\n    use surrealdb::{engine::remote::ws::Ws, Surreal, opt::auth::Root};\n\n    use crate::db::queries::",
    );
    out.append(d.short_name.as_str());
    out.append("::query_");
    out.append(d.short_name.as_str());
    out.append(";\n\n");
    append_db_connect(&mut out);
    out.append("    let result = query_");
    out.append(d.short_name.as_str());
    out.append("(&db");
    append_call_args(&mut out, &d.params);
    out.append(
        ")\n        .await\n        .map_err(|_| ServerFnError::ServerError(\"Cannot apply query ",
    );
    out.append(d.short_name.as_str());
    out.append("\".to_string()))?;\n\n    Ok(result)\n}");
    proof {
        assert(out@ =~= spec_endpoint_query_text(ep@, func@, view_details(*d)));
    }
    out
}

#[verifier::rlimit(60)]
fn render_endpoint_mutation(ep: &str, func: &str, d: &DetailsForEndpoint) -> (r: String)
    ensures
        r@ == spec_endpoint_mutation_text(ep@, func@, view_details(*d)),
{
    let mut out = String::from_str("use leptos::*;\n\nuse crate::models::mutations::");
    out.append(d.output_type.as_str());
    out.append(";\n\n#[server(");
    out.append(ep);
    out.append(", \"/api\")]\npub async fn ");
    out.append(func);
    append_sig_params(&mut out, &d.params);
    out.append(" -> Result<");
    out.append(d.output_type.as_str());
    out.append(
        ", ServerFnError> {\n    use surrealdb::{engine::remote::ws::Ws, Surreal, opt::auth::Root};\n\n    use crate::db::mutations::",
    );
    out.append(d.short_name.as_str());
    out.append("::mutate_");
    out.append(d.short_name.as_str());
    out.append(";\n\n");
    append_db_connect(&mut out);
    out.append("    let result = mutate_");
    out.append(d.short_name.as_str());
    out.append("(&db");
    append_call_args(&mut out, &d.params);
    out.append(
        ")\n        .await\n        .map_err(|_| ServerFnError::ServerError(\"Cannot apply mutation ",
    );
    out.append(d.short_name.as_str());
    out.append("\".to_string()))?;\n\n    Ok(result)\n}");
    proof {
        assert(out@ =~= spec_endpoint_mutation_text(ep@, func@, view_details(*d)));
    }
    out
}

#[verifier::rlimit(60)]
fn render_endpoint_event(ep: &str, func: &str, d: &DetailsForEndpoint) -> (r: String)
    requires
        d.data_type is Some,
    ensures
        r@ == spec_endpoint_event_text(ep@, func@, view_details(*d)),
{
    let mut out = String::from_str("use leptos::*;\n\nuse crate::db::events::");
    out.append(d.short_name.as_str());
    out.append("::");
    match &d.data_type {
        Some(dt) => {
            out.append(dt.as_str());
        },
        None => {},
    }
    out.append(";\n\n#[server(");
    out.append(ep);
    out.append(", \"/api\")]\npub async fn ");
    out.append(func);
    append_sig_params(&mut out, &d.params);
    out.append(" -> Result<");
    out.append(d.output_type.as_str());
    out.append(
        ", ServerFnError> {\n    use surrealdb::{engine::remote::ws::Ws, Surreal, opt::auth::Root};\n\n",
    );
    append_db_connect(&mut out);
    out.append("    crate::db::events::");
    out.append(d.short_name.as_str());
    out.append("::");
    out.append(d.short_name.as_str());
    out.append("(&db");
    append_call_args(&mut out, &d.params);
    out.append(
        ")\n        .await\n        .map_err(|_| ServerFnError::ServerError(\"Cannot apply event ",
    );
    out.append(d.short_name.as_str());
    out.append("\".to_string()))?;\n\n    Ok(())\n}");
    proof {
        assert(out@ =~= spec_endpoint_event_text(ep@, func@, view_details(*d)));
    }
    out
}

#[verifier::rlimit(60)]
fn render_endpoint_schema(ep: &str, func: &str, d: &DetailsForEndpoint) -> (r: String)
    ensures
        r@ == spec_endpoint_schema_text(ep@, func@, view_details(*d)),
{
    let mut out = String::from_str("use leptos::*;\n\nuse crate::db::crud::");
    out.append(d.short_name.as_str());
    out.append("::");
    let type_in_use = to_pascal_case(d.short_name.as_str());
    out.append(type_in_use.as_str());
    out.append(";\n\n#[server(");
    out.append(ep);
    out.append(", \"/api\")]\npub async fn ");
    out.append(func);
    append_sig_params(&mut out, &d.params);
    out.append(" -> Result<");
    out.append(d.output_type.as_str());
    out.append(
        ", ServerFnError> {\n    use surrealdb::{engine::remote::ws::Ws, Surreal, opt::auth::Root};\n\n    use crate::db::crud::",
    );
    out.append(d.short_name.as_str());
    out.append("::");
    out.append(d.name.as_str());
    out.append(";\n\n");
    append_db_connect(&mut out);
    out.append("    ");
    out.append(d.name.as_str());
    out.append("(&db");
    append_call_args(&mut out, &d.params);
    out.append(
        ")\n        .await\n        .map_err(|_| ServerFnError::ServerError(\"Cannot apply function ",
    );
    out.append(d.name.as_str());
    out.append("\".to_string()))?;\n\n    Ok(())\n}");
    proof {
        assert(out@ =~= spec_endpoint_schema_text(ep@, func@, view_details(*d)));
    }
    out
}

/// The write-ready outcome for one new endpoint: the file name under
/// the api directory, and the file content.
pub struct EndpointPlan {
    pub file_name: String,
    pub content: String,
}

pub open spec fn spec_opt_view(o: Option<String>) -> Option<Seq<char>> {
    match o {
        Some(s) => Some(s@),
        None => None,
    }
}

/// What generating one endpoint yields, given which source files exist:
/// the first missing source, in the fixed order query, mutation, event,
/// schema, is an error; otherwise the rendered file, picked by the
/// first source present in that same order, or the empty endpoint when
/// no source was named.
pub open spec fn spec_endpoint_outcome(
    name: Seq<char>,
    from_query: Option<Seq<char>>,
    from_mutation: Option<Seq<char>>,
    from_event: Option<Seq<char>>,
    from_schema: Option<Seq<char>>,
    method: GenerateEndpointFromSchemaMethod,
    query_text: Option<Seq<char>>,
    mutation_text: Option<Seq<char>>,
    event_file_exists: bool,
    schema_file_exists: bool,
) -> Result<(Seq<char>, Seq<char>), GenerateErrorV> {
    if from_query is Some && query_text is None {
        Err(GenerateErrorV::QueryDoesNotExist(spec_query_name(from_query->0) + ".surql"@))
    } else if from_mutation is Some && mutation_text is None {
        Err(GenerateErrorV::MutationDoesNotExist(spec_query_name(from_mutation->0) + ".surql"@))
    } else if from_event is Some && !event_file_exists {
        Err(GenerateErrorV::EventDoesNotExist(spec_query_name(from_event->0) + ".surql"@))
    } else if from_schema is Some && !schema_file_exists {
        Err(GenerateErrorV::SchemaDoesNotExist(spec_query_name(from_schema->0) + ".surql"@))
    } else {
        let ep = pascal_of(name);
        let func = snake_of(name);
        let file_name = snake_of(name) + ".rs"@;
        let content = if from_query is Some {
            spec_endpoint_query_text(
                ep,
                func,
                spec_query_details(spec_query_name(from_query->0), query_text->0),
            )
        } else if from_mutation is Some {
            spec_endpoint_mutation_text(
                ep,
                func,
                spec_mutation_details(spec_query_name(from_mutation->0), mutation_text->0),
            )
        } else if from_event is Some {
            spec_endpoint_event_text(ep, func, spec_event_details(spec_query_name(from_event->0)))
        } else if from_schema is Some {
            spec_endpoint_schema_text(
                ep,
                func,
                spec_schema_details(spec_query_name(from_schema->0), method),
            )
        } else {
            spec_endpoint_empty_text(ep, func)
        };
        Ok((file_name, content))
    }
}

/// Derive the file name and content of one new endpoint.  The texts
/// carry the content of the named query or mutation file where it
/// exists; the flags say whether the named event or schema file exists.
/// An unset method defaults to the listing method.
pub fn generate_endpoint(
    args: &GenerateEndpointArgs,
    query_text: &Option<String>,
    mutation_text: &Option<String>,
    event_file_exists: bool,
    schema_file_exists: bool,
) -> (r: Result<EndpointPlan, GenerateError>)
    ensures
        match spec_endpoint_outcome(
            args.name@,
            spec_opt_view(args.from_query),
            spec_opt_view(args.from_mutation),
            spec_opt_view(args.from_event),
            spec_opt_view(args.from_schema),
            (match args.method {
                Some(m) => m,
                None => GenerateEndpointFromSchemaMethod::List,
            }),
            spec_opt_view(*query_text),
            spec_opt_view(*mutation_text),
            event_file_exists,
            schema_file_exists,
        ) {
            Ok(p) => r is Ok && r->Ok_0.file_name@ == p.0 && r->Ok_0.content@ == p.1,
            Err(ev) => r is Err && view_gen_error(r->Err_0) == ev,
        },
{
    let method = match &args.method {
        Some(m) => *m,
        None => GenerateEndpointFromSchemaMethod::List,
    };
    let query = match get_query_details_for_endpoint(&args.from_query, query_text) {
        Ok(d) => d,
        Err(e) => {
            return Err(e);
        },
    };
    let mutation = match get_mutation_details_for_endpoint(&args.from_mutation, mutation_text) {
        Ok(d) => d,
        Err(e) => {
            return Err(e);
        },
    };
    let event = match get_event_details_for_endpoint(&args.from_event, event_file_exists) {
        Ok(d) => d,
        Err(e) => {
            return Err(e);
        },
    };
    let schema = match get_schema_details_for_endpoint(
        &args.from_schema,
        method,
        schema_file_exists,
    ) {
        Ok(d) => d,
        Err(e) => {
            return Err(e);
        },
    };
    let endpoint_name = to_pascal_case(args.name.as_str());
    let function_name = to_snake_case(args.name.as_str());
    let content = match &query {
        Some(d) => render_endpoint_query(endpoint_name.as_str(), function_name.as_str(), d),
        None => match &mutation {
            Some(d) => render_endpoint_mutation(endpoint_name.as_str(), function_name.as_str(), d),
            None => match &event {
                Some(d) => render_endpoint_event(
                    endpoint_name.as_str(),
                    function_name.as_str(),
                    d,
                ),
                None => match &schema {
                    Some(d) => render_endpoint_schema(
                        endpoint_name.as_str(),
                        function_name.as_str(),
                        d,
                    ),
                    None => render_endpoint_empty(endpoint_name.as_str(), function_name.as_str()),
                },
            },
        },
    };
    let mut file_name = to_snake_case(args.name.as_str());
    file_name.append(".rs");
    Ok(EndpointPlan { file_name, content })
}

} // verus!
