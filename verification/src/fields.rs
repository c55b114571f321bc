use vstd::prelude::*;
use vstd::string::StringExecFns;

use crate::model::{FieldDef, FieldDefV, FieldKind, view_field_defs};
use crate::strutil::string_eq;

verus! {

/// One field of a generated struct: its name and the name of the
/// generated-language type it maps to.
pub struct StructField {
    pub name: String,
    pub type_str: String,
}

pub open spec fn view_sfield(f: StructField) -> (Seq<char>, Seq<char>) {
    (f.name@, f.type_str@)
}

pub open spec fn view_sfields(s: Seq<StructField>) -> Seq<(Seq<char>, Seq<char>)> {
    s.map_values(|f: StructField| view_sfield(f))
}

/// The type mapper: a textual kind maps to the string type, a
/// record-reference kind maps to the record-id type, and anything else
/// falls back to the string type so that generation never blocks.
pub open spec fn spec_type_str(kind: FieldKind) -> Seq<char> {
    match kind {
        FieldKind::StringKind => "String"@,
        FieldKind::RecordKind => "Thing"@,
        FieldKind::OtherKind => "String"@,
    }
}

pub fn type_str_for_kind(kind: FieldKind) -> (r: &'static str)
    ensures
        r@ == spec_type_str(kind),
{
    match kind {
        FieldKind::StringKind => "String",
        FieldKind::RecordKind => "Thing",
        FieldKind::OtherKind => "String",
    }
}

/// Insert a (name, value) pair into a name-keyed list: the first entry
/// with the same name is overwritten in place, otherwise the pair is
/// appended.  Both struct-field synthesis and the per-category module
/// maps deduplicate this way.
pub open spec fn spec_upsert(
    acc: Seq<(Seq<char>, Seq<char>)>,
    name: Seq<char>,
    ty: Seq<char>,
) -> Seq<(Seq<char>, Seq<char>)>
    decreases acc.len(),
{
    if acc.len() == 0 {
        seq![(name, ty)]
    } else if acc.first().0 == name {
        seq![(name, ty)] + acc.drop_first()
    } else {
        seq![acc.first()] + spec_upsert(acc.drop_first(), name, ty)
    }
}

/// The synthesized field list for one table or event: the identifier
/// field first when requested, then each field definition in order,
/// mapped through the type mapper and de-duplicated by name with the
/// last declared kind winning.
pub open spec fn spec_struct_fields(defs: Seq<FieldDefV>, with_id: bool) -> Seq<
    (Seq<char>, Seq<char>),
> {
    spec_fields_fold(
        if with_id {
            seq![("id"@, "Thing"@)]
        } else {
            Seq::empty()
        },
        defs,
    )
}

pub open spec fn spec_fields_fold(
    acc: Seq<(Seq<char>, Seq<char>)>,
    defs: Seq<FieldDefV>,
) -> Seq<(Seq<char>, Seq<char>)>
    decreases defs.len(),
{
    if defs.len() == 0 {
        acc
    } else {
        spec_fields_fold(
            spec_upsert(acc, defs.first().name, spec_type_str(defs.first().kind)),
            defs.drop_first(),
        )
    }
}

pub proof fn lemma_upsert_found(
    acc: Seq<(Seq<char>, Seq<char>)>,
    name: Seq<char>,
    ty: Seq<char>,
    i: int,
)
    requires
        0 <= i < acc.len(),
        acc[i].0 == name,
        forall|j: int| 0 <= j < i ==> (#[trigger] acc[j]).0 != name,
    ensures
        spec_upsert(acc, name, ty) =~= acc.update(i, (name, ty)),
    decreases acc.len(),
{
    if i == 0 {
    } else {
        lemma_upsert_found(acc.drop_first(), name, ty, i - 1);
        assert(spec_upsert(acc, name, ty) =~= seq![acc.first()] + acc.drop_first().update(
            i - 1,
            (name, ty),
        ));
    }
}

pub proof fn lemma_upsert_not_found(acc: Seq<(Seq<char>, Seq<char>)>, name: Seq<char>, ty: Seq<char>)
    requires
        forall|j: int| 0 <= j < acc.len() ==> (#[trigger] acc[j]).0 != name,
    ensures
        spec_upsert(acc, name, ty) =~= acc.push((name, ty)),
    decreases acc.len(),
{
    if acc.len() > 0 {
        lemma_upsert_not_found(acc.drop_first(), name, ty);
    }
}

/// The synthesized pair for one field definition.
pub open spec fn spec_field_pair(d: FieldDefV) -> (Seq<char>, Seq<char>) {
    (d.name, spec_type_str(d.kind))
}

pub open spec fn spec_field_pairs(defs: Seq<FieldDefV>) -> Seq<(Seq<char>, Seq<char>)> {
    defs.map_values(|d: FieldDefV| spec_field_pair(d))
}

/// No two field definitions share a name.
pub open spec fn spec_names_unique(defs: Seq<FieldDefV>) -> bool {
    forall|i: int, j: int|
        0 <= i < j < defs.len() ==> (#[trigger] defs[i]).name != (#[trigger] defs[j]).name
}

/// No field definition carries a name already present in the list.
pub open spec fn spec_names_fresh(
    acc: Seq<(Seq<char>, Seq<char>)>,
    defs: Seq<FieldDefV>,
) -> bool {
    forall|i: int, j: int|
        0 <= i < acc.len() && 0 <= j < defs.len() ==> (#[trigger] acc[i]).0 != (
        #[trigger] defs[j]).name
}

proof fn lemma_fields_fold_disjoint(acc: Seq<(Seq<char>, Seq<char>)>, defs: Seq<FieldDefV>)
    requires
        spec_names_unique(defs),
        spec_names_fresh(acc, defs),
    ensures
        spec_fields_fold(acc, defs) =~= acc + spec_field_pairs(defs),
    decreases defs.len(),
{
    if defs.len() == 0 {
    } else {
        let d = defs.first();
        assert(forall|i: int|
            0 <= i < acc.len() ==> (#[trigger] acc[i]).0 != d.name) by {
            assert(forall|i: int|
                0 <= i < acc.len() ==> (#[trigger] acc[i]).0 != defs[0].name);
        }
        lemma_upsert_not_found(acc, d.name, spec_type_str(d.kind));
        let acc2 = acc.push(spec_field_pair(d));
        assert(spec_names_unique(defs.drop_first())) by {
            assert(forall|i: int, j: int|
                0 <= i < j < defs.drop_first().len() ==> (
                #[trigger] defs.drop_first()[i]).name != (#[trigger] defs.drop_first()[j]).name)
                by {
                assert(forall|i: int, j: int|
                    0 <= i < j < defs.len() ==> (#[trigger] defs[i]).name != (
                    #[trigger] defs[j]).name);
                assert(forall|k: int|
                    0 <= k < defs.drop_first().len() ==> #[trigger] defs.drop_first()[k] == defs[k
                    + 1]);
            }
        }
        assert(spec_names_fresh(acc2, defs.drop_first())) by {
            assert(forall|k: int|
                0 <= k < defs.drop_first().len() ==> #[trigger] defs.drop_first()[k] == defs[k
                + 1]);
        }
        lemma_fields_fold_disjoint(acc2, defs.drop_first());
        assert(acc2 + spec_field_pairs(defs.drop_first()) =~= acc + spec_field_pairs(defs));
    }
}

/// What table synthesis produces when the declared field names are
/// unique and no field is itself named `id`: the identifier field
/// first, then one field per definition, in declaration order, each
/// mapped through the type mapper.
pub proof fn lemma_crud_synthesis(defs: Seq<FieldDefV>)
    requires
        spec_names_unique(defs),
        forall|j: int| 0 <= j < defs.len() ==> (#[trigger] defs[j]).name != "id"@,
    ensures
        spec_struct_fields(defs, true) =~= seq![("id"@, "Thing"@)] + spec_field_pairs(defs),
{
    lemma_fields_fold_disjoint(seq![("id"@, "Thing"@)], defs);
}

/// The synthesized field set does not depend on declaration order:
/// two field-definition lists with unique names, none named `id`, that
/// hold the same definitions — in any order — synthesize the same set
/// of (name, type) fields.
pub proof fn lemma_field_set_order_independent(defs1: Seq<FieldDefV>, defs2: Seq<FieldDefV>)
    requires
        spec_names_unique(defs1),
        spec_names_unique(defs2),
        forall|j: int| 0 <= j < defs1.len() ==> (#[trigger] defs1[j]).name != "id"@,
        forall|j: int| 0 <= j < defs2.len() ==> (#[trigger] defs2[j]).name != "id"@,
        forall|d: FieldDefV| defs1.contains(d) <==> defs2.contains(d),
    ensures
        forall|p: (Seq<char>, Seq<char>)|
            spec_struct_fields(defs1, true).contains(p) <==> spec_struct_fields(
                defs2,
                true,
            ).contains(p),
{
    lemma_crud_synthesis(defs1);
    lemma_crud_synthesis(defs2);
    assert forall|p: (Seq<char>, Seq<char>)|
        spec_struct_fields(defs1, true).contains(p) <==> spec_struct_fields(
            defs2,
            true,
        ).contains(p) by {
        if spec_struct_fields(defs1, true).contains(p) {
            lemma_pairs_contains(defs1, defs2, p);
        }
        if spec_struct_fields(defs2, true).contains(p) {
            lemma_pairs_contains(defs2, defs1, p);
        }
    }
}

proof fn lemma_pairs_contains(a: Seq<FieldDefV>, b: Seq<FieldDefV>, p: (Seq<char>, Seq<char>))
    requires
        forall|d: FieldDefV| a.contains(d) <==> b.contains(d),
        forall|j: int| 0 <= j < a.len() ==> (#[trigger] a[j]).name != "id"@,
        forall|j: int| 0 <= j < b.len() ==> (#[trigger] b[j]).name != "id"@,
        spec_struct_fields(a, true) =~= seq![("id"@, "Thing"@)] + spec_field_pairs(a),
        spec_struct_fields(b, true) =~= seq![("id"@, "Thing"@)] + spec_field_pairs(b),
        spec_struct_fields(a, true).contains(p),
    ensures
        spec_struct_fields(b, true).contains(p),
{
    let sa = seq![("id"@, "Thing"@)] + spec_field_pairs(a);
    let i = choose|i: int| 0 <= i < sa.len() && sa[i] == p;
    if i == 0 {
        assert((seq![("id"@, "Thing"@)] + spec_field_pairs(b))[0] == p);
    } else {
        assert(spec_field_pairs(a)[i - 1] == p);
        let d = a[i - 1];
        assert(a.contains(d));
        assert(b.contains(d));
        let k = choose|k: int| 0 <= k < b.len() && b[k] == d;
        assert(spec_field_pairs(b)[k] == p);
        assert((seq![("id"@, "Thing"@)] + spec_field_pairs(b))[k + 1] == p);
    }
}

fn upsert_field(fields: &mut Vec<StructField>, name: String, type_str: String)
    ensures
        view_sfields(final(fields)@) == spec_upsert(view_sfields(old(fields)@), name@, type_str@),
{
    let ghost accv = view_sfields(fields@);
    let n = fields.len();
    let mut i: usize = 0;
    while i < n
        invariant
            accv == view_sfields(fields@),
            accv == view_sfields(old(fields)@),
            n == fields@.len(),
            i <= n,
            forall|j: int| 0 <= j < i ==> (#[trigger] accv[j]).0 != name@,
        decreases n - i,
    {
        if string_eq(&fields[i].name, &name) {
            let ghost old_fields = fields@;
            fields.set(i, StructField { name, type_str });
            proof {
                lemma_upsert_found(accv, name@, type_str@, i as int);
                assert(view_sfields(fields@) =~= accv.update(i as int, (name@, type_str@)));
            }
            return ;
        }
        i = i + 1;
    }
    let ghost old_fields = fields@;
    fields.push(StructField { name, type_str });
    proof {
        lemma_upsert_not_found(accv, name@, type_str@);
        assert(view_sfields(fields@) =~= accv.push((name@, type_str@)));
    }
}

/// Merge the field definitions of one table or event into the struct
/// field list handed to the templates.
pub fn extract_struct_fields(define_field_statements: &Vec<FieldDef>, with_id: bool) -> (r: Vec<
    StructField,
>)
    ensures
        view_sfields(r@) == spec_struct_fields(view_field_defs(define_field_statements@), with_id),
{
    let ghost defsv = view_field_defs(define_field_statements@);
    let mut fields: Vec<StructField> = Vec::new();
    if with_id {
        fields.push(StructField { name: id_name(), type_str: thing_name() });
        proof {
            assert(view_sfields(fields@) =~= seq![("id"@, "Thing"@)]);
        }
    } else {
        proof {
            assert(view_sfields(fields@) =~= Seq::<(Seq<char>, Seq<char>)>::empty());
        }
    }
    proof {
        assert(defsv.skip(0) =~= defsv);
    }
    let n = define_field_statements.len();
    let mut i: usize = 0;
    while i < n
        invariant
            defsv == view_field_defs(define_field_statements@),
            defsv.len() == n,
            n == define_field_statements@.len(),
            i <= n,
            spec_fields_fold(view_sfields(fields@), defsv.skip(i as int)) == spec_struct_fields(
                defsv,
                with_id,
            ),
        decreases n - i,
    {
        let d = &define_field_statements[i];
        let name = d.name.clone();
        let type_str = kind_type_string(&d.kind);
        proof {
            assert(defsv[i as int] == crate::model::view_field_def(
                define_field_statements@[i as int],
            ));
            assert(defsv.skip(i as int).first() == defsv[i as int]);
            assert(defsv.skip(i as int).drop_first() =~= defsv.skip(i as int + 1));
        }
        upsert_field(&mut fields, name, type_str);
        i = i + 1;
    }
    proof {
        assert(defsv.skip(n as int) =~= Seq::<FieldDefV>::empty());
    }
    fields
}

fn id_name() -> (r: String)
    ensures
        r@ == "id"@,
{
    String::from_str("id")
}

fn thing_name() -> (r: String)
    ensures
        r@ == "Thing"@,
{
    String::from_str("Thing")
}

fn kind_type_string(kind: &FieldKind) -> (r: String)
    ensures
        r@ == spec_type_str(*kind),
{
    String::from_str(type_str_for_kind(*kind))
}

} // verus!
