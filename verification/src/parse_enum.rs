//! From a declaration to its schema: the name with its generic arguments,
//! the generics of an impl block, the where-clause, the validated variants,
//! and the marker types of the variants.

use vstd::prelude::*;
use crate::schema::{
    distinct_names, has_name, put, Case, CaseShape, Entries, GenericParam, SchemaError,
    VariantMap,
};
use crate::syntax::{
    cases_of, declared_cases, declared_generics, declared_name, declared_params,
    declared_where_clause, generics_of, name_of, params_of, where_clause_of,
};

verus! {

/// The identifiers of the parameters, separated by commas.
pub open spec fn joined_idents(params: Seq<GenericParam>) -> Seq<char>
    decreases params.len(),
{
    if params.len() == 0 {
        Seq::empty()
    } else if params.len() == 1 {
        params[0].ident_text()
    } else {
        joined_idents(params.drop_last()) + ","@ + params.last().ident_text()
    }
}

/// The name followed by the parameters' identifiers in angle brackets, or the
/// bare name where that list is empty.
pub open spec fn applied_name(name: Seq<char>, params: Seq<GenericParam>) -> Seq<char> {
    let listed = joined_idents(params);
    if listed.len() == 0 {
        name
    } else {
        name + "<"@ + listed + ">"@
    }
}

/// The name of a type with its generic parameters applied: for a type `Enum`
/// with the parameters `'a`, `T` and `X` this is `Enum<'a,T,X>`.
pub fn name_with_generic_params(name: &str, params: &Vec<GenericParam>) -> (fullname: String)
    ensures
        fullname@ == applied_name(name@, params@),
{
    let mut listed = String::new();
    let mut i: usize = 0;
    while i < params.len()
        invariant
            i <= params.len(),
            listed@ == joined_idents(params@.take(i as int)),
        decreases params.len() - i,
    {
        proof {
            let next = params@.take(i + 1);
            assert(next.drop_last() =~= params@.take(i as int));
            assert(next.last() == params@[i as int]);
            if i == 0 {
                assert(Seq::<char>::empty() + params@[0].ident_text() =~= params@[0].ident_text());
            }
        }
        if i > 0 {
            listed.append(",");
        }
        listed.append(params[i].ident().as_str());
        i += 1;
    }
    assert(params@.take(params@.len() as int) =~= params@);
    if listed.as_str().is_empty() {
        String::from_str(name)
    } else {
        let mut fullname = String::from_str(name);
        fullname.append("<");
        fullname.append(listed.as_str());
        fullname.append(">");
        fullname
    }
}

/// The name of the declared type with its generic parameters applied.
pub fn fetch_name_with_generic_params(ast: &syn::DeriveInput) -> (fullname: String)
    ensures
        fullname@ == applied_name(declared_name(*ast), declared_params(*ast)),
{
    let name = name_of(ast);
    let params = params_of(ast);
    name_with_generic_params(name.as_str(), &params)
}

/// The text of a where-clause that may be absent.
pub open spec fn where_text(clause: Option<Seq<char>>) -> Seq<char> {
    match clause {
        Some(text) => text,
        None => Seq::empty(),
    }
}

/// The where-clause's text, empty where there is no clause.
pub fn where_clause_or_empty(clause: Option<String>) -> (text: String)
    ensures
        text@ == where_text(
            match clause {
                Some(t) => Some(t@),
                None => None,
            },
        ),
{
    match clause {
        Some(text) => text,
        None => String::new(),
    }
}

/// The generic parameter list for impl blocks on the declared type, and its
/// where-clause, which is empty where none is declared.
pub fn fetch_impl_generics(ast: &syn::DeriveInput) -> (texts: (String, String))
    ensures
        texts.0@ == declared_generics(*ast),
        texts.1@ == where_text(declared_where_clause(*ast)),
{
    let generics = generics_of(ast);
    let clause = where_clause_of(ast);
    (generics, where_clause_or_empty(clause))
}

/// A case has exactly one positional field.
pub open spec fn single_payload(case: Case) -> bool {
    match case.shape {
        CaseShape::Unnamed(types) => types@.len() == 1,
        _ => false,
    }
}

/// What one case contributes to the variants: its name with the type of its
/// only positional field, or the rule that its shape breaks.
pub open spec fn case_entry(case: Case) -> Result<(Seq<char>, Seq<char>), SchemaError> {
    match case.shape {
        CaseShape::Unnamed(types) => if types@.len() == 1 {
            Ok((case.name@, types@[0]@))
        } else {
            Err(SchemaError::MultipleFields)
        },
        CaseShape::Named => Err(SchemaError::NamedFields),
        CaseShape::Unit => Err(SchemaError::UnitVariant),
    }
}

/// The variants of a list of cases: each case's entry put into the map in
/// turn, or the error of the first case that has one.
pub open spec fn collect_cases(cases: Seq<Case>) -> Result<Entries, SchemaError>
    decreases cases.len(),
{
    if cases.len() == 0 {
        Ok(Seq::empty())
    } else {
        match collect_cases(cases.drop_last()) {
            Err(e) => Err(e),
            Ok(entries) => match case_entry(cases.last()) {
                Err(e) => Err(e),
                Ok(entry) => Ok(put(entries, entry.0, entry.1)),
            },
        }
    }
}

/// The variants of a declaration, which is no enum where it has no cases to
/// show.
pub open spec fn extract_variants(cases: Option<Seq<Case>>) -> Result<Entries, SchemaError> {
    match cases {
        None => Err(SchemaError::NotAnEnum),
        Some(list) => collect_cases(list),
    }
}

/// An error among the first `k` cases is the error of the whole list.
pub proof fn lemma_error_stays(cases: Seq<Case>, k: int)
    requires
        0 <= k <= cases.len(),
        collect_cases(cases.take(k)) is Err,
    ensures
        collect_cases(cases) == collect_cases(cases.take(k)),
    decreases cases.len() - k,
{
    if k < cases.len() {
        assert(cases.take(k + 1).drop_last() =~= cases.take(k));
        lemma_error_stays(cases, k + 1);
    } else {
        assert(cases.take(k) =~= cases);
    }
}

/// Cases that each have exactly one positional field, under names of which
/// no two are equal, are all accepted: there are as many variants as cases,
/// and the variants are the cases' names with their payload types, in the
/// cases' order.
pub proof fn lemma_valid_cases_accepted(cases: Seq<Case>)
    requires
        forall|i: int| 0 <= i < cases.len() ==> single_payload(#[trigger] cases[i]),
        forall|i: int, j: int|
            0 <= i < j < cases.len() ==> (#[trigger] cases[i]).name@ != (#[trigger] cases[j]).name@,
    ensures
        collect_cases(cases) is Ok,
        collect_cases(cases)->Ok_0.len() == cases.len(),
        forall|i: int|
            0 <= i < cases.len() ==> Ok::<(Seq<char>, Seq<char>), SchemaError>(
                #[trigger] collect_cases(cases)->Ok_0[i],
            ) == case_entry(cases[i]),
        forall|i: int|
            0 <= i < cases.len() ==> (#[trigger] collect_cases(cases)->Ok_0[i]).0 == cases[i].name@,
        distinct_names(collect_cases(cases)->Ok_0),
    decreases cases.len(),
{
    if cases.len() > 0 {
        let head = cases.drop_last();
        assert forall|i: int| 0 <= i < head.len() implies single_payload(#[trigger] head[i]) by {
            assert(head[i] == cases[i]);
        }
        assert forall|i: int, j: int| 0 <= i < j < head.len() implies (#[trigger] head[i]).name@ != (
        #[trigger] head[j]).name@ by {
            assert(head[i] == cases[i]);
            assert(head[j] == cases[j]);
        }
        lemma_valid_cases_accepted(head);
        let entries = collect_cases(head)->Ok_0;
        let last = cases.last();
        assert(single_payload(last));
        let entry = case_entry(last)->Ok_0;
        assert(entry.0 == last.name@);
        assert(!has_name(entries, entry.0)) by {
            if has_name(entries, entry.0) {
                let k = choose|k: int| 0 <= k < entries.len() && (#[trigger] entries[k]).0 == entry.0;
                assert(entries[k].0 == head[k].name@);
                assert(head[k] == cases[k]);
                assert(cases[k].name@ != cases[cases.len() - 1].name@);
            }
        }
        let all = collect_cases(cases)->Ok_0;
        assert(all == entries.push(entry));
        assert forall|i: int| 0 <= i < cases.len() implies Ok::<(Seq<char>, Seq<char>), SchemaError>(
            #[trigger] all[i],
        ) == case_entry(cases[i]) && all[i].0 == cases[i].name@ by {
            if i < head.len() {
                assert(all[i] == entries[i]);
                assert(head[i] == cases[i]);
            }
        }
        crate::schema::lemma_put_distinct(entries, entry.0, entry.1);
    }
}

/// A list that holds a case without exactly one positional field (none,
/// several, or named ones) is rejected.
pub proof fn lemma_invalid_case_rejected(cases: Seq<Case>, i: int)
    requires
        0 <= i < cases.len(),
        !single_payload(cases[i]),
    ensures
        collect_cases(cases) is Err,
        extract_variants(Some(cases)) is Err,
    decreases cases.len(),
{
    if i < cases.len() - 1 {
        assert(cases.drop_last()[i] == cases[i]);
        lemma_invalid_case_rejected(cases.drop_last(), i);
    }
}

/// Validates the cases of an enum and maps each variant's name to the text of
/// its payload type.
pub fn variants_of_cases(cases: &Vec<Case>) -> (variants: Result<VariantMap, SchemaError>)
    ensures
        match variants {
            Ok(map) => collect_cases(cases@) == Ok::<Entries, SchemaError>(map@) && map.wf(),
            Err(e) => collect_cases(cases@) == Err::<Entries, SchemaError>(e),
        },
{
    let mut map = VariantMap::new();
    let mut i: usize = 0;
    while i < cases.len()
        invariant
            i <= cases.len(),
            map.wf(),
            collect_cases(cases@.take(i as int)) == Ok::<Entries, SchemaError>(map@),
        decreases cases.len() - i,
    {
        proof {
            let next = cases@.take(i + 1);
            assert(next.drop_last() =~= cases@.take(i as int));
            assert(next.last() == cases@[i as int]);
        }
        let case = &cases[i];
        match &case.shape {
            CaseShape::Unnamed(types) => {
                if types.len() != 1 {
                    proof {
                        lemma_error_stays(cases@, i + 1);
                    }
                    return Err(SchemaError::MultipleFields);
                }
                map.insert(case.name.clone(), types[0].clone());
            },
            CaseShape::Named => {
                proof {
                    lemma_error_stays(cases@, i + 1);
                }
                return Err(SchemaError::NamedFields);
            },
            CaseShape::Unit => {
                proof {
                    lemma_error_stays(cases@, i + 1);
                }
                return Err(SchemaError::UnitVariant);
            },
        }
        i += 1;
    }
    assert(cases@.take(cases@.len() as int) =~= cases@);
    Ok(map)
}

/// The variants of the declared enum, each name mapped to the text of its
/// payload type.
///
/// Fails where the declaration is no enum, and where a case does not have
/// exactly one positional field; the error is that of the first such case.
pub fn fetch_fields_from_enum(ast: &syn::DeriveInput) -> (variants: Result<
    VariantMap,
    SchemaError,
>)
    ensures
        match variants {
            Ok(map) => extract_variants(declared_cases(*ast)) == Ok::<Entries, SchemaError>(map@)
                && map.wf(),
            Err(e) => extract_variants(declared_cases(*ast)) == Err::<Entries, SchemaError>(e),
        },
        declared_cases(*ast) is None ==> variants == Err::<VariantMap, SchemaError>(
            SchemaError::NotAnEnum,
        ),
{
    match cases_of(ast) {
        Some(cases) => variants_of_cases(&cases),
        None => Err(SchemaError::NotAnEnum),
    }
}

/// The qualified name of the marker type of a variant.
pub open spec fn marker_text(name: Seq<char>, field: Seq<char>) -> Seq<char> {
    "enum___conversion___"@ + name + "::"@ + field
}

/// The fully qualified name of the marker type that belongs to the variant
/// `field` of the enum `name`.
pub fn get_marker(name: &str, field: &str) -> (marker: String)
    ensures
        marker@ == marker_text(name@, field@),
{
    let mut marker = String::from_str("enum___conversion___");
    marker.append(name);
    marker.append("::");
    marker.append(field);
    marker
}

/// Two variants of one enum never have the same marker.
pub proof fn lemma_markers_distinct(name: Seq<char>, first: Seq<char>, second: Seq<char>)
    requires
        first != second,
    ensures
        marker_text(name, first) != marker_text(name, second),
{
    let head = "enum___conversion___"@ + name + "::"@;
    if marker_text(name, first) == marker_text(name, second) {
        assert((head + first).subrange(head.len() as int, (head + first).len() as int) =~= first);
        assert((head + second).subrange(head.len() as int, (head + second).len() as int)
            =~= second);
    }
}

/// The text holds no colon.
pub open spec fn colon_free(text: Seq<char>) -> bool {
    forall|i: int| 0 <= i < text.len() ==> text[i] != ':'
}

/// A marker determines its enum and its variant: where the names of two
/// enums hold no colon, as identifiers do, equal markers belong to the same
/// enum and the same variant.
pub proof fn lemma_marker_injective(
    first_name: Seq<char>,
    first_field: Seq<char>,
    second_name: Seq<char>,
    second_field: Seq<char>,
)
    requires
        colon_free(first_name),
        colon_free(second_name),
        marker_text(first_name, first_field) == marker_text(second_name, second_field),
    ensures
        first_name == second_name,
        first_field == second_field,
{
    reveal_strlit("::");
    let head = "enum___conversion___"@;
    let a = marker_text(first_name, first_field);
    let b = marker_text(second_name, second_field);
    let m = first_name.len() as int;
    let n = second_name.len() as int;
    let h = head.len() as int;
    assert(a.len() == h + m + 2 + first_field.len());
    assert(b.len() == h + n + 2 + second_field.len());
    if m < n {
        assert(a[h + m] == ':');
        assert(b[h + m] == second_name[m]);
    } else if n < m {
        assert(b[h + n] == ':');
        assert(a[h + n] == first_name[n]);
    } else {
        assert(a.subrange(h, h + m) =~= first_name);
        assert(b.subrange(h, h + n) =~= second_name);
        assert(a.subrange(h + m + 2, a.len() as int) =~= first_field);
        assert(b.subrange(h + n + 2, b.len() as int) =~= second_field);
    }
}

/// Variants of the same name in two enums never have the same marker.
pub proof fn lemma_markers_of_enums_distinct(
    first: Seq<char>,
    second: Seq<char>,
    field: Seq<char>,
)
    requires
        first != second,
    ensures
        marker_text(first, field) != marker_text(second, field),
{
    let head = "enum___conversion___"@;
    let a = marker_text(first, field);
    let b = marker_text(second, field);
    if a == b {
        assert(a.len() == head.len() + first.len() + "::"@.len() + field.len());
        assert(b.len() == head.len() + second.len() + "::"@.len() + field.len());
        assert(a.subrange(head.len() as int, (head.len() + first.len()) as int) =~= first);
        assert(b.subrange(head.len() as int, (head.len() + second.len()) as int) =~= second);
    }
}

/// The declarations of one empty marker type per variant, in the variants'
/// order.
pub open spec fn marker_items(variants: Entries) -> Seq<char>
    decreases variants.len(),
{
    if variants.len() == 0 {
        Seq::empty()
    } else {
        marker_items(variants.drop_last()) + "pub(crate) enum "@ + variants.last().0 + "{}"@
    }
}

/// The module that holds the marker types of an enum.
pub open spec fn marker_module(name: Seq<char>, variants: Entries) -> Seq<char> {
    "#[allow(non_snake_case)]\n mod enum___conversion___"@ + name + "{ "@ + marker_items(variants)
        + "}"@
}

/// Declares a module named after the enum that holds one empty marker type
/// per variant, named as the variant is.
///
/// The markers identify the variants in trait bounds, so that two variants
/// never give the same generic instance.
pub fn create_marker_enums(name: &str, types: &VariantMap) -> (module: String)
    ensures
        module@ == marker_module(name@, types@),
{
    let mut piece = String::from_str("#[allow(non_snake_case)]\n mod enum___conversion___");
    piece.append(name);
    piece.append("{ ");
    let ghost head = piece@;
    let mut i: usize = 0;
    while i < types.len()
        invariant
            i <= types@.len(),
            piece@ == head + marker_items(types@.take(i as int)),
        decreases types@.len() - i,
    {
        proof {
            let next = types@.take(i + 1);
            assert(next.drop_last() =~= types@.take(i as int));
            assert(next.last() == types@[i as int]);
        }
        piece.append("pub(crate) enum ");
        piece.append(types.name_at(i).as_str());
        piece.append("{}");
        assert(piece@ =~= head + marker_items(types@.take(i + 1)));
        i += 1;
    }
    assert(types@.take(types@.len() as int) =~= types@);
    piece.append("}");
    piece
}

} // verus!
