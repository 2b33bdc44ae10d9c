//! The generated unit: the marker module and, for every variant, the three
//! implementations, each rendered from its template.

use vstd::prelude::*;
use crate::parse_enum::{
    applied_name, create_marker_enums, extract_variants, fetch_fields_from_enum,
    fetch_impl_generics, fetch_name_with_generic_params, get_marker, lemma_markers_distinct,
    marker_module, marker_text,
    where_text,
};
use crate::schema::{Entries, SchemaError, VariantMap};
use crate::syntax::{
    declared_cases, declared_generics, declared_name, declared_params, declared_where_clause,
    name_of,
};
use crate::templates::{
    context_text, insert_value, render_template, template_rendering, Context, TemplateKind,
};

verus! {

/// Why no unit was generated.
#[derive(Clone, Copy, Debug, PartialEq, Eq, Structural)]
pub enum GenerateError {
    /// The declaration has a shape that cannot be given conversions.
    Schema(SchemaError),
    /// A template of this family could not be rendered.
    Render(TemplateKind),
}

impl GenerateError {
    /// The text of the message for this error.
    pub open spec fn message_text(self) -> Seq<char> {
        match self {
            GenerateError::Schema(e) => e.message_text(),
            GenerateError::Render(TemplateKind::GetVariant) =>
                "Failed to render the GetVariant template"@,
            GenerateError::Render(TemplateKind::TryFrom) =>
                "Failed to render the TryFrom template"@,
            GenerateError::Render(TemplateKind::From) => "Failed to render the From template"@,
        }
    }

    /// A description of the failure.
    pub fn message(&self) -> (text: String)
        ensures
            text@ == self.message_text(),
    {
        match self {
            GenerateError::Schema(e) => e.message(),
            GenerateError::Render(TemplateKind::GetVariant) => String::from_str(
                "Failed to render the GetVariant template",
            ),
            GenerateError::Render(TemplateKind::TryFrom) => String::from_str(
                "Failed to render the TryFrom template",
            ),
            GenerateError::Render(TemplateKind::From) => String::from_str(
                "Failed to render the From template",
            ),
        }
    }
}

/// The constraint that the enum gives access to a payload type under a
/// marker.
pub open spec fn marker_bound(fullname: Seq<char>, ty: Seq<char>, marker: Seq<char>) -> Seq<
    char,
> {
    fullname + ": GetVariant<"@ + ty + ", "@ + marker + ">"@
}

/// What stands before the added constraint in the where-clause of a fallible
/// conversion: the keyword where the enum declares no clause, else the
/// enum's own clause with a comma after its last predicate, which is added
/// unless the clause ends in one.
pub open spec fn clause_opening(where_clause: Seq<char>) -> Seq<char> {
    if where_clause.len() == 0 {
        "where\n "@
    } else if where_clause.last() == ',' {
        where_clause + "\n "@
    } else {
        where_clause + ",\n "@
    }
}

/// The where-clause of a fallible conversion: the enum's own predicates and,
/// parted from them by a comma, the marker's constraint; or a clause of that
/// constraint alone.
pub open spec fn conversion_where_text(
    where_clause: Seq<char>,
    fullname: Seq<char>,
    ty: Seq<char>,
    marker: Seq<char>,
) -> Seq<char> {
    clause_opening(where_clause) + marker_bound(fullname, ty, marker)
}

/// The fallible conversions of two variants of one enum stand under
/// different where-clauses, also where both variants have the same payload
/// type.
pub proof fn lemma_conversion_clauses_distinct(
    where_clause: Seq<char>,
    name: Seq<char>,
    fullname: Seq<char>,
    ty: Seq<char>,
    first: Seq<char>,
    second: Seq<char>,
)
    requires
        first != second,
    ensures
        conversion_where_text(where_clause, fullname, ty, marker_text(name, first))
            != conversion_where_text(where_clause, fullname, ty, marker_text(name, second)),
{
    let a = marker_text(name, first);
    let b = marker_text(name, second);
    lemma_markers_distinct(name, first, second);
    let head = clause_opening(where_clause) + (fullname + ": GetVariant<"@ + ty + ", "@);
    let tail = ">"@;
    let x = conversion_where_text(where_clause, fullname, ty, a);
    let y = conversion_where_text(where_clause, fullname, ty, b);
    assert(x =~= head + a + tail);
    assert(y =~= head + b + tail);
    if x == y {
        assert(a.len() == b.len()) by {
            assert(x.len() == head.len() + a.len() + tail.len());
            assert(y.len() == head.len() + b.len() + tail.len());
        }
        assert(x.subrange(head.len() as int, (head.len() + a.len()) as int) =~= a);
        assert(y.subrange(head.len() as int, (head.len() + b.len()) as int) =~= b);
    }
}

/// The where-clause for the fallible conversion into the payload type `ty`:
/// the predicates of `where_clause` and, after a comma, the constraint that
/// binds the enum to the access under the variant's marker.
pub fn conversion_where_clause(where_clause: &str, fullname: &str, ty: &str, marker: &str) -> (text:
    String)
    ensures
        text@ == conversion_where_text(where_clause@, fullname@, ty@, marker@),
{
    let mut bound = String::from_str(fullname);
    bound.append(": GetVariant<");
    bound.append(ty);
    bound.append(", ");
    bound.append(marker);
    bound.append(">");
    let mut text = String::from_str(where_clause);
    let length = where_clause.unicode_len();
    if length == 0 {
        text.append("where\n ");
        assert(text@ =~= "where\n "@);
    } else if where_clause.get_char(length - 1) == ',' {
        text.append("\n ");
    } else {
        text.append(",\n ");
    }
    text.append(bound.as_str());
    text
}

/// The variables of the accessor template for one variant.
pub open spec fn get_variant_context(
    name: Seq<char>,
    fullname: Seq<char>,
    where_clause: Seq<char>,
    generics: Seq<char>,
    field: Seq<char>,
    ty: Seq<char>,
) -> Context {
    Seq::empty().push(("generics"@, generics)).push(("Type"@, ty)).push(
        ("Marker"@, marker_text(name, field)),
    ).push(("fullname"@, fullname)).push(("name"@, name)).push(("field"@, field)).push(
        ("Where"@, where_clause),
    )
}

/// The variables of the fallible conversion's template for one variant.
pub open spec fn try_from_context(
    name: Seq<char>,
    fullname: Seq<char>,
    where_clause: Seq<char>,
    generics: Seq<char>,
    field: Seq<char>,
    ty: Seq<char>,
) -> Context {
    Seq::empty().push(("generics"@, generics)).push(("Type"@, ty)).push(
        ("fullname"@, fullname),
    ).push(("name"@, name)).push(
        ("Where"@, conversion_where_text(where_clause, fullname, ty, marker_text(name, field))),
    )
}

/// The variables of the construction's template for one variant.
pub open spec fn from_context(
    fullname: Seq<char>,
    where_clause: Seq<char>,
    generics: Seq<char>,
    field: Seq<char>,
    ty: Seq<char>,
) -> Context {
    Seq::empty().push(("generics"@, generics)).push(("Type"@, ty)).push(
        ("fullname"@, fullname),
    ).push(("field"@, field)).push(("Where"@, where_clause))
}

/// The accessor contexts of all variants, in their order.
pub open spec fn get_variant_contexts(
    name: Seq<char>,
    fullname: Seq<char>,
    where_clause: Seq<char>,
    generics: Seq<char>,
    variants: Entries,
) -> Seq<Context> {
    Seq::new(
        variants.len(),
        |i: int|
            get_variant_context(
                name,
                fullname,
                where_clause,
                generics,
                variants[i].0,
                variants[i].1,
            ),
    )
}

/// The fallible conversions' contexts of all variants, in their order.
pub open spec fn try_from_contexts(
    name: Seq<char>,
    fullname: Seq<char>,
    where_clause: Seq<char>,
    generics: Seq<char>,
    variants: Entries,
) -> Seq<Context> {
    Seq::new(
        variants.len(),
        |i: int|
            try_from_context(name, fullname, where_clause, generics, variants[i].0, variants[i].1),
    )
}

/// The constructions' contexts of all variants, in their order.
pub open spec fn from_contexts(
    fullname: Seq<char>,
    where_clause: Seq<char>,
    generics: Seq<char>,
    variants: Entries,
) -> Seq<Context> {
    Seq::new(
        variants.len(),
        |i: int| from_context(fullname, where_clause, generics, variants[i].0, variants[i].1),
    )
}

/// The renderings of one template on each context, one after the other, or
/// `None` where one of them fails.
pub open spec fn rendered_all(template: Seq<char>, contexts: Seq<Context>) -> Option<Seq<char>>
    decreases contexts.len(),
{
    if contexts.len() == 0 {
        Some(Seq::empty())
    } else {
        match rendered_all(template, contexts.drop_last()) {
            None => None,
            Some(head) => match template_rendering(template, contexts.last()) {
                None => None,
                Some(text) => Some(head + text),
            },
        }
    }
}

/// A failure among the first `k` renderings is a failure of them all.
pub proof fn lemma_failure_stays(template: Seq<char>, contexts: Seq<Context>, k: int)
    requires
        0 <= k <= contexts.len(),
        rendered_all(template, contexts.take(k)) is None,
    ensures
        rendered_all(template, contexts) is None,
    decreases contexts.len() - k,
{
    if k < contexts.len() {
        assert(contexts.take(k + 1).drop_last() =~= contexts.take(k));
        lemma_failure_stays(template, contexts, k + 1);
    } else {
        assert(contexts.take(k) =~= contexts);
    }
}

/// Adds a rendering to the text collected so far, or reports that the
/// family's template could not be rendered.
pub fn splice(unit: String, rendered: Option<String>, kind: TemplateKind) -> (spliced: Result<
    String,
    GenerateError,
>)
    ensures
        match rendered {
            Some(text) => spliced is Ok && spliced->Ok_0@ == unit@ + text@,
            None => spliced == Err::<String, GenerateError>(GenerateError::Render(kind)),
        },
{
    match rendered {
        Some(text) => {
            let mut unit = unit;
            unit.append(text.as_str());
            Ok(unit)
        },
        None => Err(GenerateError::Render(kind)),
    }
}

/// The models of a list of contexts.
pub open spec fn contexts_text(contexts: Seq<Vec<(String, String)>>) -> Seq<Context> {
    contexts.map_values(|c: Vec<(String, String)>| context_text(c@))
}

/// Renders the template of a family on each context and concatenates the
/// results in the contexts' order.
pub fn render_all(kind: TemplateKind, contexts: &Vec<Vec<(String, String)>>) -> (unit: Result<
    String,
    GenerateError,
>)
    ensures
        match unit {
            Ok(text) => rendered_all(kind.template_text(), contexts_text(contexts@)) == Some(
                text@,
            ),
            Err(e) => e == GenerateError::Render(kind) && rendered_all(
                kind.template_text(),
                contexts_text(contexts@),
            ) is None,
        },
{
    let ghost all = contexts_text(contexts@);
    let mut unit = String::new();
    let mut i: usize = 0;
    while i < contexts.len()
        invariant
            i <= contexts.len(),
            all == contexts_text(contexts@),
            rendered_all(kind.template_text(), all.take(i as int)) == Some(unit@),
        decreases contexts.len() - i,
    {
        proof {
            assert(all.take(i + 1).drop_last() =~= all.take(i as int));
            assert(all.take(i + 1).last() == context_text(contexts@[i as int]@));
        }
        let rendered = render_template(kind.template(), &contexts[i]);
        match splice(unit, rendered, kind) {
            Ok(longer) => {
                unit = longer;
            },
            Err(e) => {
                proof {
                    lemma_failure_stays(kind.template_text(), all, i + 1);
                }
                return Err(e);
            },
        }
        i += 1;
    }
    assert(all.take(contexts@.len() as int) =~= all);
    Ok(unit)
}

/// Implements the access to each variant by its payload type and marker:
/// one rendering of the accessor template per variant.
pub fn impl_get_variant(
    name: &str,
    fullname: &str,
    where_clause: &str,
    impl_generics: &str,
    field_map: &VariantMap,
) -> (unit: Result<String, GenerateError>)
    ensures
        match unit {
            Ok(text) => rendered_all(
                TemplateKind::GetVariant.template_text(),
                get_variant_contexts(name@, fullname@, where_clause@, impl_generics@, field_map@),
            ) == Some(text@),
            Err(e) => e == GenerateError::Render(TemplateKind::GetVariant) && rendered_all(
                TemplateKind::GetVariant.template_text(),
                get_variant_contexts(name@, fullname@, where_clause@, impl_generics@, field_map@),
            ) is None,
        },
{
    let ghost wanted = get_variant_contexts(
        name@,
        fullname@,
        where_clause@,
        impl_generics@,
        field_map@,
    );
    let mut contexts: Vec<Vec<(String, String)>> = Vec::new();
    let mut i: usize = 0;
    while i < field_map.len()
        invariant
            i <= field_map@.len(),
            contexts@.len() == i,
            wanted == get_variant_contexts(
                name@,
                fullname@,
                where_clause@,
                impl_generics@,
                field_map@,
            ),
            forall|j: int| 0 <= j < i ==> context_text((#[trigger] contexts@[j])@) == wanted[j],
        decreases field_map@.len() - i,
    {
        let field = field_map.name_at(i);
        let ty = field_map.type_at(i);
        let marker = get_marker(name, field.as_str());
        let mut context: Vec<(String, String)> = Vec::new();
        assert(context_text(context@) =~= Seq::empty());
        insert_value(&mut context, "generics", impl_generics);
        insert_value(&mut context, "Type", ty.as_str());
        insert_value(&mut context, "Marker", marker.as_str());
        insert_value(&mut context, "fullname", fullname);
        insert_value(&mut context, "name", name);
        insert_value(&mut context, "field", field.as_str());
        insert_value(&mut context, "Where", where_clause);
        contexts.push(context);
        i += 1;
    }
    assert(contexts_text(contexts@) =~= wanted);
    render_all(TemplateKind::GetVariant, &contexts)
}

/// Implements the fallible conversion from the enum into each payload type:
/// one rendering per variant, under a where-clause that names the variant's
/// marker, so that two variants never give the same instance.
pub fn impl_try_from(
    name: &str,
    fullname: &str,
    where_clause: &str,
    impl_generics: &str,
    field_map: &VariantMap,
) -> (unit: Result<String, GenerateError>)
    ensures
        match unit {
            Ok(text) => rendered_all(
                TemplateKind::TryFrom.template_text(),
                try_from_contexts(name@, fullname@, where_clause@, impl_generics@, field_map@),
            ) == Some(text@),
            Err(e) => e == GenerateError::Render(TemplateKind::TryFrom) && rendered_all(
                TemplateKind::TryFrom.template_text(),
                try_from_contexts(name@, fullname@, where_clause@, impl_generics@, field_map@),
            ) is None,
        },
{
    let ghost wanted = try_from_contexts(
        name@,
        fullname@,
        where_clause@,
        impl_generics@,
        field_map@,
    );
    let mut contexts: Vec<Vec<(String, String)>> = Vec::new();
    let mut i: usize = 0;
    while i < field_map.len()
        invariant
            i <= field_map@.len(),
            contexts@.len() == i,
            wanted == try_from_contexts(
                name@,
                fullname@,
                where_clause@,
                impl_generics@,
                field_map@,
            ),
            forall|j: int| 0 <= j < i ==> context_text((#[trigger] contexts@[j])@) == wanted[j],
        decreases field_map@.len() - i,
    {
        let field = field_map.name_at(i);
        let ty = field_map.type_at(i);
        let marker = get_marker(name, field.as_str());
        let where_string = conversion_where_clause(
            where_clause,
            fullname,
            ty.as_str(),
            marker.as_str(),
        );
        let mut context: Vec<(String, String)> = Vec::new();
        assert(context_text(context@) =~= Seq::empty());
        insert_value(&mut context, "generics", impl_generics);
        insert_value(&mut context, "Type", ty.as_str());
        insert_value(&mut context, "fullname", fullname);
        insert_value(&mut context, "name", name);
        insert_value(&mut context, "Where", where_string.as_str());
        contexts.push(context);
        i += 1;
    }
    assert(contexts_text(contexts@) =~= wanted);
    render_all(TemplateKind::TryFrom, &contexts)
}

/// Implements the construction of the enum from each payload type: one
/// rendering per variant.
pub fn impl_from(
    fullname: &str,
    where_clause: &str,
    impl_generics: &str,
    field_map: &VariantMap,
) -> (unit: Result<String, GenerateError>)
    ensures
        match unit {
            Ok(text) => rendered_all(
                TemplateKind::From.template_text(),
                from_contexts(fullname@, where_clause@, impl_generics@, field_map@),
            ) == Some(text@),
            Err(e) => e == GenerateError::Render(TemplateKind::From) && rendered_all(
                TemplateKind::From.template_text(),
                from_contexts(fullname@, where_clause@, impl_generics@, field_map@),
            ) is None,
        },
{
    let ghost wanted = from_contexts(fullname@, where_clause@, impl_generics@, field_map@);
    let mut contexts: Vec<Vec<(String, String)>> = Vec::new();
    let mut i: usize = 0;
    while i < field_map.len()
        invariant
            i <= field_map@.len(),
            contexts@.len() == i,
            wanted == from_contexts(fullname@, where_clause@, impl_generics@, field_map@),
            forall|j: int| 0 <= j < i ==> context_text((#[trigger] contexts@[j])@) == wanted[j],
        decreases field_map@.len() - i,
    {
        let field = field_map.name_at(i);
        let ty = field_map.type_at(i);
        let mut context: Vec<(String, String)> = Vec::new();
        assert(context_text(context@) =~= Seq::empty());
        insert_value(&mut context, "generics", impl_generics);
        insert_value(&mut context, "Type", ty.as_str());
        insert_value(&mut context, "fullname", fullname);
        insert_value(&mut context, "field", field.as_str());
        insert_value(&mut context, "Where", where_clause);
        contexts.push(context);
        i += 1;
    }
    assert(contexts_text(contexts@) =~= wanted);
    render_all(TemplateKind::From, &contexts)
}

/// The generated unit of a schema: the marker module, then the accessors,
/// the fallible conversions and the constructions of all variants; or the
/// family whose template is the first that fails to render.
pub open spec fn generated_unit(
    name: Seq<char>,
    fullname: Seq<char>,
    where_clause: Seq<char>,
    generics: Seq<char>,
    variants: Entries,
) -> Result<Seq<char>, GenerateError> {
    match rendered_all(
        TemplateKind::GetVariant.template_text(),
        get_variant_contexts(name, fullname, where_clause, generics, variants),
    ) {
        None => Err(GenerateError::Render(TemplateKind::GetVariant)),
        Some(accessors) => match rendered_all(
            TemplateKind::TryFrom.template_text(),
            try_from_contexts(name, fullname, where_clause, generics, variants),
        ) {
            None => Err(GenerateError::Render(TemplateKind::TryFrom)),
            Some(conversions) => match rendered_all(
                TemplateKind::From.template_text(),
                from_contexts(fullname, where_clause, generics, variants),
            ) {
                None => Err(GenerateError::Render(TemplateKind::From)),
                Some(constructions) => Ok(
                    marker_module(name, variants) + accessors + conversions + constructions,
                ),
            },
        },
    }
}

/// Generates the unit of a schema that is given by its parts.
pub fn generate(
    name: &str,
    fullname: &str,
    where_clause: &str,
    impl_generics: &str,
    field_map: &VariantMap,
) -> (unit: Result<String, GenerateError>)
    ensures
        match unit {
            Ok(text) => generated_unit(
                name@,
                fullname@,
                where_clause@,
                impl_generics@,
                field_map@,
            ) == Ok::<Seq<char>, GenerateError>(text@),
            Err(e) => generated_unit(name@, fullname@, where_clause@, impl_generics@, field_map@)
                == Err::<Seq<char>, GenerateError>(e),
        },
{
    let mut tokens = create_marker_enums(name, field_map);
    match impl_get_variant(name, fullname, where_clause, impl_generics, field_map) {
        Ok(text) => tokens.append(text.as_str()),
        Err(e) => {
            return Err(e);
        },
    }
    match impl_try_from(name, fullname, where_clause, impl_generics, field_map) {
        Ok(text) => tokens.append(text.as_str()),
        Err(e) => {
            return Err(e);
        },
    }
    match impl_from(fullname, where_clause, impl_generics, field_map) {
        Ok(text) => tokens.append(text.as_str()),
        Err(e) => {
            return Err(e);
        },
    }
    Ok(tokens)
}

/// What is generated for a declaration that is given by its parts: the error
/// of its cases, or the unit of its schema.
pub open spec fn conversions_of(
    name: Seq<char>,
    fullname: Seq<char>,
    where_clause: Seq<char>,
    generics: Seq<char>,
    cases: Result<Entries, SchemaError>,
) -> Result<Seq<char>, GenerateError> {
    match cases {
        Err(e) => Err(GenerateError::Schema(e)),
        Ok(variants) => generated_unit(name, fullname, where_clause, generics, variants),
    }
}

/// Generates the conversions of a declared enum: its marker module and, for
/// each variant, the accessor, the fallible conversion and the construction.
///
/// A declaration of an unsupported shape gives its error and no text.
pub fn impl_conversions(ast: &syn::DeriveInput) -> (unit: Result<String, GenerateError>)
    ensures
        match unit {
            Ok(text) => conversions_of(
                declared_name(*ast),
                applied_name(declared_name(*ast), declared_params(*ast)),
                where_text(declared_where_clause(*ast)),
                declared_generics(*ast),
                extract_variants(declared_cases(*ast)),
            ) == Ok::<Seq<char>, GenerateError>(text@),
            Err(e) => conversions_of(
                declared_name(*ast),
                applied_name(declared_name(*ast), declared_params(*ast)),
                where_text(declared_where_clause(*ast)),
                declared_generics(*ast),
                extract_variants(declared_cases(*ast)),
            ) == Err::<Seq<char>, GenerateError>(e),
        },
        extract_variants(declared_cases(*ast)) is Err ==> unit == Err::<String, GenerateError>(
            GenerateError::Schema(extract_variants(declared_cases(*ast))->Err_0),
        ),
{
    let name = name_of(ast);
    let fullname = fetch_name_with_generic_params(ast);
    let (impl_generics, where_clause) = fetch_impl_generics(ast);
    match fetch_fields_from_enum(ast) {
        Err(e) => Err(GenerateError::Schema(e)),
        Ok(field_map) => generate(
            name.as_str(),
            fullname.as_str(),
            where_clause.as_str(),
            impl_generics.as_str(),
            &field_map,
        ),
    }
}

} // verus!
