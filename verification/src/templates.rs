//! The templates of the generated implementations, and their rendering.

use vstd::prelude::*;

verus! {

/// Implements `GetVariant` for one variant, by its payload type and marker.
pub const GET_VARIANT_TEMPLATE: &'static str =
    r#"
impl{{ generics }} variant_access_traits::GetVariant<{{ Type }}, {{ Marker }} > for {{ fullname }}
{{ Where }} {
    fn get_variant(self) -> std::result::Result<{{ Type }}, variant_access_traits::VariantAccessError> {
        match self {
            {{ name }}::{{ field }}(inner) => Ok(inner),
            _ => Err(variant_access_traits::VariantAccessError::wrong_active_field("{{ fullname }}", "{{ Type }}"))
        }
    }

    fn get_variant_ref(&self) -> std::result::Result<&{{ Type }}, variant_access_traits::VariantAccessError> {
        match &self {
            {{ name }}::{{ field }}(inner) => Ok(inner),
            _ => Err(variant_access_traits::VariantAccessError::wrong_active_field("{{ fullname }}", "{{ Type }}"))
        }
    }

    fn get_variant_mut(&mut self) -> std::result::Result<&mut {{ Type }}, variant_access_traits::VariantAccessError> {
        match self {
            {{ name }}::{{ field }}(inner) => Ok(inner),
            _  => Err(variant_access_traits::VariantAccessError::wrong_active_field("{{ fullname }}", "{{ Type }}"))
        }
    }
}
"#;

/// Implements `TryFrom` the enum for one payload type.
pub const TRY_FROM_TEMPLATE: &'static str =
    r#"
impl{{ generics }} TryFrom<{{ fullname }}> for {{ Type }}
{{ Where }}
{
    type Error = Box<dyn Error + 'static>;

    fn try_from(value: {{ fullname }}) -> std::result::Result<Self, Self::Error> {
        value.get_variant().map_err(|e| e.to_string().into())
    }
}"#;

/// Implements `From` one payload type for the enum.
pub const FROM_TEMPLATE: &'static str =
    r#"
impl{{ generics }} From<{{ Type }}> for {{ fullname }}
{{ Where }}
{

    fn from(value: {{ Type }}) -> Self {
        Self::{{ field }}(value)
    }
}
"#;

/// The three families of implementations.
#[derive(Clone, Copy, Debug, PartialEq, Eq, Structural)]
pub enum TemplateKind {
    GetVariant,
    TryFrom,
    From,
}

impl TemplateKind {
    /// The text of the family's template.
    pub open spec fn template_text(self) -> Seq<char> {
        match self {
            TemplateKind::GetVariant => GET_VARIANT_TEMPLATE@,
            TemplateKind::TryFrom => TRY_FROM_TEMPLATE@,
            TemplateKind::From => FROM_TEMPLATE@,
        }
    }

    /// The family's template.
    pub fn template(&self) -> (text: &'static str)
        ensures
            text@ == self.template_text(),
    {
        match self {
            TemplateKind::GetVariant => GET_VARIANT_TEMPLATE,
            TemplateKind::TryFrom => TRY_FROM_TEMPLATE,
            TemplateKind::From => FROM_TEMPLATE,
        }
    }
}

/// The values of a template's variables: pairs of a variable's name and its
/// text, a later pair replacing an earlier one of the same name.
pub type Context = Seq<(Seq<char>, Seq<char>)>;

/// The model of a context that is held as a vector of strings.
pub open spec fn context_text(entries: Seq<(String, String)>) -> Context {
    entries.map_values(|e: (String, String)| (e.0@, e.1@))
}

/// The text is one of this module's three templates.
pub open spec fn is_library_template(text: Seq<char>) -> bool {
    exists|kind: TemplateKind| text == #[trigger] kind.template_text()
}

/// What `tera` makes of a template and a context: the rendered text, or
/// `None` where it reports an error.
pub uninterp spec fn template_rendering(template: Seq<char>, context: Context) -> Option<
    Seq<char>,
>;

/// Adds a variable to a context.
pub fn insert_value(context: &mut Vec<(String, String)>, key: &str, value: &str)
    ensures
        context_text(final(context)@) == context_text(old(context)@).push((key@, value@)),
{
    let ghost before = context@;
    context.push((String::from_str(key), String::from_str(value)));
    assert(context_text(context@) =~= context_text(before).push((key@, value@)));
}

/// Renders a template through `tera::Tera::one_off`, without escaping, on a
/// `tera::Context` that holds the given pairs, inserted in their order by
/// `tera::Context::insert`.
///
/// The contract names the outcome. It is claimed for this module's templates
/// only: they hold nothing but plain variables, so that the outcome depends
/// on the template and the context alone. Nothing is claimed of whether the
/// rendering succeeds.
#[verifier::external_body]
pub(crate) fn render_template(template: &str, context: &Vec<(String, String)>) -> (rendered:
    Option<String>)
    requires
        is_library_template(template@),
    ensures
        match rendered {
            Some(text) => template_rendering(template@, context_text(context@)) == Some(text@),
            None => template_rendering(template@, context_text(context@)) is None,
        },
{
    let mut values = tera::Context::new();
    for entry in context.iter() {
        values.insert(entry.0.as_str(), &entry.1);
    }
    tera::Tera::one_off(template, &values, false).ok()
}

} // verus!
