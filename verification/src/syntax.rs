//! What the generator reads from a parsed declaration.
//!
//! The declaration is a `syn::DeriveInput`. Nothing in this module is proved:
//! each function reads one part of the syntax tree and hands it out as plain
//! values, and its contract gives that part a name.

use vstd::prelude::*;
use crate::schema::{Case, CaseShape, GenericParam};
use quote::ToTokens;

verus! {

#[verifier::external_type_specification]
#[verifier::external_body]
pub struct ExDeriveInput(syn::DeriveInput);

/// The identifier that the declaration declares.
pub uninterp spec fn declared_name(ast: syn::DeriveInput) -> Seq<char>;

/// The declaration's generic parameters, in the order in which it lists them.
pub uninterp spec fn declared_params(ast: syn::DeriveInput) -> Seq<GenericParam>;

/// The text of the declaration's generic parameter list as `syn` prints it:
/// empty where there are no parameters, else in angle brackets, lifetimes
/// first, with bounds and defaults, and without the where-clause.
pub uninterp spec fn declared_generics(ast: syn::DeriveInput) -> Seq<char>;

/// The text of the declaration's where-clause, if it has one.
pub uninterp spec fn declared_where_clause(ast: syn::DeriveInput) -> Option<Seq<char>>;

/// The cases of the declaration in their order, or `None` where it declares a
/// struct or a union.
pub uninterp spec fn declared_cases(ast: syn::DeriveInput) -> Option<Seq<Case>>;

/// Prints the field `ident` of `syn::DeriveInput` through
/// `quote::ToTokens::to_token_stream` and `to_string`. The contract only
/// names the text.
#[verifier::external_body]
pub(crate) fn name_of(ast: &syn::DeriveInput) -> (name: String)
    ensures
        name@ == declared_name(*ast),
{
    ast.ident.to_token_stream().to_string()
}

/// Walks `generics.params` of `syn::DeriveInput` and prints, for each
/// `syn::GenericParam`, the identifier of a type or const parameter or the
/// lifetime of a lifetime parameter. The contract only names the list.
#[verifier::external_body]
pub(crate) fn params_of(ast: &syn::DeriveInput) -> (params: Vec<GenericParam>)
    ensures
        params@ == declared_params(*ast),
{
    let mut params = Vec::new();
    for param in ast.generics.params.iter() {
        params.push(match param {
            syn::GenericParam::Type(t) => GenericParam::Type(t.ident.to_token_stream().to_string()),
            syn::GenericParam::Lifetime(l) => GenericParam::Lifetime(l.lifetime.to_token_stream().to_string()),
            syn::GenericParam::Const(c) => GenericParam::Const(c.ident.to_token_stream().to_string()),
        });
    }
    params
}

/// Prints `generics` of `syn::DeriveInput` through the `ToTokens` impl of
/// `syn::Generics`, which leaves the where-clause out. The contract only
/// names the text.
#[verifier::external_body]
pub(crate) fn generics_of(ast: &syn::DeriveInput) -> (generics: String)
    ensures
        generics@ == declared_generics(*ast),
{
    ast.generics.to_token_stream().to_string()
}

/// Prints `generics.where_clause` of `syn::DeriveInput`, a
/// `syn::WhereClause`, where there is one. The contract only names the text.
#[verifier::external_body]
pub(crate) fn where_clause_of(ast: &syn::DeriveInput) -> (clause: Option<String>)
    ensures
        match clause {
            Some(text) => declared_where_clause(*ast) == Some(text@),
            None => declared_where_clause(*ast) is None,
        },
{
    ast.generics.where_clause.as_ref().map(|w| w.to_token_stream().to_string())
}

/// Reads `data` of `syn::DeriveInput`: for a `syn::Data::Enum`, each
/// `syn::Variant` by its printed identifier and its `syn::Fields`, the
/// unnamed fields by their printed types; nothing for a struct or a union.
/// The contract only names the list.
#[verifier::external_body]
pub(crate) fn cases_of(ast: &syn::DeriveInput) -> (cases: Option<Vec<Case>>)
    ensures
        match cases {
            Some(list) => declared_cases(*ast) == Some(list@),
            None => declared_cases(*ast) is None,
        },
{
    let syn::Data::Enum(data) = &ast.data else { return None; };
    let mut cases = Vec::new();
    for var in data.variants.iter() {
        let shape = match &var.fields {
            syn::Fields::Unnamed(f) => CaseShape::Unnamed(f.unnamed.iter().map(|x| x.ty.to_token_stream().to_string()).collect()),
            syn::Fields::Named(_) => CaseShape::Named,
            syn::Fields::Unit => CaseShape::Unit,
        };
        cases.push(Case { name: var.ident.to_token_stream().to_string(), shape });
    }
    Some(cases)
}

} // verus!
