//! The data that the generator works on: generic parameters, the cases of a
//! declaration, and the validated map from variant names to payload types.

use vstd::prelude::*;

verus! {

/// One generic parameter of a declaration, by its bare identifier.
///
/// A lifetime's identifier includes its leading apostrophe.
#[derive(Clone, Debug)]
pub enum GenericParam {
    Type(String),
    Lifetime(String),
    Const(String),
}

impl GenericParam {
    /// The identifier's characters.
    pub open spec fn ident_text(self) -> Seq<char> {
        match self {
            GenericParam::Type(ident) => ident@,
            GenericParam::Lifetime(ident) => ident@,
            GenericParam::Const(ident) => ident@,
        }
    }

    /// The bare identifier, without bounds.
    pub fn ident(&self) -> (ident: &String)
        ensures
            ident@ == self.ident_text(),
    {
        match self {
            GenericParam::Type(ident) => ident,
            GenericParam::Lifetime(ident) => ident,
            GenericParam::Const(ident) => ident,
        }
    }
}

/// The fields that one case of an enum declares.
#[derive(Clone, Debug)]
pub enum CaseShape {
    /// Positional fields, each by the text of its type.
    Unnamed(Vec<String>),
    /// Record-style fields.
    Named,
    /// No fields at all.
    Unit,
}

/// One case of an enum: its name and its fields.
#[derive(Clone, Debug)]
pub struct Case {
    pub name: String,
    pub shape: CaseShape,
}

/// Why a declaration cannot be given conversions.
#[derive(Clone, Copy, Debug, PartialEq, Eq, Structural)]
pub enum SchemaError {
    /// The declaration is a struct or a union.
    NotAnEnum,
    /// A case has positional fields, but not exactly one.
    MultipleFields,
    /// A case has named fields.
    NamedFields,
    /// A case has no payload.
    UnitVariant,
}

impl SchemaError {
    /// The text of the message for this error.
    pub open spec fn message_text(self) -> Seq<char> {
        match self {
            SchemaError::NotAnEnum => "Can only derive for enums."@,
            SchemaError::MultipleFields =>
                "Can only derive for enums whose types do not contain multiple fields."@,
            SchemaError::NamedFields =>
                "Can only derive for enums whose types do not have named fields."@,
            SchemaError::UnitVariant =>
                "Can only derive for enums who don't contain unit types as variants."@,
        }
    }

    /// A description of the violated rule.
    pub fn message(&self) -> (text: String)
        ensures
            text@ == self.message_text(),
    {
        match self {
            SchemaError::NotAnEnum => String::from_str("Can only derive for enums."),
            SchemaError::MultipleFields => String::from_str(
                "Can only derive for enums whose types do not contain multiple fields.",
            ),
            SchemaError::NamedFields => String::from_str(
                "Can only derive for enums whose types do not have named fields.",
            ),
            SchemaError::UnitVariant => String::from_str(
                "Can only derive for enums who don't contain unit types as variants.",
            ),
        }
    }
}

/// A sequence of (variant name, payload type) pairs: the model of a
/// [`VariantMap`].
pub type Entries = Seq<(Seq<char>, Seq<char>)>;

/// No name occurs twice among the entries.
pub open spec fn distinct_names(entries: Entries) -> bool {
    forall|i: int, j: int|
        0 <= i < j < entries.len() ==> (#[trigger] entries[i]).0 != (#[trigger] entries[j]).0
}

/// Some entry has this name.
pub open spec fn has_name(entries: Entries, name: Seq<char>) -> bool {
    exists|i: int| 0 <= i < entries.len() && (#[trigger] entries[i]).0 == name
}

/// The position of an entry with this name, where there is one.
pub open spec fn position_of(entries: Entries, name: Seq<char>) -> int {
    choose|i: int| 0 <= i < entries.len() && (#[trigger] entries[i]).0 == name
}

/// The entries after `name` has been mapped to `ty`: an entry of that name
/// keeps its place and gets the new type, a new name goes to the end.
pub open spec fn put(entries: Entries, name: Seq<char>, ty: Seq<char>) -> Entries {
    if has_name(entries, name) {
        entries.update(position_of(entries, name), (name, ty))
    } else {
        entries.push((name, ty))
    }
}

/// With distinct names, an entry's name is found at that entry's position.
pub proof fn lemma_position_of(entries: Entries, name: Seq<char>, i: int)
    requires
        distinct_names(entries),
        0 <= i < entries.len(),
        entries[i].0 == name,
    ensures
        has_name(entries, name),
        position_of(entries, name) == i,
{
    let k = position_of(entries, name);
    assert(entries[k].0 == name);
    if k < i {
        assert(entries[k].0 != entries[i].0);
    } else if i < k {
        assert(entries[i].0 != entries[k].0);
    }
}

/// Mapping a name to a type keeps the names distinct.
pub proof fn lemma_put_distinct(entries: Entries, name: Seq<char>, ty: Seq<char>)
    requires
        distinct_names(entries),
    ensures
        distinct_names(put(entries, name, ty)),
{
    let after = put(entries, name, ty);
    if has_name(entries, name) {
        let k = position_of(entries, name);
        assert forall|i: int, j: int| 0 <= i < j < after.len() implies (#[trigger] after[i]).0 != (
        #[trigger] after[j]).0 by {
            assert(after[i].0 == entries[i].0);
            assert(after[j].0 == entries[j].0);
        }
    } else {
        assert forall|i: int, j: int| 0 <= i < j < after.len() implies (#[trigger] after[i]).0 != (
        #[trigger] after[j]).0 by {
            assert(after[i] == entries[i]);
            if j < entries.len() {
                assert(after[j] == entries[j]);
            }
        }
    }
}

/// A variant's name with the text of its payload type.
#[derive(Clone, Debug)]
pub struct Variant {
    pub name: String,
    pub ty: String,
}

/// The variants of an enum: a map from each variant's name to the text of its
/// payload type, walked in the order in which the names were first inserted.
#[derive(Clone, Debug)]
pub struct VariantMap {
    entries: Vec<Variant>,
}

impl View for VariantMap {
    type V = Entries;

    closed spec fn view(&self) -> Entries {
        self.entries@.map_values(|v: Variant| (v.name@, v.ty@))
    }
}

impl VariantMap {
    /// The invariant of the map: every name occurs once.
    pub open spec fn wf(&self) -> bool {
        distinct_names(self@)
    }

    /// The empty map.
    pub fn new() -> (map: VariantMap)
        ensures
            map@ == Entries::empty(),
            map.wf(),
    {
        let map = VariantMap { entries: Vec::new() };
        assert(map@ =~= Entries::empty());
        map
    }

    /// The number of variants.
    pub fn len(&self) -> (n: usize)
        ensures
            n == self@.len(),
    {
        self.entries.len()
    }

    /// The name of the variant at position `i`.
    pub fn name_at(&self, i: usize) -> (name: &String)
        requires
            i < self@.len(),
        ensures
            name@ == self@[i as int].0,
    {
        &self.entries[i].name
    }

    /// The payload type of the variant at position `i`.
    pub fn type_at(&self, i: usize) -> (ty: &String)
        requires
            i < self@.len(),
        ensures
            ty@ == self@[i as int].1,
    {
        &self.entries[i].ty
    }

    /// The payload type of the variant called `name`, if there is one.
    pub fn get(&self, name: &str) -> (found: Option<&String>)
        requires
            self.wf(),
        ensures
            match found {
                Some(ty) => has_name(self@, name@) && ty@ == self@[position_of(self@, name@)].1,
                None => !has_name(self@, name@),
            },
    {
        let key = String::from_str(name);
        let mut i: usize = 0;
        while i < self.entries.len()
            invariant
                i <= self.entries.len(),
                key@ == name@,
                self.wf(),
                forall|j: int| 0 <= j < i ==> (#[trigger] self@[j]).0 != name@,
            decreases self.entries.len() - i,
        {
            if self.entries[i].name == key {
                proof {
                    lemma_position_of(self@, name@, i as int);
                }
                return Some(&self.entries[i].ty);
            }
            i += 1;
        }
        None
    }

    /// Maps `name` to `ty`. A variant of that name keeps its place and gets
    /// the new payload type; a new name is added after the others.
    pub fn insert(&mut self, name: String, ty: String)
        requires
            old(self).wf(),
        ensures
            final(self)@ == put(old(self)@, name@, ty@),
            final(self).wf(),
    {
        proof {
            lemma_put_distinct(self@, name@, ty@);
        }
        let mut i: usize = 0;
        while i < self.entries.len()
            invariant
                i <= self.entries.len(),
                *self == *old(self),
                self.wf(),
                forall|j: int| 0 <= j < i ==> (#[trigger] self@[j]).0 != name@,
            decreases self.entries.len() - i,
        {
            if self.entries[i].name == name {
                let ghost before = self@;
                proof {
                    lemma_position_of(before, name@, i as int);
                }
                self.entries.set(i, Variant { name, ty });
                assert(self@ =~= before.update(i as int, (name@, ty@)));
                return ;
            }
            i += 1;
        }
        let ghost before = self@;
        self.entries.push(Variant { name, ty });
        assert(self@ =~= before.push((name@, ty@)));
    }

    /// The (name, payload type) pairs in the map's order.
    pub fn to_pairs(&self) -> (pairs: Vec<(String, String)>)
        ensures
            pairs@.len() == self@.len(),
            forall|i: int|
                0 <= i < pairs@.len() ==> (#[trigger] pairs@[i]).0@ == self@[i].0 && pairs@[i].1@
                    == self@[i].1,
    {
        let mut pairs: Vec<(String, String)> = Vec::new();
        let mut i: usize = 0;
        while i < self.entries.len()
            invariant
                i <= self.entries.len(),
                pairs@.len() == i,
                forall|j: int|
                    0 <= j < i ==> (#[trigger] pairs@[j]).0@ == self@[j].0 && pairs@[j].1@
                        == self@[j].1,
            decreases self.entries.len() - i,
        {
            pairs.push((self.entries[i].name.clone(), self.entries[i].ty.clone()));
            i += 1;
        }
        pairs
    }
}

} // verus!
