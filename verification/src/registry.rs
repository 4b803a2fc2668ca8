//! The wire schema registry: an immutable table, per protocol version,
//! mapping a fully-qualified entity or field path to the encoding
//! directives that apply to it.
//!
//! Directives are a typed enumeration composed as an ordered set per path;
//! they are purely descriptive and hold no state. Lookup is by exact path
//! match with no wildcarding. A registry is built once and read-only
//! afterwards.

use vstd::prelude::*;
use vstd::string::StringExecFns;

verus! {

/// One encoding directive attached to an entity or field path.
#[derive(Clone, Debug, PartialEq, Eq)]
pub enum Directive {
    /// The type participates in structural serialization.
    Serialized,
    /// The sum type is externally tagged with a type+value envelope.
    TypeTagged,
    /// The enum is carried as its primitive discriminant.
    PrimitiveEnum,
    /// Field labels are rendered in PascalCase.
    RenameAllPascal,
    /// An absent field is filled with its default value instead of failing.
    DefaultFill,
    /// The integer is carried as quoted decimal text.
    Quoted,
    /// The byte sequence is carried as hex text.
    HexText,
    /// Each byte sequence of a list is carried as hex text.
    VecHexText,
    /// The byte sequence is carried as base64 text.
    Base64Text,
    /// Each byte sequence of a list is carried as base64 text.
    VecBase64Text,
    /// An absent field decodes to a specified default value.
    OptionalField,
    /// The field is omitted from the encoding when empty.
    SkipIfEmpty,
    /// The field does not participate in structural serialization at all,
    /// though it may stay authoritative for other computations.
    Skip,
    /// Empty <-> absent collapsing for a list of base64-encoded entries.
    NullableArray,
    /// Empty <-> absent collapsing for a list.
    Nullable,
    /// The wire label differs from the field name.
    Rename(String),
    /// A legacy wire label accepted as an alias when decoding.
    Alias(String),
}

/// The mathematical value of a `Directive`.
pub ghost enum DirectiveModel {
    Serialized,
    TypeTagged,
    PrimitiveEnum,
    RenameAllPascal,
    DefaultFill,
    Quoted,
    HexText,
    VecHexText,
    Base64Text,
    VecBase64Text,
    OptionalField,
    SkipIfEmpty,
    Skip,
    NullableArray,
    Nullable,
    Rename(Seq<char>),
    Alias(Seq<char>),
}

impl View for Directive {
    type V = DirectiveModel;

    open spec fn view(&self) -> DirectiveModel {
        match self {
            Directive::Serialized => DirectiveModel::Serialized,
            Directive::TypeTagged => DirectiveModel::TypeTagged,
            Directive::PrimitiveEnum => DirectiveModel::PrimitiveEnum,
            Directive::RenameAllPascal => DirectiveModel::RenameAllPascal,
            Directive::DefaultFill => DirectiveModel::DefaultFill,
            Directive::Quoted => DirectiveModel::Quoted,
            Directive::HexText => DirectiveModel::HexText,
            Directive::VecHexText => DirectiveModel::VecHexText,
            Directive::Base64Text => DirectiveModel::Base64Text,
            Directive::VecBase64Text => DirectiveModel::VecBase64Text,
            Directive::OptionalField => DirectiveModel::OptionalField,
            Directive::SkipIfEmpty => DirectiveModel::SkipIfEmpty,
            Directive::Skip => DirectiveModel::Skip,
            Directive::NullableArray => DirectiveModel::NullableArray,
            Directive::Nullable => DirectiveModel::Nullable,
            Directive::Rename(s) => DirectiveModel::Rename(s@),
            Directive::Alias(s) => DirectiveModel::Alias(s@),
        }
    }
}

impl DeepView for Directive {
    type V = DirectiveModel;

    open spec fn deep_view(&self) -> DirectiveModel {
        self@
    }
}

/// One registry entry: a fully-qualified path and the ordered set of
/// directives attached to it.
#[derive(Clone, Debug, PartialEq, Eq)]
pub struct RegistryEntry {
    pub path: String,
    pub directives: Vec<Directive>,
}

/// The mathematical value of a `RegistryEntry`.
pub ghost struct EntryModel {
    pub path: Seq<char>,
    pub directives: Seq<DirectiveModel>,
}

impl View for RegistryEntry {
    type V = EntryModel;

    open spec fn view(&self) -> EntryModel {
        EntryModel { path: self.path@, directives: self.directives.deep_view() }
    }
}

/// One protocol version's schema registry: a type-level table and a
/// field-level table, both keyed by exact path.
#[derive(Clone, Debug, PartialEq, Eq)]
pub struct Registry {
    pub types: Vec<RegistryEntry>,
    pub fields: Vec<RegistryEntry>,
}

/// The mathematical value of a `Registry`.
pub ghost struct RegistryModel {
    pub types: Seq<EntryModel>,
    pub fields: Seq<EntryModel>,
}

/// The mathematical values of a table of entries.
pub open spec fn entries_model(entries: Seq<RegistryEntry>) -> Seq<EntryModel> {
    entries.map_values(|e: RegistryEntry| e@)
}

impl View for Registry {
    type V = RegistryModel;

    open spec fn view(&self) -> RegistryModel {
        RegistryModel {
            types: entries_model(self.types@),
            fields: entries_model(self.fields@),
        }
    }
}

/// The directive set of the first entry with the given path, if any:
/// exact-match lookup, no wildcarding or inheritance between paths.
pub open spec fn lookup_directives(entries: Seq<EntryModel>, path: Seq<char>) -> Option<
    Seq<DirectiveModel>,
>
    decreases entries.len(),
{
    if entries.len() == 0 {
        None::<Seq<DirectiveModel>>
    } else if entries[0].path == path {
        Some(entries[0].directives)
    } else {
        lookup_directives(entries.skip(1), path)
    }
}

/// Whether one directive lets an absent wire field decode to a default or
/// empty value instead of failing.
pub open spec fn directive_allows_absent(d: DirectiveModel) -> bool {
    d == DirectiveModel::DefaultFill || d == DirectiveModel::OptionalField || d
        == DirectiveModel::Nullable || d == DirectiveModel::NullableArray
}

/// Whether a directive set holds a directive that lets an absent wire
/// field decode to a default or empty value.
pub open spec fn set_allows_absent(ds: Seq<DirectiveModel>) -> bool {
    exists|i: int| 0 <= i < ds.len() && directive_allows_absent(#[trigger] ds[i])
}

/// Whether a possibly missing directive set lets an absent wire field
/// decode to a default or empty value instead of failing.
pub open spec fn absent_field_ok(dirs: Option<Seq<DirectiveModel>>) -> bool {
    match dirs {
        None => false,
        Some(ds) => set_allows_absent(ds),
    }
}

/// Look up the field-level directives for an exact path.
pub fn field_directives<'a>(reg: &'a Registry, path: &String) -> (r: Option<&'a Vec<Directive>>)
    ensures
        match r {
            Some(ds) => lookup_directives(reg@.fields, path@) == Some(ds.deep_view()),
            None => lookup_directives(reg@.fields, path@) is None,
        },
{
    lookup_in(&reg.fields, path)
}

/// Look up the type-level directives for an exact path.
pub fn type_directives<'a>(reg: &'a Registry, path: &String) -> (r: Option<&'a Vec<Directive>>)
    ensures
        match r {
            Some(ds) => lookup_directives(reg@.types, path@) == Some(ds.deep_view()),
            None => lookup_directives(reg@.types, path@) is None,
        },
{
    lookup_in(&reg.types, path)
}

fn lookup_in<'a>(entries: &'a Vec<RegistryEntry>, path: &String) -> (r: Option<
    &'a Vec<Directive>,
>)
    ensures
        match r {
            Some(ds) => lookup_directives(entries_model(entries@), path@) == Some(ds.deep_view()),
            None => lookup_directives(entries_model(entries@), path@) is None,
        },
{
    let ghost all = entries_model(entries@);
    let mut i: usize = 0;
    proof {
        assert(all.skip(0) =~= all);
    }
    while i < entries.len()
        invariant
            i <= entries@.len(),
            all == entries_model(entries@),
            lookup_directives(all, path@) == lookup_directives(all.skip(i as int), path@),
        decreases entries@.len() - i,
    {
        proof {
            assert(all.skip(i as int)[0] == all[i as int]);
            assert(all.skip(i as int).skip(1) =~= all.skip(i as int + 1));
        }
        let e = &entries[i];
        if e.path == *path {
            return Some(&e.directives);
        }
        i += 1;
    }
    proof {
        assert(all.skip(i as int).len() == 0);
    }
    None
}

/// Whether a directive set lets an absent wire field decode to a default
/// or empty value.
pub fn default_fill_applies(ds: &Vec<Directive>) -> (r: bool)
    ensures
        r == set_allows_absent(ds.deep_view()),
{
    let mut i: usize = 0;
    while i < ds.len()
        invariant
            i <= ds@.len(),
            forall|j: int| 0 <= j < i ==> !directive_allows_absent(#[trigger] ds.deep_view()[j]),
        decreases ds@.len() - i,
    {
        if directive_absence_ok(&ds[i]) {
            proof {
                let dsv = ds.deep_view();
                assert(directive_allows_absent(dsv[i as int]));
                assert(set_allows_absent(dsv));
            }
            return true;
        }
        proof {
            assert(ds.deep_view()[i as int] == ds@[i as int]@);
        }
        i += 1;
    }
    false
}

/// Build a registry entry carrying one directive.
pub fn entry1(path: &str, d0: Directive) -> (e: RegistryEntry)
    ensures
        e@ == (EntryModel { path: path@, directives: seq![d0@] }),
{
    let ghost d0v = d0@;
    let mut ds: Vec<Directive> = Vec::new();
    ds.push(d0);
    proof {
        assert(ds.deep_view() =~= seq![d0v]);
    }
    RegistryEntry { path: String::from_str(path), directives: ds }
}

/// Build a registry entry carrying two composed directives, applied
/// left-to-right during decode.
pub fn entry2(path: &str, d0: Directive, d1: Directive) -> (e: RegistryEntry)
    ensures
        e@ == (EntryModel { path: path@, directives: seq![d0@, d1@] }),
{
    let ghost d0v = d0@;
    let ghost d1v = d1@;
    let mut ds: Vec<Directive> = Vec::new();
    ds.push(d0);
    ds.push(d1);
    proof {
        assert(ds.deep_view() =~= seq![d0v, d1v]);
    }
    RegistryEntry { path: String::from_str(path), directives: ds }
}

fn directive_absence_ok(d: &Directive) -> (r: bool)
    ensures
        r == directive_allows_absent(d@),
{
    match d {
        Directive::DefaultFill => true,
        Directive::OptionalField => true,
        Directive::Nullable => true,
        Directive::NullableArray => true,
        _ => false,
    }
}

} // verus!
