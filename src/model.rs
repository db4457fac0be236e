use vstd::prelude::*;
use crate::ident::spec_is_ident;

verus! {

/// The `rename` attribute of a struct or of a field, as found in its syntax.
#[derive(Debug, Clone, PartialEq, Eq)]
pub enum RenameArg {
    /// No `rename` attribute.
    Absent,
    /// The first `rename` attribute, whose argument is the string literal held.
    Given(String),
    /// The first `rename` attribute, whose argument is not a string literal.
    Malformed,
}

/// One field of a struct with named fields.
#[derive(Debug, Clone, PartialEq, Eq)]
pub struct FieldInput {
    /// The field's identifier as written (`None` where the syntax has none).
    pub ident: Option<String>,
    /// The field's own `rename` attribute.
    pub rename: RenameArg,
}

/// The field list of a struct.
#[derive(Debug, Clone, PartialEq, Eq)]
pub enum StructFields {
    Named(Vec<FieldInput>),
    Unnamed,
    Unit,
}

/// What kind of item the derive is attached to.
#[derive(Debug, Clone, PartialEq, Eq)]
pub enum ItemData {
    Struct(StructFields),
    Enum,
    Union,
}

/// The item a derive is attached to, reduced to what the derive reads.
#[derive(Debug, Clone, PartialEq, Eq)]
pub struct DeriveItem {
    /// The item's name.
    pub ty: String,
    /// The item's own (global) `rename` attribute.
    pub rename: RenameArg,
    pub data: ItemData,
}

/// How the dictionary key of one field is produced.
#[derive(Debug, Clone, PartialEq, Eq)]
pub enum Key {
    /// The key is this string.
    Literal(String),
    /// The key is `heck::<convention>(name).to_string()`, evaluated by the
    /// generated code.
    Converted { convention: String, name: String },
}

/// One dictionary entry: the field at position `field` under key `key`.
#[derive(Debug, Clone, PartialEq, Eq)]
pub struct Entry {
    pub field: usize,
    pub key: Key,
}

/// What the derive emits for an accepted item.
#[derive(Debug, Clone, PartialEq, Eq)]
pub struct Gathered {
    /// The item's name, for the `impl` header.
    pub ty: String,
    /// One entry per field, in field order.
    pub entries: Vec<Entry>,
}

/// Why an item is rejected.
#[derive(Debug, Clone, Copy, PartialEq, Eq)]
pub enum DeriveError {
    /// The item is an enum or a union.
    NotStruct,
    /// The struct's fields are unnamed or it has none.
    NotNamedFields,
    /// The struct's `rename` argument is not a string literal.
    MalformedRename,
    /// The field at this position has no identifier.
    UnnamedField(usize),
    /// The `rename` argument of the field at this position is not a string
    /// literal.
    MalformedFieldRename(usize),
    /// A field's key needs the global case convention, and its name is not an
    /// identifier (on which `proc_macro2::Ident::new` panics).
    InvalidConvention,
}

/// The global case convention: the struct's `rename` argument, or empty.
pub open spec fn global_rename(item: DeriveItem) -> Seq<char> {
    match item.rename {
        RenameArg::Given(s) => s@,
        _ => Seq::empty(),
    }
}

/// A field that the derive accepts: it has an identifier and no malformed
/// `rename` attribute.
pub open spec fn field_ok(f: FieldInput) -> bool {
    f.ident is Some && !(f.rename is Malformed)
}

/// The error for a field that is not accepted.
pub open spec fn field_error(f: FieldInput, i: int) -> DeriveError {
    if f.ident is None {
        DeriveError::UnnamedField(i as usize)
    } else {
        DeriveError::MalformedFieldRename(i as usize)
    }
}

/// The first position from `i` on whose field is not accepted.
pub open spec fn first_bad_from(fs: Seq<FieldInput>, i: int) -> Option<int>
    decreases fs.len() - i,
{
    if i < 0 || i >= fs.len() {
        None
    } else if !field_ok(fs[i]) {
        Some(i)
    } else {
        first_bad_from(fs, i + 1)
    }
}

/// A field whose key comes from the global case convention.
pub open spec fn uses_convention(f: FieldInput, global: Seq<char>) -> bool {
    f.rename is Absent && global.len() > 0
}

/// The error with which an item is rejected, or `None` where it is accepted.
/// Checks come in this order: the item's kind, its fields' kind, the global
/// `rename`, each field in order, then the global convention's name.
pub open spec fn derive_error(item: DeriveItem) -> Option<DeriveError> {
    match item.data {
        ItemData::Struct(StructFields::Named(fs)) => {
            if item.rename is Malformed {
                Some(DeriveError::MalformedRename)
            } else {
                match first_bad_from(fs@, 0) {
                    Some(i) => Some(field_error(fs@[i], i)),
                    None => {
                        if (exists|j: int| 0 <= j < fs@.len() && uses_convention(#[trigger] fs@[j], global_rename(item)))
                            && !spec_is_ident(global_rename(item)) {
                            Some(DeriveError::InvalidConvention)
                        } else {
                            None
                        }
                    },
                }
            }
        },
        ItemData::Struct(_) => Some(DeriveError::NotNamedFields),
        _ => Some(DeriveError::NotStruct),
    }
}

/// The fields of an item with named fields (empty for any other item).
pub open spec fn named_fields(item: DeriveItem) -> Seq<FieldInput> {
    match item.data {
        ItemData::Struct(StructFields::Named(fs)) => fs@,
        _ => Seq::empty(),
    }
}

/// `k` is the key of accepted field `f` under global convention `global`:
/// its own `rename` wins; else the convention applied to its name, where there
/// is one; else its name.
pub open spec fn is_key_of(k: Key, f: FieldInput, global: Seq<char>) -> bool {
    match f.rename {
        RenameArg::Given(n) => k matches Key::Literal(s) && s@ == n@,
        _ => {
            if global.len() == 0 {
                k matches Key::Literal(s) && s@ == f.ident->Some_0@
            } else {
                k matches Key::Converted { convention, name } && convention@ == global
                    && name@ == f.ident->Some_0@
            }
        },
    }
}

/// `es` holds one entry per field of `fs`, in order, each with its key.
pub open spec fn entries_of(es: Seq<Entry>, fs: Seq<FieldInput>, global: Seq<char>) -> bool {
    &&& es.len() == fs.len()
    &&& forall|i: int| 0 <= i < es.len() ==> (#[trigger] es[i]).field == i
        && is_key_of(es[i].key, fs[i], global)
}

} // verus!
