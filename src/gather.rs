use vstd::prelude::*;
use crate::ident::is_ident;
use crate::model::{
    derive_error, entries_of, field_ok, first_bad_from, global_rename, is_key_of,
    named_fields, uses_convention, DeriveError, DeriveItem, Entry, FieldInput, Gathered, ItemData,
    Key, RenameArg, StructFields,
};

verus! {

/// The key of one accepted field under the global convention `global`.
fn key_for(f: &FieldInput, name: &String, global: &String) -> (k: Key)
    requires
        f.ident == Some(*name),
        !(f.rename is Malformed),
    ensures
        is_key_of(k, *f, global@),
{
    match &f.rename {
        RenameArg::Given(n) => Key::Literal(n.clone()),
        _ => {
            if global.as_str().is_empty() {
                Key::Literal(name.clone())
            } else {
                Key::Converted { convention: global.clone(), name: name.clone() }
            }
        },
    }
}

/// Checks the item a derive is attached to and lays out its dictionary
/// entries: one per named field, in field order, each keyed by the field's
/// own `rename`, else by the struct's `rename` convention applied to the
/// field name, else by the field name. The first failing check gives the
/// error (see `derive_error`).
pub fn gather_input(item: &DeriveItem) -> (r: Result<Gathered, DeriveError>)
    ensures
        r is Ok <==> derive_error(*item) is None,
        match r {
            Ok(g) => g.ty@ == item.ty@ && entries_of(g.entries@, named_fields(*item),
                global_rename(*item)),
            Err(e) => derive_error(*item) == Some(e),
        },
{
    let fields = match &item.data {
        ItemData::Struct(StructFields::Named(fs)) => fs,
        ItemData::Struct(_) => return Err(DeriveError::NotNamedFields),
        _ => return Err(DeriveError::NotStruct),
    };
    let global = match &item.rename {
        RenameArg::Given(s) => s.clone(),
        RenameArg::Absent => String::new(),
        RenameArg::Malformed => return Err(DeriveError::MalformedRename),
    };
    let ghost fs = fields@;
    let mut entries: Vec<Entry> = Vec::new();
    let mut converts = false;
    let mut i: usize = 0;
    while i < fields.len()
        invariant
            fs == fields@,
            fs == named_fields(*item),
            item.data is Struct,
            item.data->Struct_0 is Named,
            !(item.rename is Malformed),
            global@ == global_rename(*item),
            0 <= i <= fs.len(),
            first_bad_from(fs, 0) == first_bad_from(fs, i as int),
            entries@.len() == i,
            forall|j: int| 0 <= j < i ==> #[trigger] field_ok(fs[j]),
            forall|j: int| 0 <= j < i ==> (#[trigger] entries@[j]).field == j
                && is_key_of(entries@[j].key, fs[j], global@),
            converts <==> exists|j: int| 0 <= j < i && uses_convention(#[trigger] fs[j], global@),
        decreases fs.len() - i,
    {
        let f = &fields[i];
        let name = match &f.ident {
            Some(n) => n,
            None => {
                assert(first_bad_from(fs, i as int) == Some(i as int));
                return Err(DeriveError::UnnamedField(i));
            },
        };
        if let RenameArg::Malformed = f.rename {
            assert(first_bad_from(fs, i as int) == Some(i as int));
            return Err(DeriveError::MalformedFieldRename(i));
        }
        if let RenameArg::Absent = f.rename {
            if !global.as_str().is_empty() {
                converts = true;
            }
        }
        let key = key_for(f, name, &global);
        entries.push(Entry { field: i, key });
        assert(field_ok(fs[i as int]));
        i = i + 1;
    }
    if converts && !is_ident(global.as_str()) {
        return Err(DeriveError::InvalidConvention);
    }
    let ty = item.ty.clone();
    Ok(Gathered { ty, entries })
}

} // verus!
