use vstd::prelude::*;
use crate::config::{mapping_or_empty, parse_error_prefix, ConfigError, JoshutoRawMimetype};
use crate::entry::JoshutoMimetypeEntry;
use crate::table::EntryMap;

verus! {

/// Flattening a raw configuration turns each absent table into an empty
/// mapping, whatever the other table holds.
pub proof fn lemma_flatten_absent_is_empty(raw: JoshutoRawMimetype)
    ensures
        raw.mimetype is None ==> mapping_or_empty(raw.mimetype) == Map::<Seq<char>, Seq<JoshutoMimetypeEntry>>::empty(),
        raw.extension is None ==> mapping_or_empty(raw.extension) == Map::<Seq<char>, Seq<JoshutoMimetypeEntry>>::empty(),
{
}

/// A missing configuration file is neither fatal nor reported: loading goes on
/// with an empty table.
pub proof fn lemma_missing_file_is_silent()
    ensures
        !ConfigError::FileMissing.spec_is_fatal(),
        ConfigError::FileMissing.diagnostic_text() is None,
{
}

/// A parse error is fatal, and it is reported with a non-empty message.
pub proof fn lemma_parse_error_is_fatal_and_reported(message: String)
    ensures
        ConfigError::Parse(message).spec_is_fatal(),
        ConfigError::Parse(message).diagnostic_text() matches Some(t) && t.len() > 0,
{
    reveal_strlit("Error parsing mimetype file: ");
    assert(parse_error_prefix().len() > 0);
}

/// After `EntryMap::insert(key, entries)`, whose result's view is
/// `before@.insert(key@, entries@)`, looking the key up gives that list in the
/// order it was declared, and every other key is bound as it was.
pub proof fn lemma_bound_entries_keep_order(
    before: EntryMap,
    key: String,
    entries: Vec<JoshutoMimetypeEntry>,
)
    ensures
        before@.insert(key@, entries@).contains_key(key@),
        before@.insert(key@, entries@)[key@].len() == entries@.len(),
        forall|i: int| 0 <= i < entries@.len() ==> #[trigger] before@.insert(key@, entries@)[key@][i] == entries@[i],
        forall|k: Seq<char>| k != key@ ==> (#[trigger] before@.insert(key@, entries@).contains_key(k)
            == before@.contains_key(k)),
        forall|k: Seq<char>| k != key@ && before@.contains_key(k) ==> #[trigger] before@.insert(key@, entries@)[k]
            == before@[k],
{
}

/// A key bound by `EntryMap::insert` to an empty list is present, so a lookup
/// gives `Some` of an empty slice, while a key that was never bound gives `None`.
pub proof fn lemma_empty_binding_differs_from_absence(before: EntryMap, key: String, other: String)
    requires
        !before@.contains_key(other@),
        other@ != key@,
    ensures
        before@.insert(key@, Seq::empty()).contains_key(key@),
        before@.insert(key@, Seq::empty())[key@].len() == 0,
        !before@.insert(key@, Seq::empty()).contains_key(other@),
{
}

} // verus!
