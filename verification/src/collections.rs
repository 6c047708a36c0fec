//! The insertion-ordered maps of the library, kept in `indexmap::IndexMap`.
//!
//! What a map holds is named by a spec function over its entries, in their
//! order; the wrappers below state over those names what `IndexMap` does.
use indexmap::IndexMap;
use vstd::prelude::*;

use crate::parameters::{ParameterKind, ParameterValue};

verus! {

/// Makes `indexmap::IndexMap` known to the verifier; its contents are opaque.
#[verifier::external_type_specification]
#[verifier::external_body]
#[verifier::reject_recursive_types(K)]
#[verifier::reject_recursive_types(V)]
#[verifier::reject_recursive_types(S)]
pub struct ExIndexMap<K, V, S>(IndexMap<K, V, S>);

/// The entries of a map from names to parameter kinds, in their order.
pub uninterp spec fn kind_entries(m: IndexMap<String, ParameterKind>) -> Seq<(Seq<char>, ParameterKind)>;

/// The entries of a map from names to parameter values, in their order.
pub uninterp spec fn value_entries(m: IndexMap<String, ParameterValue>) -> Seq<(Seq<char>, ParameterValue)>;

/// Whether no two entries share a key.
pub open spec fn keys_unique<V>(entries: Seq<(Seq<char>, V)>) -> bool {
    forall|i: int, j: int|
        0 <= i < entries.len() && 0 <= j < entries.len() && i != j ==> #[trigger] entries[i].0
            != #[trigger] entries[j].0
}

/// Whether some entry has the given key.
pub open spec fn has_key<V>(entries: Seq<(Seq<char>, V)>, key: Seq<char>) -> bool {
    exists|i: int| 0 <= i < entries.len() && #[trigger] entries[i].0 == key
}

/// The position of the entry with the given key, in entries whose keys are
/// unique.
pub open spec fn key_index<V>(entries: Seq<(Seq<char>, V)>, key: Seq<char>) -> int {
    choose|i: int| 0 <= i < entries.len() && #[trigger] entries[i].0 == key
}

/// The entries after inserting `value` under `key`, as `IndexMap::insert`
/// leaves them: an existing key keeps its place and takes the new value,
/// a new key goes last.
pub open spec fn inserted<V>(entries: Seq<(Seq<char>, V)>, key: Seq<char>, value: V) -> Seq<
    (Seq<char>, V),
> {
    if has_key(entries, key) {
        entries.update(key_index(entries, key), (key, value))
    } else {
        entries.push((key, value))
    }
}

/// Inserting keeps keys unique.
pub proof fn lemma_inserted_unique<V>(entries: Seq<(Seq<char>, V)>, key: Seq<char>, value: V)
    requires
        keys_unique(entries),
    ensures
        keys_unique(inserted(entries, key, value)),
        has_key(inserted(entries, key, value), key),
{
    let r = inserted(entries, key, value);
    if has_key(entries, key) {
        let k = key_index(entries, key);
        assert(r[k].0 == key);
    } else {
        assert(r[entries.len() as int].0 == key);
        assert forall|i: int, j: int|
            0 <= i < r.len() && 0 <= j < r.len() && i != j implies #[trigger] r[i].0
            != #[trigger] r[j].0 by {
            if i < entries.len() && j < entries.len() {
                assert(r[i] == entries[i]);
                assert(r[j] == entries[j]);
            } else if i < entries.len() {
                assert(r[i] == entries[i]);
            } else {
                assert(r[j] == entries[j]);
            }
        }
    }
}

/// Creates an empty map from names to parameter kinds, with
/// `IndexMap::new`.
#[verifier::external_body]
pub(crate) fn kinds_new() -> (m: IndexMap<String, ParameterKind>)
    ensures
        kind_entries(m) == Seq::<(Seq<char>, ParameterKind)>::empty(),
{
    IndexMap::new()
}

/// `IndexMap::insert` on a map from names to parameter kinds: an existing
/// key keeps its place and takes the new kind, a new key goes last.
#[verifier::external_body]
pub(crate) fn kinds_insert(m: &mut IndexMap<String, ParameterKind>, key: String, kind: ParameterKind)
    ensures
        kind_entries(*final(m)) == inserted(kind_entries(*old(m)), key@, kind),
{
    m.insert(key, kind);
}

/// `IndexMap::len` on a map from names to parameter kinds.
#[verifier::external_body]
pub(crate) fn kinds_len(m: &IndexMap<String, ParameterKind>) -> (n: usize)
    ensures
        n == kind_entries(*m).len(),
{
    m.len()
}

/// `IndexMap::get_index` on a map from names to parameter kinds: the entry
/// at the given position.
#[verifier::external_body]
pub(crate) fn kinds_get_index(m: &IndexMap<String, ParameterKind>, index: usize) -> (entry: Option<
    (&String, &ParameterKind),
>)
    ensures
        index < kind_entries(*m).len() <==> entry is Some,
        entry matches Some(e) ==> e.0@ == kind_entries(*m)[index as int].0 && *e.1 == kind_entries(*m)[
            index as int
        ].1,
{
    m.get_index(index)
}

/// `IndexMap::get` on a map from names to parameter kinds: the kind stored
/// under `key`, if any.
#[verifier::external_body]
pub(crate) fn kinds_get<'a>(m: &'a IndexMap<String, ParameterKind>, key: &str) -> (kind: Option<
    &'a ParameterKind,
>)
    ensures
        match kind {
            Some(k) => exists|i: int|
                0 <= i < kind_entries(*m).len() && #[trigger] kind_entries(*m)[i].0 == key@
                    && kind_entries(*m)[i].1 == *k,
            None => !has_key(kind_entries(*m), key@),
        },
{
    m.get(key)
}

/// Creates an empty map from names to parameter values, with
/// `IndexMap::new`.
#[verifier::external_body]
pub(crate) fn values_new() -> (m: IndexMap<String, ParameterValue>)
    ensures
        value_entries(m) == Seq::<(Seq<char>, ParameterValue)>::empty(),
{
    IndexMap::new()
}

/// `IndexMap::insert` on a map from names to parameter values: an existing
/// key keeps its place and takes the new value, a new key goes last.
#[verifier::external_body]
pub(crate) fn values_insert(
    m: &mut IndexMap<String, ParameterValue>,
    key: String,
    value: ParameterValue,
)
    ensures
        value_entries(*final(m)) == inserted(value_entries(*old(m)), key@, value),
{
    m.insert(key, value);
}

/// `IndexMap::len` on a map from names to parameter values.
#[verifier::external_body]
pub(crate) fn values_len(m: &IndexMap<String, ParameterValue>) -> (n: usize)
    ensures
        n == value_entries(*m).len(),
{
    m.len()
}

/// `IndexMap::get_index` on a map from names to parameter values: the
/// entry at the given position.
#[verifier::external_body]
pub(crate) fn values_get_index(m: &IndexMap<String, ParameterValue>, index: usize) -> (entry: Option<
    (&String, &ParameterValue),
>)
    ensures
        index < value_entries(*m).len() <==> entry is Some,
        entry matches Some(e) ==> e.0@ == value_entries(*m)[index as int].0 && *e.1 == value_entries(*m)[
            index as int
        ].1,
{
    m.get_index(index)
}

/// `IndexMap::get` on a map from names to parameter values: the value
/// stored under `key`, if any.
#[verifier::external_body]
pub(crate) fn values_get<'a>(m: &'a IndexMap<String, ParameterValue>, key: &str) -> (value: Option<
    &'a ParameterValue,
>)
    ensures
        match value {
            Some(v) => exists|i: int|
                0 <= i < value_entries(*m).len() && #[trigger] value_entries(*m)[i].0 == key@
                    && value_entries(*m)[i].1 == *v,
            None => !has_key(value_entries(*m), key@),
        },
{
    m.get(key)
}

} // verus!
