use vstd::prelude::*;

use crate::number::{canonical_float_bits, float_key, int_number_key, integer_key};

verus! {

/// A value of the dynamic host object model.
#[derive(Debug, PartialEq)]
pub enum HostValue {
    /// The host's single absent-value sentinel.
    Undefined,
    Bool(bool),
    /// A host number that holds an integer of the safe range exactly.
    Number(i64),
    /// A host number given by the bit pattern of a double.
    Float(u64),
    Str(String),
    /// A host byte buffer, owned by the host value.
    Bytes(Vec<u8>),
    Array(Vec<HostValue>),
    /// An ordered key/value map, in the order in which keys were first inserted.
    OrderedMap(Vec<(HostValue, HostValue)>),
    /// A record of labelled fields, in the order in which labels were first assigned.
    Object(Vec<(String, HostValue)>),
}

/// The map key of a host number, if `h` is one: equal numbers have equal keys,
/// whether they came from an integer or from a double.
pub open spec fn number_key(h: HostValue) -> Option<int> {
    match h {
        HostValue::Number(n) => Some(int_number_key(n)),
        HostValue::Float(b) => Some(canonical_float_bits(b)),
        _ => None,
    }
}

/// Key identity of the host's ordered map: the absent value, booleans and strings
/// are the same key when they hold the same value, and numbers when they are the
/// same number (negative zero is zero, and all NaNs are one key); arrays, maps,
/// records and byte buffers are fresh host objects, each a key of its own.
pub open spec fn same_key(a: HostValue, b: HostValue) -> bool {
    match (a, b) {
        (HostValue::Undefined, HostValue::Undefined) => true,
        (HostValue::Bool(x), HostValue::Bool(y)) => x == y,
        (HostValue::Str(x), HostValue::Str(y)) => x@ == y@,
        _ => number_key(a) is Some && number_key(a) == number_key(b),
    }
}

/// No two entries of a map share a key.
pub open spec fn map_keys_unique(entries: Seq<(HostValue, HostValue)>) -> bool {
    forall|i: int, j: int|
        0 <= i < entries.len() && 0 <= j < entries.len() && i != j
            ==> !same_key(#[trigger] entries[i].0, #[trigger] entries[j].0)
}

/// Whether some entry of the map has key `k`.
pub open spec fn map_has_key(entries: Seq<(HostValue, HostValue)>, k: HostValue) -> bool {
    exists|i: int| 0 <= i < entries.len() && same_key(#[trigger] entries[i].0, k)
}

/// The position of the entry with key `k`, where there is one.
pub open spec fn map_key_index(entries: Seq<(HostValue, HostValue)>, k: HostValue) -> int {
    choose|i: int| 0 <= i < entries.len() && same_key(#[trigger] entries[i].0, k)
}

/// The value stored under `k`, if any.
pub open spec fn map_lookup(entries: Seq<(HostValue, HostValue)>, k: HostValue) -> Option<HostValue> {
    if map_has_key(entries, k) {
        Some(entries[map_key_index(entries, k)].1)
    } else {
        None
    }
}

/// The host map's `set`: an existing key keeps its place and its first key value
/// and takes the new value; a new key is appended.
pub open spec fn map_put(
    entries: Seq<(HostValue, HostValue)>,
    k: HostValue,
    v: HostValue,
) -> Seq<(HostValue, HostValue)> {
    if map_has_key(entries, k) {
        let i = map_key_index(entries, k);
        entries.update(i, (entries[i].0, v))
    } else {
        entries.push((k, v))
    }
}

/// A record's fields with their labels as character sequences.
pub open spec fn record_view(fields: Seq<(String, HostValue)>) -> Seq<(Seq<char>, HostValue)> {
    fields.map_values(|f: (String, HostValue)| (f.0@, f.1))
}

/// Whether some field of the record has label `label`.
pub open spec fn record_has_label(fields: Seq<(Seq<char>, HostValue)>, label: Seq<char>) -> bool {
    exists|i: int| 0 <= i < fields.len() && (#[trigger] fields[i].0) == label
}

/// No two fields of a record share a label.
pub open spec fn record_labels_unique(fields: Seq<(Seq<char>, HostValue)>) -> bool {
    forall|i: int, j: int|
        0 <= i < fields.len() && 0 <= j < fields.len() && i != j
            ==> (#[trigger] fields[i].0) != (#[trigger] fields[j].0)
}

/// The labels of a record, in its field order.
pub open spec fn record_labels(fields: Seq<(Seq<char>, HostValue)>) -> Seq<Seq<char>> {
    fields.map_values(|f: (Seq<char>, HostValue)| f.0)
}

/// The position of the field labelled `label`, where there is one.
pub open spec fn record_label_index(fields: Seq<(Seq<char>, HostValue)>, label: Seq<char>) -> int {
    choose|i: int| 0 <= i < fields.len() && (#[trigger] fields[i].0) == label
}

/// Assignment of a record field: an existing label keeps its place and takes the
/// new value; a new label is appended.
pub open spec fn record_put(
    fields: Seq<(Seq<char>, HostValue)>,
    label: Seq<char>,
    v: HostValue,
) -> Seq<(Seq<char>, HostValue)> {
    if record_has_label(fields, label) {
        fields.update(record_label_index(fields, label), (label, v))
    } else {
        fields.push((label, v))
    }
}

/// The record that assigning each field of `puts` in turn makes of `fields`.
pub open spec fn record_put_all(
    fields: Seq<(Seq<char>, HostValue)>,
    puts: Seq<(Seq<char>, HostValue)>,
) -> Seq<(Seq<char>, HostValue)>
    decreases puts.len(),
{
    if puts.len() == 0 {
        fields
    } else {
        record_put_all(record_put(fields, puts[0].0, puts[0].1), puts.drop_first())
    }
}

/// `same_key` is symmetric, and transitive through a shared key.
pub proof fn lemma_same_key_symmetric_transitive(a: HostValue, b: HostValue, k: HostValue)
    ensures
        same_key(a, b) ==> same_key(b, a),
        same_key(a, k) && same_key(b, k) ==> same_key(a, b),
{
}

/// Setting a key keeps the keys of a map unique; a primitive key is then present.
pub proof fn lemma_map_put_keys_unique(
    entries: Seq<(HostValue, HostValue)>,
    k: HostValue,
    v: HostValue,
)
    requires
        map_keys_unique(entries),
    ensures
        map_keys_unique(map_put(entries, k, v)),
        same_key(k, k) ==> map_has_key(map_put(entries, k, v), k),
{
    let after = map_put(entries, k, v);
    if map_has_key(entries, k) {
        let i = map_key_index(entries, k);
        assert(same_key(after[i].0, k));
        assert forall|a: int, b: int|
            0 <= a < after.len() && 0 <= b < after.len() && a != b implies !same_key(
            #[trigger] after[a].0,
            #[trigger] after[b].0,
        ) by {
            assert(after[a].0 == entries[a].0 && after[b].0 == entries[b].0);
        }
    } else {
        let n = entries.len() as int;
        assert(after[n].0 == k);
        assert forall|a: int, b: int|
            0 <= a < after.len() && 0 <= b < after.len() && a != b implies !same_key(
            #[trigger] after[a].0,
            #[trigger] after[b].0,
        ) by {
            if a == n {
                lemma_same_key_symmetric_transitive(after[b].0, k, k);
                assert(!same_key(entries[b].0, k));
            } else if b == n {
                assert(!same_key(entries[a].0, k));
            }
        }
    }
}

/// Last write wins: after a value is set under `k1` and then another under a key
/// `k2` that the host takes for the same key, the map holds the second value under
/// that key, and the second write adds no entry.
pub proof fn lemma_map_last_write_wins(
    entries: Seq<(HostValue, HostValue)>,
    k1: HostValue,
    v1: HostValue,
    k2: HostValue,
    v2: HostValue,
)
    requires
        map_keys_unique(entries),
        same_key(k1, k2),
    ensures
        map_lookup(map_put(map_put(entries, k1, v1), k2, v2), k1) == Some(v2),
        map_lookup(map_put(map_put(entries, k1, v1), k2, v2), k2) == Some(v2),
        map_put(map_put(entries, k1, v1), k2, v2).len() == map_put(entries, k1, v1).len(),
{
    let e1 = map_put(entries, k1, v1);
    let e2 = map_put(e1, k2, v2);
    lemma_same_key_symmetric_transitive(k1, k2, k2);
    lemma_same_key_symmetric_transitive(k2, k1, k1);
    lemma_map_put_keys_unique(entries, k1, v1);
    lemma_map_put_keys_unique(e1, k2, v2);
    let w = map_key_index(e1, k1);
    lemma_same_key_symmetric_transitive(e1[w].0, k2, k1);
    assert(map_has_key(e1, k2));
    let j = map_key_index(e1, k2);
    assert(e2 == e1.update(j, (e1[j].0, v2)));
    assert(same_key(e2[j].0, k2));
    lemma_same_key_symmetric_transitive(e2[j].0, k1, k2);
    assert(map_has_key(e2, k1));
    assert(map_has_key(e2, k2));
    let c1 = map_key_index(e2, k1);
    let c2 = map_key_index(e2, k2);
    lemma_same_key_symmetric_transitive(e2[c1].0, e2[j].0, k1);
    lemma_same_key_symmetric_transitive(e2[c2].0, e2[j].0, k2);
}

/// Fields with distinct labels, assigned in turn after a record whose labels none
/// of them repeats, follow its fields in the order of assignment.
pub proof fn lemma_record_put_all_appends(
    fields: Seq<(Seq<char>, HostValue)>,
    puts: Seq<(Seq<char>, HostValue)>,
)
    requires
        record_labels_unique(fields + puts),
    ensures
        record_put_all(fields, puts) == fields + puts,
    decreases puts.len(),
{
    if puts.len() == 0 {
        assert(fields + puts =~= fields);
    } else {
        let all = fields + puts;
        let n = fields.len() as int;
        assert(!record_has_label(fields, puts[0].0)) by {
            if record_has_label(fields, puts[0].0) {
                let i = choose|i: int| 0 <= i < fields.len() && (#[trigger] fields[i].0) == puts[0].0;
                assert(all[i].0 == all[n].0);
            }
        }
        let next = fields.push(puts[0]);
        assert(next + puts.drop_first() =~= all);
        lemma_record_put_all_appends(next, puts.drop_first());
    }
}

/// Struct field order: fields with distinct labels, assigned in turn to an empty
/// record, make a record whose fields stand in exactly that order.
pub proof fn lemma_struct_field_order(puts: Seq<(Seq<char>, HostValue)>)
    requires
        record_labels_unique(puts),
    ensures
        record_put_all(Seq::empty(), puts) == puts,
        record_labels(record_put_all(Seq::empty(), puts)) == record_labels(puts),
{
    assert(Seq::<(Seq<char>, HostValue)>::empty() + puts =~= puts);
    lemma_record_put_all_appends(Seq::empty(), puts);
}

/// Whether `h` is the host string `s`.
pub open spec fn is_host_string(h: HostValue, s: Seq<char>) -> bool {
    match h {
        HostValue::Str(t) => t@ == s,
        _ => false,
    }
}

/// The single-field record `{ tag: payload }` that stands for an enum variant.
pub open spec fn is_tagged(h: HostValue, tag: Seq<char>, payload: HostValue) -> bool {
    match h {
        HostValue::Object(fields) => fields@.len() == 1 && fields@[0].0@ == tag && fields@[0].1
            == payload,
        _ => false,
    }
}

/// Computes the map key of a host number.
fn numeric_key(h: &HostValue) -> (r: i128)
    requires
        number_key(*h) is Some,
    ensures
        number_key(*h) == Some(r as int),
{
    match h {
        HostValue::Number(n) => integer_key(*n),
        HostValue::Float(b) => float_key(*b),
        _ => 0,
    }
}

/// Compares two host values as keys of the host's ordered map.
pub fn keys_equal(a: &HostValue, b: &HostValue) -> (r: bool)
    ensures
        r == same_key(*a, *b),
{
    match (a, b) {
        (HostValue::Undefined, HostValue::Undefined) => true,
        (HostValue::Bool(x), HostValue::Bool(y)) => *x == *y,
        (HostValue::Str(x), HostValue::Str(y)) => *x == *y,
        (HostValue::Number(_), HostValue::Number(_))
        | (HostValue::Number(_), HostValue::Float(_))
        | (HostValue::Float(_), HostValue::Number(_))
        | (HostValue::Float(_), HostValue::Float(_)) => numeric_key(a) == numeric_key(b),
        _ => false,
    }
}

/// Builds the single-field record `{ tag: payload }`.
pub fn tagged(tag: &str, payload: HostValue) -> (r: HostValue)
    ensures
        is_tagged(r, tag@, payload),
{
    let mut fields: Vec<(String, HostValue)> = Vec::new();
    fields.push((String::from_str(tag), payload));
    HostValue::Object(fields)
}

} // verus!
