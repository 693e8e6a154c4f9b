use vstd::prelude::*;

use crate::error::Error;
use crate::host::{
    HostValue, is_host_string, is_tagged, keys_equal, map_has_key, map_key_index,
    map_keys_unique, map_put, record_has_label, record_label_index, record_labels_unique,
    record_put, record_view, same_key, tagged, lemma_map_put_keys_unique,
    lemma_same_key_symmetric_transitive,
};

verus! {

/// Accumulates the key/value pairs of a map into a host ordered map.
pub struct MapSerializer {
    target: Vec<(HostValue, HostValue)>,
    next_key: Option<HostValue>,
}

impl MapSerializer {
    /// The entries written so far.
    pub closed spec fn entries(&self) -> Seq<(HostValue, HostValue)> {
        self.target@
    }

    /// The key waiting for its value, if any.
    pub closed spec fn pending_key(&self) -> Option<HostValue> {
        self.next_key
    }

    /// No two entries share a key.
    pub open spec fn wf(&self) -> bool {
        map_keys_unique(self.entries())
    }

    pub fn new(serializer: &Serializer) -> (r: Self)
        ensures
            r.wf(),
            r.entries() == Seq::<(HostValue, HostValue)>::empty(),
            r.pending_key() is None,
    {
        MapSerializer { target: Vec::new(), next_key: None }
    }

    /// Whether a key is waiting for its value.
    pub fn has_pending_key(&self) -> (r: bool)
        ensures
            r == self.pending_key() is Some,
    {
        self.next_key.is_some()
    }

    /// Records the converted key of the next pair.
    pub fn serialize_key(&mut self, key: HostValue)
        requires
            old(self).wf(),
            old(self).pending_key() is None,
        ensures
            final(self).wf(),
            final(self).entries() == old(self).entries(),
            final(self).pending_key() == Some(key),
    {
        self.next_key = Some(key);
    }

    /// Stores the converted value under the pending key.
    pub fn serialize_value(&mut self, value: HostValue)
        requires
            old(self).wf(),
            old(self).pending_key() is Some,
        ensures
            final(self).wf(),
            final(self).entries() == map_put(
                old(self).entries(),
                old(self).pending_key()->Some_0,
                value,
            ),
            final(self).pending_key() is None,
    {
        let key = self.next_key.take().unwrap();
        let n = self.target.len();
        let mut i: usize = 0;
        while i < n && !keys_equal(&self.target[i].0, &key)
            invariant
                n == self.target.len(),
                0 <= i <= n,
                forall|j: int| 0 <= j < i ==> !same_key(#[trigger] self.target@[j].0, key),
            decreases n - i,
        {
            i = i + 1;
        }
        let ghost before = self.target@;
        proof {
            lemma_map_put_keys_unique(before, key, value);
        }
        if i < n {
            proof {
                let c = map_key_index(before, key);
                assert(map_has_key(before, key));
                lemma_same_key_symmetric_transitive(before[c].0, before[i as int].0, key);
            }
            let (k, _) = self.target.remove(i);
            self.target.insert(i, (k, value));
            assert(self.target@ =~= map_put(before, key, value));
        } else {
            proof {
                assert forall|j: int| 0 <= j < before.len() implies !same_key(
                    before[j].0,
                    key,
                ) by {
                    assert(!same_key(before[j].0, key));
                }
            }
            self.target.push((key, value));
        }
    }

    /// Finishes the map.
    pub fn end(self) -> (r: HostValue)
        requires
            self.pending_key() is None,
        ensures
            r matches HostValue::OrderedMap(t) && t@ == self.entries(),
    {
        HostValue::OrderedMap(self.target)
    }
}

/// Accumulates the elements of a sequence into a host array.
pub struct ArraySerializer {
    target: Vec<HostValue>,
}

impl View for ArraySerializer {
    type V = Seq<HostValue>;

    /// The elements written so far.
    closed spec fn view(&self) -> Seq<HostValue> {
        self.target@
    }
}

impl ArraySerializer {
    pub fn new(serializer: &Serializer) -> (r: Self)
        ensures
            r@ == Seq::<HostValue>::empty(),
    {
        ArraySerializer { target: Vec::new() }
    }

    /// Appends a converted element.
    pub fn serialize_element(&mut self, value: HostValue)
        ensures
            final(self)@ == old(self)@.push(value),
    {
        self.target.push(value);
    }

    /// Appends a converted field of a tuple struct or tuple variant.
    pub fn serialize_field(&mut self, value: HostValue)
        ensures
            final(self)@ == old(self)@.push(value),
    {
        self.serialize_element(value);
    }

    /// Finishes the array.
    pub fn end(self) -> (r: HostValue)
        ensures
            r matches HostValue::Array(t) && t@ == self@,
    {
        HostValue::Array(self.target)
    }
}

/// Accumulates the fields of a struct into a host record.
pub struct ObjectSerializer {
    target: Vec<(String, HostValue)>,
}

impl ObjectSerializer {
    /// The fields written so far, in record order.
    pub closed spec fn fields(&self) -> Seq<(Seq<char>, HostValue)> {
        record_view(self.target@)
    }

    /// No two fields share a label.
    pub open spec fn wf(&self) -> bool {
        record_labels_unique(self.fields())
    }

    pub fn new(serializer: &Serializer) -> (r: Self)
        ensures
            r.wf(),
            r.fields() == Seq::<(Seq<char>, HostValue)>::empty(),
    {
        let r = ObjectSerializer { target: Vec::new() };
        assert(r.fields() =~= Seq::<(Seq<char>, HostValue)>::empty());
        r
    }

    /// Assigns a converted value to the field labelled `key`.
    pub fn serialize_field(&mut self, key: &str, value: HostValue)
        requires
            old(self).wf(),
        ensures
            final(self).wf(),
            final(self).fields() == record_put(old(self).fields(), key@, value),
    {
        let ghost before = self.fields();
        let n = self.target.len();
        let label = String::from_str(key);
        let mut i: usize = 0;
        while i < n && !(self.target[i].0 == label)
            invariant
                n == self.target.len(),
                0 <= i <= n,
                label@ == key@,
                before == record_view(self.target@),
                forall|j: int| 0 <= j < i ==> (#[trigger] before[j]).0 != key@,
            decreases n - i,
        {
            i = i + 1;
        }
        if i < n {
            proof {
                assert(before[i as int].0 == key@);
                assert(record_has_label(before, key@));
                let c = record_label_index(before, key@);
                assert(c == i);
            }
            self.target.remove(i);
            self.target.insert(i, (label, value));
            assert(record_view(self.target@) =~= before.update(i as int, (key@, value)));
        } else {
            self.target.push((label, value));
            proof {
                assert forall|j: int| 0 <= j < before.len() implies before[j].0 != key@ by {
                    assert(before[j].0 != key@);
                }
                assert(!record_has_label(before, key@));
                assert(record_view(self.target@) =~= before.push((key@, value)));
            }
        }
    }

    /// Finishes the record.
    pub fn end(self) -> (r: HostValue)
        ensures
            r matches HostValue::Object(t) && record_view(t@) == self.fields(),
    {
        HostValue::Object(self.target)
    }
}

/// Wraps a builder so that its result becomes the single-field record
/// `{ variant: payload }`.
pub struct VariantSerializer<S> {
    variant: &'static str,
    inner: S,
}

impl<S> VariantSerializer<S> {
    /// The tag of the variant.
    pub closed spec fn variant(&self) -> Seq<char> {
        self.variant@
    }

    /// The wrapped builder.
    pub closed spec fn inner(&self) -> S {
        self.inner
    }

    pub fn new(variant: &'static str, inner: S) -> (r: Self)
        ensures
            r.variant() == variant@,
            r.inner() == inner,
    {
        VariantSerializer { variant, inner }
    }
}

impl VariantSerializer<ArraySerializer> {
    /// Appends a converted field of the tuple variant.
    pub fn serialize_field(&mut self, value: HostValue)
        ensures
            final(self).variant() == old(self).variant(),
            final(self).inner()@ == old(self).inner()@.push(value),
    {
        self.inner.serialize_field(value);
    }

    /// Finishes the tuple variant as `{ variant: [elements...] }`.
    pub fn end(self) -> (r: HostValue)
        ensures
            r matches HostValue::Object(f) && f@.len() == 1 && f@[0].0@ == self.variant()
                && (f@[0].1 matches HostValue::Array(t) && t@ == self.inner()@),
    {
        let value = self.inner.end();
        tagged(self.variant, value)
    }
}

impl VariantSerializer<ObjectSerializer> {
    /// Whether the wrapped record builder is well formed.
    pub open spec fn wf(&self) -> bool {
        self.inner().wf()
    }

    /// Assigns a converted field of the struct variant.
    pub fn serialize_field(&mut self, key: &str, value: HostValue)
        requires
            old(self).wf(),
        ensures
            final(self).wf(),
            final(self).variant() == old(self).variant(),
            final(self).inner().fields() == record_put(old(self).inner().fields(), key@, value),
    {
        self.inner.serialize_field(key, value);
    }

    /// Finishes the struct variant as `{ variant: { fields... } }`.
    pub fn end(self) -> (r: HostValue)
        ensures
            r matches HostValue::Object(f) && f@.len() == 1 && f@[0].0@ == self.variant()
                && (f@[0].1 matches HostValue::Object(t) && record_view(t@)
                == self.inner().fields()),
    {
        let value = self.inner.end();
        tagged(self.variant, value)
    }
}

/// The largest integer that a double holds exactly, 2^53 - 1.
pub const MAX_SAFE_INTEGER: i64 = 9007199254740991;

/// Whether a double holds the integer `v` exactly.
pub open spec fn is_safe_integer(v: int) -> bool {
    -MAX_SAFE_INTEGER <= v <= MAX_SAFE_INTEGER
}

/// The outcome of converting a signed 64-bit integer.
pub open spec fn i64_result(v: i64) -> Result<HostValue, Error> {
    if is_safe_integer(v as int) {
        Ok(HostValue::Number(v))
    } else {
        Err(Error::UnsafeInteger(v as i128))
    }
}

/// The outcome of converting an unsigned 64-bit integer.
pub open spec fn u64_result(v: u64) -> Result<HostValue, Error> {
    if is_safe_integer(v as int) {
        Ok(HostValue::Number(v as i64))
    } else {
        Err(Error::UnsafeInteger(v as i128))
    }
}

/// The integer that a host number stands for, as a decoder of the host model reads it.
pub open spec fn decode_integer(h: HostValue) -> Option<int> {
    match h {
        HostValue::Number(n) => Some(n as int),
        _ => None,
    }
}

/// Round trip of integers: every 64-bit integer that a double holds exactly
/// converts, and decoding the host number gives back the same integer.
pub proof fn lemma_integer_round_trip(s: i64, u: u64)
    ensures
        is_safe_integer(s as int) ==> i64_result(s) is Ok && decode_integer(i64_result(s)->Ok_0)
            == Some(s as int),
        is_safe_integer(u as int) ==> u64_result(u) is Ok && decode_integer(u64_result(u)->Ok_0)
            == Some(u as int),
{
}

/// The host's absent-value sentinel.
pub open spec fn absent() -> HostValue {
    HostValue::Undefined
}

/// Relies on `char::to_string`: the string of that one character.
#[verifier::external_body]
fn char_to_string(c: char) -> (r: String)
    ensures
        r@ == seq![c],
{
    c.to_string()
}

/// The serializer entry point: one method per value shape.
pub struct Serializer(pub ());

impl Serializer {
    /// The serializer holds no configuration: every one is the same.
    pub fn new() -> (r: Self)
        ensures
            r == Serializer(()),
    {
        Serializer(())
    }

    pub fn serialize_bool(&self, v: bool) -> (r: HostValue)
        ensures
            r == HostValue::Bool(v),
    {
        HostValue::Bool(v)
    }

    pub fn serialize_i8(&self, v: i8) -> (r: HostValue)
        ensures
            r == HostValue::Number(v as i64),
    {
        HostValue::Number(v as i64)
    }

    pub fn serialize_i16(&self, v: i16) -> (r: HostValue)
        ensures
            r == HostValue::Number(v as i64),
    {
        HostValue::Number(v as i64)
    }

    pub fn serialize_i32(&self, v: i32) -> (r: HostValue)
        ensures
            r == HostValue::Number(v as i64),
    {
        HostValue::Number(v as i64)
    }

    pub fn serialize_u8(&self, v: u8) -> (r: HostValue)
        ensures
            r == HostValue::Number(v as i64),
    {
        HostValue::Number(v as i64)
    }

    pub fn serialize_u16(&self, v: u16) -> (r: HostValue)
        ensures
            r == HostValue::Number(v as i64),
    {
        HostValue::Number(v as i64)
    }

    pub fn serialize_u32(&self, v: u32) -> (r: HostValue)
        ensures
            r == HostValue::Number(v as i64),
    {
        HostValue::Number(v as i64)
    }

    /// A signed 64-bit integer becomes a host number when a double holds it
    /// exactly; otherwise the conversion fails, naming the value.
    pub fn serialize_i64(&self, v: i64) -> (r: Result<HostValue, Error>)
        ensures
            r == i64_result(v),
    {
        if v >= -MAX_SAFE_INTEGER && v <= MAX_SAFE_INTEGER {
            Ok(HostValue::Number(v))
        } else {
            Err(Error::UnsafeInteger(v as i128))
        }
    }

    /// An unsigned 64-bit integer becomes a host number when a double holds it
    /// exactly; otherwise the conversion fails, naming the value.
    pub fn serialize_u64(&self, v: u64) -> (r: Result<HostValue, Error>)
        ensures
            r == u64_result(v),
    {
        if v <= MAX_SAFE_INTEGER as u64 {
            Ok(HostValue::Number(v as i64))
        } else {
            Err(Error::UnsafeInteger(v as i128))
        }
    }

    /// A character becomes a one-character host string.
    pub fn serialize_char(&self, v: char) -> (r: HostValue)
        ensures
            is_host_string(r, seq![v]),
    {
        HostValue::Str(char_to_string(v))
    }

    pub fn serialize_str(&self, v: &str) -> (r: HostValue)
        ensures
            is_host_string(r, v@),
    {
        HostValue::Str(String::from_str(v))
    }

    /// Bytes are copied into a fresh host byte buffer that owns its contents.
    pub fn serialize_bytes(&self, v: &[u8]) -> (r: HostValue)
        ensures
            r matches HostValue::Bytes(b) && b@ == v@,
    {
        let mut copy: Vec<u8> = Vec::with_capacity(v.len());
        let mut i: usize = 0;
        while i < v.len()
            invariant
                0 <= i <= v@.len(),
                copy@ == v@.subrange(0, i as int),
            decreases v@.len() - i,
        {
            copy.push(v[i]);
            i = i + 1;
        }
        assert(copy@ =~= v@);
        HostValue::Bytes(copy)
    }

    pub fn serialize_none(&self) -> (r: HostValue)
        ensures
            r == absent(),
    {
        HostValue::Undefined
    }

    /// A present optional value converts to the value itself.
    pub fn serialize_some(&self, value: HostValue) -> (r: HostValue)
        ensures
            r == value,
    {
        value
    }

    pub fn serialize_unit(&self) -> (r: HostValue)
        ensures
            r == absent(),
    {
        HostValue::Undefined
    }

    pub fn serialize_unit_struct(&self, name: &'static str) -> (r: HostValue)
        ensures
            r == absent(),
    {
        self.serialize_unit()
    }

    /// A unit variant becomes its name as a host string.
    pub fn serialize_unit_variant(
        &self,
        name: &'static str,
        variant_index: u32,
        variant: &'static str,
    ) -> (r: HostValue)
        ensures
            is_host_string(r, variant@),
    {
        HostValue::Str(String::from_str(variant))
    }

    /// A newtype struct converts to its content.
    pub fn serialize_newtype_struct(&self, name: &'static str, value: HostValue) -> (r: HostValue)
        ensures
            r == value,
    {
        value
    }

    /// A newtype variant becomes `{ variant: value }`.
    pub fn serialize_newtype_variant(
        &self,
        name: &'static str,
        variant_index: u32,
        variant: &'static str,
        value: HostValue,
    ) -> (r: HostValue)
        ensures
            is_tagged(r, variant@, value),
    {
        tagged(variant, self.serialize_newtype_struct(variant, value))
    }

    /// A sequence opens an empty array builder.
    pub fn serialize_seq(&self, len: Option<usize>) -> (r: Result<ArraySerializer, Error>)
        ensures
            r matches Ok(s) && s@ == Seq::<HostValue>::empty(),
    {
        Ok(ArraySerializer::new(self))
    }

    pub fn serialize_tuple(&self, len: usize) -> (r: Result<ArraySerializer, Error>)
        ensures
            r matches Ok(s) && s@ == Seq::<HostValue>::empty(),
    {
        self.serialize_seq(Some(len))
    }

    pub fn serialize_tuple_struct(&self, name: &'static str, len: usize) -> (r: Result<
        ArraySerializer,
        Error,
    >)
        ensures
            r matches Ok(s) && s@ == Seq::<HostValue>::empty(),
    {
        self.serialize_tuple(len)
    }

    /// A tuple variant opens an empty array builder tagged with the variant name.
    pub fn serialize_tuple_variant(
        &self,
        name: &'static str,
        variant_index: u32,
        variant: &'static str,
        len: usize,
    ) -> (r: Result<VariantSerializer<ArraySerializer>, Error>)
        ensures
            r matches Ok(s) && s.variant() == variant@ && s.inner()@ == Seq::<HostValue>::empty(),
    {
        let inner = self.serialize_tuple_struct(variant, len)?;
        Ok(VariantSerializer::new(variant, inner))
    }

    /// A map opens an empty ordered-map builder with no pending key.
    pub fn serialize_map(&self, len: Option<usize>) -> (r: Result<MapSerializer, Error>)
        ensures
            r matches Ok(s) && s.wf() && s.entries() == Seq::<(HostValue, HostValue)>::empty()
                && s.pending_key() is None,
    {
        Ok(MapSerializer::new(self))
    }

    /// A struct opens an empty record builder.
    pub fn serialize_struct(&self, name: &'static str, len: usize) -> (r: Result<
        ObjectSerializer,
        Error,
    >)
        ensures
            r matches Ok(s) && s.wf() && s.fields() == Seq::<(Seq<char>, HostValue)>::empty(),
    {
        Ok(ObjectSerializer::new(self))
    }

    /// A struct variant opens an empty record builder tagged with the variant name.
    pub fn serialize_struct_variant(
        &self,
        name: &'static str,
        variant_index: u32,
        variant: &'static str,
        len: usize,
    ) -> (r: Result<VariantSerializer<ObjectSerializer>, Error>)
        ensures
            r matches Ok(s) && s.wf() && s.variant() == variant@ && s.inner().fields() == Seq::<
                (Seq<char>, HostValue),
            >::empty(),
    {
        let inner = self.serialize_struct(variant, len)?;
        Ok(VariantSerializer::new(variant, inner))
    }
}

} // verus!
