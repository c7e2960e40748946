//! A JSON object as the daemon reads it: named fields holding the few kinds
//! of value that its schemas tell apart.

use vstd::prelude::*;
use vstd::string::StringSliceAdditionalSpecFns;
use vstd::utf8::encode_utf8;

verus! {

/// One field value. `Int` is a non-negative integer that fits in 64 bits;
/// every other number, array or object is `Other`.
pub enum JsonValue {
    Null,
    Bool(bool),
    Int(u64),
    Text(String),
    Other,
}

/// The mathematical value of a `JsonValue`.
pub enum JsonModel {
    Null,
    Bool(bool),
    Int(u64),
    Text(Seq<char>),
    Other,
}

impl View for JsonValue {
    type V = JsonModel;

    open spec fn view(&self) -> JsonModel {
        match self {
            JsonValue::Null => JsonModel::Null,
            JsonValue::Bool(b) => JsonModel::Bool(*b),
            JsonValue::Int(n) => JsonModel::Int(*n),
            JsonValue::Text(t) => JsonModel::Text(t@),
            JsonValue::Other => JsonModel::Other,
        }
    }
}

impl Clone for JsonValue {
    fn clone(&self) -> (r: JsonValue)
        ensures
            r@ == self@,
    {
        match self {
            JsonValue::Null => JsonValue::Null,
            JsonValue::Bool(b) => JsonValue::Bool(*b),
            JsonValue::Int(n) => JsonValue::Int(*n),
            JsonValue::Text(t) => JsonValue::Text(t.clone()),
            JsonValue::Other => JsonValue::Other,
        }
    }
}

pub struct Field {
    pub key: String,
    pub value: JsonValue,
}

/// The fields of a JSON object, in order.
pub struct Document {
    pub fields: Vec<Field>,
}

impl View for Document {
    type V = Seq<(Seq<char>, JsonModel)>;

    open spec fn view(&self) -> Seq<(Seq<char>, JsonModel)> {
        Seq::new(self.fields@.len(), |i: int| (self.fields@[i].key@, self.fields@[i].value@))
    }
}

/// The value of the first field named `key`.
pub open spec fn lookup(d: Seq<(Seq<char>, JsonModel)>, key: Seq<char>) -> Option<JsonModel>
    decreases d.len(),
{
    if d.len() == 0 {
        None
    } else if d[0].0 == key {
        Some(d[0].1)
    } else {
        lookup(d.drop_first(), key)
    }
}

/// Byte-wise equality of two slices.
pub fn bytes_eq(a: &[u8], b: &[u8]) -> (r: bool)
    ensures
        r == (a@ == b@),
{
    if a.len() != b.len() {
        return false;
    }
    let mut i: usize = 0;
    while i < a.len()
        invariant
            a@.len() == b@.len(),
            0 <= i <= a@.len(),
            forall|j: int| 0 <= j < i ==> a@[j] == b@[j],
        decreases a@.len() - i,
    {
        if a[i] != b[i] {
            return false;
        }
        i = i + 1;
    }
    assert(a@ =~= b@);
    true
}

/// Equality of two strings, decided on their UTF-8 bytes.
pub fn str_eq(a: &str, b: &str) -> (r: bool)
    ensures
        r == (a@ == b@),
{
    let r = bytes_eq(a.as_bytes(), b.as_bytes());
    proof {
        vstd::utf8::encode_utf8_decode_utf8(a@);
        vstd::utf8::encode_utf8_decode_utf8(b@);
    }
    r
}

impl Document {
    pub fn new() -> (d: Document)
        ensures
            d@ == Seq::<(Seq<char>, JsonModel)>::empty(),
    {
        Document { fields: Vec::new() }
    }

    /// Appends a field after the existing ones.
    pub fn push(&mut self, key: &str, value: JsonValue)
        ensures
            final(self)@ == old(self)@.push((key@, value@)),
    {
        self.fields.push(Field { key: key.to_owned(), value });
        assert(final(self)@ =~= old(self)@.push((key@, value@)));
    }

    /// The value of the first field named `key`, if any.
    pub fn get(&self, key: &str) -> (r: Option<&JsonValue>)
        ensures
            match r {
                Some(v) => lookup(self@, key@) == Some(v@),
                None => lookup(self@, key@) is None,
            },
    {
        let mut i: usize = 0;
        assert(self@.subrange(0, self@.len() as int) =~= self@);
        while i < self.fields.len()
            invariant
                0 <= i <= self@.len(),
                self@.len() == self.fields@.len(),
                lookup(self@, key@) == lookup(self@.subrange(i as int, self@.len() as int), key@),
            decreases self@.len() - i,
        {
            let f = &self.fields[i];
            let ghost rest = self@.subrange(i as int, self@.len() as int);
            assert(rest[0] == (f.key@, f.value@));
            if str_eq(f.key.as_str(), key) {
                return Some(&f.value);
            }
            assert(rest.drop_first() =~= self@.subrange(i + 1, self@.len() as int));
            i = i + 1;
        }
        None
    }
}

} // verus!
