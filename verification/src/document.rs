use vstd::prelude::*;
use vstd::string::StringExecFns;
use crate::text::same_text;

verus! {

/// What a stored value is: the model over which the mapping is stated.
pub enum Value {
    /// The marker for "no value".
    Null,
    /// A double, by its bits.
    Double(u64),
    /// A 32-bit integer.
    Int32(i32),
    /// A 64-bit integer.
    Int64(i64),
    /// A text.
    Text(Seq<char>),
    /// An identifier that the store gave: twelve bytes.
    ObjectId(Seq<u8>),
    /// A list of values, in order.
    Array(Seq<Value>),
    /// A record: names and values, in order.
    Document(Seq<(Seq<char>, Value)>),
    /// A value of a kind that no recipe uses.
    Other,
}

/// The value that stands under `key` at or after position `start`: that of
/// the first field of that name.
pub open spec fn lookup_from(fields: Seq<(Seq<char>, Value)>, key: Seq<char>, start: int) -> Option<
    Value,
>
    decreases fields.len() - start,
{
    if start < 0 || start >= fields.len() {
        None
    } else if fields[start].0 == key {
        Some(fields[start].1)
    } else {
        lookup_from(fields, key, start + 1)
    }
}

/// The value that stands under `key`, if the record has that name.
pub open spec fn lookup(fields: Seq<(Seq<char>, Value)>, key: Seq<char>) -> Option<Value> {
    lookup_from(fields, key, 0)
}

/// The value that a record holds under `key`: none where the name is
/// missing, and none where it stands with the marker for "no value".
pub open spec fn held(fields: Seq<(Seq<char>, Value)>, key: Seq<char>) -> Option<Value> {
    match lookup(fields, key) {
        Some(Value::Null) => None,
        other => other,
    }
}

/// Whether no name stands twice in a record.
pub open spec fn distinct_keys(fields: Seq<(Seq<char>, Value)>) -> bool {
    forall|i: int, j: int| 0 <= i < j < fields.len() ==> (#[trigger] fields[i]).0 != (#[trigger] fields[j]).0
}

/// A name that no field before `start` bears is looked up from `start` on.
pub proof fn lemma_lookup_skips(fields: Seq<(Seq<char>, Value)>, key: Seq<char>, start: int)
    requires
        0 <= start <= fields.len(),
        forall|j: int| 0 <= j < start ==> (#[trigger] fields[j]).0 != key,
    ensures
        lookup(fields, key) == lookup_from(fields, key, start),
    decreases start,
{
    if start > 0 {
        lemma_lookup_skips(fields, key, start - 1);
    }
}

/// The value under a name that no earlier field bears is that of the field
/// which bears it.
pub proof fn lemma_lookup_found(fields: Seq<(Seq<char>, Value)>, key: Seq<char>, i: int)
    requires
        0 <= i < fields.len(),
        fields[i].0 == key,
        forall|j: int| 0 <= j < i ==> (#[trigger] fields[j]).0 != key,
    ensures
        lookup(fields, key) == Some(fields[i].1),
{
    lemma_lookup_skips(fields, key, i);
}

/// Looking a name up in a record that stands behind other fields is looking
/// it up from behind those fields.
pub proof fn lemma_lookup_from_shifted(
    front: Seq<(Seq<char>, Value)>,
    rest: Seq<(Seq<char>, Value)>,
    key: Seq<char>,
    i: int,
)
    requires
        0 <= i,
    ensures
        lookup_from(front + rest, key, front.len() + i) == lookup_from(rest, key, i),
    decreases rest.len() - i,
{
    let all = front + rest;
    if i < rest.len() {
        assert(all[front.len() + i] == rest[i]);
        lemma_lookup_from_shifted(front, rest, key, i + 1);
    }
}

/// A name that none of the fields in front bears is looked up in the rest.
pub proof fn lemma_lookup_behind(
    front: Seq<(Seq<char>, Value)>,
    rest: Seq<(Seq<char>, Value)>,
    key: Seq<char>,
)
    requires
        forall|j: int| 0 <= j < front.len() ==> (#[trigger] front[j]).0 != key,
    ensures
        lookup(front + rest, key) == lookup(rest, key),
{
    let all = front + rest;
    assert forall|j: int| 0 <= j < front.len() implies (#[trigger] all[j]).0 != key by {
        assert(all[j] == front[j]);
    }
    lemma_lookup_skips(all, key, front.len() as int);
    lemma_lookup_from_shifted(front, rest, key, 0);
}

/// A name that no field bears has no value.
pub proof fn lemma_lookup_missing(fields: Seq<(Seq<char>, Value)>, key: Seq<char>)
    requires
        forall|j: int| 0 <= j < fields.len() ==> (#[trigger] fields[j]).0 != key,
    ensures
        lookup(fields, key) is None,
{
    lemma_lookup_skips(fields, key, fields.len() as int);
}

/// A stored value.
#[derive(Debug, PartialEq)]
pub enum DocValue {
    /// The marker for "no value".
    Null,
    /// A double, by its bits.
    Double(u64),
    /// A 32-bit integer.
    Int32(i32),
    /// A 64-bit integer.
    Int64(i64),
    /// A text.
    Text(String),
    /// An identifier that the store gave.
    ObjectId([u8; 12]),
    /// A list of values, in order.
    Array(Vec<DocValue>),
    /// A record.
    Document(Document),
    /// A value of a kind that no recipe uses.
    Other,
}

/// A stored record: names and values, in order.
#[derive(Debug, PartialEq)]
pub struct Document {
    pub fields: Vec<(String, DocValue)>,
}

impl DocValue {
    /// What this value is.
    pub open spec fn model(self) -> Value
        decreases self,
    {
        match self {
            DocValue::Null => Value::Null,
            DocValue::Double(bits) => Value::Double(bits),
            DocValue::Int32(n) => Value::Int32(n),
            DocValue::Int64(n) => Value::Int64(n),
            DocValue::Text(s) => Value::Text(s@),
            DocValue::ObjectId(bytes) => Value::ObjectId(bytes@),
            DocValue::Array(items) => Value::Array(
                Seq::new(
                    items@.len(),
                    |i: int|
                        if 0 <= i < items@.len() {
                            items@[i].model()
                        } else {
                            Value::Null
                        },
                ),
            ),
            DocValue::Document(doc) => Value::Document(
                Seq::new(
                    doc.fields@.len(),
                    |i: int|
                        if 0 <= i < doc.fields@.len() {
                            (doc.fields@[i].0@, doc.fields@[i].1.model())
                        } else {
                            (Seq::empty(), Value::Null)
                        },
                ),
            ),
            DocValue::Other => Value::Other,
        }
    }

    /// A list is the list of what its items are.
    pub proof fn lemma_array_model(items: Vec<DocValue>)
        ensures
            DocValue::Array(items)@ == Value::Array(items.deep_view()),
    {
        assert(DocValue::Array(items).model()->Array_0 =~= items.deep_view());
    }

    /// A record is the names and values of its fields.
    pub proof fn lemma_document_model(doc: Document)
        ensures
            DocValue::Document(doc)@ == Value::Document(doc@),
    {
        assert(DocValue::Document(doc).model()->Document_0 =~= doc@);
    }
}

impl View for DocValue {
    type V = Value;

    open spec fn view(&self) -> Value {
        self.model()
    }
}

impl DeepView for DocValue {
    type V = Value;

    open spec fn deep_view(&self) -> Value {
        self.model()
    }
}

impl View for Document {
    type V = Seq<(Seq<char>, Value)>;

    open spec fn view(&self) -> Seq<(Seq<char>, Value)> {
        Seq::new(self.fields@.len(), |i: int| (self.fields@[i].0@, self.fields@[i].1@))
    }
}

impl DeepView for Document {
    type V = Seq<(Seq<char>, Value)>;

    open spec fn deep_view(&self) -> Seq<(Seq<char>, Value)> {
        self@
    }
}

impl Document {
    /// The record without fields.
    pub fn new() -> (doc: Document)
        ensures
            doc@ == Seq::<(Seq<char>, Value)>::empty(),
    {
        let doc = Document { fields: Vec::new() };
        assert(doc@ =~= Seq::<(Seq<char>, Value)>::empty());
        doc
    }

    /// This record with one more field at its end.
    pub fn with(self, key: &str, value: DocValue) -> (doc: Document)
        ensures
            doc@ == self@.push((key@, value@)),
    {
        let mut fields = self.fields;
        fields.push((String::from_str(key), value));
        let doc = Document { fields };
        assert(doc@ =~= self@.push((key@, value@)));
        doc
    }

    /// The value under `key`: that of the first field of that name.
    pub fn get(&self, key: &str) -> (found: Option<&DocValue>)
        ensures
            match found {
                Some(value) => lookup(self@, key@) == Some(value@),
                None => lookup(self@, key@) is None,
            },
    {
        let mut i: usize = 0;
        while i < self.fields.len()
            invariant
                i <= self.fields.len(),
                lookup(self@, key@) == lookup_from(self@, key@, i as int),
            decreases self.fields.len() - i,
        {
            if same_text(self.fields[i].0.as_str(), key) {
                return Some(&self.fields[i].1);
            }
            i += 1;
        }
        None
    }
}

impl Clone for DocValue {
    /// A copy that is the same value.
    fn clone(&self) -> (copy: DocValue)
        ensures
            copy@ == self@,
        decreases self,
    {
        match self {
            DocValue::Null => DocValue::Null,
            DocValue::Double(bits) => DocValue::Double(*bits),
            DocValue::Int32(n) => DocValue::Int32(*n),
            DocValue::Int64(n) => DocValue::Int64(*n),
            DocValue::Text(s) => DocValue::Text(s.clone()),
            DocValue::ObjectId(bytes) => DocValue::ObjectId(*bytes),
            DocValue::Array(items) => {
                let mut out: Vec<DocValue> = Vec::new();
                let mut i: usize = 0;
                while i < items.len()
                    invariant
                        i <= items.len(),
                        out@.len() == i,
                        forall|j: int| 0 <= j < i ==> (#[trigger] out@[j])@ == items@[j]@,
                        self == DocValue::Array(*items),
                    decreases items.len() - i,
                {
                    assert(decreases_to!(*self => self->Array_0));
                    assert(decreases_to!(*items => items[i as int]));
                    out.push(items[i].clone());
                    i += 1;
                }
                proof {
                    DocValue::lemma_array_model(out);
                    DocValue::lemma_array_model(*items);
                    assert(out.deep_view() =~= items.deep_view());
                }
                DocValue::Array(out)
            },
            DocValue::Document(doc) => {
                let mut fields: Vec<(String, DocValue)> = Vec::new();
                let mut i: usize = 0;
                while i < doc.fields.len()
                    invariant
                        i <= doc.fields.len(),
                        fields@.len() == i,
                        forall|j: int|
                            0 <= j < i ==> (#[trigger] fields@[j]).0@ == doc.fields@[j].0@
                                && fields@[j].1@ == doc.fields@[j].1@,
                        self == DocValue::Document(*doc),
                    decreases doc.fields.len() - i,
                {
                    assert(decreases_to!(*self => self->Document_0));
                    assert(decreases_to!(*doc => doc.fields));
                    assert(decreases_to!(doc.fields => doc.fields[i as int]));
                    assert(decreases_to!(doc.fields[i as int] => doc.fields[i as int].1));
                    fields.push((doc.fields[i].0.clone(), doc.fields[i].1.clone()));
                    i += 1;
                }
                let copy = Document { fields };
                proof {
                    DocValue::lemma_document_model(copy);
                    DocValue::lemma_document_model(*doc);
                    assert(copy@ =~= doc@);
                }
                DocValue::Document(copy)
            },
            DocValue::Other => DocValue::Other,
        }
    }
}

impl Clone for Document {
    /// A copy that holds the same fields.
    fn clone(&self) -> (copy: Document)
        ensures
            copy@ == self@,
    {
        let mut fields: Vec<(String, DocValue)> = Vec::new();
        let mut i: usize = 0;
        while i < self.fields.len()
            invariant
                i <= self.fields.len(),
                fields@.len() == i,
                forall|j: int|
                    0 <= j < i ==> (#[trigger] fields@[j]).0@ == self.fields@[j].0@ && fields@[j].1@
                        == self.fields@[j].1@,
            decreases self.fields.len() - i,
        {
            fields.push((self.fields[i].0.clone(), self.fields[i].1.clone()));
            i += 1;
        }
        let copy = Document { fields };
        assert(copy@ =~= self@);
        copy
    }
}

} // verus!
