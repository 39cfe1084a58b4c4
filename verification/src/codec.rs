use vstd::prelude::*;
use vstd::string::StringExecFns;
use crate::document::{held, DocValue, Document, Value};
use crate::models::oven_fan_value::OvenFanValue;
use crate::models::temperature_unit::TemperatureUnit;
use crate::quantity::Quantity;

verus! {

/// What a field should have held.
#[derive(Clone, Copy, Debug, PartialEq, Eq, Structural)]
pub enum ExpectedKind {
    /// A text.
    Text,
    /// A number: a double, or a whole number that a double holds exactly
    /// and that is below two to the fifty-third in magnitude.
    Number,
    /// A list.
    List,
    /// A record.
    Document,
    /// An identifier that the store gave.
    Identifier,
    /// A fan setting: one of its labels, or one of its legacy codes.
    OvenFan,
    /// A temperature scale: one of its labels, or one of its legacy codes.
    TemperatureUnit,
}

/// Why a stored record could not be read.
#[derive(Clone, Debug, PartialEq)]
pub enum DecodeError {
    /// A field that a record cannot do without is missing, or holds the
    /// marker for "no value". The text is the field's name.
    MissingRequiredField(String),
    /// A field holds a value that cannot stand for what the field means. The
    /// text is the field's name.
    TypeMismatch(String, ExpectedKind),
}

/// What a `DecodeError` holds.
pub enum DecodeFailure {
    MissingRequiredField(Seq<char>),
    TypeMismatch(Seq<char>, ExpectedKind),
}

impl View for DecodeError {
    type V = DecodeFailure;

    open spec fn view(&self) -> DecodeFailure {
        match self {
            DecodeError::MissingRequiredField(field) => DecodeFailure::MissingRequiredField(field@),
            DecodeError::TypeMismatch(field, kind) => DecodeFailure::TypeMismatch(field@, *kind),
        }
    }
}

/// What the result of reading a stored value holds.
pub open spec fn outcome<T: DeepView>(r: Result<T, DecodeError>) -> Result<T::V, DecodeFailure> {
    match r {
        Ok(x) => Ok(x.deep_view()),
        Err(e) => Err(e@),
    }
}

/// A kind of value that has a stored form.
pub trait Codec: DeepView + Sized {
    /// The stored form of a value.
    spec fn encoded(x: Self::V) -> Value;

    /// What a stored value reads as. `field` is the name under which it was
    /// found, by which a failure is reported.
    spec fn decoded(v: Value, field: Seq<char>) -> Result<Self::V, DecodeFailure>;

    /// Writes a value in its stored form.
    fn encode(&self) -> (d: DocValue)
        ensures
            d@ == Self::encoded(self.deep_view()),
    ;

    /// Reads a stored value that was found under the name `field`.
    fn decode(d: &DocValue, field: &str) -> (r: Result<Self, DecodeError>)
        ensures
            outcome(r) == Self::decoded(d@, field@),
    ;

    /// What was written is read back as it was, under whatever name; and the
    /// stored form of a value is never the marker for "no value".
    proof fn law_round_trip(x: Self::V, field: Seq<char>)
        ensures
            Self::decoded(Self::encoded(x), field) == Ok::<Self::V, DecodeFailure>(x),
            Self::encoded(x) != Value::Null,
    ;
}

/// What a field that a record cannot do without reads as.
pub open spec fn required_field<T: Codec>(fields: Seq<(Seq<char>, Value)>, key: Seq<char>) -> Result<
    T::V,
    DecodeFailure,
> {
    match held(fields, key) {
        None => Err(DecodeFailure::MissingRequiredField(key)),
        Some(v) => T::decoded(v, key),
    }
}

/// What a field that may be left out reads as.
pub open spec fn optional_field<T: Codec>(fields: Seq<(Seq<char>, Value)>, key: Seq<char>) -> Result<
    Option<T::V>,
    DecodeFailure,
> {
    match held(fields, key) {
        None => Ok(None),
        Some(v) => match T::decoded(v, key) {
            Ok(x) => Ok(Some(x)),
            Err(e) => Err(e),
        },
    }
}

/// What a field reads as that stands for `default` where it is left out.
pub open spec fn defaulted_field<T: Codec>(
    fields: Seq<(Seq<char>, Value)>,
    key: Seq<char>,
    default: T::V,
) -> Result<T::V, DecodeFailure> {
    match held(fields, key) {
        None => Ok(default),
        Some(v) => T::decoded(v, key),
    }
}

/// The stored form of a value that may be missing: the marker for "no
/// value" where it is.
pub open spec fn encoded_option<T: Codec>(o: Option<T::V>) -> Value {
    match o {
        Some(x) => T::encoded(x),
        None => Value::Null,
    }
}

/// The value that a record holds under `key`, unless the name is missing or
/// stands with the marker for "no value".
pub fn held_value<'a>(doc: &'a Document, key: &str) -> (found: Option<&'a DocValue>)
    ensures
        match found {
            Some(value) => held(doc@, key@) == Some(value@),
            None => held(doc@, key@) is None,
        },
{
    match doc.get(key) {
        Some(DocValue::Null) => None,
        other => other,
    }
}

/// Reads a field that a record cannot do without.
pub fn required<T: Codec>(doc: &Document, key: &str) -> (r: Result<T, DecodeError>)
    ensures
        outcome(r) == required_field::<T>(doc@, key@),
{
    match held_value(doc, key) {
        None => Err(DecodeError::MissingRequiredField(String::from_str(key))),
        Some(value) => T::decode(value, key),
    }
}

/// Reads a field that may be left out.
pub fn optional<T: Codec>(doc: &Document, key: &str) -> (r: Result<Option<T>, DecodeError>)
    ensures
        outcome(r) == optional_field::<T>(doc@, key@),
{
    match held_value(doc, key) {
        None => Ok(None),
        Some(value) => match T::decode(value, key) {
            Ok(x) => Ok(Some(x)),
            Err(e) => Err(e),
        },
    }
}

/// Reads a field that stands for `default` where it is left out.
pub fn defaulted<T: Codec>(doc: &Document, key: &str, default: T) -> (r: Result<T, DecodeError>)
    ensures
        outcome(r) == defaulted_field::<T>(doc@, key@, default.deep_view()),
{
    match held_value(doc, key) {
        None => Ok(default),
        Some(value) => T::decode(value, key),
    }
}

/// Writes a value that may be missing.
pub fn encode_option<T: Codec>(o: &Option<T>) -> (d: DocValue)
    ensures
        d@ == encoded_option::<T>(o.deep_view()),
{
    match o {
        Some(x) => x.encode(),
        None => DocValue::Null,
    }
}

/// A field written from a value reads back as that value.
pub proof fn lemma_required_reads_back<T: Codec>(
    fields: Seq<(Seq<char>, Value)>,
    key: Seq<char>,
    x: T::V,
)
    requires
        crate::document::lookup(fields, key) == Some(T::encoded(x)),
    ensures
        required_field::<T>(fields, key) == Ok::<T::V, DecodeFailure>(x),
{
    T::law_round_trip(x, key);
}

/// A field written from a value reads back as that value, whatever would
/// have stood for it had it been left out.
pub proof fn lemma_defaulted_reads_back<T: Codec>(
    fields: Seq<(Seq<char>, Value)>,
    key: Seq<char>,
    x: T::V,
    default: T::V,
)
    requires
        crate::document::lookup(fields, key) == Some(T::encoded(x)),
    ensures
        defaulted_field::<T>(fields, key, default) == Ok::<T::V, DecodeFailure>(x),
{
    T::law_round_trip(x, key);
}

/// A field written from a value that may be missing reads back as it was.
pub proof fn lemma_optional_reads_back<T: Codec>(
    fields: Seq<(Seq<char>, Value)>,
    key: Seq<char>,
    o: Option<T::V>,
)
    requires
        crate::document::lookup(fields, key) == Some(encoded_option::<T>(o)),
    ensures
        optional_field::<T>(fields, key) == Ok::<Option<T::V>, DecodeFailure>(o),
{
    if let Some(x) = o {
        T::law_round_trip(x, key);
    }
}

impl Codec for String {
    open spec fn encoded(x: Seq<char>) -> Value {
        Value::Text(x)
    }

    open spec fn decoded(v: Value, field: Seq<char>) -> Result<Seq<char>, DecodeFailure> {
        match v {
            Value::Text(s) => Ok(s),
            _ => Err(DecodeFailure::TypeMismatch(field, ExpectedKind::Text)),
        }
    }

    fn encode(&self) -> (d: DocValue)
        ensures
            d@ == Value::Text(self@),
    {
        DocValue::Text(self.clone())
    }

    fn decode(d: &DocValue, field: &str) -> (r: Result<String, DecodeError>)
        ensures
            outcome(r) == <String as Codec>::decoded(d@, field@),
    {
        match d {
            DocValue::Text(s) => Ok(s.clone()),
            _ => Err(DecodeError::TypeMismatch(String::from_str(field), ExpectedKind::Text)),
        }
    }

    proof fn law_round_trip(x: Seq<char>, field: Seq<char>) {
    }
}

impl Codec for Quantity {
    open spec fn encoded(x: Quantity) -> Value {
        Value::Double(x.bits)
    }

    open spec fn decoded(v: Value, field: Seq<char>) -> Result<Quantity, DecodeFailure> {
        match v {
            Value::Double(bits) => Ok(Quantity { bits }),
            Value::Int32(n) => Ok(Quantity::of_whole(n as int)),
            Value::Int64(n) => if Quantity::is_safe(n as int) {
                Ok(Quantity::of_whole(n as int))
            } else {
                Err(DecodeFailure::TypeMismatch(field, ExpectedKind::Number))
            },
            _ => Err(DecodeFailure::TypeMismatch(field, ExpectedKind::Number)),
        }
    }

    fn encode(&self) -> (d: DocValue)
        ensures
            d@ == Value::Double(self.bits),
    {
        DocValue::Double(self.bits)
    }

    fn decode(d: &DocValue, field: &str) -> (r: Result<Quantity, DecodeError>)
        ensures
            outcome(r) == <Quantity as Codec>::decoded(d@, field@),
    {
        let read = match d {
            DocValue::Double(bits) => Some(Quantity { bits: *bits }),
            DocValue::Int32(n) => Quantity::from_whole(*n as i64),
            DocValue::Int64(n) => Quantity::from_whole(*n),
            _ => None,
        };
        match read {
            Some(q) => Ok(q),
            None => Err(DecodeError::TypeMismatch(String::from_str(field), ExpectedKind::Number)),
        }
    }

    proof fn law_round_trip(x: Quantity, field: Seq<char>) {
    }
}

impl Codec for OvenFanValue {
    open spec fn encoded(x: OvenFanValue) -> Value {
        Value::Text(x.label_of())
    }

    open spec fn decoded(v: Value, field: Seq<char>) -> Result<OvenFanValue, DecodeFailure> {
        let read = match v {
            Value::Text(s) => OvenFanValue::variant_of_label(s),
            Value::Int32(n) => OvenFanValue::variant_of_legacy_code(n as int),
            Value::Int64(n) => OvenFanValue::variant_of_legacy_code(n as int),
            _ => None,
        };
        match read {
            Some(x) => Ok(x),
            None => Err(DecodeFailure::TypeMismatch(field, ExpectedKind::OvenFan)),
        }
    }

    fn encode(&self) -> (d: DocValue)
        ensures
            d@ == Value::Text(self.label_of()),
    {
        DocValue::Text(String::from_str(self.label()))
    }

    fn decode(d: &DocValue, field: &str) -> (r: Result<OvenFanValue, DecodeError>)
        ensures
            outcome(r) == <OvenFanValue as Codec>::decoded(d@, field@),
    {
        let read = match d {
            DocValue::Text(s) => OvenFanValue::from_str(s.as_str()),
            DocValue::Int32(n) => OvenFanValue::from_legacy_code(*n as i64),
            DocValue::Int64(n) => OvenFanValue::from_legacy_code(*n),
            _ => Err(()),
        };
        match read {
            Ok(x) => Ok(x),
            Err(_) => Err(DecodeError::TypeMismatch(String::from_str(field), ExpectedKind::OvenFan)),
        }
    }

    proof fn law_round_trip(x: OvenFanValue, field: Seq<char>) {
        OvenFanValue::law_label_round_trip(x);
    }
}

impl Codec for TemperatureUnit {
    open spec fn encoded(x: TemperatureUnit) -> Value {
        Value::Text(x.label_of())
    }

    open spec fn decoded(v: Value, field: Seq<char>) -> Result<TemperatureUnit, DecodeFailure> {
        let read = match v {
            Value::Text(s) => TemperatureUnit::variant_of_label(s),
            Value::Int32(n) => TemperatureUnit::variant_of_legacy_code(n as int),
            Value::Int64(n) => TemperatureUnit::variant_of_legacy_code(n as int),
            _ => None,
        };
        match read {
            Some(x) => Ok(x),
            None => Err(DecodeFailure::TypeMismatch(field, ExpectedKind::TemperatureUnit)),
        }
    }

    fn encode(&self) -> (d: DocValue)
        ensures
            d@ == Value::Text(self.label_of()),
    {
        DocValue::Text(String::from_str(self.label()))
    }

    fn decode(d: &DocValue, field: &str) -> (r: Result<TemperatureUnit, DecodeError>)
        ensures
            outcome(r) == <TemperatureUnit as Codec>::decoded(d@, field@),
    {
        let read = match d {
            DocValue::Text(s) => TemperatureUnit::from_str(s.as_str()),
            DocValue::Int32(n) => TemperatureUnit::from_legacy_code(*n as i64),
            DocValue::Int64(n) => TemperatureUnit::from_legacy_code(*n),
            _ => Err(()),
        };
        match read {
            Ok(x) => Ok(x),
            Err(_) => Err(DecodeError::TypeMismatch(String::from_str(field), ExpectedKind::TemperatureUnit)),
        }
    }

    proof fn law_round_trip(x: TemperatureUnit, field: Seq<char>) {
        TemperatureUnit::law_label_round_trip(x);
    }
}

/// Whether every item of a list reads as a value.
pub open spec fn all_decode<T: Codec>(items: Seq<Value>, field: Seq<char>) -> bool {
    forall|i: int| 0 <= i < items.len() ==> (#[trigger] T::decoded(items[i], field)) is Ok
}

/// Whether the item at `i` is the first of a list that does not read as a
/// value.
pub open spec fn first_failure<T: Codec>(items: Seq<Value>, field: Seq<char>, i: int) -> bool {
    &&& 0 <= i < items.len()
    &&& T::decoded(items[i], field) is Err
    &&& forall|j: int| 0 <= j < i ==> (#[trigger] T::decoded(items[j], field)) is Ok
}

/// What a list reads as: the values of its items, each at its place; or,
/// where an item does not read as a value, the failure of the first such.
pub open spec fn decoded_list<T: Codec>(items: Seq<Value>, field: Seq<char>) -> Result<
    Seq<T::V>,
    DecodeFailure,
> {
    if all_decode::<T>(items, field) {
        Ok(Seq::new(items.len(), |i: int| T::decoded(items[i], field)->Ok_0))
    } else {
        let i = choose|i: int| first_failure::<T>(items, field, i);
        Err(T::decoded(items[i], field)->Err_0)
    }
}

/// The stored forms of the values of a list, each at its place.
pub open spec fn encoded_list<T: Codec>(xs: Seq<T::V>) -> Seq<Value> {
    Seq::new(xs.len(), |i: int| T::encoded(xs[i]))
}

/// A list has one first item that fails, if any fails.
pub proof fn lemma_first_failure_unique<T: Codec>(items: Seq<Value>, field: Seq<char>, i: int)
    requires
        first_failure::<T>(items, field, i),
    ensures
        !all_decode::<T>(items, field),
        decoded_list::<T>(items, field) == Err::<Seq<T::V>, DecodeFailure>(
            T::decoded(items[i], field)->Err_0,
        ),
{
    let k = choose|k: int| first_failure::<T>(items, field, k);
    if k < i {
        assert(T::decoded(items[k], field) is Ok);
    }
    if i < k {
        assert(T::decoded(items[i], field) is Ok);
    }
}

impl<T: Codec> Codec for Vec<T> {
    open spec fn encoded(xs: Seq<T::V>) -> Value {
        Value::Array(encoded_list::<T>(xs))
    }

    open spec fn decoded(v: Value, field: Seq<char>) -> Result<Seq<T::V>, DecodeFailure> {
        match v {
            Value::Array(items) => decoded_list::<T>(items, field),
            _ => Err(DecodeFailure::TypeMismatch(field, ExpectedKind::List)),
        }
    }

    fn encode(&self) -> (d: DocValue)
        ensures
            d@ == Value::Array(encoded_list::<T>(self.deep_view())),
    {
        let mut out: Vec<DocValue> = Vec::new();
        let mut i: usize = 0;
        while i < self.len()
            invariant
                i <= self.len(),
                out@.len() == i,
                forall|j: int| 0 <= j < i ==> (#[trigger] out@[j])@ == T::encoded(self@[j].deep_view()),
            decreases self.len() - i,
        {
            out.push(self[i].encode());
            i += 1;
        }
        proof {
            DocValue::lemma_array_model(out);
            assert(out.deep_view() =~= encoded_list::<T>(self.deep_view()));
        }
        DocValue::Array(out)
    }

    fn decode(d: &DocValue, field: &str) -> (r: Result<Vec<T>, DecodeError>)
        ensures
            outcome(r) == <Vec<T> as Codec>::decoded(d@, field@),
    {
        match d {
            DocValue::Array(items) => {
                let ghost values = items.deep_view();
                proof {
                    DocValue::lemma_array_model(*items);
                }
                let mut out: Vec<T> = Vec::new();
                let mut i: usize = 0;
                while i < items.len()
                    invariant
                        i <= items.len(),
                        values == items.deep_view(),
                        d@ == Value::Array(values),
                        out@.len() == i,
                        forall|j: int|
                            0 <= j < i ==> (#[trigger] T::decoded(values[j], field@)) == Ok::<
                                T::V,
                                DecodeFailure,
                            >(out@[j].deep_view()),
                    decreases items.len() - i,
                {
                    match T::decode(&items[i], field) {
                        Ok(x) => {
                            out.push(x);
                        },
                        Err(e) => {
                            proof {
                                assert(values[i as int] == items@[i as int]@);
                                assert(first_failure::<T>(values, field@, i as int));
                                lemma_first_failure_unique::<T>(values, field@, i as int);
                            }
                            return Err(e);
                        },
                    }
                    i += 1;
                }
                proof {
                    assert(all_decode::<T>(values, field@));
                    assert(decoded_list::<T>(values, field@)->Ok_0 =~= out.deep_view());
                }
                Ok(out)
            },
            _ => Err(DecodeError::TypeMismatch(String::from_str(field), ExpectedKind::List)),
        }
    }

    proof fn law_round_trip(xs: Seq<T::V>, field: Seq<char>) {
        let items = encoded_list::<T>(xs);
        assert forall|i: int| 0 <= i < items.len() implies (#[trigger] T::decoded(items[i], field))
            == Ok::<T::V, DecodeFailure>(xs[i]) by {
            T::law_round_trip(xs[i], field);
        }
        assert(all_decode::<T>(items, field));
        assert(decoded_list::<T>(items, field)->Ok_0 =~= xs);
    }
}

/// A list that reads as values reads as one value for each item, in the
/// order of the items.
pub proof fn law_list_keeps_places<T: Codec>(items: Seq<Value>, field: Seq<char>, xs: Seq<T::V>)
    requires
        decoded_list::<T>(items, field) == Ok::<Seq<T::V>, DecodeFailure>(xs),
    ensures
        xs.len() == items.len(),
        forall|i: int|
            0 <= i < items.len() ==> T::decoded(#[trigger] items[i], field) == Ok::<T::V, DecodeFailure>(
                xs[i],
            ),
{
    if !all_decode::<T>(items, field) {
        let i = choose|i: int| first_failure::<T>(items, field, i);
        assert(false);
    }
    assert forall|i: int| 0 <= i < items.len() implies T::decoded(#[trigger] items[i], field) == Ok::<
        T::V,
        DecodeFailure,
    >(xs[i]) by {
        assert(T::decoded(items[i], field) is Ok);
    }
}

/// A list with an item that does not read as a value does not read as a
/// list of values: nothing is left out, nothing is made up.
pub proof fn law_list_fails_whole<T: Codec>(items: Seq<Value>, field: Seq<char>, i: int)
    requires
        0 <= i < items.len(),
        T::decoded(items[i], field) is Err,
    ensures
        decoded_list::<T>(items, field) is Err,
{
}

} // verus!
