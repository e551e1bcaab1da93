//! The JSON document model that every encoding in this crate is stated over.
//!
//! A document is a tree of plain values. Object members are kept as an ordered
//! list of name/value pairs, so the order in which an encoder lists its keys is
//! part of what it promises, and a decoder can tell a repeated key from a
//! single one. Turning a document into text, and text into a document, is left
//! to the application.

use vstd::prelude::*;

verus! {

/// A double-precision floating-point number, held by its IEEE-754 bit pattern.
///
/// Verified code never computes with such a number; it only carries it and asks
/// whether it is finite.
#[derive(Clone, Copy, Debug, PartialEq, Eq, Hash)]
pub struct FloatBits {
    pub bits: u64,
}

/// The exponent field of a double: all ones marks an infinity or a NaN.
pub const FLOAT_EXPONENT_MASK: u64 = 0x7ff0_0000_0000_0000;

impl FloatBits {
    /// Neither an infinity nor a NaN.
    pub open spec fn finite(self) -> bool {
        self.bits & FLOAT_EXPONENT_MASK != FLOAT_EXPONENT_MASK
    }

    /// The double with the given bit pattern.
    pub fn new(bits: u64) -> (r: FloatBits)
        ensures
            r.bits == bits,
    {
        FloatBits { bits }
    }

    /// Whether the number is neither an infinity nor a NaN.
    pub fn is_finite(&self) -> (r: bool)
        ensures
            r == self.finite(),
    {
        self.bits & FLOAT_EXPONENT_MASK != FLOAT_EXPONENT_MASK
    }
}

/// A JSON number: a non-negative integer, a negative integer, or a double.
#[derive(Clone, Copy, Debug, PartialEq, Eq, Hash)]
pub enum Number {
    PosInt(u64),
    NegInt(i64),
    Float(FloatBits),
}

impl Number {
    /// The number that stands for a signed integer: `NegInt` below zero,
    /// `PosInt` from zero on.
    pub open spec fn of_i64(i: i64) -> Number {
        if i < 0 {
            Number::NegInt(i)
        } else {
            Number::PosInt(i as u64)
        }
    }

    /// The signed integer a number denotes, if it is an integer in range.
    pub open spec fn to_i64(self) -> Result<i64, DecodeError> {
        match self {
            Number::PosInt(u) => if u <= i64::MAX as u64 {
                Ok(u as i64)
            } else {
                Err(DecodeError::OutOfRange)
            },
            Number::NegInt(i) => Ok(i),
            Number::Float(_) => Err(DecodeError::InvalidType),
        }
    }

    /// The unsigned integer a number denotes, if it is a non-negative integer.
    pub open spec fn to_u64(self) -> Result<u64, DecodeError> {
        match self {
            Number::PosInt(u) => Ok(u),
            Number::NegInt(i) => if 0 <= i {
                Ok(i as u64)
            } else {
                Err(DecodeError::OutOfRange)
            },
            Number::Float(_) => Err(DecodeError::InvalidType),
        }
    }

    /// The size a number denotes, if it is a non-negative integer in range.
    pub open spec fn to_usize(self) -> Result<usize, DecodeError> {
        match self {
            Number::PosInt(u) => if u <= usize::MAX as u64 {
                Ok(u as usize)
            } else {
                Err(DecodeError::OutOfRange)
            },
            Number::NegInt(i) => if 0 <= i && i as u64 <= usize::MAX as u64 {
                Ok(i as usize)
            } else {
                Err(DecodeError::OutOfRange)
            },
            Number::Float(_) => Err(DecodeError::InvalidType),
        }
    }

    /// Whether JSON text can carry the number as it stands: a double is
    /// finite, and an integer that is written as `NegInt` is below zero.
    pub open spec fn representable(self) -> bool {
        match self {
            Number::PosInt(_) => true,
            Number::NegInt(i) => i < 0,
            Number::Float(f) => f.finite(),
        }
    }

    /// The number in the form in which JSON text gives it back: an integer
    /// from zero on is a `PosInt`.
    pub open spec fn canonical(self) -> Number {
        match self {
            Number::NegInt(i) => Number::of_i64(i),
            _ => self,
        }
    }

    /// The number that stands for a signed integer.
    pub fn from_i64(i: i64) -> (r: Number)
        ensures
            r == Number::of_i64(i),
    {
        if i < 0 {
            Number::NegInt(i)
        } else {
            Number::PosInt(i as u64)
        }
    }

    /// The number that stands for an unsigned integer.
    pub fn from_u64(u: u64) -> (r: Number)
        ensures
            r == Number::PosInt(u),
    {
        Number::PosInt(u)
    }

    /// The number that stands for a size.
    pub fn from_usize(n: usize) -> (r: Number)
        ensures
            r == Number::PosInt(n as u64),
    {
        Number::PosInt(n as u64)
    }

    /// The number that is the double with the given bit pattern.
    pub fn from_float_bits(bits: u64) -> (r: Number)
        ensures
            r == Number::Float(FloatBits { bits }),
    {
        Number::Float(FloatBits { bits })
    }

    /// The signed integer the number denotes.
    pub fn as_i64(&self) -> (r: Result<i64, DecodeError>)
        ensures
            r == self.to_i64(),
    {
        match self {
            Number::PosInt(u) => if *u <= i64::MAX as u64 {
                Ok(*u as i64)
            } else {
                Err(DecodeError::OutOfRange)
            },
            Number::NegInt(i) => Ok(*i),
            Number::Float(_) => Err(DecodeError::InvalidType),
        }
    }

    /// The unsigned integer the number denotes.
    pub fn as_u64(&self) -> (r: Result<u64, DecodeError>)
        ensures
            r == self.to_u64(),
    {
        match self {
            Number::PosInt(u) => Ok(*u),
            Number::NegInt(i) => if 0 <= *i {
                Ok(*i as u64)
            } else {
                Err(DecodeError::OutOfRange)
            },
            Number::Float(_) => Err(DecodeError::InvalidType),
        }
    }

    /// The size the number denotes.
    pub fn as_usize(&self) -> (r: Result<usize, DecodeError>)
        ensures
            r == self.to_usize(),
    {
        match self {
            Number::PosInt(u) => if *u <= usize::MAX as u64 {
                Ok(*u as usize)
            } else {
                Err(DecodeError::OutOfRange)
            },
            Number::NegInt(i) => if 0 <= *i && *i as u64 <= usize::MAX as u64 {
                Ok(*i as usize)
            } else {
                Err(DecodeError::OutOfRange)
            },
            Number::Float(_) => Err(DecodeError::InvalidType),
        }
    }

    /// Whether JSON text can carry the number.
    pub fn is_representable(&self) -> (r: bool)
        ensures
            r == self.representable(),
    {
        match self {
            Number::PosInt(_) => true,
            Number::NegInt(i) => *i < 0,
            Number::Float(f) => f.is_finite(),
        }
    }

    /// The number in the form in which JSON text gives it back.
    pub fn to_canonical(&self) -> (r: Number)
        ensures
            r == self.canonical(),
    {
        match self {
            Number::NegInt(i) => Number::from_i64(*i),
            _ => *self,
        }
    }
}

/// Why a document was rejected by a decoder.
#[derive(Clone, Copy, Debug, PartialEq, Eq, Hash)]
pub enum DecodeError {
    /// A value of another JSON kind stands where one kind is required.
    InvalidType,
    /// An integer does not fit the field it is meant for.
    OutOfRange,
    /// A required key is absent from an object.
    MissingField,
    /// A key that the decoder reads occurs more than once in an object.
    DuplicateField,
    /// A discriminant names no variant.
    UnknownVariant,
    /// A pair is not written as an array of exactly two elements.
    InvalidLength,
}

/// A JSON document.
#[derive(Debug, PartialEq)]
pub enum Json {
    Null,
    Bool(bool),
    Number(Number),
    String(String),
    Array(Vec<Json>),
    Object(Vec<(String, Json)>),
}

/// The mathematical value of a [`Json`] document.
pub enum JsonView {
    Null,
    Bool(bool),
    Number(Number),
    String(Seq<char>),
    Array(Seq<JsonView>),
    Object(Seq<(Seq<char>, JsonView)>),
}

/// The members of an object: name/value pairs in the order they are written.
pub type Members = Seq<(Seq<char>, JsonView)>;

/// The value of a document.
pub open spec fn json_view(j: Json) -> JsonView
    decreases j, 0nat,
{
    match j {
        Json::Null => JsonView::Null,
        Json::Bool(b) => JsonView::Bool(b),
        Json::Number(n) => JsonView::Number(n),
        Json::String(s) => JsonView::String(s@),
        Json::Array(items) => JsonView::Array(item_views(items@)),
        Json::Object(members) => JsonView::Object(member_views(members@)),
    }
}

/// The values of a run of documents, one for one.
pub open spec fn item_views(items: Seq<Json>) -> Seq<JsonView>
    decreases items, items.len(),
{
    if items.len() == 0 {
        Seq::empty()
    } else {
        item_views(items.drop_last()).push(json_view(items.last()))
    }
}

/// The values of a run of members, one for one.
pub open spec fn member_views(members: Seq<(String, Json)>) -> Members
    decreases members, members.len(),
{
    if members.len() == 0 {
        Seq::empty()
    } else {
        member_views(members.drop_last()).push((members.last().0@, json_view(members.last().1)))
    }
}

impl View for Json {
    type V = JsonView;

    open spec fn view(&self) -> JsonView {
        json_view(*self)
    }
}

impl DeepView for Json {
    type V = JsonView;

    open spec fn deep_view(&self) -> JsonView {
        self@
    }
}

proof fn lemma_item_views(items: Seq<Json>)
    ensures
        item_views(items).len() == items.len(),
        forall|i: int| 0 <= i < items.len() ==> #[trigger] item_views(items)[i] == items[i]@,
    decreases items.len(),
{
    if items.len() > 0 {
        lemma_item_views(items.drop_last());
    }
}

proof fn lemma_member_views(members: Seq<(String, Json)>)
    ensures
        member_views(members).len() == members.len(),
        forall|i: int|
            0 <= i < members.len() ==> #[trigger] member_views(members)[i] == (
                members[i].0@,
                members[i].1@,
            ),
    decreases members.len(),
{
    if members.len() > 0 {
        lemma_member_views(members.drop_last());
    }
}

/// The view of an array is the sequence of its items' views.
pub proof fn lemma_array_view(items: Vec<Json>)
    ensures
        Json::Array(items)@ == JsonView::Array(items.deep_view()),
{
    lemma_item_views(items@);
    assert(item_views(items@) =~= items.deep_view());
}

/// The view of an object is the sequence of its members' views.
pub proof fn lemma_object_view(members: Vec<(String, Json)>)
    ensures
        Json::Object(members)@ == JsonView::Object(members.deep_view()),
{
    lemma_member_views(members@);
    assert(member_views(members@) =~= members.deep_view());
}

impl Clone for Json {
    /// A deep copy: the same document.
    fn clone(&self) -> (r: Json)
        ensures
            r@ == self@,
        decreases self,
    {
        match self {
            Json::Null => Json::Null,
            Json::Bool(b) => Json::Bool(*b),
            Json::Number(n) => Json::Number(*n),
            Json::String(s) => Json::String(s.clone()),
            Json::Array(items) => {
                let mut out: Vec<Json> = Vec::new();
                let mut i: usize = 0;
                while i < items.len()
                    invariant
                        i <= items.len(),
                        out.len() == i,
                        forall|k: int| 0 <= k < i ==> out[k]@ == items[k]@,
                        self is Array,
                        self->Array_0 == *items,
                    decreases items.len() - i,
                {
                    proof {
                        assert(decreases_to!(self => items[i as int]));
                    }
                    out.push(items[i].clone());
                    i += 1;
                }
                proof {
                    lemma_array_view(out);
                    lemma_array_view(*items);
                    assert(out.deep_view() =~= items.deep_view());
                }
                Json::Array(out)
            },
            Json::Object(members) => {
                let mut out: Vec<(String, Json)> = Vec::new();
                let mut i: usize = 0;
                while i < members.len()
                    invariant
                        i <= members.len(),
                        out.len() == i,
                        forall|k: int|
                            0 <= k < i ==> out[k].0@ == members[k].0@ && out[k].1@ == members[k].1@,
                        self is Object,
                        self->Object_0 == *members,
                    decreases members.len() - i,
                {
                    proof {
                        assert(decreases_to!(self => members[i as int]));
                    }
                    out.push((members[i].0.clone(), members[i].1.clone()));
                    i += 1;
                }
                proof {
                    lemma_object_view(out);
                    lemma_object_view(*members);
                    assert(out.deep_view() =~= members.deep_view());
                }
                Json::Object(out)
            },
        }
    }
}

/// How often a key occurs among the members of an object.
pub open spec fn key_count(members: Members, key: Seq<char>) -> nat
    decreases members.len(),
{
    if members.len() == 0 {
        0
    } else {
        key_count(members.drop_last(), key) + if members.last().0 == key {
            1nat
        } else {
            0nat
        }
    }
}

/// The place of a key's first occurrence among the members of an object, or
/// the number of members where it does not occur.
pub open spec fn key_index(members: Members, key: Seq<char>) -> int
    decreases members.len(),
{
    if members.len() == 0 {
        0
    } else {
        let before = key_index(members.drop_last(), key);
        if before < members.len() - 1 {
            before
        } else if members.last().0 == key {
            members.len() - 1
        } else {
            members.len() as int
        }
    }
}

/// A key's first occurrence is a member that carries the key, and the key has
/// one exactly when it occurs at all.
pub broadcast proof fn lemma_key_index(members: Members, key: Seq<char>)
    ensures
        #![trigger key_index(members, key)]
        0 <= key_index(members, key) <= members.len(),
        key_index(members, key) < members.len() ==> members[key_index(members, key)].0 == key,
        key_count(members, key) == 0 <==> key_index(members, key) == members.len(),
    decreases members.len(),
{
    if members.len() > 0 {
        lemma_key_index(members.drop_last(), key);
    }
}

/// A single member.
pub open spec fn one(key: Seq<char>, value: JsonView) -> Members {
    seq![(key, value)]
}

/// A member that is written only when its value is present.
pub open spec fn maybe(key: Seq<char>, value: Option<JsonView>) -> Members {
    match value {
        Some(v) => seq![(key, v)],
        None => Seq::empty(),
    }
}

/// Counting and finding a key in no members at all.
pub broadcast proof fn lemma_key_empty(key: Seq<char>)
    ensures
        #[trigger] key_count(Seq::<(Seq<char>, JsonView)>::empty(), key) == 0,
        key_index(Seq::<(Seq<char>, JsonView)>::empty(), key) == 0,
{
}

/// Counting and finding a key in a single member.
pub broadcast proof fn lemma_key_one(name: Seq<char>, value: JsonView, key: Seq<char>)
    ensures
        #[trigger] key_count(one(name, value), key) == if name == key {
            1nat
        } else {
            0nat
        },
        key_index(one(name, value), key) == if name == key {
            0int
        } else {
            1int
        },
{
    let m = one(name, value);
    assert(m.drop_last() =~= Seq::empty());
    assert(key_count(m.drop_last(), key) == 0);
    assert(key_index(m.drop_last(), key) == 0);
}

/// Counting and finding a key in a member that is written only when its value
/// is present.
pub broadcast proof fn lemma_key_maybe(name: Seq<char>, value: Option<JsonView>, key: Seq<char>)
    ensures
        #[trigger] key_count(maybe(name, value), key) == if value is Some && name == key {
            1nat
        } else {
            0nat
        },
        key_index(maybe(name, value), key) == if value is Some && name != key {
            1int
        } else {
            0int
        },
{
    match value {
        Some(v) => {
            lemma_key_one(name, v, key);
            assert(maybe(name, value) == one(name, v));
        },
        None => {},
    }
}

/// Counting and finding a key in two runs of members written one after the
/// other.
pub broadcast proof fn lemma_key_concat(a: Members, b: Members, key: Seq<char>)
    ensures
        #[trigger] key_count(a + b, key) == key_count(a, key) + key_count(b, key),
        key_index(a + b, key) == if key_index(a, key) < a.len() {
            key_index(a, key)
        } else {
            a.len() + key_index(b, key)
        },
    decreases b.len(),
{
    lemma_key_index(a, key);
    lemma_key_index(b, key);
    if b.len() == 0 {
        assert(a + b =~= a);
    } else {
        lemma_key_concat(a, b.drop_last(), key);
        lemma_key_index(b.drop_last(), key);
        assert((a + b).drop_last() =~= a + b.drop_last());
        assert((a + b).last() == b.last());
    }
}

/// The value under a key, if the key occurs. A key that occurs twice or more
/// is an error.
pub open spec fn present(members: Members, key: Seq<char>) -> Result<
    Option<JsonView>,
    DecodeError,
> {
    if key_count(members, key) > 1 {
        Err(DecodeError::DuplicateField)
    } else if key_count(members, key) == 0 {
        Ok(None)
    } else {
        Ok(Some(members[key_index(members, key)].1))
    }
}

/// The value under a key that must be there.
pub open spec fn required(members: Members, key: Seq<char>) -> Result<JsonView, DecodeError> {
    match present(members, key) {
        Err(e) => Err(e),
        Ok(None) => Err(DecodeError::MissingField),
        Ok(Some(v)) => Ok(v),
    }
}

/// The value under a key that may be left out: an absent key and a `null`
/// both mean that there is none.
pub open spec fn optional(members: Members, key: Seq<char>) -> Result<
    Option<JsonView>,
    DecodeError,
> {
    match present(members, key) {
        Err(e) => Err(e),
        Ok(None) => Ok(None),
        Ok(Some(v)) => if v is Null {
            Ok(None)
        } else {
            Ok(Some(v))
        },
    }
}

/// The text a document holds, if it is a string.
pub open spec fn as_text(j: JsonView) -> Result<Seq<char>, DecodeError> {
    match j {
        JsonView::String(s) => Ok(s),
        _ => Err(DecodeError::InvalidType),
    }
}

/// The truth value a document holds, if it is a boolean.
pub open spec fn as_bool(j: JsonView) -> Result<bool, DecodeError> {
    match j {
        JsonView::Bool(b) => Ok(b),
        _ => Err(DecodeError::InvalidType),
    }
}

/// The number a document holds, if it is a number.
pub open spec fn as_number(j: JsonView) -> Result<Number, DecodeError> {
    match j {
        JsonView::Number(n) => Ok(n),
        _ => Err(DecodeError::InvalidType),
    }
}

/// The signed integer a document holds, if it is an integer in range.
pub open spec fn as_i64(j: JsonView) -> Result<i64, DecodeError> {
    match j {
        JsonView::Number(n) => n.to_i64(),
        _ => Err(DecodeError::InvalidType),
    }
}

/// The unsigned integer a document holds, if it is a non-negative integer.
pub open spec fn as_u64(j: JsonView) -> Result<u64, DecodeError> {
    match j {
        JsonView::Number(n) => n.to_u64(),
        _ => Err(DecodeError::InvalidType),
    }
}

/// The size a document holds, if it is a non-negative integer in range.
pub open spec fn as_usize(j: JsonView) -> Result<usize, DecodeError> {
    match j {
        JsonView::Number(n) => n.to_usize(),
        _ => Err(DecodeError::InvalidType),
    }
}

/// The document that stands for a number: `null` for an infinity or a NaN,
/// which JSON text cannot carry, and the number in its canonical form
/// otherwise.
pub open spec fn number_json(n: Number) -> JsonView {
    match n {
        Number::Float(f) => if f.finite() {
            JsonView::Number(n)
        } else {
            JsonView::Null
        },
        _ => JsonView::Number(n.canonical()),
    }
}

/// The texts a document holds, if it is an array of strings.
pub open spec fn as_texts(j: JsonView) -> Result<Seq<Seq<char>>, DecodeError> {
    match j {
        JsonView::Array(items) => if forall|i: int| 0 <= i < items.len() ==> items[i] is String {
            Ok(Seq::new(items.len(), |i: int| items[i]->String_0))
        } else {
            Err(DecodeError::InvalidType)
        },
        _ => Err(DecodeError::InvalidType),
    }
}

/// The array document that lists some texts in order.
pub open spec fn texts_json(texts: Seq<Seq<char>>) -> JsonView {
    JsonView::Array(Seq::new(texts.len(), |i: int| JsonView::String(texts[i])))
}

/// The text under a key that must be there.
pub open spec fn required_text(members: Members, key: Seq<char>) -> Result<Seq<char>, DecodeError> {
    match required(members, key) {
        Err(e) => Err(e),
        Ok(v) => as_text(v),
    }
}

/// The truth value under a key that must be there.
pub open spec fn required_bool(members: Members, key: Seq<char>) -> Result<bool, DecodeError> {
    match required(members, key) {
        Err(e) => Err(e),
        Ok(v) => as_bool(v),
    }
}

/// The signed integer under a key that must be there.
pub open spec fn required_i64(members: Members, key: Seq<char>) -> Result<i64, DecodeError> {
    match required(members, key) {
        Err(e) => Err(e),
        Ok(v) => as_i64(v),
    }
}

/// The number under a key that must be there.
pub open spec fn required_number(members: Members, key: Seq<char>) -> Result<Number, DecodeError> {
    match required(members, key) {
        Err(e) => Err(e),
        Ok(v) => as_number(v),
    }
}

/// The list of texts under a key that must be there.
pub open spec fn required_texts(members: Members, key: Seq<char>) -> Result<
    Seq<Seq<char>>,
    DecodeError,
> {
    match required(members, key) {
        Err(e) => Err(e),
        Ok(v) => as_texts(v),
    }
}

/// The text under a key that may be left out or be `null`.
pub open spec fn optional_text(members: Members, key: Seq<char>) -> Result<
    Option<Seq<char>>,
    DecodeError,
> {
    match optional(members, key) {
        Err(e) => Err(e),
        Ok(None) => Ok(None),
        Ok(Some(v)) => match as_text(v) {
            Err(e) => Err(e),
            Ok(s) => Ok(Some(s)),
        },
    }
}

/// The signed integer under a key that may be left out or be `null`.
pub open spec fn optional_i64(members: Members, key: Seq<char>) -> Result<
    Option<i64>,
    DecodeError,
> {
    match optional(members, key) {
        Err(e) => Err(e),
        Ok(None) => Ok(None),
        Ok(Some(v)) => match as_i64(v) {
            Err(e) => Err(e),
            Ok(i) => Ok(Some(i)),
        },
    }
}

/// The size under a key that may be left out or be `null`.
pub open spec fn optional_usize(members: Members, key: Seq<char>) -> Result<
    Option<usize>,
    DecodeError,
> {
    match optional(members, key) {
        Err(e) => Err(e),
        Ok(None) => Ok(None),
        Ok(Some(v)) => match as_usize(v) {
            Err(e) => Err(e),
            Ok(n) => Ok(Some(n)),
        },
    }
}

/// The number under a key that may be left out or be `null`.
pub open spec fn optional_number(members: Members, key: Seq<char>) -> Result<
    Option<Number>,
    DecodeError,
> {
    match optional(members, key) {
        Err(e) => Err(e),
        Ok(None) => Ok(None),
        Ok(Some(v)) => match as_number(v) {
            Err(e) => Err(e),
            Ok(n) => Ok(Some(n)),
        },
    }
}

/// Decoding the array that lists some texts gives them back.
pub proof fn lemma_texts_round_trip(texts: Seq<Seq<char>>)
    ensures
        as_texts(texts_json(texts)) == Ok::<_, DecodeError>(texts),
{
    let items = texts_json(texts)->Array_0;
    assert(Seq::new(items.len(), |i: int| items[i]->String_0) =~= texts);
}

/// The view of a decoder's outcome: the decoded value by its view, the error
/// as it is.
pub open spec fn outcome<T: View>(r: Result<T, DecodeError>) -> Result<T::V, DecodeError> {
    match r {
        Ok(v) => Ok(v@),
        Err(e) => Err(e),
    }
}

/// Looks a key up among the members of an object. `Ok(Some(i))` gives the
/// place of its only occurrence, `Ok(None)` says that it does not occur, and a
/// key that occurs twice or more is an error.
pub fn find(members: &Vec<(String, Json)>, key: &str) -> (r: Result<Option<usize>, DecodeError>)
    ensures
        match r {
            Ok(Some(i)) => key_count(members.deep_view(), key@) == 1 && i == key_index(
                members.deep_view(),
                key@,
            ) && i < members.len(),
            Ok(None) => key_count(members.deep_view(), key@) == 0,
            Err(e) => e == DecodeError::DuplicateField && key_count(members.deep_view(), key@) > 1,
        },
{
    let wanted: String = key.to_owned();
    let ghost all = members.deep_view();
    let mut count: usize = 0;
    let mut first: usize = 0;
    let mut i: usize = 0;
    while i < members.len()
        invariant
            i <= members.len(),
            all == members.deep_view(),
            wanted@ == key@,
            count <= i,
            count == key_count(all.take(i as int), key@),
            first == key_index(all.take(i as int), key@),
        decreases members.len() - i,
    {
        proof {
            assert(all.take(i + 1).drop_last() =~= all.take(i as int));
            assert(all.take(i + 1).last() == all[i as int]);
            assert(all[i as int].0 == members[i as int].0@);
            lemma_key_index(all.take(i as int), key@);
        }
        if members[i].0 == wanted {
            if count == 0 {
                first = i;
            }
            count = count + 1;
        } else if count == 0 {
            first = i + 1;
        }
        i = i + 1;
    }
    proof {
        assert(all.take(i as int) =~= all);
        lemma_key_index(all, key@);
    }
    if count > 1 {
        Err(DecodeError::DuplicateField)
    } else if count == 0 {
        Ok(None)
    } else {
        Ok(Some(first))
    }
}

/// The value under a key, if the key occurs.
pub fn get<'a>(members: &'a Vec<(String, Json)>, key: &str) -> (r: Result<
    Option<&'a Json>,
    DecodeError,
>)
    ensures
        match r {
            Ok(Some(v)) => present(members.deep_view(), key@) == Ok::<_, DecodeError>(Some(v@)),
            Ok(None) => present(members.deep_view(), key@) == Ok::<Option<JsonView>, DecodeError>(
                None,
            ),
            Err(e) => present(members.deep_view(), key@) == Err::<Option<JsonView>, _>(e),
        },
{
    match find(members, key) {
        Err(e) => Err(e),
        Ok(None) => Ok(None),
        Ok(Some(i)) => Ok(Some(&members[i].1)),
    }
}

/// The value under a key that must be there.
pub fn get_required<'a>(members: &'a Vec<(String, Json)>, key: &str) -> (r: Result<
    &'a Json,
    DecodeError,
>)
    ensures
        outcome(r) == required(members.deep_view(), key@),
{
    match get(members, key) {
        Err(e) => Err(e),
        Ok(None) => Err(DecodeError::MissingField),
        Ok(Some(v)) => Ok(v),
    }
}

/// The value under a key that may be left out or be `null`.
pub fn get_optional<'a>(members: &'a Vec<(String, Json)>, key: &str) -> (r: Result<
    Option<&'a Json>,
    DecodeError,
>)
    ensures
        match r {
            Ok(Some(v)) => optional(members.deep_view(), key@) == Ok::<_, DecodeError>(Some(v@)),
            Ok(None) => optional(members.deep_view(), key@) == Ok::<
                Option<JsonView>,
                DecodeError,
            >(None),
            Err(e) => optional(members.deep_view(), key@) == Err::<Option<JsonView>, _>(e),
        },
{
    match get(members, key) {
        Err(e) => Err(e),
        Ok(None) => Ok(None),
        Ok(Some(v)) => if v.is_null() {
            Ok(None)
        } else {
            Ok(Some(v))
        },
    }
}

/// A copy of the text under a key that must be there.
pub fn get_text(members: &Vec<(String, Json)>, key: &str) -> (r: Result<String, DecodeError>)
    ensures
        outcome(r) == required_text(members.deep_view(), key@),
{
    match get_required(members, key) {
        Err(e) => Err(e),
        Ok(v) => v.to_text(),
    }
}

/// The truth value under a key that must be there.
pub fn get_bool(members: &Vec<(String, Json)>, key: &str) -> (r: Result<bool, DecodeError>)
    ensures
        r == required_bool(members.deep_view(), key@),
{
    match get_required(members, key) {
        Err(e) => Err(e),
        Ok(v) => v.to_bool(),
    }
}

/// The signed integer under a key that must be there.
pub fn get_i64(members: &Vec<(String, Json)>, key: &str) -> (r: Result<i64, DecodeError>)
    ensures
        r == required_i64(members.deep_view(), key@),
{
    match get_required(members, key) {
        Err(e) => Err(e),
        Ok(v) => v.to_i64(),
    }
}

/// The number under a key that must be there.
pub fn get_number(members: &Vec<(String, Json)>, key: &str) -> (r: Result<Number, DecodeError>)
    ensures
        r == required_number(members.deep_view(), key@),
{
    match get_required(members, key) {
        Err(e) => Err(e),
        Ok(v) => v.to_number(),
    }
}

/// Copies of the texts listed under a key that must be there.
pub fn get_texts(members: &Vec<(String, Json)>, key: &str) -> (r: Result<Vec<String>, DecodeError>)
    ensures
        match r {
            Ok(v) => required_texts(members.deep_view(), key@) == Ok::<_, DecodeError>(
                v.deep_view(),
            ),
            Err(e) => required_texts(members.deep_view(), key@) == Err::<Seq<Seq<char>>, _>(e),
        },
{
    match get_required(members, key) {
        Err(e) => Err(e),
        Ok(v) => v.to_texts(),
    }
}

/// A copy of the text under a key that may be left out or be `null`.
pub fn get_optional_text(members: &Vec<(String, Json)>, key: &str) -> (r: Result<
    Option<String>,
    DecodeError,
>)
    ensures
        match r {
            Ok(v) => optional_text(members.deep_view(), key@) == Ok::<_, DecodeError>(
                v.deep_view(),
            ),
            Err(e) => optional_text(members.deep_view(), key@) == Err::<Option<Seq<char>>, _>(e),
        },
{
    match get_optional(members, key) {
        Err(e) => Err(e),
        Ok(None) => Ok(None),
        Ok(Some(v)) => match v.to_text() {
            Err(e) => Err(e),
            Ok(s) => Ok(Some(s)),
        },
    }
}

/// The signed integer under a key that may be left out or be `null`.
pub fn get_optional_i64(members: &Vec<(String, Json)>, key: &str) -> (r: Result<
    Option<i64>,
    DecodeError,
>)
    ensures
        r == optional_i64(members.deep_view(), key@),
{
    match get_optional(members, key) {
        Err(e) => Err(e),
        Ok(None) => Ok(None),
        Ok(Some(v)) => match v.to_i64() {
            Err(e) => Err(e),
            Ok(i) => Ok(Some(i)),
        },
    }
}

/// The size under a key that may be left out or be `null`.
pub fn get_optional_usize(members: &Vec<(String, Json)>, key: &str) -> (r: Result<
    Option<usize>,
    DecodeError,
>)
    ensures
        r == optional_usize(members.deep_view(), key@),
{
    match get_optional(members, key) {
        Err(e) => Err(e),
        Ok(None) => Ok(None),
        Ok(Some(v)) => match v.to_usize() {
            Err(e) => Err(e),
            Ok(n) => Ok(Some(n)),
        },
    }
}

/// The number under a key that may be left out or be `null`.
pub fn get_optional_number(members: &Vec<(String, Json)>, key: &str) -> (r: Result<
    Option<Number>,
    DecodeError,
>)
    ensures
        r == optional_number(members.deep_view(), key@),
{
    match get_optional(members, key) {
        Err(e) => Err(e),
        Ok(None) => Ok(None),
        Ok(Some(v)) => match v.to_number() {
            Err(e) => Err(e),
            Ok(n) => Ok(Some(n)),
        },
    }
}

/// Whether a text is the given one.
pub fn text_is(s: &String, other: &str) -> (r: bool)
    ensures
        r == (s@ == other@),
{
    let o: String = other.to_owned();
    *s == o
}

impl Json {
    /// A string document.
    pub fn text(s: &str) -> (r: Json)
        ensures
            r@ == JsonView::String(s@),
    {
        Json::String(s.to_owned())
    }

    /// The document for a signed integer.
    pub fn integer(i: i64) -> (r: Json)
        ensures
            r@ == JsonView::Number(Number::of_i64(i)),
    {
        Json::Number(Number::from_i64(i))
    }

    /// The document for a size.
    pub fn size(n: usize) -> (r: Json)
        ensures
            r@ == JsonView::Number(Number::PosInt(n as u64)),
    {
        Json::Number(Number::from_usize(n))
    }

    /// The document for a number: `null` stands for an infinity or a NaN,
    /// which JSON text cannot carry.
    pub fn number(n: Number) -> (r: Json)
        ensures
            r@ == number_json(n),
    {
        match n {
            Number::Float(f) => if f.is_finite() {
                Json::Number(n)
            } else {
                Json::Null
            },
            _ => Json::Number(n.to_canonical()),
        }
    }

    /// Whether the document is `null`.
    pub fn is_null(&self) -> (r: bool)
        ensures
            r == (self@ is Null),
    {
        match self {
            Json::Null => true,
            _ => false,
        }
    }

    /// A copy of the text a string document holds.
    pub fn to_text(&self) -> (r: Result<String, DecodeError>)
        ensures
            outcome(r) == as_text(self@),
    {
        match self {
            Json::String(s) => Ok(s.clone()),
            _ => Err(DecodeError::InvalidType),
        }
    }

    /// The truth value a boolean document holds.
    pub fn to_bool(&self) -> (r: Result<bool, DecodeError>)
        ensures
            r == as_bool(self@),
    {
        match self {
            Json::Bool(b) => Ok(*b),
            _ => Err(DecodeError::InvalidType),
        }
    }

    /// The number a number document holds.
    pub fn to_number(&self) -> (r: Result<Number, DecodeError>)
        ensures
            r == as_number(self@),
    {
        match self {
            Json::Number(n) => Ok(*n),
            _ => Err(DecodeError::InvalidType),
        }
    }

    /// The signed integer a number document holds.
    pub fn to_i64(&self) -> (r: Result<i64, DecodeError>)
        ensures
            r == as_i64(self@),
    {
        match self {
            Json::Number(n) => n.as_i64(),
            _ => Err(DecodeError::InvalidType),
        }
    }

    /// The unsigned integer a number document holds.
    pub fn to_u64(&self) -> (r: Result<u64, DecodeError>)
        ensures
            r == as_u64(self@),
    {
        match self {
            Json::Number(n) => n.as_u64(),
            _ => Err(DecodeError::InvalidType),
        }
    }

    /// The size a number document holds.
    pub fn to_usize(&self) -> (r: Result<usize, DecodeError>)
        ensures
            r == as_usize(self@),
    {
        match self {
            Json::Number(n) => n.as_usize(),
            _ => Err(DecodeError::InvalidType),
        }
    }

    /// Copies of the texts an array of strings holds.
    pub fn to_texts(&self) -> (r: Result<Vec<String>, DecodeError>)
        ensures
            match r {
                Ok(v) => as_texts(self@) == Ok::<_, DecodeError>(v.deep_view()),
                Err(e) => as_texts(self@) == Err::<Seq<Seq<char>>, _>(e),
            },
    {
        match self {
            Json::Array(items) => {
                proof {
                    lemma_array_view(*items);
                }
                let mut out: Vec<String> = Vec::new();
                let mut i: usize = 0;
                while i < items.len()
                    invariant
                        i <= items.len(),
                        out.len() == i,
                        forall|k: int| 0 <= k < i ==> items[k]@ == JsonView::String(out[k]@),
                        self@ == JsonView::Array(items.deep_view()),
                    decreases items.len() - i,
                {
                    match &items[i] {
                        Json::String(s) => {
                            out.push(s.clone());
                        },
                        _ => {
                            proof {
                                let views = self@->Array_0;
                                assert(views[i as int] == items[i as int]@);
                                assert(!(views[i as int] is String));
                            }
                            return Err(DecodeError::InvalidType);
                        },
                    }
                    i = i + 1;
                }
                proof {
                    let views = items.deep_view();
                    assert forall|k: int| 0 <= k < views.len() implies views[k] is String by {
                        assert(items[k]@ == JsonView::String(out[k]@));
                    }
                    assert(Seq::new(views.len(), |k: int| views[k]->String_0) =~= out.deep_view());
                }
                Ok(out)
            },
            _ => Err(DecodeError::InvalidType),
        }
    }

    /// The array document that lists some texts in order.
    pub fn texts(texts: &Vec<String>) -> (r: Json)
        ensures
            r@ == texts_json(texts.deep_view()),
    {
        let mut out: Vec<Json> = Vec::new();
        let mut i: usize = 0;
        while i < texts.len()
            invariant
                i <= texts.len(),
                out.len() == i,
                forall|k: int| 0 <= k < i ==> out[k]@ == JsonView::String(texts[k]@),
            decreases texts.len() - i,
        {
            out.push(Json::String(texts[i].clone()));
            i = i + 1;
        }
        proof {
            lemma_array_view(out);
            assert(out.deep_view() =~= texts_json(texts.deep_view())->Array_0);
        }
        Json::Array(out)
    }
}

} // verus!
