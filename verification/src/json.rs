//! A structural JSON value, as the decoders see it.
//!
//! The tree keeps object members in payload order, duplicates included, so
//! the decoders can enforce the duplicate-field rule. Numbers carry only what
//! the schema ever reads: a non-negative integer value, or the bare fact that
//! the number was not one.
//!
//! Specification functions pattern-match the tree directly; only the leaf
//! strings are abstracted to their `Seq<char>` views.

use vstd::prelude::*;

verus! {

/// A parsed JSON value.
#[derive(PartialEq, Debug)]
pub enum Json {
    Null,
    Bool(bool),
    /// A number that is a non-negative integer.
    UInt(u64),
    /// A number that is not a non-negative integer (negative or fractional);
    /// no field of the schema can hold it, so its value is not kept.
    NonUInt,
    Str(String),
    Arr(Vec<Json>),
    /// Members in payload order, duplicate keys included.
    Obj(Vec<(String, Json)>),
}

/// How decoding a definition payload fails.
#[derive(Clone, PartialEq, Debug)]
pub enum DecodeError {
    /// The payload text was not well-formed JSON; carries the reporter's text.
    Syntax(String),
    /// An object was expected.
    NotObject,
    /// An array was expected.
    NotArray,
    /// A string was expected.
    NotString,
    /// A non-negative integer number was expected.
    NotUnsigned,
    /// The integer does not fit the field's width.
    OutOfRange,
    /// A required key is absent.
    MissingField(String),
    /// A recognized key occurs twice.
    DuplicateField(String),
    /// The `type` value is not a known shape identifier.
    UnknownShape(String),
    /// The `provider` value is not a known provider identifier.
    UnknownProvider(String),
    /// The `releaseDate` value is not a calendar date.
    InvalidDate(String),
}

/// Ghost model of a `DecodeError`.
pub enum DecodeErrorV {
    Syntax(Seq<char>),
    NotObject,
    NotArray,
    NotString,
    NotUnsigned,
    OutOfRange,
    MissingField(Seq<char>),
    DuplicateField(Seq<char>),
    UnknownShape(Seq<char>),
    UnknownProvider(Seq<char>),
    InvalidDate(Seq<char>),
}

impl View for DecodeError {
    type V = DecodeErrorV;

    open spec fn view(&self) -> DecodeErrorV {
        match self {
            DecodeError::Syntax(s) => DecodeErrorV::Syntax(s@),
            DecodeError::NotObject => DecodeErrorV::NotObject,
            DecodeError::NotArray => DecodeErrorV::NotArray,
            DecodeError::NotString => DecodeErrorV::NotString,
            DecodeError::NotUnsigned => DecodeErrorV::NotUnsigned,
            DecodeError::OutOfRange => DecodeErrorV::OutOfRange,
            DecodeError::MissingField(s) => DecodeErrorV::MissingField(s@),
            DecodeError::DuplicateField(s) => DecodeErrorV::DuplicateField(s@),
            DecodeError::UnknownShape(s) => DecodeErrorV::UnknownShape(s@),
            DecodeError::UnknownProvider(s) => DecodeErrorV::UnknownProvider(s@),
            DecodeError::InvalidDate(s) => DecodeErrorV::InvalidDate(s@),
        }
    }
}

// ---------------------------------------------------------------------------
// Key lookup in an object's member list
// ---------------------------------------------------------------------------

/// How many members of `m` have key `k`.
pub open spec fn key_count(m: Seq<(String, Json)>, k: Seq<char>) -> nat
    decreases m.len(),
{
    if m.len() == 0 {
        0
    } else {
        (if m[0].0@ == k {
            1nat
        } else {
            0nat
        }) + key_count(m.drop_first(), k)
    }
}

/// The value of the first member of `m` with key `k`.
pub open spec fn first_val(m: Seq<(String, Json)>, k: Seq<char>) -> Json
    decreases m.len(),
{
    if m.len() == 0 {
        Json::Null
    } else if m[0].0@ == k {
        m[0].1
    } else {
        first_val(m.drop_first(), k)
    }
}

pub proof fn lemma_key_count_push(m: Seq<(String, Json)>, k: Seq<char>, e: (String, Json))
    ensures
        key_count(m.push(e), k) == key_count(m, k) + (if e.0@ == k {
            1nat
        } else {
            0nat
        }),
        key_count(m, k) >= 1 ==> first_val(m.push(e), k) == first_val(m, k),
        key_count(m, k) == 0 && e.0@ == k ==> first_val(m.push(e), k) == e.1,
    decreases m.len(),
{
    if m.len() == 0 {
        reveal_with_fuel(key_count, 2);
        reveal_with_fuel(first_val, 2);
        assert(m.push(e)[0] == e);
        assert(m.push(e).drop_first() =~= Seq::<(String, Json)>::empty());
    } else {
        lemma_key_count_push(m.drop_first(), k, e);
        assert(m.push(e)[0] == m[0]);
        assert(m.push(e).drop_first() =~= m.drop_first().push(e));
    }
}

/// A required field: at most one occurrence is allowed, and one must exist.
pub open spec fn req_field(m: Seq<(String, Json)>, k: Seq<char>) -> Result<Json, DecodeErrorV> {
    if key_count(m, k) >= 2 {
        Err(DecodeErrorV::DuplicateField(k))
    } else if key_count(m, k) == 0 {
        Err(DecodeErrorV::MissingField(k))
    } else {
        Ok(first_val(m, k))
    }
}

/// An optional field: at most one occurrence is allowed.
pub open spec fn opt_field(m: Seq<(String, Json)>, k: Seq<char>) -> Result<
    Option<Json>,
    DecodeErrorV,
> {
    if key_count(m, k) >= 2 {
        Err(DecodeErrorV::DuplicateField(k))
    } else if key_count(m, k) == 0 {
        Ok(None)
    } else {
        Ok(Some(first_val(m, k)))
    }
}

/// Find the sole member with the given key: `Err(())` on a duplicate,
/// `Ok(None)` when absent.
pub fn find_field<'a>(pairs: &'a Vec<(String, Json)>, key: &str) -> (r: Result<
    Option<&'a Json>,
    (),
>)
    ensures
        r is Err <==> key_count(pairs@, key@) >= 2,
        r matches Ok(o) ==> (o is None <==> key_count(pairs@, key@) == 0),
        r matches Ok(o) ==> (o matches Some(v) ==> *v == first_val(pairs@, key@)),
{
    let ghost m = pairs@;
    let mut found: Option<&'a Json> = None;
    let mut i: usize = 0;
    proof {
        assert(m.take(0) =~= Seq::<(String, Json)>::empty());
    }
    while i < pairs.len()
        invariant
            i <= pairs.len(),
            m == pairs@,
            key_count(m.take(i as int), key@) <= 1,
            found is Some <==> key_count(m.take(i as int), key@) == 1,
            found matches Some(v) ==> *v == first_val(m.take(i as int), key@),
        decreases pairs.len() - i,
    {
        proof {
            assert(m.take(i + 1) =~= m.take(i as int).push(m[i as int]));
            lemma_key_count_push(m.take(i as int), key@, m[i as int]);
        }
        if crate::text::str_eq(pairs[i].0.as_str(), key) {
            if found.is_some() {
                proof {
                    lemma_key_count_take_full(m, key@, i + 1);
                }
                return Err(());
            }
            found = Some(&pairs[i].1);
        }
        i = i + 1;
    }
    proof {
        assert(m.take(pairs@.len() as int) =~= m);
    }
    Ok(found)
}

/// A prefix's key count never exceeds the whole list's.
proof fn lemma_key_count_take_full(m: Seq<(String, Json)>, k: Seq<char>, i: int)
    requires
        0 <= i <= m.len(),
    ensures
        key_count(m, k) >= key_count(m.take(i), k),
    decreases m.len() - i,
{
    if i < m.len() {
        lemma_key_count_take_full(m, k, i + 1);
        assert(m.take(i + 1) =~= m.take(i).push(m[i]));
        lemma_key_count_push(m.take(i), k, m[i]);
    } else {
        assert(m.take(i) =~= m);
    }
}

// ---------------------------------------------------------------------------
// Primitive decoders
// ---------------------------------------------------------------------------

pub open spec fn spec_decode_string(j: Json) -> Result<Seq<char>, DecodeErrorV> {
    match j {
        Json::Str(s) => Ok(s@),
        _ => Err(DecodeErrorV::NotString),
    }
}

/// An optional string: JSON `null` decodes to `None`.
pub open spec fn spec_decode_opt_string(j: Json) -> Result<Option<Seq<char>>, DecodeErrorV> {
    match j {
        Json::Null => Ok(None),
        Json::Str(s) => Ok(Some(s@)),
        _ => Err(DecodeErrorV::NotString),
    }
}

pub open spec fn spec_decode_u32(j: Json) -> Result<u32, DecodeErrorV> {
    match j {
        Json::UInt(n) => if n <= u32::MAX as u64 {
            Ok(n as u32)
        } else {
            Err(DecodeErrorV::OutOfRange)
        },
        _ => Err(DecodeErrorV::NotUnsigned),
    }
}

pub open spec fn spec_decode_u8(j: Json) -> Result<u8, DecodeErrorV> {
    match j {
        Json::UInt(n) => if n <= u8::MAX as u64 {
            Ok(n as u8)
        } else {
            Err(DecodeErrorV::OutOfRange)
        },
        _ => Err(DecodeErrorV::NotUnsigned),
    }
}

/// An array of strings, e.g. a tool list.
pub open spec fn spec_decode_strings(j: Json) -> Result<Seq<Seq<char>>, DecodeErrorV> {
    match j {
        Json::Arr(items) => if forall|i: int|
            0 <= i < items@.len() ==> #[trigger] items@[i] is Str {
            Ok(Seq::new(items@.len(), |i: int| items@[i]->Str_0@))
        } else {
            Err(DecodeErrorV::NotString)
        },
        _ => Err(DecodeErrorV::NotArray),
    }
}

pub fn decode_string(j: &Json) -> (r: Result<String, DecodeError>)
    ensures
        match r {
            Ok(s) => spec_decode_string(*j) == Ok::<Seq<char>, DecodeErrorV>(s@),
            Err(e) => spec_decode_string(*j) == Err::<Seq<char>, DecodeErrorV>(e@),
        },
{
    match j {
        Json::Str(s) => Ok(s.clone()),
        _ => Err(DecodeError::NotString),
    }
}

pub fn decode_opt_string(j: &Json) -> (r: Result<Option<String>, DecodeError>)
    ensures
        match r {
            Ok(Some(s)) => spec_decode_opt_string(*j) == Ok::<Option<Seq<char>>, DecodeErrorV>(
                Some(s@),
            ),
            Ok(None) => spec_decode_opt_string(*j) == Ok::<Option<Seq<char>>, DecodeErrorV>(None),
            Err(e) => spec_decode_opt_string(*j) == Err::<Option<Seq<char>>, DecodeErrorV>(e@),
        },
{
    match j {
        Json::Null => Ok(None),
        Json::Str(s) => Ok(Some(s.clone())),
        _ => Err(DecodeError::NotString),
    }
}

pub fn decode_u32(j: &Json) -> (r: Result<u32, DecodeError>)
    ensures
        match r {
            Ok(n) => spec_decode_u32(*j) == Ok::<u32, DecodeErrorV>(n),
            Err(e) => spec_decode_u32(*j) == Err::<u32, DecodeErrorV>(e@),
        },
{
    match j {
        Json::UInt(n) => if *n <= u32::MAX as u64 {
            Ok(*n as u32)
        } else {
            Err(DecodeError::OutOfRange)
        },
        _ => Err(DecodeError::NotUnsigned),
    }
}

pub fn decode_u8(j: &Json) -> (r: Result<u8, DecodeError>)
    ensures
        match r {
            Ok(n) => spec_decode_u8(*j) == Ok::<u8, DecodeErrorV>(n),
            Err(e) => spec_decode_u8(*j) == Err::<u8, DecodeErrorV>(e@),
        },
{
    match j {
        Json::UInt(n) => if *n <= u8::MAX as u64 {
            Ok(*n as u8)
        } else {
            Err(DecodeError::OutOfRange)
        },
        _ => Err(DecodeError::NotUnsigned),
    }
}

pub fn decode_strings(j: &Json) -> (r: Result<Vec<String>, DecodeError>)
    ensures
        match r {
            Ok(v) => spec_decode_strings(*j) == Ok::<Seq<Seq<char>>, DecodeErrorV>(v.deep_view()),
            Err(e) => spec_decode_strings(*j) == Err::<Seq<Seq<char>>, DecodeErrorV>(e@),
        },
{
    match j {
        Json::Arr(items) => {
            let mut out: Vec<String> = Vec::new();
            let mut i: usize = 0;
            while i < items.len()
                invariant
                    *j == Json::Arr(*items),
                    i <= items.len(),
                    forall|k: int| 0 <= k < i ==> #[trigger] items@[k] is Str,
                    out.deep_view().len() == i,
                    forall|k: int|
                        0 <= k < i ==> #[trigger] out.deep_view()[k] == items@[k]->Str_0@,
                decreases items.len() - i,
            {
                match &items[i] {
                    Json::Str(s) => {
                        let ghost old_out = out.deep_view();
                        out.push(s.clone());
                        proof {
                            assert(out.deep_view() =~= old_out.push(s@));
                        }
                    },
                    _ => {
                        return Err(DecodeError::NotString);
                    },
                }
                i = i + 1;
            }
            proof {
                assert(out.deep_view() =~= Seq::new(items@.len(), |i: int| items@[i]->Str_0@));
            }
            Ok(out)
        },
        _ => Err(DecodeError::NotArray),
    }
}

} // verus!
