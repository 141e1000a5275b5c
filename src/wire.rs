//! The wire value model: a tagged union of what the bus carries, and the
//! errors of decoding one into a typed value.

use vstd::prelude::*;
use crate::path::ObjectPath;

verus! {

/// A value as carried by the bus. A structure is an ordered list of fields
/// with no names; an array is a list of values of one kind.
#[derive(Debug, PartialEq)]
pub enum WireValue {
    Bool(bool),
    I32(i32),
    U32(u32),
    U64(u64),
    Str(String),
    Path(ObjectPath),
    Struct(Vec<WireValue>),
    Array(Vec<WireValue>),
}

/// Why a wire value could not be decoded.
#[derive(Debug, Clone, Copy, PartialEq, Eq, Structural)]
pub enum DecodeError {
    /// The value is not of the kind the target type is carried as.
    TypeMismatch,
    /// A structure has another number of fields than the target record.
    ArityMismatch { expected: usize, found: usize },
    /// The field at this position does not decode into its target type.
    FieldTypeMismatch { index: usize },
}

/// The text of a string value.
pub open spec fn str_of(v: WireValue) -> Option<Seq<char>> {
    match v {
        WireValue::Str(s) => Some(s@),
        _ => None,
    }
}

pub fn expect_str(v: &WireValue) -> (r: Result<&String, DecodeError>)
    ensures
        match r {
            Ok(s) => str_of(*v) == Some(s@),
            Err(e) => str_of(*v) is None && e == DecodeError::TypeMismatch,
        },
{
    match v {
        WireValue::Str(s) => Ok(s),
        _ => Err(DecodeError::TypeMismatch),
    }
}

pub fn expect_u32(v: &WireValue) -> (r: Result<u32, DecodeError>)
    ensures
        match r {
            Ok(n) => *v == WireValue::U32(n),
            Err(e) => !(v is U32) && e == DecodeError::TypeMismatch,
        },
{
    match v {
        WireValue::U32(n) => Ok(*n),
        _ => Err(DecodeError::TypeMismatch),
    }
}

pub fn expect_u64(v: &WireValue) -> (r: Result<u64, DecodeError>)
    ensures
        match r {
            Ok(n) => *v == WireValue::U64(n),
            Err(e) => !(v is U64) && e == DecodeError::TypeMismatch,
        },
{
    match v {
        WireValue::U64(n) => Ok(*n),
        _ => Err(DecodeError::TypeMismatch),
    }
}

pub fn expect_bool(v: &WireValue) -> (r: Result<bool, DecodeError>)
    ensures
        match r {
            Ok(b) => *v == WireValue::Bool(b),
            Err(e) => !(v is Bool) && e == DecodeError::TypeMismatch,
        },
{
    match v {
        WireValue::Bool(b) => Ok(*b),
        _ => Err(DecodeError::TypeMismatch),
    }
}

pub fn expect_path(v: &WireValue) -> (r: Result<&ObjectPath, DecodeError>)
    ensures
        match r {
            Ok(p) => *v == WireValue::Path(*p),
            Err(e) => !(v is Path) && e == DecodeError::TypeMismatch,
        },
{
    match v {
        WireValue::Path(p) => Ok(p),
        _ => Err(DecodeError::TypeMismatch),
    }
}

/// The fields of a structure of exactly `arity` fields.
pub fn expect_fields(v: &WireValue, arity: usize) -> (r: Result<&Vec<WireValue>, DecodeError>)
    ensures
        match r {
            Ok(fs) => *v == WireValue::Struct(*fs) && fs@.len() == arity,
            Err(e) => match *v {
                WireValue::Struct(fs) => fs@.len() != arity && e == (DecodeError::ArityMismatch {
                    expected: arity,
                    found: fs@.len() as usize,
                }),
                _ => e == DecodeError::TypeMismatch,
            },
        },
{
    match v {
        WireValue::Struct(fs) => {
            if fs.len() == arity {
                Ok(fs)
            } else {
                Err(DecodeError::ArityMismatch { expected: arity, found: fs.len() })
            }
        },
        _ => Err(DecodeError::TypeMismatch),
    }
}

/// The items of an array value.
pub fn expect_items(v: &WireValue) -> (r: Result<&Vec<WireValue>, DecodeError>)
    ensures
        match r {
            Ok(items) => *v == WireValue::Array(*items),
            Err(e) => !(v is Array) && e == DecodeError::TypeMismatch,
        },
{
    match v {
        WireValue::Array(items) => Ok(items),
        _ => Err(DecodeError::TypeMismatch),
    }
}

/// The number held by a `u32` value.
pub open spec fn u32_of(v: WireValue) -> Option<u32> {
    match v {
        WireValue::U32(n) => Some(n),
        _ => None,
    }
}

/// The number held by a `u64` value.
pub open spec fn u64_of(v: WireValue) -> Option<u64> {
    match v {
        WireValue::U64(n) => Some(n),
        _ => None,
    }
}

/// The text of an object path value.
pub open spec fn path_of(v: WireValue) -> Option<Seq<char>> {
    match v {
        WireValue::Path(p) => Some(p@),
        _ => None,
    }
}

/// The error for a field at `index` that does not decode.
pub open spec fn field_error(index: int) -> DecodeError {
    DecodeError::FieldTypeMismatch { index: index as usize }
}

/// The error for a structure of `found` fields where `expected` were due.
pub open spec fn arity_error(expected: int, found: int) -> DecodeError {
    DecodeError::ArityMismatch { expected: expected as usize, found: found as usize }
}

/// The string field at `i`.
pub fn str_field(fs: &Vec<WireValue>, i: usize) -> (r: Result<String, DecodeError>)
    requires
        i < fs@.len(),
    ensures
        match r {
            Ok(s) => str_of(fs@[i as int]) == Some(s@),
            Err(e) => str_of(fs@[i as int]) is None && e == field_error(i as int),
        },
{
    match &fs[i] {
        WireValue::Str(s) => Ok(s.clone()),
        _ => Err(DecodeError::FieldTypeMismatch { index: i }),
    }
}

/// The `u32` field at `i`.
pub fn u32_field(fs: &Vec<WireValue>, i: usize) -> (r: Result<u32, DecodeError>)
    requires
        i < fs@.len(),
    ensures
        match r {
            Ok(n) => u32_of(fs@[i as int]) == Some(n),
            Err(e) => u32_of(fs@[i as int]) is None && e == field_error(i as int),
        },
{
    match &fs[i] {
        WireValue::U32(n) => Ok(*n),
        _ => Err(DecodeError::FieldTypeMismatch { index: i }),
    }
}

/// The `u64` field at `i`.
pub fn u64_field(fs: &Vec<WireValue>, i: usize) -> (r: Result<u64, DecodeError>)
    requires
        i < fs@.len(),
    ensures
        match r {
            Ok(n) => u64_of(fs@[i as int]) == Some(n),
            Err(e) => u64_of(fs@[i as int]) is None && e == field_error(i as int),
        },
{
    match &fs[i] {
        WireValue::U64(n) => Ok(*n),
        _ => Err(DecodeError::FieldTypeMismatch { index: i }),
    }
}

/// The object path field at `i`.
pub fn path_field(fs: &Vec<WireValue>, i: usize) -> (r: Result<ObjectPath, DecodeError>)
    requires
        i < fs@.len(),
    ensures
        match r {
            Ok(p) => path_of(fs@[i as int]) == Some(p@),
            Err(e) => path_of(fs@[i as int]) is None && e == field_error(i as int),
        },
{
    match &fs[i] {
        WireValue::Path(p) => Ok(p.clone()),
        _ => Err(DecodeError::FieldTypeMismatch { index: i }),
    }
}

/// What decoding a labeled path structure `(label, path)` gives.
pub open spec fn spec_decode_labeled(w: WireValue) -> Result<(Seq<char>, Seq<char>), DecodeError> {
    match w {
        WireValue::Struct(fs) => if fs@.len() != 2 {
            Err(arity_error(2, fs@.len() as int))
        } else if str_of(fs@[0]) is None {
            Err(field_error(0))
        } else if path_of(fs@[1]) is None {
            Err(field_error(1))
        } else {
            Ok((str_of(fs@[0])->Some_0, path_of(fs@[1])->Some_0))
        },
        _ => Err(DecodeError::TypeMismatch),
    }
}

/// Decodes a labeled path structure `(label, path)`.
pub fn decode_labeled(w: &WireValue) -> (r: Result<(String, ObjectPath), DecodeError>)
    ensures
        match r {
            Ok((id, p)) => spec_decode_labeled(*w) == Ok::<(Seq<char>, Seq<char>), DecodeError>(
                (id@, p@),
            ),
            Err(e) => spec_decode_labeled(*w) == Err::<(Seq<char>, Seq<char>), DecodeError>(e),
        },
{
    let fs = match expect_fields(w, 2) {
        Ok(fs) => fs,
        Err(e) => return Err(e),
    };
    let id = match str_field(fs, 0) {
        Ok(s) => s,
        Err(e) => return Err(e),
    };
    let p = match path_field(fs, 1) {
        Ok(p) => p,
        Err(e) => return Err(e),
    };
    Ok((id, p))
}

/// Encodes a labeled path as the structure `(label, path)`.
pub fn encode_labeled(id: &String, p: &ObjectPath) -> (w: WireValue)
    ensures
        spec_decode_labeled(w) == Ok::<(Seq<char>, Seq<char>), DecodeError>((id@, p@)),
{
    let mut fs: Vec<WireValue> = Vec::new();
    fs.push(WireValue::Str(id.clone()));
    fs.push(WireValue::Path(p.clone()));
    WireValue::Struct(fs)
}

/// A record carried on the wire as a structure of positional fields.
pub trait WireRecord: Sized + View {
    /// What decoding a wire value gives, as the record's view.
    spec fn spec_decode(w: WireValue) -> Result<Self::V, DecodeError>;

    fn decode(w: &WireValue) -> (r: Result<Self, DecodeError>)
        ensures
            match r {
                Ok(x) => Self::spec_decode(*w) == Ok::<Self::V, DecodeError>(x@),
                Err(e) => Self::spec_decode(*w) == Err::<Self::V, DecodeError>(e),
            },
    ;
}

/// What decoding the items of an array gives: the items' records in order,
/// or the error of the first item that does not decode.
pub open spec fn spec_decode_items<T: WireRecord>(items: Seq<WireValue>) -> Result<
    Seq<T::V>,
    DecodeError,
>
    decreases items.len(),
{
    if items.len() == 0 {
        Ok(Seq::empty())
    } else {
        match spec_decode_items::<T>(items.drop_last()) {
            Ok(xs) => match T::spec_decode(items.last()) {
                Ok(x) => Ok(xs.push(x)),
                Err(e) => Err(e),
            },
            Err(e) => Err(e),
        }
    }
}

/// What decoding an array value gives.
pub open spec fn spec_decode_array<T: WireRecord>(w: WireValue) -> Result<Seq<T::V>, DecodeError> {
    match w {
        WireValue::Array(items) => spec_decode_items::<T>(items@),
        _ => Err(DecodeError::TypeMismatch),
    }
}

/// The views of a list of records.
pub open spec fn views<T: View>(xs: Seq<T>) -> Seq<T::V> {
    xs.map_values(|x: T| x@)
}

/// Decodes an array of records, as a listing call returns it.
pub fn decode_array<T: WireRecord>(w: &WireValue) -> (r: Result<Vec<T>, DecodeError>)
    ensures
        match r {
            Ok(xs) => spec_decode_array::<T>(*w) == Ok::<Seq<T::V>, DecodeError>(views(xs@)),
            Err(e) => spec_decode_array::<T>(*w) == Err::<Seq<T::V>, DecodeError>(e),
        },
{
    let items = match expect_items(w) {
        Ok(items) => items,
        Err(e) => return Err(e),
    };
    let mut out: Vec<T> = Vec::new();
    let mut i: usize = 0;
    assert(items@.subrange(0, 0) =~= Seq::<WireValue>::empty());
    assert(views(out@) =~= Seq::<T::V>::empty());
    while i < items.len()
        invariant
            *w == WireValue::Array(*items),
            i <= items@.len(),
            spec_decode_items::<T>(items@.subrange(0, i as int)) == Ok::<Seq<T::V>, DecodeError>(
                views(out@),
            ),
        decreases items@.len() - i,
    {
        let ghost prefix = items@.subrange(0, i as int + 1);
        assert(prefix.drop_last() =~= items@.subrange(0, i as int));
        match T::decode(&items[i]) {
            Ok(x) => {
                let ghost before = out@;
                out.push(x);
                assert(views(out@) =~= views(before).push(x@));
            },
            Err(e) => {
                assert(spec_decode_items::<T>(prefix) == Err::<Seq<T::V>, DecodeError>(e));
                proof { lemma_items_error_stays::<T>(items@, i as int + 1, e); }
                return Err(e);
            },
        }
        i += 1;
    }
    assert(items@.subrange(0, i as int) =~= items@);
    Ok(out)
}

/// Once a prefix of the items fails, every longer prefix fails alike.
proof fn lemma_items_error_stays<T: WireRecord>(items: Seq<WireValue>, k: int, e: DecodeError)
    requires
        0 <= k <= items.len(),
        spec_decode_items::<T>(items.subrange(0, k)) == Err::<Seq<T::V>, DecodeError>(e),
    ensures
        spec_decode_items::<T>(items) == Err::<Seq<T::V>, DecodeError>(e),
    decreases items.len() - k,
{
    if k < items.len() {
        let next = items.subrange(0, k + 1);
        assert(next.drop_last() =~= items.subrange(0, k));
        lemma_items_error_stays::<T>(items, k + 1, e);
    } else {
        assert(items.subrange(0, k) =~= items);
    }
}

} // verus!
