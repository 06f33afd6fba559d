use crate::decimal::{parse_i64, parse_integer, parse_natural, parse_u64};
use crate::value::{Error, Value};
use vstd::prelude::*;
use vstd::utf8::{decode_utf8, valid_utf8};

verus! {

/// Whether an executable result `r` agrees with the model result `s`.
pub open spec fn decoded_as<T: DeepView>(r: Result<T, Error>, s: Result<T::V, Error>) -> bool {
    match r {
        Ok(x) => s == Ok::<T::V, Error>(x.deep_view()),
        Err(e) => s == Err::<T::V, Error>(e),
    }
}

/// A native type that a reply converts into.
pub trait FromValue: Sized + DeepView {
    /// What a reply that is not a store error converts into.
    spec fn spec_from_value(v: Value) -> Result<Self::V, Error>;

    /// Converts a reply that is not a store error.
    fn from_value(v: Value) -> (r: Result<Self, Error>)
        requires
            !(v is Error),
        ensures
            decoded_as(r, Self::spec_from_value(v)),
    ;
}

/// What a reply converts into as a `T`: a store error always fails with its
/// message, whatever `T` is.
pub open spec fn spec_decode<T: FromValue>(v: Value) -> Result<T::V, Error> {
    match v {
        Value::Error(m) => Err(Error::Redis(m)),
        _ => T::spec_from_value(v),
    }
}

/// Converts a reply into a `T`.
pub fn decode<T: FromValue>(v: Value) -> (r: Result<T, Error>)
    ensures
        decoded_as(r, spec_decode::<T>(v)),
{
    match v {
        Value::Error(m) => Err(Error::Redis(m)),
        _ => T::from_value(v),
    }
}

/// Relies on `String::from_utf8`: it succeeds exactly on valid UTF-8 and
/// keeps the characters that the bytes encode.
#[verifier::external_body]
fn utf8_to_string(b: Vec<u8>) -> (r: Option<String>)
    ensures
        r is Some <==> valid_utf8(b@),
        r is Some ==> r->0@ == decode_utf8(b@),
{
    String::from_utf8(b).ok()
}

impl FromValue for () {
    open spec fn spec_from_value(v: Value) -> Result<(), Error> {
        match v {
            Value::SimpleString(_) | Value::Nil => Ok(()),
            _ => Err(Error::UnexpectedReply),
        }
    }

    fn from_value(v: Value) -> (r: Result<(), Error>) {
        match v {
            Value::SimpleString(_) | Value::Nil => Ok(()),
            _ => Err(Error::UnexpectedReply),
        }
    }
}

impl FromValue for bool {
    open spec fn spec_from_value(v: Value) -> Result<bool, Error> {
        match v {
            Value::Integer(i) => Ok(i != 0),
            _ => Err(Error::UnexpectedReply),
        }
    }

    fn from_value(v: Value) -> (r: Result<bool, Error>) {
        match v {
            Value::Integer(i) => Ok(i != 0),
            _ => Err(Error::UnexpectedReply),
        }
    }
}

impl FromValue for i64 {
    open spec fn spec_from_value(v: Value) -> Result<i64, Error> {
        match v {
            Value::Integer(i) => Ok(i),
            Value::BulkString(b) => match parse_integer(b@) {
                Some(n) => if i64::MIN <= n <= i64::MAX {
                    Ok(n as i64)
                } else {
                    Err(Error::InvalidInteger)
                },
                None => Err(Error::InvalidInteger),
            },
            _ => Err(Error::UnexpectedReply),
        }
    }

    fn from_value(v: Value) -> (r: Result<i64, Error>) {
        match v {
            Value::Integer(i) => Ok(i),
            Value::BulkString(b) => match parse_i64(b.as_slice()) {
                Some(n) => Ok(n),
                None => Err(Error::InvalidInteger),
            },
            _ => Err(Error::UnexpectedReply),
        }
    }
}

impl FromValue for u64 {
    open spec fn spec_from_value(v: Value) -> Result<u64, Error> {
        match v {
            Value::Integer(i) => if i >= 0 {
                Ok(i as u64)
            } else {
                Err(Error::InvalidInteger)
            },
            Value::BulkString(b) => match parse_natural(b@) {
                Some(n) => if n <= u64::MAX {
                    Ok(n as u64)
                } else {
                    Err(Error::InvalidInteger)
                },
                None => Err(Error::InvalidInteger),
            },
            _ => Err(Error::UnexpectedReply),
        }
    }

    fn from_value(v: Value) -> (r: Result<u64, Error>) {
        match v {
            Value::Integer(i) => if i >= 0 {
                Ok(i as u64)
            } else {
                Err(Error::InvalidInteger)
            },
            Value::BulkString(b) => match parse_u64(b.as_slice()) {
                Some(n) => Ok(n),
                None => Err(Error::InvalidInteger),
            },
            _ => Err(Error::UnexpectedReply),
        }
    }
}

impl FromValue for usize {
    open spec fn spec_from_value(v: Value) -> Result<usize, Error> {
        match v {
            Value::Integer(i) => if 0 <= i <= usize::MAX {
                Ok(i as usize)
            } else {
                Err(Error::InvalidInteger)
            },
            Value::BulkString(b) => match parse_natural(b@) {
                Some(n) => if n <= usize::MAX {
                    Ok(n as usize)
                } else {
                    Err(Error::InvalidInteger)
                },
                None => Err(Error::InvalidInteger),
            },
            _ => Err(Error::UnexpectedReply),
        }
    }

    fn from_value(v: Value) -> (r: Result<usize, Error>) {
        match v {
            Value::Integer(i) => if i >= 0 && (i as u64) <= (usize::MAX as u64) {
                Ok(i as usize)
            } else {
                Err(Error::InvalidInteger)
            },
            Value::BulkString(b) => match parse_u64(b.as_slice()) {
                Some(n) => if n <= (usize::MAX as u64) {
                    Ok(n as usize)
                } else {
                    Err(Error::InvalidInteger)
                },
                None => Err(Error::InvalidInteger),
            },
            _ => Err(Error::UnexpectedReply),
        }
    }
}

impl FromValue for String {
    open spec fn spec_from_value(v: Value) -> Result<Seq<char>, Error> {
        match v {
            Value::SimpleString(s) => Ok(s@),
            Value::BulkString(b) => if valid_utf8(b@) {
                Ok(decode_utf8(b@))
            } else {
                Err(Error::InvalidUtf8)
            },
            _ => Err(Error::UnexpectedReply),
        }
    }

    fn from_value(v: Value) -> (r: Result<String, Error>) {
        match v {
            Value::SimpleString(s) => Ok(s),
            Value::BulkString(b) => match utf8_to_string(b) {
                Some(s) => Ok(s),
                None => Err(Error::InvalidUtf8),
            },
            _ => Err(Error::UnexpectedReply),
        }
    }
}

impl<T: FromValue> FromValue for Option<T> {
    open spec fn spec_from_value(v: Value) -> Result<Option<T::V>, Error> {
        match v {
            Value::Nil => Ok(None),
            _ => match T::spec_from_value(v) {
                Ok(x) => Ok(Some(x)),
                Err(e) => Err(e),
            },
        }
    }

    fn from_value(v: Value) -> (r: Result<Option<T>, Error>) {
        match v {
            Value::Nil => Ok(None),
            _ => match T::from_value(v) {
                Ok(x) => Ok(Some(x)),
                Err(e) => Err(e),
            },
        }
    }
}

/// What the items of an array reply convert into, in order; the first item
/// that fails decides the error.
pub open spec fn spec_decode_all<T: FromValue>(items: Seq<Value>) -> Result<Seq<T::V>, Error>
    decreases items.len(),
{
    if items.len() == 0 {
        Ok(Seq::empty())
    } else {
        match spec_decode_all::<T>(items.drop_last()) {
            Err(e) => Err(e),
            Ok(s) => match spec_decode::<T>(items.last()) {
                Ok(x) => Ok(s.push(x)),
                Err(e) => Err(e),
            },
        }
    }
}

proof fn lemma_decode_all_error_sticks<T: FromValue>(s: Seq<Value>, k: int, e: Error)
    requires
        0 <= k <= s.len(),
        spec_decode_all::<T>(s.take(k)) == Err::<Seq<T::V>, Error>(e),
    ensures
        spec_decode_all::<T>(s) == Err::<Seq<T::V>, Error>(e),
    decreases s.len(),
{
    if k < s.len() {
        let d = s.drop_last();
        assert(d.take(k) =~= s.take(k));
        lemma_decode_all_error_sticks::<T>(d, k, e);
    } else {
        assert(s.take(k) =~= s);
    }
}

fn decode_items<T: FromValue>(items: Vec<Value>) -> (r: Result<Vec<T>, Error>)
    ensures
        decoded_as(r, spec_decode_all::<T>(items@)),
{
    let ghost orig = items@;
    let n = items.len();
    let mut rest = items;
    let mut rev: Vec<Value> = Vec::new();
    while rest.len() > 0
        invariant
            rest@.len() + rev@.len() == n,
            n == orig.len(),
            orig == items@,
            rest@ == orig.take(rest@.len() as int),
            forall|j: int| 0 <= j < rev@.len() ==> #[trigger] rev@[j] == orig[n - 1 - j],
        decreases rest@.len(),
    {
        let x = rest.pop().unwrap();
        rev.push(x);
        assert(rest@ =~= orig.take(rest@.len() as int));
    }
    let mut out: Vec<T> = Vec::new();
    let mut i: usize = 0;
    assert(out.deep_view() =~= Seq::<T::V>::empty());
    assert(orig.take(0) =~= Seq::<Value>::empty());
    while rev.len() > 0
        invariant
            rev@.len() + i == n,
            n == orig.len(),
            orig == items@,
            forall|j: int| 0 <= j < rev@.len() ==> #[trigger] rev@[j] == orig[n - 1 - j],
            spec_decode_all::<T>(orig.take(i as int)) == Ok::<Seq<T::V>, Error>(out.deep_view()),
        decreases rev@.len(),
    {
        let x = rev.pop().unwrap();
        assert(x == orig[i as int]);
        assert(orig.take(i as int + 1).drop_last() =~= orig.take(i as int));
        match decode::<T>(x) {
            Ok(y) => {
                let ghost before = out.deep_view();
                out.push(y);
                assert(out.deep_view() =~= before.push(y.deep_view()));
            },
            Err(e) => {
                proof {
                    let t = orig.take(i as int + 1);
                    assert(t.last() == x);
                    assert(spec_decode_all::<T>(t) == Err::<Seq<T::V>, Error>(e));
                    lemma_decode_all_error_sticks::<T>(orig, i as int + 1, e);
                    assert(decoded_as(Err::<Vec<T>, Error>(e), spec_decode_all::<T>(orig)));
                }
                return Err(e);
            },
        }
        i += 1;
    }
    assert(orig.take(i as int) =~= orig);
    Ok(out)
}

impl<T: FromValue> FromValue for Vec<T> {
    open spec fn spec_from_value(v: Value) -> Result<Seq<T::V>, Error> {
        match v {
            Value::Array(items) => spec_decode_all::<T>(items@),
            _ => Err(Error::UnexpectedReply),
        }
    }

    fn from_value(v: Value) -> (r: Result<Vec<T>, Error>) {
        match v {
            Value::Array(items) => decode_items::<T>(items),
            _ => Err(Error::UnexpectedReply),
        }
    }
}

impl<A: FromValue, B: FromValue> FromValue for (A, B) {
    open spec fn spec_from_value(v: Value) -> Result<(A::V, B::V), Error> {
        match v {
            Value::Array(items) => if items@.len() == 2 {
                match spec_decode::<A>(items@[0]) {
                    Err(e) => Err(e),
                    Ok(a) => match spec_decode::<B>(items@[1]) {
                        Err(e) => Err(e),
                        Ok(b) => Ok((a, b)),
                    },
                }
            } else {
                Err(Error::UnexpectedReply)
            },
            _ => Err(Error::UnexpectedReply),
        }
    }

    fn from_value(v: Value) -> (r: Result<(A, B), Error>) {
        match v {
            Value::Array(items) => {
                if items.len() == 2 {
                    let ghost orig = items@;
                    let mut items = items;
                    let second = items.pop().unwrap();
                    let first = items.pop().unwrap();
                    match decode::<A>(first) {
                        Err(e) => Err(e),
                        Ok(a) => match decode::<B>(second) {
                            Err(e) => Err(e),
                            Ok(b) => Ok((a, b)),
                        },
                    }
                } else {
                    Err(Error::UnexpectedReply)
                }
            },
            _ => Err(Error::UnexpectedReply),
        }
    }
}

/// What a dump reply converts into: the raw serialized bytes.
pub open spec fn spec_decode_dump(v: Value) -> Result<Seq<u8>, Error> {
    match v {
        Value::BulkString(b) => Ok(b@),
        Value::Error(m) => Err(Error::Redis(m)),
        _ => Err(Error::UnexpectedReply),
    }
}

/// Converts the reply to a dump request into the serialized bytes, unread.
pub fn decode_dump(v: Value) -> (r: Result<Vec<u8>, Error>)
    ensures
        decoded_as(r, spec_decode_dump(v)),
{
    match v {
        Value::BulkString(b) => {
            assert(b.deep_view() =~= b@);
            Ok(b)
        },
        Value::Error(m) => Err(Error::Redis(m)),
        _ => Err(Error::UnexpectedReply),
    }
}

/// Converts the reply to a scan request into the next cursor and the batch
/// of keys.
pub fn decode_scan<K: FromValue>(v: Value) -> (r: Result<(u64, Vec<K>), Error>)
    ensures
        decoded_as(r, spec_decode::<(u64, Vec<K>)>(v)),
{
    decode::<(u64, Vec<K>)>(v)
}

} // verus!
