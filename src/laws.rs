use crate::decimal::{
    decimal, lemma_decimal_parses, lemma_signed_decimal_parses, signed_decimal,
};
use crate::from_value::{spec_decode, spec_decode_all, spec_decode_dump, FromValue};
use crate::value::{Error, Value};
use vstd::prelude::*;

verus! {

/// An unsigned integer written as an argument token and read back from a
/// reply holding that token is the same integer.
pub proof fn lemma_u64_round_trip(n: u64, reply: Value)
    requires
        reply is BulkString,
        reply->BulkString_0@ == decimal(n as nat),
    ensures
        spec_decode::<u64>(reply) == Ok::<u64, Error>(n),
{
    lemma_decimal_parses(n as nat);
}

/// A signed integer written as an argument token and read back from a reply
/// holding that token is the same integer, negative values included.
pub proof fn lemma_i64_round_trip(n: i64, reply: Value)
    requires
        reply is BulkString,
        reply->BulkString_0@ == signed_decimal(n as int),
    ensures
        spec_decode::<i64>(reply) == Ok::<i64, Error>(n),
{
    lemma_signed_decimal_parses(n as int);
}

/// An integer reply reads back as the same integer; negative sentinels are
/// not special.
pub proof fn lemma_integer_reply_passes_through(n: i64)
    ensures
        spec_decode::<i64>(Value::Integer(n)) == Ok::<i64, Error>(n),
        n >= 0 ==> spec_decode::<u64>(Value::Integer(n)) == Ok::<u64, Error>(n as u64),
{
}

/// Decoding an array reply into a sequence keeps its length and order: the
/// item at each position is what the reply's item at that position decodes
/// to.
pub proof fn lemma_array_keeps_order<T: FromValue>(items: Seq<Value>)
    requires
        spec_decode_all::<T>(items) is Ok,
    ensures
        spec_decode_all::<T>(items)->Ok_0.len() == items.len(),
        forall|i: int|
            0 <= i < items.len() ==> spec_decode::<T>(#[trigger] items[i]) == Ok::<T::V, Error>(
                spec_decode_all::<T>(items)->Ok_0[i],
            ),
    decreases items.len(),
{
    if items.len() > 0 {
        let d = items.drop_last();
        lemma_array_keeps_order::<T>(d);
        assert forall|i: int| 0 <= i < items.len() implies spec_decode::<T>(#[trigger] items[i])
            == Ok::<T::V, Error>(spec_decode_all::<T>(items)->Ok_0[i]) by {
            if i < items.len() - 1 {
                assert(items[i] == d[i]);
            }
        }
    }
}

/// A pair such as a scan's cursor and batch cannot be read from an array
/// reply of fewer than two items.
pub proof fn lemma_pair_needs_two_items<A: FromValue, B: FromValue>(reply: Value)
    requires
        reply is Array,
        reply->Array_0@.len() < 2,
    ensures
        spec_decode::<(A, B)>(reply) is Err,
{
}

/// The cursor read from a scan reply is the store's cursor unchanged, so a
/// reply whose cursor is `0`, the store's sign that the scan is done, always
/// reads back as `0`, whatever the batch.
pub proof fn lemma_scan_cursor_passes_through<K: FromValue>(cursor: u64, reply: Value)
    requires
        reply is Array,
        reply->Array_0@.len() == 2,
        reply->Array_0@[0] is BulkString,
        reply->Array_0@[0]->BulkString_0@ == decimal(cursor as nat),
        spec_decode::<Vec<K>>(reply->Array_0@[1]) is Ok,
    ensures
        spec_decode::<(u64, Vec<K>)>(reply) is Ok,
        spec_decode::<(u64, Vec<K>)>(reply)->Ok_0.0 == cursor,
{
    lemma_u64_round_trip(cursor, reply->Array_0@[0]);
}

/// A store error reply fails to decode into any type, `()` included, and the
/// failure carries the store's message unchanged.
pub proof fn lemma_store_error_always_fails<T: FromValue>(message: String)
    ensures
        spec_decode::<T>(Value::Error(message)) == Err::<T::V, Error>(Error::Redis(message)),
        spec_decode::<()>(Value::Error(message)) == Err::<(), Error>(Error::Redis(message)),
        spec_decode_dump(Value::Error(message)) == Err::<Seq<u8>, Error>(Error::Redis(message)),
{
}

} // verus!
