//! Reading the fields of a response map.
//!
//! A response is a map from small integers to values of several kinds. A
//! field of a record is the value under its key, converted to the kind that
//! the field has; where the key is absent the field keeps its default.

use crate::cbor::{bytes_of, integer_in, lookup, text_of, CborNode, CborValue};
use crate::error::DecodeError;
use vstd::prelude::*;

verus! {

/// Whether an exec result is the view of the result that a contract names.
pub open spec fn agrees<T: View>(r: Result<T, DecodeError>, want: Result<T::V, DecodeError>) -> bool {
    match want {
        Ok(model) => r matches Ok(record) && record@ == model,
        Err(e) => r matches Err(x) && x == e,
    }
}

/// The key of a field: the integer as a CBOR item.
pub open spec fn key(k: int) -> CborNode {
    CborNode::Integer(k)
}

/// The name of a field: the text as a CBOR item.
pub open spec fn name(t: Seq<char>) -> CborNode {
    CborNode::Text(t)
}

/// Whether an item is the integer key `k`.
pub fn is_key(item: &CborValue, k: i128) -> (r: bool)
    ensures
        r == (item@ == key(k as int)),
{
    match item {
        CborValue::Integer(n) => *n == k,
        _ => false,
    }
}

/// Whether an item is the text key `t`.
pub fn is_name(item: &CborValue, t: &str) -> (r: bool)
    ensures
        r == (item@ == name(t@)),
{
    match item {
        CborValue::Text(s) => {
            let wanted = String::from_str(t);
            *s == wanted
        },
        _ => false,
    }
}

/// The unsigned 32-bit number under a key, or 0.
pub open spec fn u32_field(entries: Seq<(CborNode, CborNode)>, k: CborNode) -> u32 {
    match lookup(entries, k) {
        Some(v) => match integer_in(v, 0, u32::MAX as int) {
            Some(n) => n as u32,
            None => 0,
        },
        None => 0,
    }
}

/// The signed 32-bit number under a key, or 0.
pub open spec fn i32_field(entries: Seq<(CborNode, CborNode)>, k: CborNode) -> i32 {
    match lookup(entries, k) {
        Some(v) => match integer_in(v, i32::MIN as int, i32::MAX as int) {
            Some(n) => n as i32,
            None => 0,
        },
        None => 0,
    }
}

/// The byte string under a key, or the empty one.
pub open spec fn bytes_field(entries: Seq<(CborNode, CborNode)>, k: CborNode) -> Seq<u8> {
    match lookup(entries, k) {
        Some(v) => match bytes_of(v) {
            Some(b) => b,
            None => Seq::empty(),
        },
        None => Seq::empty(),
    }
}

/// The text under a key, or the empty one.
pub open spec fn text_field(entries: Seq<(CborNode, CborNode)>, k: CborNode) -> Seq<char> {
    match lookup(entries, k) {
        Some(v) => match text_of(v) {
            Some(t) => t,
            None => Seq::empty(),
        },
        None => Seq::empty(),
    }
}

/// Looking a key up in the first `i + 1` entries: the entry at `i` decides
/// where it has the key, else the first `i` entries do.
pub proof fn lemma_lookup_step(entries: Seq<(CborNode, CborNode)>, i: int, k: CborNode)
    requires
        0 <= i < entries.len(),
    ensures
        lookup(entries.take(i + 1), k) == (if entries[i].0 == k {
            Some(entries[i].1)
        } else {
            lookup(entries.take(i), k)
        }),
{
    assert(entries.take(i + 1).drop_last() =~= entries.take(i));
    assert(entries.take(i + 1).last() == entries[i]);
}

/// What is wrong with an entry, if anything: a decoder's rule for one entry.
pub type EntryCheck = spec_fn((CborNode, CborNode)) -> Option<DecodeError>;

/// The error of the first entry, in the order of the list, with which
/// something is wrong.
pub open spec fn first_error(entries: Seq<(CborNode, CborNode)>, check: EntryCheck) -> Option<
    DecodeError,
>
    decreases entries.len(),
{
    if entries.len() == 0 {
        None
    } else {
        match first_error(entries.drop_last(), check) {
            Some(e) => Some(e),
            None => check(entries.last()),
        }
    }
}

/// The first error among the first `i + 1` entries: that among the first
/// `i`, else that of the entry at `i`.
pub proof fn lemma_first_error_step(entries: Seq<(CborNode, CborNode)>, i: int, check: EntryCheck)
    requires
        0 <= i < entries.len(),
    ensures
        first_error(entries.take(i + 1), check) == (match first_error(entries.take(i), check) {
            Some(e) => Some(e),
            None => check(entries[i]),
        }),
{
    assert(entries.take(i + 1).drop_last() =~= entries.take(i));
    assert(entries.take(i + 1).last() == entries[i]);
}

/// An error among the first `n` entries is the first error of the whole
/// list.
pub proof fn lemma_first_error_prefix(
    entries: Seq<(CborNode, CborNode)>,
    n: int,
    check: EntryCheck,
)
    requires
        0 <= n <= entries.len(),
        first_error(entries.take(n), check) is Some,
    ensures
        first_error(entries, check) == first_error(entries.take(n), check),
    decreases entries.len() - n,
{
    if n == entries.len() {
        assert(entries.take(n) =~= entries);
    } else {
        lemma_first_error_step(entries, n, check);
        lemma_first_error_prefix(entries, n + 1, check);
    }
}

/// A list has no error exactly where none of its entries has one.
pub proof fn lemma_first_error_none(entries: Seq<(CborNode, CborNode)>, check: EntryCheck)
    ensures
        first_error(entries, check) is None <==> forall|i: int|
            0 <= i < entries.len() ==> check(#[trigger] entries[i]) is None,
    decreases entries.len(),
{
    if entries.len() > 0 {
        let rest = entries.drop_last();
        lemma_first_error_none(rest, check);
        if first_error(entries, check) is None {
            assert forall|i: int| 0 <= i < entries.len() implies check(
                #[trigger] entries[i],
            ) is None by {
                if i < rest.len() {
                    assert(rest[i] == entries[i]);
                }
            }
        } else if first_error(rest, check) is Some {
            let bad = choose|i: int| 0 <= i < rest.len() && !(check(#[trigger] rest[i]) is None);
            assert(rest[bad] == entries[bad]);
        }
    }
}

/// An entry with which nothing is wrong, added anywhere in a list, leaves
/// the first error as it was.
pub proof fn lemma_first_error_insert(
    entries: Seq<(CborNode, CborNode)>,
    at: int,
    extra: (CborNode, CborNode),
    check: EntryCheck,
)
    requires
        0 <= at <= entries.len(),
        check(extra) is None,
    ensures
        first_error(entries.insert(at, extra), check) == first_error(entries, check),
    decreases entries.len(),
{
    let more = entries.insert(at, extra);
    if at == entries.len() {
        assert(more.drop_last() =~= entries);
    } else {
        assert(more.last() == entries.last());
        assert(more.drop_last() =~= entries.drop_last().insert(at, extra));
        lemma_first_error_insert(entries.drop_last(), at, extra, check);
    }
}

} // verus!
