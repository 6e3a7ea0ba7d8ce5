//! The CBOR items that CTAP2 messages are made of.
//!
//! Bytes become items, and items bytes, through `serde_cbor`. Everything that
//! reads an item works on this module's own `CborValue`.

use crate::error::DecodeError;
use vstd::prelude::*;
use vstd::slice::slice_to_vec;

verus! {

/// A CBOR item, as far as CTAP2 uses the format: integers, booleans, byte
/// and text strings, arrays and maps. A floating point number is kept as
/// `Other`. A tag is not kept: the decoder drops it, and the item that it
/// tags stands in its place.
#[derive(Debug, PartialEq, Eq)]
pub enum CborValue {
    Null,
    Bool(bool),
    Integer(i128),
    Bytes(Vec<u8>),
    Text(String),
    Array(Vec<CborValue>),
    /// The entries of a map, in the order in which the map holds them.
    Dict(Vec<(CborValue, CborValue)>),
    Other,
}

/// A CBOR item as a mathematical value.
pub enum CborNode {
    Null,
    Bool(bool),
    Integer(int),
    Bytes(Seq<u8>),
    Text(Seq<char>),
    Array(Seq<CborNode>),
    Dict(Seq<(CborNode, CborNode)>),
    Other,
}

/// The mathematical value of an item.
pub open spec fn node_of(item: CborValue) -> CborNode
    decreases item,
{
    match item {
        CborValue::Null => CborNode::Null,
        CborValue::Bool(b) => CborNode::Bool(b),
        CborValue::Integer(n) => CborNode::Integer(n as int),
        CborValue::Bytes(b) => CborNode::Bytes(b@),
        CborValue::Text(t) => CborNode::Text(t@),
        CborValue::Array(items) => CborNode::Array(
            Seq::new(
                items@.len(),
                |i: int|
                    if 0 <= i < items@.len() {
                        node_of(items@[i])
                    } else {
                        CborNode::Null
                    },
            ),
        ),
        CborValue::Dict(entries) => CborNode::Dict(
            Seq::new(
                entries@.len(),
                |i: int|
                    if 0 <= i < entries@.len() {
                        (node_of(entries@[i].0), node_of(entries@[i].1))
                    } else {
                        (CborNode::Null, CborNode::Null)
                    },
            ),
        ),
        CborValue::Other => CborNode::Other,
    }
}

impl View for CborValue {
    type V = CborNode;

    open spec fn view(&self) -> CborNode {
        node_of(*self)
    }
}

/// The items of an array, each as a mathematical value.
pub open spec fn nodes(items: Seq<CborValue>) -> Seq<CborNode> {
    Seq::new(items.len(), |i: int| items[i]@)
}

/// The entries of a map, each as a pair of mathematical values.
pub open spec fn pairs(entries: Seq<(CborValue, CborValue)>) -> Seq<(CborNode, CborNode)> {
    Seq::new(entries.len(), |i: int| (entries[i].0@, entries[i].1@))
}

/// The view of an array is the array of its items' views.
pub proof fn lemma_view_array(items: Vec<CborValue>)
    ensures
        CborValue::Array(items)@ == CborNode::Array(nodes(items@)),
{
    assert(CborValue::Array(items)@->Array_0 =~= nodes(items@));
}

/// The view of a map is the list of its entries' views.
pub proof fn lemma_view_dict(entries: Vec<(CborValue, CborValue)>)
    ensures
        CborValue::Dict(entries)@ == CborNode::Dict(pairs(entries@)),
{
    reveal_with_fuel(node_of, 2);
    assert(CborValue::Dict(entries)@->Dict_0 =~= pairs(entries@));
}

/// `serde_cbor::Error`: why bytes are no CBOR, or why an item has no
/// encoding. Carried through unopened.
#[verifier::external_type_specification]
#[verifier::external_body]
pub struct ExCborError(serde_cbor::Error);

/// `serde_cbor::Value`: an item as `serde_cbor` holds it. Verified code never
/// looks inside; it is turned into a `CborValue` first.
#[verifier::external_type_specification]
#[verifier::external_body]
pub struct ExRawValue(serde_cbor::Value);

/// The item that `serde_cbor::from_slice` reads from the bytes, where they
/// are one well-formed item and nothing more.
pub uninterp spec fn cbor_decoded(bytes: Seq<u8>) -> Option<CborNode>;

/// The items that `serde_cbor`'s stream deserializer reads from the bytes,
/// where they are well-formed items one after the other.
pub uninterp spec fn cbor_sequence_decoded(bytes: Seq<u8>) -> Option<Seq<CborNode>>;

/// The bytes that `serde_cbor::to_vec` writes for the item, where it has an
/// encoding.
pub uninterp spec fn cbor_encoded(item: CborNode) -> Option<Seq<u8>>;

/// Turns a `serde_cbor::Value` into a `CborValue`, variant by variant. The
/// entries of a map come in the order in which `serde_cbor` keeps them.
/// Nothing is claimed of the result here; the functions that call
/// `serde_cbor` name it.
#[verifier::external_body]
fn lift(raw: &serde_cbor::Value) -> CborValue {
    match raw {
        serde_cbor::Value::Null => CborValue::Null,
        serde_cbor::Value::Bool(b) => CborValue::Bool(*b),
        serde_cbor::Value::Integer(n) => CborValue::Integer(*n),
        serde_cbor::Value::Bytes(b) => CborValue::Bytes(b.clone()),
        serde_cbor::Value::Text(t) => CborValue::Text(t.clone()),
        serde_cbor::Value::Array(items) => CborValue::Array(items.iter().map(lift).collect()),
        serde_cbor::Value::Map(m) => CborValue::Dict(
            m.iter().map(|(k, v)| (lift(k), lift(v))).collect(),
        ),
        _ => CborValue::Other,
    }
}

/// Turns a `CborValue` into a `serde_cbor::Value`, variant by variant.
///
/// The entries of a map go into the ordered map of `serde_cbor`, which
/// compares the keys as it takes them. That comparison panics on keys that
/// are not plain, so only writable items are admitted. `Other` has no
/// counterpart and is not writable; the arm that the match needs for it is
/// never reached.
#[verifier::external_body]
fn lower(item: &CborValue) -> serde_cbor::Value
    requires
        writable(item@),
{
    match item {
        CborValue::Null => serde_cbor::Value::Null,
        CborValue::Bool(b) => serde_cbor::Value::Bool(*b),
        CborValue::Integer(n) => serde_cbor::Value::Integer(*n),
        CborValue::Bytes(b) => serde_cbor::Value::Bytes(b.clone()),
        CborValue::Text(t) => serde_cbor::Value::Text(t.clone()),
        CborValue::Array(items) => serde_cbor::Value::Array(items.iter().map(lower).collect()),
        CborValue::Dict(entries) => serde_cbor::Value::Map(
            entries.iter().map(|(k, v)| (lower(k), lower(v))).collect(),
        ),
        CborValue::Other => serde_cbor::Value::Null,
    }
}

/// Calls `serde_cbor::from_slice`. The call reads one item and fails where
/// the bytes are malformed or go on after the item. What it reads depends on
/// the bytes alone, so the result has a name: `cbor_decoded`.
#[verifier::external_body]
fn from_slice(bytes: &[u8]) -> (r: Result<CborValue, serde_cbor::Error>)
    ensures
        match r {
            Ok(item) => cbor_decoded(bytes@) == Some(item@),
            Err(_) => cbor_decoded(bytes@) is None,
        },
{
    serde_cbor::from_slice::<serde_cbor::Value>(bytes).map(|raw| lift(&raw))
}

/// Calls `serde_cbor::Deserializer::from_slice` and walks the stream that
/// `into_iter` makes of it. The stream reads item after item up to the end of
/// the bytes; the first malformed item fails the whole. What it reads depends
/// on the bytes alone, so the result has a name: `cbor_sequence_decoded`.
#[verifier::external_body]
fn sequence_from_slice(bytes: &[u8]) -> (r: Result<Vec<CborValue>, serde_cbor::Error>)
    ensures
        match r {
            Ok(items) => cbor_sequence_decoded(bytes@) == Some(nodes(items@)),
            Err(_) => cbor_sequence_decoded(bytes@) is None,
        },
{
    serde_cbor::Deserializer::from_slice(bytes).into_iter::<serde_cbor::Value>().map(
        |item| item.map(|raw| lift(&raw)),
    ).collect()
}

/// The least integer that CBOR can write.
pub open spec fn cbor_min() -> int {
    -0x1_0000_0000_0000_0000
}

/// The greatest integer that CBOR can write.
pub open spec fn cbor_max() -> int {
    0xffff_ffff_ffff_ffff
}

/// Whether an item can stand as the key of a map that is to be written: an
/// integer that CBOR can write, a string, a boolean or null.
pub open spec fn plain_key(node: CborNode) -> bool {
    match node {
        CborNode::Integer(n) => cbor_min() <= n <= cbor_max(),
        CborNode::Array(_) => false,
        CborNode::Dict(_) => false,
        CborNode::Other => false,
        _ => true,
    }
}

/// Whether an item can be handed to the encoder: at no depth does it hold
/// `Other`, and the keys of its maps are plain.
pub open spec fn writable(node: CborNode) -> bool
    decreases node,
{
    match node {
        CborNode::Array(items) => forall|i: int|
            0 <= i < items.len() ==> writable(#[trigger] items[i]),
        CborNode::Dict(entries) => forall|i: int|
            0 <= i < entries.len() ==> plain_key((#[trigger] entries[i]).0) && writable(
                entries[i].1,
            ),
        CborNode::Other => false,
        _ => true,
    }
}

/// Calls `serde_cbor::to_vec`. The call fails where the item holds an integer
/// outside the range that CBOR can write. What it writes depends on the item
/// alone, so the result has a name: `cbor_encoded`.
///
/// `serde_cbor` orders the keys of a map. To order two arrays or two maps it
/// writes them out and panics where that fails; to order two integers it
/// takes their absolute values, which overflows on the least 128-bit
/// integer. So a key must be plain: no array, no map, and an integer only
/// within the range that CBOR can write. Items with other keys are left out,
/// and so are items that hold `Other`, which has no counterpart to be
/// written.
#[verifier::external_body]
fn to_vec(item: &CborValue) -> (r: Result<Vec<u8>, serde_cbor::Error>)
    requires
        writable(item@),
    ensures
        match r {
            Ok(bytes) => cbor_encoded(item@) == Some(bytes@),
            Err(_) => cbor_encoded(item@) is None,
        },
{
    serde_cbor::to_vec(&lower(item))
}

/// Reads the one CBOR item that the bytes hold.
pub fn decode(bytes: &[u8]) -> (r: Result<CborValue, DecodeError>)
    ensures
        match cbor_decoded(bytes@) {
            Some(node) => r matches Ok(item) && item@ == node,
            None => r matches Err(e) && e == DecodeError::InvalidCbor,
        },
{
    match from_slice(bytes) {
        Ok(item) => Ok(item),
        Err(_) => Err(DecodeError::InvalidCbor),
    }
}

/// Reads the CBOR items that the bytes hold one after the other.
pub fn decode_sequence(bytes: &[u8]) -> (r: Result<Vec<CborValue>, DecodeError>)
    ensures
        match cbor_sequence_decoded(bytes@) {
            Some(all) => r matches Ok(items) && nodes(items@) == all,
            None => r matches Err(e) && e == DecodeError::InvalidCbor,
        },
{
    match sequence_from_slice(bytes) {
        Ok(items) => Ok(items),
        Err(_) => Err(DecodeError::InvalidCbor),
    }
}

/// The bytes of an item that can be written: those that the encoder gives
/// it, where it can be handed to the encoder at all.
pub open spec fn encoded(node: CborNode) -> Option<Seq<u8>> {
    if writable(node) {
        cbor_encoded(node)
    } else {
        None
    }
}

proof fn lemma_array_not_writable(all: Seq<CborNode>, i: int)
    requires
        0 <= i < all.len(),
        !writable(all[i]),
    ensures
        !writable(CborNode::Array(all)),
{
    let whole = CborNode::Array(all);
    assert(whole->Array_0 == all);
    if writable(whole) {
        assert(forall|j: int| 0 <= j < all.len() ==> writable(#[trigger] all[j]));
        assert(writable(all[i]));
    }
}

proof fn lemma_dict_not_writable(all: Seq<(CborNode, CborNode)>, i: int)
    requires
        0 <= i < all.len(),
        !(plain_key(all[i].0) && writable(all[i].1)),
    ensures
        !writable(CborNode::Dict(all)),
{
    let whole = CborNode::Dict(all);
    assert(whole->Dict_0 == all);
    if writable(whole) {
        assert(forall|j: int|
            0 <= j < all.len() ==> plain_key((#[trigger] all[j]).0) && writable(all[j].1));
        assert(plain_key(all[i].0) && writable(all[i].1));
    }
}

fn is_plain_key(item: &CborValue) -> (r: bool)
    ensures
        r == plain_key(item@),
{
    match item {
        CborValue::Integer(n) => -0x1_0000_0000_0000_0000 <= *n && *n <= 0xffff_ffff_ffff_ffff,
        CborValue::Array(_) => false,
        CborValue::Dict(_) => false,
        CborValue::Other => false,
        _ => true,
    }
}

/// Whether an item can be handed to the encoder.
pub fn is_writable(item: &CborValue) -> (r: bool)
    ensures
        r == writable(item@),
    decreases item,
{
    match item {
        CborValue::Array(items) => {
            proof {
                lemma_view_array(*items);
            }
            let ghost all = nodes(items@);
            let mut i: usize = 0;
            while i < items.len()
                invariant
                    i <= items.len(),
                    all == nodes(items@),
                    item@ == CborNode::Array(all),
                    *item == CborValue::Array(*items),
                    forall|j: int| 0 <= j < i ==> writable(#[trigger] all[j]),
                decreases items.len() - i,
            {
                if !is_writable(&items[i]) {
                    proof {
                        lemma_array_not_writable(all, i as int);
                    }
                    return false;
                }
                i += 1;
            }
            true
        },
        CborValue::Dict(entries) => {
            proof {
                lemma_view_dict(*entries);
            }
            let ghost all = pairs(entries@);
            let mut i: usize = 0;
            while i < entries.len()
                invariant
                    i <= entries.len(),
                    all == pairs(entries@),
                    item@ == CborNode::Dict(all),
                    *item == CborValue::Dict(*entries),
                    forall|j: int|
                        0 <= j < i ==> plain_key((#[trigger] all[j]).0) && writable(all[j].1),
                decreases entries.len() - i,
            {
                if !is_plain_key(&entries[i].0) || !is_writable(&entries[i].1) {
                    proof {
                        lemma_dict_not_writable(all, i as int);
                    }
                    return false;
                }
                i += 1;
            }
            true
        },
        CborValue::Other => false,
        _ => true,
    }
}

/// Writes a CBOR item as bytes, where it has an encoding. An item has none
/// where it holds `Other`, or a map with a key that is an array, a map or an
/// integer that CBOR cannot write.
pub fn encode(item: &CborValue) -> (r: Option<Vec<u8>>)
    ensures
        match encoded(item@) {
            Some(bytes) => r matches Some(out) && out@ == bytes,
            None => r is None,
        },
{
    if !is_writable(item) {
        return None;
    }
    match to_vec(item) {
        Ok(bytes) => Some(bytes),
        Err(_) => None,
    }
}

/// Adds an item to the items of an array under construction.
pub fn add_item(items: &mut Vec<CborValue>, item: CborValue)
    ensures
        nodes(final(items)@) == nodes(old(items)@).push(item@),
{
    items.push(item);
    assert(nodes(items@) =~= nodes(old(items)@).push(item@));
}

/// Adds an entry to the entries of a map under construction.
pub fn add_entry(entries: &mut Vec<(CborValue, CborValue)>, key: CborValue, value: CborValue)
    ensures
        pairs(final(entries)@) == pairs(old(entries)@).push((key@, value@)),
{
    entries.push((key, value));
    assert(pairs(entries@) =~= pairs(old(entries)@).push((key@, value@)));
}

/// The integer that an item holds, where it is an integer between `low` and
/// `high`.
pub open spec fn integer_in(node: CborNode, low: int, high: int) -> Option<int> {
    match node {
        CborNode::Integer(n) => if low <= n <= high {
            Some(n)
        } else {
            None
        },
        _ => None,
    }
}

/// The bytes that an item holds, where it is a byte string.
pub open spec fn bytes_of(node: CborNode) -> Option<Seq<u8>> {
    match node {
        CborNode::Bytes(b) => Some(b),
        _ => None,
    }
}

/// The text that an item holds, where it is a text string.
pub open spec fn text_of(node: CborNode) -> Option<Seq<char>> {
    match node {
        CborNode::Text(t) => Some(t),
        _ => None,
    }
}

/// The truth value that an item holds, where it is a boolean.
pub open spec fn bool_of(node: CborNode) -> Option<bool> {
    match node {
        CborNode::Bool(b) => Some(b),
        _ => None,
    }
}

/// The value under a key in a list of entries: that of the last entry with
/// the key, if there is one. A well-formed map has each key once.
pub open spec fn lookup(entries: Seq<(CborNode, CborNode)>, key: CborNode) -> Option<CborNode>
    decreases entries.len(),
{
    if entries.len() == 0 {
        None
    } else if entries.last().0 == key {
        Some(entries.last().1)
    } else {
        lookup(entries.drop_last(), key)
    }
}

/// An entry that is added anywhere in a list leaves the value under every
/// other key as it was.
pub proof fn lemma_lookup_insert(
    entries: Seq<(CborNode, CborNode)>,
    at: int,
    extra: (CborNode, CborNode),
    key: CborNode,
)
    requires
        0 <= at <= entries.len(),
        extra.0 != key,
    ensures
        lookup(entries.insert(at, extra), key) == lookup(entries, key),
    decreases entries.len(),
{
    let more = entries.insert(at, extra);
    if at == entries.len() {
        assert(more.drop_last() =~= entries);
    } else {
        assert(more.last() == entries.last());
        assert(more.drop_last() =~= entries.drop_last().insert(at, extra));
        lemma_lookup_insert(entries.drop_last(), at, extra, key);
    }
}

/// Two neighbouring entries with different keys can change places: the
/// value under every key stays as it was. So where each key stands once,
/// what is found does not depend on the order of the entries.
pub proof fn lemma_lookup_swap(entries: Seq<(CborNode, CborNode)>, at: int, k: CborNode)
    requires
        0 <= at,
        at + 1 < entries.len(),
        entries[at].0 != entries[at + 1].0,
    ensures
        lookup(entries.update(at, entries[at + 1]).update(at + 1, entries[at]), k) == lookup(
            entries,
            k,
        ),
    decreases entries.len(),
{
    let swapped = entries.update(at, entries[at + 1]).update(at + 1, entries[at]);
    reveal_with_fuel(lookup, 3);
    if at + 2 == entries.len() {
        let rest = entries.drop_last().drop_last();
        assert(swapped.drop_last().drop_last() =~= rest);
        assert(swapped.last() == entries[at]);
        assert(swapped.drop_last().last() == entries[at + 1]);
        assert(entries.drop_last().last() == entries[at]);
        assert(entries.last() == entries[at + 1]);
    } else {
        assert(swapped.last() == entries.last());
        assert(swapped.drop_last() =~= entries.drop_last().update(at, entries[at + 1]).update(
            at + 1,
            entries[at],
        ));
        lemma_lookup_swap(entries.drop_last(), at, k);
    }
}

/// A value that is found under a key is that of some entry with the key.
pub proof fn lemma_lookup_found(entries: Seq<(CborNode, CborNode)>, k: CborNode)
    requires
        lookup(entries, k) is Some,
    ensures
        exists|i: int|
            0 <= i < entries.len() && entries[i].0 == k && lookup(entries, k) == Some(
                entries[i].1,
            ),
    decreases entries.len(),
{
    if entries.last().0 == k {
        assert(entries[entries.len() - 1].0 == k);
    } else {
        lemma_lookup_found(entries.drop_last(), k);
        let i = choose|i: int|
            0 <= i < entries.drop_last().len() && entries.drop_last()[i].0 == k && lookup(
                entries.drop_last(),
                k,
            ) == Some(entries.drop_last()[i].1);
        assert(entries[i] == entries.drop_last()[i]);
    }
}

impl CborValue {
    /// An integer item.
    pub fn integer(n: i128) -> (r: CborValue)
        ensures
            r@ == CborNode::Integer(n as int),
    {
        CborValue::Integer(n)
    }

    /// A boolean item.
    pub fn boolean(b: bool) -> (r: CborValue)
        ensures
            r@ == CborNode::Bool(b),
    {
        CborValue::Bool(b)
    }

    /// A text string item.
    pub fn text(t: &str) -> (r: CborValue)
        ensures
            r@ == CborNode::Text(t@),
    {
        CborValue::Text(String::from_str(t))
    }

    /// A byte string item.
    pub fn bytes(b: &[u8]) -> (r: CborValue)
        ensures
            r@ == CborNode::Bytes(b@),
    {
        CborValue::Bytes(slice_to_vec(b))
    }

    /// An array item with the given items.
    pub fn array(items: Vec<CborValue>) -> (r: CborValue)
        ensures
            r@ == CborNode::Array(nodes(items@)),
    {
        proof {
            lemma_view_array(items);
        }
        CborValue::Array(items)
    }

    /// A map item with the given entries.
    pub fn dict(entries: Vec<(CborValue, CborValue)>) -> (r: CborValue)
        ensures
            r@ == CborNode::Dict(pairs(entries@)),
    {
        proof {
            lemma_view_dict(entries);
        }
        CborValue::Dict(entries)
    }

    /// The item as an unsigned 32-bit number.
    pub fn to_u32(&self) -> (r: Option<u32>)
        ensures
            match integer_in(self@, 0, u32::MAX as int) {
                Some(n) => r == Some(n as u32),
                None => r is None,
            },
    {
        match self {
            CborValue::Integer(n) => if 0 <= *n && *n <= 0xffff_ffff {
                Some(*n as u32)
            } else {
                None
            },
            _ => None,
        }
    }

    /// The item as a signed 32-bit number.
    pub fn to_i32(&self) -> (r: Option<i32>)
        ensures
            match integer_in(self@, i32::MIN as int, i32::MAX as int) {
                Some(n) => r == Some(n as i32),
                None => r is None,
            },
    {
        match self {
            CborValue::Integer(n) => if -0x8000_0000 <= *n && *n <= 0x7fff_ffff {
                Some(*n as i32)
            } else {
                None
            },
            _ => None,
        }
    }

    /// The item as a boolean.
    pub fn to_bool(&self) -> (r: Option<bool>)
        ensures
            r == bool_of(self@),
    {
        match self {
            CborValue::Bool(b) => Some(*b),
            _ => None,
        }
    }

    /// A copy of the bytes of a byte string.
    pub fn to_bytes(&self) -> (r: Option<Vec<u8>>)
        ensures
            match bytes_of(self@) {
                Some(b) => r matches Some(out) && out@ == b,
                None => r is None,
            },
    {
        match self {
            CborValue::Bytes(b) => Some(slice_to_vec(b.as_slice())),
            _ => None,
        }
    }

    /// A copy of the text of a text string.
    pub fn to_text(&self) -> (r: Option<String>)
        ensures
            match text_of(self@) {
                Some(t) => r matches Some(out) && out@ == t,
                None => r is None,
            },
    {
        match self {
            CborValue::Text(t) => Some(t.clone()),
            _ => None,
        }
    }

    /// The items of an array.
    pub fn items(&self) -> (r: Option<&Vec<CborValue>>)
        ensures
            match self@ {
                CborNode::Array(all) => r matches Some(items) && nodes(items@) == all,
                _ => r is None,
            },
    {
        match self {
            CborValue::Array(items) => {
                proof {
                    lemma_view_array(*items);
                }
                Some(items)
            },
            _ => None,
        }
    }

    /// The entries of a map.
    pub fn entries(&self) -> (r: Option<&Vec<(CborValue, CborValue)>>)
        ensures
            match self@ {
                CborNode::Dict(all) => r matches Some(entries) && pairs(entries@) == all,
                _ => r is None,
            },
    {
        match self {
            CborValue::Dict(entries) => {
                proof {
                    lemma_view_dict(*entries);
                }
                Some(entries)
            },
            _ => None,
        }
    }
}

} // verus!
