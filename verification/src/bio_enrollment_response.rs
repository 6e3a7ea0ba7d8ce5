//! Decoding of the bio-enrollment response.
//!
//! The response is a map. Key 1 holds the modality, key 2 the fingerprint
//! kind, key 3 the number of samples an enrollment takes, key 7 the enrolled
//! templates and key 8 the longest friendly name allowed. A template is a map
//! of its own: key 1 holds its id, key 2 its friendly name. Other keys are
//! passed over.

use crate::bio_enrollment_params::{
    templates_view, BioEnrollmentData, BioEnrollmentModel, TemplateInfo, TemplateInfoModel,
};
use crate::cbor::{
    bytes_of, cbor_decoded, decode, integer_in, lemma_lookup_insert, lookup, nodes, pairs,
    text_of, CborNode, CborValue,
};
use crate::error::DecodeError;
use crate::fields::{
    agrees, bytes_field, first_error, is_key, key, lemma_first_error_insert,
    lemma_first_error_prefix, lemma_first_error_step, lemma_lookup_step, text_field, u32_field,
    EntryCheck,
};
use vstd::prelude::*;

verus! {

/// Whether an entry of a template map can be taken: its value has the kind
/// that its key asks for, or its key is none of the template's.
pub open spec fn template_entry_ok(entry: (CborNode, CborNode)) -> bool {
    &&& entry.0 == key(1) ==> bytes_of(entry.1) is Some
    &&& entry.0 == key(2) ==> text_of(entry.1) is Some
}

/// The template that an item stands for, where it is a map whose entries can
/// all be taken.
pub open spec fn template_of(node: CborNode) -> Option<TemplateInfoModel> {
    match node {
        CborNode::Dict(entries) => if forall|i: int|
            0 <= i < entries.len() ==> template_entry_ok(#[trigger] entries[i]) {
            Some(
                TemplateInfoModel {
                    template_id: bytes_field(entries, key(1)),
                    template_friendly_name: text_field(entries, key(2)),
                },
            )
        } else {
            None
        },
        _ => None,
    }
}

/// The templates that an item stands for, where it is an array of
/// templates.
pub open spec fn templates_of(node: CborNode) -> Option<Seq<TemplateInfoModel>> {
    match node {
        CborNode::Array(items) => if forall|i: int|
            0 <= i < items.len() ==> template_of(#[trigger] items[i]) is Some {
            Some(Seq::new(items.len(), |i: int| template_of(items[i])->0))
        } else {
            None
        },
        _ => None,
    }
}

/// The templates under key 7, or none.
pub open spec fn templates_field(entries: Seq<(CborNode, CborNode)>) -> Seq<TemplateInfoModel> {
    match lookup(entries, key(7)) {
        Some(v) => match templates_of(v) {
            Some(list) => list,
            None => Seq::empty(),
        },
        None => Seq::empty(),
    }
}

/// Whether an entry of the response map can be taken.
pub open spec fn entry_ok(entry: (CborNode, CborNode)) -> bool {
    &&& (entry.0 == key(1) || entry.0 == key(2) || entry.0 == key(3) || entry.0 == key(8))
        ==> integer_in(entry.1, 0, u32::MAX as int) is Some
    &&& entry.0 == key(7) ==> templates_of(entry.1) is Some
}

/// What is wrong with an entry of the response map, if anything: an entry
/// that cannot be taken is a type mismatch.
pub open spec fn entry_error(entry: (CborNode, CborNode)) -> Option<DecodeError> {
    if entry_ok(entry) {
        None
    } else {
        Some(DecodeError::TypeMismatch)
    }
}

/// The rule by which the entries of the response map are checked.
pub open spec fn check() -> EntryCheck {
    |entry: (CborNode, CborNode)| entry_error(entry)
}

/// The record that the entries of a response map stand for.
pub open spec fn record_of(entries: Seq<(CborNode, CborNode)>) -> BioEnrollmentModel {
    BioEnrollmentModel {
        modality: u32_field(entries, key(1)),
        fingerprint_kind: u32_field(entries, key(2)),
        max_capture_samples_required_for_enroll: u32_field(entries, key(3)),
        template_infos: templates_field(entries),
        max_template_friendly_name: u32_field(entries, key(8)),
    }
}

/// The bio-enrollment data that a CBOR item stands for. The item must be a
/// map; an entry that cannot be taken is a type mismatch.
pub open spec fn bio_enrollment_of(node: CborNode) -> Result<BioEnrollmentModel, DecodeError> {
    match node {
        CborNode::Dict(entries) => match first_error(entries, check()) {
            Some(e) => Err(e),
            None => Ok(record_of(entries)),
        },
        _ => Err(DecodeError::NotAMap),
    }
}

/// Whether a key is one that the bio-enrollment response defines.
pub open spec fn is_known_key(k: CborNode) -> bool {
    k == key(1) || k == key(2) || k == key(3) || k == key(7) || k == key(8)
}

/// Forward compatibility: an entry under a key that the response does not
/// define, added anywhere in the map, changes nothing of what is decoded,
/// neither the record nor whether there is one.
pub proof fn lemma_unknown_key_ignored(
    entries: Seq<(CborNode, CborNode)>,
    at: int,
    extra: (CborNode, CborNode),
)
    requires
        0 <= at <= entries.len(),
        !is_known_key(extra.0),
    ensures
        bio_enrollment_of(CborNode::Dict(entries.insert(at, extra))) == bio_enrollment_of(
            CborNode::Dict(entries),
        ),
{
    let more = entries.insert(at, extra);
    lemma_lookup_insert(entries, at, extra, key(1));
    lemma_lookup_insert(entries, at, extra, key(2));
    lemma_lookup_insert(entries, at, extra, key(3));
    lemma_lookup_insert(entries, at, extra, key(7));
    lemma_lookup_insert(entries, at, extra, key(8));
    assert(record_of(more) == record_of(entries));
    lemma_first_error_insert(entries, at, extra, check());
}

/// The bio-enrollment data that response bytes stand for.
pub open spec fn bio_enrollment_parsed(bytes: Seq<u8>) -> Result<BioEnrollmentModel, DecodeError> {
    match cbor_decoded(bytes) {
        Some(node) => bio_enrollment_of(node),
        None => Err(DecodeError::InvalidCbor),
    }
}

fn template_from(item: &CborValue) -> (r: Option<TemplateInfo>)
    ensures
        match template_of(item@) {
            Some(model) => r matches Some(t) && t@ == model,
            None => r is None,
        },
{
    let entries = match item.entries() {
        Some(entries) => entries,
        None => {
            return None;
        },
    };
    let ghost all = pairs(entries@);
    let mut template = TemplateInfo::default();
    let mut i: usize = 0;
    assert(all.take(0) =~= Seq::<(CborNode, CborNode)>::empty());
    while i < entries.len()
        invariant
            i <= entries.len(),
            all == pairs(entries@),
            item@ == CborNode::Dict(all),
            forall|j: int| 0 <= j < i ==> template_entry_ok(#[trigger] all[j]),
            template.template_id@ == bytes_field(all.take(i as int), key(1)),
            template.template_friendly_name@ == text_field(all.take(i as int), key(2)),
        decreases entries.len() - i,
    {
        proof {
            lemma_lookup_step(all, i as int, key(1));
            lemma_lookup_step(all, i as int, key(2));
        }
        let entry = &entries[i];
        if is_key(&entry.0, 1) {
            match entry.1.to_bytes() {
                Some(id) => {
                    template.template_id = id;
                },
                None => {
                    assert(!template_entry_ok(all[i as int]));
                    return None;
                },
            }
        } else if is_key(&entry.0, 2) {
            match entry.1.to_text() {
                Some(name) => {
                    template.template_friendly_name = name;
                },
                None => {
                    assert(!template_entry_ok(all[i as int]));
                    return None;
                },
            }
        }
        i += 1;
    }
    assert(all.take(i as int) =~= all);
    assert(template@ =~= template_of(item@)->0);
    Some(template)
}

fn templates_from(item: &CborValue) -> (r: Option<Vec<TemplateInfo>>)
    ensures
        match templates_of(item@) {
            Some(list) => r matches Some(out) && templates_view(out@) == list,
            None => r is None,
        },
{
    let items = match item.items() {
        Some(items) => items,
        None => {
            return None;
        },
    };
    let ghost all = nodes(items@);
    let mut out: Vec<TemplateInfo> = Vec::new();
    let mut i: usize = 0;
    while i < items.len()
        invariant
            i <= items.len(),
            all == nodes(items@),
            item@ == CborNode::Array(all),
            out@.len() == i,
            forall|j: int| 0 <= j < i ==> template_of(#[trigger] all[j]) is Some,
            forall|j: int| 0 <= j < i ==> (#[trigger] out@[j])@ == template_of(all[j])->0,
        decreases items.len() - i,
    {
        match template_from(&items[i]) {
            Some(t) => {
                out.push(t);
            },
            None => {
                assert(template_of(all[i as int]) is None);
                return None;
            },
        }
        i += 1;
    }
    assert(templates_view(out@) =~= templates_of(item@)->0);
    Some(out)
}

/// Decodes bio-enrollment data from the CBOR item of a response.
pub fn from_cbor(item: &CborValue) -> (r: Result<BioEnrollmentData, DecodeError>)
    ensures
        agrees(r, bio_enrollment_of(item@)),
{
    let entries = match item.entries() {
        Some(entries) => entries,
        None => {
            return Err(DecodeError::NotAMap);
        },
    };
    let ghost all = pairs(entries@);
    let mut data = BioEnrollmentData::default();
    let mut i: usize = 0;
    assert(all.take(0) =~= Seq::<(CborNode, CborNode)>::empty());
    while i < entries.len()
        invariant
            i <= entries.len(),
            all == pairs(entries@),
            item@ == CborNode::Dict(all),
            first_error(all.take(i as int), check()) is None,
            data.modality == u32_field(all.take(i as int), key(1)),
            data.fingerprint_kind == u32_field(all.take(i as int), key(2)),
            data.max_capture_samples_required_for_enroll == u32_field(all.take(i as int), key(3)),
            templates_view(data.template_infos@) == templates_field(all.take(i as int)),
            data.max_template_friendly_name == u32_field(all.take(i as int), key(8)),
        decreases entries.len() - i,
    {
        proof {
            lemma_first_error_step(all, i as int, check());
            if entry_error(all[i as int]) is Some {
                lemma_first_error_prefix(all, i + 1, check());
            }
            lemma_lookup_step(all, i as int, key(1));
            lemma_lookup_step(all, i as int, key(2));
            lemma_lookup_step(all, i as int, key(3));
            lemma_lookup_step(all, i as int, key(7));
            lemma_lookup_step(all, i as int, key(8));
        }
        let entry = &entries[i];
        if is_key(&entry.0, 1) {
            match entry.1.to_u32() {
                Some(n) => {
                    data.modality = n;
                },
                None => {
                    assert(!entry_ok(all[i as int]));
                    return Err(DecodeError::TypeMismatch);
                },
            }
        } else if is_key(&entry.0, 2) {
            match entry.1.to_u32() {
                Some(n) => {
                    data.fingerprint_kind = n;
                },
                None => {
                    assert(!entry_ok(all[i as int]));
                    return Err(DecodeError::TypeMismatch);
                },
            }
        } else if is_key(&entry.0, 3) {
            match entry.1.to_u32() {
                Some(n) => {
                    data.max_capture_samples_required_for_enroll = n;
                },
                None => {
                    assert(!entry_ok(all[i as int]));
                    return Err(DecodeError::TypeMismatch);
                },
            }
        } else if is_key(&entry.0, 7) {
            match templates_from(&entry.1) {
                Some(list) => {
                    data.template_infos = list;
                },
                None => {
                    assert(!entry_ok(all[i as int]));
                    return Err(DecodeError::TypeMismatch);
                },
            }
        } else if is_key(&entry.0, 8) {
            match entry.1.to_u32() {
                Some(n) => {
                    data.max_template_friendly_name = n;
                },
                None => {
                    assert(!entry_ok(all[i as int]));
                    return Err(DecodeError::TypeMismatch);
                },
            }
        }
        i += 1;
    }
    assert(all.take(i as int) =~= all);
    assert(data@ =~= record_of(all));
    Ok(data)
}

/// Decodes bio-enrollment data from the CBOR bytes of a response.
pub fn parse_cbor(bytes: &[u8]) -> (r: Result<BioEnrollmentData, DecodeError>)
    ensures
        agrees(r, bio_enrollment_parsed(bytes@)),
{
    match decode(bytes) {
        Ok(item) => from_cbor(&item),
        Err(e) => Err(e),
    }
}

} // verus!
