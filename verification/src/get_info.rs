//! What an authenticator says of itself, and what follows for the caller.
//!
//! The get-info response is a map. Key 1 holds the protocol versions, key 2
//! the extensions, key 3 the AAGUID, key 4 the options, key 5 the largest
//! message size and key 6 the PIN/UV auth protocols. Other keys are passed
//! over.
//!
//! Whether an authenticator supports a feature is read from its options. A
//! feature that went from a preview to the final protocol has two option
//! names, and authenticators announce one, both or neither.

use crate::cbor::{
    bool_of, bytes_of, cbor_decoded, decode, integer_in, lemma_lookup_insert, lookup, nodes,
    pairs, text_of, CborNode, CborValue,
};
use crate::error::DecodeError;
use crate::fields::{
    agrees, bytes_field, first_error, is_key, key, lemma_first_error_insert,
    lemma_first_error_prefix, lemma_first_error_step, lemma_lookup_step, u32_field, EntryCheck,
};
use vstd::prelude::*;

verus! {

/// The decoded get-info response.
#[derive(Debug, Clone, PartialEq, Eq)]
pub struct Info {
    pub versions: Vec<String>,
    pub extensions: Vec<String>,
    pub aaguid: Vec<u8>,
    pub options: Vec<(String, bool)>,
    pub max_msg_size: u32,
    pub pin_uv_auth_protocols: Vec<u32>,
}

/// The get-info response as a mathematical value.
#[verifier::ext_equal]
pub struct InfoModel {
    pub versions: Seq<Seq<char>>,
    pub extensions: Seq<Seq<char>>,
    pub aaguid: Seq<u8>,
    pub options: Seq<(Seq<char>, bool)>,
    pub max_msg_size: u32,
    pub pin_uv_auth_protocols: Seq<u32>,
}

/// The texts of a list, each as a sequence of characters.
pub open spec fn texts_view(list: Seq<String>) -> Seq<Seq<char>> {
    Seq::new(list.len(), |i: int| list[i]@)
}

/// The options of a list, each name as a sequence of characters.
pub open spec fn options_view(list: Seq<(String, bool)>) -> Seq<(Seq<char>, bool)> {
    Seq::new(list.len(), |i: int| (list[i].0@, list[i].1))
}

impl View for Info {
    type V = InfoModel;

    open spec fn view(&self) -> InfoModel {
        InfoModel {
            versions: texts_view(self.versions@),
            extensions: texts_view(self.extensions@),
            aaguid: self.aaguid@,
            options: options_view(self.options@),
            max_msg_size: self.max_msg_size,
            pin_uv_auth_protocols: self.pin_uv_auth_protocols@,
        }
    }
}

impl InfoModel {
    /// The response with every field at its default.
    pub open spec fn empty() -> InfoModel {
        InfoModel {
            versions: Seq::empty(),
            extensions: Seq::empty(),
            aaguid: Seq::empty(),
            options: Seq::empty(),
            max_msg_size: 0,
            pin_uv_auth_protocols: Seq::empty(),
        }
    }
}

impl Default for Info {
    fn default() -> (r: Self)
        ensures
            r@ == InfoModel::empty(),
    {
        let r = Info {
            versions: Vec::new(),
            extensions: Vec::new(),
            aaguid: Vec::new(),
            options: Vec::new(),
            max_msg_size: 0,
            pin_uv_auth_protocols: Vec::new(),
        };
        assert(r@ =~= InfoModel::empty());
        r
    }
}

/// The texts that an item stands for, where it is an array of text strings.
pub open spec fn texts_of(node: CborNode) -> Option<Seq<Seq<char>>> {
    match node {
        CborNode::Array(items) => if forall|i: int|
            0 <= i < items.len() ==> text_of(#[trigger] items[i]) is Some {
            Some(Seq::new(items.len(), |i: int| text_of(items[i])->0))
        } else {
            None
        },
        _ => None,
    }
}

/// The numbers that an item stands for, where it is an array of unsigned
/// 32-bit numbers.
pub open spec fn numbers_of(node: CborNode) -> Option<Seq<u32>> {
    match node {
        CborNode::Array(items) => if forall|i: int|
            0 <= i < items.len() ==> integer_in(#[trigger] items[i], 0, u32::MAX as int) is Some {
            Some(Seq::new(items.len(), |i: int| integer_in(items[i], 0, u32::MAX as int)->0 as u32))
        } else {
            None
        },
        _ => None,
    }
}

/// The option that an entry of the option map stands for: its name and its
/// value, where the name is text and the value a boolean.
pub open spec fn option_in(entry: (CborNode, CborNode)) -> Option<(Seq<char>, bool)> {
    match (text_of(entry.0), bool_of(entry.1)) {
        (Some(name), Some(value)) => Some((name, value)),
        _ => None,
    }
}

/// The options that the entries of an option map stand for, in the order of
/// the entries. An entry that is no option is passed over.
pub open spec fn listed_options(entries: Seq<(CborNode, CborNode)>) -> Seq<(Seq<char>, bool)>
    decreases entries.len(),
{
    if entries.len() == 0 {
        Seq::empty()
    } else {
        match option_in(entries.last()) {
            Some(o) => listed_options(entries.drop_last()).push(o),
            None => listed_options(entries.drop_last()),
        }
    }
}

/// The options that an item stands for, where it is a map.
pub open spec fn options_of(node: CborNode) -> Option<Seq<(Seq<char>, bool)>> {
    match node {
        CborNode::Dict(entries) => Some(listed_options(entries)),
        _ => None,
    }
}

/// Whether an entry of the response map can be taken.
pub open spec fn entry_ok(entry: (CborNode, CborNode)) -> bool {
    &&& (entry.0 == key(1) || entry.0 == key(2)) ==> texts_of(entry.1) is Some
    &&& entry.0 == key(3) ==> bytes_of(entry.1) is Some
    &&& entry.0 == key(4) ==> options_of(entry.1) is Some
    &&& entry.0 == key(5) ==> integer_in(entry.1, 0, u32::MAX as int) is Some
    &&& entry.0 == key(6) ==> numbers_of(entry.1) is Some
}

/// What is wrong with an entry of the response map, if anything: an entry
/// that cannot be taken is a type mismatch.
pub open spec fn entry_error(entry: (CborNode, CborNode)) -> Option<DecodeError> {
    if entry_ok(entry) {
        None
    } else {
        Some(DecodeError::TypeMismatch)
    }
}

/// The rule by which the entries of the response map are checked.
pub open spec fn check() -> EntryCheck {
    |entry: (CborNode, CborNode)| entry_error(entry)
}

/// The texts under a key, or none.
pub open spec fn texts_field(entries: Seq<(CborNode, CborNode)>, k: CborNode) -> Seq<Seq<char>> {
    match lookup(entries, k) {
        Some(v) => match texts_of(v) {
            Some(list) => list,
            None => Seq::empty(),
        },
        None => Seq::empty(),
    }
}

/// The options under key 4, or none.
pub open spec fn options_field(entries: Seq<(CborNode, CborNode)>) -> Seq<(Seq<char>, bool)> {
    match lookup(entries, key(4)) {
        Some(v) => match options_of(v) {
            Some(list) => list,
            None => Seq::empty(),
        },
        None => Seq::empty(),
    }
}

/// The numbers under key 6, or none.
pub open spec fn numbers_field(entries: Seq<(CborNode, CborNode)>) -> Seq<u32> {
    match lookup(entries, key(6)) {
        Some(v) => match numbers_of(v) {
            Some(list) => list,
            None => Seq::empty(),
        },
        None => Seq::empty(),
    }
}

/// The record that the entries of a response map stand for.
pub open spec fn record_of(entries: Seq<(CborNode, CborNode)>) -> InfoModel {
    InfoModel {
        versions: texts_field(entries, key(1)),
        extensions: texts_field(entries, key(2)),
        aaguid: bytes_field(entries, key(3)),
        options: options_field(entries),
        max_msg_size: u32_field(entries, key(5)),
        pin_uv_auth_protocols: numbers_field(entries),
    }
}

/// The get-info response that a CBOR item stands for. The item must be a
/// map; an entry that cannot be taken is a type mismatch.
pub open spec fn info_of(node: CborNode) -> Result<InfoModel, DecodeError> {
    match node {
        CborNode::Dict(entries) => match first_error(entries, check()) {
            Some(e) => Err(e),
            None => Ok(record_of(entries)),
        },
        _ => Err(DecodeError::NotAMap),
    }
}

/// The get-info response that response bytes stand for.
pub open spec fn info_parsed(bytes: Seq<u8>) -> Result<InfoModel, DecodeError> {
    match cbor_decoded(bytes) {
        Some(node) => info_of(node),
        None => Err(DecodeError::InvalidCbor),
    }
}

fn texts_from(item: &CborValue) -> (r: Option<Vec<String>>)
    ensures
        match texts_of(item@) {
            Some(list) => r matches Some(out) && texts_view(out@) == list,
            None => r is None,
        },
{
    let items = match item.items() {
        Some(items) => items,
        None => {
            return None;
        },
    };
    let ghost all = nodes(items@);
    let mut out: Vec<String> = Vec::new();
    let mut i: usize = 0;
    while i < items.len()
        invariant
            i <= items.len(),
            all == nodes(items@),
            item@ == CborNode::Array(all),
            out@.len() == i,
            forall|j: int| 0 <= j < i ==> text_of(#[trigger] all[j]) is Some,
            forall|j: int| 0 <= j < i ==> (#[trigger] out@[j])@ == text_of(all[j])->0,
        decreases items.len() - i,
    {
        match items[i].to_text() {
            Some(text) => {
                out.push(text);
            },
            None => {
                assert(text_of(all[i as int]) is None);
                return None;
            },
        }
        i += 1;
    }
    assert(texts_view(out@) =~= texts_of(item@)->0);
    Some(out)
}

fn numbers_from(item: &CborValue) -> (r: Option<Vec<u32>>)
    ensures
        match numbers_of(item@) {
            Some(list) => r matches Some(out) && out@ == list,
            None => r is None,
        },
{
    let items = match item.items() {
        Some(items) => items,
        None => {
            return None;
        },
    };
    let ghost all = nodes(items@);
    let mut out: Vec<u32> = Vec::new();
    let mut i: usize = 0;
    while i < items.len()
        invariant
            i <= items.len(),
            all == nodes(items@),
            item@ == CborNode::Array(all),
            out@.len() == i,
            forall|j: int|
                0 <= j < i ==> integer_in(#[trigger] all[j], 0, u32::MAX as int) is Some,
            forall|j: int|
                0 <= j < i ==> (#[trigger] out@[j]) == integer_in(all[j], 0, u32::MAX as int)->0,
        decreases items.len() - i,
    {
        match items[i].to_u32() {
            Some(n) => {
                out.push(n);
            },
            None => {
                assert(integer_in(all[i as int], 0, u32::MAX as int) is None);
                return None;
            },
        }
        i += 1;
    }
    assert(out@ =~= numbers_of(item@)->0);
    Some(out)
}

fn options_from(item: &CborValue) -> (r: Option<Vec<(String, bool)>>)
    ensures
        match options_of(item@) {
            Some(list) => r matches Some(out) && options_view(out@) == list,
            None => r is None,
        },
{
    let entries = match item.entries() {
        Some(entries) => entries,
        None => {
            return None;
        },
    };
    let ghost all = pairs(entries@);
    let mut out: Vec<(String, bool)> = Vec::new();
    let mut i: usize = 0;
    assert(all.take(0) =~= Seq::<(CborNode, CborNode)>::empty());
    while i < entries.len()
        invariant
            i <= entries.len(),
            all == pairs(entries@),
            item@ == CborNode::Dict(all),
            options_view(out@) == listed_options(all.take(i as int)),
        decreases entries.len() - i,
    {
        proof {
            assert(all.take(i + 1).drop_last() =~= all.take(i as int));
            assert(all.take(i + 1).last() == all[i as int]);
        }
        let ghost before = options_view(out@);
        let entry = &entries[i];
        match (entry.0.to_text(), entry.1.to_bool()) {
            (Some(name), Some(value)) => {
                out.push((name, value));
                assert(options_view(out@) =~= before.push((name@, value)));
            },
            _ => {},
        }
        i += 1;
    }
    assert(all.take(i as int) =~= all);
    Some(out)
}

/// Decodes the get-info response from the CBOR item of a response.
pub fn from_cbor(item: &CborValue) -> (r: Result<Info, DecodeError>)
    ensures
        agrees(r, info_of(item@)),
{
    let entries = match item.entries() {
        Some(entries) => entries,
        None => {
            return Err(DecodeError::NotAMap);
        },
    };
    let ghost all = pairs(entries@);
    let mut info = Info::default();
    let mut i: usize = 0;
    assert(all.take(0) =~= Seq::<(CborNode, CborNode)>::empty());
    while i < entries.len()
        invariant
            i <= entries.len(),
            all == pairs(entries@),
            item@ == CborNode::Dict(all),
            first_error(all.take(i as int), check()) is None,
            texts_view(info.versions@) == texts_field(all.take(i as int), key(1)),
            texts_view(info.extensions@) == texts_field(all.take(i as int), key(2)),
            info.aaguid@ == bytes_field(all.take(i as int), key(3)),
            options_view(info.options@) == options_field(all.take(i as int)),
            info.max_msg_size == u32_field(all.take(i as int), key(5)),
            info.pin_uv_auth_protocols@ == numbers_field(all.take(i as int)),
        decreases entries.len() - i,
    {
        proof {
            lemma_first_error_step(all, i as int, check());
            if entry_error(all[i as int]) is Some {
                lemma_first_error_prefix(all, i + 1, check());
            }
            lemma_lookup_step(all, i as int, key(1));
            lemma_lookup_step(all, i as int, key(2));
            lemma_lookup_step(all, i as int, key(3));
            lemma_lookup_step(all, i as int, key(4));
            lemma_lookup_step(all, i as int, key(5));
            lemma_lookup_step(all, i as int, key(6));
        }
        let entry = &entries[i];
        if is_key(&entry.0, 1) {
            match texts_from(&entry.1) {
                Some(list) => {
                    info.versions = list;
                },
                None => {
                    assert(!entry_ok(all[i as int]));
                    return Err(DecodeError::TypeMismatch);
                },
            }
        } else if is_key(&entry.0, 2) {
            match texts_from(&entry.1) {
                Some(list) => {
                    info.extensions = list;
                },
                None => {
                    assert(!entry_ok(all[i as int]));
                    return Err(DecodeError::TypeMismatch);
                },
            }
        } else if is_key(&entry.0, 3) {
            match entry.1.to_bytes() {
                Some(aaguid) => {
                    info.aaguid = aaguid;
                },
                None => {
                    assert(!entry_ok(all[i as int]));
                    return Err(DecodeError::TypeMismatch);
                },
            }
        } else if is_key(&entry.0, 4) {
            match options_from(&entry.1) {
                Some(list) => {
                    info.options = list;
                },
                None => {
                    assert(!entry_ok(all[i as int]));
                    return Err(DecodeError::TypeMismatch);
                },
            }
        } else if is_key(&entry.0, 5) {
            match entry.1.to_u32() {
                Some(n) => {
                    info.max_msg_size = n;
                },
                None => {
                    assert(!entry_ok(all[i as int]));
                    return Err(DecodeError::TypeMismatch);
                },
            }
        } else if is_key(&entry.0, 6) {
            match numbers_from(&entry.1) {
                Some(list) => {
                    info.pin_uv_auth_protocols = list;
                },
                None => {
                    assert(!entry_ok(all[i as int]));
                    return Err(DecodeError::TypeMismatch);
                },
            }
        }
        i += 1;
    }
    assert(all.take(i as int) =~= all);
    assert(info@ =~= record_of(all));
    Ok(info)
}

/// Decodes the get-info response from the CBOR bytes of a response.
pub fn parse_cbor(bytes: &[u8]) -> (r: Result<Info, DecodeError>)
    ensures
        agrees(r, info_parsed(bytes@)),
{
    match decode(bytes) {
        Ok(item) => from_cbor(&item),
        Err(e) => Err(e),
    }
}

/// Whether a key is one that the decoder of the get-info response knows.
pub open spec fn is_known_key(k: CborNode) -> bool {
    k == key(1) || k == key(2) || k == key(3) || k == key(4) || k == key(5) || k == key(6)
}

/// Forward compatibility: an entry under a key that the decoder does not
/// know, added anywhere in the map, changes nothing of what is decoded,
/// neither the record nor whether there is one.
pub proof fn lemma_unknown_key_ignored(
    entries: Seq<(CborNode, CborNode)>,
    at: int,
    extra: (CborNode, CborNode),
)
    requires
        0 <= at <= entries.len(),
        !is_known_key(extra.0),
    ensures
        info_of(CborNode::Dict(entries.insert(at, extra))) == info_of(CborNode::Dict(entries)),
{
    let more = entries.insert(at, extra);
    lemma_lookup_insert(entries, at, extra, key(1));
    lemma_lookup_insert(entries, at, extra, key(2));
    lemma_lookup_insert(entries, at, extra, key(3));
    lemma_lookup_insert(entries, at, extra, key(4));
    lemma_lookup_insert(entries, at, extra, key(5));
    lemma_lookup_insert(entries, at, extra, key(6));
    assert(record_of(more) == record_of(entries));
    lemma_first_error_insert(entries, at, extra, check());
}

/// The options that an authenticator can announce.
#[derive(Debug, Clone, Copy, PartialEq, Eq, Structural)]
pub enum InfoOption {
    Rk,
    Up,
    Uv,
    Plat,
    ClientPin,
    CredentialMgmtPreview,
    CredMgmt,
    UserVerificationMgmtPreview,
    BioEnroll,
}

impl InfoOption {
    /// The name under which the option stands in the option map.
    pub open spec fn name(self) -> Seq<char> {
        match self {
            InfoOption::Rk => "rk"@,
            InfoOption::Up => "up"@,
            InfoOption::Uv => "uv"@,
            InfoOption::Plat => "plat"@,
            InfoOption::ClientPin => "clientPin"@,
            InfoOption::CredentialMgmtPreview => "credentialMgmtPreview"@,
            InfoOption::CredMgmt => "credMgmt"@,
            InfoOption::UserVerificationMgmtPreview => "userVerificationMgmtPreview"@,
            InfoOption::BioEnroll => "bioEnroll"@,
        }
    }

    /// The name under which the option stands in the option map.
    pub fn as_str(self) -> (s: &'static str)
        ensures
            s@ == self.name(),
    {
        match self {
            InfoOption::Rk => "rk",
            InfoOption::Up => "up",
            InfoOption::Uv => "uv",
            InfoOption::Plat => "plat",
            InfoOption::ClientPin => "clientPin",
            InfoOption::CredentialMgmtPreview => "credentialMgmtPreview",
            InfoOption::CredMgmt => "credMgmt",
            InfoOption::UserVerificationMgmtPreview => "userVerificationMgmtPreview",
            InfoOption::BioEnroll => "bioEnroll",
        }
    }
}

/// The value of the first option with the name, if there is one.
pub open spec fn option_value(options: Seq<(Seq<char>, bool)>, name: Seq<char>) -> Option<bool>
    decreases options.len(),
{
    if options.len() == 0 {
        None
    } else if options[0].0 == name {
        Some(options[0].1)
    } else {
        option_value(options.drop_first(), name)
    }
}

/// The value that the authenticator announces for an option, if it
/// announces the option at all.
pub fn enable_info_option(info: &Info, option: InfoOption) -> (r: Option<bool>)
    ensures
        r == option_value(info@.options, option.name()),
{
    let wanted = String::from_str(option.as_str());
    let ghost all = options_view(info.options@);
    let mut i: usize = 0;
    assert(all.skip(0) =~= all);
    while i < info.options.len()
        invariant
            i <= info.options.len(),
            all == options_view(info.options@),
            wanted@ == option.name(),
            option_value(all, option.name()) == option_value(all.skip(i as int), option.name()),
        decreases info.options.len() - i,
    {
        proof {
            assert(all.skip(i as int)[0] == all[i as int]);
            assert(all.skip(i as int).drop_first() =~= all.skip(i + 1));
        }
        if info.options[i].0 == wanted {
            return Some(info.options[i].1);
        }
        i += 1;
    }
    None
}

/// The versions and extensions that an authenticator can announce.
#[derive(Debug, Clone, Copy, PartialEq, Eq, Structural)]
pub enum InfoParam {
    VersionsU2Fv2,
    VersionsFido20,
    VersionsFido21Pre,
    VersionsFido21,
    ExtensionsCredProtect,
    ExtensionsCredBlob,
    ExtensionsLargeBlobKey,
    ExtensionsMinPinLength,
    ExtensionsHmacSecret,
}

impl InfoParam {
    /// The text that announces the version or extension.
    pub open spec fn name(self) -> Seq<char> {
        match self {
            InfoParam::VersionsU2Fv2 => "U2F_V2"@,
            InfoParam::VersionsFido20 => "FIDO_2_0"@,
            InfoParam::VersionsFido21Pre => "FIDO_2_1_PRE"@,
            InfoParam::VersionsFido21 => "FIDO_2_1"@,
            InfoParam::ExtensionsCredProtect => "credProtect"@,
            InfoParam::ExtensionsCredBlob => "credBlob"@,
            InfoParam::ExtensionsLargeBlobKey => "largeBlobKey"@,
            InfoParam::ExtensionsMinPinLength => "minPinLength"@,
            InfoParam::ExtensionsHmacSecret => "hmac-secret"@,
        }
    }

    /// Whether the text stands among the versions; else it stands among the
    /// extensions.
    pub open spec fn is_version(self) -> bool {
        self == InfoParam::VersionsU2Fv2 || self == InfoParam::VersionsFido20 || self
            == InfoParam::VersionsFido21Pre || self == InfoParam::VersionsFido21
    }

    /// The text that announces the version or extension.
    pub fn as_str(self) -> (s: &'static str)
        ensures
            s@ == self.name(),
    {
        match self {
            InfoParam::VersionsU2Fv2 => "U2F_V2",
            InfoParam::VersionsFido20 => "FIDO_2_0",
            InfoParam::VersionsFido21Pre => "FIDO_2_1_PRE",
            InfoParam::VersionsFido21 => "FIDO_2_1",
            InfoParam::ExtensionsCredProtect => "credProtect",
            InfoParam::ExtensionsCredBlob => "credBlob",
            InfoParam::ExtensionsLargeBlobKey => "largeBlobKey",
            InfoParam::ExtensionsMinPinLength => "minPinLength",
            InfoParam::ExtensionsHmacSecret => "hmac-secret",
        }
    }
}

fn holds_text(list: &Vec<String>, wanted: &str) -> (r: bool)
    ensures
        r == texts_view(list@).contains(wanted@),
{
    let text = String::from_str(wanted);
    let ghost all = texts_view(list@);
    let mut i: usize = 0;
    while i < list.len()
        invariant
            i <= list.len(),
            all == texts_view(list@),
            text@ == wanted@,
            forall|j: int| 0 <= j < i ==> all[j] != wanted@,
        decreases list.len() - i,
    {
        if list[i] == text {
            assert(all[i as int] == wanted@);
            return true;
        }
        i += 1;
    }
    false
}

/// Whether the authenticator announces a version or an extension.
pub fn enable_info_param(info: &Info, param: InfoParam) -> (r: bool)
    ensures
        r == (if param.is_version() {
            info@.versions.contains(param.name())
        } else {
            info@.extensions.contains(param.name())
        }),
{
    match param {
        InfoParam::VersionsU2Fv2
        | InfoParam::VersionsFido20
        | InfoParam::VersionsFido21Pre
        | InfoParam::VersionsFido21 => holds_text(&info.versions, param.as_str()),
        _ => holds_text(&info.extensions, param.as_str()),
    }
}

/// A feature that has an option name of the final protocol and one of the
/// preview.
#[derive(Debug, Clone, Copy, PartialEq, Eq, Structural)]
pub enum Capability {
    CredentialManagement,
    BioEnrollment,
}

impl Capability {
    /// The option of the final protocol.
    pub open spec fn modern(self) -> InfoOption {
        match self {
            Capability::CredentialManagement => InfoOption::CredMgmt,
            Capability::BioEnrollment => InfoOption::BioEnroll,
        }
    }

    /// The option of the preview.
    pub open spec fn legacy(self) -> InfoOption {
        match self {
            Capability::CredentialManagement => InfoOption::CredentialMgmtPreview,
            Capability::BioEnrollment => InfoOption::UserVerificationMgmtPreview,
        }
    }

    /// The option of the final protocol.
    pub fn modern_option(self) -> (o: InfoOption)
        ensures
            o == self.modern(),
    {
        match self {
            Capability::CredentialManagement => InfoOption::CredMgmt,
            Capability::BioEnrollment => InfoOption::BioEnroll,
        }
    }

    /// The option of the preview.
    pub fn legacy_option(self) -> (o: InfoOption)
        ensures
            o == self.legacy(),
    {
        match self {
            Capability::CredentialManagement => InfoOption::CredentialMgmtPreview,
            Capability::BioEnrollment => InfoOption::UserVerificationMgmtPreview,
        }
    }
}

/// What the options say of a feature.
#[derive(Debug, Clone, Copy, PartialEq, Eq, Structural)]
pub enum Probe {
    /// The option of the final protocol is announced, with this value.
    Modern(bool),
    /// Only the option of the preview is announced, with this value.
    Legacy(bool),
    /// Neither option is announced.
    Unsupported,
}

impl Probe {
    /// Whether the feature can be used: an option is announced and true.
    pub open spec fn supported(self) -> bool {
        self == Probe::Modern(true) || self == Probe::Legacy(true)
    }

    /// Whether the feature can be used, and under the preview's commands.
    pub open spec fn preview(self) -> bool {
        self == Probe::Legacy(true)
    }

    /// The command byte under which the feature is to be asked for: that
    /// of the final protocol or that of the preview, as the authenticator
    /// announces it; none where the feature cannot be used.
    pub open spec fn command_of(self, modern: u8, preview: u8) -> Option<u8> {
        if self == Probe::Modern(true) {
            Some(modern)
        } else if self == Probe::Legacy(true) {
            Some(preview)
        } else {
            None
        }
    }

    /// Picks the command byte under which the feature is to be asked for.
    pub fn command(self, modern: u8, preview: u8) -> (r: Option<u8>)
        ensures
            r == self.command_of(modern, preview),
            r is Some <==> self.supported(),
    {
        match self {
            Probe::Modern(true) => Some(modern),
            Probe::Legacy(true) => Some(preview),
            _ => None,
        }
    }

    /// Whether the feature can be used.
    pub fn is_supported(self) -> (r: bool)
        ensures
            r == self.supported(),
    {
        match self {
            Probe::Modern(value) => value,
            Probe::Legacy(value) => value,
            Probe::Unsupported => false,
        }
    }
}

/// What the options say of a feature: the option of the final protocol
/// decides where it is announced, else that of the preview where it is
/// announced, else the feature is unsupported.
pub open spec fn probe_of(options: Seq<(Seq<char>, bool)>, feature: Capability) -> Probe {
    match option_value(options, feature.modern().name()) {
        Some(value) => Probe::Modern(value),
        None => match option_value(options, feature.legacy().name()) {
            Some(value) => Probe::Legacy(value),
            None => Probe::Unsupported,
        },
    }
}

/// Probes an authenticator for a feature.
pub fn probe(info: &Info, feature: Capability) -> (r: Probe)
    ensures
        r == probe_of(info@.options, feature),
{
    match enable_info_option(info, feature.modern_option()) {
        Some(value) => Probe::Modern(value),
        None => match enable_info_option(info, feature.legacy_option()) {
            Some(value) => Probe::Legacy(value),
            None => Probe::Unsupported,
        },
    }
}

/// Of the three branches of a probe exactly one fires, whatever the options
/// are: the final option is announced and decides; or it is not, the
/// preview's option is and decides; or neither is and the feature is
/// unsupported. An option that is absent and one that is false both leave
/// the feature unusable.
pub proof fn lemma_probe_branches(options: Seq<(Seq<char>, bool)>, feature: Capability)
    ensures
        ({
            let modern = option_value(options, feature.modern().name());
            let legacy = option_value(options, feature.legacy().name());
            let found = probe_of(options, feature);
            &&& (modern is Some) ==> found == Probe::Modern(modern->0)
            &&& (modern is None && legacy is Some) ==> found == Probe::Legacy(legacy->0)
            &&& (modern is None && legacy is None) ==> found == Probe::Unsupported
            &&& (found is Modern) <==> (modern is Some)
            &&& (found is Legacy) <==> (modern is None && legacy is Some)
            &&& (found is Unsupported) <==> (modern is None && legacy is None)
            &&& found.supported() <==> (modern == Some(true) || (modern is None && legacy == Some(
                true,
            )))
        }),
{
}

} // verus!
