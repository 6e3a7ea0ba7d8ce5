//! The user account that a credential belongs to.

use crate::cbor::{bytes_of, pairs, text_of, CborNode, CborValue};
use crate::fields::{bytes_field, is_name, lemma_lookup_step, name, text_field};
use vstd::prelude::*;
use vstd::slice::slice_to_vec;

verus! {

/// A user account: its id, its name and its display name.
#[derive(Debug, Clone, PartialEq, Eq)]
pub struct PublicKeyCredentialUserEntity {
    pub id: Vec<u8>,
    pub name: String,
    pub display_name: String,
}

/// A user account as a mathematical value.
#[verifier::ext_equal]
pub struct UserEntityModel {
    pub id: Seq<u8>,
    pub name: Seq<char>,
    pub display_name: Seq<char>,
}

impl View for PublicKeyCredentialUserEntity {
    type V = UserEntityModel;

    open spec fn view(&self) -> UserEntityModel {
        UserEntityModel { id: self.id@, name: self.name@, display_name: self.display_name@ }
    }
}

impl UserEntityModel {
    /// The user with an empty id and empty names.
    pub open spec fn empty() -> UserEntityModel {
        UserEntityModel { id: Seq::empty(), name: Seq::empty(), display_name: Seq::empty() }
    }
}

impl Default for PublicKeyCredentialUserEntity {
    fn default() -> (r: Self)
        ensures
            r@ == UserEntityModel::empty(),
    {
        PublicKeyCredentialUserEntity {
            id: Vec::new(),
            name: String::new(),
            display_name: String::new(),
        }
    }
}

/// The text of an optional text, empty where there is none.
pub open spec fn text_or_empty(text: Option<&str>) -> Seq<char> {
    match text {
        Some(t) => t@,
        None => Seq::empty(),
    }
}

/// The bytes of an optional byte string, empty where there is none.
pub open spec fn bytes_or_empty(bytes: Option<&[u8]>) -> Seq<u8> {
    match bytes {
        Some(b) => b@,
        None => Seq::empty(),
    }
}

/// Whether an entry of a user map can be taken: `id` holds bytes, `name`
/// and `displayName` hold text; other names are passed over.
pub open spec fn user_entry_ok(entry: (CborNode, CborNode)) -> bool {
    if entry.0 == name("id"@) {
        bytes_of(entry.1) is Some
    } else if entry.0 == name("name"@) || entry.0 == name("displayName"@) {
        text_of(entry.1) is Some
    } else {
        true
    }
}

/// The user that an item stands for, where it is a map whose entries can
/// all be taken.
pub open spec fn user_entity_of(node: CborNode) -> Option<UserEntityModel> {
    match node {
        CborNode::Dict(entries) => if forall|i: int|
            0 <= i < entries.len() ==> user_entry_ok(#[trigger] entries[i]) {
            Some(
                UserEntityModel {
                    id: bytes_field(entries, name("id"@)),
                    name: text_field(entries, name("name"@)),
                    display_name: text_field(entries, name("displayName"@)),
                },
            )
        } else {
            None
        },
        _ => None,
    }
}

impl PublicKeyCredentialUserEntity {
    /// A user from the parts that are known; the others stay empty.
    pub fn new(id: Option<&[u8]>, name: Option<&str>, display_name: Option<&str>) -> (r:
        PublicKeyCredentialUserEntity)
        ensures
            r@ == (UserEntityModel {
                id: bytes_or_empty(id),
                name: text_or_empty(name),
                display_name: text_or_empty(display_name),
            }),
    {
        let mut user = PublicKeyCredentialUserEntity::default();
        if let Some(bytes) = id {
            user.id = slice_to_vec(bytes);
        }
        if let Some(text) = name {
            user.name = String::from_str(text);
        }
        if let Some(text) = display_name {
            user.display_name = String::from_str(text);
        }
        user
    }

    /// Reads a user from its map.
    pub fn from_cbor(item: &CborValue) -> (r: Option<PublicKeyCredentialUserEntity>)
        ensures
            match user_entity_of(item@) {
                Some(model) => r matches Some(user) && user@ == model,
                None => r is None,
            },
    {
        let entries = match item.entries() {
            Some(entries) => entries,
            None => {
                return None;
            },
        };
        let ghost all = pairs(entries@);
        let mut user = PublicKeyCredentialUserEntity::default();
        let mut i: usize = 0;
        assert(all.take(0) =~= Seq::<(CborNode, CborNode)>::empty());
        while i < entries.len()
            invariant
                i <= entries.len(),
                all == pairs(entries@),
                item@ == CborNode::Dict(all),
                forall|j: int| 0 <= j < i ==> user_entry_ok(#[trigger] all[j]),
                user.id@ == bytes_field(all.take(i as int), name("id"@)),
                user.name@ == text_field(all.take(i as int), name("name"@)),
                user.display_name@ == text_field(all.take(i as int), name("displayName"@)),
            decreases entries.len() - i,
        {
            proof {
                reveal_strlit("id");
                reveal_strlit("name");
                reveal_strlit("displayName");
                assert("id"@.len() != "name"@.len());
                assert("id"@.len() != "displayName"@.len());
                assert("name"@.len() != "displayName"@.len());
                lemma_lookup_step(all, i as int, name("id"@));
                lemma_lookup_step(all, i as int, name("name"@));
                lemma_lookup_step(all, i as int, name("displayName"@));
            }
            let entry = &entries[i];
            if is_name(&entry.0, "id") {
                match entry.1.to_bytes() {
                    Some(bytes) => {
                        user.id = bytes;
                    },
                    None => {
                        assert(!user_entry_ok(all[i as int]));
                        return None;
                    },
                }
            } else if is_name(&entry.0, "name") {
                match entry.1.to_text() {
                    Some(text) => {
                        user.name = text;
                    },
                    None => {
                        assert(!user_entry_ok(all[i as int]));
                        return None;
                    },
                }
            } else if is_name(&entry.0, "displayName") {
                match entry.1.to_text() {
                    Some(text) => {
                        user.display_name = text;
                    },
                    None => {
                        assert(!user_entry_ok(all[i as int]));
                        return None;
                    },
                }
            }
            i += 1;
        }
        assert(all.take(i as int) =~= all);
        assert(user@ =~= user_entity_of(item@)->0);
        Some(user)
    }
}

} // verus!
