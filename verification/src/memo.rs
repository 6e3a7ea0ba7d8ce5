//! Short notes kept as discoverable credentials.
//!
//! A note is a credential under one fixed relying party: the user id of the
//! credential is the note's tag, the user name its text. To find a note the
//! relying parties are enumerated, then the credentials of the one relying
//! party. This module holds the decisions; the caller runs the commands.

use crate::bytes::same_bytes;
use crate::credential_management_params::{
    credentials_view, rps_view, Credential, CredentialModel, Rp, RpModel,
};
use crate::public_key_credential_descriptor::PublicKeyCredentialDescriptor;
use crate::public_key_credential_user_entity::{PublicKeyCredentialUserEntity, UserEntityModel};
use vstd::prelude::*;
use vstd::slice::slice_to_vec;

verus! {

/// Whether the relying party at `i` is the first of the list with the id.
pub open spec fn is_first_rp(rps: Seq<RpModel>, rpid: Seq<char>, i: int) -> bool {
    &&& 0 <= i < rps.len()
    &&& rps[i].public_key_credential_rp_entity.id == rpid
    &&& forall|j: int| 0 <= j < i ==> (#[trigger] rps[j]).public_key_credential_rp_entity.id != rpid
}

/// Whether no relying party of the list has the id.
pub open spec fn no_rp(rps: Seq<RpModel>, rpid: Seq<char>) -> bool {
    forall|j: int| 0 <= j < rps.len() ==> (#[trigger] rps[j]).public_key_credential_rp_entity.id != rpid
}

/// Whether the credential at `i` is the first of the list with the tag as
/// its user id.
pub open spec fn is_first_credential(list: Seq<CredentialModel>, tag: Seq<u8>, i: int) -> bool {
    &&& 0 <= i < list.len()
    &&& list[i].public_key_credential_user_entity.id == tag
    &&& forall|j: int|
        0 <= j < i ==> (#[trigger] list[j]).public_key_credential_user_entity.id != tag
}

/// Whether no credential of the list has the tag as its user id.
pub open spec fn no_credential(list: Seq<CredentialModel>, tag: Seq<u8>) -> bool {
    forall|j: int|
        0 <= j < list.len() ==> (#[trigger] list[j]).public_key_credential_user_entity.id != tag
}

/// Finds the relying party with the id among those enumerated.
pub fn search_rp(rps: &Vec<Rp>, rpid: &str) -> (r: Option<usize>)
    ensures
        match r {
            Some(i) => is_first_rp(rps_view(rps@), rpid@, i as int),
            None => no_rp(rps_view(rps@), rpid@),
        },
{
    let wanted = String::from_str(rpid);
    let ghost all = rps_view(rps@);
    let mut i: usize = 0;
    while i < rps.len()
        invariant
            i <= rps.len(),
            all == rps_view(rps@),
            wanted@ == rpid@,
            forall|j: int|
                0 <= j < i ==> (#[trigger] all[j]).public_key_credential_rp_entity.id != rpid@,
        decreases rps.len() - i,
    {
        if rps[i].public_key_credential_rp_entity.id == wanted {
            assert(all[i as int].public_key_credential_rp_entity.id == rpid@);
            return Some(i);
        }
        i += 1;
    }
    None
}

/// Finds the credential with the tag among those enumerated.
pub fn search_credential(list: &Vec<Credential>, tag: &[u8]) -> (r: Option<usize>)
    ensures
        match r {
            Some(i) => is_first_credential(credentials_view(list@), tag@, i as int),
            None => no_credential(credentials_view(list@), tag@),
        },
{
    let ghost all = credentials_view(list@);
    let mut i: usize = 0;
    while i < list.len()
        invariant
            i <= list.len(),
            all == credentials_view(list@),
            forall|j: int|
                0 <= j < i ==> (#[trigger] all[j]).public_key_credential_user_entity.id != tag@,
        decreases list.len() - i,
    {
        if same_bytes(list[i].public_key_credential_user_entity.id.as_slice(), tag) {
            assert(all[i as int].public_key_credential_user_entity.id == tag@);
            return Some(i);
        }
        i += 1;
    }
    None
}

/// What to do about a note that is to be added.
#[derive(Debug, Clone, PartialEq, Eq)]
pub enum AddPlan {
    /// Create a discoverable credential for this user.
    Create(PublicKeyCredentialUserEntity),
    /// A note with the tag exists; nothing is created.
    TagExists,
}

/// What to do about a note that is to be deleted.
#[derive(Debug, Clone, PartialEq, Eq)]
pub enum DeletePlan {
    /// Delete the credential with this descriptor.
    Delete(PublicKeyCredentialDescriptor),
    /// No note has the tag.
    TagNotFound,
}

/// What came of looking a note up.
#[derive(Debug, Clone, PartialEq, Eq)]
pub enum GetPlan {
    /// The text of the note.
    Text(String),
    /// No note has the tag.
    TagNotFound,
}

/// The user under which a note is kept: the tag as id, the text as name.
pub open spec fn note_user(tag: Seq<u8>, text: Seq<char>) -> UserEntityModel {
    UserEntityModel { id: tag, name: text, display_name: Seq::empty() }
}

/// Decides on adding a note, given the credential that was found under the
/// tag, if any.
pub fn add_plan(existing: Option<&Credential>, tag: &[u8], text: &str) -> (r: AddPlan)
    ensures
        match existing {
            Some(_) => r is TagExists,
            None => r matches AddPlan::Create(user) && user@ == note_user(tag@, text@),
        },
{
    match existing {
        Some(_) => AddPlan::TagExists,
        None => AddPlan::Create(PublicKeyCredentialUserEntity::new(Some(tag), Some(text), None)),
    }
}

/// Decides on deleting a note, given the credential that was found under
/// the tag, if any.
pub fn delete_plan(existing: Option<&Credential>) -> (r: DeletePlan)
    ensures
        match existing {
            Some(found) => r matches DeletePlan::Delete(d) && d@
                == found@.public_key_credential_descriptor,
            None => r is TagNotFound,
        },
{
    match existing {
        Some(found) => DeletePlan::Delete(
            PublicKeyCredentialDescriptor {
                id: slice_to_vec(found.public_key_credential_descriptor.id.as_slice()),
                ctype: found.public_key_credential_descriptor.ctype.clone(),
            },
        ),
        None => DeletePlan::TagNotFound,
    }
}

/// Reads the text of a note, given the credential that was found under the
/// tag, if any.
pub fn get_plan(existing: Option<&Credential>) -> (r: GetPlan)
    ensures
        match existing {
            Some(found) => r matches GetPlan::Text(t) && t@
                == found@.public_key_credential_user_entity.name,
            None => r is TagNotFound,
        },
{
    match existing {
        Some(found) => GetPlan::Text(found.public_key_credential_user_entity.name.clone()),
        None => GetPlan::TagNotFound,
    }
}

/// The tags of a list of credentials, in order.
pub open spec fn tags_of(list: Seq<CredentialModel>) -> Seq<Seq<u8>> {
    Seq::new(list.len(), |i: int| list[i].public_key_credential_user_entity.id)
}

/// The byte strings of a list, each as a sequence.
pub open spec fn tags_view(list: Seq<Vec<u8>>) -> Seq<Seq<u8>> {
    Seq::new(list.len(), |i: int| list[i]@)
}

/// Lists the tags of the notes.
pub fn tags(list: &Vec<Credential>) -> (out: Vec<Vec<u8>>)
    ensures
        tags_view(out@) == tags_of(credentials_view(list@)),
{
    let ghost all = credentials_view(list@);
    let mut out: Vec<Vec<u8>> = Vec::new();
    let mut i: usize = 0;
    while i < list.len()
        invariant
            i <= list.len(),
            all == credentials_view(list@),
            out@.len() == i,
            forall|j: int|
                0 <= j < i ==> (#[trigger] out@[j])@
                    == all[j].public_key_credential_user_entity.id,
        decreases list.len() - i,
    {
        out.push(slice_to_vec(list[i].public_key_credential_user_entity.id.as_slice()));
        i += 1;
    }
    assert(tags_view(out@) =~= tags_of(all));
    out
}

/// A note that is added where none had its tag is the one found under the
/// tag afterwards, whatever else the authenticator holds, and a note that is
/// found is not added again.
pub proof fn lemma_added_note_is_found(
    list: Seq<CredentialModel>,
    added: CredentialModel,
    tag: Seq<u8>,
)
    requires
        no_credential(list, tag),
        added.public_key_credential_user_entity.id == tag,
    ensures
        is_first_credential(list.push(added), tag, list.len() as int),
        !no_credential(list.push(added), tag),
{
    let more = list.push(added);
    assert(more[list.len() as int] == added);
    assert forall|j: int| 0 <= j < list.len() implies (
    #[trigger] more[j]).public_key_credential_user_entity.id != tag by {
        assert(more[j] == list[j]);
    }
}

} // verus!
