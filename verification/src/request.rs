//! The requests of the CTAP2 commands.
//!
//! A request is the command's identifier byte followed by the CBOR encoding
//! of its parameters, a map whose keys the protocol fixes per command.
//! Values that take cryptography to compute (the hash of the client data,
//! the PIN/UV auth parameter, the encrypted PIN hash) are the caller's to
//! supply.

use crate::cbor::{add_entry, add_item, encode, encoded, nodes, pairs, CborNode, CborValue};
use crate::fields::{key, name};
use crate::make_credential_params::{
    extensions_view, CredentialSupportedKeyType, Extension, ExtensionModel,
};
use crate::public_key_credential_descriptor::{DescriptorModel, PublicKeyCredentialDescriptor};
use crate::public_key_credential_rp_entity::{PublicKeyCredentialRpEntity, RpEntityModel};
use crate::public_key_credential_user_entity::{PublicKeyCredentialUserEntity, UserEntityModel};
use vstd::prelude::*;

verus! {

pub const CTAP2_MAKE_CREDENTIAL: u8 = 0x01;

pub const CTAP2_GET_ASSERTION: u8 = 0x02;

pub const CTAP2_GET_INFO: u8 = 0x04;

pub const CTAP2_CLIENT_PIN: u8 = 0x06;

pub const CTAP2_RESET: u8 = 0x07;

pub const CTAP2_BIO_ENROLLMENT: u8 = 0x09;

pub const CTAP2_CREDENTIAL_MANAGEMENT: u8 = 0x0A;

pub const CTAP2_SELECTION: u8 = 0x0B;

/// Bio enrollment as authenticators of the preview know it.
pub const CTAP2_BIO_ENROLLMENT_PREVIEW: u8 = 0x40;

/// Credential management as authenticators of the preview know it.
pub const CTAP2_CREDENTIAL_MANAGEMENT_PREVIEW: u8 = 0x41;

/// The PIN/UV auth protocol that the requests name.
pub const PIN_PROTOCOL: i128 = 1;

/// The bytes of a request: the command's identifier, then the encoding of
/// the parameters, where there are parameters and they have an encoding.
pub open spec fn request_bytes(command: u8, parameters: Option<CborNode>) -> Option<Seq<u8>> {
    match parameters {
        None => Some(seq![command]),
        Some(map) => match encoded(map) {
            Some(bytes) => Some(seq![command] + bytes),
            None => None,
        },
    }
}

/// The view of optional parameters.
pub open spec fn parameters_view(parameters: Option<&CborValue>) -> Option<CborNode> {
    match parameters {
        Some(map) => Some(map@),
        None => None,
    }
}

/// Writes a request. A command without parameters always has one.
pub fn encode_request(command: u8, parameters: Option<&CborValue>) -> (r: Option<Vec<u8>>)
    ensures
        match request_bytes(command, parameters_view(parameters)) {
            Some(bytes) => r matches Some(out) && out@ == bytes,
            None => r is None,
        },
{
    let mut out: Vec<u8> = Vec::new();
    out.push(command);
    match parameters {
        None => {
            assert(out@ =~= seq![command]);
            Some(out)
        },
        Some(map) => match encode(map) {
            Some(bytes) => {
                let mut bytes = bytes;
                let ghost encoded = bytes@;
                out.append(&mut bytes);
                assert(out@ =~= seq![command] + encoded);
                Some(out)
            },
            None => None,
        },
    }
}

/// The map that a relying party is sent as.
pub open spec fn rp_map(rp: RpEntityModel) -> CborNode {
    CborNode::Dict(
        seq![(name("id"@), CborNode::Text(rp.id)), (name("name"@), CborNode::Text(rp.name))],
    )
}

/// The map that a user is sent as.
pub open spec fn user_map(user: UserEntityModel) -> CborNode {
    CborNode::Dict(
        seq![
            (name("id"@), CborNode::Bytes(user.id)),
            (name("name"@), CborNode::Text(user.name)),
            (name("displayName"@), CborNode::Text(user.display_name)),
        ],
    )
}

/// The map that a credential descriptor is sent as.
pub open spec fn descriptor_map(descriptor: DescriptorModel) -> CborNode {
    CborNode::Dict(
        seq![
            (name("id"@), CborNode::Bytes(descriptor.id)),
            (name("type"@), CborNode::Text(descriptor.ctype)),
        ],
    )
}

/// The map that two options are sent as.
pub open spec fn options_map(first: Seq<char>, a: bool, second: Seq<char>, b: bool) -> CborNode {
    CborNode::Dict(seq![(name(first), CborNode::Bool(a)), (name(second), CborNode::Bool(b))])
}

/// The list with one more entry, where there is one.
pub open spec fn with_optional(
    entries: Seq<(CborNode, CborNode)>,
    k: int,
    value: Option<CborNode>,
) -> Seq<(CborNode, CborNode)> {
    match value {
        Some(v) => entries.push((key(k), v)),
        None => entries,
    }
}

/// Optional bytes as an optional byte string item.
pub open spec fn optional_bytes(bytes: Option<Vec<u8>>) -> Option<CborNode> {
    match bytes {
        Some(b) => Some(CborNode::Bytes(b@)),
        None => None,
    }
}

/// The PIN protocol number, where there is a PIN/UV auth parameter.
pub open spec fn optional_protocol(pin_auth: Option<Vec<u8>>) -> Option<CborNode> {
    match pin_auth {
        Some(_) => Some(CborNode::Integer(PIN_PROTOCOL as int)),
        None => None,
    }
}

fn rp_value(rp: &PublicKeyCredentialRpEntity) -> (r: CborValue)
    ensures
        r@ == rp_map(rp@),
{
    let mut entries: Vec<(CborValue, CborValue)> = Vec::new();
    assert(pairs(entries@) =~= Seq::<(CborNode, CborNode)>::empty());
    add_entry(&mut entries, CborValue::text("id"), CborValue::text(rp.id.as_str()));
    add_entry(&mut entries, CborValue::text("name"), CborValue::text(rp.name.as_str()));
    assert(pairs(entries@) =~= rp_map(rp@)->Dict_0);
    CborValue::dict(entries)
}

fn user_value(user: &PublicKeyCredentialUserEntity) -> (r: CborValue)
    ensures
        r@ == user_map(user@),
{
    let mut entries: Vec<(CborValue, CborValue)> = Vec::new();
    assert(pairs(entries@) =~= Seq::<(CborNode, CborNode)>::empty());
    add_entry(&mut entries, CborValue::text("id"), CborValue::bytes(user.id.as_slice()));
    add_entry(&mut entries, CborValue::text("name"), CborValue::text(user.name.as_str()));
    add_entry(
        &mut entries,
        CborValue::text("displayName"),
        CborValue::text(user.display_name.as_str()),
    );
    assert(pairs(entries@) =~= user_map(user@)->Dict_0);
    CborValue::dict(entries)
}

fn descriptor_value(descriptor: &PublicKeyCredentialDescriptor) -> (r: CborValue)
    ensures
        r@ == descriptor_map(descriptor@),
{
    let mut entries: Vec<(CborValue, CborValue)> = Vec::new();
    assert(pairs(entries@) =~= Seq::<(CborNode, CborNode)>::empty());
    add_entry(&mut entries, CborValue::text("id"), CborValue::bytes(descriptor.id.as_slice()));
    add_entry(&mut entries, CborValue::text("type"), CborValue::text(descriptor.ctype.as_str()));
    assert(pairs(entries@) =~= descriptor_map(descriptor@)->Dict_0);
    CborValue::dict(entries)
}

fn options_value(first: &str, a: bool, second: &str, b: bool) -> (r: CborValue)
    ensures
        r@ == options_map(first@, a, second@, b),
{
    let mut entries: Vec<(CborValue, CborValue)> = Vec::new();
    assert(pairs(entries@) =~= Seq::<(CborNode, CborNode)>::empty());
    add_entry(&mut entries, CborValue::text(first), CborValue::boolean(a));
    add_entry(&mut entries, CborValue::text(second), CborValue::boolean(b));
    assert(pairs(entries@) =~= options_map(first@, a, second@, b)->Dict_0);
    CborValue::dict(entries)
}

fn add_pin_auth(entries: &mut Vec<(CborValue, CborValue)>, pin_auth: &Option<Vec<u8>>, at: u8)
    ensures
        pairs(final(entries)@) == with_optional(
            with_optional(pairs(old(entries)@), at as int, optional_bytes(*pin_auth)),
            at + 1,
            optional_protocol(*pin_auth),
        ),
{
    match pin_auth {
        Some(auth) => {
            add_entry(entries, CborValue::integer(at as i128), CborValue::bytes(auth.as_slice()));
            add_entry(
                entries,
                CborValue::integer(at as i128 + 1),
                CborValue::integer(PIN_PROTOCOL),
            );
        },
        None => {},
    }
}

/// What a new credential is asked with.
#[derive(Debug, Clone, PartialEq, Eq)]
pub struct MakeCredentialArgs {
    pub rp: PublicKeyCredentialRpEntity,
    /// SHA-256 of the client data, computed by the caller.
    pub client_data_hash: Vec<u8>,
    pub user: PublicKeyCredentialUserEntity,
    pub key_type: CredentialSupportedKeyType,
    /// Whether the credential is to be discoverable.
    pub resident_key: bool,
    pub user_verification: bool,
    /// The extensions asked for. One without a value is not sent.
    pub extensions: Vec<Extension>,
    /// The PIN/UV auth parameter, computed by the caller, where a PIN is
    /// used.
    pub pin_auth: Option<Vec<u8>>,
}

/// The entry of the extension map that an extension is sent as, where it has
/// a value: its name, and the value as the number of the protection policy,
/// as bytes or as a boolean.
pub open spec fn extension_entry(extension: ExtensionModel) -> Option<(CborNode, CborNode)> {
    match extension {
        ExtensionModel::CredProtect(Some(policy)) => Some(
            (name(extension.name()), CborNode::Integer(policy.number() as int)),
        ),
        ExtensionModel::CredBlob(Some(blob)) => Some(
            (name(extension.name()), CborNode::Bytes(blob)),
        ),
        ExtensionModel::MinPinLength(Some(wanted)) => Some(
            (name(extension.name()), CborNode::Bool(wanted)),
        ),
        ExtensionModel::HmacSecret(Some(wanted)) => Some(
            (name(extension.name()), CborNode::Bool(wanted)),
        ),
        _ => None,
    }
}

/// The entries of the extension map, in the order of the extensions.
pub open spec fn extension_entries(list: Seq<ExtensionModel>) -> Seq<(CborNode, CborNode)>
    decreases list.len(),
{
    if list.len() == 0 {
        Seq::empty()
    } else {
        match extension_entry(list.last()) {
            Some(entry) => extension_entries(list.drop_last()).push(entry),
            None => extension_entries(list.drop_last()),
        }
    }
}

/// The extension map, where an extension is sent at all.
pub open spec fn extensions_map(list: Seq<ExtensionModel>) -> Option<CborNode> {
    if extension_entries(list).len() == 0 {
        None
    } else {
        Some(CborNode::Dict(extension_entries(list)))
    }
}

fn extension_value(extension: &Extension) -> (r: Option<(CborValue, CborValue)>)
    ensures
        match extension_entry(extension@) {
            Some(entry) => r matches Some(pair) && pair.0@ == entry.0 && pair.1@ == entry.1,
            None => r is None,
        },
{
    match extension {
        Extension::CredProtect(Some(policy)) => Some(
            (
                CborValue::text(extension.as_ref()),
                CborValue::integer(policy.to_number() as i128),
            ),
        ),
        Extension::CredBlob(Some(blob)) => Some(
            (CborValue::text(extension.as_ref()), CborValue::bytes(blob.as_slice())),
        ),
        Extension::MinPinLength(Some(wanted)) => Some(
            (CborValue::text(extension.as_ref()), CborValue::boolean(*wanted)),
        ),
        Extension::HmacSecret(Some(wanted)) => Some(
            (CborValue::text(extension.as_ref()), CborValue::boolean(*wanted)),
        ),
        _ => None,
    }
}

fn extensions_value(list: &Vec<Extension>) -> (r: Option<CborValue>)
    ensures
        match extensions_map(extensions_view(list@)) {
            Some(map) => r matches Some(out) && out@ == map,
            None => r is None,
        },
{
    let ghost all = extensions_view(list@);
    let mut entries: Vec<(CborValue, CborValue)> = Vec::new();
    let mut i: usize = 0;
    assert(pairs(entries@) =~= Seq::<(CborNode, CborNode)>::empty());
    assert(all.take(0) =~= Seq::<ExtensionModel>::empty());
    while i < list.len()
        invariant
            i <= list.len(),
            all == extensions_view(list@),
            pairs(entries@) == extension_entries(all.take(i as int)),
        decreases list.len() - i,
    {
        proof {
            assert(all.take(i + 1).drop_last() =~= all.take(i as int));
            assert(all.take(i + 1).last() == list@[i as int]@);
        }
        match extension_value(&list[i]) {
            Some(pair) => {
                add_entry(&mut entries, pair.0, pair.1);
            },
            None => {},
        }
        i += 1;
    }
    assert(all.take(i as int) =~= all);
    if entries.len() == 0 {
        None
    } else {
        Some(CborValue::dict(entries))
    }
}

/// The one entry of the list of key types asked for.
pub open spec fn key_type_map(key_type: CredentialSupportedKeyType) -> CborNode {
    CborNode::Dict(
        seq![
            (name("alg"@), CborNode::Integer(key_type.number() as int)),
            (name("type"@), CborNode::Text("public-key"@)),
        ],
    )
}

/// The parameters of the make-credential command: key 1 the client data
/// hash, key 2 the relying party, key 3 the user, key 4 the key types, key 6
/// the extensions where one is sent, key 7 the options and, where a PIN is
/// used, key 8 the PIN/UV auth parameter and key 9 the PIN protocol.
pub open spec fn make_credential_map(args: MakeCredentialArgs) -> CborNode {
    CborNode::Dict(
        with_optional(
            with_optional(
                with_optional(
                    seq![
                        (key(1), CborNode::Bytes(args.client_data_hash@)),
                        (key(2), rp_map(args.rp@)),
                        (key(3), user_map(args.user@)),
                        (key(4), CborNode::Array(seq![key_type_map(args.key_type)])),
                    ],
                    6,
                    extensions_map(extensions_view(args.extensions@)),
                ).push(
                    (
                        key(7),
                        options_map("rk"@, args.resident_key, "uv"@, args.user_verification),
                    ),
                ),
                8,
                optional_bytes(args.pin_auth),
            ),
            9,
            optional_protocol(args.pin_auth),
        ),
    )
}

/// Builds the parameters of the make-credential command.
pub fn make_credential_parameters(args: &MakeCredentialArgs) -> (r: CborValue)
    ensures
        r@ == make_credential_map(*args),
{
    let mut key_type: Vec<(CborValue, CborValue)> = Vec::new();
    assert(pairs(key_type@) =~= Seq::<(CborNode, CborNode)>::empty());
    add_entry(&mut key_type, CborValue::text("alg"), CborValue::integer(args.key_type.alg() as i128));
    add_entry(&mut key_type, CborValue::text("type"), CborValue::text("public-key"));
    assert(pairs(key_type@) =~= key_type_map(args.key_type)->Dict_0);
    let mut key_types: Vec<CborValue> = Vec::new();
    assert(nodes(key_types@) =~= Seq::<CborNode>::empty());
    add_item(&mut key_types, CborValue::dict(key_type));
    assert(nodes(key_types@) =~= seq![key_type_map(args.key_type)]);
    let mut entries: Vec<(CborValue, CborValue)> = Vec::new();
    assert(pairs(entries@) =~= Seq::<(CborNode, CborNode)>::empty());
    add_entry(
        &mut entries,
        CborValue::integer(1),
        CborValue::bytes(args.client_data_hash.as_slice()),
    );
    add_entry(&mut entries, CborValue::integer(2), rp_value(&args.rp));
    add_entry(&mut entries, CborValue::integer(3), user_value(&args.user));
    add_entry(&mut entries, CborValue::integer(4), CborValue::array(key_types));
    match extensions_value(&args.extensions) {
        Some(extensions) => {
            add_entry(&mut entries, CborValue::integer(6), extensions);
        },
        None => {},
    }
    add_entry(
        &mut entries,
        CborValue::integer(7),
        options_value("rk", args.resident_key, "uv", args.user_verification),
    );
    add_pin_auth(&mut entries, &args.pin_auth, 8);
    assert(pairs(entries@) =~= make_credential_map(*args)->Dict_0);
    CborValue::dict(entries)
}

/// What an assertion is asked with.
#[derive(Debug, Clone, PartialEq, Eq)]
pub struct GetAssertionArgs {
    pub rp_id: String,
    /// SHA-256 of the client data, computed by the caller.
    pub client_data_hash: Vec<u8>,
    /// The credential to assert with; empty for a discoverable credential.
    pub credential_id: Vec<u8>,
    pub user_presence: bool,
    pub user_verification: bool,
    /// The PIN/UV auth parameter, computed by the caller, where a PIN is
    /// used.
    pub pin_auth: Option<Vec<u8>>,
}

/// The allow list of an assertion: the one credential, where one is named.
pub open spec fn allow_list(credential_id: Seq<u8>) -> Option<CborNode> {
    if credential_id.len() == 0 {
        None
    } else {
        Some(
            CborNode::Array(
                seq![
                    descriptor_map(DescriptorModel { id: credential_id, ctype: "public-key"@ }),
                ],
            ),
        )
    }
}

/// The parameters of the get-assertion command: key 1 the relying party's
/// id, key 2 the client data hash, key 3 the allow list where a credential is
/// named, key 5 the options and, where a PIN is used, key 6 the PIN/UV auth
/// parameter and key 7 the PIN protocol.
pub open spec fn get_assertion_map(args: GetAssertionArgs) -> CborNode {
    CborNode::Dict(
        with_optional(
            with_optional(
                with_optional(
                    seq![
                        (key(1), CborNode::Text(args.rp_id@)),
                        (key(2), CborNode::Bytes(args.client_data_hash@)),
                    ],
                    3,
                    allow_list(args.credential_id@),
                ).push(
                    (key(5), options_map("up"@, args.user_presence, "uv"@, args.user_verification)),
                ),
                6,
                optional_bytes(args.pin_auth),
            ),
            7,
            optional_protocol(args.pin_auth),
        ),
    )
}

/// Builds the parameters of the get-assertion command.
pub fn get_assertion_parameters(args: &GetAssertionArgs) -> (r: CborValue)
    ensures
        r@ == get_assertion_map(*args),
{
    let mut entries: Vec<(CborValue, CborValue)> = Vec::new();
    assert(pairs(entries@) =~= Seq::<(CborNode, CborNode)>::empty());
    add_entry(&mut entries, CborValue::integer(1), CborValue::text(args.rp_id.as_str()));
    add_entry(
        &mut entries,
        CborValue::integer(2),
        CborValue::bytes(args.client_data_hash.as_slice()),
    );
    if args.credential_id.len() > 0 {
        let descriptor = PublicKeyCredentialDescriptor {
            id: vstd::slice::slice_to_vec(args.credential_id.as_slice()),
            ctype: String::from_str("public-key"),
        };
        let mut allowed: Vec<CborValue> = Vec::new();
        assert(nodes(allowed@) =~= Seq::<CborNode>::empty());
        add_item(&mut allowed, descriptor_value(&descriptor));
        assert(nodes(allowed@) =~= allow_list(args.credential_id@)->0->Array_0);
        add_entry(&mut entries, CborValue::integer(3), CborValue::array(allowed));
    }
    add_entry(
        &mut entries,
        CborValue::integer(5),
        options_value("up", args.user_presence, "uv", args.user_verification),
    );
    add_pin_auth(&mut entries, &args.pin_auth, 6);
    assert(pairs(entries@) =~= get_assertion_map(*args)->Dict_0);
    CborValue::dict(entries)
}

/// The subcommands of credential management.
#[derive(Debug, Clone, Copy, PartialEq, Eq, Structural)]
pub enum CredentialManagementSubCommand {
    GetCredsMetadata,
    EnumerateRpsBegin,
    EnumerateRpsGetNextRp,
    EnumerateCredentialsBegin,
    EnumerateCredentialsGetNextCredential,
    DeleteCredential,
}

impl CredentialManagementSubCommand {
    /// The number under which the subcommand is sent.
    pub open spec fn number(self) -> int {
        match self {
            CredentialManagementSubCommand::GetCredsMetadata => 1,
            CredentialManagementSubCommand::EnumerateRpsBegin => 2,
            CredentialManagementSubCommand::EnumerateRpsGetNextRp => 3,
            CredentialManagementSubCommand::EnumerateCredentialsBegin => 4,
            CredentialManagementSubCommand::EnumerateCredentialsGetNextCredential => 5,
            CredentialManagementSubCommand::DeleteCredential => 6,
        }
    }

    /// The number under which the subcommand is sent.
    pub fn code(self) -> (n: u8)
        ensures
            n == self.number(),
    {
        match self {
            CredentialManagementSubCommand::GetCredsMetadata => 1,
            CredentialManagementSubCommand::EnumerateRpsBegin => 2,
            CredentialManagementSubCommand::EnumerateRpsGetNextRp => 3,
            CredentialManagementSubCommand::EnumerateCredentialsBegin => 4,
            CredentialManagementSubCommand::EnumerateCredentialsGetNextCredential => 5,
            CredentialManagementSubCommand::DeleteCredential => 6,
        }
    }
}

/// The parameters of a credential-management subcommand: the hash of the
/// relying party's id for the enumeration of credentials, the descriptor of
/// the credential for its deletion, none for the others.
pub open spec fn sub_command_map(
    sub_command: CredentialManagementSubCommand,
    rpid_hash: Seq<u8>,
    descriptor: DescriptorModel,
) -> Option<CborNode> {
    match sub_command {
        CredentialManagementSubCommand::EnumerateCredentialsBegin => Some(
            CborNode::Dict(seq![(key(1), CborNode::Bytes(rpid_hash))]),
        ),
        CredentialManagementSubCommand::DeleteCredential => Some(
            CborNode::Dict(seq![(key(2), descriptor_map(descriptor))]),
        ),
        _ => None,
    }
}

/// Builds the parameters of a credential-management subcommand.
pub fn sub_command_parameters(
    sub_command: CredentialManagementSubCommand,
    rpid_hash: &[u8],
    descriptor: &PublicKeyCredentialDescriptor,
) -> (r: Option<CborValue>)
    ensures
        match sub_command_map(sub_command, rpid_hash@, descriptor@) {
            Some(map) => r matches Some(out) && out@ == map,
            None => r is None,
        },
{
    match sub_command {
        CredentialManagementSubCommand::EnumerateCredentialsBegin => {
            let mut entries: Vec<(CborValue, CborValue)> = Vec::new();
            assert(pairs(entries@) =~= Seq::<(CborNode, CborNode)>::empty());
            add_entry(&mut entries, CborValue::integer(1), CborValue::bytes(rpid_hash));
            assert(pairs(entries@) =~= seq![(key(1), CborNode::Bytes(rpid_hash@))]);
            Some(CborValue::dict(entries))
        },
        CredentialManagementSubCommand::DeleteCredential => {
            let mut entries: Vec<(CborValue, CborValue)> = Vec::new();
            assert(pairs(entries@) =~= Seq::<(CborNode, CborNode)>::empty());
            add_entry(&mut entries, CborValue::integer(2), descriptor_value(descriptor));
            assert(pairs(entries@) =~= seq![(key(2), descriptor_map(descriptor@))]);
            Some(CborValue::dict(entries))
        },
        _ => None,
    }
}

/// The parameters of the credential-management command: key 1 the
/// subcommand, key 2 its parameters where it has some and, where a PIN is
/// used, key 3 the PIN protocol and key 4 the PIN/UV auth parameter.
pub open spec fn credential_management_map(
    sub_command: CredentialManagementSubCommand,
    parameters: Option<CborNode>,
    pin_auth: Option<Vec<u8>>,
) -> CborNode {
    CborNode::Dict(
        with_optional(
            with_optional(
                with_optional(
                    seq![(key(1), CborNode::Integer(sub_command.number()))],
                    2,
                    parameters,
                ),
                3,
                optional_protocol(pin_auth),
            ),
            4,
            optional_bytes(pin_auth),
        ),
    )
}

/// Builds the parameters of the credential-management command.
pub fn credential_management_parameters(
    sub_command: CredentialManagementSubCommand,
    rpid_hash: &[u8],
    descriptor: &PublicKeyCredentialDescriptor,
    pin_auth: &Option<Vec<u8>>,
) -> (r: CborValue)
    ensures
        r@ == credential_management_map(
            sub_command,
            sub_command_map(sub_command, rpid_hash@, descriptor@),
            *pin_auth,
        ),
{
    let mut entries: Vec<(CborValue, CborValue)> = Vec::new();
    assert(pairs(entries@) =~= Seq::<(CborNode, CborNode)>::empty());
    add_entry(
        &mut entries,
        CborValue::integer(1),
        CborValue::integer(sub_command.code() as i128),
    );
    match sub_command_parameters(sub_command, rpid_hash, descriptor) {
        Some(parameters) => {
            add_entry(&mut entries, CborValue::integer(2), parameters);
        },
        None => {},
    }
    match pin_auth {
        Some(auth) => {
            add_entry(&mut entries, CborValue::integer(3), CborValue::integer(PIN_PROTOCOL));
            add_entry(&mut entries, CborValue::integer(4), CborValue::bytes(auth.as_slice()));
        },
        None => {},
    }
    assert(pairs(entries@) =~= credential_management_map(
        sub_command,
        sub_command_map(sub_command, rpid_hash@, descriptor@),
        *pin_auth,
    )->Dict_0);
    CborValue::dict(entries)
}

/// The message over which the PIN/UV auth parameter of a
/// credential-management subcommand is computed: the subcommand's number,
/// then the encoding of its parameters where it has some.
pub open spec fn auth_message_of(
    sub_command: CredentialManagementSubCommand,
    parameters: Option<CborNode>,
) -> Option<Seq<u8>> {
    request_bytes(sub_command.number() as u8, parameters)
}

/// Builds the message over which the caller computes the PIN/UV auth
/// parameter of a credential-management subcommand.
pub fn credential_management_auth_message(
    sub_command: CredentialManagementSubCommand,
    rpid_hash: &[u8],
    descriptor: &PublicKeyCredentialDescriptor,
) -> (r: Option<Vec<u8>>)
    ensures
        match auth_message_of(sub_command, sub_command_map(sub_command, rpid_hash@, descriptor@)) {
            Some(bytes) => r matches Some(out) && out@ == bytes,
            None => r is None,
        },
{
    match sub_command_parameters(sub_command, rpid_hash, descriptor) {
        Some(parameters) => encode_request(sub_command.code(), Some(&parameters)),
        None => encode_request(sub_command.code(), None),
    }
}

/// The modality of bio enrollment: fingerprint.
pub const MODALITY_FINGERPRINT: u8 = 1;

/// The subcommands of bio enrollment that take no parameters of their own.
#[derive(Debug, Clone, Copy, PartialEq, Eq, Structural)]
pub enum BioEnrollmentSubCommand {
    EnumerateEnrollments,
    GetFingerprintSensorInfo,
}

impl BioEnrollmentSubCommand {
    /// The number under which the subcommand is sent.
    pub open spec fn number(self) -> int {
        match self {
            BioEnrollmentSubCommand::EnumerateEnrollments => 4,
            BioEnrollmentSubCommand::GetFingerprintSensorInfo => 7,
        }
    }

    /// The number under which the subcommand is sent.
    pub fn code(self) -> (n: u8)
        ensures
            n == self.number(),
    {
        match self {
            BioEnrollmentSubCommand::EnumerateEnrollments => 4,
            BioEnrollmentSubCommand::GetFingerprintSensorInfo => 7,
        }
    }

    /// The message over which the caller computes the PIN/UV auth parameter
    /// of the subcommand: the modality, then the subcommand's number.
    pub fn auth_message(self) -> (r: Vec<u8>)
        ensures
            r@ == seq![MODALITY_FINGERPRINT, self.number() as u8],
    {
        let mut r: Vec<u8> = Vec::new();
        r.push(MODALITY_FINGERPRINT);
        r.push(self.code());
        assert(r@ =~= seq![MODALITY_FINGERPRINT, self.number() as u8]);
        r
    }
}

/// The parameters of the bio-enrollment command: key 1 the modality, key 2
/// the subcommand and, where a PIN is used, key 4 the PIN protocol and key 5
/// the PIN/UV auth parameter.
pub open spec fn bio_enrollment_map(
    sub_command: BioEnrollmentSubCommand,
    pin_auth: Option<Vec<u8>>,
) -> CborNode {
    CborNode::Dict(
        with_optional(
            with_optional(
                seq![
                    (key(1), CborNode::Integer(MODALITY_FINGERPRINT as int)),
                    (key(2), CborNode::Integer(sub_command.number())),
                ],
                4,
                optional_protocol(pin_auth),
            ),
            5,
            optional_bytes(pin_auth),
        ),
    )
}

/// Builds the parameters of the bio-enrollment command.
pub fn bio_enrollment_parameters(
    sub_command: BioEnrollmentSubCommand,
    pin_auth: &Option<Vec<u8>>,
) -> (r: CborValue)
    ensures
        r@ == bio_enrollment_map(sub_command, *pin_auth),
{
    let mut entries: Vec<(CborValue, CborValue)> = Vec::new();
    assert(pairs(entries@) =~= Seq::<(CborNode, CborNode)>::empty());
    add_entry(
        &mut entries,
        CborValue::integer(1),
        CborValue::integer(MODALITY_FINGERPRINT as i128),
    );
    add_entry(
        &mut entries,
        CborValue::integer(2),
        CborValue::integer(sub_command.code() as i128),
    );
    match pin_auth {
        Some(auth) => {
            add_entry(&mut entries, CborValue::integer(4), CborValue::integer(PIN_PROTOCOL));
            add_entry(&mut entries, CborValue::integer(5), CborValue::bytes(auth.as_slice()));
        },
        None => {},
    }
    assert(pairs(entries@) =~= bio_enrollment_map(sub_command, *pin_auth)->Dict_0);
    CborValue::dict(entries)
}

} // verus!
