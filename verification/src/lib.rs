//! Host-side CTAP2/FIDO2 protocol engine for hardware authenticators.
//!
//! The crate holds the decisions of the protocol, each with a contract that
//! Verus proves, and leaves the moving of reports to the caller.
//!
//! * Framing: [`ctaphid`] splits a message into fixed-size reports,
//!   [`receiver`] puts a message together again, and [`dispatch`] runs one
//!   command round trip: channel request, request, response.
//! * Codec: [`cbor`] holds the CBOR items and calls `serde_cbor`;
//!   [`request`] builds the parameter maps of the commands; the
//!   `*_response` modules decode the response maps into records, passing
//!   over the keys they do not know.
//! * Sequences of commands: [`enumerate`] collects the relying parties and
//!   the credentials, [`pin`] negotiates a PIN/UV auth token, [`memo`]
//!   keeps notes as discoverable credentials.
//! * Vendor extension: [`nitrokey`] decodes the status, version and
//!   random-number queries of Nitrokey devices.

pub mod auth_data;
pub mod bio_enrollment_params;
pub mod bio_enrollment_response;
pub mod bytes;
pub mod cbor;
pub mod client_pin;
pub mod credential_management_params;
pub mod credential_management_response;
pub mod credential_protection;
pub mod ctaphid;
pub mod dispatch;
pub mod enumerate;
pub mod error;
pub mod fields;
pub mod get_assertion_params;
pub mod get_assertion_response;
pub mod get_info;
pub mod hid;
pub mod make_credential_params;
pub mod make_credential_response;
pub mod memo;
pub mod nitrokey;
pub mod pin;
pub mod public_key;
pub mod public_key_credential_descriptor;
pub mod public_key_credential_rp_entity;
pub mod public_key_credential_user_entity;
pub mod receiver;
pub mod request;
pub mod response;
pub mod text;
