//! Enumeration of relying parties and of credentials.
//!
//! The authenticator hands its entries out one per response. The first
//! request, "begin", is answered with the first entry and with the total;
//! each further request, "next", with one more entry. An `Enumeration`
//! counts the entries and collects them; the caller sends the requests and
//! hands back each response. Nothing is handed to the caller before the
//! list is whole. An authenticator without credentials refuses "begin"
//! with a status of its own; that is the empty list, not a failure.

use crate::credential_management_params::{
    credentials_view, rps_view, Credential, CredentialManagementData, CredentialManagementModel,
    CredentialModel, Rp, RpModel,
};
use crate::error::CtapError;
use crate::request::CredentialManagementSubCommand;
use vstd::prelude::*;

verus! {

/// Status with which an authenticator that holds no credential answers a
/// "begin" request.
pub const CTAP2_ERR_NO_CREDENTIALS: u8 = 0x2E;

/// What is enumerated.
#[derive(Debug, Clone, Copy, PartialEq, Eq, Structural)]
pub enum EnumKind {
    /// The relying parties; the total is the number of relying parties.
    Rps,
    /// The credentials of one relying party; the total is their number.
    Credentials,
}

impl EnumKind {
    /// The total that a first response announces.
    pub open spec fn total_of(self, data: CredentialManagementModel) -> u32 {
        match self {
            EnumKind::Rps => data.total_rps,
            EnumKind::Credentials => data.total_credentials,
        }
    }

    /// Reads the total from a first response.
    pub fn total(self, data: &CredentialManagementData) -> (n: u32)
        ensures
            n == self.total_of(data@),
    {
        match self {
            EnumKind::Rps => data.total_rps,
            EnumKind::Credentials => data.total_credentials,
        }
    }
}

/// What the caller is to send next.
#[derive(Debug, Clone, Copy, PartialEq, Eq, Structural)]
pub enum EnumAction {
    /// The "begin" request.
    Begin,
    /// A "next" request.
    Next,
    /// Nothing: the enumeration is over.
    Finish,
}

impl EnumKind {
    /// The subcommand that an action stands for in an enumeration of this
    /// kind: the "begin" or the "next" subcommand of the relying parties or
    /// of the credentials; none once the enumeration is over.
    pub open spec fn request_of(self, action: EnumAction) -> Option<
        CredentialManagementSubCommand,
    > {
        match (self, action) {
            (EnumKind::Rps, EnumAction::Begin) => Some(
                CredentialManagementSubCommand::EnumerateRpsBegin,
            ),
            (EnumKind::Rps, EnumAction::Next) => Some(
                CredentialManagementSubCommand::EnumerateRpsGetNextRp,
            ),
            (EnumKind::Credentials, EnumAction::Begin) => Some(
                CredentialManagementSubCommand::EnumerateCredentialsBegin,
            ),
            (EnumKind::Credentials, EnumAction::Next) => Some(
                CredentialManagementSubCommand::EnumerateCredentialsGetNextCredential,
            ),
            (_, EnumAction::Finish) => None,
        }
    }

    /// Picks the subcommand that is to be sent for an action.
    pub fn request(self, action: EnumAction) -> (r: Option<CredentialManagementSubCommand>)
        ensures
            r == self.request_of(action),
    {
        match (self, action) {
            (EnumKind::Rps, EnumAction::Begin) => Some(
                CredentialManagementSubCommand::EnumerateRpsBegin,
            ),
            (EnumKind::Rps, EnumAction::Next) => Some(
                CredentialManagementSubCommand::EnumerateRpsGetNextRp,
            ),
            (EnumKind::Credentials, EnumAction::Begin) => Some(
                CredentialManagementSubCommand::EnumerateCredentialsBegin,
            ),
            (EnumKind::Credentials, EnumAction::Next) => Some(
                CredentialManagementSubCommand::EnumerateCredentialsGetNextCredential,
            ),
            (_, EnumAction::Finish) => None,
        }
    }
}

/// How far an enumeration has come.
#[derive(Debug, Clone, PartialEq, Eq)]
pub enum Enumeration {
    /// No response yet.
    NotStarted { kind: EnumKind },
    /// The first response has come; `remaining` entries are still due.
    InProgress { remaining: u32, collected: Vec<CredentialManagementData> },
    /// All entries have come.
    Exhausted { collected: Vec<CredentialManagementData> },
    /// A request failed; what had been collected is dropped.
    Failed(CtapError),
}

/// An enumeration as a mathematical value.
pub enum EnumModel {
    NotStarted { kind: EnumKind },
    InProgress { remaining: u32, collected: Seq<CredentialManagementModel> },
    Exhausted { collected: Seq<CredentialManagementModel> },
    Failed(CtapError),
}

/// The responses of a list, each as a mathematical value.
pub open spec fn datas_view(list: Seq<CredentialManagementData>) -> Seq<CredentialManagementModel> {
    Seq::new(list.len(), |i: int| list[i]@)
}

impl View for Enumeration {
    type V = EnumModel;

    open spec fn view(&self) -> EnumModel {
        match *self {
            Enumeration::NotStarted { kind } => EnumModel::NotStarted { kind },
            Enumeration::InProgress { remaining, collected } => EnumModel::InProgress {
                remaining,
                collected: datas_view(collected@),
            },
            Enumeration::Exhausted { collected } => EnumModel::Exhausted {
                collected: datas_view(collected@),
            },
            Enumeration::Failed(e) => EnumModel::Failed(e),
        }
    }
}

/// The state after a response. The first response sets the count; every
/// response adds its entry, unless the total is zero; the last entry due
/// ends the enumeration. An enumeration that is over stays as it is.
pub open spec fn enum_step(state: EnumModel, data: CredentialManagementModel) -> EnumModel {
    match state {
        EnumModel::NotStarted { kind } => if kind.total_of(data) == 0 {
            EnumModel::Exhausted { collected: Seq::empty() }
        } else if kind.total_of(data) == 1 {
            EnumModel::Exhausted { collected: seq![data] }
        } else {
            EnumModel::InProgress {
                remaining: (kind.total_of(data) - 1) as u32,
                collected: seq![data],
            }
        },
        EnumModel::InProgress { remaining, collected } => if remaining <= 1 {
            EnumModel::Exhausted { collected: collected.push(data) }
        } else {
            EnumModel::InProgress {
                remaining: (remaining - 1) as u32,
                collected: collected.push(data),
            }
        },
        EnumModel::Exhausted { .. } => state,
        EnumModel::Failed(_) => state,
    }
}

/// The state after a failed request: the enumeration fails as a whole,
/// unless it was over already. One failure is none: the "begin" request
/// refused because there are no credentials ends the enumeration with an
/// empty list.
pub open spec fn enum_fail(state: EnumModel, error: CtapError) -> EnumModel {
    match state {
        EnumModel::NotStarted { .. } => if error == CtapError::Protocol(CTAP2_ERR_NO_CREDENTIALS) {
            EnumModel::Exhausted { collected: Seq::empty() }
        } else {
            EnumModel::Failed(error)
        },
        EnumModel::InProgress { .. } => EnumModel::Failed(error),
        EnumModel::Exhausted { .. } => state,
        EnumModel::Failed(_) => state,
    }
}

/// What is to be sent in a state.
pub open spec fn enum_action(state: EnumModel) -> EnumAction {
    match state {
        EnumModel::NotStarted { .. } => EnumAction::Begin,
        EnumModel::InProgress { .. } => EnumAction::Next,
        EnumModel::Exhausted { .. } => EnumAction::Finish,
        EnumModel::Failed(_) => EnumAction::Finish,
    }
}

/// The state after a list of responses, taken in order.
pub open spec fn enum_run(state: EnumModel, responses: Seq<CredentialManagementModel>) -> EnumModel
    decreases responses.len(),
{
    if responses.len() == 0 {
        state
    } else {
        enum_step(enum_run(state, responses.drop_last()), responses.last())
    }
}

impl Enumeration {
    /// An enumeration that has not begun.
    pub fn new(kind: EnumKind) -> (r: Enumeration)
        ensures
            r@ == (EnumModel::NotStarted { kind }),
    {
        Enumeration::NotStarted { kind }
    }

    /// What the caller is to send next.
    pub fn action(&self) -> (a: EnumAction)
        ensures
            a == enum_action(self@),
    {
        match self {
            Enumeration::NotStarted { .. } => EnumAction::Begin,
            Enumeration::InProgress { .. } => EnumAction::Next,
            Enumeration::Exhausted { .. } => EnumAction::Finish,
            Enumeration::Failed(_) => EnumAction::Finish,
        }
    }

    /// Takes the response to the request that was sent last.
    pub fn on_response(self, data: CredentialManagementData) -> (next: Enumeration)
        ensures
            next@ == enum_step(self@, data@),
    {
        match self {
            Enumeration::NotStarted { kind } => {
                let total: u32 = kind.total(&data);
                let mut collected: Vec<CredentialManagementData> = Vec::new();
                if total == 0 {
                    assert(datas_view(collected@) =~= Seq::<CredentialManagementModel>::empty());
                    Enumeration::Exhausted { collected }
                } else {
                    collected.push(data);
                    assert(datas_view(collected@) =~= seq![data@]);
                    if total == 1 {
                        Enumeration::Exhausted { collected }
                    } else {
                        Enumeration::InProgress { remaining: total - 1, collected }
                    }
                }
            },
            Enumeration::InProgress { remaining, collected } => {
                let ghost before = datas_view(collected@);
                let mut collected = collected;
                collected.push(data);
                assert(datas_view(collected@) =~= before.push(data@));
                if remaining <= 1 {
                    Enumeration::Exhausted { collected }
                } else {
                    Enumeration::InProgress { remaining: remaining - 1, collected }
                }
            },
            Enumeration::Exhausted { collected } => Enumeration::Exhausted { collected },
            Enumeration::Failed(e) => Enumeration::Failed(e),
        }
    }

    /// Takes the failure of the request that was sent last.
    pub fn on_error(self, error: CtapError) -> (next: Enumeration)
        ensures
            next@ == enum_fail(self@, error),
    {
        match self {
            Enumeration::NotStarted { .. } => match error {
                CtapError::Protocol(code) => if code == CTAP2_ERR_NO_CREDENTIALS {
                    let collected: Vec<CredentialManagementData> = Vec::new();
                    assert(datas_view(collected@) =~= Seq::<CredentialManagementModel>::empty());
                    Enumeration::Exhausted { collected }
                } else {
                    Enumeration::Failed(error)
                },
                _ => Enumeration::Failed(error),
            },
            Enumeration::InProgress { .. } => Enumeration::Failed(error),
            Enumeration::Exhausted { collected } => Enumeration::Exhausted { collected },
            Enumeration::Failed(e) => Enumeration::Failed(e),
        }
    }

    /// The whole list, once the enumeration is over; the failure, where it
    /// failed; nothing while entries are still due.
    pub fn finish(self) -> (r: Option<Result<Vec<CredentialManagementData>, CtapError>>)
        ensures
            match self@ {
                EnumModel::Exhausted { collected } => r matches Some(Ok(list)) && datas_view(list@)
                    == collected,
                EnumModel::Failed(e) => r matches Some(Err(x)) && x == e,
                _ => r is None,
            },
    {
        match self {
            Enumeration::Exhausted { collected } => Some(Ok(collected)),
            Enumeration::Failed(e) => Some(Err(e)),
            _ => None,
        }
    }
}

/// The relying parties of a list of responses, in order.
pub open spec fn rps_of(list: Seq<CredentialManagementModel>) -> Seq<RpModel> {
    Seq::new(list.len(), |i: int| RpModel::of(list[i]))
}

/// The credentials of a list of responses, in order.
pub open spec fn credentials_of(list: Seq<CredentialManagementModel>) -> Seq<CredentialModel> {
    Seq::new(list.len(), |i: int| CredentialModel::of(list[i]))
}

/// Turns the responses of an enumeration into relying parties.
pub fn into_rps(list: Vec<CredentialManagementData>) -> (out: Vec<Rp>)
    ensures
        rps_view(out@) == rps_of(datas_view(list@)),
{
    let ghost all = datas_view(list@);
    let mut rest = list;
    let mut out: Vec<Rp> = Vec::new();
    while rest.len() > 0
        invariant
            out@.len() + rest@.len() == all.len(),
            forall|j: int| 0 <= j < out@.len() ==> (#[trigger] out@[j])@ == RpModel::of(all[j]),
            forall|j: int| 0 <= j < rest@.len() ==> (#[trigger] rest@[j])@ == all[out@.len() + j],
        decreases rest.len(),
    {
        let data = rest.remove(0);
        out.push(Rp::new(data));
    }
    assert(rps_view(out@) =~= rps_of(all));
    out
}

/// Turns the responses of an enumeration into credentials.
pub fn into_credentials(list: Vec<CredentialManagementData>) -> (out: Vec<Credential>)
    ensures
        credentials_view(out@) == credentials_of(datas_view(list@)),
{
    let ghost all = datas_view(list@);
    let mut rest = list;
    let mut out: Vec<Credential> = Vec::new();
    while rest.len() > 0
        invariant
            out@.len() + rest@.len() == all.len(),
            forall|j: int|
                0 <= j < out@.len() ==> (#[trigger] out@[j])@ == CredentialModel::of(all[j]),
            forall|j: int| 0 <= j < rest@.len() ==> (#[trigger] rest@[j])@ == all[out@.len() + j],
        decreases rest.len(),
    {
        let data = rest.remove(0);
        out.push(Credential::new(data));
    }
    assert(credentials_view(out@) =~= credentials_of(all));
    out
}

proof fn lemma_run_counts(kind: EnumKind, responses: Seq<CredentialManagementModel>, n: int)
    requires
        1 <= n <= responses.len(),
        kind.total_of(responses[0]) >= n,
    ensures
        enum_run(EnumModel::NotStarted { kind }, responses.take(n)) == (if kind.total_of(
            responses[0],
        ) == n {
            EnumModel::Exhausted { collected: responses.take(n) }
        } else {
            EnumModel::InProgress {
                remaining: (kind.total_of(responses[0]) - n) as u32,
                collected: responses.take(n),
            }
        }),
    decreases n,
{
    let prefix = responses.take(n);
    assert(prefix.last() == responses[n - 1]);
    if n == 1 {
        assert(prefix.drop_last() =~= Seq::<CredentialManagementModel>::empty());
        assert(prefix =~= seq![responses[0]]);
    } else {
        assert(prefix.drop_last() =~= responses.take(n - 1));
        lemma_run_counts(kind, responses, n - 1);
        assert(responses.take(n - 1).push(responses[n - 1]) =~= prefix);
    }
}

/// An enumeration collects exactly what the authenticator hands out: where
/// the first response announces as many entries as there are responses, the
/// enumeration ends with the responses, all of them and in their order, and
/// not before the last one has come.
pub proof fn lemma_enumeration_collects(kind: EnumKind, responses: Seq<CredentialManagementModel>)
    requires
        responses.len() >= 1,
        kind.total_of(responses[0]) == responses.len(),
    ensures
        enum_run(EnumModel::NotStarted { kind }, responses) == (EnumModel::Exhausted {
            collected: responses,
        }),
        forall|n: int|
            1 <= n < responses.len() ==> enum_action(
                #[trigger] enum_run(EnumModel::NotStarted { kind }, responses.take(n)),
            ) == EnumAction::Next,
{
    lemma_run_counts(kind, responses, responses.len() as int);
    assert(responses.take(responses.len() as int) =~= responses);
    assert forall|n: int| 1 <= n < responses.len() implies enum_action(
        #[trigger] enum_run(EnumModel::NotStarted { kind }, responses.take(n)),
    ) == EnumAction::Next by {
        lemma_run_counts(kind, responses, n);
    }
}

/// An authenticator that announces no entry is done after the one response.
pub proof fn lemma_enumeration_of_none(kind: EnumKind, first: CredentialManagementModel)
    requires
        kind.total_of(first) == 0,
    ensures
        enum_step(EnumModel::NotStarted { kind }, first) == (EnumModel::Exhausted {
            collected: Seq::empty(),
        }),
{
}

} // verus!
