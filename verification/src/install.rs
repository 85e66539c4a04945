//! Installing code into a unit: the one call that carries it, what the
//! answer means, and the two-step installation that also deposits the code
//! with the unit.
//!
//! A unit whose installation fails is left as it is: nothing is cleaned up
//! and nothing is tried again.

use vstd::prelude::*;
use crate::error::{failure_at, ProvisionError, ProvisionErrorView, Stage};
use crate::identity::{
    at_management, management_canister, Destination, DestinationView, UnitIdentity,
};
use crate::rejection::{Rejection, RejectionView};

verus! {

/// How code is put into a unit.
#[derive(Clone, Copy, Debug, PartialEq, Eq, Hash)]
pub enum InstallMode {
    /// Into a unit that holds no code yet.
    Install,
    /// Over the code that is there, discarding the unit's state.
    Reinstall,
    /// Over the code that is there, keeping the unit's state.
    Upgrade,
}

/// What one installation call carries.
#[derive(Clone, Debug, PartialEq, Eq)]
pub struct InstallRecord {
    pub mode: InstallMode,
    pub unit: UnitIdentity,
    pub code: Vec<u8>,
    /// The payload handed to the code when it starts.
    pub init_arg: Vec<u8>,
}

/// An installation call as a plain value.
pub struct InstallRecordView {
    pub mode: InstallMode,
    pub unit: UnitIdentity,
    pub code: Seq<u8>,
    pub init_arg: Seq<u8>,
}

impl View for InstallRecord {
    type V = InstallRecordView;

    open spec fn view(&self) -> InstallRecordView {
        InstallRecordView {
            mode: self.mode,
            unit: self.unit,
            code: self.code@,
            init_arg: self.init_arg@,
        }
    }
}

impl InstallRecord {
    /// Where the call goes: to the management service's `install_code`.
    pub fn destination(&self) -> (destination: Destination)
        ensures
            destination@ == at_management("install_code"@),
    {
        Destination { unit: management_canister(), method: "install_code" }
    }
}

/// The installation call for the given unit, code and mode: it carries
/// exactly these and an empty initialisation payload.
pub open spec fn installation(
    unit: UnitIdentity,
    code: Seq<u8>,
    mode: InstallMode,
) -> InstallRecordView {
    InstallRecordView { mode, unit, code, init_arg: Seq::empty() }
}

/// The answer to a call that returns nothing but may be rejected.
pub open spec fn answer_view(answer: Result<(), Rejection>) -> Result<(), RejectionView> {
    match answer {
        Ok(()) => Ok(()),
        Err(rejection) => Err(rejection@),
    }
}

/// Builds the installation call.
pub fn install_record(unit: UnitIdentity, code: Vec<u8>, mode: InstallMode) -> (record:
    InstallRecord)
    ensures
        record@ == installation(unit, code@, mode),
{
    InstallRecord { mode, unit, code, init_arg: Vec::new() }
}

/// The deposit of installed code with the unit that runs it.
#[derive(Clone, Debug, PartialEq, Eq)]
pub struct StoreRequest {
    pub unit: UnitIdentity,
    pub code: Vec<u8>,
}

/// A deposit as a plain value.
pub struct StoreRequestView {
    pub unit: UnitIdentity,
    pub code: Seq<u8>,
}

impl View for StoreRequest {
    type V = StoreRequestView;

    open spec fn view(&self) -> StoreRequestView {
        StoreRequestView { unit: self.unit, code: self.code@ }
    }
}

impl StoreRequest {
    /// Where the deposit goes: to the unit's own `wallet_store_wallet_wasm`.
    pub fn destination(&self) -> (destination: Destination)
        ensures
            destination@ == (DestinationView {
                unit: self.unit@,
                method: "wallet_store_wallet_wasm"@,
            }),
    {
        Destination { unit: self.unit, method: "wallet_store_wallet_wasm" }
    }
}

/// Where an installation with deposit stands.
#[derive(Clone, Debug, PartialEq, Eq)]
pub enum WalletInstallState {
    /// The installation call is out; the code is kept for the deposit.
    Installing { unit: UnitIdentity, code: Vec<u8> },
    /// The code is installed and the deposit is out.
    Storing { unit: UnitIdentity },
    /// Both steps succeeded.
    Done { unit: UnitIdentity },
    /// A step was rejected; nothing further is done.
    Failed { stage: Stage, reason: Rejection },
}

/// An installation with deposit as a plain value.
pub enum WalletInstallStateView {
    Installing { unit: UnitIdentity, code: Seq<u8> },
    Storing { unit: UnitIdentity },
    Done { unit: UnitIdentity },
    Failed { stage: Stage, reason: RejectionView },
}

impl View for WalletInstallState {
    type V = WalletInstallStateView;

    open spec fn view(&self) -> WalletInstallStateView {
        match self {
            WalletInstallState::Installing { unit, code } => WalletInstallStateView::Installing {
                unit: *unit,
                code: code@,
            },
            WalletInstallState::Storing { unit } => WalletInstallStateView::Storing { unit: *unit },
            WalletInstallState::Done { unit } => WalletInstallStateView::Done { unit: *unit },
            WalletInstallState::Failed { stage, reason } => WalletInstallStateView::Failed {
                stage: *stage,
                reason: reason@,
            },
        }
    }
}

/// What came back from outside.
#[derive(Debug, PartialEq, Eq)]
pub enum WalletInstallEvent {
    InstallReplied(Result<(), Rejection>),
    StoreReplied(Result<(), Rejection>),
}

/// An event as a plain value.
pub enum WalletInstallEventView {
    InstallReplied(Result<(), RejectionView>),
    StoreReplied(Result<(), RejectionView>),
}

impl View for WalletInstallEvent {
    type V = WalletInstallEventView;

    open spec fn view(&self) -> WalletInstallEventView {
        match self {
            WalletInstallEvent::InstallReplied(answer) => WalletInstallEventView::InstallReplied(
                answer_view(*answer),
            ),
            WalletInstallEvent::StoreReplied(answer) => WalletInstallEventView::StoreReplied(
                answer_view(*answer),
            ),
        }
    }
}

/// What is to be done next.
#[derive(Debug, PartialEq, Eq)]
pub enum WalletInstallAction {
    /// Deposit the code with the unit.
    Store(StoreRequest),
    /// Answer the caller.
    Respond(Result<(), ProvisionError>),
    /// Nothing: the event was not awaited.
    Nothing,
}

/// An action as a plain value.
pub enum WalletInstallActionView {
    Store(StoreRequestView),
    Respond(Result<(), ProvisionErrorView>),
    Nothing,
}

impl View for WalletInstallAction {
    type V = WalletInstallActionView;

    open spec fn view(&self) -> WalletInstallActionView {
        match self {
            WalletInstallAction::Store(request) => WalletInstallActionView::Store(request@),
            WalletInstallAction::Respond(Ok(())) => WalletInstallActionView::Respond(Ok(())),
            WalletInstallAction::Respond(Err(error)) => WalletInstallActionView::Respond(
                Err(error@),
            ),
            WalletInstallAction::Nothing => WalletInstallActionView::Nothing,
        }
    }
}

/// The step of an installation with deposit: from where it stands and what
/// came back, to where it stands then and what is to be done.
///
/// A successful installation is followed by the deposit of the same code; a
/// successful deposit ends the matter; a rejection of either ends it with
/// the failure of that step. An event that is not awaited changes nothing.
pub open spec fn wallet_install_next(
    state: WalletInstallStateView,
    event: WalletInstallEventView,
) -> (WalletInstallStateView, WalletInstallActionView) {
    match (state, event) {
        (
            WalletInstallStateView::Installing { unit, code },
            WalletInstallEventView::InstallReplied(Ok(())),
        ) => (
            WalletInstallStateView::Storing { unit },
            WalletInstallActionView::Store(StoreRequestView { unit, code }),
        ),
        (
            WalletInstallStateView::Installing { .. },
            WalletInstallEventView::InstallReplied(Err(reason)),
        ) => (
            WalletInstallStateView::Failed { stage: Stage::Install, reason },
            WalletInstallActionView::Respond(Err(failure_at(Stage::Install, reason))),
        ),
        (
            WalletInstallStateView::Storing { unit },
            WalletInstallEventView::StoreReplied(Ok(())),
        ) => (WalletInstallStateView::Done { unit }, WalletInstallActionView::Respond(Ok(()))),
        (
            WalletInstallStateView::Storing { .. },
            WalletInstallEventView::StoreReplied(Err(reason)),
        ) => (
            WalletInstallStateView::Failed { stage: Stage::Store, reason },
            WalletInstallActionView::Respond(Err(failure_at(Stage::Store, reason))),
        ),
        _ => (state, WalletInstallActionView::Nothing),
    }
}

/// Begins an installation with deposit: the installation call to make first,
/// in mode `Install`, and the state that awaits its answer.
pub fn begin_wallet_install(unit: UnitIdentity, code: Vec<u8>) -> (begun: (
    WalletInstallState,
    InstallRecord,
))
    ensures
        begun.0@ == (WalletInstallStateView::Installing { unit, code: code@ }),
        begun.1@ == installation(unit, code@, InstallMode::Install),
{
    let record = install_record(unit, copy_bytes(&code), InstallMode::Install);
    (WalletInstallState::Installing { unit, code }, record)
}

/// Takes an installation with deposit one step further.
pub fn wallet_install_step(state: WalletInstallState, event: WalletInstallEvent) -> (next: (
    WalletInstallState,
    WalletInstallAction,
))
    ensures
        (next.0@, next.1@) == wallet_install_next(state@, event@),
{
    match (state, event) {
        (
            WalletInstallState::Installing { unit, code },
            WalletInstallEvent::InstallReplied(Ok(())),
        ) => (
            WalletInstallState::Storing { unit },
            WalletInstallAction::Store(StoreRequest { unit, code }),
        ),
        (
            WalletInstallState::Installing { unit, code },
            WalletInstallEvent::InstallReplied(Err(reason)),
        ) => {
            let told = reason.duplicate();
            (
                WalletInstallState::Failed { stage: Stage::Install, reason },
                WalletInstallAction::Respond(Err(ProvisionError::InstallFailed(told))),
            )
        },
        (WalletInstallState::Storing { unit }, WalletInstallEvent::StoreReplied(Ok(()))) => (
            WalletInstallState::Done { unit },
            WalletInstallAction::Respond(Ok(())),
        ),
        (WalletInstallState::Storing { unit }, WalletInstallEvent::StoreReplied(Err(reason))) => {
            let told = reason.duplicate();
            (
                WalletInstallState::Failed { stage: Stage::Store, reason },
                WalletInstallAction::Respond(Err(ProvisionError::StoreFailed(told))),
            )
        },
        (state, _) => (state, WalletInstallAction::Nothing),
    }
}

/// A copy of a byte string.
fn copy_bytes(bytes: &Vec<u8>) -> (copy: Vec<u8>)
    ensures
        copy@ == bytes@,
{
    let mut copy: Vec<u8> = Vec::with_capacity(bytes.len());
    let mut i: usize = 0;
    while i < bytes.len()
        invariant
            i <= bytes@.len(),
            copy@ == bytes@.subrange(0, i as int),
        decreases bytes@.len() - i,
    {
        copy.push(bytes[i]);
        assert(copy@ =~= bytes@.subrange(0, i + 1));
        i += 1;
    }
    assert(copy@ =~= bytes@);
    copy
}

/// An installation with deposit ends well only when both steps succeeded,
/// and then it asks for nothing more: whatever comes in afterwards, and
/// whatever comes in after a failure, changes nothing.
pub proof fn wallet_install_ends_stay_ended(
    state: WalletInstallStateView,
    event: WalletInstallEventView,
)
    requires
        state is Done || state is Failed,
    ensures
        wallet_install_next(state, event) == (state, WalletInstallActionView::Nothing),
{
}

} // verus!
