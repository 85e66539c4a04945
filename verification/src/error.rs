//! Why provisioning failed, and how the failure is worded for the caller.

use vstd::prelude::*;
use vstd::string::*;
use crate::rejection::{
    call_failure_text, creation_failure_text, fetch_failure_text, Rejection, RejectionView,
};

verus! {

/// A remote operation of the provisioning protocol.
#[derive(Clone, Copy, Debug, PartialEq, Eq, Hash)]
pub enum Stage {
    /// Asking the creation authority for a new unit.
    Creation,
    /// Fetching the code from its remote source.
    Fetch,
    /// Installing the code into the unit.
    Install,
    /// Setting the unit's initial application state.
    Bootstrap,
    /// Depositing the installed code with the unit for its own keeping.
    Store,
}

/// A failure of provisioning. A configuration error is found before any
/// remote call is made; every other failure carries what the remote side
/// said, unchanged.
#[derive(Clone, Debug, PartialEq, Eq)]
pub enum ProvisionError {
    /// Both the single-controller field and the controller list were given.
    ConflictingControllerSpecification,
    CreationRejected(Rejection),
    FetchFailed(Rejection),
    InstallFailed(Rejection),
    BootstrapFailed(Rejection),
    StoreFailed(Rejection),
}

/// A failure as a plain value.
pub enum ProvisionErrorView {
    ConflictingControllerSpecification,
    CreationRejected(RejectionView),
    FetchFailed(RejectionView),
    InstallFailed(RejectionView),
    BootstrapFailed(RejectionView),
    StoreFailed(RejectionView),
}

impl View for ProvisionError {
    type V = ProvisionErrorView;

    open spec fn view(&self) -> ProvisionErrorView {
        match self {
            ProvisionError::ConflictingControllerSpecification =>
                ProvisionErrorView::ConflictingControllerSpecification,
            ProvisionError::CreationRejected(r) => ProvisionErrorView::CreationRejected(r@),
            ProvisionError::FetchFailed(r) => ProvisionErrorView::FetchFailed(r@),
            ProvisionError::InstallFailed(r) => ProvisionErrorView::InstallFailed(r@),
            ProvisionError::BootstrapFailed(r) => ProvisionErrorView::BootstrapFailed(r@),
            ProvisionError::StoreFailed(r) => ProvisionErrorView::StoreFailed(r@),
        }
    }
}

/// The failure that a rejection at the given stage amounts to.
pub open spec fn failure_at(stage: Stage, rejection: RejectionView) -> ProvisionErrorView {
    match stage {
        Stage::Creation => ProvisionErrorView::CreationRejected(rejection),
        Stage::Fetch => ProvisionErrorView::FetchFailed(rejection),
        Stage::Install => ProvisionErrorView::InstallFailed(rejection),
        Stage::Bootstrap => ProvisionErrorView::BootstrapFailed(rejection),
        Stage::Store => ProvisionErrorView::StoreFailed(rejection),
    }
}

/// The stage at which a failure arose, if it came from a remote call.
pub open spec fn stage_of(error: ProvisionErrorView) -> Option<Stage> {
    match error {
        ProvisionErrorView::ConflictingControllerSpecification => None,
        ProvisionErrorView::CreationRejected(_) => Some(Stage::Creation),
        ProvisionErrorView::FetchFailed(_) => Some(Stage::Fetch),
        ProvisionErrorView::InstallFailed(_) => Some(Stage::Install),
        ProvisionErrorView::BootstrapFailed(_) => Some(Stage::Bootstrap),
        ProvisionErrorView::StoreFailed(_) => Some(Stage::Store),
    }
}

/// The text that is handed to the caller for a failure.
pub open spec fn description(error: ProvisionErrorView) -> Seq<char> {
    match error {
        ProvisionErrorView::ConflictingControllerSpecification =>
            "CanisterSettings cannot have both controller and controllers set."@,
        ProvisionErrorView::CreationRejected(r) => creation_failure_text(r),
        ProvisionErrorView::FetchFailed(r) => fetch_failure_text(r),
        ProvisionErrorView::InstallFailed(r) => call_failure_text(r),
        ProvisionErrorView::BootstrapFailed(r) => call_failure_text(r),
        ProvisionErrorView::StoreFailed(r) => call_failure_text(r),
    }
}

/// The text for a failure as the wallet interface words it: a rejected
/// creation reads like any other rejected call.
pub open spec fn wallet_description(error: ProvisionErrorView) -> Seq<char> {
    match error {
        ProvisionErrorView::CreationRejected(r) => call_failure_text(r),
        _ => description(error),
    }
}

impl ProvisionError {
    /// The failure that a rejection at the given stage amounts to.
    pub fn at_stage(stage: Stage, rejection: Rejection) -> (error: ProvisionError)
        ensures
            error@ == failure_at(stage, rejection@),
    {
        match stage {
            Stage::Creation => ProvisionError::CreationRejected(rejection),
            Stage::Fetch => ProvisionError::FetchFailed(rejection),
            Stage::Install => ProvisionError::InstallFailed(rejection),
            Stage::Bootstrap => ProvisionError::BootstrapFailed(rejection),
            Stage::Store => ProvisionError::StoreFailed(rejection),
        }
    }

    /// The stage at which the failure arose, if it came from a remote call.
    pub fn stage(&self) -> (stage: Option<Stage>)
        ensures
            stage == stage_of(self@),
    {
        match self {
            ProvisionError::ConflictingControllerSpecification => None,
            ProvisionError::CreationRejected(_) => Some(Stage::Creation),
            ProvisionError::FetchFailed(_) => Some(Stage::Fetch),
            ProvisionError::InstallFailed(_) => Some(Stage::Install),
            ProvisionError::BootstrapFailed(_) => Some(Stage::Bootstrap),
            ProvisionError::StoreFailed(_) => Some(Stage::Store),
        }
    }

    /// The text that is handed to the caller.
    pub fn describe(&self) -> (text: String)
        ensures
            text@ == description(self@),
    {
        match self {
            ProvisionError::ConflictingControllerSpecification => String::from_str(
                "CanisterSettings cannot have both controller and controllers set.",
            ),
            ProvisionError::CreationRejected(r) => r.creation_failure(),
            ProvisionError::FetchFailed(r) => r.fetch_failure(),
            ProvisionError::InstallFailed(r) => r.call_failure(),
            ProvisionError::BootstrapFailed(r) => r.call_failure(),
            ProvisionError::StoreFailed(r) => r.call_failure(),
        }
    }

    /// The text that the wallet interface hands to its caller.
    pub fn describe_for_wallet(&self) -> (text: String)
        ensures
            text@ == wallet_description(self@),
    {
        match self {
            ProvisionError::CreationRejected(r) => r.call_failure(),
            _ => self.describe(),
        }
    }
}

/// A rejection keeps its stage: the failure made of it arose there.
pub proof fn failure_names_its_stage(stage: Stage, rejection: RejectionView)
    ensures
        stage_of(failure_at(stage, rejection)) == Some(stage),
{
}

} // verus!
