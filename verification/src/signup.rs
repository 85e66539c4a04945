//! The sign-up flow: a unit is created, its code is fetched and installed,
//! its application state is set, and only then is it entered in the
//! registry.
//!
//! Each of the four remote calls is a point at which the flow is suspended.
//! The flow itself is a value: [`signup_step`] takes it from one suspension
//! to the next and says what is to be done meanwhile. Any number of flows
//! may be under way over one registry; the registry shows them in the order
//! in which they completed. A flow that fails at any stage stops there:
//! nothing is undone and nothing is tried again.

use vstd::prelude::*;
use crate::app_state::{AppState, AppStateView};
use crate::creation::{CreateRequest, CreateRequestView};
use crate::error::{failure_at, ProvisionError, ProvisionErrorView, Stage};
use crate::fetch::{fetch_request, plain_get, FetchRequest, FetchRequestView};
use crate::identity::{CallerContext, Destination, DestinationView, UnitIdentity};
use crate::install::{
    answer_view, install_record, installation, InstallMode, InstallRecord, InstallRecordView,
};
use crate::registry::Registry;
use crate::rejection::{Rejection, RejectionView};
use crate::settings::{SettingsView, UnitSettings};

verus! {

/// The budget that every unit created by a sign-up is funded with.
pub const SIGNUP_BUDGET: u128 = 100_000_000_000;

/// Where the code of a new unit is fetched from.
pub const USER_CANISTER_WASM_MODULE_URL: &'static str = "https://localhost:3000/user_canister.wasm";

/// The call that sets a unit's initial application state.
#[derive(Clone, Debug, PartialEq, Eq)]
pub struct BootstrapCall {
    pub unit: UnitIdentity,
    pub initial_state: AppState,
}

/// A bootstrap call as a plain value.
pub struct BootstrapCallView {
    pub unit: UnitIdentity,
    pub initial_state: AppStateView,
}

impl View for BootstrapCall {
    type V = BootstrapCallView;

    open spec fn view(&self) -> BootstrapCallView {
        BootstrapCallView { unit: self.unit, initial_state: self.initial_state@ }
    }
}

impl BootstrapCall {
    /// Where the call goes: to the unit's own `create_user`.
    pub fn destination(&self) -> (destination: Destination)
        ensures
            destination@ == (DestinationView { unit: self.unit@, method: "create_user"@ }),
    {
        Destination { unit: self.unit, method: "create_user" }
    }
}

/// Where a sign-up stands.
#[derive(Clone, Debug, PartialEq, Eq)]
pub enum SignupState {
    /// The creation of the unit has been asked for.
    Requested { initial_state: AppState },
    /// The unit exists; its code is being fetched.
    Created { unit: UnitIdentity, initial_state: AppState },
    /// The code is in hand and is being installed.
    Fetched { unit: UnitIdentity, initial_state: AppState },
    /// The code is installed; the initial state is being set.
    Installed { unit: UnitIdentity },
    /// The unit is ready and entered in the registry.
    Bootstrapped { unit: UnitIdentity },
    /// A stage was rejected. A unit that was created before stays as it is.
    Failed { stage: Stage, reason: Rejection },
}

/// A sign-up as a plain value.
pub enum SignupStateView {
    Requested { initial_state: AppStateView },
    Created { unit: UnitIdentity, initial_state: AppStateView },
    Fetched { unit: UnitIdentity, initial_state: AppStateView },
    Installed { unit: UnitIdentity },
    Bootstrapped { unit: UnitIdentity },
    Failed { stage: Stage, reason: RejectionView },
}

impl View for SignupState {
    type V = SignupStateView;

    open spec fn view(&self) -> SignupStateView {
        match self {
            SignupState::Requested { initial_state } => SignupStateView::Requested {
                initial_state: initial_state@,
            },
            SignupState::Created { unit, initial_state } => SignupStateView::Created {
                unit: *unit,
                initial_state: initial_state@,
            },
            SignupState::Fetched { unit, initial_state } => SignupStateView::Fetched {
                unit: *unit,
                initial_state: initial_state@,
            },
            SignupState::Installed { unit } => SignupStateView::Installed { unit: *unit },
            SignupState::Bootstrapped { unit } => SignupStateView::Bootstrapped { unit: *unit },
            SignupState::Failed { stage, reason } => SignupStateView::Failed {
                stage: *stage,
                reason: reason@,
            },
        }
    }
}

/// What came back from one of the four remote calls.
#[derive(Debug, PartialEq, Eq)]
pub enum SignupEvent {
    /// The creation authority answered: the new unit, or a rejection.
    CreationReplied(Result<UnitIdentity, Rejection>),
    /// The code source answered: the body of the response, or a rejection.
    FetchReplied(Result<Vec<u8>, Rejection>),
    InstallReplied(Result<(), Rejection>),
    BootstrapReplied(Result<(), Rejection>),
}

/// An event as a plain value.
pub enum SignupEventView {
    CreationReplied(Result<UnitIdentity, RejectionView>),
    FetchReplied(Result<Seq<u8>, RejectionView>),
    InstallReplied(Result<(), RejectionView>),
    BootstrapReplied(Result<(), RejectionView>),
}

impl View for SignupEvent {
    type V = SignupEventView;

    open spec fn view(&self) -> SignupEventView {
        match self {
            SignupEvent::CreationReplied(Ok(unit)) => SignupEventView::CreationReplied(Ok(*unit)),
            SignupEvent::CreationReplied(Err(reason)) => SignupEventView::CreationReplied(
                Err(reason@),
            ),
            SignupEvent::FetchReplied(Ok(body)) => SignupEventView::FetchReplied(Ok(body@)),
            SignupEvent::FetchReplied(Err(reason)) => SignupEventView::FetchReplied(Err(reason@)),
            SignupEvent::InstallReplied(answer) => SignupEventView::InstallReplied(
                answer_view(*answer),
            ),
            SignupEvent::BootstrapReplied(answer) => SignupEventView::BootstrapReplied(
                answer_view(*answer),
            ),
        }
    }
}

/// What is to be done next.
#[derive(Debug, PartialEq, Eq)]
pub enum SignupAction {
    Fetch(FetchRequest),
    Install(InstallRecord),
    Bootstrap(BootstrapCall),
    /// Answer the caller: the flow has ended.
    Respond(Result<UnitIdentity, ProvisionError>),
    /// Nothing: the event was not awaited.
    Nothing,
}

/// An action as a plain value.
pub enum SignupActionView {
    Fetch(FetchRequestView),
    Install(InstallRecordView),
    Bootstrap(BootstrapCallView),
    Respond(Result<UnitIdentity, ProvisionErrorView>),
    Nothing,
}

impl View for SignupAction {
    type V = SignupActionView;

    open spec fn view(&self) -> SignupActionView {
        match self {
            SignupAction::Fetch(request) => SignupActionView::Fetch(request@),
            SignupAction::Install(record) => SignupActionView::Install(record@),
            SignupAction::Bootstrap(call) => SignupActionView::Bootstrap(call@),
            SignupAction::Respond(Ok(unit)) => SignupActionView::Respond(Ok(*unit)),
            SignupAction::Respond(Err(error)) => SignupActionView::Respond(Err(error@)),
            SignupAction::Nothing => SignupActionView::Nothing,
        }
    }
}

/// The settings of a unit made by a sign-up: the caller and the orchestrator
/// control it, in that order, and nothing else is asked for.
pub open spec fn signup_settings<A>(context: CallerContext) -> SettingsView<A> {
    SettingsView {
        controller: None,
        controllers: Some(seq![context.caller, context.self_identity]),
        compute_allocation: None,
        memory_allocation: None,
        freezing_threshold: None,
    }
}

/// The creation request that a sign-up sends.
pub open spec fn signup_request<A>(context: CallerContext) -> CreateRequestView<A> {
    CreateRequestView { budget: SIGNUP_BUDGET as nat, settings: signup_settings(context) }
}

/// The step of a sign-up: from where it stands and what came back, to where
/// it stands then and what is to be done.
///
/// Each stage that succeeds leads to the next: creation to the fetch of the
/// code, the fetch to its installation in the new unit, the installation to
/// the call that hands the unit its initial state, and that call to the
/// answer for the caller. A rejection at any stage ends the flow with the
/// failure of that stage. An event that is not awaited changes nothing.
pub open spec fn signup_next(state: SignupStateView, event: SignupEventView) -> (
    SignupStateView,
    SignupActionView,
) {
    match (state, event) {
        (
            SignupStateView::Requested { initial_state },
            SignupEventView::CreationReplied(Ok(unit)),
        ) => (
            SignupStateView::Created { unit, initial_state },
            SignupActionView::Fetch(plain_get(USER_CANISTER_WASM_MODULE_URL@)),
        ),
        (SignupStateView::Requested { .. }, SignupEventView::CreationReplied(Err(reason))) => (
            SignupStateView::Failed { stage: Stage::Creation, reason },
            SignupActionView::Respond(Err(failure_at(Stage::Creation, reason))),
        ),
        (
            SignupStateView::Created { unit, initial_state },
            SignupEventView::FetchReplied(Ok(code)),
        ) => (
            SignupStateView::Fetched { unit, initial_state },
            SignupActionView::Install(installation(unit, code, InstallMode::Install)),
        ),
        (SignupStateView::Created { .. }, SignupEventView::FetchReplied(Err(reason))) => (
            SignupStateView::Failed { stage: Stage::Fetch, reason },
            SignupActionView::Respond(Err(failure_at(Stage::Fetch, reason))),
        ),
        (
            SignupStateView::Fetched { unit, initial_state },
            SignupEventView::InstallReplied(Ok(())),
        ) => (
            SignupStateView::Installed { unit },
            SignupActionView::Bootstrap(BootstrapCallView { unit, initial_state }),
        ),
        (SignupStateView::Fetched { .. }, SignupEventView::InstallReplied(Err(reason))) => (
            SignupStateView::Failed { stage: Stage::Install, reason },
            SignupActionView::Respond(Err(failure_at(Stage::Install, reason))),
        ),
        (SignupStateView::Installed { unit }, SignupEventView::BootstrapReplied(Ok(()))) => (
            SignupStateView::Bootstrapped { unit },
            SignupActionView::Respond(Ok(unit)),
        ),
        (SignupStateView::Installed { .. }, SignupEventView::BootstrapReplied(Err(reason))) => (
            SignupStateView::Failed { stage: Stage::Bootstrap, reason },
            SignupActionView::Respond(Err(failure_at(Stage::Bootstrap, reason))),
        ),
        _ => (state, SignupActionView::Nothing),
    }
}

/// The unit that a step enters in the registry: the unit of the flow when
/// the step completes it, and none in every other case.
pub open spec fn signup_entry(state: SignupStateView, event: SignupEventView) -> Option<
    UnitIdentity,
> {
    match (state, event) {
        (SignupStateView::Installed { unit }, SignupEventView::BootstrapReplied(Ok(()))) => Some(
            unit,
        ),
        _ => None,
    }
}

/// The registry after a step.
pub open spec fn registry_after(
    registry: Seq<UnitIdentity>,
    state: SignupStateView,
    event: SignupEventView,
) -> Seq<UnitIdentity> {
    match signup_entry(state, event) {
        Some(unit) => registry.push(unit),
        None => registry,
    }
}

/// Where a flow stands after a run of events, and what the registry holds
/// then.
pub open spec fn signup_run(
    state: SignupStateView,
    registry: Seq<UnitIdentity>,
    events: Seq<SignupEventView>,
) -> (SignupStateView, Seq<UnitIdentity>)
    decreases events.len(),
{
    if events.len() == 0 {
        (state, registry)
    } else {
        let (before, entries) = signup_run(state, registry, events.drop_last());
        (signup_next(before, events.last()).0, registry_after(entries, before, events.last()))
    }
}

/// Begins a sign-up with the given initial state: the creation request to
/// send first, and the flow that awaits its answer.
pub fn begin_signup<A>(context: &CallerContext, initial_state: AppState) -> (begun: (
    SignupState,
    CreateRequest<A>,
))
    ensures
        begun.0@ == (SignupStateView::Requested { initial_state: initial_state@ }),
        begun.1@ == signup_request::<A>(*context),
{
    let mut controllers: Vec<UnitIdentity> = Vec::with_capacity(2);
    controllers.push(context.caller);
    controllers.push(context.self_identity);
    assert(controllers@ =~= seq![context.caller, context.self_identity]);
    let settings = UnitSettings {
        controller: None,
        controllers: Some(controllers),
        compute_allocation: None,
        memory_allocation: None,
        freezing_threshold: None,
    };
    (SignupState::Requested { initial_state }, CreateRequest { budget: SIGNUP_BUDGET, settings })
}

/// Takes a sign-up one step further. The registry gains the flow's unit in
/// the step that completes the flow, and is left alone by every other step.
pub fn signup_step(state: SignupState, event: SignupEvent, registry: &mut Registry) -> (next: (
    SignupState,
    SignupAction,
))
    ensures
        (next.0@, next.1@) == signup_next(state@, event@),
        final(registry)@ == registry_after(old(registry)@, state@, event@),
{
    match (state, event) {
        (SignupState::Requested { initial_state }, SignupEvent::CreationReplied(Ok(unit))) => {
            let request = fetch_request(String::from_str(USER_CANISTER_WASM_MODULE_URL));
            (SignupState::Created { unit, initial_state }, SignupAction::Fetch(request))
        },
        (SignupState::Requested { initial_state }, SignupEvent::CreationReplied(Err(reason))) => {
            let told = reason.duplicate();
            (
                SignupState::Failed { stage: Stage::Creation, reason },
                SignupAction::Respond(Err(ProvisionError::CreationRejected(told))),
            )
        },
        (SignupState::Created { unit, initial_state }, SignupEvent::FetchReplied(Ok(code))) => (
            SignupState::Fetched { unit, initial_state },
            SignupAction::Install(install_record(unit, code, InstallMode::Install)),
        ),
        (SignupState::Created { unit, initial_state }, SignupEvent::FetchReplied(Err(reason))) => {
            let told = reason.duplicate();
            (
                SignupState::Failed { stage: Stage::Fetch, reason },
                SignupAction::Respond(Err(ProvisionError::FetchFailed(told))),
            )
        },
        (SignupState::Fetched { unit, initial_state }, SignupEvent::InstallReplied(Ok(()))) => (
            SignupState::Installed { unit },
            SignupAction::Bootstrap(BootstrapCall { unit, initial_state }),
        ),
        (
            SignupState::Fetched { unit, initial_state },
            SignupEvent::InstallReplied(Err(reason)),
        ) => {
            let told = reason.duplicate();
            (
                SignupState::Failed { stage: Stage::Install, reason },
                SignupAction::Respond(Err(ProvisionError::InstallFailed(told))),
            )
        },
        (SignupState::Installed { unit }, SignupEvent::BootstrapReplied(Ok(()))) => {
            registry.append(unit);
            (SignupState::Bootstrapped { unit }, SignupAction::Respond(Ok(unit)))
        },
        (SignupState::Installed { unit }, SignupEvent::BootstrapReplied(Err(reason))) => {
            let told = reason.duplicate();
            (
                SignupState::Failed { stage: Stage::Bootstrap, reason },
                SignupAction::Respond(Err(ProvisionError::BootstrapFailed(told))),
            )
        },
        (state, _) => (state, SignupAction::Nothing),
    }
}

} // verus!
