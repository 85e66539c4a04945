//! The funded creation of a unit: what is asked of the creation authority,
//! and what its answer means.
//!
//! The whole budget travels with the one call. The authority either takes the
//! call and the budget, or turns the call down; nothing is tried twice.

use vstd::prelude::*;
use crate::chart::{update_chart, ChartTick};
use crate::error::{ProvisionError, ProvisionErrorView};
use crate::identity::{
    at_management, management_canister, CallerContext, Destination, UnitIdentity,
};
use crate::rejection::Rejection;
use crate::settings::{normalize, normalized, SettingsView, UnitSettings};

verus! {

/// The one call that goes to the creation authority: the budget that is
/// attached to it and the settings that it carries.
#[derive(Clone, Debug, PartialEq, Eq)]
pub struct CreateRequest<A> {
    pub budget: u128,
    pub settings: UnitSettings<A>,
}

/// A creation request as a plain value.
pub struct CreateRequestView<A> {
    pub budget: nat,
    pub settings: SettingsView<A>,
}

impl<A> View for CreateRequest<A> {
    type V = CreateRequestView<A>;

    open spec fn view(&self) -> CreateRequestView<A> {
        CreateRequestView { budget: self.budget as nat, settings: self.settings@ }
    }
}

impl<A> CreateRequest<A> {
    /// Where the request goes: to the management service's `create_canister`.
    pub fn destination(&self) -> (destination: Destination)
        ensures
            destination@ == at_management("create_canister"@),
    {
        Destination { unit: management_canister(), method: "create_canister" }
    }
}

/// Whether a configuration names no controller in its list.
pub open spec fn lacks_controllers<A>(settings: SettingsView<A>) -> bool {
    match settings.controllers {
        Some(list) => list.len() == 0,
        None => true,
    }
}

/// The configuration with its controller list made non-empty: where the list
/// names nobody, it becomes the caller followed by the orchestrator itself;
/// a list that names somebody stays as it is.
pub open spec fn administered<A>(context: CallerContext, settings: SettingsView<A>) -> SettingsView<
    A,
> {
    if lacks_controllers(settings) {
        SettingsView {
            controllers: Some(seq![context.caller, context.self_identity]),
            ..settings
        }
    } else {
        settings
    }
}

/// The request that a creation with the given budget and settings sends:
/// the settings in canonical form, with the caller and the orchestrator as
/// controllers where none were named, and the whole budget.
pub open spec fn creation_request<A>(
    context: CallerContext,
    budget: nat,
    settings: SettingsView<A>,
) -> Result<CreateRequestView<A>, ProvisionErrorView> {
    match normalized(settings) {
        Ok(canonical) => Ok(
            CreateRequestView { budget, settings: administered(context, canonical) },
        ),
        Err(error) => Err(error),
    }
}

/// Makes the controller list of a configuration non-empty.
pub fn ensure_controllers<A>(context: &CallerContext, settings: UnitSettings<A>) -> (ready:
    UnitSettings<A>)
    ensures
        ready@ == administered(*context, settings@),
{
    let UnitSettings {
        controller,
        controllers,
        compute_allocation,
        memory_allocation,
        freezing_threshold,
    } = settings;
    let mut list: Vec<UnitIdentity> = match controllers {
        Some(list) => list,
        None => Vec::with_capacity(2),
    };
    if list.is_empty() {
        list.push(context.caller);
        list.push(context.self_identity);
        assert(list@ =~= seq![context.caller, context.self_identity]);
    }
    UnitSettings {
        controller,
        controllers: Some(list),
        compute_allocation,
        memory_allocation,
        freezing_threshold,
    }
}

/// Prepares the call to the creation authority for a budget in the wide
/// representation. Fails, before anything is sent, exactly when the settings
/// use both controller shapes.
pub fn prepare_creation<A>(
    context: &CallerContext,
    budget: u128,
    settings: UnitSettings<A>,
) -> (outcome: Result<CreateRequest<A>, ProvisionError>)
    ensures
        match creation_request(*context, budget as nat, settings@) {
            Ok(request) => outcome is Ok && outcome->Ok_0@ == request,
            Err(error) => outcome is Err && outcome->Err_0@ == error,
        },
{
    match normalize(settings) {
        Ok(canonical) => Ok(
            CreateRequest { budget, settings: ensure_controllers(context, canonical) },
        ),
        Err(error) => Err(error),
    }
}

/// Prepares the call to the creation authority for a budget in the 64-bit
/// representation: the same request as for the same amount in the wide one.
pub fn prepare_creation64<A>(
    context: &CallerContext,
    budget: u64,
    settings: UnitSettings<A>,
) -> (outcome: Result<CreateRequest<A>, ProvisionError>)
    ensures
        match creation_request(*context, budget as nat, settings@) {
            Ok(request) => outcome is Ok && outcome->Ok_0@ == request,
            Err(error) => outcome is Err && outcome->Err_0@ == error,
        },
{
    prepare_creation(context, budget as u128, settings)
}

/// Reads the authority's answer to a creation request: the identity of the
/// new unit, or the rejection as a rejected creation.
pub fn creation_outcome(answer: Result<UnitIdentity, Rejection>) -> (outcome: Result<
    UnitIdentity,
    ProvisionError,
>)
    ensures
        match answer {
            Ok(unit) => outcome == Ok::<UnitIdentity, ProvisionError>(unit),
            Err(rejection) => outcome is Err && outcome->Err_0@
                == ProvisionErrorView::CreationRejected(rejection@),
        },
{
    match answer {
        Ok(unit) => Ok(unit),
        Err(rejection) => Err(ProvisionError::CreationRejected(rejection)),
    }
}

/// Reads the authority's answer as the wallet interface does, which keeps a
/// chart of its budget: a creation that succeeded adds the sample of the
/// given moment to the chart, and a rejected one leaves the chart alone.
pub fn wallet_creation_outcome(
    answer: Result<UnitIdentity, Rejection>,
    chart: &mut Vec<ChartTick>,
    timestamp: u64,
    cycles: u64,
) -> (outcome: Result<UnitIdentity, ProvisionError>)
    ensures
        match answer {
            Ok(unit) => {
                &&& outcome == Ok::<UnitIdentity, ProvisionError>(unit)
                &&& final(chart)@ == old(chart)@.push(ChartTick::sample(timestamp, cycles))
            },
            Err(rejection) => {
                &&& outcome is Err
                &&& outcome->Err_0@ == ProvisionErrorView::CreationRejected(rejection@)
                &&& final(chart)@ == old(chart)@
            },
        },
{
    let outcome = creation_outcome(answer);
    if outcome.is_ok() {
        update_chart(chart, timestamp, cycles);
    }
    outcome
}

/// Whoever asks, a unit that is created has a controller: the request never
/// goes out with an empty list, it never uses the legacy field, and it
/// carries the whole budget.
pub proof fn created_units_are_administered<A>(
    context: CallerContext,
    budget: nat,
    settings: SettingsView<A>,
)
    requires
        creation_request(context, budget, settings) is Ok,
    ensures
        !lacks_controllers(creation_request(context, budget, settings)->Ok_0.settings),
        creation_request(context, budget, settings)->Ok_0.settings.controller is None,
        creation_request(context, budget, settings)->Ok_0.budget == budget,
{
}

/// Settings that name no controller at all are sent with exactly the caller
/// and the orchestrator as controllers, in that order.
pub proof fn absent_controllers_become_caller_and_self<A>(
    context: CallerContext,
    budget: nat,
    settings: SettingsView<A>,
)
    requires
        settings.controller is None,
        lacks_controllers(settings),
    ensures
        creation_request(context, budget, settings) is Ok,
        creation_request(context, budget, settings)->Ok_0.settings.controllers == Some(
            seq![context.caller, context.self_identity],
        ),
{
}

/// Controllers that were named are sent as they were named, in their order.
pub proof fn named_controllers_are_kept<A>(
    context: CallerContext,
    budget: nat,
    settings: SettingsView<A>,
)
    requires
        settings.controller is None,
        !lacks_controllers(settings),
    ensures
        creation_request(context, budget, settings) is Ok,
        creation_request(context, budget, settings)->Ok_0.settings == settings,
{
}

} // verus!
