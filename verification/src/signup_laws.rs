//! What holds of every sign-up, whatever answers reach it and in whatever
//! order.

use vstd::prelude::*;
use crate::app_state::AppStateView;
use crate::creation::{creation_request, CreateRequestView};
use crate::error::{failure_at, ProvisionErrorView, Stage};
use crate::identity::{CallerContext, UnitIdentity};
use crate::rejection::RejectionView;
use crate::settings::SettingsView;
use crate::signup::{
    registry_after, signup_entry, signup_next, signup_request, signup_run, SignupActionView,
    SignupEventView, SignupStateView, SIGNUP_BUDGET,
};

verus! {

/// The request that a sign-up sends is the one that a creation with the
/// sign-up budget and no settings at all would send.
pub proof fn signup_request_is_default_creation<A>(context: CallerContext)
    ensures
        creation_request(
            context,
            SIGNUP_BUDGET as nat,
            SettingsView::<A> {
                controller: None,
                controllers: None,
                compute_allocation: None,
                memory_allocation: None,
                freezing_threshold: None,
            },
        ) == Ok::<CreateRequestView<A>, ProvisionErrorView>(signup_request(context)),
{
}

/// A step enters a unit in the registry exactly when it completes the flow:
/// the registry grows by that one unit, at its end, when the flow goes from
/// `Installed` to `Bootstrapped`, and is unchanged by any other step.
pub proof fn registry_grows_only_on_completion(
    registry: Seq<UnitIdentity>,
    state: SignupStateView,
    event: SignupEventView,
)
    ensures
        !(state is Bootstrapped) && signup_next(state, event).0 is Bootstrapped ==> registry_after(
            registry,
            state,
            event,
        ) == registry.push(signup_next(state, event).0->Bootstrapped_unit),
        state is Bootstrapped || !(signup_next(state, event).0 is Bootstrapped) ==> registry_after(
            registry,
            state,
            event,
        ) == registry,
        signup_next(state, event).0 is Failed ==> registry_after(registry, state, event)
            == registry,
{
}

/// Whatever events reach a flow that has just been begun, and in whatever
/// order: the registry holds one entry more than before, the flow's unit at
/// its end, if the flow has come to `Bootstrapped`, and is as it was before
/// if the flow stands anywhere else.
pub proof fn registry_tracks_completed_flows(
    initial_state: AppStateView,
    registry: Seq<UnitIdentity>,
    events: Seq<SignupEventView>,
)
    ensures
        ({
            let (state, entries) = signup_run(
                SignupStateView::Requested { initial_state },
                registry,
                events,
            );
            if state is Bootstrapped {
                entries == registry.push(state->Bootstrapped_unit)
            } else {
                entries == registry
            }
        }),
    decreases events.len(),
{
    if events.len() > 0 {
        registry_tracks_completed_flows(initial_state, registry, events.drop_last());
    }
}

/// The registry after a run of steps, each taken by some flow: the flow
/// stood in the given state and was answered with the given event.
pub open spec fn registry_through(
    registry: Seq<UnitIdentity>,
    steps: Seq<(SignupStateView, SignupEventView)>,
) -> Seq<UnitIdentity>
    decreases steps.len(),
{
    if steps.len() == 0 {
        registry
    } else {
        registry_after(
            registry_through(registry, steps.drop_last()),
            steps.last().0,
            steps.last().1,
        )
    }
}

/// The units of the steps that completed a flow, in the order in which the
/// steps were taken.
pub open spec fn completions(steps: Seq<(SignupStateView, SignupEventView)>) -> Seq<UnitIdentity>
    decreases steps.len(),
{
    if steps.len() == 0 {
        Seq::empty()
    } else {
        match signup_entry(steps.last().0, steps.last().1) {
            Some(unit) => completions(steps.drop_last()).push(unit),
            None => completions(steps.drop_last()),
        }
    }
}

/// Whatever flows take whatever steps over one registry, interleaved in
/// whatever way: nothing that was in the registry is removed or changed, and
/// what is added are the units of the flows that completed, in the order in
/// which they completed, whenever they were begun.
pub proof fn registry_is_append_only_in_completion_order(
    registry: Seq<UnitIdentity>,
    steps: Seq<(SignupStateView, SignupEventView)>,
)
    ensures
        registry_through(registry, steps) == registry + completions(steps),
        registry.is_prefix_of(registry_through(registry, steps)),
    decreases steps.len(),
{
    if steps.len() > 0 {
        registry_is_append_only_in_completion_order(registry, steps.drop_last());
    }
    assert(registry_through(registry, steps) =~= registry + completions(steps));
}

/// Whether an event is the rejection of the given stage with the given
/// reason.
pub open spec fn rejects(event: SignupEventView, stage: Stage, reason: RejectionView) -> bool {
    match event {
        SignupEventView::CreationReplied(Err(told)) => stage == Stage::Creation && told == reason,
        SignupEventView::FetchReplied(Err(told)) => stage == Stage::Fetch && told == reason,
        SignupEventView::InstallReplied(Err(told)) => stage == Stage::Install && told == reason,
        SignupEventView::BootstrapReplied(Err(told)) => stage == Stage::Bootstrap && told
            == reason,
        _ => false,
    }
}

/// Whether the events hold, at the four given places and in this order, the
/// successful answers of all four stages for the given unit: its creation, a
/// fetch, an installation and a bootstrap. Other events may lie between.
pub open spec fn holds_all_four_successes(
    events: Seq<SignupEventView>,
    unit: UnitIdentity,
    places: (int, int, int, int),
) -> bool {
    &&& 0 <= places.0 < places.1 < places.2 < places.3 < events.len()
    &&& events[places.0] == SignupEventView::CreationReplied(Ok(unit))
    &&& events[places.1] is FetchReplied && events[places.1]->FetchReplied_0 is Ok
    &&& events[places.2] is InstallReplied && events[places.2]->InstallReplied_0 is Ok
    &&& events[places.3] is BootstrapReplied && events[places.3]->BootstrapReplied_0 is Ok
}

/// How the events account for a flow that stands in the given state: the
/// successes that the state presupposes are among them, in order; a flow
/// that has not yet handed over its initial state still holds the one it was
/// begun with; and a failed flow has been told the rejection it reports.
pub open spec fn accounts_for(
    events: Seq<SignupEventView>,
    initial_state: AppStateView,
    state: SignupStateView,
    places: (int, int, int, int),
) -> bool {
    match state {
        SignupStateView::Requested { initial_state: held } => held == initial_state,
        SignupStateView::Created { unit, initial_state: held } => {
            &&& held == initial_state
            &&& 0 <= places.0 < events.len()
            &&& events[places.0] == SignupEventView::CreationReplied(Ok(unit))
        },
        SignupStateView::Fetched { unit, initial_state: held } => {
            &&& held == initial_state
            &&& 0 <= places.0 < places.1 < events.len()
            &&& events[places.0] == SignupEventView::CreationReplied(Ok(unit))
            &&& events[places.1] is FetchReplied && events[places.1]->FetchReplied_0 is Ok
        },
        SignupStateView::Installed { unit } => {
            &&& 0 <= places.0 < places.1 < places.2 < events.len()
            &&& events[places.0] == SignupEventView::CreationReplied(Ok(unit))
            &&& events[places.1] is FetchReplied && events[places.1]->FetchReplied_0 is Ok
            &&& events[places.2] is InstallReplied && events[places.2]->InstallReplied_0 is Ok
        },
        SignupStateView::Bootstrapped { unit } => holds_all_four_successes(events, unit, places),
        SignupStateView::Failed { stage, reason } => {
            &&& 0 <= places.3 < events.len()
            &&& rejects(events[places.3], stage, reason)
        },
    }
}

/// Every state of a flow is accounted for by the events that led to it.
pub proof fn states_are_accounted_for(
    initial_state: AppStateView,
    registry: Seq<UnitIdentity>,
    events: Seq<SignupEventView>,
) -> (places: (int, int, int, int))
    ensures
        accounts_for(
            events,
            initial_state,
            signup_run(SignupStateView::Requested { initial_state }, registry, events).0,
            places,
        ),
    decreases events.len(),
{
    if events.len() == 0 {
        (0, 0, 0, 0)
    } else {
        let earlier = events.drop_last();
        let before = signup_run(SignupStateView::Requested { initial_state }, registry, earlier).0;
        let after = signup_next(before, events.last()).0;
        let found = states_are_accounted_for(initial_state, registry, earlier);
        let here = events.len() - 1;
        assert(forall|i: int| 0 <= i < earlier.len() ==> earlier[i] == events[i]);
        assert(events[here] == events.last());
        if after == before {
            found
        } else if after is Failed {
            (0, 0, 0, here)
        } else {
            match before {
                SignupStateView::Requested { .. } => (here, 0, 0, 0),
                SignupStateView::Created { .. } => (found.0, here, 0, 0),
                SignupStateView::Fetched { .. } => (found.0, found.1, here, 0),
                SignupStateView::Installed { .. } => (found.0, found.1, found.2, here),
                _ => found,
            }
        }
    }
}

/// A unit is entered in the registry only after all four stages succeeded
/// for it, one after the other: a flow that stands at `Bootstrapped` has
/// been answered with the creation of its unit, then a fetched body, then a
/// successful installation, then a successful bootstrap.
pub proof fn completion_needs_all_four_stages(
    initial_state: AppStateView,
    registry: Seq<UnitIdentity>,
    events: Seq<SignupEventView>,
) -> (places: (int, int, int, int))
    requires
        signup_run(SignupStateView::Requested { initial_state }, registry, events).0
            is Bootstrapped,
    ensures
        holds_all_four_successes(
            events,
            signup_run(
                SignupStateView::Requested { initial_state },
                registry,
                events,
            ).0->Bootstrapped_unit,
            places,
        ),
{
    states_are_accounted_for(initial_state, registry, events)
}

/// A flow fails only by a rejection, and reports it unchanged: a flow that
/// stands at `Failed` has been answered, at the stage it names, with the
/// very rejection it holds.
pub proof fn failure_reports_a_rejection(
    initial_state: AppStateView,
    registry: Seq<UnitIdentity>,
    events: Seq<SignupEventView>,
) -> (place: int)
    requires
        signup_run(SignupStateView::Requested { initial_state }, registry, events).0 is Failed,
    ensures
        0 <= place < events.len(),
        ({
            let state = signup_run(
                SignupStateView::Requested { initial_state },
                registry,
                events,
            ).0;
            rejects(events[place], state->Failed_stage, state->Failed_reason)
        }),
{
    states_are_accounted_for(initial_state, registry, events).3
}

/// The state that a unit is bootstrapped with is the state that the sign-up
/// was begun with: whatever events came before, the bootstrap call that a
/// step asks for carries that state and goes to the flow's unit.
pub proof fn bootstrap_carries_the_given_state(
    initial_state: AppStateView,
    registry: Seq<UnitIdentity>,
    events: Seq<SignupEventView>,
    event: SignupEventView,
)
    requires
        signup_next(
            signup_run(SignupStateView::Requested { initial_state }, registry, events).0,
            event,
        ).1 is Bootstrap,
    ensures
        ({
            let before = signup_run(
                SignupStateView::Requested { initial_state },
                registry,
                events,
            ).0;
            let (after, action) = signup_next(before, event);
            &&& action->Bootstrap_0.initial_state == initial_state
            &&& after == SignupStateView::Installed { unit: action->Bootstrap_0.unit }
        }),
{
    let places = states_are_accounted_for(initial_state, registry, events);
}

/// A flow that has ended stays as it ended and asks for nothing more; in
/// particular no unit is entered twice.
pub proof fn ended_flows_stay_ended(state: SignupStateView, event: SignupEventView)
    requires
        state is Bootstrapped || state is Failed,
    ensures
        signup_next(state, event) == (state, SignupActionView::Nothing),
        signup_entry(state, event) is None,
{
}

/// A flow answers its caller exactly in the step in which it ends: with the
/// unit when it ends in `Bootstrapped`, and with the failure of the stage
/// that was rejected when it ends in `Failed`.
pub proof fn flows_answer_when_they_end(state: SignupStateView, event: SignupEventView)
    requires
        !(state is Bootstrapped),
        !(state is Failed),
    ensures
        ({
            let (after, action) = signup_next(state, event);
            &&& after is Bootstrapped <==> action is Respond && action->Respond_0 is Ok
            &&& after is Failed <==> action is Respond && action->Respond_0 is Err
            &&& after is Bootstrapped ==> action->Respond_0->Ok_0 == after->Bootstrapped_unit
            &&& after is Failed ==> action->Respond_0->Err_0 == failure_at(
                after->Failed_stage,
                after->Failed_reason,
            )
        }),
{
}

} // verus!
