//! The configuration of a child unit, and its canonical form.
//!
//! Older callers name one controller in `controller`; newer ones name any
//! number of them in `controllers`. The canonical form uses `controllers`
//! alone. The three allocations are carried along untouched, whatever type
//! `A` they are counted in.

use vstd::prelude::*;
use crate::error::{ProvisionError, ProvisionErrorView};
use crate::identity::UnitIdentity;

verus! {

/// The configuration of a child unit.
#[derive(Clone, Debug, PartialEq, Eq)]
pub struct UnitSettings<A> {
    /// The single controller of the legacy shape.
    pub controller: Option<UnitIdentity>,
    /// The controllers of the canonical shape, in the order given.
    pub controllers: Option<Vec<UnitIdentity>>,
    pub compute_allocation: Option<A>,
    pub memory_allocation: Option<A>,
    pub freezing_threshold: Option<A>,
}

/// A configuration as a plain value.
pub struct SettingsView<A> {
    pub controller: Option<UnitIdentity>,
    pub controllers: Option<Seq<UnitIdentity>>,
    pub compute_allocation: Option<A>,
    pub memory_allocation: Option<A>,
    pub freezing_threshold: Option<A>,
}

impl<A> View for UnitSettings<A> {
    type V = SettingsView<A>;

    open spec fn view(&self) -> SettingsView<A> {
        SettingsView {
            controller: self.controller,
            controllers: match self.controllers {
                Some(list) => Some(list@),
                None => None,
            },
            compute_allocation: self.compute_allocation,
            memory_allocation: self.memory_allocation,
            freezing_threshold: self.freezing_threshold,
        }
    }
}

/// Whether a configuration is in canonical form: the legacy field is unused.
pub open spec fn is_canonical<A>(settings: SettingsView<A>) -> bool {
    settings.controller is None
}

/// The canonical form of a configuration: a conflict when both shapes are
/// used at once; the legacy controller moved into a list of one when only it
/// is given; the configuration itself otherwise.
pub open spec fn normalized<A>(settings: SettingsView<A>) -> Result<
    SettingsView<A>,
    ProvisionErrorView,
> {
    match (settings.controller, settings.controllers) {
        (Some(_), Some(_)) => Err(ProvisionErrorView::ConflictingControllerSpecification),
        (Some(only), None) => Ok(
            SettingsView { controller: None, controllers: Some(seq![only]), ..settings },
        ),
        _ => Ok(settings),
    }
}

/// Brings a configuration into canonical form.
pub fn normalize<A>(settings: UnitSettings<A>) -> (outcome: Result<UnitSettings<A>, ProvisionError>)
    ensures
        match normalized(settings@) {
            Ok(canonical) => outcome is Ok && outcome->Ok_0@ == canonical,
            Err(error) => outcome is Err && outcome->Err_0@ == error,
        },
{
    let UnitSettings {
        controller,
        controllers,
        compute_allocation,
        memory_allocation,
        freezing_threshold,
    } = settings;
    match (controller, controllers) {
        (Some(_), Some(_)) => Err(ProvisionError::ConflictingControllerSpecification),
        (Some(only), None) => {
            let mut list: Vec<UnitIdentity> = Vec::new();
            list.push(only);
            assert(list@ =~= seq![only]);
            Ok(
                UnitSettings {
                    controller: None,
                    controllers: Some(list),
                    compute_allocation,
                    memory_allocation,
                    freezing_threshold,
                },
            )
        },
        (controller, controllers) => Ok(
            UnitSettings {
                controller,
                controllers,
                compute_allocation,
                memory_allocation,
                freezing_threshold,
            },
        ),
    }
}

/// A configuration that uses both shapes at once has no canonical form.
pub proof fn normalized_rejects_both_shapes<A>(settings: SettingsView<A>)
    requires
        settings.controller is Some,
        settings.controllers is Some,
    ensures
        normalized(settings) == Err::<SettingsView<A>, ProvisionErrorView>(
            ProvisionErrorView::ConflictingControllerSpecification,
        ),
{
}

/// A configuration in the legacy shape alone becomes a list of that one
/// controller, with the legacy field cleared and the rest as it was.
pub proof fn normalized_moves_legacy_controller<A>(settings: SettingsView<A>)
    requires
        settings.controller is Some,
        settings.controllers is None,
    ensures
        normalized(settings) is Ok,
        normalized(settings)->Ok_0.controller is None,
        normalized(settings)->Ok_0.controllers == Some(seq![settings.controller->0]),
        normalized(settings)->Ok_0.compute_allocation == settings.compute_allocation,
        normalized(settings)->Ok_0.memory_allocation == settings.memory_allocation,
        normalized(settings)->Ok_0.freezing_threshold == settings.freezing_threshold,
{
}

/// Canonical form is reached in one step: a canonical form is canonical, and
/// bringing it into canonical form again changes nothing.
pub proof fn normalized_is_idempotent<A>(settings: SettingsView<A>)
    requires
        normalized(settings) is Ok,
    ensures
        is_canonical(normalized(settings)->Ok_0),
        normalized(normalized(settings)->Ok_0) == normalized(settings),
{
}

} // verus!
