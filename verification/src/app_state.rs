//! The application record that a child unit keeps, and the unit's one slot
//! for it.

use vstd::prelude::*;
use crate::identity::UnitIdentity;

verus! {

/// The record that a child unit holds about its user.
#[derive(Clone, Debug, Default, PartialEq, Eq)]
pub struct AppState {
    pub name: String,
    pub age: u64,
    pub contact: String,
}

/// An application record as a plain value.
pub struct AppStateView {
    pub name: Seq<char>,
    pub age: u64,
    pub contact: Seq<char>,
}

impl View for AppState {
    type V = AppStateView;

    open spec fn view(&self) -> AppStateView {
        AppStateView { name: self.name@, age: self.age, contact: self.contact@ }
    }
}

/// The record of a unit that has not been bootstrapped: no name, age zero, no
/// contact.
pub open spec fn empty_state() -> AppStateView {
    AppStateView { name: Seq::empty(), age: 0, contact: Seq::empty() }
}

impl AppState {
    pub fn new(name: String, age: u64, contact: String) -> (state: AppState)
        ensures
            state@ == (AppStateView { name: name@, age, contact: contact@ }),
    {
        AppState { name, age, contact }
    }

    /// The record of a unit that has not been bootstrapped.
    pub fn empty() -> (state: AppState)
        ensures
            state@ == empty_state(),
    {
        AppState { name: String::new(), age: 0, contact: String::new() }
    }

    /// A copy of the record.
    pub fn duplicate(&self) -> (copy: AppState)
        ensures
            copy@ == self@,
    {
        AppState { name: self.name.clone(), age: self.age, contact: self.contact.clone() }
    }
}

/// The single slot in which a child unit keeps its record. It starts out
/// empty; each write replaces the record whole, so the last write wins.
#[derive(Clone, Debug, PartialEq, Eq)]
pub struct StateSlot {
    state: AppState,
}

impl View for StateSlot {
    type V = AppStateView;

    closed spec fn view(&self) -> AppStateView {
        self.state@
    }
}

impl StateSlot {
    pub fn new() -> (slot: StateSlot)
        ensures
            slot@ == empty_state(),
    {
        StateSlot { state: AppState::empty() }
    }

    /// Replaces the record and answers with the unit's own identity.
    pub fn create(&mut self, own_identity: UnitIdentity, user: AppState) -> (answer: Result<
        UnitIdentity,
        String,
    >)
        ensures
            final(self)@ == user@,
            answer == Ok::<UnitIdentity, String>(own_identity),
    {
        self.state = user;
        Ok(own_identity)
    }

    /// The record as it stands.
    pub fn get(&self) -> (answer: Result<AppState, String>)
        ensures
            answer is Ok,
            answer->Ok_0@ == self@,
    {
        Ok(self.state.duplicate())
    }

    /// The name in the record as it stands.
    pub fn get_name(&self) -> (answer: Result<String, String>)
        ensures
            answer is Ok,
            answer->Ok_0@ == self@.name,
    {
        Ok(self.state.name.clone())
    }
}

} // verus!
