use dynamic_canisters::app_state::{AppState, StateSlot};
use dynamic_canisters::creation::CreateRequest;
use dynamic_canisters::error::{ProvisionError, Stage};
use dynamic_canisters::fetch::{FetchRequest, HttpMethod};
use dynamic_canisters::identity::{CallerContext, UnitIdentity};
use dynamic_canisters::install::{InstallMode, InstallRecord};
use dynamic_canisters::lookup::lookup_outcome;
use dynamic_canisters::registry::Registry;
use dynamic_canisters::rejection::{Rejection, RejectionCode};
use dynamic_canisters::settings::UnitSettings;
use dynamic_canisters::signup::{
    begin_signup, signup_step, BootstrapCall, SignupAction, SignupEvent, SignupState,
    SIGNUP_BUDGET, USER_CANISTER_WASM_MODULE_URL,
};

fn unit(tag: u8) -> UnitIdentity {
    UnitIdentity::from_slice(&[0, 0, 0, 0, 0, tag, 1, 1]).unwrap()
}

fn who() -> CallerContext {
    CallerContext {
        caller: UnitIdentity::from_slice(&[4]).unwrap(),
        self_identity: UnitIdentity::from_slice(&[7, 7]).unwrap(),
    }
}

fn ann() -> AppState {
    AppState::new("Ann".to_string(), 41, "a@x".to_string())
}

fn bob() -> AppState {
    AppState::new("Bob".to_string(), 29, "b@y".to_string())
}

fn rejected(number: i32, message: &str) -> Rejection {
    Rejection::new(RejectionCode::from_number(number), message.to_string())
}

fn begin(user: AppState) -> (SignupState, CreateRequest<u64>) {
    begin_signup(&who(), user)
}

/// Takes a flow through creation, fetch and installation, all successful.
fn installed(user: AppState, made: UnitIdentity, registry: &mut Registry) -> SignupState {
    let (state, _) = begin(user);
    let (state, _) = signup_step(state, SignupEvent::CreationReplied(Ok(made)), registry);
    let (state, _) = signup_step(state, SignupEvent::FetchReplied(Ok(vec![0, 97, 115, 109])), registry);
    let (state, _) = signup_step(state, SignupEvent::InstallReplied(Ok(())), registry);
    state
}

#[test]
fn signup_first_asks_for_a_funded_unit_controlled_by_caller_and_self() {
    let (state, request) = begin(ann());
    assert_eq!(state, SignupState::Requested { initial_state: ann() });
    assert_eq!(SIGNUP_BUDGET, 100_000_000_000u128);
    assert_eq!(
        request,
        CreateRequest {
            budget: 100_000_000_000,
            settings: UnitSettings {
                controller: None,
                controllers: Some(vec![who().caller, who().self_identity]),
                compute_allocation: None,
                memory_allocation: None,
                freezing_threshold: None,
            },
        }
    );
}

#[test]
fn signup_walks_through_all_four_stages() {
    let mut registry = Registry::new();
    let (state, _) = begin(ann());

    let (state, action) = signup_step(state, SignupEvent::CreationReplied(Ok(unit(1))), &mut registry);
    assert_eq!(state, SignupState::Created { unit: unit(1), initial_state: ann() });
    assert_eq!(
        action,
        SignupAction::Fetch(FetchRequest {
            url: "https://localhost:3000/user_canister.wasm".to_string(),
            max_response_bytes: None,
            method: HttpMethod::Get,
            headers: vec![],
            body: None,
            transform: None,
        })
    );
    assert_eq!(USER_CANISTER_WASM_MODULE_URL, "https://localhost:3000/user_canister.wasm");
    assert_eq!(registry.len(), 0);

    let code = vec![0u8, 97, 115, 109, 1, 0, 0, 0];
    let (state, action) = signup_step(state, SignupEvent::FetchReplied(Ok(code.clone())), &mut registry);
    assert_eq!(state, SignupState::Fetched { unit: unit(1), initial_state: ann() });
    assert_eq!(
        action,
        SignupAction::Install(InstallRecord {
            mode: InstallMode::Install,
            unit: unit(1),
            code,
            init_arg: vec![],
        })
    );
    assert_eq!(registry.len(), 0);

    let (state, action) = signup_step(state, SignupEvent::InstallReplied(Ok(())), &mut registry);
    assert_eq!(state, SignupState::Installed { unit: unit(1) });
    assert_eq!(action, SignupAction::Bootstrap(BootstrapCall { unit: unit(1), initial_state: ann() }));
    assert_eq!(registry.len(), 0);

    let (state, action) = signup_step(state, SignupEvent::BootstrapReplied(Ok(())), &mut registry);
    assert_eq!(state, SignupState::Bootstrapped { unit: unit(1) });
    assert_eq!(action, SignupAction::Respond(Ok(unit(1))));
    assert_eq!(registry.list(), vec![unit(1)]);
}

#[test]
fn signup_then_lookup_returns_the_record() {
    let mut registry = Registry::new();
    let mut child = StateSlot::new();
    assert_eq!(child.get(), Ok(AppState::new(String::new(), 0, String::new())));

    let state = installed(ann(), unit(1), &mut registry);
    let call = BootstrapCall { unit: unit(1), initial_state: ann() };
    let answer = child.create(call.unit, call.initial_state);
    assert_eq!(answer, Ok(unit(1)));
    let (state, action) = signup_step(state, SignupEvent::BootstrapReplied(Ok(())), &mut registry);
    assert_eq!(state, SignupState::Bootstrapped { unit: unit(1) });
    assert_eq!(action, SignupAction::Respond(Ok(unit(1))));

    let found = lookup_outcome(Ok(child.get()));
    assert_eq!(found, Ok(AppState::new("Ann".to_string(), 41, "a@x".to_string())));
    assert_eq!(child.get_name(), Ok("Ann".to_string()));
}

#[test]
fn rejected_creation_ends_the_signup_and_leaves_the_registry() {
    let mut registry = Registry::new();
    let _ = signup_step(
        installed(bob(), unit(8), &mut registry),
        SignupEvent::BootstrapReplied(Ok(())),
        &mut registry,
    );
    let before = registry.list();

    let (state, _) = begin(ann());
    let (state, action) = signup_step(
        state,
        SignupEvent::CreationReplied(Err(rejected(5, "insufficient budget"))),
        &mut registry,
    );
    assert_eq!(
        state,
        SignupState::Failed { stage: Stage::Creation, reason: rejected(5, "insufficient budget") }
    );
    let SignupAction::Respond(Err(error)) = action else {
        panic!("the flow did not answer with a failure");
    };
    assert_eq!(error, ProvisionError::CreationRejected(rejected(5, "insufficient budget")));
    assert_eq!(error.describe(), "Error while creating a canister: 5: insufficient budget");
    assert!(error.describe().ends_with("5: insufficient budget"));
    assert_eq!(registry.list(), before);
    assert_eq!(before, vec![unit(8)]);
}

#[test]
fn failed_fetch_after_creation_surfaces_and_the_unit_is_never_listed() {
    let mut registry = Registry::new();
    let (state, _) = begin(ann());
    let (state, _) = signup_step(state, SignupEvent::CreationReplied(Ok(unit(2))), &mut registry);
    let (state, action) = signup_step(
        state,
        SignupEvent::FetchReplied(Err(rejected(2, "connection refused"))),
        &mut registry,
    );
    assert_eq!(
        state,
        SignupState::Failed { stage: Stage::Fetch, reason: rejected(2, "connection refused") }
    );
    let SignupAction::Respond(Err(error)) = action else {
        panic!("the flow did not answer with a failure");
    };
    assert_eq!(error.stage(), Some(Stage::Fetch));
    assert_eq!(
        error.describe(),
        "The http_request resulted into error. RejectionCode: SysTransient, Error: connection refused"
    );
    assert_eq!(registry.list(), Vec::<UnitIdentity>::new());

    // Whatever arrives later, the unit stays out of the registry.
    let (state, action) = signup_step(state, SignupEvent::InstallReplied(Ok(())), &mut registry);
    assert_eq!(action, SignupAction::Nothing);
    let (_, action) = signup_step(state, SignupEvent::BootstrapReplied(Ok(())), &mut registry);
    assert_eq!(action, SignupAction::Nothing);
    assert_eq!(registry.len(), 0);
}

#[test]
fn failed_installation_ends_the_signup() {
    let mut registry = Registry::new();
    let (state, _) = begin(ann());
    let (state, _) = signup_step(state, SignupEvent::CreationReplied(Ok(unit(2))), &mut registry);
    let (state, _) = signup_step(state, SignupEvent::FetchReplied(Ok(vec![1, 2, 3])), &mut registry);
    let (state, action) = signup_step(
        state,
        SignupEvent::InstallReplied(Err(rejected(4, "not a module"))),
        &mut registry,
    );
    assert_eq!(
        state,
        SignupState::Failed { stage: Stage::Install, reason: rejected(4, "not a module") }
    );
    assert_eq!(
        action,
        SignupAction::Respond(Err(ProvisionError::InstallFailed(rejected(4, "not a module"))))
    );
    assert_eq!(registry.len(), 0);
}

#[test]
fn failed_bootstrap_ends_the_signup() {
    let mut registry = Registry::new();
    let state = installed(ann(), unit(3), &mut registry);
    let (state, action) = signup_step(
        state,
        SignupEvent::BootstrapReplied(Err(rejected(3, "no such unit"))),
        &mut registry,
    );
    assert_eq!(
        state,
        SignupState::Failed { stage: Stage::Bootstrap, reason: rejected(3, "no such unit") }
    );
    let SignupAction::Respond(Err(error)) = action else {
        panic!("the flow did not answer with a failure");
    };
    assert_eq!(error, ProvisionError::BootstrapFailed(rejected(3, "no such unit")));
    assert_eq!(error.describe(), "An error happened during the call: 3: no such unit");
    assert_eq!(registry.len(), 0);
}

#[test]
fn registry_grows_by_one_only_when_the_last_stage_succeeds() {
    let mut registry = Registry::new();
    let mut lengths = vec![registry.len()];
    let (state, _) = begin(ann());
    let (state, _) = signup_step(state, SignupEvent::CreationReplied(Ok(unit(5))), &mut registry);
    lengths.push(registry.len());
    let (state, _) = signup_step(state, SignupEvent::FetchReplied(Ok(vec![9])), &mut registry);
    lengths.push(registry.len());
    let (state, _) = signup_step(state, SignupEvent::InstallReplied(Ok(())), &mut registry);
    lengths.push(registry.len());
    let (state, _) = signup_step(state, SignupEvent::BootstrapReplied(Ok(())), &mut registry);
    lengths.push(registry.len());
    let (_, action) = signup_step(state, SignupEvent::BootstrapReplied(Ok(())), &mut registry);
    lengths.push(registry.len());
    assert_eq!(lengths, vec![0, 0, 0, 0, 1, 1]);
    assert_eq!(action, SignupAction::Nothing);
}

#[test]
fn events_that_are_not_awaited_change_nothing() {
    let mut registry = Registry::new();
    let (state, _) = begin(ann());
    let (state, action) = signup_step(state, SignupEvent::BootstrapReplied(Ok(())), &mut registry);
    assert_eq!(state, SignupState::Requested { initial_state: ann() });
    assert_eq!(action, SignupAction::Nothing);
    let (state, action) = signup_step(state, SignupEvent::FetchReplied(Ok(vec![1])), &mut registry);
    assert_eq!(state, SignupState::Requested { initial_state: ann() });
    assert_eq!(action, SignupAction::Nothing);
    let (state, _) = signup_step(state, SignupEvent::CreationReplied(Ok(unit(6))), &mut registry);
    let (state, action) = signup_step(state, SignupEvent::CreationReplied(Ok(unit(7))), &mut registry);
    assert_eq!(state, SignupState::Created { unit: unit(6), initial_state: ann() });
    assert_eq!(action, SignupAction::Nothing);
    assert_eq!(registry.len(), 0);
}

#[test]
fn concurrent_signups_are_listed_in_completion_order() {
    let mut registry = Registry::new();
    let mut first_child = StateSlot::new();
    let mut second_child = StateSlot::new();

    // Ann signs up first, Bob second; Bob's calls are answered sooner.
    let (first, _) = begin(ann());
    let (second, _) = begin(bob());
    let (first, _) = signup_step(first, SignupEvent::CreationReplied(Ok(unit(1))), &mut registry);
    let (second, _) = signup_step(second, SignupEvent::CreationReplied(Ok(unit(2))), &mut registry);
    let (second, _) = signup_step(second, SignupEvent::FetchReplied(Ok(vec![1])), &mut registry);
    let (first, _) = signup_step(first, SignupEvent::FetchReplied(Ok(vec![1])), &mut registry);
    let (second, action) = signup_step(second, SignupEvent::InstallReplied(Ok(())), &mut registry);
    let SignupAction::Bootstrap(call) = action else {
        panic!("the second flow did not reach its bootstrap");
    };
    second_child.create(call.unit, call.initial_state).unwrap();
    let (second, answer) = signup_step(second, SignupEvent::BootstrapReplied(Ok(())), &mut registry);
    assert_eq!(answer, SignupAction::Respond(Ok(unit(2))));
    assert_eq!(registry.list(), vec![unit(2)]);

    let (first, action) = signup_step(first, SignupEvent::InstallReplied(Ok(())), &mut registry);
    let SignupAction::Bootstrap(call) = action else {
        panic!("the first flow did not reach its bootstrap");
    };
    first_child.create(call.unit, call.initial_state).unwrap();
    let (first, answer) = signup_step(first, SignupEvent::BootstrapReplied(Ok(())), &mut registry);
    assert_eq!(answer, SignupAction::Respond(Ok(unit(1))));

    assert_eq!(first, SignupState::Bootstrapped { unit: unit(1) });
    assert_eq!(second, SignupState::Bootstrapped { unit: unit(2) });
    assert_eq!(registry.list(), vec![unit(2), unit(1)]);
    assert_eq!(first_child.get(), Ok(ann()));
    assert_eq!(second_child.get(), Ok(bob()));
}

#[test]
fn signups_with_the_same_record_provision_twice() {
    let mut registry = Registry::new();
    let first = installed(ann(), unit(1), &mut registry);
    let second = installed(ann(), unit(2), &mut registry);
    let _ = signup_step(first, SignupEvent::BootstrapReplied(Ok(())), &mut registry);
    let _ = signup_step(second, SignupEvent::BootstrapReplied(Ok(())), &mut registry);
    assert_eq!(registry.list(), vec![unit(1), unit(2)]);
}

#[test]
fn listing_is_a_snapshot() {
    let mut registry = Registry::new();
    let state = installed(ann(), unit(1), &mut registry);
    let before = registry.list();
    let _ = signup_step(state, SignupEvent::BootstrapReplied(Ok(())), &mut registry);
    assert_eq!(before, Vec::<UnitIdentity>::new());
    assert_eq!(registry.list(), vec![unit(1)]);
}
