use dynamic_canisters::error::{ProvisionError, Stage};
use dynamic_canisters::rejection::{Rejection, RejectionCode};

fn rejection(code: RejectionCode, message: &str) -> Rejection {
    Rejection::new(code, message.to_string())
}

fn all_codes() -> Vec<RejectionCode> {
    vec![
        RejectionCode::NoError,
        RejectionCode::SysFatal,
        RejectionCode::SysTransient,
        RejectionCode::DestinationInvalid,
        RejectionCode::CanisterReject,
        RejectionCode::CanisterError,
        RejectionCode::Unknown,
    ]
}

#[test]
fn codes_are_numbered_as_the_platform_numbers_them() {
    let numbers: Vec<u8> = all_codes().into_iter().map(|code| code.as_number()).collect();
    assert_eq!(numbers, vec![0, 1, 2, 3, 4, 5, 6]);
}

#[test]
fn codes_write_their_number_in_decimal() {
    for code in all_codes() {
        assert_eq!(code.number_str(), format!("{}", code.as_number()));
    }
}

#[test]
fn codes_are_named_as_in_diagnostics() {
    let names: Vec<&str> = all_codes().into_iter().map(|code| code.name()).collect();
    assert_eq!(
        names,
        vec![
            "NoError",
            "SysFatal",
            "SysTransient",
            "DestinationInvalid",
            "CanisterReject",
            "CanisterError",
            "Unknown",
        ]
    );
    for code in all_codes() {
        assert_eq!(code.name(), format!("{:?}", code));
    }
}

#[test]
fn numbers_lead_back_to_their_codes() {
    for code in all_codes() {
        assert_eq!(RejectionCode::from_number(code.as_number() as i32), code);
    }
}

#[test]
fn numbers_without_a_code_are_unknown() {
    for number in [7, 8, 100, -1, i32::MAX, i32::MIN] {
        assert_eq!(RejectionCode::from_number(number), RejectionCode::Unknown);
    }
}

#[test]
fn a_copy_of_a_rejection_is_the_same_rejection() {
    let first = rejection(RejectionCode::SysFatal, "out of cycles");
    assert_eq!(first.duplicate(), first);
}

#[test]
fn rejected_call_is_worded_with_number_and_message() {
    let told = rejection(RejectionCode::CanisterReject, "no");
    assert_eq!(told.call_failure(), "An error happened during the call: 4: no");
}

#[test]
fn rejected_creation_is_worded_with_number_and_message() {
    let told = rejection(RejectionCode::Unknown, "");
    assert_eq!(told.creation_failure(), "Error while creating a canister: 6: ");
}

#[test]
fn failed_fetch_is_worded_with_name_and_message() {
    let told = rejection(RejectionCode::DestinationInvalid, "no route: é");
    assert_eq!(
        told.fetch_failure(),
        "The http_request resulted into error. RejectionCode: DestinationInvalid, Error: no route: é"
    );
}

#[test]
fn conflicting_controllers_are_worded() {
    let error = ProvisionError::ConflictingControllerSpecification;
    assert_eq!(
        error.describe(),
        "CanisterSettings cannot have both controller and controllers set."
    );
    assert_eq!(error.describe_for_wallet(), error.describe());
    assert_eq!(error.stage(), None);
}

#[test]
fn every_stage_has_its_failure_and_its_wording() {
    let told = rejection(RejectionCode::CanisterError, "trapped");
    let cases = vec![
        (Stage::Creation, "Error while creating a canister: 5: trapped"),
        (
            Stage::Fetch,
            "The http_request resulted into error. RejectionCode: CanisterError, Error: trapped",
        ),
        (Stage::Install, "An error happened during the call: 5: trapped"),
        (Stage::Bootstrap, "An error happened during the call: 5: trapped"),
        (Stage::Store, "An error happened during the call: 5: trapped"),
    ];
    for (stage, text) in cases {
        let error = ProvisionError::at_stage(stage, told.clone());
        assert_eq!(error.stage(), Some(stage));
        assert_eq!(error.describe(), text);
    }
}

#[test]
fn failures_by_stage_are_the_named_variants() {
    let told = rejection(RejectionCode::SysFatal, "x");
    assert_eq!(
        ProvisionError::at_stage(Stage::Creation, told.clone()),
        ProvisionError::CreationRejected(told.clone())
    );
    assert_eq!(
        ProvisionError::at_stage(Stage::Fetch, told.clone()),
        ProvisionError::FetchFailed(told.clone())
    );
    assert_eq!(
        ProvisionError::at_stage(Stage::Install, told.clone()),
        ProvisionError::InstallFailed(told.clone())
    );
    assert_eq!(
        ProvisionError::at_stage(Stage::Bootstrap, told.clone()),
        ProvisionError::BootstrapFailed(told.clone())
    );
    assert_eq!(
        ProvisionError::at_stage(Stage::Store, told.clone()),
        ProvisionError::StoreFailed(told)
    );
}

#[test]
fn the_wallet_words_a_rejected_creation_as_a_rejected_call() {
    let told = rejection(RejectionCode::CanisterError, "insufficient budget");
    let error = ProvisionError::CreationRejected(told.clone());
    assert_eq!(
        error.describe_for_wallet(),
        "An error happened during the call: 5: insufficient budget"
    );
    let other = ProvisionError::FetchFailed(told);
    assert_eq!(other.describe_for_wallet(), other.describe());
}
