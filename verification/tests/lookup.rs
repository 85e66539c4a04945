use dynamic_canisters::app_state::AppState;
use dynamic_canisters::lookup::{describe_refusal, describe_rejection, lookup_outcome};
use dynamic_canisters::rejection::{Rejection, RejectionCode};

#[test]
fn lookup_hands_over_the_record() {
    let user = AppState::new("Ann".to_string(), 41, "a@x".to_string());
    assert_eq!(lookup_outcome(Ok(Ok(user.clone()))), Ok(user));
}

#[test]
fn refused_lookup_quotes_the_units_words() {
    let outcome = lookup_outcome(Ok(Err("no user".to_string())));
    assert_eq!(
        outcome,
        Err("Error calling get_period_range_realized_volatility: \"no user\"".to_string())
    );
}

#[test]
fn refused_lookup_escapes_what_it_quotes() {
    let outcome = lookup_outcome(Ok(Err("say \"hi\"\n\\".to_string())));
    assert_eq!(
        outcome,
        Err(
            "Error calling get_period_range_realized_volatility: \"say \\\"hi\\\"\\n\\\\\""
                .to_string()
        )
    );
}

#[test]
fn rejected_lookup_names_the_code_and_quotes_the_message() {
    let rejection = Rejection::new(RejectionCode::DestinationInvalid, "no such unit".to_string());
    assert_eq!(
        lookup_outcome(Err(rejection)),
        Err(
            "Error calling get_period_range_realized_volatility: (DestinationInvalid, \"no such unit\")"
                .to_string()
        )
    );
}

#[test]
fn rejected_lookup_is_worded_as_the_pair_is_printed() {
    let message = "tab\there 'single' \"double\" \u{7f}".to_string();
    let rejection = Rejection::new(RejectionCode::CanisterError, message.clone());
    let expected = format!(
        "Error calling get_period_range_realized_volatility: (CanisterError, {:?})",
        message
    );
    assert_eq!(lookup_outcome(Err(rejection)), Err(expected));
}

#[test]
fn quoted_words_are_placed_after_the_prefix() {
    assert_eq!(
        describe_refusal("\"x\""),
        "Error calling get_period_range_realized_volatility: \"x\""
    );
    assert_eq!(describe_refusal(""), "Error calling get_period_range_realized_volatility: ");
}

#[test]
fn quoted_message_is_placed_in_the_pair() {
    assert_eq!(
        describe_rejection(RejectionCode::SysFatal, "\"m\""),
        "Error calling get_period_range_realized_volatility: (SysFatal, \"m\")"
    );
}
