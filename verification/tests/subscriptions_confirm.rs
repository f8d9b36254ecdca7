use z2pgh::error_chain::ErrorReport;
use z2pgh::routes::subscriptions_confirm::{
    confirm_on_lookup, confirm_on_marked, confirm_response_status, ConfirmAction, Parameters,
};

#[test]
fn an_unknown_token_is_answered_401() {
    assert!(matches!(confirm_on_lookup(Ok(None)), ConfirmAction::Respond(401)));
}

#[test]
fn a_known_token_confirms_its_subscriber() {
    let p = Parameters { subscription_token: "abc".to_string() };
    assert_eq!(p.subscription_token, "abc");
    assert!(matches!(confirm_on_lookup(Ok(Some(42))), ConfirmAction::MarkConfirmed(42)));
    assert!(matches!(confirm_on_marked(Ok(())), ConfirmAction::Respond(200)));
}

#[test]
fn database_failures_fail_the_confirmation() {
    match confirm_on_lookup(Err(ErrorReport::new("down".to_string()))) {
        ConfirmAction::Fail(e) => assert_eq!(e.message, "down"),
        _ => panic!("expected a failure"),
    }
    match confirm_on_marked(Err(ErrorReport::new("gone".to_string()))) {
        ConfirmAction::Fail(e) => assert_eq!(e.message, "gone"),
        _ => panic!("expected a failure"),
    }
}

#[test]
fn the_status_follows_the_decision() {
    assert_eq!(confirm_response_status(&confirm_on_lookup(Ok(None))), Some(401));
    assert_eq!(confirm_response_status(&confirm_on_lookup(Ok(Some(7)))), None);
    assert_eq!(confirm_response_status(&confirm_on_marked(Ok(()))), Some(200));
    let failed = confirm_on_marked(Err(ErrorReport::new("gone".to_string())));
    assert_eq!(confirm_response_status(&failed), Some(500));
}
