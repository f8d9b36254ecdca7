use rand::rngs::StdRng;
use rand::SeedableRng;
use z2pgh::error_chain::{error_chain_fmt, ErrorReport};
use z2pgh::routes::subscriptions::{
    confirmation_email, confirmation_link, draw_token_samples, generate_subscription_token, token_from_samples, token_from_seed, subscribe_response_status,
    subscribe_start, subscribe_step, FormData, SubscribeAction, SubscribeError, SubscribeFlow,
    SubscribeStage,
};
use z2pgh::domain::{NewSubscriber, SubscriberEmail};

fn form(name: &str, email: &str) -> FormData {
    FormData { name: name.to_string(), email: email.to_string() }
}

fn valid_flow() -> SubscribeFlow {
    let (flow, action) = subscribe_start(
        form("le guin", "ursula_le_guin@gmail.com"),
        "http://127.0.0.1".to_string(),
    );
    assert!(matches!(action, SubscribeAction::BeginTransaction));
    flow.unwrap()
}

fn validation_message(action: SubscribeAction) -> String {
    match action {
        SubscribeAction::Finish(Err(SubscribeError::ValidationError(m))) => m,
        _ => panic!("expected a validation error"),
    }
}

#[test]
fn valid_form_data_is_accepted() {
    let s = NewSubscriber::try_from(form("le guin", "ursula_le_guin@gmail.com")).unwrap();
    assert_eq!(s.name.as_ref(), "le guin");
    assert_eq!(s.email.as_ref(), "ursula_le_guin@gmail.com");
}

#[test]
fn subscribe_returns_a_400_when_fields_are_present_but_empty() {
    let test_cases = vec![
        (form("", "usula_le_guin@gmail.com"), "empty name"),
        (form("Ursula", ""), "empty email"),
        (form("Ursula", "definitely-not-an-email"), "invalid email"),
    ];
    for (f, description) in test_cases {
        let (flow, action) = subscribe_start(f, "http://127.0.0.1".to_string());
        assert!(flow.is_none(), "the form with {} was accepted", description);
        match action {
            SubscribeAction::Finish(result) => assert_eq!(
                400,
                subscribe_response_status(&result),
                "The API did not return a 400 Bad Requestwhen the payload was {}.",
                description
            ),
            _ => panic!("the form with {} did not end the subscription", description),
        }
    }
}

#[test]
fn the_name_is_checked_before_the_email() {
    let (_, action) = subscribe_start(form("", "not-an-email"), "http://x".to_string());
    assert_eq!(validation_message(action), " is not a valid subscriber name.");
    let (_, action) = subscribe_start(form("Ursula", "not-an-email"), "http://x".to_string());
    assert_eq!(validation_message(action), "not-an-email is not a valid subscriber email.");
}

#[test]
fn a_subscription_token_is_25_alphanumeric_characters() {
    let token = generate_subscription_token().unwrap();
    assert_eq!(token.chars().count(), 25);
    assert!(token.chars().all(|c| c.is_ascii_alphanumeric()));
    assert_ne!(token, generate_subscription_token().unwrap());
}

#[test]
fn drawn_samples_are_25_letters_and_digits() {
    let mut rng = StdRng::seed_from_u64(42);
    let samples = draw_token_samples(&mut rng);
    assert_eq!(samples.len(), 25);
    assert!(samples.iter().all(|b| b.is_ascii_alphanumeric()));
    assert_ne!(samples, draw_token_samples(&mut rng));
}

#[test]
fn a_seeded_generator_always_gives_a_token() {
    for seed in 0u64..20 {
        let token = token_from_seed(Ok(StdRng::seed_from_u64(seed))).unwrap();
        assert_eq!(token.chars().count(), 25);
        assert!(token.chars().all(|c| c.is_ascii_alphanumeric()));
    }
}

#[test]
fn a_failed_seeding_is_passed_on() {
    assert_eq!(token_from_seed(Err("no entropy".to_string())), Err("no entropy".to_string()));
}

#[test]
fn a_token_is_written_with_the_drawn_bytes() {
    let samples: Vec<u8> = b"aB3xYz09QwErTyUiOpAsDfGhJ".to_vec();
    assert_eq!(token_from_samples(&samples), "aB3xYz09QwErTyUiOpAsDfGhJ");
    assert_eq!(token_from_samples(&vec![b'Z', b'0']), "Z0");
    assert_eq!(token_from_samples(&Vec::new()), "");
}

#[test]
fn the_confirmation_link_carries_the_token() {
    assert_eq!(
        confirmation_link("http://127.0.0.1:8000", "abc123"),
        "http://127.0.0.1:8000/subscriptions/confirm?subscription_token=abc123"
    );
}

#[test]
fn the_confirmation_email_is_addressed_to_the_subscriber() {
    let email = SubscriberEmail::parse("ursula_le_guin@gmail.com".to_string()).unwrap();
    let m = confirmation_email(&email, "http://localhost", "tok");
    let link = "http://localhost/subscriptions/confirm?subscription_token=tok";
    assert_eq!(m.recipient, "ursula_le_guin@gmail.com");
    assert_eq!(m.subject, "Welcome!");
    assert_eq!(
        m.text_content,
        format!("Welcome to our newsletter!\nVisit {} to confirm your subscription.", link)
    );
    assert_eq!(
        m.html_content,
        format!(
            "Welcome to our newsletter!< br />Click <a href=\"{}\">here</a> to confirm your subscription.",
            link
        )
    );
}

#[test]
fn a_subscription_without_failure_goes_through_every_step() {
    let flow = valid_flow();
    let (flow, action) = subscribe_step(flow, Ok(()));
    match action {
        SubscribeAction::InsertSubscriber { email, name } => {
            assert_eq!(email, "ursula_le_guin@gmail.com");
            assert_eq!(name, "le guin");
        }
        _ => panic!("expected the insertion"),
    }
    let (flow, action) = subscribe_step(flow, Ok(()));
    let token = match action {
        SubscribeAction::StoreToken(t) => t,
        _ => panic!("expected the token to be stored"),
    };
    assert_eq!(token.len(), 25);
    assert_eq!(flow.subscription_token, token);
    let (flow, action) = subscribe_step(flow, Ok(()));
    assert!(matches!(action, SubscribeAction::CommitTransaction));
    let (flow, action) = subscribe_step(flow, Ok(()));
    match action {
        SubscribeAction::SendEmail(m) => {
            assert_eq!(m.recipient, "ursula_le_guin@gmail.com");
            let link = format!("http://127.0.0.1/subscriptions/confirm?subscription_token={}", token);
            assert!(m.text_content.contains(&link));
            assert!(m.html_content.contains(&link));
        }
        _ => panic!("expected the confirmation email"),
    }
    let (flow, action) = subscribe_step(flow, Ok(()));
    assert!(flow.stage == SubscribeStage::Finished);
    match action {
        SubscribeAction::Finish(result) => assert_eq!(subscribe_response_status(&result), 200),
        _ => panic!("expected the end"),
    }
}

#[test]
fn a_failed_step_is_answered_500_with_its_context() {
    let contexts = [
        "Failed to acquire a Postgress connection from the pool",
        "Failed to insert new subsriber in the database",
        "Failed to store the confirmation token for a new subscriber.",
        "Failed to commit SQL transaction to store a new subscriber.",
        "Failed to send a confirmation email.",
    ];
    for (k, context) in contexts.iter().enumerate() {
        let mut flow = valid_flow();
        for _ in 0..k {
            flow = subscribe_step(flow, Ok(())).0;
        }
        let (flow, action) = subscribe_step(flow, Err(ErrorReport::new("db down".to_string())));
        assert!(flow.stage == SubscribeStage::Finished);
        match action {
            SubscribeAction::Finish(result) => {
                assert_eq!(subscribe_response_status(&result), 500);
                let error = result.err().unwrap();
                assert!(matches!(error, SubscribeError::UnexpectedError(_)));
                assert_eq!(
                    error_chain_fmt(&error.report()),
                    format!("{}\n\nCaused by:\n\tdb down\n", context)
                );
            }
            _ => panic!("expected the end"),
        }
    }
}

#[test]
fn a_validation_error_renders_without_cause() {
    let e = SubscribeError::ValidationError("bad".to_string());
    assert_eq!(error_chain_fmt(&e.report()), "bad\n\n");
    assert_eq!(subscribe_response_status(&Err(e)), 400);
    assert_eq!(subscribe_response_status(&Ok(())), 200);
}
