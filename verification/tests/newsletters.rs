use z2pgh::error_chain::{error_chain_fmt, ErrorReport};
use z2pgh::routes::newsletters::{
    newsletter_recipients, parse_confirmed_subscribers, publish_response_status, publish_start,
    publish_step, BodyData, Content, PublishAction, PublishError, PublishFlow,
};

fn body() -> BodyData {
    BodyData {
        title: "Newsletter title".to_string(),
        content: Content {
            html: "<p>Newsletter body as HTML</p>".to_string(),
            text: "Newsletter body as plain text".to_string(),
        },
    }
}

fn rows(r: &[&str]) -> Vec<String> {
    r.iter().map(|s| s.to_string()).collect()
}

fn sent_to(action: &PublishAction) -> String {
    match action {
        PublishAction::SendEmail(m) => {
            assert_eq!(m.subject, "Newsletter title");
            assert_eq!(m.html_content, "<p>Newsletter body as HTML</p>");
            assert_eq!(m.text_content, "Newsletter body as plain text");
            m.recipient.clone()
        }
        PublishAction::Finish(_) => panic!("expected an email"),
    }
}

fn finish_status(action: &PublishAction) -> u16 {
    match action {
        PublishAction::Finish(r) => publish_response_status(r),
        PublishAction::SendEmail(_) => panic!("expected the end"),
    }
}

#[test]
fn stored_addresses_are_parsed_one_by_one() {
    let parsed = parse_confirmed_subscribers(rows(&["a@example.com", "nope"]));
    assert_eq!(parsed.len(), 2);
    assert_eq!(parsed[0].as_ref().ok().unwrap().email.as_ref(), "a@example.com");
    assert_eq!(parsed[1].as_ref().err().unwrap(), "nope is not a valid subscriber email.");
    let recipients = newsletter_recipients(&parsed);
    assert_eq!(recipients.len(), 1);
    assert_eq!(recipients[0].as_ref(), "a@example.com");
}

#[test]
fn newsletters_are_delivered_to_each_valid_confirmed_subscriber_in_order() {
    let (flow, action) = publish_start(
        body(),
        Ok(rows(&["a@example.com", "not an address", "b@example.com"])),
    );
    assert_eq!(sent_to(&action), "a@example.com");
    let (flow, action) = publish_step(flow.unwrap(), Ok(()));
    assert_eq!(sent_to(&action), "b@example.com");
    let (flow, action) = publish_step(flow.unwrap(), Ok(()));
    assert!(flow.is_none());
    assert_eq!(finish_status(&action), 200);
}

#[test]
fn no_newsletter_is_sent_when_no_one_confirmed() {
    let (flow, action) = publish_start(body(), Ok(Vec::new()));
    assert!(flow.is_none());
    assert_eq!(finish_status(&action), 200);
}

#[test]
fn a_failed_read_is_answered_500() {
    let (flow, action) = publish_start(body(), Err(ErrorReport::new("pool timed out".to_string())));
    assert!(flow.is_none());
    assert_eq!(finish_status(&action), 500);
}

#[test]
fn a_failed_delivery_stops_and_names_the_recipient() {
    let (flow, _) = publish_start(body(), Ok(rows(&["a@example.com", "b@example.com"])));
    let (flow, action) = publish_step(flow.unwrap(), Err(ErrorReport::new("503".to_string())));
    assert!(flow.is_none());
    match action {
        PublishAction::Finish(Err(e)) => {
            assert_eq!(
                error_chain_fmt(&e.report()),
                "Failed to send newsletter issue to a@example.com\n\nCaused by:\n\t503\n"
            );
            assert_eq!(publish_response_status(&Err(e)), 500);
        }
        _ => panic!("expected a failure"),
    }
}

#[test]
fn a_flow_can_be_resumed_from_any_position() {
    let parsed = parse_confirmed_subscribers(rows(&["a@example.com", "b@example.com"]));
    let flow = PublishFlow {
        title: "t".to_string(),
        html: "h".to_string(),
        text: "x".to_string(),
        recipients: newsletter_recipients(&parsed),
        next: 0,
    };
    let (flow, action) = publish_step(flow, Ok(()));
    match action {
        PublishAction::SendEmail(m) => assert_eq!(m.recipient, "b@example.com"),
        _ => panic!("expected the second email"),
    }
    assert_eq!(flow.unwrap().next, 1);
    let e = PublishError::UnexpectedError(ErrorReport::new("x".to_string()));
    assert_eq!(error_chain_fmt(&e.report()), "x\n\n");
}
