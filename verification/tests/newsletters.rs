use session_based_authentication::routes::newsletters::{
    first_delivery_step, next_delivery_step, parse_confirmed_subscribers, send_failure_context,
    DeliveryStep, PublishError,
};

fn emails(list: &[&str]) -> Vec<String> {
    list.iter().map(|s| s.to_string()).collect()
}

#[test]
fn confirmed_subscribers_are_parsed_in_order() {
    let parsed = parse_confirmed_subscribers(&emails(&["a@b.com", "broken", "c@d.org"]));
    assert_eq!(parsed.len(), 3);
    assert_eq!(parsed[0].as_ref().unwrap().email.as_ref(), "a@b.com");
    assert_eq!(
        parsed[1].as_ref().err(),
        Some(&"broken is not a valid subscriber email.".to_string())
    );
    assert_eq!(parsed[2].as_ref().unwrap().email.as_ref(), "c@d.org");
}

#[test]
fn delivery_sends_to_valid_subscribers_and_skips_the_others() {
    let subscribers = parse_confirmed_subscribers(&emails(&["a@b.com", "broken", "c@d.org"]));
    let mut steps = vec![];
    let mut step = first_delivery_step(&subscribers);
    loop {
        steps.push(step);
        if let DeliveryStep::Finished(_) = step {
            break;
        }
        step = next_delivery_step(&subscribers, step, true);
    }
    assert_eq!(
        steps,
        vec![
            DeliveryStep::Send(0),
            DeliveryStep::Skip(1),
            DeliveryStep::Send(2),
            DeliveryStep::Finished(200),
        ]
    );
}

#[test]
fn delivery_to_nobody_is_answered_200() {
    let subscribers = parse_confirmed_subscribers(&Vec::new());
    assert_eq!(first_delivery_step(&subscribers), DeliveryStep::Finished(200));
}

#[test]
fn a_failed_sending_ends_the_delivery_with_500() {
    let subscribers = parse_confirmed_subscribers(&emails(&["a@b.com", "c@d.org"]));
    let step = first_delivery_step(&subscribers);
    assert_eq!(step, DeliveryStep::Send(0));
    let step = next_delivery_step(&subscribers, step, false);
    assert_eq!(step, DeliveryStep::Finished(500));
    assert_eq!(next_delivery_step(&subscribers, step, true), DeliveryStep::Finished(500));
}

#[test]
fn the_failure_context_names_the_subscriber() {
    let subscribers = parse_confirmed_subscribers(&emails(&["a@b.com"]));
    assert_eq!(
        send_failure_context(subscribers[0].as_ref().unwrap()),
        "Failed to send newsletter issue to a@b.com"
    );
}

#[test]
fn a_publish_error_is_answered_500() {
    let e = PublishError::UnexpectedError(anyhow::Error::msg("database is down"));
    assert_eq!(e.status_code(), 500);
}
