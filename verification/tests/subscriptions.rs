use session_based_authentication::domain::NewSubscriber;
use session_based_authentication::routes::subscriptions::{
    confirmation_email, confirmation_link, error_chain_fmt, generate_subscription_token,
    new_subscription_record, next_subscribe_stage, store_token_error_message,
    store_token_error_report, FormData, SubscribeStage, SUBSCRIPTION_TOKEN_LENGTH,
};

fn run(outcomes: &[bool]) -> SubscribeStage {
    let mut stage = SubscribeStage::ParseForm;
    for ok in outcomes {
        stage = next_subscribe_stage(stage, *ok);
    }
    stage
}

#[test]
fn a_request_whose_steps_all_succeed_is_answered_200() {
    assert_eq!(run(&[true; 6]), SubscribeStage::Respond(200));
}

#[test]
fn the_steps_run_in_order() {
    let mut stage = SubscribeStage::ParseForm;
    let expected = [
        SubscribeStage::BeginTransaction,
        SubscribeStage::InsertSubscriber,
        SubscribeStage::StoreToken,
        SubscribeStage::Commit,
        SubscribeStage::SendConfirmation,
        SubscribeStage::Respond(200),
    ];
    for e in expected {
        stage = next_subscribe_stage(stage, true);
        assert_eq!(stage, e);
    }
}

#[test]
fn a_refused_form_is_answered_400() {
    assert_eq!(run(&[false]), SubscribeStage::Respond(400));
    assert_eq!(run(&[false, true, true, true, true, true]), SubscribeStage::Respond(400));
}

#[test]
fn a_failure_after_the_form_is_answered_500() {
    for failing in 1..6 {
        let mut outcomes = [true; 6];
        outcomes[failing] = false;
        assert_eq!(run(&outcomes), SubscribeStage::Respond(500), "step {}", failing);
    }
}

#[test]
fn an_answered_request_stays_answered() {
    assert_eq!(
        next_subscribe_stage(SubscribeStage::Respond(400), true),
        SubscribeStage::Respond(400)
    );
    assert_eq!(
        next_subscribe_stage(SubscribeStage::Respond(200), false),
        SubscribeStage::Respond(200)
    );
}

#[test]
fn a_failed_commit_never_reaches_the_confirmation_email() {
    let stage = run(&[true, true, true, true, false]);
    assert_eq!(stage, SubscribeStage::Respond(500));
}

#[test]
fn subscription_tokens_are_25_alphanumeric_characters() {
    for _ in 0..20 {
        let token = generate_subscription_token();
        assert_eq!(token.chars().count(), SUBSCRIPTION_TOKEN_LENGTH);
        assert!(token.chars().all(|c| c.is_ascii_alphanumeric()), "{}", token);
    }
}

#[test]
fn subscription_tokens_are_random() {
    let a = generate_subscription_token();
    let b = generate_subscription_token();
    assert_ne!(a, b);
}

#[test]
fn the_confirmation_link_points_at_the_confirm_route() {
    assert_eq!(
        confirmation_link("http://127.0.0.1:8000", "abc123"),
        "http://127.0.0.1:8000/subscriptions/confirm?subscription_token=abc123"
    );
}

#[test]
fn the_confirmation_email_holds_the_link_in_both_bodies() {
    let email = confirmation_email("https://news.example", "TOKEN");
    let link = "https://news.example/subscriptions/confirm?subscription_token=TOKEN";
    assert_eq!(email.subject, "Welcome!");
    assert_eq!(
        email.plain_body,
        format!("Welcome to our newsletter!\nVisit {} to confirm your subscription.", link)
    );
    assert_eq!(
        email.html_body,
        format!(
            "Welcome to our newsletter!<br />Click <a href=\"{}\">here</a> to confirm your subscription.",
            link
        )
    );
    assert!(email.plain_body.contains(link));
    assert!(email.html_body.contains(link));
}

#[test]
fn an_error_report_lists_every_cause_in_order() {
    let causes = vec!["first".to_string(), "second".to_string()];
    assert_eq!(
        error_chain_fmt("top", &causes),
        "top\n\nCaused by:\n\tfirst\nCaused by:\n\tsecond\n"
    );
}

#[test]
fn an_error_report_without_causes_is_the_message_and_a_blank_line() {
    assert_eq!(error_chain_fmt("alone", &Vec::new()), "alone\n\n");
}

#[test]
fn store_token_error_texts() {
    assert_eq!(
        store_token_error_message(),
        "A database error was encountered while trying to store a subscription token."
    );
    assert_eq!(
        store_token_error_report("connection reset"),
        "A database error was encountered while trying to store a subscription token.\nCaused by:\n\tconnection reset"
    );
}

#[test]
fn a_new_subscription_record_is_pending_with_a_random_v4_id() {
    let subscriber = NewSubscriber::try_from(FormData {
        email: "ursula@domain.com".to_string(),
        name: "Ursula".to_string(),
    })
    .unwrap();
    let a = new_subscription_record(&subscriber);
    let b = new_subscription_record(&subscriber);
    assert_eq!(a.email, "ursula@domain.com");
    assert_eq!(a.name, "Ursula");
    assert_eq!(a.status, "pending_confirmation");
    let id = uuid::Uuid::from_u128(a.id);
    assert_eq!(id.get_version_num(), 4);
    assert_eq!(id.get_variant(), uuid::Variant::RFC4122);
    assert_ne!(a.id, b.id);
}

#[test]
fn a_valid_form_leads_to_the_transaction() {
    let (stage, subscriber) = session_based_authentication::routes::subscriptions::parse_subscription_form(
        FormData { email: "ursula@domain.com".to_string(), name: "Ursula".to_string() },
    );
    assert_eq!(stage, SubscribeStage::BeginTransaction);
    assert_eq!(subscriber.unwrap().email.as_ref(), "ursula@domain.com");
}

#[test]
fn an_invalid_form_is_answered_400_at_once() {
    let (stage, subscriber) = session_based_authentication::routes::subscriptions::parse_subscription_form(
        FormData { email: "ursula@domain.com".to_string(), name: "".to_string() },
    );
    assert_eq!(stage, SubscribeStage::Respond(400));
    assert!(subscriber.is_none());
}
