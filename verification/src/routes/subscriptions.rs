use crate::domain::subscriber_email::{email_is_valid, invalid_email_message};
use crate::domain::subscriber_name::{extended_grapheme_count, invalid_name_message, is_valid_name};
use crate::domain::{NewSubscriber, SubscriberEmail, SubscriberName};
use rand::distributions::Alphanumeric;
use rand::Rng;
use crate::text::push_char;
use vstd::prelude::*;

verus! {

/// The status of a successful answer.
pub const HTTP_OK: u16 = 200;

/// The status of an answer to a malformed request.
pub const HTTP_BAD_REQUEST: u16 = 400;

/// The status of an answer to a request that failed on the server's side.
pub const HTTP_INTERNAL_SERVER_ERROR: u16 = 500;

/// The fields of a subscription form.
pub struct FormData {
    pub email: String,
    pub name: String,
}

/// Whether a form's name and email both pass their checks.
pub open spec fn form_is_valid(email: Seq<char>, name: Seq<char>) -> bool {
    is_valid_name(name, extended_grapheme_count(name)) && email_is_valid(email)
}

impl NewSubscriber {
    /// Checks the form's name, then its email; the first that fails gives the
    /// error, and a form that passes both keeps its values unchanged.
    pub fn try_from(value: FormData) -> (res: Result<NewSubscriber, String>)
        ensures
            res is Ok <==> form_is_valid(value.email@, value.name@),
            res is Ok <==> is_valid_name(value.name@, extended_grapheme_count(value.name@))
                && email_is_valid(value.email@),
            res is Ok ==> res->Ok_0.name@ == value.name@ && res->Ok_0.email@ == value.email@,
            !is_valid_name(value.name@, extended_grapheme_count(value.name@)) ==> res is Err
                && res->Err_0@ == invalid_name_message(value.name@),
            is_valid_name(value.name@, extended_grapheme_count(value.name@)) && !email_is_valid(
                value.email@,
            ) ==> res is Err && res->Err_0@ == invalid_email_message(value.email@),
    {
        let name = SubscriberName::parse(value.name)?;
        let email = SubscriberEmail::parse(value.email)?;
        Ok(NewSubscriber { email, name })
    }
}

/// The steps of handling a subscription request, in the order they run.
/// Each names the work the server does next; `Respond` ends the request with
/// the given status.
#[derive(PartialEq, Eq, Structural, Clone, Copy, Debug)]
pub enum SubscribeStage {
    ParseForm,
    BeginTransaction,
    InsertSubscriber,
    StoreToken,
    Commit,
    SendConfirmation,
    Respond(u16),
}

/// Where the request goes after a step succeeded or failed.
pub open spec fn subscribe_transition(stage: SubscribeStage, succeeded: bool) -> SubscribeStage {
    match stage {
        SubscribeStage::ParseForm => if succeeded {
            SubscribeStage::BeginTransaction
        } else {
            SubscribeStage::Respond(HTTP_BAD_REQUEST)
        },
        SubscribeStage::BeginTransaction => if succeeded {
            SubscribeStage::InsertSubscriber
        } else {
            SubscribeStage::Respond(HTTP_INTERNAL_SERVER_ERROR)
        },
        SubscribeStage::InsertSubscriber => if succeeded {
            SubscribeStage::StoreToken
        } else {
            SubscribeStage::Respond(HTTP_INTERNAL_SERVER_ERROR)
        },
        SubscribeStage::StoreToken => if succeeded {
            SubscribeStage::Commit
        } else {
            SubscribeStage::Respond(HTTP_INTERNAL_SERVER_ERROR)
        },
        SubscribeStage::Commit => if succeeded {
            SubscribeStage::SendConfirmation
        } else {
            SubscribeStage::Respond(HTTP_INTERNAL_SERVER_ERROR)
        },
        SubscribeStage::SendConfirmation => if succeeded {
            SubscribeStage::Respond(HTTP_OK)
        } else {
            SubscribeStage::Respond(HTTP_INTERNAL_SERVER_ERROR)
        },
        SubscribeStage::Respond(status) => SubscribeStage::Respond(status),
    }
}

/// Decides the step that follows `stage`, given whether its work succeeded.
/// An answered request stays answered.
pub fn next_subscribe_stage(stage: SubscribeStage, succeeded: bool) -> (next: SubscribeStage)
    ensures
        next == subscribe_transition(stage, succeeded),
{
    match stage {
        SubscribeStage::ParseForm => if succeeded {
            SubscribeStage::BeginTransaction
        } else {
            SubscribeStage::Respond(HTTP_BAD_REQUEST)
        },
        SubscribeStage::BeginTransaction => if succeeded {
            SubscribeStage::InsertSubscriber
        } else {
            SubscribeStage::Respond(HTTP_INTERNAL_SERVER_ERROR)
        },
        SubscribeStage::InsertSubscriber => if succeeded {
            SubscribeStage::StoreToken
        } else {
            SubscribeStage::Respond(HTTP_INTERNAL_SERVER_ERROR)
        },
        SubscribeStage::StoreToken => if succeeded {
            SubscribeStage::Commit
        } else {
            SubscribeStage::Respond(HTTP_INTERNAL_SERVER_ERROR)
        },
        SubscribeStage::Commit => if succeeded {
            SubscribeStage::SendConfirmation
        } else {
            SubscribeStage::Respond(HTTP_INTERNAL_SERVER_ERROR)
        },
        SubscribeStage::SendConfirmation => if succeeded {
            SubscribeStage::Respond(HTTP_OK)
        } else {
            SubscribeStage::Respond(HTTP_INTERNAL_SERVER_ERROR)
        },
        SubscribeStage::Respond(status) => SubscribeStage::Respond(status),
    }
}

/// Runs the first step of a subscription request: checks the form and
/// decides what follows. A form that fails its checks is answered 400 before
/// any database work; one that passes leads to opening the transaction.
pub fn parse_subscription_form(form: FormData) -> (res: (SubscribeStage, Option<NewSubscriber>))
    ensures
        res.0 == subscribe_transition(SubscribeStage::ParseForm, form_is_valid(form.email@, form.name@)),
        form_is_valid(form.email@, form.name@) ==> res.0 == SubscribeStage::BeginTransaction
            && res.1 is Some && res.1->Some_0.email@ == form.email@ && res.1->Some_0.name@
            == form.name@,
        !form_is_valid(form.email@, form.name@) ==> res.0 == SubscribeStage::Respond(HTTP_BAD_REQUEST)
            && res.1 is None,
{
    match NewSubscriber::try_from(form) {
        Ok(subscriber) => (next_subscribe_stage(SubscribeStage::ParseForm, true), Some(subscriber)),
        Err(_) => (next_subscribe_stage(SubscribeStage::ParseForm, false), None),
    }
}

/// The stage reached from `stage` when the steps run with the given outcomes.
pub open spec fn run_subscribe(stage: SubscribeStage, outcomes: Seq<bool>) -> SubscribeStage
    decreases outcomes.len(),
{
    if outcomes.len() == 0 {
        stage
    } else {
        run_subscribe(subscribe_transition(stage, outcomes[0]), outcomes.drop_first())
    }
}

/// How many steps precede a stage that still has work to do.
pub open spec fn stage_position(stage: SubscribeStage) -> nat {
    match stage {
        SubscribeStage::ParseForm => 0,
        SubscribeStage::BeginTransaction => 1,
        SubscribeStage::InsertSubscriber => 2,
        SubscribeStage::StoreToken => 3,
        SubscribeStage::Commit => 4,
        SubscribeStage::SendConfirmation => 5,
        SubscribeStage::Respond(_) => 6,
    }
}

/// The number of steps a subscription request goes through.
pub open spec fn subscribe_step_count() -> nat {
    6
}

/// The answer to a subscription request whose steps had the given outcomes:
/// 400 when the form is refused, 200 when every step succeeds, else 500.
pub open spec fn subscription_status(outcomes: Seq<bool>) -> u16 {
    if !outcomes[0] {
        HTTP_BAD_REQUEST
    } else if forall|i: int| 1 <= i < subscribe_step_count() ==> #[trigger] outcomes[i] {
        HTTP_OK
    } else {
        HTTP_INTERNAL_SERVER_ERROR
    }
}

proof fn lemma_run_from_respond(status: u16, outcomes: Seq<bool>)
    ensures
        run_subscribe(SubscribeStage::Respond(status), outcomes) == SubscribeStage::Respond(status),
    decreases outcomes.len(),
{
    if outcomes.len() > 0 {
        lemma_run_from_respond(status, outcomes.drop_first());
    }
}

/// Law: a request whose steps had outcomes `outcomes` is answered
/// `subscription_status(outcomes)`: 400 exactly when the form is refused, 200
/// exactly when every one of the six steps succeeds, 500 otherwise; once
/// answered, later outcomes change nothing.
pub proof fn lemma_subscription_answer(outcomes: Seq<bool>)
    requires
        outcomes.len() >= subscribe_step_count(),
    ensures
        run_subscribe(SubscribeStage::ParseForm, outcomes) == SubscribeStage::Respond(
            subscription_status(outcomes),
        ),
{
    lemma_run_prefix(SubscribeStage::ParseForm, outcomes);
}

proof fn lemma_run_prefix(stage: SubscribeStage, outcomes: Seq<bool>)
    requires
        stage_position(stage) < subscribe_step_count(),
        outcomes.len() >= subscribe_step_count() - stage_position(stage),
    ensures
        run_subscribe(stage, outcomes) == SubscribeStage::Respond(
            if stage == SubscribeStage::ParseForm && !outcomes[0] {
                HTTP_BAD_REQUEST
            } else if forall|i: int|
                0 <= i < subscribe_step_count() - stage_position(stage) ==> #[trigger] outcomes[i] {
                HTTP_OK
            } else {
                HTTP_INTERNAL_SERVER_ERROR
            },
        ),
    decreases subscribe_step_count() - stage_position(stage),
{
    let next = subscribe_transition(stage, outcomes[0]);
    let rest = outcomes.drop_first();
    if let SubscribeStage::Respond(status) = next {
        lemma_run_from_respond(status, rest);
        if stage != SubscribeStage::SendConfirmation {
            assert(!outcomes[0]);
        } else if outcomes[0] {
            assert(outcomes.len() >= 1);
        }
    } else {
        lemma_run_prefix(next, rest);
        assert forall|i: int| 0 <= i < subscribe_step_count() - stage_position(next) implies #[trigger] rest[i] == outcomes[i + 1] by {}
        if forall|i: int| 0 <= i < subscribe_step_count() - stage_position(stage) ==> #[trigger] outcomes[i] {
            assert forall|i: int| 0 <= i < subscribe_step_count() - stage_position(next) implies #[trigger] rest[i] by {
                assert(outcomes[i + 1]);
            }
        } else {
            let k = choose|k: int| 0 <= k < subscribe_step_count() - stage_position(stage) && !#[trigger] outcomes[k];
            assert(k != 0);
            assert(!rest[k - 1]);
        }
    }
}

/// Law: a request that is still at work on a step got there through steps
/// that all succeeded, one outcome per step; in particular no database work
/// starts for a refused form, and the confirmation email is sent only after
/// the transaction was committed.
pub proof fn lemma_stage_reached_only_through_successes(outcomes: Seq<bool>)
    requires
        !(run_subscribe(SubscribeStage::ParseForm, outcomes) is Respond),
    ensures
        outcomes.len() == stage_position(run_subscribe(SubscribeStage::ParseForm, outcomes)),
        forall|i: int| 0 <= i < outcomes.len() ==> #[trigger] outcomes[i],
{
    lemma_reached(SubscribeStage::ParseForm, outcomes);
}

proof fn lemma_reached(stage: SubscribeStage, outcomes: Seq<bool>)
    requires
        !(run_subscribe(stage, outcomes) is Respond),
    ensures
        !(stage is Respond),
        stage_position(run_subscribe(stage, outcomes)) == stage_position(stage) + outcomes.len(),
        forall|i: int| 0 <= i < outcomes.len() ==> #[trigger] outcomes[i],
    decreases outcomes.len(),
{
    if outcomes.len() == 0 {
    } else {
        let next = subscribe_transition(stage, outcomes[0]);
        if let SubscribeStage::Respond(status) = stage {
            lemma_run_from_respond(status, outcomes);
        }
        if let SubscribeStage::Respond(status) = next {
            lemma_run_from_respond(status, outcomes.drop_first());
        }
        lemma_reached(next, outcomes.drop_first());
        assert forall|i: int| 0 <= i < outcomes.len() implies #[trigger] outcomes[i] by {
            if i > 0 {
                assert(outcomes.drop_first()[i - 1] == outcomes[i]);
            }
        }
    }
}

#[verifier::external_type_specification]
#[verifier::external_body]
pub struct ExThreadRng(rand::rngs::ThreadRng);

/// The number of characters of a subscription token.
pub const SUBSCRIPTION_TOKEN_LENGTH: usize = 25;

/// An ASCII letter or digit.
pub open spec fn is_ascii_alphanumeric(c: char) -> bool {
    ||| 'A' <= c <= 'Z'
    ||| 'a' <= c <= 'z'
    ||| '0' <= c <= '9'
}

/// Calls `rand::thread_rng()`. Trusted only to hand back the thread's
/// generator; nothing is claimed of its state.
#[verifier::external_body]
fn new_thread_rng() -> rand::rngs::ThreadRng {
    rand::thread_rng()
}

/// Calls `Rng::sample` with the `Alphanumeric` distribution of `rand` and
/// turns the byte into a `char`. The result is random; trusted only to be
/// one of `A`-`Z`, `a`-`z`, `0`-`9`, the set that the crate's source draws from.
#[verifier::external_body]
fn sample_alphanumeric(rng: &mut rand::rngs::ThreadRng) -> (c: char)
    ensures
        is_ascii_alphanumeric(c),
{
    char::from(rng.sample(Alphanumeric))
}

/// A fresh random subscription token: 25 ASCII letters and digits.
pub fn generate_subscription_token() -> (token: String)
    ensures
        token@.len() == SUBSCRIPTION_TOKEN_LENGTH,
        token@.len() == 25,
        forall|i: int| 0 <= i < token@.len() ==> #[trigger] is_ascii_alphanumeric(token@[i]),
{
    let mut rng = new_thread_rng();
    let mut token = String::new();
    let mut n: usize = 0;
    while n < SUBSCRIPTION_TOKEN_LENGTH
        invariant
            n <= SUBSCRIPTION_TOKEN_LENGTH,
            token@.len() == n,
            forall|i: int| 0 <= i < token@.len() ==> #[trigger] is_ascii_alphanumeric(token@[i]),
        decreases SUBSCRIPTION_TOKEN_LENGTH - n,
    {
        let c = sample_alphanumeric(&mut rng);
        push_char(&mut token, c);
        n = n + 1;
    }
    token
}

/// The link a new subscriber follows to confirm the subscription.
pub open spec fn confirmation_link_text(base_url: Seq<char>, token: Seq<char>) -> Seq<char> {
    base_url + "/subscriptions/confirm?subscription_token="@ + token
}

/// The plain-text body of the confirmation email.
pub open spec fn confirmation_plain_body(link: Seq<char>) -> Seq<char> {
    "Welcome to our newsletter!\nVisit "@ + link + " to confirm your subscription."@
}

/// The HTML body of the confirmation email.
pub open spec fn confirmation_html_body(link: Seq<char>) -> Seq<char> {
    "Welcome to our newsletter!<br />Click <a href=\""@ + link
        + "\">here</a> to confirm your subscription."@
}

/// The subject of the confirmation email.
pub open spec fn confirmation_subject() -> Seq<char> {
    "Welcome!"@
}

/// The email that asks a new subscriber to confirm.
pub struct ConfirmationEmail {
    pub subject: String,
    pub html_body: String,
    pub plain_body: String,
}

/// The confirmation link for `subscription_token` under `base_url`.
pub fn confirmation_link(base_url: &str, subscription_token: &str) -> (link: String)
    ensures
        link@ == confirmation_link_text(base_url@, subscription_token@),
{
    let link = String::from_str(base_url);
    let link = link.concat("/subscriptions/confirm?subscription_token=");
    link.concat(subscription_token)
}

/// The confirmation email for `subscription_token` under `base_url`.
pub fn confirmation_email(base_url: &str, subscription_token: &str) -> (email: ConfirmationEmail)
    ensures
        email.subject@ == confirmation_subject(),
        email.subject@ == "Welcome!"@,
        email.plain_body@ == confirmation_plain_body(
            confirmation_link_text(base_url@, subscription_token@),
        ),
        email.html_body@ == confirmation_html_body(
            confirmation_link_text(base_url@, subscription_token@),
        ),
{
    let link = confirmation_link(base_url, subscription_token);
    let plain = String::from_str("Welcome to our newsletter!\nVisit ");
    let plain = plain.concat(link.as_str());
    let plain = plain.concat(" to confirm your subscription.");
    let html = String::from_str("Welcome to our newsletter!<br />Click <a href=\"");
    let html = html.concat(link.as_str());
    let html = html.concat("\">here</a> to confirm your subscription.");
    ConfirmationEmail { subject: String::from_str("Welcome!"), html_body: html, plain_body: plain }
}

/// `needle` occurs in `text` at `at`.
pub open spec fn occurs_at(text: Seq<char>, needle: Seq<char>, at: int) -> bool {
    0 <= at && at + needle.len() <= text.len() && text.subrange(at, at + needle.len()) == needle
}

/// Law: both bodies of the confirmation email hold the confirmation link.
pub proof fn lemma_bodies_hold_link(base_url: Seq<char>, token: Seq<char>)
    ensures
        exists|at: int| occurs_at(
            confirmation_plain_body(confirmation_link_text(base_url, token)),
            confirmation_link_text(base_url, token),
            at,
        ),
        exists|at: int| occurs_at(
            confirmation_html_body(confirmation_link_text(base_url, token)),
            confirmation_link_text(base_url, token),
            at,
        ),
{
    let link = confirmation_link_text(base_url, token);
    let plain_head = "Welcome to our newsletter!\nVisit "@;
    let html_head = "Welcome to our newsletter!<br />Click <a href=\""@;
    let plain = confirmation_plain_body(link);
    let html = confirmation_html_body(link);
    assert(plain.subrange(plain_head.len() as int, (plain_head.len() + link.len()) as int) =~= link);
    assert(occurs_at(plain, link, plain_head.len() as int));
    assert(html.subrange(html_head.len() as int, (html_head.len() + link.len()) as int) =~= link);
    assert(occurs_at(html, link, html_head.len() as int));
}

/// The text of an error report: the error's message and a blank line, then
/// one "Caused by" entry per cause, innermost last.
pub open spec fn error_chain_text(message: Seq<char>, causes: Seq<Seq<char>>) -> Seq<char> {
    message + "\n\n"@ + causes_text(causes)
}

/// The "Caused by" entries of an error report.
pub open spec fn causes_text(causes: Seq<Seq<char>>) -> Seq<char>
    decreases causes.len(),
{
    if causes.len() == 0 {
        Seq::empty()
    } else {
        causes_text(causes.drop_last()) + cause_entry(causes.last())
    }
}

/// One "Caused by" entry of an error report.
pub open spec fn cause_entry(cause: Seq<char>) -> Seq<char> {
    "Caused by:\n\t"@ + cause + "\n"@
}

/// Writes the report of an error whose message is `message` and whose chain
/// of causes, outermost first, has the messages `causes`.
pub fn error_chain_fmt(message: &str, causes: &Vec<String>) -> (report: String)
    ensures
        report@ == error_chain_text(message@, causes@.map_values(|c: String| c@)),
{
    let ghost all = causes@.map_values(|c: String| c@);
    let mut report = String::from_str(message);
    report.append("\n\n");
    let mut i: usize = 0;
    while i < causes.len()
        invariant
            i <= causes.len(),
            all == causes@.map_values(|c: String| c@),
            report@ == message@ + "\n\n"@ + causes_text(all.take(i as int)),
        decreases causes.len() - i,
    {
        report.append("Caused by:\n\t");
        report.append(causes[i].as_str());
        report.append("\n");
        assert(all.take(i + 1).drop_last() =~= all.take(i as int));
        i = i + 1;
    }
    assert(all.take(causes.len() as int) =~= all);
    report
}

/// The message of an error met while storing a subscription token.
pub open spec fn store_token_error_text() -> Seq<char> {
    "A database error was encountered while trying to store a subscription token."@
}

/// The message of an error met while storing a subscription token.
pub fn store_token_error_message() -> (m: String)
    ensures
        m@ == store_token_error_text(),
{
    String::from_str(
        "A database error was encountered while trying to store a subscription token.",
    )
}

/// The debug report of an error met while storing a subscription token,
/// whose database error reads `cause`.
pub fn store_token_error_report(cause: &str) -> (r: String)
    ensures
        r@ == store_token_error_text() + "\nCaused by:\n\t"@ + cause@,
{
    let r = store_token_error_message();
    let r = r.concat("\nCaused by:\n\t");
    r.concat(cause)
}

/// The status of a subscription that waits for its confirmation.
pub open spec fn pending_status() -> Seq<char> {
    "pending_confirmation"@
}

/// The version-4 (random) and RFC 4122 variant bits of a UUID held as a
/// big-endian `u128`.
pub open spec fn is_random_uuid(id: u128) -> bool {
    &&& (id >> 76u128) & 0xfu128 == 4u128
    &&& (id >> 62u128) & 0x3u128 == 2u128
}

/// Calls `uuid::Uuid::new_v4()` and takes the UUID as a `u128`. The value is
/// random; trusted only to carry the version and variant bits that the
/// crate's source sets.
#[verifier::external_body]
fn new_random_uuid() -> (id: u128)
    ensures
        is_random_uuid(id),
{
    uuid::Uuid::new_v4().as_u128()
}

/// A row of the subscriptions table, before the time of insertion is added.
pub struct SubscriptionRecord {
    pub id: u128,
    pub email: String,
    pub name: String,
    pub status: String,
}

/// The row stored for a new subscriber: a fresh random id, the subscriber's
/// email and name, and the pending status.
pub fn new_subscription_record(new_subscriber: &NewSubscriber) -> (r: SubscriptionRecord)
    ensures
        is_random_uuid(r.id),
        r.email@ == new_subscriber.email@,
        r.name@ == new_subscriber.name@,
        r.status@ == pending_status(),
        r.status@ == "pending_confirmation"@,
{
    let id = new_random_uuid();
    SubscriptionRecord {
        id,
        email: String::from_str(new_subscriber.email.as_ref()),
        name: String::from_str(new_subscriber.name.as_ref()),
        status: String::from_str("pending_confirmation"),
    }
}

/// Law: a form is accepted exactly when its name passes the name rules and
/// its email passes the validator; nothing else about the text matters.
pub proof fn lemma_form_rules(email: Seq<char>, name: Seq<char>)
    ensures
        form_is_valid(email, name) == (is_valid_name(name, extended_grapheme_count(name))
            && email_is_valid(email)),
{
}

/// Law: the confirmation link is the base URL, then
/// "/subscriptions/confirm?subscription_token=", then the whole token, for a
/// token of any length: its length is that of the URL plus 42 plus that of
/// the token, and the token ends it.
pub proof fn lemma_confirmation_link(base_url: Seq<char>, token: Seq<char>)
    ensures
        confirmation_link_text(base_url, token).len() == base_url.len() + 42 + token.len(),
        confirmation_link_text(base_url, token).subrange(0, base_url.len() as int) == base_url,
        confirmation_link_text(base_url, token).subrange(
            base_url.len() as int,
            base_url.len() + 42int,
        ) == "/subscriptions/confirm?subscription_token="@,
        confirmation_link_text(base_url, token).subrange(
            base_url.len() + 42int,
            base_url.len() + 42int + token.len(),
        ) == token,
{
    reveal_strlit("/subscriptions/confirm?subscription_token=");
    let l = confirmation_link_text(base_url, token);
    let m = "/subscriptions/confirm?subscription_token="@;
    assert(m.len() == 42);
    assert(l.subrange(0, base_url.len() as int) =~= base_url);
    assert(l.subrange(base_url.len() as int, base_url.len() + 42int) =~= m);
    assert(l.subrange(base_url.len() + 42int, base_url.len() + 42int + token.len()) =~= token);
}

/// Law: the plain body is "Welcome to our newsletter!\nVisit ", the link, and
/// " to confirm your subscription."; the HTML body is
/// "Welcome to our newsletter!<br />Click <a href=\"", the link, and
/// "\">here</a> to confirm your subscription."; the subject is "Welcome!".
pub proof fn lemma_confirmation_bodies(link: Seq<char>)
    ensures
        confirmation_subject() == "Welcome!"@,
        confirmation_plain_body(link).len() == "Welcome to our newsletter!\nVisit "@.len()
            + link.len() + " to confirm your subscription."@.len(),
        confirmation_plain_body(link).subrange(0, "Welcome to our newsletter!\nVisit "@.len() as int)
            == "Welcome to our newsletter!\nVisit "@,
        confirmation_plain_body(link).subrange(
            "Welcome to our newsletter!\nVisit "@.len() as int,
            "Welcome to our newsletter!\nVisit "@.len() + (link.len() as int),
        ) == link,
        confirmation_plain_body(link).subrange(
            "Welcome to our newsletter!\nVisit "@.len() + (link.len() as int),
            confirmation_plain_body(link).len() as int,
        ) == " to confirm your subscription."@,
        confirmation_html_body(link).len() == "Welcome to our newsletter!<br />Click <a href=\""@.len()
            + link.len() + "\">here</a> to confirm your subscription."@.len(),
        confirmation_html_body(link).subrange(
            0,
            "Welcome to our newsletter!<br />Click <a href=\""@.len() as int,
        ) == "Welcome to our newsletter!<br />Click <a href=\""@,
        confirmation_html_body(link).subrange(
            "Welcome to our newsletter!<br />Click <a href=\""@.len() as int,
            "Welcome to our newsletter!<br />Click <a href=\""@.len() + (link.len() as int),
        ) == link,
        confirmation_html_body(link).subrange(
            "Welcome to our newsletter!<br />Click <a href=\""@.len() + (link.len() as int),
            confirmation_html_body(link).len() as int,
        ) == "\">here</a> to confirm your subscription."@,
{
    let ph = "Welcome to our newsletter!\nVisit "@;
    let pt = " to confirm your subscription."@;
    let hh = "Welcome to our newsletter!<br />Click <a href=\""@;
    let ht = "\">here</a> to confirm your subscription."@;
    let p = confirmation_plain_body(link);
    let h = confirmation_html_body(link);
    assert(p.subrange(0, ph.len() as int) =~= ph);
    assert(p.subrange(ph.len() as int, ph.len() + (link.len() as int)) =~= link);
    assert(p.subrange(ph.len() + (link.len() as int), p.len() as int) =~= pt);
    assert(h.subrange(0, hh.len() as int) =~= hh);
    assert(h.subrange(hh.len() as int, hh.len() + (link.len() as int)) =~= link);
    assert(h.subrange(hh.len() + (link.len() as int), h.len() as int) =~= ht);
}

/// Law: a report without causes is the message and a blank line, and each
/// further cause appends "Caused by:\n\t", its message and a line break.
pub proof fn lemma_error_chain(message: Seq<char>, causes: Seq<Seq<char>>, cause: Seq<char>)
    ensures
        error_chain_text(message, Seq::empty()) == message + "\n\n"@,
        error_chain_text(message, causes.push(cause)) == error_chain_text(message, causes)
            + "Caused by:\n\t"@ + cause + "\n"@,
{
    assert(causes.push(cause).drop_last() =~= causes);
    assert(error_chain_text(message, Seq::empty()) =~= message + "\n\n"@);
    assert(error_chain_text(message, causes.push(cause)) =~= error_chain_text(message, causes)
        + "Caused by:\n\t"@ + cause + "\n"@);
}

/// Law: the message of a failed token storage is fixed text.
pub proof fn lemma_store_token_error_text()
    ensures
        store_token_error_text()
            == "A database error was encountered while trying to store a subscription token."@,
        pending_status() == "pending_confirmation"@,
{
}

/// Law: the answers of the subscription steps. A refused form is answered
/// 400; a failure of any later step is answered 500; a success leads from
/// parsing the form to opening the transaction, inserting the subscriber,
/// storing the token, committing, sending the confirmation email, and then
/// answering 200; an answered request keeps its answer.
pub proof fn lemma_subscribe_steps(succeeded: bool, status: u16)
    ensures
        subscribe_transition(SubscribeStage::ParseForm, succeeded) == if succeeded {
            SubscribeStage::BeginTransaction
        } else {
            SubscribeStage::Respond(400)
        },
        subscribe_transition(SubscribeStage::BeginTransaction, succeeded) == if succeeded {
            SubscribeStage::InsertSubscriber
        } else {
            SubscribeStage::Respond(500)
        },
        subscribe_transition(SubscribeStage::InsertSubscriber, succeeded) == if succeeded {
            SubscribeStage::StoreToken
        } else {
            SubscribeStage::Respond(500)
        },
        subscribe_transition(SubscribeStage::StoreToken, succeeded) == if succeeded {
            SubscribeStage::Commit
        } else {
            SubscribeStage::Respond(500)
        },
        subscribe_transition(SubscribeStage::Commit, succeeded) == if succeeded {
            SubscribeStage::SendConfirmation
        } else {
            SubscribeStage::Respond(500)
        },
        subscribe_transition(SubscribeStage::SendConfirmation, succeeded) == if succeeded {
            SubscribeStage::Respond(200)
        } else {
            SubscribeStage::Respond(500)
        },
        subscribe_transition(SubscribeStage::Respond(status), succeeded) == SubscribeStage::Respond(
            status,
        ),
{
}

} // verus!
