use crate::domain::subscriber_email::{email_is_valid, invalid_email_message};
use crate::domain::SubscriberEmail;
use crate::routes::subscriptions::{HTTP_INTERNAL_SERVER_ERROR, HTTP_OK};
use vstd::prelude::*;

verus! {

#[verifier::external_type_specification]
#[verifier::external_body]
pub struct ExAnyhowError(anyhow::Error);

/// What can go wrong while publishing a newsletter issue.
pub enum PublishError {
    UnexpectedError(anyhow::Error),
}

impl PublishError {
    /// The HTTP status a publishing error is answered with.
    pub fn status_code(&self) -> (status: u16)
        ensures
            status == HTTP_INTERNAL_SERVER_ERROR,
            status == 500,
    {
        match self {
            PublishError::UnexpectedError(_) => HTTP_INTERNAL_SERVER_ERROR,
        }
    }
}

/// The body of a newsletter issue request.
pub struct BodyData {
    pub title: String,
    pub content: Content,
}

/// The two renderings of a newsletter issue.
pub struct Content {
    pub html: String,
    pub text: String,
}

/// A confirmed subscriber whose stored email passed the validator.
pub struct ConfirmedSubscriber {
    pub email: SubscriberEmail,
}

/// Checks the stored email of every confirmed subscriber, keeping their order.
pub fn parse_confirmed_subscribers(emails: &Vec<String>) -> (subscribers: Vec<
    Result<ConfirmedSubscriber, String>,
>)
    ensures
        subscribers@.len() == emails@.len(),
        forall|i: int|
            0 <= i < emails@.len() ==> {
                &&& (#[trigger] subscribers@[i] is Ok <==> email_is_valid(emails@[i]@))
                &&& subscribers@[i] is Ok ==> subscribers@[i]->Ok_0.email@ == emails@[i]@
                &&& subscribers@[i] is Err ==> subscribers@[i]->Err_0@ == invalid_email_message(
                    emails@[i]@,
                )
            },
{
    let mut parsed: Vec<Result<ConfirmedSubscriber, String>> = Vec::new();
    for i in 0..emails.len()
        invariant
            parsed@.len() == i,
            forall|j: int|
                0 <= j < i ==> {
                    &&& (#[trigger] parsed@[j] is Ok <==> email_is_valid(emails@[j]@))
                    &&& parsed@[j] is Ok ==> parsed@[j]->Ok_0.email@ == emails@[j]@
                    &&& parsed@[j] is Err ==> parsed@[j]->Err_0@ == invalid_email_message(
                        emails@[j]@,
                    )
                },
    {
        let entry = match SubscriberEmail::parse(emails[i].clone()) {
            Ok(email) => Ok(ConfirmedSubscriber { email }),
            Err(error) => Err(error),
        };
        parsed.push(entry);
    }
    parsed
}

/// What publishing does next for the list of confirmed subscribers: send the
/// issue to the subscriber at an index, skip the subscriber at an index
/// because its stored details are invalid, or answer with a status.
#[derive(PartialEq, Eq, Structural, Clone, Copy, Debug)]
pub enum DeliveryStep {
    Send(usize),
    Skip(usize),
    Finished(u16),
}

/// The step taken at `position` of the list.
pub open spec fn step_at(subscribers: Seq<Result<ConfirmedSubscriber, String>>, position: int) -> DeliveryStep {
    if position >= subscribers.len() {
        DeliveryStep::Finished(HTTP_OK)
    } else if subscribers[position] is Ok {
        DeliveryStep::Send(position as usize)
    } else {
        DeliveryStep::Skip(position as usize)
    }
}

/// A step that belongs to the list: it names an index of the list, and a
/// `Send` names a subscriber whose details are valid.
pub open spec fn step_fits(subscribers: Seq<Result<ConfirmedSubscriber, String>>, step: DeliveryStep) -> bool {
    match step {
        DeliveryStep::Send(i) => i < subscribers.len() && subscribers[i as int] is Ok,
        DeliveryStep::Skip(i) => i < subscribers.len() && subscribers[i as int] is Err,
        DeliveryStep::Finished(_) => true,
    }
}

/// The step after `step`; `sent` tells whether a sending succeeded.
pub open spec fn delivery_transition(
    subscribers: Seq<Result<ConfirmedSubscriber, String>>,
    step: DeliveryStep,
    sent: bool,
) -> DeliveryStep {
    match step {
        DeliveryStep::Send(i) => if sent {
            step_at(subscribers, i + 1)
        } else {
            DeliveryStep::Finished(HTTP_INTERNAL_SERVER_ERROR)
        },
        DeliveryStep::Skip(i) => step_at(subscribers, i + 1),
        DeliveryStep::Finished(status) => DeliveryStep::Finished(status),
    }
}

/// The step that starts publishing to `subscribers`.
pub fn first_delivery_step(subscribers: &Vec<Result<ConfirmedSubscriber, String>>) -> (step: DeliveryStep)
    ensures
        step == step_at(subscribers@, 0),
        step_fits(subscribers@, step),
{
    if subscribers.len() == 0 {
        DeliveryStep::Finished(HTTP_OK)
    } else if subscribers[0].is_ok() {
        DeliveryStep::Send(0)
    } else {
        DeliveryStep::Skip(0)
    }
}

/// The step after `step`, given whether the sending it asked for succeeded
/// (`sent` is not read for other steps).
pub fn next_delivery_step(
    subscribers: &Vec<Result<ConfirmedSubscriber, String>>,
    step: DeliveryStep,
    sent: bool,
) -> (next: DeliveryStep)
    requires
        step_fits(subscribers@, step),
    ensures
        next == delivery_transition(subscribers@, step, sent),
        step_fits(subscribers@, next),
{
    let count = subscribers.len();
    let position = match step {
        DeliveryStep::Send(i) => {
            if !sent {
                return DeliveryStep::Finished(HTTP_INTERNAL_SERVER_ERROR);
            }
            i + 1
        },
        DeliveryStep::Skip(i) => i + 1,
        DeliveryStep::Finished(status) => {
            return DeliveryStep::Finished(status);
        },
    };
    if position >= count {
        DeliveryStep::Finished(HTTP_OK)
    } else if subscribers[position].is_ok() {
        DeliveryStep::Send(position)
    } else {
        DeliveryStep::Skip(position)
    }
}

/// The step reached from `step` with one outcome per step taken.
pub open spec fn run_delivery(
    subscribers: Seq<Result<ConfirmedSubscriber, String>>,
    step: DeliveryStep,
    outcomes: Seq<bool>,
) -> DeliveryStep
    decreases outcomes.len(),
{
    if outcomes.len() == 0 {
        step
    } else {
        run_delivery(
            subscribers,
            delivery_transition(subscribers, step, outcomes[0]),
            outcomes.drop_first(),
        )
    }
}

/// The indices of the subscribers sent the issue along that run, in order.
pub open spec fn sends_of_run(
    subscribers: Seq<Result<ConfirmedSubscriber, String>>,
    step: DeliveryStep,
    outcomes: Seq<bool>,
) -> Seq<int>
    decreases outcomes.len(),
{
    if outcomes.len() == 0 {
        Seq::empty()
    } else {
        let here = match step {
            DeliveryStep::Send(i) => seq![i as int],
            _ => Seq::empty(),
        };
        here + sends_of_run(
            subscribers,
            delivery_transition(subscribers, step, outcomes[0]),
            outcomes.drop_first(),
        )
    }
}

/// The indices, from `from` on and in order, of subscribers whose details are valid.
pub open spec fn valid_indices_from(subscribers: Seq<Result<ConfirmedSubscriber, String>>, from: int) -> Seq<int>
    decreases subscribers.len() - from,
{
    if from < 0 || from >= subscribers.len() {
        Seq::empty()
    } else {
        let here = if subscribers[from] is Ok {
            seq![from]
        } else {
            Seq::empty()
        };
        here + valid_indices_from(subscribers, from + 1)
    }
}

proof fn lemma_delivery_from(
    subscribers: Seq<Result<ConfirmedSubscriber, String>>,
    position: int,
    outcomes: Seq<bool>,
)
    requires
        subscribers.len() <= usize::MAX,
        0 <= position <= subscribers.len(),
        outcomes.len() >= subscribers.len() - position,
        forall|i: int| 0 <= i < outcomes.len() ==> #[trigger] outcomes[i],
    ensures
        run_delivery(subscribers, step_at(subscribers, position), outcomes) == DeliveryStep::Finished(
            HTTP_OK,
        ),
        sends_of_run(subscribers, step_at(subscribers, position), outcomes) == valid_indices_from(
            subscribers,
            position,
        ),
    decreases subscribers.len() - position,
{
    let step = step_at(subscribers, position);
    if position == subscribers.len() {
        lemma_finished_stays(subscribers, HTTP_OK, outcomes);
    } else {
        let rest = outcomes.drop_first();
        assert forall|i: int| 0 <= i < rest.len() implies #[trigger] rest[i] by {
            assert(outcomes[i + 1]);
        }
        assert(outcomes[0]);
        assert(delivery_transition(subscribers, step, outcomes[0]) == step_at(subscribers, position + 1));
        lemma_delivery_from(subscribers, position + 1, rest);
    }
}

/// Law: once the delivery is answered, it stays answered and sends nothing more.
pub proof fn lemma_finished_stays(
    subscribers: Seq<Result<ConfirmedSubscriber, String>>,
    status: u16,
    outcomes: Seq<bool>,
)
    ensures
        run_delivery(subscribers, DeliveryStep::Finished(status), outcomes) == DeliveryStep::Finished(
            status,
        ),
        sends_of_run(subscribers, DeliveryStep::Finished(status), outcomes) == Seq::<int>::empty(),
    decreases outcomes.len(),
{
    if outcomes.len() > 0 {
        lemma_finished_stays(subscribers, status, outcomes.drop_first());
    }
}

/// Law: when every sending succeeds, the issue goes to exactly the confirmed
/// subscribers whose stored details are valid, once each and in the order
/// they were listed, the others are skipped, and the request is answered 200.
pub proof fn lemma_delivery_reaches_every_valid_subscriber(
    subscribers: Seq<Result<ConfirmedSubscriber, String>>,
    outcomes: Seq<bool>,
)
    requires
        subscribers.len() <= usize::MAX,
        outcomes.len() >= subscribers.len(),
        forall|i: int| 0 <= i < outcomes.len() ==> #[trigger] outcomes[i],
    ensures
        run_delivery(subscribers, step_at(subscribers, 0), outcomes) == DeliveryStep::Finished(HTTP_OK),
        sends_of_run(subscribers, step_at(subscribers, 0), outcomes) == valid_indices_from(
            subscribers,
            0,
        ),
{
    lemma_delivery_from(subscribers, 0, outcomes);
}

/// Law: a failed sending ends the delivery: the request is answered 500 and
/// no later subscriber is sent the issue.
pub proof fn lemma_failed_send_ends_delivery(
    subscribers: Seq<Result<ConfirmedSubscriber, String>>,
    index: usize,
    outcomes: Seq<bool>,
)
    requires
        outcomes.len() > 0,
        !outcomes[0],
    ensures
        run_delivery(subscribers, DeliveryStep::Send(index), outcomes) == DeliveryStep::Finished(
            HTTP_INTERNAL_SERVER_ERROR,
        ),
        sends_of_run(subscribers, DeliveryStep::Send(index), outcomes) == seq![index as int],
{
    lemma_finished_stays(subscribers, HTTP_INTERNAL_SERVER_ERROR, outcomes.drop_first());
    assert(seq![index as int] + Seq::<int>::empty() =~= seq![index as int]);
}

/// Law: the step at which publishing starts looks at the first subscriber:
/// it sends to them when their details are valid, skips them otherwise, and
/// answers 200 at once when there is nobody.
pub proof fn lemma_first_step(subscribers: Seq<Result<ConfirmedSubscriber, String>>)
    ensures
        step_at(subscribers, 0) == (if subscribers.len() == 0 {
            DeliveryStep::Finished(200)
        } else if subscribers[0] is Ok {
            DeliveryStep::Send(0)
        } else {
            DeliveryStep::Skip(0)
        }),
{
}

/// Law: skipping a subscriber never depends on any sending outcome; from a
/// skip at `i`, whatever `sent` says, publishing goes on with the subscriber
/// at `i + 1`: it sends to them when their details are valid, skips them
/// otherwise, and answers 200 past the end of the list.
pub proof fn lemma_skip_goes_on(
    subscribers: Seq<Result<ConfirmedSubscriber, String>>,
    i: usize,
    sent: bool,
)
    requires
        subscribers.len() <= usize::MAX,
        i < subscribers.len(),
    ensures
        delivery_transition(subscribers, DeliveryStep::Skip(i), sent) == (if i + 1
            >= subscribers.len() {
            DeliveryStep::Finished(200)
        } else if subscribers[i + 1] is Ok {
            DeliveryStep::Send((i + 1) as usize)
        } else {
            DeliveryStep::Skip((i + 1) as usize)
        }),
        delivery_transition(subscribers, DeliveryStep::Skip(i), sent) == delivery_transition(
            subscribers,
            DeliveryStep::Skip(i),
            !sent,
        ),
{
}

/// Law: after a successful sending to the subscriber at `i`, publishing goes
/// on with the subscriber at `i + 1` (sending, skipping, or answering 200
/// past the end); after a failed one it stops and answers 500.
pub proof fn lemma_send_outcome(
    subscribers: Seq<Result<ConfirmedSubscriber, String>>,
    i: usize,
)
    requires
        subscribers.len() <= usize::MAX,
        i < subscribers.len(),
    ensures
        delivery_transition(subscribers, DeliveryStep::Send(i), true) == (if i + 1
            >= subscribers.len() {
            DeliveryStep::Finished(200)
        } else if subscribers[i + 1] is Ok {
            DeliveryStep::Send((i + 1) as usize)
        } else {
            DeliveryStep::Skip((i + 1) as usize)
        }),
        delivery_transition(subscribers, DeliveryStep::Send(i), false) == DeliveryStep::Finished(
            500,
        ),
{
}

/// Law: an answered request keeps its answer, whatever outcome is reported.
pub proof fn lemma_finished_is_final(
    subscribers: Seq<Result<ConfirmedSubscriber, String>>,
    status: u16,
    sent: bool,
)
    ensures
        delivery_transition(subscribers, DeliveryStep::Finished(status), sent)
            == DeliveryStep::Finished(status),
{
}

/// Law: the context of a failed sending is "Failed to send newsletter issue
/// to " followed by the whole address.
pub proof fn lemma_send_failure_text(email: Seq<char>)
    ensures
        send_failure_text(email).len() == "Failed to send newsletter issue to "@.len()
            + email.len(),
        send_failure_text(email).subrange(0, "Failed to send newsletter issue to "@.len() as int)
            == "Failed to send newsletter issue to "@,
        send_failure_text(email).subrange(
            "Failed to send newsletter issue to "@.len() as int,
            send_failure_text(email).len() as int,
        ) == email,
{
    let h = "Failed to send newsletter issue to "@;
    assert(send_failure_text(email).subrange(0, h.len() as int) =~= h);
    assert(send_failure_text(email).subrange(h.len() as int, send_failure_text(email).len() as int)
        =~= email);
}

/// The context added to the error of a failed sending to `email`.
pub open spec fn send_failure_text(email: Seq<char>) -> Seq<char> {
    "Failed to send newsletter issue to "@ + email
}

/// The context added to the error of a failed sending to `subscriber`.
pub fn send_failure_context(subscriber: &ConfirmedSubscriber) -> (m: String)
    ensures
        m@ == send_failure_text(subscriber.email@),
{
    let m = String::from_str("Failed to send newsletter issue to ");
    m.concat(subscriber.email.as_ref())
}

} // verus!
