use crate::domain::SubscriberEmail;
use crate::domain::SubscriberName;
use vstd::prelude::*;

verus! {

/// A subscriber whose name and email passed their checks.
pub struct NewSubscriber {
    pub email: SubscriberEmail,
    pub name: SubscriberName,
}

} // verus!
