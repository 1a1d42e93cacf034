//! Subscription and newsletter logic of a small newsletter service: the
//! validation of new subscribers, the subscription workflow, the delivery of
//! newsletter issues and the text the service sends out.

pub mod domain;
pub mod routes;
pub mod startup;
mod text;
