pub mod newsletters;
pub mod subscriptions;
