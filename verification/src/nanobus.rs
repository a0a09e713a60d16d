//! A small message bus: subscribers register for topics, and each published
//! message goes to the subscribers of its topic.

pub mod broadcast;
pub mod broker;
