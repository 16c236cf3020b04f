//! A load generator that submits one named task to a remote contract per
//! fixed interval, and keeps going whatever a single submission does.

pub mod dispatch;
pub mod name;
pub mod submission;
