//! Ways to represent a closure that captures part of its environment, each
//! applied to the same small program: build closures over a captured value
//! and hand them to a function that calls them with five.

pub mod static_dispatch;
pub mod custom_trait;
pub mod environment_record;
pub mod mutable_argument;
