//! An arena-scoped element processor: every input event is handled with
//! working memory carved from one resettable bump region, which is rewound
//! once at the start of each cycle.

mod bump;
pub mod region;
pub mod sums;
pub mod scoped;
pub mod demos;
pub mod processor;
pub mod closures;
