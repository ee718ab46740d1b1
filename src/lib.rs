//! Parallel string rewriting (L-systems): a rule set of pattern and
//! replacement pairs, the rewrite of one generation into the next, and a
//! forward-only sequence of generations grown from a starting string.

pub mod laws;
pub mod rewrite;
pub mod rules;
pub mod system;

pub use rewrite::rewrite;
pub use rules::{RuleError, Rules, Symbol};
pub use system::LSystem;
