//! A lock/unlock script evaluator: an unlock script gathers witnesses from a
//! proposed key-value state onto a parameter stack, and lock scripts check
//! those witnesses against the current state, leaving success and failure
//! markers on a return stack.
pub mod context;
pub mod hashing;
pub mod laws;
pub mod lifecycle;
pub mod pairs;
pub mod stack;
pub mod value;

pub use context::{Context, ContextView};
pub use lifecycle::{Comrade, ComradeBuilder, Current, Initial, Proposed, Unlocked};
pub use pairs::{ContextPairs, Pairable, Pairs};
pub use stack::Stk;
pub use value::{Value, ValueView};
