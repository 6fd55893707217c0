//! A single-tape deterministic automaton: a caller supplies a state type, a
//! symbol type and a transition function, and the machine applies one
//! transition per step over a tape that grows at either end on demand.

pub mod config;
mod deque;
pub mod executor;
pub mod laws;
pub mod machine;
pub mod rule;

pub use config::Config;
pub use executor::Executor;
pub use machine::{Machine, MachinePeek};
pub use rule::{Move, Rule, State};
