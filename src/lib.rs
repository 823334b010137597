//! Interaction core of a turn-based bluffing game played in the terminal: a shotgun
//! whose concealed chamber is loaded by weighted draws and fired last-loaded-first,
//! a bounded narrative log, a stack of information panels with a single keyboard
//! focus, and the dispatcher that turns input into actions and applies them.
pub mod app;
pub mod events;
pub mod game;
pub mod log_ring;
pub mod rng;
pub mod shotgun;
pub mod widgets;
