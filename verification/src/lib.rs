//! Tournament registration and eligibility for a community cup: a player
//! registry keyed by game account and chat account, a tournament registry
//! with at most one active tournament, and the rules that decide whether a
//! player may register.
//!
//! Every operation is a function of the registry's state and its arguments.
//! What the game's data source answered and, where a call does not read the
//! clock itself, the current time are arguments too. An operation that
//! changes a registry takes it by exclusive reference: its checks and its
//! writes are one step, and nothing can look at the registry in between.

pub mod clock;
pub mod database;
pub mod measure;
pub mod rank;
pub mod search;
pub mod tenchi;
pub mod tetrio;
pub mod text;
