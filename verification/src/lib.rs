//! Orchestration of multi-step text-generation rounds.
//!
//! A round decomposes one task into an ordered pipeline of steps (model
//! generated inference steps and fixed guidance steps), runs them one at a
//! time, composes their outputs into a single textual outcome, and recovers
//! from partial failure by rolling the whole round back. A separate layer
//! classifies backend failures as transient or permanent and decides when a
//! retried request may be attempted again.

pub mod context;
pub mod deque;
pub mod executor;
pub mod logit_bias;
pub mod round;
pub mod step;
pub mod text;
