//! Session control for a parameter-presentation research tool: presets,
//! experiments, their result logs, the session state machine and the view of
//! it that a remote display is allowed to see.

pub mod parameters;
pub mod preset;
pub mod error;
pub mod trusted;
pub mod experiment;
pub mod experiment_result;
pub mod experiment_state;
pub mod rating_experiment_state;
pub mod choice_experiment_state;
pub mod storage;
pub mod remote;
pub mod app_state;
pub mod events;
pub mod lemmas;
