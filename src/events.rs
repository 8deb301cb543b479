//! One step of the event loop: what an event from the remote display does
//! to the session, and what the loop must do next.
use vstd::prelude::*;

use crate::app_state::AppState;
use crate::error::AppError;
use crate::experiment_result::Timestamp;
use crate::experiment_state::{ExperimentState, ResultFile};
use crate::parameters::ParameterValues;
use crate::remote::{ExperimentAnswer, UnityEvent};
use crate::storage::Folder;

verus! {

/// The remote display connected or disconnected.
#[derive(Clone, Copy, Debug, PartialEq, Eq, Structural)]
pub struct ConnectionEvent {
    pub is_connected: bool,
}

/// A result was stored at `result_file_path`.
#[derive(Debug, PartialEq, Eq)]
pub struct ResultSavedEvent {
    pub result_file_path: String,
}

/// What the loop does after a step.
#[derive(Debug)]
pub enum EventAction {
    /// Nothing.
    Nothing,
    /// Keep the blank view for the cool-down, then call `end_cooldown`.
    Cooldown,
    /// The experiment is over: store this result file.
    Finished(ResultFile),
    /// Tell the operator that the remote display connected or disconnected.
    Notify(ConnectionEvent),
}

/// The outcome of a step: an error to log, if any, and what to do next.
#[derive(Debug)]
pub struct EventOutcome {
    pub error: Option<AppError>,
    pub action: EventAction,
}

/// The error of `r`, if any.
pub open spec fn error_of<T>(r: Result<T, AppError>) -> Option<AppError> {
    match r {
        Ok(_) => None,
        Err(e) => Some(e),
    }
}

/// `file` stores what `q` recorded, in its experiment's results folder,
/// under a name that ends in `-<result key>`.
pub open spec fn stores(file: ResultFile, q: ExperimentState) -> bool {
    &&& exists|stamp: Seq<char>| file.key@ == stamp + "-"@ + q.spec_shared().result_key@
    &&& file.folder == (Folder::Results { experiment_key: q.spec_shared().experiment_key })
    &&& file.result == q.spec_result()
}

/// What follows an answer that left the experiment as `q` with result `r`:
/// once every prompt is answered the session goes back to the live view at
/// the defaults and the result is handed on to be stored; otherwise the
/// blank view goes on for the cool-down.
pub open spec fn settled(
    q: ExperimentState,
    r: Result<bool, AppError>,
    post: AppState,
    out: EventOutcome,
) -> bool {
    if r == Ok::<bool, AppError>(true) {
        &&& post == AppState::LiveView(ParameterValues::spec_defaults())
        &&& out.error is None
        &&& out.action matches EventAction::Finished(file) && stores(file, q)
    } else {
        &&& post == AppState::Experiment(q.with_idle(true))
        &&& out.error == error_of(r)
        &&& out.action is Cooldown
    }
}

impl AppState {
    /// `post` and `out` are what an answer at `now` makes of `pre`.
    pub open spec fn submitted(
        pre: AppState,
        answer: ExperimentAnswer,
        now: Timestamp,
        post: AppState,
        out: EventOutcome,
    ) -> bool {
        match pre {
            AppState::Experiment(p) => exists|q: ExperimentState, r: Result<bool, AppError>|
                #[trigger] ExperimentState::answered(p, answer, now, q, r) && settled(q, r, post, out),
            _ => {
                &&& post == pre
                &&& out.error == Some(AppError::WrongMode)
                &&& out.action is Cooldown
            },
        }
    }

    /// `post` and `out` are what `event`, arriving at `now`, makes of `pre`.
    /// A refused swap is reported and dropped; a connection change is passed
    /// on and leaves the session as it is.
    pub open spec fn handled(
        pre: AppState,
        event: UnityEvent,
        now: Timestamp,
        post: AppState,
        out: EventOutcome,
    ) -> bool {
        match event {
            UnityEvent::SwapPreset => exists|r: Result<(), AppError>|
                #[trigger] AppState::swapped(pre, post, r) && out.error == error_of(r)
                    && out.action is Nothing,
            UnityEvent::Answer(answer) => AppState::submitted(pre, answer, now, post, out),
            UnityEvent::Connection { is_connected } => {
                &&& post == pre
                &&& out.error is None
                &&& out.action == EventAction::Notify(ConnectionEvent { is_connected })
            },
        }
    }

    /// Records `answer`, given at `now`, and turns on the blank view; once
    /// every prompt is answered, ends the experiment and hands back its
    /// result file.
    pub fn submit_answer(&mut self, answer: ExperimentAnswer, now: Timestamp) -> (out: EventOutcome)
        requires
            old(self).wf(),
            now.wf(),
        ensures
            Self::submitted(*old(self), answer, now, *final(self), out),
            final(self).wf(),
    {
        let ghost pre = *self;
        let r = self.answer_experiment_at(answer, now);
        let ghost mid = *self;
        let done = match r {
            Ok(d) => d,
            Err(_) => false,
        };
        if done {
            let mut finished = AppState::LiveView(ParameterValues::default());
            std::mem::swap(self, &mut finished);
            match finished {
                AppState::Experiment(q) => {
                    let file = q.finish_experiment();
                    let out = EventOutcome { error: None, action: EventAction::Finished(file) };
                    assert(settled(q, r, *self, out));
                    out
                },
                _ => unreached(),
            }
        } else {
            match self {
                AppState::Experiment(q) => q.set_is_idle(true),
                _ => {},
            }
            let out = EventOutcome {
                error: match r {
                    Ok(_) => None,
                    Err(e) => Some(e),
                },
                action: EventAction::Cooldown,
            };
            proof {
                if let AppState::Experiment(q) = mid {
                    assert(settled(q, r, *self, out));
                }
            }
            out
        }
    }

    /// Ends the blank view after the cool-down.
    pub fn end_cooldown(&mut self)
        ensures
            match *old(self) {
                AppState::Experiment(q) => *final(self) == AppState::Experiment(q.with_idle(false)),
                _ => *final(self) == *old(self),
            },
            final(self).wf() == old(self).wf(),
    {
        match self {
            AppState::Experiment(q) => q.set_is_idle(false),
            _ => {},
        }
    }

    /// Applies one event from the remote display, arriving at `now`.
    pub fn handle_event(&mut self, event: UnityEvent, now: Timestamp) -> (out: EventOutcome)
        requires
            old(self).wf(),
            now.wf(),
        ensures
            Self::handled(*old(self), event, now, *final(self), out),
            final(self).wf(),
    {
        match event {
            UnityEvent::SwapPreset => {
                let ghost pre = *self;
                let r = self.swap_preset();
                let out = EventOutcome {
                    error: match r {
                        Ok(_) => None,
                        Err(e) => Some(e),
                    },
                    action: EventAction::Nothing,
                };
                assert(AppState::swapped(pre, *self, r));
                out
            },
            UnityEvent::Answer(answer) => self.submit_answer(answer, now),
            UnityEvent::Connection { is_connected } => EventOutcome {
                error: None,
                action: EventAction::Notify(ConnectionEvent { is_connected }),
            },
        }
    }
}

} // verus!
