//! A running experiment, of either kind.
use vstd::prelude::*;

use crate::choice_experiment_state::ChoiceExperimentState;
use crate::error::AppError;
use crate::experiment::{ChoiceExperiment, CurrentPreset, RatingExperiment};
use crate::experiment_result::{
    ChoiceExperimentResult, ExperimentResult, RatingExperimentResult, Timestamp,
};
use crate::preset::Preset;
use crate::rating_experiment_state::RatingExperimentState;
use crate::remote::ExperimentAnswer;
use crate::storage::Folder;
use crate::trusted::local_stamp_now;

verus! {

/// What both kinds of running experiment keep.
#[derive(Debug, PartialEq, Eq)]
pub struct SharedExperimentState {
    pub experiment_key: String,
    pub result_key: String,
    /// How many prompts have been answered.
    pub current_index: u32,
    /// Whether the remote display shows the blank view between two prompts.
    pub is_idle: bool,
}

impl Clone for SharedExperimentState {
    fn clone(&self) -> (r: Self)
        ensures
            r == *self,
    {
        SharedExperimentState {
            experiment_key: self.experiment_key.clone(),
            result_key: self.result_key.clone(),
            current_index: self.current_index,
            is_idle: self.is_idle,
        }
    }
}

/// `post` is `pre` one prompt further on.
pub open spec fn advanced(pre: SharedExperimentState, post: SharedExperimentState) -> bool {
    &&& post.experiment_key == pre.experiment_key
    &&& post.result_key == pre.result_key
    &&& post.is_idle == pre.is_idle
    &&& post.current_index == pre.current_index + 1
}

/// A running experiment.
#[derive(Debug)]
pub enum ExperimentState {
    Rating(RatingExperimentState),
    Choice(ChoiceExperimentState),
}

/// A finished result and where to store it.
#[derive(Debug)]
pub struct ResultFile {
    pub key: String,
    pub folder: Folder,
    pub result: ExperimentResult,
}

/// What `new_rating` and `new_choice` start from: the keys given, nothing
/// answered, the prompt on show.
pub open spec fn started(s: SharedExperimentState, experiment_key: String, result_key: String) -> bool {
    &&& s.experiment_key == experiment_key
    &&& s.result_key == result_key
    &&& s.current_index == 0
    &&& !s.is_idle
}

impl ExperimentState {
    pub open spec fn wf(&self) -> bool {
        match self {
            ExperimentState::Rating(s) => s.wf(),
            ExperimentState::Choice(s) => s.wf(),
        }
    }

    pub open spec fn spec_shared(&self) -> SharedExperimentState {
        match self {
            ExperimentState::Rating(s) => s.shared,
            ExperimentState::Choice(s) => s.shared,
        }
    }

    pub open spec fn prompt_count(&self) -> nat {
        match self {
            ExperimentState::Rating(s) => s.prompt_count(),
            ExperimentState::Choice(s) => s.prompt_count(),
        }
    }

    pub open spec fn done(&self) -> bool {
        match self {
            ExperimentState::Rating(s) => s.done(),
            ExperimentState::Choice(s) => s.done(),
        }
    }

    /// The number of outcomes recorded.
    pub open spec fn outcome_count(&self) -> nat {
        match self {
            ExperimentState::Rating(s) => s.result.ratings@.len(),
            ExperimentState::Choice(s) => s.result.choices@.len(),
        }
    }

    pub open spec fn current_key(&self) -> Seq<char> {
        match self {
            ExperimentState::Rating(s) => s.current_key(),
            ExperimentState::Choice(s) => s.current_key(),
        }
    }

    /// The preset on show.
    pub open spec fn current_preset(&self) -> Preset {
        match self {
            ExperimentState::Rating(s) => s.experiment.shared.presets@[s.current_key()],
            ExperimentState::Choice(s) => s.experiment.shared.presets@[s.current_key()],
        }
    }

    /// `answer` is of the experiment's kind.
    pub open spec fn accepts(&self, answer: ExperimentAnswer) -> bool {
        match (self, answer) {
            (ExperimentState::Rating(_), ExperimentAnswer::Rating { .. }) => true,
            (ExperimentState::Choice(_), ExperimentAnswer::Choice) => true,
            _ => false,
        }
    }

    /// `post` and `r` are what answering `answer` at `now` makes of `pre`:
    /// an answer of the other kind is refused and changes nothing.
    pub open spec fn answered(
        pre: ExperimentState,
        answer: ExperimentAnswer,
        now: Timestamp,
        post: ExperimentState,
        r: Result<bool, AppError>,
    ) -> bool {
        match (pre, answer) {
            (ExperimentState::Rating(p), ExperimentAnswer::Rating { value }) => {
                &&& post matches ExperimentState::Rating(q)
                &&& r matches Ok(done)
                &&& RatingExperimentState::answered(p, value, now, q, done)
            },
            (ExperimentState::Choice(p), ExperimentAnswer::Choice) => {
                &&& post matches ExperimentState::Choice(q)
                &&& r matches Ok(done)
                &&& ChoiceExperimentState::answered(p, now, q, done)
            },
            _ => post == pre && r == Err::<bool, AppError>(AppError::WrongMode),
        }
    }

    /// `answered` at some instant after the epoch.
    pub open spec fn answered_now(
        pre: ExperimentState,
        answer: ExperimentAnswer,
        post: ExperimentState,
        r: Result<bool, AppError>,
    ) -> bool {
        exists|now: Timestamp| now.wf() && #[trigger] Self::answered(pre, answer, now, post, r)
    }

    pub fn new_rating(
        experiment_key: String,
        result_key: String,
        experiment: RatingExperiment,
        result: RatingExperimentResult,
    ) -> (r: Self)
        ensures
            r matches ExperimentState::Rating(s) && started(s.shared, experiment_key, result_key)
                && s.experiment == experiment && s.result == result,
    {
        ExperimentState::Rating(
            RatingExperimentState {
                shared: SharedExperimentState {
                    experiment_key,
                    result_key,
                    current_index: 0,
                    is_idle: false,
                },
                experiment,
                result,
            },
        )
    }

    pub fn new_choice(
        experiment_key: String,
        result_key: String,
        experiment: ChoiceExperiment,
        result: ChoiceExperimentResult,
    ) -> (r: Self)
        ensures
            r matches ExperimentState::Choice(s) && started(s.shared, experiment_key, result_key)
                && s.experiment == experiment && s.result == result && s.current_preset
                == CurrentPreset::A,
    {
        ExperimentState::Choice(
            ChoiceExperimentState {
                shared: SharedExperimentState {
                    experiment_key,
                    result_key,
                    current_index: 0,
                    is_idle: false,
                },
                current_preset: CurrentPreset::A,
                experiment,
                result,
            },
        )
    }

    pub fn shared(&self) -> (r: &SharedExperimentState)
        ensures
            *r == self.spec_shared(),
    {
        match self {
            ExperimentState::Rating(s) => &s.shared,
            ExperimentState::Choice(s) => &s.shared,
        }
    }

    pub fn is_idle(&self) -> (r: bool)
        ensures
            r == self.spec_shared().is_idle,
    {
        self.shared().is_idle
    }

    /// The same state with the blank view turned on or off.
    pub open spec fn with_idle(self, is_idle: bool) -> ExperimentState {
        match self {
            ExperimentState::Rating(s) => ExperimentState::Rating(
                RatingExperimentState {
                    shared: SharedExperimentState { is_idle, ..s.shared },
                    ..s
                },
            ),
            ExperimentState::Choice(s) => ExperimentState::Choice(
                ChoiceExperimentState {
                    shared: SharedExperimentState { is_idle, ..s.shared },
                    ..s
                },
            ),
        }
    }

    /// Turns the blank view between two prompts on or off; nothing else
    /// changes.
    pub fn set_is_idle(&mut self, is_idle: bool)
        ensures
            *final(self) == old(self).with_idle(is_idle),
            final(self).wf() == old(self).wf(),
            final(self).done() == old(self).done(),
    {
        match self {
            ExperimentState::Rating(s) => s.shared.is_idle = is_idle,
            ExperimentState::Choice(s) => s.shared.is_idle = is_idle,
        }
    }

    pub fn is_done(&self) -> (r: bool)
        ensures
            r == self.done(),
    {
        match self {
            ExperimentState::Rating(s) => s.is_done(),
            ExperimentState::Choice(s) => s.is_done(),
        }
    }

    pub fn get_current_preset_key(&self) -> (r: String)
        requires
            self.wf(),
            !self.done(),
        ensures
            r@ == self.current_key(),
    {
        match self {
            ExperimentState::Rating(s) => s.get_current_preset_key(),
            ExperimentState::Choice(s) => s.get_current_preset_key(),
        }
    }

    pub fn get_current_preset(&self) -> (r: Preset)
        requires
            self.wf(),
            !self.done(),
        ensures
            r == self.current_preset(),
    {
        match self {
            ExperimentState::Rating(s) => s.get_current_preset(),
            ExperimentState::Choice(s) => s.get_current_preset(),
        }
    }

    /// Records `answer`, given at `now`; returns whether every prompt has
    /// been answered. Fails with `WrongMode` on an answer of the other kind.
    pub fn answer_at(&mut self, answer: ExperimentAnswer, now: Timestamp) -> (r: Result<
        bool,
        AppError,
    >)
        requires
            old(self).wf(),
            now.wf(),
        ensures
            Self::answered(*old(self), answer, now, *final(self), r),
            final(self).wf(),
    {
        match (self, answer) {
            (ExperimentState::Rating(s), ExperimentAnswer::Rating { value }) => Ok(
                s.answer_at(value, now),
            ),
            (ExperimentState::Choice(s), ExperimentAnswer::Choice) => Ok(s.answer_at(now)),
            _ => Err(AppError::WrongMode),
        }
    }

    /// Records `answer`, given now; returns whether every prompt has been
    /// answered. Fails with `WrongMode` on an answer of the other kind.
    pub fn answer(&mut self, answer: ExperimentAnswer) -> (r: Result<bool, AppError>)
        requires
            old(self).wf(),
        ensures
            Self::answered_now(*old(self), answer, *final(self), r),
            final(self).wf(),
    {
        let ghost pre = *self;
        let now = Timestamp::now();
        let r = self.answer_at(answer, now);
        assert(Self::answered(pre, answer, now, *self, r));
        r
    }

    /// The result log, of the experiment's kind.
    pub open spec fn spec_result(self) -> ExperimentResult {
        match self {
            ExperimentState::Rating(s) => ExperimentResult::Rating(s.result),
            ExperimentState::Choice(s) => ExperimentResult::Choice(s.result),
        }
    }

    /// The result file for this experiment, named `<stamp>-<result key>` in
    /// the experiment's results folder.
    pub fn result_file(self, stamp: String) -> (r: ResultFile)
        ensures
            r.key@ == stamp@ + "-"@ + self.spec_shared().result_key@,
            r.folder == (Folder::Results { experiment_key: self.spec_shared().experiment_key }),
            r.result == self.spec_result(),
    {
        let (shared, result) = match self {
            ExperimentState::Rating(s) => (s.shared, ExperimentResult::Rating(s.result)),
            ExperimentState::Choice(s) => (s.shared, ExperimentResult::Choice(s.result)),
        };
        let mut key = stamp;
        key.append("-");
        key.append(shared.result_key.as_str());
        ResultFile {
            key,
            folder: Folder::Results { experiment_key: shared.experiment_key },
            result,
        }
    }

    /// The result file for this experiment, named after the local time now
    /// and the result key, in the experiment's results folder.
    pub fn finish_experiment(self) -> (r: ResultFile)
        ensures
            exists|stamp: Seq<char>| r.key@ == stamp + "-"@ + self.spec_shared().result_key@,
            r.folder == (Folder::Results { experiment_key: self.spec_shared().experiment_key }),
            r.result == self.spec_result(),
    {
        let stamp = local_stamp_now();
        let ghost s = stamp@;
        let r = self.result_file(stamp);
        assert(r.key@ == s + "-"@ + self.spec_shared().result_key@);
        r
    }
}

} // verus!
