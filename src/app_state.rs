//! The session: idle, live view or a running experiment, and the
//! transitions between them.
use vstd::prelude::*;

use crate::error::AppError;
use crate::experiment::{ChoiceExperiment, CurrentPreset, Experiment, RatingExperiment};
use crate::experiment_result::{
    fresh_shared, ChoiceExperimentResult, RatingExperimentResult, Timestamp,
};
use crate::experiment_state::ExperimentState;
use crate::parameters::ParameterValues;
use crate::preset::{Preset, WithKey};
use crate::remote::{ExperimentAnswer, ExperimentPrompt, UnityExperimentType, UnityState};
use crate::trusted::{shuffle, slug_of, slugify};

verus! {

/// The authoritative state of the session.
#[derive(Debug)]
pub enum AppState {
    Idle,
    LiveView(ParameterValues),
    Experiment(ExperimentState),
}

/// `t` holds the same elements as `s`, in the same order unless `shuffled`.
pub open spec fn reordered<A>(s: Seq<A>, t: Seq<A>, shuffled: bool) -> bool {
    if shuffled {
        t.len() == s.len() && t.to_multiset() == s.to_multiset()
    } else {
        t == s
    }
}

/// `s` is the fresh run of `experiment` that `start` makes: keys given, the
/// result key the slug of the result's name, nothing answered, the prompts
/// shuffled once if asked for, an empty log that keeps the name, observer,
/// note and a copy of the presets.
pub open spec fn launched(
    experiment: Experiment,
    s: ExperimentState,
    experiment_key: String,
    result_name: String,
    observer_id: u32,
    note: String,
    randomize: bool,
) -> bool {
    &&& s.spec_shared().experiment_key == experiment_key
    &&& s.spec_shared().result_key@ == slug_of(result_name@)
    &&& s.spec_shared().current_index == 0
    &&& !s.spec_shared().is_idle
    &&& match (experiment, s) {
        (Experiment::Rating(e), ExperimentState::Rating(q)) => {
            &&& q.experiment.shared == e.shared
            &&& reordered(e.order@, q.experiment.order@, randomize)
            &&& fresh_shared(
                q.result.shared,
                result_name,
                q.result.shared.time,
                observer_id,
                note,
                e.shared.presets,
            )
            &&& q.result.ratings@.len() == 0
        },
        (Experiment::Choice(e), ExperimentState::Choice(q)) => {
            &&& q.experiment.shared == e.shared
            &&& reordered(e.choices@, q.experiment.choices@, randomize)
            &&& fresh_shared(
                q.result.shared,
                result_name,
                q.result.shared.time,
                observer_id,
                note,
                e.shared.presets,
            )
            &&& q.result.choices@.len() == 0
            &&& q.current_preset == CurrentPreset::A
        },
        _ => false,
    }
}

proof fn lemma_permuted_member<A>(s: Seq<A>, t: Seq<A>, i: int)
    requires
        t.to_multiset() == s.to_multiset(),
        0 <= i < t.len(),
    ensures
        exists|j: int| 0 <= j < s.len() && s[j] == t[i],
{
    s.to_multiset_ensures();
    t.to_multiset_ensures();
    assert(t.contains(t[i]));
    assert(t.to_multiset().count(t[i]) > 0);
    assert(s.contains(t[i]));
}

impl ExperimentState {
    /// A fresh run of `experiment`. Fails with `InvalidState` where a prompt
    /// names a preset the experiment does not carry, or there are more
    /// prompts than a `u32` counts.
    pub fn start(
        experiment_key: String,
        result_name: String,
        observer_id: u32,
        note: String,
        randomize: bool,
        experiment: Experiment,
    ) -> (r: Result<ExperimentState, AppError>)
        ensures
            r is Ok <==> experiment.wf(),
            r matches Err(e) ==> e == AppError::InvalidState,
            r matches Ok(s) ==> s.wf() && s.prompt_count() == experiment.prompt_count() && launched(
                experiment,
                s,
                experiment_key,
                result_name,
                observer_id,
                note,
                randomize,
            ),
    {
        if !experiment.is_valid() {
            return Err(AppError::InvalidState);
        }
        let result_key = slugify(&result_name);
        let time = Timestamp::now();
        match experiment {
            Experiment::Rating(e) => {
                let ghost e0 = e;
                let RatingExperiment { shared, order } = e;
                let mut order = order;
                if randomize {
                    shuffle(&mut order);
                    proof {
                        assert forall|i: int| 0 <= i < order@.len() implies shared.presets@.contains_key(
                            #[trigger] order@[i]@,
                        ) by {
                            lemma_permuted_member(e0.order@, order@, i);
                        }
                    }
                }
                let e = RatingExperiment { shared, order };
                let result = RatingExperimentResult::new(result_name, time, observer_id, note, &e);
                Ok(ExperimentState::new_rating(experiment_key, result_key, e, result))
            },
            Experiment::Choice(e) => {
                let ghost e0 = e;
                let ChoiceExperiment { shared, choices } = e;
                let mut choices = choices;
                if randomize {
                    shuffle(&mut choices);
                    proof {
                        assert forall|i: int| 0 <= i < choices@.len() implies shared.presets@.contains_key(
                            #[trigger] choices@[i].a@,
                        ) by {
                            lemma_permuted_member(e0.choices@, choices@, i);
                        }
                        assert forall|i: int| 0 <= i < choices@.len() implies shared.presets@.contains_key(
                            #[trigger] choices@[i].b@,
                        ) by {
                            lemma_permuted_member(e0.choices@, choices@, i);
                        }
                    }
                }
                let e = ChoiceExperiment { shared, choices };
                let result = ChoiceExperimentResult::new(result_name, time, observer_id, note, &e);
                Ok(ExperimentState::new_choice(experiment_key, result_key, e, result))
            },
        }
    }
}

impl AppState {
    pub open spec fn wf(&self) -> bool {
        match self {
            AppState::Experiment(s) => s.wf(),
            _ => true,
        }
    }

    /// Leaves whatever runs and shows nothing.
    pub fn enter_idle(&mut self)
        ensures
            *final(self) == AppState::Idle,
    {
        *self = AppState::Idle;
    }

    /// Leaves whatever runs and shows `parameters` live.
    pub fn enter_live_view(&mut self, parameters: ParameterValues)
        ensures
            *final(self) == AppState::LiveView(parameters),
    {
        *self = AppState::LiveView(parameters);
    }

    /// The preset that saving the live values under `name` makes: stored
    /// under the slug of the name. Fails with `WrongMode` outside the live
    /// view.
    pub fn new_preset(&self, name: String) -> (r: Result<WithKey<Preset>, AppError>)
        ensures
            match *self {
                AppState::LiveView(parameters) => r matches Ok(p) && p.key@ == slug_of(name@)
                    && p.value == (Preset { name, parameters }),
                _ => r == Err::<WithKey<Preset>, AppError>(AppError::WrongMode),
            },
    {
        match self {
            AppState::LiveView(parameters) => {
                let key = slugify(&name);
                Ok(WithKey { key, value: Preset { name, parameters: *parameters } })
            },
            _ => Err(AppError::WrongMode),
        }
    }

    /// Leaves the experiment early, back to the live view at the defaults.
    pub fn exit_experiment(&mut self)
        ensures
            *final(self) == AppState::LiveView(ParameterValues::spec_defaults()),
    {
        *self = AppState::LiveView(ParameterValues::default());
    }

    /// Starts a run of `experiment`, whatever the session did before. Fails
    /// with `InvalidState`, and changes nothing, where the experiment is not
    /// valid.
    pub fn start_experiment(
        &mut self,
        experiment_key: String,
        result_name: String,
        observer_id: u32,
        note: String,
        randomize: bool,
        experiment: Experiment,
    ) -> (r: Result<(), AppError>)
        ensures
            r is Ok <==> experiment.wf(),
            r matches Err(e) ==> e == AppError::InvalidState && *final(self) == *old(self),
            r is Ok ==> final(self).wf(),
            r is Ok ==> (*final(self) matches AppState::Experiment(s) && launched(
                experiment,
                s,
                experiment_key,
                result_name,
                observer_id,
                note,
                randomize,
            )),
    {
        match ExperimentState::start(
            experiment_key,
            result_name,
            observer_id,
            note,
            randomize,
            experiment,
        ) {
            Ok(s) => {
                *self = AppState::Experiment(s);
                Ok(())
            },
            Err(e) => Err(e),
        }
    }

    /// `post` and `r` are what a swap makes of `pre`: in a choice experiment
    /// the other preset of the pair goes on show; anywhere else the swap is
    /// refused and nothing changes.
    pub open spec fn swapped(pre: AppState, post: AppState, r: Result<(), AppError>) -> bool {
        match pre {
            AppState::Experiment(ExperimentState::Choice(p)) => {
                &&& r is Ok
                &&& post matches AppState::Experiment(ExperimentState::Choice(q))
                &&& q.current_preset == p.current_preset.flipped()
                &&& q.shared == p.shared
                &&& q.experiment == p.experiment
                &&& q.result == p.result
            },
            _ => post == pre && r == Err::<(), AppError>(AppError::WrongMode),
        }
    }

    /// Shows the other preset of the current pair. Fails with `WrongMode`
    /// outside a choice experiment.
    pub fn swap_preset(&mut self) -> (r: Result<(), AppError>)
        ensures
            Self::swapped(*old(self), *final(self), r),
            final(self).wf() == old(self).wf(),
    {
        match self {
            AppState::Experiment(ExperimentState::Choice(s)) => {
                s.swap_current_preset();
                Ok(())
            },
            _ => Err(AppError::WrongMode),
        }
    }

    /// `post` and `r` are what answering `answer` at `now` makes of `pre`:
    /// outside an experiment the answer is refused and nothing changes.
    pub open spec fn answered(
        pre: AppState,
        answer: ExperimentAnswer,
        now: Timestamp,
        post: AppState,
        r: Result<bool, AppError>,
    ) -> bool {
        match pre {
            AppState::Experiment(p) => post matches AppState::Experiment(q)
                && ExperimentState::answered(p, answer, now, q, r),
            _ => post == pre && r == Err::<bool, AppError>(AppError::WrongMode),
        }
    }

    /// `answered` at some instant after the epoch.
    pub open spec fn answered_now(
        pre: AppState,
        answer: ExperimentAnswer,
        post: AppState,
        r: Result<bool, AppError>,
    ) -> bool {
        exists|now: Timestamp| now.wf() && #[trigger] Self::answered(pre, answer, now, post, r)
    }

    /// Records `answer`, given at `now`; returns whether every prompt has
    /// been answered. Fails with `WrongMode` outside an experiment or on an
    /// answer of the other kind.
    pub fn answer_experiment_at(&mut self, answer: ExperimentAnswer, now: Timestamp) -> (r: Result<
        bool,
        AppError,
    >)
        requires
            old(self).wf(),
            now.wf(),
        ensures
            Self::answered(*old(self), answer, now, *final(self), r),
            final(self).wf(),
    {
        match self {
            AppState::Experiment(s) => s.answer_at(answer, now),
            _ => Err(AppError::WrongMode),
        }
    }

    /// Records `answer`, given now; returns whether every prompt has been
    /// answered. Fails with `WrongMode` outside an experiment or on an answer
    /// of the other kind.
    pub fn answer_experiment(&mut self, answer: ExperimentAnswer) -> (r: Result<bool, AppError>)
        requires
            old(self).wf(),
        ensures
            Self::answered_now(*old(self), answer, *final(self), r),
            final(self).wf(),
    {
        let ghost pre = *self;
        let now = Timestamp::now();
        let r = self.answer_experiment_at(answer, now);
        assert(Self::answered(pre, answer, now, *self, r));
        r
    }

    /// The view of `s` that the remote display may see: nothing while idle,
    /// during the blank view, or once every prompt is answered; the live
    /// values in live view; else the kind of prompt and the values of the
    /// preset on show. Outcomes, notes and the observer never show.
    pub open spec fn projected(s: AppState) -> UnityState {
        match s {
            AppState::Idle => UnityState::Idle,
            AppState::LiveView(parameters) => UnityState::Live { parameters },
            AppState::Experiment(e) => if e.spec_shared().is_idle || e.done() {
                UnityState::Idle
            } else {
                UnityState::Experiment {
                    prompt: ExperimentPrompt {
                        experiment_type: match e {
                            ExperimentState::Choice(_) => UnityExperimentType::Choice,
                            ExperimentState::Rating(_) => UnityExperimentType::Rating,
                        },
                        parameters: e.current_preset().parameters,
                    },
                }
            },
        }
    }

    /// The view of the session that the remote display may see.
    pub fn project(&self) -> (r: UnityState)
        requires
            self.wf(),
        ensures
            r == Self::projected(*self),
    {
        match self {
            AppState::Idle => UnityState::Idle,
            AppState::LiveView(parameters) => UnityState::Live { parameters: *parameters },
            AppState::Experiment(e) => {
                if e.is_idle() || e.is_done() {
                    UnityState::Idle
                } else {
                    let experiment_type = match e {
                        ExperimentState::Choice(_) => UnityExperimentType::Choice,
                        ExperimentState::Rating(_) => UnityExperimentType::Rating,
                    };
                    UnityState::Experiment {
                        prompt: ExperimentPrompt {
                            experiment_type,
                            parameters: e.get_current_preset().parameters,
                        },
                    }
                }
            },
        }
    }
}

} // verus!
