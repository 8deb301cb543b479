//! What holds of every run of the session state machine.
use vstd::prelude::*;

use crate::app_state::AppState;
use crate::error::AppError;
use crate::experiment::CurrentPreset;
use crate::experiment_result::Timestamp;
use crate::experiment_state::ExperimentState;
use crate::remote::{ExperimentAnswer, UnityState};

verus! {

/// `states[i + 1]` and `results[i]` are what answering `answers[i]` at
/// `times[i]` makes of `states[i]`, for each `i`.
pub open spec fn answer_run(
    states: Seq<ExperimentState>,
    answers: Seq<ExperimentAnswer>,
    times: Seq<Timestamp>,
    results: Seq<Result<bool, AppError>>,
) -> bool {
    &&& states.len() == answers.len() + 1
    &&& times.len() == answers.len()
    &&& results.len() == answers.len()
    &&& forall|i: int|
        0 <= i < answers.len() ==> #[trigger] ExperimentState::answered(
            states[i],
            answers[i],
            times[i],
            states[i + 1],
            results[i],
        )
}

proof fn lemma_answer_run_prefix(
    states: Seq<ExperimentState>,
    answers: Seq<ExperimentAnswer>,
    times: Seq<Timestamp>,
    results: Seq<Result<bool, AppError>>,
    k: int,
)
    requires
        answer_run(states, answers, times, results),
        states[0].spec_shared().current_index == 0,
        answers.len() <= states[0].prompt_count(),
        forall|i: int| 0 <= i < results.len() ==> results[i] is Ok,
        0 <= k <= answers.len(),
    ensures
        states[k].spec_shared().current_index == k,
        states[k].prompt_count() == states[0].prompt_count(),
        k > 0 ==> results[k - 1] == Ok::<bool, AppError>(k == states[0].prompt_count()),
    decreases k,
{
    if k > 0 {
        lemma_answer_run_prefix(states, answers, times, results, k - 1);
        let i = k - 1;
        assert(ExperimentState::answered(states[i], answers[i], times[i], states[i + 1], results[i]));
        assert(results[i] is Ok);
    }
}

/// From the start of an experiment, after `n` successful answers, no more
/// than it has prompts, `n` prompts are answered; each answer reports the
/// experiment done exactly when it answers the last prompt, and the
/// experiment is done exactly when `n` is the number of prompts.
pub proof fn lemma_answers_count_prompts(
    states: Seq<ExperimentState>,
    answers: Seq<ExperimentAnswer>,
    times: Seq<Timestamp>,
    results: Seq<Result<bool, AppError>>,
)
    requires
        answer_run(states, answers, times, results),
        states[0].spec_shared().current_index == 0,
        answers.len() <= states[0].prompt_count(),
        forall|i: int| 0 <= i < results.len() ==> results[i] is Ok,
    ensures
        forall|i: int|
            0 <= i <= answers.len() ==> (#[trigger] states[i]).spec_shared().current_index == i,
        forall|i: int|
            0 <= i < answers.len() ==> #[trigger] results[i] == Ok::<bool, AppError>(i + 1
                == states[0].prompt_count()),
        states[answers.len() as int].done() <==> answers.len() == states[0].prompt_count(),
{
    assert forall|i: int| 0 <= i <= answers.len() implies (
    #[trigger] states[i]).spec_shared().current_index == i by {
        lemma_answer_run_prefix(states, answers, times, results, i);
    }
    assert forall|i: int| 0 <= i < answers.len() implies #[trigger] results[i] == Ok::<
        bool,
        AppError,
    >(i + 1 == states[0].prompt_count()) by {
        lemma_answer_run_prefix(states, answers, times, results, i + 1);
    }
    lemma_answer_run_prefix(states, answers, times, results, answers.len() as int);
    let n = answers.len() as int;
    match states[n] {
        ExperimentState::Rating(_) => {},
        ExperimentState::Choice(_) => {},
    }
}

/// Once every prompt is answered, a further answer of the experiment's kind
/// changes nothing, records no outcome and reports the experiment done.
pub proof fn lemma_answer_when_done_is_idempotent(
    pre: ExperimentState,
    answer: ExperimentAnswer,
    now: Timestamp,
    post: ExperimentState,
    r: Result<bool, AppError>,
)
    requires
        ExperimentState::answered(pre, answer, now, post, r),
        pre.done(),
        pre.accepts(answer),
    ensures
        post == pre,
        post.outcome_count() == pre.outcome_count(),
        r == Ok::<bool, AppError>(true),
{
}

/// A swap in a rating experiment is refused with `WrongMode` and changes
/// nothing.
pub proof fn lemma_swap_refused_in_rating(pre: AppState, post: AppState, r: Result<(), AppError>)
    requires
        pre matches AppState::Experiment(ExperimentState::Rating(_)),
        AppState::swapped(pre, post, r),
    ensures
        r == Err::<(), AppError>(AppError::WrongMode),
        post == pre,
{
}

/// The preset on show in a choice experiment.
pub open spec fn side(s: AppState) -> CurrentPreset {
    match s {
        AppState::Experiment(ExperimentState::Choice(q)) => q.current_preset,
        _ => CurrentPreset::A,
    }
}

/// `states[i + 1]` and `results[i]` are what a swap makes of `states[i]`,
/// for each `i`.
pub open spec fn swap_run(states: Seq<AppState>, results: Seq<Result<(), AppError>>) -> bool {
    &&& states.len() == results.len() + 1
    &&& forall|i: int|
        0 <= i < results.len() ==> #[trigger] AppState::swapped(states[i], states[i + 1], results[i])
}

proof fn lemma_swap_run_prefix(states: Seq<AppState>, results: Seq<Result<(), AppError>>, k: int)
    requires
        swap_run(states, results),
        states[0] matches AppState::Experiment(ExperimentState::Choice(_)),
        0 <= k <= results.len(),
    ensures
        states[k] matches AppState::Experiment(ExperimentState::Choice(_)),
        side(states[k]) == if k % 2 == 0 {
            side(states[0])
        } else {
            side(states[0]).flipped()
        },
        k > 0 ==> results[k - 1] is Ok,
    decreases k,
{
    if k > 0 {
        lemma_swap_run_prefix(states, results, k - 1);
        let i = k - 1;
        assert(AppState::swapped(states[i], states[i + 1], results[i]));
    }
}

/// In a choice experiment every swap succeeds and the preset on show
/// alternates: after `i` swaps it is the one shown first exactly when `i` is
/// even.
pub proof fn lemma_swaps_alternate(states: Seq<AppState>, results: Seq<Result<(), AppError>>)
    requires
        swap_run(states, results),
        states[0] matches AppState::Experiment(ExperimentState::Choice(_)),
    ensures
        forall|i: int| 0 <= i < results.len() ==> (#[trigger] results[i]) is Ok,
        forall|i: int|
            0 <= i <= results.len() ==> #[trigger] side(states[i]) == if i % 2 == 0 {
                side(states[0])
            } else {
                side(states[0]).flipped()
            },
        forall|i: int| 0 <= i < results.len() ==> side(#[trigger] states[i + 1]) != side(states[i]),
{
    assert forall|i: int| 0 <= i < results.len() implies (#[trigger] results[i]) is Ok by {
        lemma_swap_run_prefix(states, results, i + 1);
    }
    assert forall|i: int| 0 <= i <= results.len() implies #[trigger] side(states[i]) == if i % 2
        == 0 {
        side(states[0])
    } else {
        side(states[0]).flipped()
    } by {
        lemma_swap_run_prefix(states, results, i);
    }
    assert forall|i: int| 0 <= i < results.len() implies side(#[trigger] states[i + 1]) != side(
        states[i],
    ) by {
        lemma_swap_run_prefix(states, results, i);
        lemma_swap_run_prefix(states, results, i + 1);
    }
}

/// The view of a state depends on the state alone: two projections of one
/// state are the same view.
pub proof fn lemma_projection_deterministic(s: AppState, v: UnityState, w: UnityState)
    requires
        v == AppState::projected(s),
        w == AppState::projected(s),
    ensures
        v == w,
{
}

/// A running experiment in its blank view projects to the idle view.
pub proof fn lemma_blank_view_projects_idle(s: AppState)
    requires
        s matches AppState::Experiment(e) && e.spec_shared().is_idle,
    ensures
        AppState::projected(s) == UnityState::Idle,
{
}

} // verus!
