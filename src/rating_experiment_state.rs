//! A running rating experiment: presets shown one by one, each rated 1 to 5.
use vstd::prelude::*;

use crate::experiment::RatingExperiment;
use crate::experiment_result::{OutcomeRating, RatingExperimentResult, Timestamp};
use crate::experiment_state::{advanced, SharedExperimentState};
use crate::preset::Preset;

verus! {

#[derive(Debug)]
pub struct RatingExperimentState {
    pub shared: SharedExperimentState,
    pub experiment: RatingExperiment,
    pub result: RatingExperimentResult,
}

impl RatingExperimentState {
    /// The experiment is valid, one outcome stands for each prompt answered,
    /// and every recorded instant lies after the epoch.
    pub open spec fn wf(&self) -> bool {
        &&& self.experiment.wf()
        &&& self.shared.current_index <= self.experiment.order@.len()
        &&& self.result.ratings@.len() == self.shared.current_index
        &&& self.result.shared.time.wf()
        &&& forall|i: int|
            0 <= i < self.result.ratings@.len() ==> (#[trigger] self.result.ratings@[i]).time.wf()
    }

    pub open spec fn prompt_count(&self) -> nat {
        self.experiment.order@.len()
    }

    pub open spec fn done(&self) -> bool {
        self.shared.current_index == self.experiment.order@.len()
    }

    pub open spec fn current_key(&self) -> Seq<char> {
        self.experiment.order@[self.shared.current_index as int]@
    }

    /// When the previous prompt was answered, or the experiment started.
    pub open spec fn last_time(&self) -> Timestamp {
        if self.shared.current_index == 0 {
            self.result.shared.time
        } else {
            self.result.ratings@[self.shared.current_index - 1].time
        }
    }

    /// The outcome that rating the current preset `value` at `now` records.
    pub open spec fn next_outcome(&self, value: u8, now: Timestamp) -> OutcomeRating {
        OutcomeRating {
            preset: self.experiment.order@[self.shared.current_index as int],
            rank: value,
            time: now,
            duration: (now.micros - self.last_time().micros) as i64,
        }
    }

    /// `post` and `done` are what answering `value` at `now` makes of `pre`:
    /// once every prompt is answered nothing changes; before, the outcome is
    /// appended and the index moves on.
    pub open spec fn answered(
        pre: RatingExperimentState,
        value: u8,
        now: Timestamp,
        post: RatingExperimentState,
        done: bool,
    ) -> bool {
        if pre.done() {
            post == pre && done
        } else {
            &&& post.experiment == pre.experiment
            &&& post.result.shared == pre.result.shared
            &&& post.result.ratings@ == pre.result.ratings@.push(pre.next_outcome(value, now))
            &&& advanced(pre.shared, post.shared)
            &&& done == post.done()
        }
    }

    /// `answered` at some instant after the epoch.
    pub open spec fn answered_now(
        pre: RatingExperimentState,
        value: u8,
        post: RatingExperimentState,
        done: bool,
    ) -> bool {
        exists|now: Timestamp| now.wf() && #[trigger] Self::answered(pre, value, now, post, done)
    }

    pub fn get_current_preset_key(&self) -> (r: String)
        requires
            self.shared.current_index < self.experiment.order@.len(),
        ensures
            r@ == self.current_key(),
    {
        self.experiment.order[self.shared.current_index as usize].clone()
    }

    pub fn get_current_preset(&self) -> (r: Preset)
        requires
            self.experiment.wf(),
            self.shared.current_index < self.experiment.order@.len(),
        ensures
            r == self.experiment.shared.presets@[self.current_key()],
    {
        let key = self.get_current_preset_key();
        self.experiment.shared.presets.get(&key).unwrap().clone()
    }


    pub fn is_done(&self) -> (r: bool)
        ensures
            r == self.done(),
    {
        self.experiment.order.len() == self.shared.current_index as usize
    }

    /// Records `value` for the current preset, answered at `now`; returns
    /// whether every prompt has been answered.
    pub fn answer_at(&mut self, value: u8, now: Timestamp) -> (done: bool)
        requires
            old(self).wf(),
            now.wf(),
        ensures
            Self::answered(*old(self), value, now, *final(self), done),
            final(self).wf(),
    {
        if self.is_done() {
            return true;
        }
        let index = self.shared.current_index as usize;
        let last = if index == 0 {
            self.result.shared.time
        } else {
            self.result.ratings[index - 1].time
        };
        let outcome = OutcomeRating {
            preset: self.experiment.order[index].clone(),
            rank: value,
            time: now,
            duration: now.micros - last.micros,
        };
        self.result.ratings.push(outcome);
        self.shared.current_index = self.shared.current_index + 1;
        self.is_done()
    }

    /// Records `value` for the current preset, answered now; returns whether
    /// every prompt has been answered.
    pub fn answer(&mut self, value: u8) -> (r: Result<bool, crate::error::AppError>)
        requires
            old(self).wf(),
        ensures
            final(self).wf(),
            r is Ok,
            r matches Ok(done) ==> Self::answered_now(*old(self), value, *final(self), done),
    {
        let ghost pre = *self;
        let now = Timestamp::now();
        let done = self.answer_at(value, now);
        assert(Self::answered(pre, value, now, *self, done));
        assert(Self::answered_now(pre, value, *self, done));
        Ok(done)
    }
}

} // verus!
