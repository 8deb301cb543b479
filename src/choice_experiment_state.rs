//! A running choice experiment: pairs of presets, the observer switches
//! between the two and picks the one on show.
use vstd::prelude::*;

use crate::experiment::{ChoiceExperiment, CurrentPreset};
use crate::experiment_result::{ChoiceExperimentResult, OutcomeChoice, Timestamp};
use crate::experiment_state::{advanced, SharedExperimentState};
use crate::preset::Preset;

verus! {

#[derive(Debug)]
pub struct ChoiceExperimentState {
    pub shared: SharedExperimentState,
    pub experiment: ChoiceExperiment,
    pub result: ChoiceExperimentResult,
    pub current_preset: CurrentPreset,
}

impl ChoiceExperimentState {
    /// The experiment is valid, one outcome stands for each prompt answered,
    /// and every recorded instant lies after the epoch.
    pub open spec fn wf(&self) -> bool {
        &&& self.experiment.wf()
        &&& self.shared.current_index <= self.experiment.choices@.len()
        &&& self.result.choices@.len() == self.shared.current_index
        &&& self.result.shared.time.wf()
        &&& forall|i: int|
            0 <= i < self.result.choices@.len() ==> (#[trigger] self.result.choices@[i]).time.wf()
    }

    pub open spec fn prompt_count(&self) -> nat {
        self.experiment.choices@.len()
    }

    pub open spec fn done(&self) -> bool {
        self.shared.current_index == self.experiment.choices@.len()
    }

    /// The key of the preset on show.
    pub open spec fn current_key_string(&self) -> String {
        let choice = self.experiment.choices@[self.shared.current_index as int];
        match self.current_preset {
            CurrentPreset::A => choice.a,
            CurrentPreset::B => choice.b,
        }
    }

    pub open spec fn current_key(&self) -> Seq<char> {
        self.current_key_string()@
    }

    /// When the previous prompt was answered, or the experiment started.
    pub open spec fn last_time(&self) -> Timestamp {
        if self.shared.current_index == 0 {
            self.result.shared.time
        } else {
            self.result.choices@[self.shared.current_index - 1].time
        }
    }

    /// The outcome that picking the preset on show at `now` records.
    pub open spec fn next_outcome(&self, now: Timestamp) -> OutcomeChoice {
        let choice = self.experiment.choices@[self.shared.current_index as int];
        OutcomeChoice {
            a: choice.a,
            b: choice.b,
            selected: self.current_key_string(),
            time: now,
            duration: (now.micros - self.last_time().micros) as i64,
        }
    }

    /// `post` and `done` are what picking the preset on show at `now` makes
    /// of `pre`: once every prompt is answered nothing changes; before, the
    /// outcome is appended and the index moves on.
    pub open spec fn answered(
        pre: ChoiceExperimentState,
        now: Timestamp,
        post: ChoiceExperimentState,
        done: bool,
    ) -> bool {
        if pre.done() {
            post == pre && done
        } else {
            &&& post.experiment == pre.experiment
            &&& post.result.shared == pre.result.shared
            &&& post.result.choices@ == pre.result.choices@.push(pre.next_outcome(now))
            &&& post.current_preset == pre.current_preset
            &&& advanced(pre.shared, post.shared)
            &&& done == post.done()
        }
    }

    /// `answered` at some instant after the epoch.
    pub open spec fn answered_now(
        pre: ChoiceExperimentState,
        post: ChoiceExperimentState,
        done: bool,
    ) -> bool {
        exists|now: Timestamp| now.wf() && #[trigger] Self::answered(pre, now, post, done)
    }

    pub fn get_current_preset_key(&self) -> (r: String)
        requires
            self.shared.current_index < self.experiment.choices@.len(),
        ensures
            r == self.current_key_string(),
    {
        let choice = &self.experiment.choices[self.shared.current_index as usize];
        match self.current_preset {
            CurrentPreset::A => choice.a.clone(),
            CurrentPreset::B => choice.b.clone(),
        }
    }

    pub fn get_current_preset(&self) -> (r: Preset)
        requires
            self.experiment.wf(),
            self.shared.current_index < self.experiment.choices@.len(),
        ensures
            r == self.experiment.shared.presets@[self.current_key()],
    {
        let key = self.get_current_preset_key();
        self.experiment.shared.presets.get(&key).unwrap().clone()
    }


    /// Shows the other preset of the current pair.
    pub fn swap_current_preset(&mut self)
        ensures
            final(self).current_preset == old(self).current_preset.flipped(),
            final(self).shared == old(self).shared,
            final(self).experiment == old(self).experiment,
            final(self).result == old(self).result,
    {
        match self.current_preset {
            CurrentPreset::A => self.current_preset = CurrentPreset::B,
            CurrentPreset::B => self.current_preset = CurrentPreset::A,
        };
    }

    pub fn is_done(&self) -> (r: bool)
        ensures
            r == self.done(),
    {
        self.experiment.choices.len() == self.shared.current_index as usize
    }

    /// Records the preset on show as picked at `now`; returns whether every
    /// prompt has been answered.
    pub fn answer_at(&mut self, now: Timestamp) -> (done: bool)
        requires
            old(self).wf(),
            now.wf(),
        ensures
            Self::answered(*old(self), now, *final(self), done),
            final(self).wf(),
    {
        if self.is_done() {
            return true;
        }
        let selected = self.get_current_preset_key();
        let index = self.shared.current_index as usize;
        let choice = &self.experiment.choices[index];
        let last = if index == 0 {
            self.result.shared.time
        } else {
            self.result.choices[index - 1].time
        };
        let outcome = OutcomeChoice {
            a: choice.a.clone(),
            b: choice.b.clone(),
            selected,
            time: now,
            duration: now.micros - last.micros,
        };
        self.result.choices.push(outcome);
        self.shared.current_index = self.shared.current_index + 1;
        self.is_done()
    }

    /// Records the preset on show as picked now; returns whether every
    /// prompt has been answered.
    pub fn answer(&mut self) -> (r: Result<bool, crate::error::AppError>)
        requires
            old(self).wf(),
        ensures
            final(self).wf(),
            r is Ok,
            r matches Ok(done) ==> Self::answered_now(*old(self), *final(self), done),
    {
        let ghost pre = *self;
        let now = Timestamp::now();
        let done = self.answer_at(now);
        assert(Self::answered(pre, now, *self, done));
        Ok(done)
    }
}

} // verus!
