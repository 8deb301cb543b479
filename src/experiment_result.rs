//! Result logs: what an observer answered, prompt by prompt.
use vstd::prelude::*;

use crate::experiment::{ChoiceExperiment, RatingExperiment};
use crate::preset::PresetMap;
use crate::trusted::now_micros;

verus! {

/// An instant, as microseconds since the Unix epoch.
#[derive(Clone, Copy, Debug, PartialEq, Eq, Structural)]
pub struct Timestamp {
    pub micros: i64,
}

impl Timestamp {
    /// The instant lies at or after the epoch.
    pub open spec fn wf(self) -> bool {
        self.micros >= 0
    }

    /// The current instant, from the system clock.
    pub fn now() -> (r: Timestamp)
        ensures
            r.wf(),
    {
        Timestamp { micros: now_micros() }
    }
}

/// One answer of a choice experiment. `duration` is the microseconds since
/// the previous answer, or since the start for the first.
#[derive(Debug, PartialEq, Eq)]
pub struct OutcomeChoice {
    pub a: String,
    pub b: String,
    pub selected: String,
    pub time: Timestamp,
    pub duration: i64,
}

/// One answer of a rating experiment. `duration` is the microseconds since
/// the previous answer, or since the start for the first.
#[derive(Debug, PartialEq, Eq)]
pub struct OutcomeRating {
    pub preset: String,
    pub rank: u8,
    pub time: Timestamp,
    pub duration: i64,
}

#[derive(Debug, Clone)]
pub struct SharedExperimentResult {
    pub name: String,
    pub time: Timestamp,
    pub observer_id: u32,
    pub note: String,
    pub presets: PresetMap,
}

#[derive(Debug)]
pub struct ChoiceExperimentResult {
    pub shared: SharedExperimentResult,
    pub choices: Vec<OutcomeChoice>,
}

#[derive(Debug)]
pub struct RatingExperimentResult {
    pub shared: SharedExperimentResult,
    pub ratings: Vec<OutcomeRating>,
}

#[derive(Debug)]
pub enum ExperimentResult {
    Rating(RatingExperimentResult),
    Choice(ChoiceExperimentResult),
}

/// The metadata of a fresh result log.
pub open spec fn fresh_shared(
    s: SharedExperimentResult,
    name: String,
    time: Timestamp,
    observer_id: u32,
    note: String,
    presets: PresetMap,
) -> bool {
    &&& s.name == name
    &&& s.time == time
    &&& s.observer_id == observer_id
    &&& s.note == note
    &&& s.presets@ == presets@
}

impl ChoiceExperimentResult {
    /// An empty log for `experiment`, with a copy of its presets.
    pub fn new(
        name: String,
        time: Timestamp,
        observer_id: u32,
        note: String,
        experiment: &ChoiceExperiment,
    ) -> (r: Self)
        ensures
            fresh_shared(r.shared, name, time, observer_id, note, experiment.shared.presets),
            r.choices@.len() == 0,
    {
        ChoiceExperimentResult {
            shared: SharedExperimentResult {
                name,
                time,
                observer_id,
                note,
                presets: experiment.shared.presets.clone(),
            },
            choices: Vec::new(),
        }
    }
}

impl RatingExperimentResult {
    /// An empty log for `experiment`, with a copy of its presets.
    pub fn new(
        name: String,
        time: Timestamp,
        observer_id: u32,
        note: String,
        experiment: &RatingExperiment,
    ) -> (r: Self)
        ensures
            fresh_shared(r.shared, name, time, observer_id, note, experiment.shared.presets),
            r.ratings@.len() == 0,
    {
        RatingExperimentResult {
            shared: SharedExperimentResult {
                name,
                time,
                observer_id,
                note,
                presets: experiment.shared.presets.clone(),
            },
            ratings: Vec::new(),
        }
    }
}

} // verus!
