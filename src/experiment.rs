//! Experiment definitions: a preset table and the prompts to show, either
//! presets to rate one by one or pairs of presets to choose from.
use vstd::prelude::*;

use crate::error::AppError;
use crate::preset::{Preset, PresetMap};
use crate::trusted::{slug_of, slugify};

verus! {

/// One prompt of a choice experiment: the keys of the two presets to compare.
#[derive(Debug, PartialEq, Eq)]
pub struct Choice {
    pub a: String,
    pub b: String,
}

impl Clone for Choice {
    fn clone(&self) -> (r: Self)
        ensures
            r == *self,
    {
        Choice { a: self.a.clone(), b: self.b.clone() }
    }
}

/// Which preset of a choice is shown.
#[derive(Clone, Copy, Debug, PartialEq, Eq, Structural)]
pub enum CurrentPreset {
    A,
    B,
}

impl CurrentPreset {
    pub open spec fn flipped(self) -> CurrentPreset {
        match self {
            CurrentPreset::A => CurrentPreset::B,
            CurrentPreset::B => CurrentPreset::A,
        }
    }
}

/// What an operator asks for when creating an experiment.
#[derive(Debug)]
pub enum CreateExperimentType {
    /// Rating between 1 and 5, one preset after another.
    Rating { order: Vec<String> },
    /// Choose between two presets, one pair after another.
    Choice { choices: Vec<Choice> },
}

#[derive(Debug)]
pub struct CreateExperiment {
    pub experiment_type: CreateExperimentType,
    pub name: String,
    /// The names of the presets to take in; each is stored under its slug.
    pub presets: Vec<String>,
}

#[derive(Debug, Clone)]
pub struct SharedExperiment {
    pub name: String,
    pub presets: PresetMap,
}

#[derive(Debug)]
pub struct ChoiceExperiment {
    pub shared: SharedExperiment,
    pub choices: Vec<Choice>,
}

#[derive(Debug)]
pub struct RatingExperiment {
    pub shared: SharedExperiment,
    pub order: Vec<String>,
}

#[derive(Debug)]
pub enum Experiment {
    Rating(RatingExperiment),
    Choice(ChoiceExperiment),
}

impl ChoiceExperiment {
    pub fn new(name: String, presets: PresetMap, choices: Vec<Choice>) -> (r: Self)
        ensures
            r.shared.name == name,
            r.shared.presets@ == presets@,
            r.choices@ == choices@,
    {
        ChoiceExperiment { shared: SharedExperiment { name, presets }, choices }
    }

    /// Every prompt names presets of the table, and the prompts can be
    /// counted in a `u32`.
    pub open spec fn wf(&self) -> bool {
        &&& self.choices@.len() <= u32::MAX
        &&& forall|i: int|
            0 <= i < self.choices@.len() ==> self.shared.presets@.contains_key(
                #[trigger] self.choices@[i].a@,
            )
        &&& forall|i: int|
            0 <= i < self.choices@.len() ==> self.shared.presets@.contains_key(
                #[trigger] self.choices@[i].b@,
            )
    }

    pub fn is_valid(&self) -> (r: bool)
        ensures
            r == self.wf(),
    {
        if self.choices.len() > u32::MAX as usize {
            return false;
        }
        let mut i: usize = 0;
        while i < self.choices.len()
            invariant
                i <= self.choices@.len(),
                forall|j: int|
                    0 <= j < i ==> self.shared.presets@.contains_key(#[trigger] self.choices@[j].a@),
                forall|j: int|
                    0 <= j < i ==> self.shared.presets@.contains_key(#[trigger] self.choices@[j].b@),
            decreases self.choices@.len() - i,
        {
            let choice = &self.choices[i];
            assert(self.choices@[i as int] == *choice);
            if !self.shared.presets.contains_key(&choice.a) || !self.shared.presets.contains_key(
                &choice.b,
            ) {
                return false;
            }
            i = i + 1;
        }
        true
    }
}

impl RatingExperiment {
    pub fn new(name: String, presets: PresetMap, order: Vec<String>) -> (r: Self)
        ensures
            r.shared.name == name,
            r.shared.presets@ == presets@,
            r.order@ == order@,
    {
        RatingExperiment { shared: SharedExperiment { name, presets }, order }
    }

    /// Every prompt names a preset of the table, and the prompts can be
    /// counted in a `u32`.
    pub open spec fn wf(&self) -> bool {
        &&& self.order@.len() <= u32::MAX
        &&& forall|i: int|
            0 <= i < self.order@.len() ==> self.shared.presets@.contains_key(
                #[trigger] self.order@[i]@,
            )
    }

    pub fn is_valid(&self) -> (r: bool)
        ensures
            r == self.wf(),
    {
        if self.order.len() > u32::MAX as usize {
            return false;
        }
        let mut i: usize = 0;
        while i < self.order.len()
            invariant
                i <= self.order@.len(),
                forall|j: int|
                    0 <= j < i ==> self.shared.presets@.contains_key(#[trigger] self.order@[j]@),
            decreases self.order@.len() - i,
        {
            if !self.shared.presets.contains_key(&self.order[i]) {
                return false;
            }
            i = i + 1;
        }
        true
    }
}

impl Experiment {
    pub open spec fn wf(&self) -> bool {
        match self {
            Experiment::Rating(e) => e.wf(),
            Experiment::Choice(e) => e.wf(),
        }
    }

    /// The number of prompts the experiment shows.
    pub open spec fn prompt_count(&self) -> nat {
        match self {
            Experiment::Rating(e) => e.order@.len(),
            Experiment::Choice(e) => e.choices@.len(),
        }
    }

    pub fn is_valid(&self) -> (r: bool)
        ensures
            r == self.wf(),
    {
        match self {
            Experiment::Rating(e) => e.is_valid(),
            Experiment::Choice(e) => e.is_valid(),
        }
    }
}

/// The table that storing `loaded[i]` under `keys[i]`, one after another,
/// makes: a later key replaces an earlier equal one.
pub open spec fn table_of(keys: Seq<Seq<char>>, loaded: Seq<Preset>) -> Map<Seq<char>, Preset>
    recommends
        keys.len() == loaded.len(),
    decreases keys.len(),
{
    if keys.len() == 0 || loaded.len() == 0 {
        Map::empty()
    } else {
        table_of(keys.drop_last(), loaded.drop_last()).insert(keys.last(), loaded.last())
    }
}

/// The slug of each name.
pub open spec fn slugs(names: Seq<String>) -> Seq<Seq<char>> {
    names.map_values(|n: String| slug_of(n@))
}

impl CreateExperimentType {
    /// Every prompt names a preset of `table`, and the prompts can be counted
    /// in a `u32`.
    pub open spec fn fits(&self, table: Map<Seq<char>, Preset>) -> bool {
        match self {
            CreateExperimentType::Rating { order } => {
                &&& order@.len() <= u32::MAX
                &&& forall|i: int| 0 <= i < order@.len() ==> table.contains_key(#[trigger] order@[i]@)
            },
            CreateExperimentType::Choice { choices } => {
                &&& choices@.len() <= u32::MAX
                &&& forall|i: int| 0 <= i < choices@.len() ==> table.contains_key(#[trigger] choices@[i].a@)
                &&& forall|i: int| 0 <= i < choices@.len() ==> table.contains_key(#[trigger] choices@[i].b@)
            },
        }
    }
}

/// `e` is the experiment that `init` asks for, over the preset table `table`.
pub open spec fn created(init: CreateExperiment, table: Map<Seq<char>, Preset>, e: Experiment) -> bool {
    match (init.experiment_type, e) {
        (CreateExperimentType::Rating { order }, Experiment::Rating(r)) => {
            &&& r.shared.name == init.name
            &&& r.shared.presets@ == table
            &&& r.order@ == order@
        },
        (CreateExperimentType::Choice { choices }, Experiment::Choice(c)) => {
            &&& c.shared.name == init.name
            &&& c.shared.presets@ == table
            &&& c.choices@ == choices@
        },
        _ => false,
    }
}

impl CreateExperiment {
    /// The key the experiment is stored under: the slug of its name.
    pub fn key(&self) -> (r: String)
        ensures
            r@ == slug_of(self.name@),
    {
        slugify(&self.name)
    }

    /// The keys of the presets to load, in the order of `presets`.
    pub fn preset_keys(&self) -> (r: Vec<String>)
        ensures
            r@.len() == self.presets@.len(),
            forall|i: int| 0 <= i < r@.len() ==> #[trigger] r@[i]@ == slugs(self.presets@)[i],
    {
        let mut keys: Vec<String> = Vec::new();
        let mut i: usize = 0;
        while i < self.presets.len()
            invariant
                i <= self.presets@.len(),
                keys@.len() == i,
                forall|j: int| 0 <= j < i ==> #[trigger] keys@[j]@ == slugs(self.presets@)[j],
            decreases self.presets@.len() - i,
        {
            keys.push(slugify(&self.presets[i]));
            i = i + 1;
        }
        keys
    }

    /// Builds the experiment from the presets loaded for `preset_keys`,
    /// `loaded[i]` for the `i`-th key. Fails with `NotFound` where a prompt
    /// names a preset that is not among them.
    pub fn into_experiment(self, loaded: Vec<Preset>) -> (r: Result<Experiment, AppError>)
        requires
            loaded@.len() == self.presets@.len(),
        ensures
            r is Ok <==> self.experiment_type.fits(table_of(slugs(self.presets@), loaded@)),
            r matches Ok(e) ==> e.wf() && created(self, table_of(slugs(self.presets@), loaded@), e),
            r matches Err(err) ==> err == AppError::NotFound,
    {
        let keys = self.preset_keys();
        let mut presets = PresetMap::new();
        let mut loaded = loaded;
        let mut i: usize = 0;
        let ghost all_keys = slugs(self.presets@);
        let ghost all_loaded = loaded@;
        while i < keys.len()
            invariant
                keys@.len() == all_keys.len(),
                all_loaded.len() == all_keys.len(),
                forall|j: int| 0 <= j < keys@.len() ==> #[trigger] keys@[j]@ == all_keys[j],
                i <= keys@.len(),
                loaded@ == all_loaded,
                presets@ == table_of(all_keys.subrange(0, i as int), all_loaded.subrange(0, i as int)),
            decreases keys@.len() - i,
        {
            presets.insert(keys[i].clone(), loaded[i].clone());
            proof {
                let ks = all_keys.subrange(0, i + 1);
                let ls = all_loaded.subrange(0, i + 1);
                assert(ks.drop_last() =~= all_keys.subrange(0, i as int));
                assert(ls.drop_last() =~= all_loaded.subrange(0, i as int));
            }
            i = i + 1;
        }
        proof {
            assert(all_keys.subrange(0, i as int) =~= all_keys);
            assert(all_loaded.subrange(0, i as int) =~= all_loaded);
        }
        let ghost table = presets@;
        let ghost init = self;
        let CreateExperiment { experiment_type, name, presets: _ } = self;
        let experiment = match experiment_type {
            CreateExperimentType::Rating { order } => {
                let e = RatingExperiment::new(name, presets, order);
                assert(e.wf() == init.experiment_type.fits(table));
                Experiment::Rating(e)
            },
            CreateExperimentType::Choice { choices } => {
                let e = ChoiceExperiment::new(name, presets, choices);
                assert(e.wf() == init.experiment_type.fits(table));
                Experiment::Choice(e)
            },
        };
        if experiment.is_valid() {
            Ok(experiment)
        } else {
            Err(AppError::NotFound)
        }
    }
}

} // verus!
