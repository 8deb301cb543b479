use neuroviz::experiment::{Choice, ChoiceExperiment, CurrentPreset, RatingExperiment, SharedExperiment};
use neuroviz::experiment_result::{
    ChoiceExperimentResult, RatingExperimentResult, SharedExperimentResult, Timestamp,
};
use neuroviz::experiment_state::ExperimentState;
use neuroviz::parameters::ParameterValues;
use neuroviz::preset::{Preset, PresetMap};
use neuroviz::remote::ExperimentAnswer;

fn test_parameters() -> ParameterValues {
    ParameterValues {
        transparency: 0.5f32.to_bits(),
        outline: 0.7f32.to_bits(),
        smoothness: 0.8f32.to_bits(),
        light_intensity: 0.3f32.to_bits(),
        light_temperature: 0f32.to_bits(),
    }
}

fn test_presets() -> PresetMap {
    let parameters = test_parameters();
    let mut presets = PresetMap::new();
    presets.insert(
        "preset1".to_string(),
        Preset {
            name: "Preset 1".to_string(),
            parameters,
        },
    );
    presets.insert(
        "preset2".to_string(),
        Preset {
            name: "Preset 2".to_string(),
            parameters,
        },
    );
    presets
}

fn create_test_rating_experiment() -> (RatingExperiment, RatingExperimentResult) {
    let presets = test_presets();
    let experiment = RatingExperiment {
        shared: SharedExperiment {
            name: "Test Experiment".to_string(),
            presets: presets.clone(),
        },
        order: vec!["preset1".to_string(), "preset2".to_string()],
    };
    let result = RatingExperimentResult {
        shared: SharedExperimentResult {
            name: "Test Result".to_string(),
            time: Timestamp::now(),
            observer_id: 1,
            note: "Test note".to_string(),
            presets,
        },
        ratings: vec![],
    };
    (experiment, result)
}

fn create_test_choice_experiment() -> (ChoiceExperiment, ChoiceExperimentResult) {
    let presets = test_presets();
    let choices = vec![Choice {
        a: "preset1".to_string(),
        b: "preset2".to_string(),
    }];
    let experiment = ChoiceExperiment {
        shared: SharedExperiment {
            name: "Test Experiment".to_string(),
            presets: presets.clone(),
        },
        choices,
    };
    let result = ChoiceExperimentResult {
        shared: SharedExperimentResult {
            name: "Test Result".to_string(),
            time: Timestamp::now(),
            observer_id: 1,
            note: "Test note".to_string(),
            presets,
        },
        choices: vec![],
    };
    (experiment, result)
}

#[test]
fn test_new_rating() {
    let (experiment, result) = create_test_rating_experiment();
    let expected_order = experiment.order.clone();
    let state =
        ExperimentState::new_rating("exp1".to_string(), "res1".to_string(), experiment, result);

    match state {
        ExperimentState::Rating(rating_state) => {
            assert_eq!(rating_state.shared.experiment_key, "exp1");
            assert_eq!(rating_state.shared.result_key, "res1");
            assert_eq!(rating_state.shared.current_index, 0);
            assert_eq!(rating_state.experiment.order, expected_order);
            assert_eq!(rating_state.result.ratings.len(), 0);
        }
        _ => panic!("Expected Rating experiment state"),
    }
}

#[test]
fn test_new_choice() {
    let (experiment, result) = create_test_choice_experiment();
    let expected_len = experiment.choices.len();
    let state =
        ExperimentState::new_choice("exp1".to_string(), "res1".to_string(), experiment, result);

    match state {
        ExperimentState::Choice(choice_state) => {
            assert_eq!(choice_state.shared.experiment_key, "exp1");
            assert_eq!(choice_state.shared.result_key, "res1");
            assert_eq!(choice_state.shared.current_index, 0);
            assert_eq!(choice_state.experiment.choices.len(), expected_len);
            assert_eq!(choice_state.result.choices.len(), 0);
            assert_eq!(choice_state.current_preset, CurrentPreset::A);
        }
        _ => panic!("Expected Choice experiment state"),
    }
}

#[test]
fn experiment_state_test_get_current_preset_key() {
    let (experiment, result) = create_test_rating_experiment();
    let state =
        ExperimentState::new_rating("exp1".to_string(), "res1".to_string(), experiment, result);

    assert_eq!(state.get_current_preset_key(), "preset1");
}

#[test]
fn experiment_state_test_get_current_preset() {
    let (experiment, result) = create_test_rating_experiment();
    let state =
        ExperimentState::new_rating("exp1".to_string(), "res1".to_string(), experiment, result);

    let preset = state.get_current_preset();
    assert_eq!(preset.name, "Preset 1");
}

#[test]
fn test_answer_rating() {
    let (experiment, result) = create_test_rating_experiment();
    let mut state =
        ExperimentState::new_rating("exp1".to_string(), "res1".to_string(), experiment, result);

    let is_done = state.answer(ExperimentAnswer::Rating { value: 4 }).unwrap();

    assert!(!is_done);

    match &state {
        ExperimentState::Rating(rating_state) => {
            assert_eq!(rating_state.shared.current_index, 1);
            assert_eq!(rating_state.result.ratings.len(), 1);
            assert_eq!(rating_state.result.ratings[0].preset, "preset1");
            assert_eq!(rating_state.result.ratings[0].rank, 4);
        }
        _ => panic!("Expected Rating experiment state"),
    }
}
