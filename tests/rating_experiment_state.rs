use neuroviz::experiment::{RatingExperiment, SharedExperiment};
use neuroviz::experiment_result::{RatingExperimentResult, SharedExperimentResult, Timestamp};
use neuroviz::experiment_state::SharedExperimentState;
use neuroviz::parameters::ParameterValues;
use neuroviz::preset::{Preset, PresetMap};
use neuroviz::rating_experiment_state::RatingExperimentState;

fn create_test_state() -> RatingExperimentState {
    let parameters = ParameterValues {
        transparency: 0.5f32.to_bits(),
        outline: 0.7f32.to_bits(),
        smoothness: 0.8f32.to_bits(),
        light_intensity: 0.6f32.to_bits(),
        light_temperature: 0f32.to_bits(),
    };

    let mut presets = PresetMap::new();
    presets.insert(
        "preset1".to_string(),
        Preset {
            name: "Preset 1".to_string(),
            parameters,
        },
    );
    presets.insert(
        "preset2".to_string(),
        Preset {
            name: "Preset 2".to_string(),
            parameters,
        },
    );
    presets.insert(
        "preset3".to_string(),
        Preset {
            name: "Preset 3".to_string(),
            parameters,
        },
    );

    let experiment = RatingExperiment {
        shared: SharedExperiment {
            name: "Test Experiment".to_string(),
            presets,
        },
        order: vec![
            "preset1".to_string(),
            "preset2".to_string(),
            "preset3".to_string(),
        ],
    };

    let now = Timestamp::now();
    let result = RatingExperimentResult {
        shared: SharedExperimentResult {
            name: "Test Result".to_string(),
            time: now,
            observer_id: 1,
            note: "Test note".to_string(),
            presets: experiment.shared.presets.clone(),
        },
        ratings: vec![],
    };

    let shared = SharedExperimentState {
        experiment_key: "experiment1".to_string(),
        result_key: "result1".to_string(),
        current_index: 0,
        is_idle: false,
    };

    RatingExperimentState {
        shared,
        experiment,
        result,
    }
}

#[test]
fn rating_experiment_state_test_get_current_preset_key() {
    let mut state = create_test_state();

    assert_eq!(state.get_current_preset_key(), "preset1");

    state.shared.current_index = 1;
    assert_eq!(state.get_current_preset_key(), "preset2");

    state.shared.current_index = 2;
    assert_eq!(state.get_current_preset_key(), "preset3");
}

#[test]
fn rating_experiment_state_test_get_current_preset() {
    let mut state = create_test_state();

    let preset = state.get_current_preset();
    assert_eq!(preset.name, "Preset 1");

    state.shared.current_index = 1;
    let preset = state.get_current_preset();
    assert_eq!(preset.name, "Preset 2");
}

#[test]
fn rating_experiment_state_test_is_done() {
    let mut state = create_test_state();

    assert!(!state.is_done());

    state.shared.current_index = 1;
    assert!(!state.is_done());

    state.shared.current_index = 2;
    assert!(!state.is_done());

    state.shared.current_index = 3;
    assert!(state.is_done());
}

#[test]
fn rating_experiment_state_test_answer() {
    let mut state = create_test_state();

    let is_done = state.answer(4).unwrap();
    assert!(!is_done);
    assert_eq!(state.shared.current_index, 1);
    assert_eq!(state.result.ratings.len(), 1);
    assert_eq!(state.result.ratings[0].preset, "preset1");
    assert_eq!(state.result.ratings[0].rank, 4);

    let is_done = state.answer(3).unwrap();
    assert!(!is_done);
    assert_eq!(state.shared.current_index, 2);
    assert_eq!(state.result.ratings.len(), 2);
    assert_eq!(state.result.ratings[1].preset, "preset2");
    assert_eq!(state.result.ratings[1].rank, 3);

    let is_done = state.answer(5).unwrap();
    assert!(is_done);
    assert_eq!(state.shared.current_index, 3);
    assert_eq!(state.result.ratings.len(), 3);
    assert_eq!(state.result.ratings[2].preset, "preset3");
    assert_eq!(state.result.ratings[2].rank, 5);

    let is_done = state.answer(2).unwrap();
    assert!(is_done);
    assert_eq!(state.shared.current_index, 3);
    assert_eq!(state.result.ratings.len(), 3);
}
