use neuroviz::choice_experiment_state::ChoiceExperimentState;
use neuroviz::experiment::{Choice, ChoiceExperiment, CurrentPreset, SharedExperiment};
use neuroviz::experiment_result::{ChoiceExperimentResult, SharedExperimentResult, Timestamp};
use neuroviz::experiment_state::SharedExperimentState;
use neuroviz::parameters::ParameterValues;
use neuroviz::preset::{Preset, PresetMap};

fn create_test_state(
    current_index: u32,
    current_preset: CurrentPreset,
    choices: Vec<Choice>,
) -> ChoiceExperimentState {
    let mut presets = PresetMap::new();

    let preset_a = Preset {
        name: "Preset A".to_string(),
        parameters: ParameterValues {
            transparency: 0.5f32.to_bits(),
            outline: 0.7f32.to_bits(),
            smoothness: 0.2f32.to_bits(),
            light_intensity: 0.5f32.to_bits(),
            light_temperature: 0f32.to_bits(),
        },
    };

    let preset_b = Preset {
        name: "Preset B".to_string(),
        parameters: ParameterValues {
            transparency: 0.2f32.to_bits(),
            outline: 0.4f32.to_bits(),
            smoothness: 0.6f32.to_bits(),
            light_intensity: 0.8f32.to_bits(),
            light_temperature: 0f32.to_bits(),
        },
    };

    presets.insert("preset_a".to_string(), preset_a);
    presets.insert("preset_b".to_string(), preset_b);

    let experiment = ChoiceExperiment {
        shared: SharedExperiment {
            name: "Test Experiment".to_string(),
            presets,
        },
        choices,
    };

    let shared_result = SharedExperimentResult {
        name: "Test Result".to_string(),
        time: Timestamp::now(),
        observer_id: 1,
        note: "Test note".to_string(),
        presets: experiment.shared.presets.clone(),
    };

    let result = ChoiceExperimentResult {
        shared: shared_result,
        choices: Vec::new(),
    };

    ChoiceExperimentState {
        shared: SharedExperimentState {
            experiment_key: "test_experiment".to_string(),
            result_key: "test_result".to_string(),
            current_index,
            is_idle: false,
        },
        experiment,
        result,
        current_preset,
    }
}

fn two_choices() -> Vec<Choice> {
    vec![
        Choice {
            a: "preset_a".to_string(),
            b: "preset_b".to_string(),
        },
        Choice {
            a: "preset_b".to_string(),
            b: "preset_a".to_string(),
        },
    ]
}

#[test]
fn choice_experiment_state_test_get_current_preset_key() {
    let choices = two_choices();

    let state = create_test_state(0, CurrentPreset::A, choices.clone());
    assert_eq!(state.get_current_preset_key(), "preset_a");

    let state = create_test_state(0, CurrentPreset::B, choices.clone());
    assert_eq!(state.get_current_preset_key(), "preset_b");

    let state = create_test_state(1, CurrentPreset::A, choices.clone());
    assert_eq!(state.get_current_preset_key(), "preset_b");

    let state = create_test_state(1, CurrentPreset::B, choices);
    assert_eq!(state.get_current_preset_key(), "preset_a");
}

#[test]
fn choice_experiment_state_test_get_current_preset() {
    let choices = vec![Choice {
        a: "preset_a".to_string(),
        b: "preset_b".to_string(),
    }];

    let state = create_test_state(0, CurrentPreset::A, choices.clone());
    let preset = state.get_current_preset();
    assert_eq!(preset.name, "Preset A");
    assert_eq!(f32::from_bits(preset.parameters.transparency), 0.5);

    let state = create_test_state(0, CurrentPreset::B, choices);
    let preset = state.get_current_preset();
    assert_eq!(preset.name, "Preset B");
    assert_eq!(f32::from_bits(preset.parameters.transparency), 0.2);
}

#[test]
fn test_swap_current_preset() {
    let choices = vec![Choice {
        a: "preset_a".to_string(),
        b: "preset_b".to_string(),
    }];

    let mut state = create_test_state(0, CurrentPreset::A, choices.clone());
    state.swap_current_preset();
    assert!(matches!(state.current_preset, CurrentPreset::B));

    let mut state = create_test_state(0, CurrentPreset::B, choices);
    state.swap_current_preset();
    assert!(matches!(state.current_preset, CurrentPreset::A));
}

#[test]
fn choice_experiment_state_test_is_done() {
    let choices = two_choices();

    let state = create_test_state(0, CurrentPreset::A, choices.clone());
    assert!(!state.is_done());

    let state = create_test_state(1, CurrentPreset::A, choices.clone());
    assert!(!state.is_done());

    let state = create_test_state(2, CurrentPreset::A, choices);
    assert!(state.is_done());
}

#[test]
fn choice_experiment_state_test_answer() {
    let choices = two_choices();

    let mut state = create_test_state(0, CurrentPreset::A, choices.clone());
    let is_done = state.answer().unwrap();

    assert!(!is_done);
    assert_eq!(state.shared.current_index, 1);
    assert_eq!(state.result.choices.len(), 1);
    assert_eq!(state.result.choices[0].a, "preset_a");
    assert_eq!(state.result.choices[0].b, "preset_b");
    assert_eq!(state.result.choices[0].selected, "preset_a");

    let is_done = state.answer().unwrap();

    assert!(is_done);
    assert_eq!(state.shared.current_index, 2);
    assert_eq!(state.result.choices.len(), 2);
    assert_eq!(state.result.choices[1].a, "preset_b");
    assert_eq!(state.result.choices[1].b, "preset_a");
    assert_eq!(state.result.choices[1].selected, "preset_b");

    let is_done = state.answer().unwrap();
    assert!(is_done);
    assert_eq!(state.result.choices.len(), 2);
}
