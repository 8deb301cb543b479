use neuroviz::error::AppError;
use neuroviz::parameters::ParameterValues;
use neuroviz::preset::{Preset, PresetMap};
use neuroviz::remote::is_authorized;
use neuroviz::storage::{file_name, json_key, Folder, TopLevelFolder};

#[test]
fn folder_paths() {
    assert_eq!(Folder::Presets.path(), "presets");
    assert_eq!(Folder::Experiments.path(), "experiments");
    assert_eq!(
        Folder::Results {
            experiment_key: "experiment-1".to_string()
        }
        .path(),
        "results/experiment-1"
    );
    assert_eq!(TopLevelFolder::Presets.path(), "presets");
    assert_eq!(TopLevelFolder::Experiments.path(), "experiments");
    assert_eq!(TopLevelFolder::Results.path(), "results");
    assert_eq!(file_name(&"preset-1".to_string()), "preset-1.json");
}

#[test]
fn shared_secret_check() {
    let secret = Some("secret".to_string());
    assert!(is_authorized(&secret, &Some("secret".to_string())));
    assert!(!is_authorized(&secret, &Some("other".to_string())));
    assert!(!is_authorized(&secret, &None));
    assert!(is_authorized(&None, &None));
    assert!(is_authorized(&None, &Some("anything".to_string())));
}

#[test]
fn preset_map_keeps_one_value_per_key() {
    let mut map = PresetMap::new();
    let first = Preset {
        name: "First".to_string(),
        parameters: ParameterValues::default(),
    };
    let second = Preset {
        name: "Second".to_string(),
        parameters: ParameterValues::default(),
    };
    map.insert("k".to_string(), first.clone());
    map.insert("j".to_string(), first.clone());
    map.insert("k".to_string(), second.clone());
    assert_eq!(map.entries().len(), 2);
    assert_eq!(map.get(&"k".to_string()), Some(&second));
    assert_eq!(map.get(&"j".to_string()), Some(&first));
    assert_eq!(map.get(&"x".to_string()), None);
    assert!(map.contains_key(&"j".to_string()));
    assert!(!map.contains_key(&"x".to_string()));
    let copy = map.clone();
    assert_eq!(copy.get(&"k".to_string()), Some(&second));
}

#[test]
fn every_error_has_a_message() {
    for e in [
        AppError::WrongMode,
        AppError::NotFound,
        AppError::InvalidState,
        AppError::PersistenceFailure,
        AppError::AuthFailure,
    ] {
        assert!(!e.message().is_empty());
    }
}

#[test]
fn json_file_names_give_keys() {
    assert_eq!(json_key(&"2024-05-01-10.00.00-result-1.json".to_string()), Some("2024-05-01-10.00.00-result-1".to_string()));
    assert_eq!(json_key(&"a.b.json".to_string()), Some("a.b".to_string()));
    assert_eq!(json_key(&".json".to_string()), None);
    assert_eq!(json_key(&"notes.txt".to_string()), None);
    assert_eq!(json_key(&"json".to_string()), None);
}
