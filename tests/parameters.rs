use neuroviz::parameters::{Parameter, ParameterKey, ParameterValues};

/// Every slider is listed by `Parameter::all`, with the default that
/// `ParameterValues::default` gives it.
#[test]
fn test_all_is_correct() {
    let mut all_parameter_values = ParameterValues {
        transparency: u32::MAX,
        outline: u32::MAX,
        smoothness: u32::MAX,
        light_intensity: u32::MAX,
        light_temperature: u32::MAX,
    };

    for param in Parameter::all() {
        all_parameter_values.set(param.key, param.default);
    }

    let correct_parameter_values = ParameterValues::default();

    assert_eq!(all_parameter_values, correct_parameter_values);
}

#[test]
fn parameter_constants_are_the_declared_floats() {
    let temperature = ParameterKey::LightTemperature.parameter_for();
    assert_eq!(temperature.name, "Light Temperature");
    assert_eq!(f32::from_bits(temperature.min), 1500.0);
    assert_eq!(f32::from_bits(temperature.max), 20000.0);
    assert_eq!(f32::from_bits(temperature.default), 6500.0);

    let intensity = ParameterKey::LightIntensity.parameter_for();
    assert_eq!(f32::from_bits(intensity.min), 0.0);
    assert_eq!(f32::from_bits(intensity.max), 2.0);
    assert_eq!(f32::from_bits(intensity.default), 1.0);

    let transparency = ParameterKey::Transparency.parameter_for();
    assert_eq!(f32::from_bits(transparency.max), 1.0);
    assert_eq!(f32::from_bits(transparency.default), 0.0);
}

#[test]
fn parameters_listed_in_declared_order() {
    let all = Parameter::all();
    let names: Vec<String> = all.iter().map(|p| p.name.clone()).collect();
    assert_eq!(
        names,
        vec![
            "Transparency",
            "Outline",
            "Smoothness",
            "Light Intensity",
            "Light Temperature"
        ]
    );
    assert_eq!(ParameterKey::all_keys().len(), 5);
}

#[test]
fn parameter_values_get_and_set() {
    let mut values = ParameterValues::default();
    values.set(ParameterKey::Outline, 0.25f32.to_bits());
    assert_eq!(f32::from_bits(values.get(ParameterKey::Outline)), 0.25);
    assert_eq!(f32::from_bits(values.get(ParameterKey::LightTemperature)), 6500.0);
    assert_eq!(f32::from_bits(values.get(ParameterKey::LightIntensity)), 1.0);
}
