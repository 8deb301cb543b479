//! The sliders that a preset or the live view sets.
//!
//! A slider value is an IEEE-754 single-precision number. The library never
//! computes with it, so it carries the value as its bit pattern (`f32::to_bits`),
//! which keeps every value exactly as the operator chose it.
use vstd::prelude::*;

verus! {

/// Bit pattern of `0.0`.
pub const LEVEL_ZERO: u32 = 0x0000_0000;

/// Bit pattern of `1.0`.
pub const LEVEL_ONE: u32 = 0x3f80_0000;

/// Bit pattern of `2.0`.
pub const LEVEL_TWO: u32 = 0x4000_0000;

/// Bit pattern of `1500.0`.
pub const LEVEL_1500: u32 = 0x44bb_8000;

/// Bit pattern of `6500.0`.
pub const LEVEL_6500: u32 = 0x45cb_2000;

/// Bit pattern of `20000.0`.
pub const LEVEL_20000: u32 = 0x469c_4000;

/// The number of sliders.
pub const PARAMETER_COUNT: usize = 5;

#[derive(Clone, Copy, Debug, PartialEq, Eq, Structural, Hash)]
pub enum ParameterKey {
    Transparency,
    Outline,
    Smoothness,
    LightIntensity,
    LightTemperature,
}

/// The declared range, default and display name of one slider.
#[derive(Clone, Debug, PartialEq, Eq)]
pub struct Parameter {
    pub key: ParameterKey,
    pub name: String,
    pub min: u32,
    pub max: u32,
    pub default: u32,
}

/// The slider keys in their declared order.
pub open spec fn key_at(i: int) -> ParameterKey {
    if i == 0 {
        ParameterKey::Transparency
    } else if i == 1 {
        ParameterKey::Outline
    } else if i == 2 {
        ParameterKey::Smoothness
    } else if i == 3 {
        ParameterKey::LightIntensity
    } else {
        ParameterKey::LightTemperature
    }
}

pub open spec fn spec_label(key: ParameterKey) -> Seq<char> {
    match key {
        ParameterKey::Transparency => "Transparency"@,
        ParameterKey::Outline => "Outline"@,
        ParameterKey::Smoothness => "Smoothness"@,
        ParameterKey::LightIntensity => "Light Intensity"@,
        ParameterKey::LightTemperature => "Light Temperature"@,
    }
}

pub open spec fn spec_min(key: ParameterKey) -> u32 {
    match key {
        ParameterKey::LightTemperature => LEVEL_1500,
        _ => LEVEL_ZERO,
    }
}

pub open spec fn spec_max(key: ParameterKey) -> u32 {
    match key {
        ParameterKey::LightIntensity => LEVEL_TWO,
        ParameterKey::LightTemperature => LEVEL_20000,
        _ => LEVEL_ONE,
    }
}

pub open spec fn spec_default(key: ParameterKey) -> u32 {
    match key {
        ParameterKey::LightIntensity => LEVEL_ONE,
        ParameterKey::LightTemperature => LEVEL_6500,
        _ => LEVEL_ZERO,
    }
}

/// What `parameter_for` describes for `key`.
pub open spec fn describes(p: Parameter, key: ParameterKey) -> bool {
    &&& p.key == key
    &&& p.name@ == spec_label(key)
    &&& p.min == spec_min(key)
    &&& p.max == spec_max(key)
    &&& p.default == spec_default(key)
}

impl ParameterKey {
    /// The declared range, default and name of this slider.
    pub fn parameter_for(self) -> (r: Parameter)
        ensures
            describes(r, self),
    {
        let key = self;
        match self {
            ParameterKey::Transparency => Parameter {
                key,
                name: String::from_str("Transparency"),
                min: LEVEL_ZERO,
                max: LEVEL_ONE,
                default: LEVEL_ZERO,
            },
            ParameterKey::Outline => Parameter {
                key,
                name: String::from_str("Outline"),
                min: LEVEL_ZERO,
                max: LEVEL_ONE,
                default: LEVEL_ZERO,
            },
            ParameterKey::Smoothness => Parameter {
                key,
                name: String::from_str("Smoothness"),
                min: LEVEL_ZERO,
                max: LEVEL_ONE,
                default: LEVEL_ZERO,
            },
            ParameterKey::LightIntensity => Parameter {
                key,
                name: String::from_str("Light Intensity"),
                min: LEVEL_ZERO,
                max: LEVEL_TWO,
                default: LEVEL_ONE,
            },
            ParameterKey::LightTemperature => Parameter {
                key,
                name: String::from_str("Light Temperature"),
                min: LEVEL_1500,
                max: LEVEL_20000,
                default: LEVEL_6500,
            },
        }
    }

    /// Every slider key, in declared order.
    pub fn all_keys() -> (r: Vec<ParameterKey>)
        ensures
            r@.len() == PARAMETER_COUNT,
            forall|i: int| 0 <= i < PARAMETER_COUNT ==> r@[i] == key_at(i),
    {
        vec![
            ParameterKey::Transparency,
            ParameterKey::Outline,
            ParameterKey::Smoothness,
            ParameterKey::LightIntensity,
            ParameterKey::LightTemperature,
        ]
    }
}

impl Parameter {
    /// The description of every slider, in declared order.
    pub fn all() -> (r: Vec<Parameter>)
        ensures
            r@.len() == PARAMETER_COUNT,
            forall|i: int| 0 <= i < PARAMETER_COUNT ==> describes(#[trigger] r@[i], key_at(i)),
    {
        let keys = ParameterKey::all_keys();
        let mut all: Vec<Parameter> = Vec::new();
        let mut i: usize = 0;
        while i < keys.len()
            invariant
                keys@.len() == PARAMETER_COUNT,
                forall|j: int| 0 <= j < PARAMETER_COUNT ==> keys@[j] == key_at(j),
                i <= keys@.len(),
                all@.len() == i,
                forall|j: int| 0 <= j < i ==> describes(#[trigger] all@[j], key_at(j)),
            decreases keys@.len() - i,
        {
            all.push(keys[i].parameter_for());
            i = i + 1;
        }
        all
    }
}

/// One value for every slider.
#[derive(Clone, Copy, Debug, PartialEq, Eq, Structural)]
pub struct ParameterValues {
    pub transparency: u32,
    pub outline: u32,
    pub smoothness: u32,
    pub light_intensity: u32,
    pub light_temperature: u32,
}

impl ParameterValues {
    pub open spec fn value(&self, key: ParameterKey) -> u32 {
        match key {
            ParameterKey::Transparency => self.transparency,
            ParameterKey::Outline => self.outline,
            ParameterKey::Smoothness => self.smoothness,
            ParameterKey::LightIntensity => self.light_intensity,
            ParameterKey::LightTemperature => self.light_temperature,
        }
    }

    /// The values that every slider starts from.
    pub open spec fn spec_defaults() -> ParameterValues {
        ParameterValues {
            transparency: spec_default(ParameterKey::Transparency),
            outline: spec_default(ParameterKey::Outline),
            smoothness: spec_default(ParameterKey::Smoothness),
            light_intensity: spec_default(ParameterKey::LightIntensity),
            light_temperature: spec_default(ParameterKey::LightTemperature),
        }
    }

    pub fn get(&self, param: ParameterKey) -> (r: u32)
        ensures
            r == self.value(param),
    {
        match param {
            ParameterKey::Transparency => self.transparency,
            ParameterKey::Outline => self.outline,
            ParameterKey::Smoothness => self.smoothness,
            ParameterKey::LightIntensity => self.light_intensity,
            ParameterKey::LightTemperature => self.light_temperature,
        }
    }

    pub fn set(&mut self, param: ParameterKey, value: u32)
        ensures
            final(self).value(param) == value,
            forall|k: ParameterKey| k != param ==> final(self).value(k) == old(self).value(k),
    {
        match param {
            ParameterKey::Transparency => self.transparency = value,
            ParameterKey::Outline => self.outline = value,
            ParameterKey::Smoothness => self.smoothness = value,
            ParameterKey::LightIntensity => self.light_intensity = value,
            ParameterKey::LightTemperature => self.light_temperature = value,
        }
    }
}

impl Default for ParameterValues {
    fn default() -> (r: Self)
        ensures
            r == ParameterValues::spec_defaults(),
            forall|k: ParameterKey| r.value(k) == spec_default(k),
    {
        ParameterValues {
            transparency: ParameterKey::Transparency.parameter_for().default,
            outline: ParameterKey::Outline.parameter_for().default,
            smoothness: ParameterKey::Smoothness.parameter_for().default,
            light_intensity: ParameterKey::LightIntensity.parameter_for().default,
            light_temperature: ParameterKey::LightTemperature.parameter_for().default,
        }
    }
}

} // verus!
