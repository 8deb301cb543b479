//! What the remote display sees and sends: the reduced view of the session,
//! its answers and events, and the shared-secret check on its requests.
use vstd::prelude::*;

use crate::parameters::ParameterValues;

verus! {

/// An answer from the observer.
#[derive(Clone, Copy, Debug, PartialEq, Eq, Structural)]
pub enum ExperimentAnswer {
    /// Pick the preset on show.
    Choice,
    /// Rate the preset on show, from 1 to 5.
    Rating { value: u8 },
}

/// An event from the remote display.
#[derive(Clone, Copy, Debug, PartialEq, Eq, Structural)]
pub enum UnityEvent {
    SwapPreset,
    Answer(ExperimentAnswer),
    Connection { is_connected: bool },
}

#[derive(Clone, Copy, Debug, PartialEq, Eq, Structural)]
pub enum UnityExperimentType {
    Choice,
    Rating,
}

/// The prompt on show: its kind and the slider values to render.
#[derive(Clone, Copy, Debug, PartialEq, Eq, Structural)]
pub struct ExperimentPrompt {
    pub experiment_type: UnityExperimentType,
    pub parameters: ParameterValues,
}

/// The view of the session that the remote display is allowed to see.
#[derive(Clone, Copy, Debug, PartialEq, Eq, Structural)]
pub enum UnityState {
    Idle,
    Live { parameters: ParameterValues },
    Experiment { prompt: ExperimentPrompt },
}

/// Whether a request that presented `presented` may pass: always where no
/// secret is configured, else only with exactly the secret.
pub open spec fn authorized(secret: Option<String>, presented: Option<String>) -> bool {
    match secret {
        None => true,
        Some(s) => presented matches Some(p) && p@ == s@,
    }
}

pub fn is_authorized(secret: &Option<String>, presented: &Option<String>) -> (r: bool)
    ensures
        r == authorized(*secret, *presented),
{
    match secret {
        None => true,
        Some(s) => match presented {
            Some(p) => *p == *s,
            None => false,
        },
    }
}

} // verus!
