use vstd::prelude::*;

verus! {

/// Number of directional-light slots in a light selection and in the trace shader.
pub const MAX_DIRECTIONAL_LIGHTS: usize = 4;

/// Number of point/spot-light slots in a light selection and in the trace shader.
pub const MAX_PUNCTUAL_LIGHTS: usize = 32;

} // verus!
