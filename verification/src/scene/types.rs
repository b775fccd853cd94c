use vstd::prelude::*;

verus! {

/// Opts a mesh entity out of automatic raytracing proxy generation.
#[derive(Clone, Copy, Debug, PartialEq, Eq, Structural)]
pub struct DisableRaytracingMesh;

impl Default for DisableRaytracingMesh {
    fn default() -> (marker: Self)
        ensures
            marker == DisableRaytracingMesh,
    {
        DisableRaytracingMesh
    }
}

} // verus!
