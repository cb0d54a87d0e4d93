use vstd::prelude::*;

verus! {

/// Why a session could not be started.
#[derive(Debug, Clone, Copy, PartialEq, Eq, Structural)]
pub enum SceneError {
    /// The mesh shared by the voxels could not be resolved.
    AssetLoadFailure,
    /// The lattice radius or the cell size was not strictly positive.
    PreconditionViolation,
}

} // verus!
