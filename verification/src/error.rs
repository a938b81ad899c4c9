//! The errors of the library.

use vstd::prelude::*;

verus! {

/// Why an operation on the scene was refused.
#[derive(Clone, Copy, Debug, PartialEq, Eq, Structural)]
pub enum SceneError {
    /// No node carries the name that was asked for.
    NotFound,
    /// The node found under a name is not of the kind that the operation needs.
    WrongNodeKind,
    /// A mesh refers to a material that its model does not hold.
    MissingMeshData,
    /// The device has no handle left for another resource.
    ResourceExhaustion,
    /// The scene would hold more lights than the shadow map has layers.
    CapacityExceeded,
}

impl SceneError {
    /// A short description of the error.
    pub fn message(&self) -> (s: &'static str)
        ensures
            s@ == match *self {
                SceneError::NotFound => "no node with that name"@,
                SceneError::WrongNodeKind => "the node is not of the kind required"@,
                SceneError::MissingMeshData => "a mesh refers to a missing material"@,
                SceneError::ResourceExhaustion => "the device has no handles left"@,
                SceneError::CapacityExceeded => "too many lights for the shadow map"@,
            },
    {
        match self {
            SceneError::NotFound => "no node with that name",
            SceneError::WrongNodeKind => "the node is not of the kind required",
            SceneError::MissingMeshData => "a mesh refers to a missing material",
            SceneError::ResourceExhaustion => "the device has no handles left",
            SceneError::CapacityExceeded => "too many lights for the shadow map",
        }
    }
}

} // verus!
