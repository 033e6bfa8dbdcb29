//! Names under which the mesh loaders register their assets.

use vstd::prelude::*;
use vstd::string::StringExecFns;

verus! {

/// How many faces of a mesh each of its materials covers.
#[derive(Clone, Debug, PartialEq, Eq)]
pub struct ZmsMaterialNumFaces {
    pub material_num_faces: Vec<u16>,
}

/// Loads meshes with their skinning.
#[derive(Clone, Copy, Debug, Default, PartialEq, Eq, Structural)]
pub struct ZmsAssetLoader;

/// Loads meshes without their skinning.
#[derive(Clone, Copy, Debug, Default, PartialEq, Eq, Structural)]
pub struct ZmsNoSkinAssetLoader;

impl ZmsAssetLoader {
    /// The file extension this loader takes.
    pub fn extension() -> (r: &'static str)
        ensures
            r@ == "zms"@,
    {
        "zms"
    }
}

impl ZmsNoSkinAssetLoader {
    /// The file extension this loader takes.
    pub fn extension() -> (r: &'static str)
        ensures
            r@ == "no_skin"@,
    {
        "no_skin"
    }

    /// The asset path under which a mesh is loaded without its skinning: the
    /// mesh's own path with `.no_skin` after it.
    pub fn convert_path(path: &str) -> (r: String)
        ensures
            r@ == path@ + ".no_skin"@,
    {
        path.to_owned().concat(".no_skin")
    }
}

} // verus!
