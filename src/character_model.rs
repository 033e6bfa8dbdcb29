//! The parts a character's model is assembled from.

use vstd::prelude::*;

verus! {

#[derive(Clone, Copy, Debug, PartialEq, Eq, Structural)]
pub enum CharacterModelPart {
    CharacterFace,
    CharacterHair,
    Head,
    FaceItem,
    Body,
    Hands,
    Feet,
    Back,
    Weapon,
    SubWeapon,
}

impl CharacterModelPart {
    /// The bone a part hangs from when its mesh names none. Face and hair
    /// hang from the head bone; head gear, face items and back items from
    /// dummy bones that follow the skeleton's own bones, which start at
    /// `dummy_bone_offset`. Other parts have no such bone.
    pub fn default_bone_id(&self, dummy_bone_offset: usize) -> (r: Option<usize>)
        requires
            *self == CharacterModelPart::Head ==> dummy_bone_offset + 6 <= usize::MAX,
            *self == CharacterModelPart::FaceItem ==> dummy_bone_offset + 4 <= usize::MAX,
            *self == CharacterModelPart::Back ==> dummy_bone_offset + 3 <= usize::MAX,
        ensures
            r == match *self {
                CharacterModelPart::CharacterFace => Some(4usize),
                CharacterModelPart::CharacterHair => Some(4usize),
                CharacterModelPart::Head => Some((dummy_bone_offset + 6) as usize),
                CharacterModelPart::FaceItem => Some((dummy_bone_offset + 4) as usize),
                CharacterModelPart::Back => Some((dummy_bone_offset + 3) as usize),
                _ => None,
            },
    {
        match *self {
            CharacterModelPart::CharacterFace => Some(4),
            CharacterModelPart::CharacterHair => Some(4),
            CharacterModelPart::Head => Some(dummy_bone_offset + 6),
            CharacterModelPart::FaceItem => Some(dummy_bone_offset + 4),
            CharacterModelPart::Back => Some(dummy_bone_offset + 3),
            _ => None,
        }
    }
}

} // verus!
