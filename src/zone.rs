//! What the client knows about the objects of a zone and its time of day.

use vstd::prelude::*;

verus! {

#[derive(Clone, Copy, Debug, PartialEq, Eq, Structural)]
pub enum ZoneTimeState {
    Morning,
    Day,
    Evening,
    Night,
}

/// The collision shape a zone object's part was given.
#[derive(Clone, Copy, Debug, PartialEq, Eq, Structural)]
pub enum ZoneObjectPartCollisionShape {
    /// The part does not collide.
    NoCollision,
    Sphere,
    AxisAlignedBoundingBox,
    ObjectOrientedBoundingBox,
    Polygon,
}

impl Default for ZoneObjectPartCollisionShape {
    /// A part with no stated shape collides as its bounding box.
    fn default() -> (r: ZoneObjectPartCollisionShape)
        ensures
            r == ZoneObjectPartCollisionShape::AxisAlignedBoundingBox,
    {
        ZoneObjectPartCollisionShape::AxisAlignedBoundingBox
    }
}

#[derive(Clone, Copy, Debug, Default, PartialEq, Eq, Structural)]
pub struct ZoneObjectId {
    pub id: usize,
}

#[derive(Clone, Debug, Default, PartialEq, Eq)]
pub struct ZoneObjectPart {
    pub object_id: usize,
    pub mesh_path: String,
    pub collision_shape: ZoneObjectPartCollisionShape,
    pub collision_not_moveable: bool,
    pub collision_not_pickable: bool,
    pub collision_height_only: bool,
    pub collision_no_camera: bool,
}

#[derive(Clone, Debug, Default, PartialEq, Eq)]
pub struct ZoneObjectAnimatedObject {
    pub mesh_path: String,
    pub motion_path: String,
    pub texture_path: String,
}

#[derive(Clone, Copy, Debug, Default, PartialEq, Eq, Structural)]
pub struct ZoneObjectTerrain {
    pub block_x: u32,
    pub block_y: u32,
}

/// What an entity of a loaded zone stands for.
#[derive(Clone, Debug, PartialEq, Eq)]
pub enum ZoneObject {
    AnimatedObject(ZoneObjectAnimatedObject),
    WarpObject(ZoneObjectId),
    WarpObjectPart(ZoneObjectPart),
    EventObject(ZoneObjectId),
    EventObjectPart(ZoneObjectPart),
    CnstObject(ZoneObjectId),
    CnstObjectPart(ZoneObjectPart),
    DecoObject(ZoneObjectId),
    DecoObjectPart(ZoneObjectPart),
    Terrain(ZoneObjectTerrain),
    Water,
}

/// The state of the zone viewer's window.
pub struct ZoneViewerUiState {
    pub zone_list_open: bool,
}

impl Default for ZoneViewerUiState {
    /// The zone list starts open.
    fn default() -> (r: ZoneViewerUiState)
        ensures
            r.zone_list_open,
    {
        ZoneViewerUiState { zone_list_open: true }
    }
}

} // verus!
