//! The canonical humanoid skeleton profile: bone identifiers, the rest-pose
//! transform of each bone in its parent's space, and the rest pose composed
//! down from the root.

use crate::mat3::{m3_mul_s, m3_apply_s, m3_ok, mat3_apply, mat3_in_range, mat3_mul, Mat3, M3};
use crate::vec3::{v3_add_s, v3_ok, vec3_add, vec3_in_range, V3, Vec3};
use vstd::prelude::*;

verus! {

/// The canonical humanoid bone identifiers.
#[derive(Clone, Copy, PartialEq, Eq, Structural, Debug, Hash)]
pub enum BoneName {
    Hips,
    Spine,
    Chest,
    UpperChest,
    Neck,
    Head,
    LeftEye,
    RightEye,
    Jaw,
    LeftShoulder,
    LeftUpperArm,
    LeftLowerArm,
    LeftHand,
    LeftThumbProximal,
    LeftThumbIntermediate,
    LeftThumbDistal,
    LeftIndexProximal,
    LeftIndexIntermediate,
    LeftIndexDistal,
    LeftMiddleProximal,
    LeftMiddleIntermediate,
    LeftMiddleDistal,
    LeftRingProximal,
    LeftRingIntermediate,
    LeftRingDistal,
    LeftLittleProximal,
    LeftLittleIntermediate,
    LeftLittleDistal,
    RightShoulder,
    RightUpperArm,
    RightLowerArm,
    RightHand,
    RightThumbProximal,
    RightThumbIntermediate,
    RightThumbDistal,
    RightIndexProximal,
    RightIndexIntermediate,
    RightIndexDistal,
    RightMiddleProximal,
    RightMiddleIntermediate,
    RightMiddleDistal,
    RightRingProximal,
    RightRingIntermediate,
    RightRingDistal,
    RightLittleProximal,
    RightLittleIntermediate,
    RightLittleDistal,
    LeftUpperLeg,
    LeftLowerLeg,
    LeftFoot,
    LeftToes,
    RightUpperLeg,
    RightLowerLeg,
    RightFoot,
    RightToes,
}

/// Spec-level rest pose: a rotation basis in columns and an origin.
pub ghost struct ProfilePoseS {
    pub basis: M3,
    pub origin: V3,
}

/// A rest pose: a rotation basis in columns and an origin, in micro-units.
#[derive(Clone, Copy, PartialEq, Eq, Structural, Debug)]
pub struct ProfilePose {
    pub basis: Mat3,
    pub origin: Vec3,
}

impl View for ProfilePose {
    type V = ProfilePoseS;

    open spec fn view(&self) -> ProfilePoseS {
        ProfilePoseS { basis: self.basis@, origin: self.origin@ }
    }
}

/// The parent of each bone in the humanoid hierarchy.
pub open spec fn bone_parent_s(b: BoneName) -> Option<BoneName> {
    match b {
        BoneName::Hips => None,
        BoneName::Spine => Some(BoneName::Hips),
        BoneName::Chest => Some(BoneName::Spine),
        BoneName::UpperChest => Some(BoneName::Chest),
        BoneName::Neck => Some(BoneName::UpperChest),
        BoneName::Head => Some(BoneName::Neck),
        BoneName::LeftEye => Some(BoneName::Head),
        BoneName::RightEye => Some(BoneName::Head),
        BoneName::Jaw => Some(BoneName::Head),
        BoneName::LeftShoulder => Some(BoneName::UpperChest),
        BoneName::LeftUpperArm => Some(BoneName::LeftShoulder),
        BoneName::LeftLowerArm => Some(BoneName::LeftUpperArm),
        BoneName::LeftHand => Some(BoneName::LeftLowerArm),
        BoneName::LeftThumbProximal => Some(BoneName::LeftHand),
        BoneName::LeftThumbIntermediate => Some(BoneName::LeftThumbProximal),
        BoneName::LeftThumbDistal => Some(BoneName::LeftThumbIntermediate),
        BoneName::LeftIndexProximal => Some(BoneName::LeftHand),
        BoneName::LeftIndexIntermediate => Some(BoneName::LeftIndexProximal),
        BoneName::LeftIndexDistal => Some(BoneName::LeftIndexIntermediate),
        BoneName::LeftMiddleProximal => Some(BoneName::LeftHand),
        BoneName::LeftMiddleIntermediate => Some(BoneName::LeftMiddleProximal),
        BoneName::LeftMiddleDistal => Some(BoneName::LeftMiddleIntermediate),
        BoneName::LeftRingProximal => Some(BoneName::LeftHand),
        BoneName::LeftRingIntermediate => Some(BoneName::LeftRingProximal),
        BoneName::LeftRingDistal => Some(BoneName::LeftRingIntermediate),
        BoneName::LeftLittleProximal => Some(BoneName::LeftHand),
        BoneName::LeftLittleIntermediate => Some(BoneName::LeftLittleProximal),
        BoneName::LeftLittleDistal => Some(BoneName::LeftLittleIntermediate),
        BoneName::RightShoulder => Some(BoneName::UpperChest),
        BoneName::RightUpperArm => Some(BoneName::RightShoulder),
        BoneName::RightLowerArm => Some(BoneName::RightUpperArm),
        BoneName::RightHand => Some(BoneName::RightLowerArm),
        BoneName::RightThumbProximal => Some(BoneName::RightHand),
        BoneName::RightThumbIntermediate => Some(BoneName::RightThumbProximal),
        BoneName::RightThumbDistal => Some(BoneName::RightThumbIntermediate),
        BoneName::RightIndexProximal => Some(BoneName::RightHand),
        BoneName::RightIndexIntermediate => Some(BoneName::RightIndexProximal),
        BoneName::RightIndexDistal => Some(BoneName::RightIndexIntermediate),
        BoneName::RightMiddleProximal => Some(BoneName::RightHand),
        BoneName::RightMiddleIntermediate => Some(BoneName::RightMiddleProximal),
        BoneName::RightMiddleDistal => Some(BoneName::RightMiddleIntermediate),
        BoneName::RightRingProximal => Some(BoneName::RightHand),
        BoneName::RightRingIntermediate => Some(BoneName::RightRingProximal),
        BoneName::RightRingDistal => Some(BoneName::RightRingIntermediate),
        BoneName::RightLittleProximal => Some(BoneName::RightHand),
        BoneName::RightLittleIntermediate => Some(BoneName::RightLittleProximal),
        BoneName::RightLittleDistal => Some(BoneName::RightLittleIntermediate),
        BoneName::LeftUpperLeg => Some(BoneName::Hips),
        BoneName::LeftLowerLeg => Some(BoneName::LeftUpperLeg),
        BoneName::LeftFoot => Some(BoneName::LeftLowerLeg),
        BoneName::LeftToes => Some(BoneName::LeftFoot),
        BoneName::RightUpperLeg => Some(BoneName::Hips),
        BoneName::RightLowerLeg => Some(BoneName::RightUpperLeg),
        BoneName::RightFoot => Some(BoneName::RightLowerLeg),
        BoneName::RightToes => Some(BoneName::RightFoot),
    }
}

/// Depth of each bone below the root.
pub open spec fn bone_depth_s(b: BoneName) -> nat {
    match b {
        BoneName::Hips => 0,
        BoneName::Spine => 1,
        BoneName::Chest => 2,
        BoneName::UpperChest => 3,
        BoneName::Neck => 4,
        BoneName::Head => 5,
        BoneName::LeftEye => 6,
        BoneName::RightEye => 6,
        BoneName::Jaw => 6,
        BoneName::LeftShoulder => 4,
        BoneName::LeftUpperArm => 5,
        BoneName::LeftLowerArm => 6,
        BoneName::LeftHand => 7,
        BoneName::LeftThumbProximal => 8,
        BoneName::LeftThumbIntermediate => 9,
        BoneName::LeftThumbDistal => 10,
        BoneName::LeftIndexProximal => 8,
        BoneName::LeftIndexIntermediate => 9,
        BoneName::LeftIndexDistal => 10,
        BoneName::LeftMiddleProximal => 8,
        BoneName::LeftMiddleIntermediate => 9,
        BoneName::LeftMiddleDistal => 10,
        BoneName::LeftRingProximal => 8,
        BoneName::LeftRingIntermediate => 9,
        BoneName::LeftRingDistal => 10,
        BoneName::LeftLittleProximal => 8,
        BoneName::LeftLittleIntermediate => 9,
        BoneName::LeftLittleDistal => 10,
        BoneName::RightShoulder => 4,
        BoneName::RightUpperArm => 5,
        BoneName::RightLowerArm => 6,
        BoneName::RightHand => 7,
        BoneName::RightThumbProximal => 8,
        BoneName::RightThumbIntermediate => 9,
        BoneName::RightThumbDistal => 10,
        BoneName::RightIndexProximal => 8,
        BoneName::RightIndexIntermediate => 9,
        BoneName::RightIndexDistal => 10,
        BoneName::RightMiddleProximal => 8,
        BoneName::RightMiddleIntermediate => 9,
        BoneName::RightMiddleDistal => 10,
        BoneName::RightRingProximal => 8,
        BoneName::RightRingIntermediate => 9,
        BoneName::RightRingDistal => 10,
        BoneName::RightLittleProximal => 8,
        BoneName::RightLittleIntermediate => 9,
        BoneName::RightLittleDistal => 10,
        BoneName::LeftUpperLeg => 1,
        BoneName::LeftLowerLeg => 2,
        BoneName::LeftFoot => 3,
        BoneName::LeftToes => 4,
        BoneName::RightUpperLeg => 1,
        BoneName::RightLowerLeg => 2,
        BoneName::RightFoot => 3,
        BoneName::RightToes => 4,
    }
}

/// The parent of a bone in the humanoid hierarchy.
pub fn bone_parent(b: BoneName) -> (r: Option<BoneName>)
    ensures
        r == bone_parent_s(b),
{
    match b {
        BoneName::Hips => None,
        BoneName::Spine => Some(BoneName::Hips),
        BoneName::Chest => Some(BoneName::Spine),
        BoneName::UpperChest => Some(BoneName::Chest),
        BoneName::Neck => Some(BoneName::UpperChest),
        BoneName::Head => Some(BoneName::Neck),
        BoneName::LeftEye => Some(BoneName::Head),
        BoneName::RightEye => Some(BoneName::Head),
        BoneName::Jaw => Some(BoneName::Head),
        BoneName::LeftShoulder => Some(BoneName::UpperChest),
        BoneName::LeftUpperArm => Some(BoneName::LeftShoulder),
        BoneName::LeftLowerArm => Some(BoneName::LeftUpperArm),
        BoneName::LeftHand => Some(BoneName::LeftLowerArm),
        BoneName::LeftThumbProximal => Some(BoneName::LeftHand),
        BoneName::LeftThumbIntermediate => Some(BoneName::LeftThumbProximal),
        BoneName::LeftThumbDistal => Some(BoneName::LeftThumbIntermediate),
        BoneName::LeftIndexProximal => Some(BoneName::LeftHand),
        BoneName::LeftIndexIntermediate => Some(BoneName::LeftIndexProximal),
        BoneName::LeftIndexDistal => Some(BoneName::LeftIndexIntermediate),
        BoneName::LeftMiddleProximal => Some(BoneName::LeftHand),
        BoneName::LeftMiddleIntermediate => Some(BoneName::LeftMiddleProximal),
        BoneName::LeftMiddleDistal => Some(BoneName::LeftMiddleIntermediate),
        BoneName::LeftRingProximal => Some(BoneName::LeftHand),
        BoneName::LeftRingIntermediate => Some(BoneName::LeftRingProximal),
        BoneName::LeftRingDistal => Some(BoneName::LeftRingIntermediate),
        BoneName::LeftLittleProximal => Some(BoneName::LeftHand),
        BoneName::LeftLittleIntermediate => Some(BoneName::LeftLittleProximal),
        BoneName::LeftLittleDistal => Some(BoneName::LeftLittleIntermediate),
        BoneName::RightShoulder => Some(BoneName::UpperChest),
        BoneName::RightUpperArm => Some(BoneName::RightShoulder),
        BoneName::RightLowerArm => Some(BoneName::RightUpperArm),
        BoneName::RightHand => Some(BoneName::RightLowerArm),
        BoneName::RightThumbProximal => Some(BoneName::RightHand),
        BoneName::RightThumbIntermediate => Some(BoneName::RightThumbProximal),
        BoneName::RightThumbDistal => Some(BoneName::RightThumbIntermediate),
        BoneName::RightIndexProximal => Some(BoneName::RightHand),
        BoneName::RightIndexIntermediate => Some(BoneName::RightIndexProximal),
        BoneName::RightIndexDistal => Some(BoneName::RightIndexIntermediate),
        BoneName::RightMiddleProximal => Some(BoneName::RightHand),
        BoneName::RightMiddleIntermediate => Some(BoneName::RightMiddleProximal),
        BoneName::RightMiddleDistal => Some(BoneName::RightMiddleIntermediate),
        BoneName::RightRingProximal => Some(BoneName::RightHand),
        BoneName::RightRingIntermediate => Some(BoneName::RightRingProximal),
        BoneName::RightRingDistal => Some(BoneName::RightRingIntermediate),
        BoneName::RightLittleProximal => Some(BoneName::RightHand),
        BoneName::RightLittleIntermediate => Some(BoneName::RightLittleProximal),
        BoneName::RightLittleDistal => Some(BoneName::RightLittleIntermediate),
        BoneName::LeftUpperLeg => Some(BoneName::Hips),
        BoneName::LeftLowerLeg => Some(BoneName::LeftUpperLeg),
        BoneName::LeftFoot => Some(BoneName::LeftLowerLeg),
        BoneName::LeftToes => Some(BoneName::LeftFoot),
        BoneName::RightUpperLeg => Some(BoneName::Hips),
        BoneName::RightLowerLeg => Some(BoneName::RightUpperLeg),
        BoneName::RightFoot => Some(BoneName::RightLowerLeg),
        BoneName::RightToes => Some(BoneName::RightFoot),
    }
}

/// A parent is strictly closer to the root than its child.
proof fn lemma_parent_depth(b: BoneName)
    ensures
        bone_parent_s(b) is Some ==> bone_depth_s(bone_parent_s(b).unwrap()) < bone_depth_s(b),
{
}

/// The rest pose of each bone in its parent's space.
#[verifier::opaque]
pub open spec fn profile_local_s(b: BoneName) -> ProfilePoseS {
    match b {
        BoneName::Hips => ProfilePoseS {
            basis: M3 { x_axis: (V3 { x: 1_000_000, y: 0, z: 0 }), y_axis: (V3 { x: 0, y: 1_000_000, z: 0 }), z_axis: (V3 { x: 0, y: 0, z: 1_000_000 }) },
            origin: (V3 { x: 0, y: 750_000, z: 0 }),
        },
        BoneName::Spine => ProfilePoseS {
            basis: M3 { x_axis: (V3 { x: 1_000_000, y: 0, z: 0 }), y_axis: (V3 { x: 0, y: 1_000_000, z: 0 }), z_axis: (V3 { x: 0, y: 0, z: 1_000_000 }) },
            origin: (V3 { x: 0, y: 100_000, z: 0 }),
        },
        BoneName::Chest => ProfilePoseS {
            basis: M3 { x_axis: (V3 { x: 1_000_000, y: 0, z: 0 }), y_axis: (V3 { x: 0, y: 1_000_000, z: 0 }), z_axis: (V3 { x: 0, y: 0, z: 1_000_000 }) },
            origin: (V3 { x: 0, y: 100_000, z: 0 }),
        },
        BoneName::UpperChest => ProfilePoseS {
            basis: M3 { x_axis: (V3 { x: 1_000_000, y: 0, z: 0 }), y_axis: (V3 { x: 0, y: 1_000_000, z: 0 }), z_axis: (V3 { x: 0, y: 0, z: 1_000_000 }) },
            origin: (V3 { x: 0, y: 100_000, z: 0 }),
        },
        BoneName::Neck => ProfilePoseS {
            basis: M3 { x_axis: (V3 { x: 1_000_000, y: 0, z: 0 }), y_axis: (V3 { x: 0, y: 1_000_000, z: 0 }), z_axis: (V3 { x: 0, y: 0, z: 1_000_000 }) },
            origin: (V3 { x: 0, y: 100_000, z: 0 }),
        },
        BoneName::Head => ProfilePoseS {
            basis: M3 { x_axis: (V3 { x: 1_000_000, y: 0, z: 0 }), y_axis: (V3 { x: 0, y: 1_000_000, z: 0 }), z_axis: (V3 { x: 0, y: 0, z: 1_000_000 }) },
            origin: (V3 { x: 0, y: 100_000, z: 0 }),
        },
        BoneName::LeftEye => ProfilePoseS {
            basis: M3 { x_axis: (V3 { x: 1_000_000, y: 0, z: 0 }), y_axis: (V3 { x: 0, y: 0, z: 1_000_000 }), z_axis: (V3 { x: 0, y: -1_000_000, z: 0 }) },
            origin: (V3 { x: 50_000, y: 150_000, z: 0 }),
        },
        BoneName::RightEye => ProfilePoseS {
            basis: M3 { x_axis: (V3 { x: 1_000_000, y: 0, z: 0 }), y_axis: (V3 { x: 0, y: 0, z: 1_000_000 }), z_axis: (V3 { x: 0, y: -1_000_000, z: 0 }) },
            origin: (V3 { x: -50_000, y: 150_000, z: 0 }),
        },
        BoneName::Jaw => ProfilePoseS {
            basis: M3 { x_axis: (V3 { x: -1_000_000, y: 0, z: 0 }), y_axis: (V3 { x: 0, y: 0, z: 1_000_000 }), z_axis: (V3 { x: 0, y: 1_000_000, z: 0 }) },
            origin: (V3 { x: 0, y: 50_000, z: 50_000 }),
        },
        BoneName::LeftShoulder => ProfilePoseS {
            basis: M3 { x_axis: (V3 { x: 0, y: 0, z: 1_000_000 }), y_axis: (V3 { x: 1_000_000, y: 0, z: 0 }), z_axis: (V3 { x: 0, y: 1_000_000, z: 0 }) },
            origin: (V3 { x: 50_000, y: 100_000, z: 0 }),
        },
        BoneName::LeftUpperArm => ProfilePoseS {
            basis: M3 { x_axis: (V3 { x: -1_000_000, y: 0, z: 0 }), y_axis: (V3 { x: 0, y: 1_000_000, z: 0 }), z_axis: (V3 { x: 0, y: 0, z: -1_000_000 }) },
            origin: (V3 { x: 0, y: 50_000, z: 0 }),
        },
        BoneName::LeftLowerArm => ProfilePoseS {
            basis: M3 { x_axis: (V3 { x: 0, y: 0, z: 1_000_000 }), y_axis: (V3 { x: 0, y: 1_000_000, z: 0 }), z_axis: (V3 { x: -1_000_000, y: 0, z: 0 }) },
            origin: (V3 { x: 0, y: 250_000, z: 0 }),
        },
        BoneName::LeftHand => ProfilePoseS {
            basis: M3 { x_axis: (V3 { x: 0, y: 0, z: -1_000_000 }), y_axis: (V3 { x: 0, y: 1_000_000, z: 0 }), z_axis: (V3 { x: 1_000_000, y: 0, z: 0 }) },
            origin: (V3 { x: 0, y: 250_000, z: 0 }),
        },
        BoneName::LeftThumbProximal => ProfilePoseS {
            basis: M3 { x_axis: (V3 { x: 0, y: 0, z: -1_000_000 }), y_axis: (V3 { x: -577_000, y: 816_000, z: 0 }), z_axis: (V3 { x: 816_000, y: 577_000, z: 0 }) },
            origin: (V3 { x: -25_000, y: 25_000, z: 0 }),
        },
        BoneName::LeftThumbIntermediate => ProfilePoseS {
            basis: M3 { x_axis: (V3 { x: 1_000_000, y: 0, z: 0 }), y_axis: (V3 { x: 0, y: 1_000_000, z: 0 }), z_axis: (V3 { x: 0, y: 0, z: 1_000_000 }) },
            origin: (V3 { x: 0, y: 43_000, z: 0 }),
        },
        BoneName::LeftThumbDistal => ProfilePoseS {
            basis: M3 { x_axis: (V3 { x: 1_000_000, y: 0, z: 0 }), y_axis: (V3 { x: 0, y: 1_000_000, z: 0 }), z_axis: (V3 { x: 0, y: 0, z: 1_000_000 }) },
            origin: (V3 { x: 0, y: 43_000, z: 0 }),
        },
        BoneName::LeftIndexProximal => ProfilePoseS {
            basis: M3 { x_axis: (V3 { x: 1_000_000, y: 0, z: 0 }), y_axis: (V3 { x: 0, y: 1_000_000, z: 0 }), z_axis: (V3 { x: 0, y: 0, z: 1_000_000 }) },
            origin: (V3 { x: -25_000, y: 75_000, z: 0 }),
        },
        BoneName::LeftIndexIntermediate => ProfilePoseS {
            basis: M3 { x_axis: (V3 { x: 1_000_000, y: 0, z: 0 }), y_axis: (V3 { x: 0, y: 1_000_000, z: 0 }), z_axis: (V3 { x: 0, y: 0, z: 1_000_000 }) },
            origin: (V3 { x: 0, y: 50_000, z: 0 }),
        },
        BoneName::LeftIndexDistal => ProfilePoseS {
            basis: M3 { x_axis: (V3 { x: 1_000_000, y: 0, z: 0 }), y_axis: (V3 { x: 0, y: 1_000_000, z: 0 }), z_axis: (V3 { x: 0, y: 0, z: 1_000_000 }) },
            origin: (V3 { x: 0, y: 25_000, z: 0 }),
        },
        BoneName::LeftMiddleProximal => ProfilePoseS {
            basis: M3 { x_axis: (V3 { x: 1_000_000, y: 0, z: 0 }), y_axis: (V3 { x: 0, y: 1_000_000, z: 0 }), z_axis: (V3 { x: 0, y: 0, z: 1_000_000 }) },
            origin: (V3 { x: 0, y: 75_000, z: 0 }),
        },
        BoneName::LeftMiddleIntermediate => ProfilePoseS {
            basis: M3 { x_axis: (V3 { x: 1_000_000, y: 0, z: 0 }), y_axis: (V3 { x: 0, y: 1_000_000, z: 0 }), z_axis: (V3 { x: 0, y: 0, z: 1_000_000 }) },
            origin: (V3 { x: 0, y: 75_000, z: 0 }),
        },
        BoneName::LeftMiddleDistal => ProfilePoseS {
            basis: M3 { x_axis: (V3 { x: 1_000_000, y: 0, z: 0 }), y_axis: (V3 { x: 0, y: 1_000_000, z: 0 }), z_axis: (V3 { x: 0, y: 0, z: 1_000_000 }) },
            origin: (V3 { x: 0, y: 25_000, z: 0 }),
        },
        BoneName::LeftRingProximal => ProfilePoseS {
            basis: M3 { x_axis: (V3 { x: 1_000_000, y: 0, z: 0 }), y_axis: (V3 { x: 0, y: 1_000_000, z: 0 }), z_axis: (V3 { x: 0, y: 0, z: 1_000_000 }) },
            origin: (V3 { x: 25_000, y: 75_000, z: 0 }),
        },
        BoneName::LeftRingIntermediate => ProfilePoseS {
            basis: M3 { x_axis: (V3 { x: 1_000_000, y: 0, z: 0 }), y_axis: (V3 { x: 0, y: 1_000_000, z: 0 }), z_axis: (V3 { x: 0, y: 0, z: 1_000_000 }) },
            origin: (V3 { x: 0, y: 50_000, z: 0 }),
        },
        BoneName::LeftRingDistal => ProfilePoseS {
            basis: M3 { x_axis: (V3 { x: 1_000_000, y: 0, z: 0 }), y_axis: (V3 { x: 0, y: 1_000_000, z: 0 }), z_axis: (V3 { x: 0, y: 0, z: 1_000_000 }) },
            origin: (V3 { x: 0, y: 25_000, z: 0 }),
        },
        BoneName::LeftLittleProximal => ProfilePoseS {
            basis: M3 { x_axis: (V3 { x: 1_000_000, y: 0, z: 0 }), y_axis: (V3 { x: 0, y: 1_000_000, z: 0 }), z_axis: (V3 { x: 0, y: 0, z: 1_000_000 }) },
            origin: (V3 { x: 50_000, y: 50_000, z: 0 }),
        },
        BoneName::LeftLittleIntermediate => ProfilePoseS {
            basis: M3 { x_axis: (V3 { x: 1_000_000, y: 0, z: 0 }), y_axis: (V3 { x: 0, y: 1_000_000, z: 0 }), z_axis: (V3 { x: 0, y: 0, z: 1_000_000 }) },
            origin: (V3 { x: 0, y: 50_000, z: 0 }),
        },
        BoneName::LeftLittleDistal => ProfilePoseS {
            basis: M3 { x_axis: (V3 { x: 1_000_000, y: 0, z: 0 }), y_axis: (V3 { x: 0, y: 1_000_000, z: 0 }), z_axis: (V3 { x: 0, y: 0, z: 1_000_000 }) },
            origin: (V3 { x: 0, y: 25_000, z: 0 }),
        },
        BoneName::RightShoulder => ProfilePoseS {
            basis: M3 { x_axis: (V3 { x: 0, y: 0, z: -1_000_000 }), y_axis: (V3 { x: -1_000_000, y: 0, z: 0 }), z_axis: (V3 { x: 0, y: 1_000_000, z: 0 }) },
            origin: (V3 { x: -50_000, y: 100_000, z: 0 }),
        },
        BoneName::RightUpperArm => ProfilePoseS {
            basis: M3 { x_axis: (V3 { x: -1_000_000, y: 0, z: 0 }), y_axis: (V3 { x: 0, y: 1_000_000, z: 0 }), z_axis: (V3 { x: 0, y: 0, z: -1_000_000 }) },
            origin: (V3 { x: 0, y: 50_000, z: 0 }),
        },
        BoneName::RightLowerArm => ProfilePoseS {
            basis: M3 { x_axis: (V3 { x: 0, y: 0, z: -1_000_000 }), y_axis: (V3 { x: 0, y: 1_000_000, z: 0 }), z_axis: (V3 { x: 1_000_000, y: 0, z: 0 }) },
            origin: (V3 { x: 0, y: 250_000, z: 0 }),
        },
        BoneName::RightHand => ProfilePoseS {
            basis: M3 { x_axis: (V3 { x: 0, y: 0, z: 1_000_000 }), y_axis: (V3 { x: 0, y: 1_000_000, z: 0 }), z_axis: (V3 { x: -1_000_000, y: 0, z: 0 }) },
            origin: (V3 { x: 0, y: 250_000, z: 0 }),
        },
        BoneName::RightThumbProximal => ProfilePoseS {
            basis: M3 { x_axis: (V3 { x: 0, y: 0, z: 1_000_000 }), y_axis: (V3 { x: 577_000, y: 816_000, z: 0 }), z_axis: (V3 { x: -816_000, y: 577_000, z: 0 }) },
            origin: (V3 { x: 25_000, y: 25_000, z: 0 }),
        },
        BoneName::RightThumbIntermediate => ProfilePoseS {
            basis: M3 { x_axis: (V3 { x: 1_000_000, y: 0, z: 0 }), y_axis: (V3 { x: 0, y: 1_000_000, z: 0 }), z_axis: (V3 { x: 0, y: 0, z: 1_000_000 }) },
            origin: (V3 { x: 0, y: 43_000, z: 0 }),
        },
        BoneName::RightThumbDistal => ProfilePoseS {
            basis: M3 { x_axis: (V3 { x: 1_000_000, y: 0, z: 0 }), y_axis: (V3 { x: 0, y: 1_000_000, z: 0 }), z_axis: (V3 { x: 0, y: 0, z: 1_000_000 }) },
            origin: (V3 { x: 0, y: 43_000, z: 0 }),
        },
        BoneName::RightIndexProximal => ProfilePoseS {
            basis: M3 { x_axis: (V3 { x: 1_000_000, y: 0, z: 0 }), y_axis: (V3 { x: 0, y: 1_000_000, z: 0 }), z_axis: (V3 { x: 0, y: 0, z: 1_000_000 }) },
            origin: (V3 { x: 25_000, y: 75_000, z: 0 }),
        },
        BoneName::RightIndexIntermediate => ProfilePoseS {
            basis: M3 { x_axis: (V3 { x: 1_000_000, y: 0, z: 0 }), y_axis: (V3 { x: 0, y: 1_000_000, z: 0 }), z_axis: (V3 { x: 0, y: 0, z: 1_000_000 }) },
            origin: (V3 { x: 0, y: 50_000, z: 0 }),
        },
        BoneName::RightIndexDistal => ProfilePoseS {
            basis: M3 { x_axis: (V3 { x: 1_000_000, y: 0, z: 0 }), y_axis: (V3 { x: 0, y: 1_000_000, z: 0 }), z_axis: (V3 { x: 0, y: 0, z: 1_000_000 }) },
            origin: (V3 { x: 0, y: 25_000, z: 0 }),
        },
        BoneName::RightMiddleProximal => ProfilePoseS {
            basis: M3 { x_axis: (V3 { x: 1_000_000, y: 0, z: 0 }), y_axis: (V3 { x: 0, y: 1_000_000, z: 0 }), z_axis: (V3 { x: 0, y: 0, z: 1_000_000 }) },
            origin: (V3 { x: 0, y: 75_000, z: 0 }),
        },
        BoneName::RightMiddleIntermediate => ProfilePoseS {
            basis: M3 { x_axis: (V3 { x: 1_000_000, y: 0, z: 0 }), y_axis: (V3 { x: 0, y: 1_000_000, z: 0 }), z_axis: (V3 { x: 0, y: 0, z: 1_000_000 }) },
            origin: (V3 { x: 0, y: 75_000, z: 0 }),
        },
        BoneName::RightMiddleDistal => ProfilePoseS {
            basis: M3 { x_axis: (V3 { x: 1_000_000, y: 0, z: 0 }), y_axis: (V3 { x: 0, y: 1_000_000, z: 0 }), z_axis: (V3 { x: 0, y: 0, z: 1_000_000 }) },
            origin: (V3 { x: 0, y: 25_000, z: 0 }),
        },
        BoneName::RightRingProximal => ProfilePoseS {
            basis: M3 { x_axis: (V3 { x: 1_000_000, y: 0, z: 0 }), y_axis: (V3 { x: 0, y: 1_000_000, z: 0 }), z_axis: (V3 { x: 0, y: 0, z: 1_000_000 }) },
            origin: (V3 { x: -25_000, y: 75_000, z: 0 }),
        },
        BoneName::RightRingIntermediate => ProfilePoseS {
            basis: M3 { x_axis: (V3 { x: 1_000_000, y: 0, z: 0 }), y_axis: (V3 { x: 0, y: 1_000_000, z: 0 }), z_axis: (V3 { x: 0, y: 0, z: 1_000_000 }) },
            origin: (V3 { x: 0, y: 50_000, z: 0 }),
        },
        BoneName::RightRingDistal => ProfilePoseS {
            basis: M3 { x_axis: (V3 { x: 1_000_000, y: 0, z: 0 }), y_axis: (V3 { x: 0, y: 1_000_000, z: 0 }), z_axis: (V3 { x: 0, y: 0, z: 1_000_000 }) },
            origin: (V3 { x: 0, y: 25_000, z: 0 }),
        },
        BoneName::RightLittleProximal => ProfilePoseS {
            basis: M3 { x_axis: (V3 { x: 1_000_000, y: 0, z: 0 }), y_axis: (V3 { x: 0, y: 1_000_000, z: 0 }), z_axis: (V3 { x: 0, y: 0, z: 1_000_000 }) },
            origin: (V3 { x: -50_000, y: 50_000, z: 0 }),
        },
        BoneName::RightLittleIntermediate => ProfilePoseS {
            basis: M3 { x_axis: (V3 { x: 1_000_000, y: 0, z: 0 }), y_axis: (V3 { x: 0, y: 1_000_000, z: 0 }), z_axis: (V3 { x: 0, y: 0, z: 1_000_000 }) },
            origin: (V3 { x: 0, y: 50_000, z: 0 }),
        },
        BoneName::RightLittleDistal => ProfilePoseS {
            basis: M3 { x_axis: (V3 { x: 1_000_000, y: 0, z: 0 }), y_axis: (V3 { x: 0, y: 1_000_000, z: 0 }), z_axis: (V3 { x: 0, y: 0, z: 1_000_000 }) },
            origin: (V3 { x: 0, y: 25_000, z: 0 }),
        },
        BoneName::LeftUpperLeg => ProfilePoseS {
            basis: M3 { x_axis: (V3 { x: -1_000_000, y: 0, z: 0 }), y_axis: (V3 { x: 0, y: -1_000_000, z: 0 }), z_axis: (V3 { x: 0, y: 0, z: 1_000_000 }) },
            origin: (V3 { x: 100_000, y: 0, z: 0 }),
        },
        BoneName::LeftLowerLeg => ProfilePoseS {
            basis: M3 { x_axis: (V3 { x: -1_000_000, y: 0, z: 0 }), y_axis: (V3 { x: 0, y: 1_000_000, z: 0 }), z_axis: (V3 { x: 0, y: 0, z: -1_000_000 }) },
            origin: (V3 { x: 0, y: 375_000, z: 0 }),
        },
        BoneName::LeftFoot => ProfilePoseS {
            basis: M3 { x_axis: (V3 { x: -1_000_000, y: 0, z: 0 }), y_axis: (V3 { x: 0, y: 0, z: -1_000_000 }), z_axis: (V3 { x: 0, y: -1_000_000, z: 0 }) },
            origin: (V3 { x: 0, y: 375_000, z: 0 }),
        },
        BoneName::LeftToes => ProfilePoseS {
            basis: M3 { x_axis: (V3 { x: -1_000_000, y: 0, z: 0 }), y_axis: (V3 { x: 0, y: 1_000_000, z: 0 }), z_axis: (V3 { x: 0, y: 0, z: -1_000_000 }) },
            origin: (V3 { x: 0, y: 150_000, z: 0 }),
        },
        BoneName::RightUpperLeg => ProfilePoseS {
            basis: M3 { x_axis: (V3 { x: -1_000_000, y: 0, z: 0 }), y_axis: (V3 { x: 0, y: -1_000_000, z: 0 }), z_axis: (V3 { x: 0, y: 0, z: 1_000_000 }) },
            origin: (V3 { x: -100_000, y: 0, z: 0 }),
        },
        BoneName::RightLowerLeg => ProfilePoseS {
            basis: M3 { x_axis: (V3 { x: -1_000_000, y: 0, z: 0 }), y_axis: (V3 { x: 0, y: 1_000_000, z: 0 }), z_axis: (V3 { x: 0, y: 0, z: -1_000_000 }) },
            origin: (V3 { x: 0, y: 375_000, z: 0 }),
        },
        BoneName::RightFoot => ProfilePoseS {
            basis: M3 { x_axis: (V3 { x: -1_000_000, y: 0, z: 0 }), y_axis: (V3 { x: 0, y: 0, z: -1_000_000 }), z_axis: (V3 { x: 0, y: -1_000_000, z: 0 }) },
            origin: (V3 { x: 0, y: 375_000, z: 0 }),
        },
        BoneName::RightToes => ProfilePoseS {
            basis: M3 { x_axis: (V3 { x: -1_000_000, y: 0, z: 0 }), y_axis: (V3 { x: 0, y: 1_000_000, z: 0 }), z_axis: (V3 { x: 0, y: 0, z: -1_000_000 }) },
            origin: (V3 { x: 0, y: 150_000, z: 0 }),
        },
    }
}

/// The rest pose of a bone in its parent's space.
pub fn profile_local(b: BoneName) -> (r: ProfilePose)
    ensures
        r@ == profile_local_s(b),
        m3_ok(r@.basis, 1_000_000),
        v3_ok(r@.origin, 1_000_000),
{
    proof {
        reveal(profile_local_s);
    }
    match b {
        BoneName::Hips => ProfilePose {
            basis: Mat3 { x_axis: Vec3 { x: 1_000_000, y: 0, z: 0 }, y_axis: Vec3 { x: 0, y: 1_000_000, z: 0 }, z_axis: Vec3 { x: 0, y: 0, z: 1_000_000 } },
            origin: Vec3 { x: 0, y: 750_000, z: 0 },
        },
        BoneName::Spine => ProfilePose {
            basis: Mat3 { x_axis: Vec3 { x: 1_000_000, y: 0, z: 0 }, y_axis: Vec3 { x: 0, y: 1_000_000, z: 0 }, z_axis: Vec3 { x: 0, y: 0, z: 1_000_000 } },
            origin: Vec3 { x: 0, y: 100_000, z: 0 },
        },
        BoneName::Chest => ProfilePose {
            basis: Mat3 { x_axis: Vec3 { x: 1_000_000, y: 0, z: 0 }, y_axis: Vec3 { x: 0, y: 1_000_000, z: 0 }, z_axis: Vec3 { x: 0, y: 0, z: 1_000_000 } },
            origin: Vec3 { x: 0, y: 100_000, z: 0 },
        },
        BoneName::UpperChest => ProfilePose {
            basis: Mat3 { x_axis: Vec3 { x: 1_000_000, y: 0, z: 0 }, y_axis: Vec3 { x: 0, y: 1_000_000, z: 0 }, z_axis: Vec3 { x: 0, y: 0, z: 1_000_000 } },
            origin: Vec3 { x: 0, y: 100_000, z: 0 },
        },
        BoneName::Neck => ProfilePose {
            basis: Mat3 { x_axis: Vec3 { x: 1_000_000, y: 0, z: 0 }, y_axis: Vec3 { x: 0, y: 1_000_000, z: 0 }, z_axis: Vec3 { x: 0, y: 0, z: 1_000_000 } },
            origin: Vec3 { x: 0, y: 100_000, z: 0 },
        },
        BoneName::Head => ProfilePose {
            basis: Mat3 { x_axis: Vec3 { x: 1_000_000, y: 0, z: 0 }, y_axis: Vec3 { x: 0, y: 1_000_000, z: 0 }, z_axis: Vec3 { x: 0, y: 0, z: 1_000_000 } },
            origin: Vec3 { x: 0, y: 100_000, z: 0 },
        },
        BoneName::LeftEye => ProfilePose {
            basis: Mat3 { x_axis: Vec3 { x: 1_000_000, y: 0, z: 0 }, y_axis: Vec3 { x: 0, y: 0, z: 1_000_000 }, z_axis: Vec3 { x: 0, y: -1_000_000, z: 0 } },
            origin: Vec3 { x: 50_000, y: 150_000, z: 0 },
        },
        BoneName::RightEye => ProfilePose {
            basis: Mat3 { x_axis: Vec3 { x: 1_000_000, y: 0, z: 0 }, y_axis: Vec3 { x: 0, y: 0, z: 1_000_000 }, z_axis: Vec3 { x: 0, y: -1_000_000, z: 0 } },
            origin: Vec3 { x: -50_000, y: 150_000, z: 0 },
        },
        BoneName::Jaw => ProfilePose {
            basis: Mat3 { x_axis: Vec3 { x: -1_000_000, y: 0, z: 0 }, y_axis: Vec3 { x: 0, y: 0, z: 1_000_000 }, z_axis: Vec3 { x: 0, y: 1_000_000, z: 0 } },
            origin: Vec3 { x: 0, y: 50_000, z: 50_000 },
        },
        BoneName::LeftShoulder => ProfilePose {
            basis: Mat3 { x_axis: Vec3 { x: 0, y: 0, z: 1_000_000 }, y_axis: Vec3 { x: 1_000_000, y: 0, z: 0 }, z_axis: Vec3 { x: 0, y: 1_000_000, z: 0 } },
            origin: Vec3 { x: 50_000, y: 100_000, z: 0 },
        },
        BoneName::LeftUpperArm => ProfilePose {
            basis: Mat3 { x_axis: Vec3 { x: -1_000_000, y: 0, z: 0 }, y_axis: Vec3 { x: 0, y: 1_000_000, z: 0 }, z_axis: Vec3 { x: 0, y: 0, z: -1_000_000 } },
            origin: Vec3 { x: 0, y: 50_000, z: 0 },
        },
        BoneName::LeftLowerArm => ProfilePose {
            basis: Mat3 { x_axis: Vec3 { x: 0, y: 0, z: 1_000_000 }, y_axis: Vec3 { x: 0, y: 1_000_000, z: 0 }, z_axis: Vec3 { x: -1_000_000, y: 0, z: 0 } },
            origin: Vec3 { x: 0, y: 250_000, z: 0 },
        },
        BoneName::LeftHand => ProfilePose {
            basis: Mat3 { x_axis: Vec3 { x: 0, y: 0, z: -1_000_000 }, y_axis: Vec3 { x: 0, y: 1_000_000, z: 0 }, z_axis: Vec3 { x: 1_000_000, y: 0, z: 0 } },
            origin: Vec3 { x: 0, y: 250_000, z: 0 },
        },
        BoneName::LeftThumbProximal => ProfilePose {
            basis: Mat3 { x_axis: Vec3 { x: 0, y: 0, z: -1_000_000 }, y_axis: Vec3 { x: -577_000, y: 816_000, z: 0 }, z_axis: Vec3 { x: 816_000, y: 577_000, z: 0 } },
            origin: Vec3 { x: -25_000, y: 25_000, z: 0 },
        },
        BoneName::LeftThumbIntermediate => ProfilePose {
            basis: Mat3 { x_axis: Vec3 { x: 1_000_000, y: 0, z: 0 }, y_axis: Vec3 { x: 0, y: 1_000_000, z: 0 }, z_axis: Vec3 { x: 0, y: 0, z: 1_000_000 } },
            origin: Vec3 { x: 0, y: 43_000, z: 0 },
        },
        BoneName::LeftThumbDistal => ProfilePose {
            basis: Mat3 { x_axis: Vec3 { x: 1_000_000, y: 0, z: 0 }, y_axis: Vec3 { x: 0, y: 1_000_000, z: 0 }, z_axis: Vec3 { x: 0, y: 0, z: 1_000_000 } },
            origin: Vec3 { x: 0, y: 43_000, z: 0 },
        },
        BoneName::LeftIndexProximal => ProfilePose {
            basis: Mat3 { x_axis: Vec3 { x: 1_000_000, y: 0, z: 0 }, y_axis: Vec3 { x: 0, y: 1_000_000, z: 0 }, z_axis: Vec3 { x: 0, y: 0, z: 1_000_000 } },
            origin: Vec3 { x: -25_000, y: 75_000, z: 0 },
        },
        BoneName::LeftIndexIntermediate => ProfilePose {
            basis: Mat3 { x_axis: Vec3 { x: 1_000_000, y: 0, z: 0 }, y_axis: Vec3 { x: 0, y: 1_000_000, z: 0 }, z_axis: Vec3 { x: 0, y: 0, z: 1_000_000 } },
            origin: Vec3 { x: 0, y: 50_000, z: 0 },
        },
        BoneName::LeftIndexDistal => ProfilePose {
            basis: Mat3 { x_axis: Vec3 { x: 1_000_000, y: 0, z: 0 }, y_axis: Vec3 { x: 0, y: 1_000_000, z: 0 }, z_axis: Vec3 { x: 0, y: 0, z: 1_000_000 } },
            origin: Vec3 { x: 0, y: 25_000, z: 0 },
        },
        BoneName::LeftMiddleProximal => ProfilePose {
            basis: Mat3 { x_axis: Vec3 { x: 1_000_000, y: 0, z: 0 }, y_axis: Vec3 { x: 0, y: 1_000_000, z: 0 }, z_axis: Vec3 { x: 0, y: 0, z: 1_000_000 } },
            origin: Vec3 { x: 0, y: 75_000, z: 0 },
        },
        BoneName::LeftMiddleIntermediate => ProfilePose {
            basis: Mat3 { x_axis: Vec3 { x: 1_000_000, y: 0, z: 0 }, y_axis: Vec3 { x: 0, y: 1_000_000, z: 0 }, z_axis: Vec3 { x: 0, y: 0, z: 1_000_000 } },
            origin: Vec3 { x: 0, y: 75_000, z: 0 },
        },
        BoneName::LeftMiddleDistal => ProfilePose {
            basis: Mat3 { x_axis: Vec3 { x: 1_000_000, y: 0, z: 0 }, y_axis: Vec3 { x: 0, y: 1_000_000, z: 0 }, z_axis: Vec3 { x: 0, y: 0, z: 1_000_000 } },
            origin: Vec3 { x: 0, y: 25_000, z: 0 },
        },
        BoneName::LeftRingProximal => ProfilePose {
            basis: Mat3 { x_axis: Vec3 { x: 1_000_000, y: 0, z: 0 }, y_axis: Vec3 { x: 0, y: 1_000_000, z: 0 }, z_axis: Vec3 { x: 0, y: 0, z: 1_000_000 } },
            origin: Vec3 { x: 25_000, y: 75_000, z: 0 },
        },
        BoneName::LeftRingIntermediate => ProfilePose {
            basis: Mat3 { x_axis: Vec3 { x: 1_000_000, y: 0, z: 0 }, y_axis: Vec3 { x: 0, y: 1_000_000, z: 0 }, z_axis: Vec3 { x: 0, y: 0, z: 1_000_000 } },
            origin: Vec3 { x: 0, y: 50_000, z: 0 },
        },
        BoneName::LeftRingDistal => ProfilePose {
            basis: Mat3 { x_axis: Vec3 { x: 1_000_000, y: 0, z: 0 }, y_axis: Vec3 { x: 0, y: 1_000_000, z: 0 }, z_axis: Vec3 { x: 0, y: 0, z: 1_000_000 } },
            origin: Vec3 { x: 0, y: 25_000, z: 0 },
        },
        BoneName::LeftLittleProximal => ProfilePose {
            basis: Mat3 { x_axis: Vec3 { x: 1_000_000, y: 0, z: 0 }, y_axis: Vec3 { x: 0, y: 1_000_000, z: 0 }, z_axis: Vec3 { x: 0, y: 0, z: 1_000_000 } },
            origin: Vec3 { x: 50_000, y: 50_000, z: 0 },
        },
        BoneName::LeftLittleIntermediate => ProfilePose {
            basis: Mat3 { x_axis: Vec3 { x: 1_000_000, y: 0, z: 0 }, y_axis: Vec3 { x: 0, y: 1_000_000, z: 0 }, z_axis: Vec3 { x: 0, y: 0, z: 1_000_000 } },
            origin: Vec3 { x: 0, y: 50_000, z: 0 },
        },
        BoneName::LeftLittleDistal => ProfilePose {
            basis: Mat3 { x_axis: Vec3 { x: 1_000_000, y: 0, z: 0 }, y_axis: Vec3 { x: 0, y: 1_000_000, z: 0 }, z_axis: Vec3 { x: 0, y: 0, z: 1_000_000 } },
            origin: Vec3 { x: 0, y: 25_000, z: 0 },
        },
        BoneName::RightShoulder => ProfilePose {
            basis: Mat3 { x_axis: Vec3 { x: 0, y: 0, z: -1_000_000 }, y_axis: Vec3 { x: -1_000_000, y: 0, z: 0 }, z_axis: Vec3 { x: 0, y: 1_000_000, z: 0 } },
            origin: Vec3 { x: -50_000, y: 100_000, z: 0 },
        },
        BoneName::RightUpperArm => ProfilePose {
            basis: Mat3 { x_axis: Vec3 { x: -1_000_000, y: 0, z: 0 }, y_axis: Vec3 { x: 0, y: 1_000_000, z: 0 }, z_axis: Vec3 { x: 0, y: 0, z: -1_000_000 } },
            origin: Vec3 { x: 0, y: 50_000, z: 0 },
        },
        BoneName::RightLowerArm => ProfilePose {
            basis: Mat3 { x_axis: Vec3 { x: 0, y: 0, z: -1_000_000 }, y_axis: Vec3 { x: 0, y: 1_000_000, z: 0 }, z_axis: Vec3 { x: 1_000_000, y: 0, z: 0 } },
            origin: Vec3 { x: 0, y: 250_000, z: 0 },
        },
        BoneName::RightHand => ProfilePose {
            basis: Mat3 { x_axis: Vec3 { x: 0, y: 0, z: 1_000_000 }, y_axis: Vec3 { x: 0, y: 1_000_000, z: 0 }, z_axis: Vec3 { x: -1_000_000, y: 0, z: 0 } },
            origin: Vec3 { x: 0, y: 250_000, z: 0 },
        },
        BoneName::RightThumbProximal => ProfilePose {
            basis: Mat3 { x_axis: Vec3 { x: 0, y: 0, z: 1_000_000 }, y_axis: Vec3 { x: 577_000, y: 816_000, z: 0 }, z_axis: Vec3 { x: -816_000, y: 577_000, z: 0 } },
            origin: Vec3 { x: 25_000, y: 25_000, z: 0 },
        },
        BoneName::RightThumbIntermediate => ProfilePose {
            basis: Mat3 { x_axis: Vec3 { x: 1_000_000, y: 0, z: 0 }, y_axis: Vec3 { x: 0, y: 1_000_000, z: 0 }, z_axis: Vec3 { x: 0, y: 0, z: 1_000_000 } },
            origin: Vec3 { x: 0, y: 43_000, z: 0 },
        },
        BoneName::RightThumbDistal => ProfilePose {
            basis: Mat3 { x_axis: Vec3 { x: 1_000_000, y: 0, z: 0 }, y_axis: Vec3 { x: 0, y: 1_000_000, z: 0 }, z_axis: Vec3 { x: 0, y: 0, z: 1_000_000 } },
            origin: Vec3 { x: 0, y: 43_000, z: 0 },
        },
        BoneName::RightIndexProximal => ProfilePose {
            basis: Mat3 { x_axis: Vec3 { x: 1_000_000, y: 0, z: 0 }, y_axis: Vec3 { x: 0, y: 1_000_000, z: 0 }, z_axis: Vec3 { x: 0, y: 0, z: 1_000_000 } },
            origin: Vec3 { x: 25_000, y: 75_000, z: 0 },
        },
        BoneName::RightIndexIntermediate => ProfilePose {
            basis: Mat3 { x_axis: Vec3 { x: 1_000_000, y: 0, z: 0 }, y_axis: Vec3 { x: 0, y: 1_000_000, z: 0 }, z_axis: Vec3 { x: 0, y: 0, z: 1_000_000 } },
            origin: Vec3 { x: 0, y: 50_000, z: 0 },
        },
        BoneName::RightIndexDistal => ProfilePose {
            basis: Mat3 { x_axis: Vec3 { x: 1_000_000, y: 0, z: 0 }, y_axis: Vec3 { x: 0, y: 1_000_000, z: 0 }, z_axis: Vec3 { x: 0, y: 0, z: 1_000_000 } },
            origin: Vec3 { x: 0, y: 25_000, z: 0 },
        },
        BoneName::RightMiddleProximal => ProfilePose {
            basis: Mat3 { x_axis: Vec3 { x: 1_000_000, y: 0, z: 0 }, y_axis: Vec3 { x: 0, y: 1_000_000, z: 0 }, z_axis: Vec3 { x: 0, y: 0, z: 1_000_000 } },
            origin: Vec3 { x: 0, y: 75_000, z: 0 },
        },
        BoneName::RightMiddleIntermediate => ProfilePose {
            basis: Mat3 { x_axis: Vec3 { x: 1_000_000, y: 0, z: 0 }, y_axis: Vec3 { x: 0, y: 1_000_000, z: 0 }, z_axis: Vec3 { x: 0, y: 0, z: 1_000_000 } },
            origin: Vec3 { x: 0, y: 75_000, z: 0 },
        },
        BoneName::RightMiddleDistal => ProfilePose {
            basis: Mat3 { x_axis: Vec3 { x: 1_000_000, y: 0, z: 0 }, y_axis: Vec3 { x: 0, y: 1_000_000, z: 0 }, z_axis: Vec3 { x: 0, y: 0, z: 1_000_000 } },
            origin: Vec3 { x: 0, y: 25_000, z: 0 },
        },
        BoneName::RightRingProximal => ProfilePose {
            basis: Mat3 { x_axis: Vec3 { x: 1_000_000, y: 0, z: 0 }, y_axis: Vec3 { x: 0, y: 1_000_000, z: 0 }, z_axis: Vec3 { x: 0, y: 0, z: 1_000_000 } },
            origin: Vec3 { x: -25_000, y: 75_000, z: 0 },
        },
        BoneName::RightRingIntermediate => ProfilePose {
            basis: Mat3 { x_axis: Vec3 { x: 1_000_000, y: 0, z: 0 }, y_axis: Vec3 { x: 0, y: 1_000_000, z: 0 }, z_axis: Vec3 { x: 0, y: 0, z: 1_000_000 } },
            origin: Vec3 { x: 0, y: 50_000, z: 0 },
        },
        BoneName::RightRingDistal => ProfilePose {
            basis: Mat3 { x_axis: Vec3 { x: 1_000_000, y: 0, z: 0 }, y_axis: Vec3 { x: 0, y: 1_000_000, z: 0 }, z_axis: Vec3 { x: 0, y: 0, z: 1_000_000 } },
            origin: Vec3 { x: 0, y: 25_000, z: 0 },
        },
        BoneName::RightLittleProximal => ProfilePose {
            basis: Mat3 { x_axis: Vec3 { x: 1_000_000, y: 0, z: 0 }, y_axis: Vec3 { x: 0, y: 1_000_000, z: 0 }, z_axis: Vec3 { x: 0, y: 0, z: 1_000_000 } },
            origin: Vec3 { x: -50_000, y: 50_000, z: 0 },
        },
        BoneName::RightLittleIntermediate => ProfilePose {
            basis: Mat3 { x_axis: Vec3 { x: 1_000_000, y: 0, z: 0 }, y_axis: Vec3 { x: 0, y: 1_000_000, z: 0 }, z_axis: Vec3 { x: 0, y: 0, z: 1_000_000 } },
            origin: Vec3 { x: 0, y: 50_000, z: 0 },
        },
        BoneName::RightLittleDistal => ProfilePose {
            basis: Mat3 { x_axis: Vec3 { x: 1_000_000, y: 0, z: 0 }, y_axis: Vec3 { x: 0, y: 1_000_000, z: 0 }, z_axis: Vec3 { x: 0, y: 0, z: 1_000_000 } },
            origin: Vec3 { x: 0, y: 25_000, z: 0 },
        },
        BoneName::LeftUpperLeg => ProfilePose {
            basis: Mat3 { x_axis: Vec3 { x: -1_000_000, y: 0, z: 0 }, y_axis: Vec3 { x: 0, y: -1_000_000, z: 0 }, z_axis: Vec3 { x: 0, y: 0, z: 1_000_000 } },
            origin: Vec3 { x: 100_000, y: 0, z: 0 },
        },
        BoneName::LeftLowerLeg => ProfilePose {
            basis: Mat3 { x_axis: Vec3 { x: -1_000_000, y: 0, z: 0 }, y_axis: Vec3 { x: 0, y: 1_000_000, z: 0 }, z_axis: Vec3 { x: 0, y: 0, z: -1_000_000 } },
            origin: Vec3 { x: 0, y: 375_000, z: 0 },
        },
        BoneName::LeftFoot => ProfilePose {
            basis: Mat3 { x_axis: Vec3 { x: -1_000_000, y: 0, z: 0 }, y_axis: Vec3 { x: 0, y: 0, z: -1_000_000 }, z_axis: Vec3 { x: 0, y: -1_000_000, z: 0 } },
            origin: Vec3 { x: 0, y: 375_000, z: 0 },
        },
        BoneName::LeftToes => ProfilePose {
            basis: Mat3 { x_axis: Vec3 { x: -1_000_000, y: 0, z: 0 }, y_axis: Vec3 { x: 0, y: 1_000_000, z: 0 }, z_axis: Vec3 { x: 0, y: 0, z: -1_000_000 } },
            origin: Vec3 { x: 0, y: 150_000, z: 0 },
        },
        BoneName::RightUpperLeg => ProfilePose {
            basis: Mat3 { x_axis: Vec3 { x: -1_000_000, y: 0, z: 0 }, y_axis: Vec3 { x: 0, y: -1_000_000, z: 0 }, z_axis: Vec3 { x: 0, y: 0, z: 1_000_000 } },
            origin: Vec3 { x: -100_000, y: 0, z: 0 },
        },
        BoneName::RightLowerLeg => ProfilePose {
            basis: Mat3 { x_axis: Vec3 { x: -1_000_000, y: 0, z: 0 }, y_axis: Vec3 { x: 0, y: 1_000_000, z: 0 }, z_axis: Vec3 { x: 0, y: 0, z: -1_000_000 } },
            origin: Vec3 { x: 0, y: 375_000, z: 0 },
        },
        BoneName::RightFoot => ProfilePose {
            basis: Mat3 { x_axis: Vec3 { x: -1_000_000, y: 0, z: 0 }, y_axis: Vec3 { x: 0, y: 0, z: -1_000_000 }, z_axis: Vec3 { x: 0, y: -1_000_000, z: 0 } },
            origin: Vec3 { x: 0, y: 375_000, z: 0 },
        },
        BoneName::RightToes => ProfilePose {
            basis: Mat3 { x_axis: Vec3 { x: -1_000_000, y: 0, z: 0 }, y_axis: Vec3 { x: 0, y: 1_000_000, z: 0 }, z_axis: Vec3 { x: 0, y: 0, z: -1_000_000 } },
            origin: Vec3 { x: 0, y: 150_000, z: 0 },
        },
    }
}

/// Composition of a parent's pose with a child's local pose: bases
/// multiplied, the child's origin carried through the parent.
pub open spec fn profile_compose_s(g: ProfilePoseS, l: ProfilePoseS) -> ProfilePoseS {
    ProfilePoseS {
        basis: m3_mul_s(g.basis, l.basis),
        origin: v3_add_s(g.origin, m3_apply_s(g.basis, l.origin)),
    }
}

/// A pose stays inside the profile envelope: near-unit basis entries, origin
/// within four units.
pub open spec fn profile_pose_ok_s(p: ProfilePoseS) -> bool {
    &&& m3_ok(p.basis, 1_100_000)
    &&& v3_ok(p.origin, 4_000_000)
}

/// The rest pose of a bone composed down from the root, `None` if a
/// composition leaves the profile envelope.
pub open spec fn profile_global_s(b: BoneName) -> Option<ProfilePoseS>
    decreases bone_depth_s(b),
{
    if bone_parent_s(b) is Some && bone_depth_s(bone_parent_s(b).unwrap()) < bone_depth_s(b) {
        match profile_global_s(bone_parent_s(b).unwrap()) {
            None => None,
            Some(g) => {
                let c = profile_compose_s(g, profile_local_s(b));
                if profile_pose_ok_s(c) {
                    Some(c)
                } else {
                    None
                }
            },
        }
    } else {
        Some(profile_local_s(b))
    }
}

/// The rest pose of a bone composed down from the root.
#[verifier::rlimit(100)]
#[verifier::spinoff_prover]
pub fn profile_global(b: BoneName) -> (r: Option<ProfilePose>)
    ensures
        (r is Some) == (profile_global_s(b) is Some),
        r is Some ==> r.unwrap()@ == profile_global_s(b).unwrap(),
        r is Some ==> profile_pose_ok_s(r.unwrap()@),
    decreases bone_depth_s(b),
{
    proof {
        lemma_parent_depth(b);
    }
    match bone_parent(b) {
        None => Some(profile_local(b)),
        Some(p) => {
            match profile_global(p) {
                None => None,
                Some(g) => {
                    let l: ProfilePose = profile_local(b);
                    let basis: Mat3 = mat3_mul(&g.basis, &l.basis);
                    let moved: Vec3 = mat3_apply(&g.basis, &l.origin);
                    proof {
                        crate::mat3::lemma_m3_apply_bound(g@.basis, l@.origin, 1_100_000, 1_000_000);
                    }
                    let origin: Vec3 = vec3_add(&g.origin, &moved);
                    let c: ProfilePose = ProfilePose { basis, origin };
                    if mat3_in_range(&c.basis, 1_100_000) && vec3_in_range(&c.origin, 4_000_000) {
                        Some(c)
                    } else {
                        None
                    }
                },
            }
        },
    }
}

/// The canonical humanoid rest profile, bone by bone in parent space.
pub struct SkeletonProfileHumanoid {
}

/// The canonical humanoid rest profile, composed to root space.
pub struct SkeletonProfileHumanoidGlobal {
}

impl Default for SkeletonProfileHumanoid {
    /// The canonical profile.
    fn default() -> (r: Self) {
        SkeletonProfileHumanoid {  }
    }
}

impl SkeletonProfileHumanoid {
    /// The rest pose of `b` in its parent's space.
    pub fn get(&self, b: BoneName) -> (r: ProfilePose)
        ensures
            r@ == profile_local_s(b),
    {
        profile_local(b)
    }
}

impl Default for SkeletonProfileHumanoidGlobal {
    /// The canonical profile, composed to root space.
    fn default() -> (r: Self) {
        SkeletonProfileHumanoidGlobal {  }
    }
}

impl SkeletonProfileHumanoidGlobal {
    /// The rest pose of `b` composed down from the root.
    pub fn get(&self, b: BoneName) -> (r: Option<ProfilePose>)
        ensures
            (r is Some) == (profile_global_s(b) is Some),
            r is Some ==> r.unwrap()@ == profile_global_s(b).unwrap(),
    {
        profile_global(b)
    }
}

} // verus!
