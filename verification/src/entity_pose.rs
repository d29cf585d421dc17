//! The poses of entities.

use vstd::prelude::*;

verus! {

/// The pose an entity is drawn in.
#[derive(Debug, Clone, Copy, PartialEq, Eq, Structural)]
pub enum EntityPose {
    Standing,
    Gliding,
    Sleeping,
    Swimming,
    SpinAttack,
    Crouching,
    LongJumping,
    Dying,
    Croaking,
    UsingTongue,
    Sitting,
    Roaring,
    Sniffing,
    Emerging,
    Digging,
    Sliding,
    Shooting,
    Inhaling,
}

/// Number of poses; the indices of the poses are `0..POSE_COUNT`.
pub const POSE_COUNT: u8 = 18;

impl EntityPose {
    /// The index of a pose: its position in the declaration order.
    pub open spec fn spec_index(self) -> u8 {
        match self {
            EntityPose::Standing => 0,
            EntityPose::Gliding => 1,
            EntityPose::Sleeping => 2,
            EntityPose::Swimming => 3,
            EntityPose::SpinAttack => 4,
            EntityPose::Crouching => 5,
            EntityPose::LongJumping => 6,
            EntityPose::Dying => 7,
            EntityPose::Croaking => 8,
            EntityPose::UsingTongue => 9,
            EntityPose::Sitting => 10,
            EntityPose::Roaring => 11,
            EntityPose::Sniffing => 12,
            EntityPose::Emerging => 13,
            EntityPose::Digging => 14,
            EntityPose::Sliding => 15,
            EntityPose::Shooting => 16,
            EntityPose::Inhaling => 17,
        }
    }

    /// The pose with a given index, if there is one.
    pub open spec fn spec_from_index(value: u8) -> Option<EntityPose> {
        match value {
            0 => Some(EntityPose::Standing),
            1 => Some(EntityPose::Gliding),
            2 => Some(EntityPose::Sleeping),
            3 => Some(EntityPose::Swimming),
            4 => Some(EntityPose::SpinAttack),
            5 => Some(EntityPose::Crouching),
            6 => Some(EntityPose::LongJumping),
            7 => Some(EntityPose::Dying),
            8 => Some(EntityPose::Croaking),
            9 => Some(EntityPose::UsingTongue),
            10 => Some(EntityPose::Sitting),
            11 => Some(EntityPose::Roaring),
            12 => Some(EntityPose::Sniffing),
            13 => Some(EntityPose::Emerging),
            14 => Some(EntityPose::Digging),
            15 => Some(EntityPose::Sliding),
            16 => Some(EntityPose::Shooting),
            17 => Some(EntityPose::Inhaling),
            _ => None,
        }
    }

    /// The name of a pose as the asset files spell it.
    pub open spec fn spec_name(self) -> Seq<char> {
        match self {
            EntityPose::Standing => "standing"@,
            EntityPose::Gliding => "fall_flying"@,
            EntityPose::Sleeping => "sleeping"@,
            EntityPose::Swimming => "swimming"@,
            EntityPose::SpinAttack => "spin_attack"@,
            EntityPose::Crouching => "crouching"@,
            EntityPose::LongJumping => "long_jumping"@,
            EntityPose::Dying => "dying"@,
            EntityPose::Croaking => "croaking"@,
            EntityPose::UsingTongue => "using_tongue"@,
            EntityPose::Sitting => "sitting"@,
            EntityPose::Roaring => "roaring"@,
            EntityPose::Sniffing => "sniffing"@,
            EntityPose::Emerging => "emerging"@,
            EntityPose::Digging => "digging"@,
            EntityPose::Sliding => "sliding"@,
            EntityPose::Shooting => "shooting"@,
            EntityPose::Inhaling => "inhaling"@,
        }
    }

    pub fn index(self) -> (i: u8)
        ensures
            i == self.spec_index(),
            i < POSE_COUNT,
    {
        match self {
            EntityPose::Standing => 0,
            EntityPose::Gliding => 1,
            EntityPose::Sleeping => 2,
            EntityPose::Swimming => 3,
            EntityPose::SpinAttack => 4,
            EntityPose::Crouching => 5,
            EntityPose::LongJumping => 6,
            EntityPose::Dying => 7,
            EntityPose::Croaking => 8,
            EntityPose::UsingTongue => 9,
            EntityPose::Sitting => 10,
            EntityPose::Roaring => 11,
            EntityPose::Sniffing => 12,
            EntityPose::Emerging => 13,
            EntityPose::Digging => 14,
            EntityPose::Sliding => 15,
            EntityPose::Shooting => 16,
            EntityPose::Inhaling => 17,
        }
    }

    pub fn from_index(value: u8) -> (pose: Option<EntityPose>)
        ensures
            pose == Self::spec_from_index(value),
            pose is Some <==> value < POSE_COUNT,
            pose matches Some(p) ==> p.spec_index() == value,
    {
        match value {
            0 => Some(EntityPose::Standing),
            1 => Some(EntityPose::Gliding),
            2 => Some(EntityPose::Sleeping),
            3 => Some(EntityPose::Swimming),
            4 => Some(EntityPose::SpinAttack),
            5 => Some(EntityPose::Crouching),
            6 => Some(EntityPose::LongJumping),
            7 => Some(EntityPose::Dying),
            8 => Some(EntityPose::Croaking),
            9 => Some(EntityPose::UsingTongue),
            10 => Some(EntityPose::Sitting),
            11 => Some(EntityPose::Roaring),
            12 => Some(EntityPose::Sniffing),
            13 => Some(EntityPose::Emerging),
            14 => Some(EntityPose::Digging),
            15 => Some(EntityPose::Sliding),
            16 => Some(EntityPose::Shooting),
            17 => Some(EntityPose::Inhaling),
            _ => None,
        }
    }

    pub fn as_str(self) -> (name: &'static str)
        ensures
            name@ == self.spec_name(),
    {
        match self {
            EntityPose::Standing => "standing",
            EntityPose::Gliding => "fall_flying",
            EntityPose::Sleeping => "sleeping",
            EntityPose::Swimming => "swimming",
            EntityPose::SpinAttack => "spin_attack",
            EntityPose::Crouching => "crouching",
            EntityPose::LongJumping => "long_jumping",
            EntityPose::Dying => "dying",
            EntityPose::Croaking => "croaking",
            EntityPose::UsingTongue => "using_tongue",
            EntityPose::Sitting => "sitting",
            EntityPose::Roaring => "roaring",
            EntityPose::Sniffing => "sniffing",
            EntityPose::Emerging => "emerging",
            EntityPose::Digging => "digging",
            EntityPose::Sliding => "sliding",
            EntityPose::Shooting => "shooting",
            EntityPose::Inhaling => "inhaling",
        }
    }
}

/// Reading a pose's index back gives the pose: `from_index` undoes `index`.
pub proof fn lemma_pose_index_round_trip(pose: EntityPose)
    ensures
        EntityPose::spec_from_index(pose.spec_index()) == Some(pose),
{
}

/// What an arm of a biped is doing, which decides how it is posed.
#[derive(Debug, Clone, Copy)]
pub enum ArmPose {
    Empty,
    Item,
    Block,
    BowAndArrow,
    ThrowSpear,
    CrossbowHold,
    Spyglass,
    TootHorn,
    Brush,
}

} // verus!
