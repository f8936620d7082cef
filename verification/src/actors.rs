//! Per-entity decisions of the scene synchronization passes.
//!
//! Each frame, a creation pass turns scene entities into native rigid bodies
//! and a write-back pass copies simulated poses into the scene. The native
//! calls themselves (body allocation, shape creation, mass recomputation,
//! stepping) happen outside this crate; this module owns what the passes
//! decide for one entity: which kind of body it gets, whether its descendant
//! shapes are gathered, whether mass is recomputed and velocities applied,
//! and when a supplied velocity is ignored with a warning.

use vstd::prelude::*;

use crate::bridge::ScalarBits;
use crate::bridge::Vec3;

verus! {

/// How an entity asks to take part in the simulation.
#[derive(Debug, Copy, Clone, PartialEq)]
pub enum ActorConfig {
    /// A dynamic rigid body; the native engine recomputes its mass and
    /// inertia from the attached shapes and this density.
    Dynamic { density: ScalarBits },
    /// A static rigid body built from the shapes on and beneath the entity.
    Static,
    /// An infinite static plane with the given normal and offset, using the
    /// material asset with the given identifier.
    Plane { normal: Vec3, offset: ScalarBits, material: u64 },
}

/// Linear and angular velocity carried on an entity.
#[derive(Debug, Copy, Clone, PartialEq, Eq, Structural)]
pub struct Velocity {
    pub linvel: Vec3,
    pub angvel: Vec3,
}

impl Velocity {
    /// The velocity with the given linear and angular parts.
    pub fn new(linvel: Vec3, angvel: Vec3) -> (r: Self)
        ensures
            r == (Velocity { linvel, angvel }),
    {
        Velocity { linvel, angvel }
    }
}

/// Which native-body handle the creation pass records on an entity.
#[derive(Debug, Copy, Clone, PartialEq, Eq, Structural)]
pub enum ActorHandleKind {
    RigidDynamic,
    RigidStatic,
}

/// Everything the creation pass decides for one new actor entity.
#[derive(Debug, Copy, Clone, PartialEq)]
pub struct ActorCreationPlan {
    /// Which handle component the entity receives.
    pub handle: ActorHandleKind,
    /// Whether the pass walks the entity's descendants and attaches their
    /// shapes to the new body.
    pub attach_nested_shapes: bool,
    /// The density with which the native engine recomputes the body's mass
    /// and inertia; dynamic bodies only.
    pub update_mass_density: Option<ScalarBits>,
    /// The velocity written onto the native body; dynamic bodies with a
    /// velocity component only.
    pub set_velocity: Option<Velocity>,
    /// Whether the pass warns that a velocity component on a static actor is
    /// ignored.
    pub warn_velocity_ignored: bool,
}

/// What the creation pass decides for an entity with actor configuration
/// `config` and, if present, velocity component `velocity`.
pub open spec fn actor_creation_plan(
    config: ActorConfig,
    velocity: Option<Velocity>,
) -> ActorCreationPlan {
    match config {
        ActorConfig::Dynamic { density } => ActorCreationPlan {
            handle: ActorHandleKind::RigidDynamic,
            attach_nested_shapes: true,
            update_mass_density: Some(density),
            set_velocity: velocity,
            warn_velocity_ignored: false,
        },
        ActorConfig::Static => ActorCreationPlan {
            handle: ActorHandleKind::RigidStatic,
            attach_nested_shapes: true,
            update_mass_density: None,
            set_velocity: None,
            warn_velocity_ignored: velocity is Some,
        },
        ActorConfig::Plane { .. } => ActorCreationPlan {
            handle: ActorHandleKind::RigidStatic,
            attach_nested_shapes: false,
            update_mass_density: None,
            set_velocity: None,
            warn_velocity_ignored: velocity is Some,
        },
    }
}

/// Decide what the creation pass does for one new actor entity: a dynamic
/// body gets a dynamic handle, gathered shapes, a mass recomputation and its
/// velocities; a static body gets a static handle and gathered shapes; a
/// plane gets a static handle and no shape gathering. A velocity supplied on
/// a static actor or plane is ignored with a warning.
pub fn plan_actor_creation(config: ActorConfig, velocity: Option<Velocity>) -> (r: ActorCreationPlan)
    ensures
        r == actor_creation_plan(config, velocity),
{
    match config {
        ActorConfig::Dynamic { density } => ActorCreationPlan {
            handle: ActorHandleKind::RigidDynamic,
            attach_nested_shapes: true,
            update_mass_density: Some(density),
            set_velocity: velocity,
            warn_velocity_ignored: false,
        },
        ActorConfig::Static => ActorCreationPlan {
            handle: ActorHandleKind::RigidStatic,
            attach_nested_shapes: true,
            update_mass_density: None,
            set_velocity: None,
            warn_velocity_ignored: velocity.is_some(),
        },
        ActorConfig::Plane { .. } => ActorCreationPlan {
            handle: ActorHandleKind::RigidStatic,
            attach_nested_shapes: false,
            update_mass_density: None,
            set_velocity: None,
            warn_velocity_ignored: velocity.is_some(),
        },
    }
}

/// What the write-back pass does for one simulated body each frame.
#[derive(Debug, Copy, Clone, PartialEq, Eq, Structural)]
pub struct WritebackPlan {
    /// Whether the fetched pose is first corrected into the parent's local
    /// space before being compared and written.
    pub correct_into_parent_space: bool,
    /// Whether the pose is written onto the entity's transform.
    pub write_transform: bool,
    /// Whether the fetched velocity is written onto the entity's velocity
    /// component.
    pub write_velocity: bool,
}

/// What the write-back pass decides for a body whose entity has (or lacks) a
/// transform component, a known parent pose, and a velocity component, given
/// whether the fetched pose and velocity differ from what the entity already
/// carries.
pub open spec fn writeback_plan(
    has_transform: bool,
    parent_pose_known: bool,
    pose_changed: bool,
    has_velocity: bool,
    velocity_changed: bool,
) -> WritebackPlan {
    WritebackPlan {
        correct_into_parent_space: has_transform && parent_pose_known,
        write_transform: has_transform && pose_changed,
        write_velocity: has_velocity && velocity_changed,
    }
}

/// Decide what the write-back pass does for one simulated body: a fetched
/// pose goes through the parent-space correction when the parent's pose is
/// known, and pose and velocity are written only onto entities that carry the
/// component and only when the value differs, so the scene's change tracking
/// is not tripped by an unchanged write. Whether the float values differ is
/// decided by the scene's own comparisons and handed in.
pub fn plan_writeback(
    has_transform: bool,
    parent_pose_known: bool,
    pose_changed: bool,
    has_velocity: bool,
    velocity_changed: bool,
) -> (r: WritebackPlan)
    ensures
        r == writeback_plan(
            has_transform,
            parent_pose_known,
            pose_changed,
            has_velocity,
            velocity_changed,
        ),
{
    WritebackPlan {
        correct_into_parent_space: has_transform && parent_pose_known,
        write_transform: has_transform && pose_changed,
        write_velocity: has_velocity && velocity_changed,
    }
}

/// What the shape-gathering walk does at one visited entity.
#[derive(Debug, Copy, Clone, PartialEq, Eq, Structural)]
pub struct ShapeVisitPlan {
    /// Stop at this entity: below the root, an entity with its own actor
    /// configuration starts its own body and is not merged into this one.
    pub prune: bool,
    /// Create the entity's shape and attach it to the body being built.
    pub attach_shape: bool,
    /// Give the attached shape its pose relative to the body's transform.
    pub set_local_pose: bool,
}

/// What the walk decides at depth `level` for an entity that has (or lacks)
/// its own actor configuration, a shape, and a world transform.
pub open spec fn shape_visit_plan(
    level: u32,
    is_actor: bool,
    has_shape: bool,
    has_transform: bool,
) -> ShapeVisitPlan {
    let prune = level > 0 && is_actor;
    ShapeVisitPlan {
        prune,
        attach_shape: !prune && has_shape,
        set_local_pose: !prune && has_shape && has_transform,
    }
}

/// Decide what the shape-gathering walk does at one visited entity: a nested
/// actor prunes the walk; otherwise an entity with a shape has it attached,
/// and posed locally when the entity's world transform is known.
pub fn plan_shape_visit(level: u32, is_actor: bool, has_shape: bool, has_transform: bool) -> (r:
    ShapeVisitPlan)
    ensures
        r == shape_visit_plan(level, is_actor, has_shape, has_transform),
{
    let prune = level > 0 && is_actor;
    ShapeVisitPlan {
        prune,
        attach_shape: !prune && has_shape,
        set_local_pose: !prune && has_shape && has_transform,
    }
}

} // verus!
