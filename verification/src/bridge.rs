//! Field mappings between the host engine's and the native engine's
//! transform representations.
//!
//! Both engines lay a pose out as scalar components; converting between them
//! moves each component into the other layout and never computes with it. A
//! component is therefore carried as its 32-bit machine word ([`ScalarBits`]),
//! and each conversion's contract pins exactly which word lands where.

use vstd::prelude::*;

verus! {

/// A scalar component (coordinate, rotation component, scale factor, rate).
/// The bridge only moves such values between layouts, so it carries each one
/// as its 32-bit machine word.
pub type ScalarBits = u32;

/// The machine word of the scalar one, the host engine's unit scale factor.
pub const SCALAR_ONE_BITS: ScalarBits = 0x3F80_0000;

/// A vector in the host engine's layout.
#[derive(Debug, Copy, Clone, PartialEq, Eq, Structural)]
pub struct Vec3 {
    pub x: ScalarBits,
    pub y: ScalarBits,
    pub z: ScalarBits,
}

/// A rotation quaternion in the host engine's layout.
#[derive(Debug, Copy, Clone, PartialEq, Eq, Structural)]
pub struct Quat {
    pub x: ScalarBits,
    pub y: ScalarBits,
    pub z: ScalarBits,
    pub w: ScalarBits,
}

/// An entity-local pose in the host engine's layout.
#[derive(Debug, Copy, Clone, PartialEq, Eq, Structural)]
pub struct Transform {
    pub translation: Vec3,
    pub rotation: Quat,
    pub scale: Vec3,
}

/// An entity's world pose in the host engine, already decomposed into scale,
/// rotation and translation.
#[derive(Debug, Copy, Clone, PartialEq, Eq, Structural)]
pub struct GlobalTransform {
    pub translation: Vec3,
    pub rotation: Quat,
    pub scale: Vec3,
}

/// A vector in the native engine's layout.
#[derive(Debug, Copy, Clone, PartialEq, Eq, Structural)]
pub struct PxVec3 {
    pub x: ScalarBits,
    pub y: ScalarBits,
    pub z: ScalarBits,
}

/// A rotation quaternion in the native engine's layout.
#[derive(Debug, Copy, Clone, PartialEq, Eq, Structural)]
pub struct PxQuat {
    pub x: ScalarBits,
    pub y: ScalarBits,
    pub z: ScalarBits,
    pub w: ScalarBits,
}

/// A rigid-body pose in the native engine's layout: position and rotation,
/// with no scale (the native engine simulates rigid bodies only).
#[derive(Debug, Copy, Clone, PartialEq, Eq, Structural)]
pub struct PxTransform {
    pub p: PxVec3,
    pub q: PxQuat,
}

/// The host scale vector whose every component is one.
pub open spec fn unit_scale() -> Vec3 {
    Vec3 { x: SCALAR_ONE_BITS, y: SCALAR_ONE_BITS, z: SCALAR_ONE_BITS }
}

impl Vec3 {
    /// The vector with all three components equal to `v`.
    pub fn splat(v: ScalarBits) -> (r: Vec3)
        ensures
            r == (Vec3 { x: v, y: v, z: v }),
    {
        Vec3 { x: v, y: v, z: v }
    }
}

/// Conversion into the native engine's vector layout.
pub trait IntoPxVec3 {
    /// The native vector this value converts to.
    spec fn px_vec3(&self) -> PxVec3;

    /// Convert into the native engine's vector layout.
    fn to_physx(&self) -> (r: PxVec3)
        ensures
            r == self.px_vec3(),
    ;
}

/// Conversion into the host engine's vector layout.
pub trait IntoBevyVec3 {
    /// The host vector this value converts to.
    spec fn bevy_vec3(&self) -> Vec3;

    /// Convert into the host engine's vector layout.
    fn to_bevy(&self) -> (r: Vec3)
        ensures
            r == self.bevy_vec3(),
    ;
}

/// Conversion into the native engine's quaternion layout.
pub trait IntoPxQuat {
    /// The native quaternion this value converts to.
    spec fn px_quat(&self) -> PxQuat;

    /// Convert into the native engine's quaternion layout.
    fn to_physx(&self) -> (r: PxQuat)
        ensures
            r == self.px_quat(),
    ;
}

/// Conversion into the host engine's quaternion layout.
pub trait IntoBevyQuat {
    /// The host quaternion this value converts to.
    spec fn bevy_quat(&self) -> Quat;

    /// Convert into the host engine's quaternion layout.
    fn to_bevy(&self) -> (r: Quat)
        ensures
            r == self.bevy_quat(),
    ;
}

/// Conversion into the native engine's pose layout.
pub trait IntoPxTransform {
    /// The native pose this value converts to.
    spec fn px_transform(&self) -> PxTransform;

    /// Convert into the native engine's pose layout.
    fn to_physx(&self) -> (r: PxTransform)
        ensures
            r == self.px_transform(),
    ;
}

/// Conversion into the host engine's pose layout.
pub trait IntoBevyTransform {
    /// The host pose this value converts to.
    spec fn bevy_transform(&self) -> Transform;

    /// Convert into the host engine's pose layout.
    fn to_bevy(&self) -> (r: Transform)
        ensures
            r == self.bevy_transform(),
    ;
}

impl IntoPxVec3 for Vec3 {
    open spec fn px_vec3(&self) -> PxVec3 {
        PxVec3 { x: self.x, y: self.y, z: self.z }
    }

    fn to_physx(&self) -> (r: PxVec3) {
        PxVec3 { x: self.x, y: self.y, z: self.z }
    }
}

impl IntoBevyVec3 for PxVec3 {
    open spec fn bevy_vec3(&self) -> Vec3 {
        Vec3 { x: self.x, y: self.y, z: self.z }
    }

    fn to_bevy(&self) -> (r: Vec3) {
        Vec3 { x: self.x, y: self.y, z: self.z }
    }
}

impl IntoPxQuat for Quat {
    open spec fn px_quat(&self) -> PxQuat {
        PxQuat { x: self.x, y: self.y, z: self.z, w: self.w }
    }

    fn to_physx(&self) -> (r: PxQuat) {
        PxQuat { x: self.x, y: self.y, z: self.z, w: self.w }
    }
}

impl IntoBevyQuat for PxQuat {
    open spec fn bevy_quat(&self) -> Quat {
        Quat { x: self.x, y: self.y, z: self.z, w: self.w }
    }

    fn to_bevy(&self) -> (r: Quat) {
        Quat { x: self.x, y: self.y, z: self.z, w: self.w }
    }
}

impl IntoPxTransform for Transform {
    /// The native pose keeps translation and rotation; the local scale has no
    /// place in a rigid-body pose and is left behind.
    open spec fn px_transform(&self) -> PxTransform {
        PxTransform { p: self.translation.px_vec3(), q: self.rotation.px_quat() }
    }

    fn to_physx(&self) -> (r: PxTransform) {
        PxTransform { p: self.translation.to_physx(), q: self.rotation.to_physx() }
    }
}

impl IntoPxTransform for GlobalTransform {
    /// The native pose keeps translation and rotation; the world scale has no
    /// place in a rigid-body pose and is left behind.
    open spec fn px_transform(&self) -> PxTransform {
        PxTransform { p: self.translation.px_vec3(), q: self.rotation.px_quat() }
    }

    fn to_physx(&self) -> (r: PxTransform) {
        PxTransform { p: self.translation.to_physx(), q: self.rotation.to_physx() }
    }
}

impl IntoBevyTransform for PxTransform {
    /// The host pose takes position and rotation from the native pose; the
    /// native engine stores no scale, so the host scale is set to one.
    open spec fn bevy_transform(&self) -> Transform {
        Transform {
            translation: self.p.bevy_vec3(),
            rotation: self.q.bevy_quat(),
            scale: unit_scale(),
        }
    }

    fn to_bevy(&self) -> (r: Transform) {
        Transform {
            translation: self.p.to_bevy(),
            rotation: self.q.to_bevy(),
            scale: Vec3::splat(SCALAR_ONE_BITS),
        }
    }
}

/// Vector conversion round-trips: a host vector sent to the native engine and
/// read back is unchanged, and so is a native vector sent the other way.
pub proof fn lemma_vec3_round_trip(v: Vec3, p: PxVec3)
    ensures
        v.px_vec3().bevy_vec3() == v,
        p.bevy_vec3().px_vec3() == p,
{
}

/// Quaternion conversion round-trips: a host quaternion sent to the native
/// engine and read back is unchanged, and so is a native quaternion sent the
/// other way.
pub proof fn lemma_quat_round_trip(q: Quat, p: PxQuat)
    ensures
        q.px_quat().bevy_quat() == q,
        p.bevy_quat().px_quat() == p,
{
}

/// Pose conversion round-trips on everything the native engine stores: a host
/// pose sent to the native engine and read back keeps its translation and
/// rotation and comes back with unit scale, and a native pose sent to the
/// host and back is unchanged.
pub proof fn lemma_transform_round_trip(t: Transform, p: PxTransform)
    ensures
        t.px_transform().bevy_transform().translation == t.translation,
        t.px_transform().bevy_transform().rotation == t.rotation,
        t.px_transform().bevy_transform().scale == unit_scale(),
        p.bevy_transform().px_transform() == p,
{
}

} // verus!
