use physics_bridge::bridge::IntoBevyQuat;
use physics_bridge::bridge::IntoBevyTransform;
use physics_bridge::bridge::IntoBevyVec3;
use physics_bridge::bridge::IntoPxQuat;
use physics_bridge::bridge::IntoPxTransform;
use physics_bridge::bridge::IntoPxVec3;
use physics_bridge::bridge::GlobalTransform;
use physics_bridge::bridge::PxQuat;
use physics_bridge::bridge::PxTransform;
use physics_bridge::bridge::PxVec3;
use physics_bridge::bridge::Quat;
use physics_bridge::bridge::SCALAR_ONE_BITS;
use physics_bridge::bridge::Transform;
use physics_bridge::bridge::Vec3;

fn v3(x: f32, y: f32, z: f32) -> Vec3 {
    Vec3 {
        x: x.to_bits(),
        y: y.to_bits(),
        z: z.to_bits(),
    }
}

fn q4(x: f32, y: f32, z: f32, w: f32) -> Quat {
    Quat {
        x: x.to_bits(),
        y: y.to_bits(),
        z: z.to_bits(),
        w: w.to_bits(),
    }
}

#[test]
fn scalar_one_is_the_unit_scale() {
    assert_eq!(SCALAR_ONE_BITS, 1.0f32.to_bits());
}

#[test]
fn vec3_to_physx_keeps_components() {
    let v = v3(1.5, -2.0, 0.25);
    let p = v.to_physx();
    assert_eq!(p.x, 1.5f32.to_bits());
    assert_eq!(p.y, (-2.0f32).to_bits());
    assert_eq!(p.z, 0.25f32.to_bits());
}

#[test]
fn px_vec3_to_bevy_keeps_components() {
    let p = PxVec3 {
        x: 3.0f32.to_bits(),
        y: 4.0f32.to_bits(),
        z: 5.0f32.to_bits(),
    };
    let v = p.to_bevy();
    assert_eq!(v, v3(3.0, 4.0, 5.0));
}

#[test]
fn vec3_round_trip() {
    let v = v3(-0.5, 1e10, 7.0);
    assert_eq!(v.to_physx().to_bevy(), v);
    let p = PxVec3 {
        x: 9.0f32.to_bits(),
        y: 0,
        z: 1,
    };
    assert_eq!(p.to_bevy().to_physx(), p);
}

#[test]
fn quat_round_trip() {
    let q = q4(0.0, 0.3826834, 0.0, 0.9238795);
    let p = q.to_physx();
    assert_eq!(p.x, q.x);
    assert_eq!(p.y, q.y);
    assert_eq!(p.z, q.z);
    assert_eq!(p.w, q.w);
    assert_eq!(p.to_bevy(), q);
    let pq = PxQuat {
        x: 1,
        y: 2,
        z: 3,
        w: 4,
    };
    assert_eq!(pq.to_bevy().to_physx(), pq);
}

#[test]
fn transform_to_physx_drops_scale() {
    let t = Transform {
        translation: v3(1.0, 2.0, 3.0),
        rotation: q4(0.0, 0.0, 0.0, 1.0),
        scale: v3(2.0, 2.0, 2.0),
    };
    let p = t.to_physx();
    assert_eq!(p.p, t.translation.to_physx());
    assert_eq!(p.q, t.rotation.to_physx());
}

#[test]
fn global_transform_to_physx_drops_scale() {
    let g = GlobalTransform {
        translation: v3(-4.0, 0.5, 8.0),
        rotation: q4(0.5, 0.5, 0.5, 0.5),
        scale: v3(3.0, 1.0, 1.0),
    };
    let p = g.to_physx();
    assert_eq!(p.p, g.translation.to_physx());
    assert_eq!(p.q, g.rotation.to_physx());
}

#[test]
fn px_transform_to_bevy_sets_unit_scale() {
    let p = PxTransform {
        p: PxVec3 {
            x: 1.0f32.to_bits(),
            y: 2.0f32.to_bits(),
            z: 3.0f32.to_bits(),
        },
        q: PxQuat {
            x: 0,
            y: 0,
            z: 0,
            w: 1.0f32.to_bits(),
        },
    };
    let t = p.to_bevy();
    assert_eq!(t.translation, p.p.to_bevy());
    assert_eq!(t.rotation, p.q.to_bevy());
    assert_eq!(t.scale, Vec3::splat(1.0f32.to_bits()));
}

#[test]
fn transform_round_trip_keeps_pose_and_resets_scale() {
    let t = Transform {
        translation: v3(10.0, 20.0, 30.0),
        rotation: q4(0.1, 0.2, 0.3, 0.9),
        scale: v3(5.0, 5.0, 5.0),
    };
    let back = t.to_physx().to_bevy();
    assert_eq!(back.translation, t.translation);
    assert_eq!(back.rotation, t.rotation);
    assert_eq!(back.scale, v3(1.0, 1.0, 1.0));

    let p = PxTransform {
        p: PxVec3 { x: 7, y: 8, z: 9 },
        q: PxQuat {
            x: 4,
            y: 3,
            z: 2,
            w: 1,
        },
    };
    assert_eq!(p.to_bevy().to_physx(), p);
}

#[test]
fn splat_fills_all_components() {
    let v = Vec3::splat(0.5f32.to_bits());
    assert_eq!(v.x, 0.5f32.to_bits());
    assert_eq!(v.y, 0.5f32.to_bits());
    assert_eq!(v.z, 0.5f32.to_bits());
}
