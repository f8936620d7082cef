use physics_bridge::actors::ActorConfig;
use physics_bridge::actors::ActorHandleKind;
use physics_bridge::actors::Velocity;
use physics_bridge::actors::plan_actor_creation;
use physics_bridge::actors::plan_shape_visit;
use physics_bridge::bridge::Vec3;

fn vel() -> Velocity {
    Velocity::new(
        Vec3 {
            x: 1.0f32.to_bits(),
            y: 0,
            z: 0,
        },
        Vec3 { x: 0, y: 0, z: 0 },
    )
}

#[test]
fn velocity_new_keeps_parts() {
    let v = vel();
    assert_eq!(v.linvel.x, 1.0f32.to_bits());
    assert_eq!(v.angvel, Vec3 { x: 0, y: 0, z: 0 });
}

#[test]
fn dynamic_actor_gets_mass_update_and_velocity() {
    let density = 2.5f32.to_bits();
    let plan = plan_actor_creation(ActorConfig::Dynamic { density }, Some(vel()));
    assert_eq!(plan.handle, ActorHandleKind::RigidDynamic);
    assert!(plan.attach_nested_shapes);
    assert_eq!(plan.update_mass_density, Some(density));
    assert_eq!(plan.set_velocity, Some(vel()));
    assert!(!plan.warn_velocity_ignored);
}

#[test]
fn dynamic_actor_without_velocity_sets_none() {
    let plan = plan_actor_creation(ActorConfig::Dynamic { density: 0 }, None);
    assert_eq!(plan.set_velocity, None);
    assert!(!plan.warn_velocity_ignored);
}

#[test]
fn static_actor_ignores_velocity_with_warning() {
    let plan = plan_actor_creation(ActorConfig::Static, Some(vel()));
    assert_eq!(plan.handle, ActorHandleKind::RigidStatic);
    assert!(plan.attach_nested_shapes);
    assert_eq!(plan.update_mass_density, None);
    assert_eq!(plan.set_velocity, None);
    assert!(plan.warn_velocity_ignored);
}

#[test]
fn static_actor_without_velocity_does_not_warn() {
    let plan = plan_actor_creation(ActorConfig::Static, None);
    assert!(!plan.warn_velocity_ignored);
}

#[test]
fn plane_gets_static_handle_and_no_shape_gathering() {
    let plane = ActorConfig::Plane {
        normal: Vec3 {
            x: 0,
            y: 1.0f32.to_bits(),
            z: 0,
        },
        offset: 0,
        material: 7,
    };
    let plan = plan_actor_creation(plane, Some(vel()));
    assert_eq!(plan.handle, ActorHandleKind::RigidStatic);
    assert!(!plan.attach_nested_shapes);
    assert_eq!(plan.update_mass_density, None);
    assert_eq!(plan.set_velocity, None);
    assert!(plan.warn_velocity_ignored);
}

#[test]
fn nested_actor_prunes_the_shape_walk() {
    let plan = plan_shape_visit(1, true, true, true);
    assert!(plan.prune);
    assert!(!plan.attach_shape);
    assert!(!plan.set_local_pose);
}

#[test]
fn root_actor_is_not_pruned() {
    let plan = plan_shape_visit(0, true, true, true);
    assert!(!plan.prune);
    assert!(plan.attach_shape);
    assert!(plan.set_local_pose);
}

#[test]
fn shape_without_transform_gets_no_local_pose() {
    let plan = plan_shape_visit(0, false, true, false);
    assert!(!plan.prune);
    assert!(plan.attach_shape);
    assert!(!plan.set_local_pose);
}

#[test]
fn entity_without_shape_attaches_nothing() {
    let plan = plan_shape_visit(2, false, false, true);
    assert!(!plan.prune);
    assert!(!plan.attach_shape);
    assert!(!plan.set_local_pose);
}

#[test]
fn writeback_writes_only_changed_values() {
    let plan = physics_bridge::actors::plan_writeback(true, false, false, true, true);
    assert!(!plan.correct_into_parent_space);
    assert!(!plan.write_transform);
    assert!(plan.write_velocity);
}

#[test]
fn writeback_corrects_into_parent_space_only_with_known_parent_pose() {
    let plan = physics_bridge::actors::plan_writeback(true, true, true, false, false);
    assert!(plan.correct_into_parent_space);
    assert!(plan.write_transform);
    assert!(!plan.write_velocity);

    let orphan = physics_bridge::actors::plan_writeback(true, false, true, false, false);
    assert!(!orphan.correct_into_parent_space);
    assert!(orphan.write_transform);
}

#[test]
fn writeback_skips_entities_without_components() {
    let plan = physics_bridge::actors::plan_writeback(false, true, true, false, true);
    assert!(!plan.write_transform);
    assert!(!plan.write_velocity);
    assert!(!plan.correct_into_parent_space);
}
