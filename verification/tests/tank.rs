use physics_bridge::tank::VehicleDriveTankControlModel;

#[test]
fn control_model_to_u32() {
    assert_eq!(VehicleDriveTankControlModel::Standard.to_u32(), 0);
    assert_eq!(VehicleDriveTankControlModel::Special.to_u32(), 1);
}

#[test]
fn control_model_from_u32() {
    assert_eq!(
        VehicleDriveTankControlModel::from_u32(0),
        VehicleDriveTankControlModel::Standard
    );
    assert_eq!(
        VehicleDriveTankControlModel::from_u32(1),
        VehicleDriveTankControlModel::Special
    );
}

#[test]
fn control_model_round_trip() {
    for m in [
        VehicleDriveTankControlModel::Standard,
        VehicleDriveTankControlModel::Special,
    ] {
        assert_eq!(VehicleDriveTankControlModel::from_u32(m.to_u32()), m);
    }
    for v in [0u32, 1u32] {
        assert_eq!(VehicleDriveTankControlModel::from_u32(v).to_u32(), v);
    }
}
