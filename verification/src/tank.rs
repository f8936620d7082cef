//! The control model of a tank vehicle and its numeric encoding.
//!
//! The native engine stores the control model as a plain 32-bit integer; this
//! module owns the mapping between that integer and the typed model, so that
//! every value crossing the boundary is either a known variant or rejected.

use vstd::prelude::*;

verus! {

/// How the driver's inputs steer a tank vehicle.
///
/// `Standard` turns by slowing one track; `Special` allows the tracks to spin
/// in opposite directions.
#[derive(Debug, Copy, Clone, PartialEq, Eq, Structural)]
pub enum VehicleDriveTankControlModel {
    Standard,
    Special,
}

/// The integer the native engine uses for a control model.
pub open spec fn control_model_encoding(m: VehicleDriveTankControlModel) -> u32 {
    match m {
        VehicleDriveTankControlModel::Standard => 0,
        VehicleDriveTankControlModel::Special => 1,
    }
}

/// The control model a native-engine integer denotes, if any.
pub open spec fn control_model_of(v: u32) -> Option<VehicleDriveTankControlModel> {
    if v == 0 {
        Some(VehicleDriveTankControlModel::Standard)
    } else if v == 1 {
        Some(VehicleDriveTankControlModel::Special)
    } else {
        None
    }
}

impl VehicleDriveTankControlModel {
    /// The integer handed to the native engine for this model.
    pub fn to_u32(self) -> (r: u32)
        ensures
            r == control_model_encoding(self),
    {
        match self {
            VehicleDriveTankControlModel::Standard => 0,
            VehicleDriveTankControlModel::Special => 1,
        }
    }

    /// The model a native-engine integer denotes. Values outside the engine's
    /// published range denote no model and are not accepted.
    pub fn from_u32(v: u32) -> (r: Self)
        requires
            control_model_of(v) is Some,
        ensures
            Some(r) == control_model_of(v),
    {
        if v == 0 {
            VehicleDriveTankControlModel::Standard
        } else {
            VehicleDriveTankControlModel::Special
        }
    }
}

/// Encoding a control model and decoding the integer again yields the same
/// model, and decoding an in-range integer and encoding the model again yields
/// the same integer: the numeric encoding round-trips.
pub proof fn lemma_control_model_round_trip(m: VehicleDriveTankControlModel, v: u32)
    requires
        control_model_of(v) is Some,
    ensures
        control_model_of(control_model_encoding(m)) == Some(m),
        control_model_encoding(control_model_of(v)->Some_0) == v,
{
}

} // verus!
