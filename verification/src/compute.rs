//! Compute-related field domains: accelerator, CPU architecture, capacity
//! reservation and autoscaling strategy, plus the availability rules that
//! relate them.

use vstd::prelude::*;

verus! {

/// Hardware accelerator attached to the data-plane nodes.
#[derive(Clone, Copy, Debug, PartialEq, Eq, Structural)]
pub enum AcceleratorType {
    NoAccelerator,
    Nvidia,
    Neuron,
}

/// CPU architecture of the data-plane nodes.
#[derive(Clone, Copy, Debug, PartialEq, Eq, Structural)]
pub enum CpuArch {
    X8664,
    Arm64,
}

/// EC2 capacity reservation posture.
#[derive(Clone, Copy, Debug, PartialEq, Eq, Structural)]
pub enum ReservationType {
    NoReservation,
    OnDemandCapacityReservation,
    MlCapacityBlockReservation,
}

/// Compute autoscaling strategy.
#[derive(Clone, Copy, Debug, PartialEq, Eq, Structural)]
pub enum ScalingType {
    AutoMode,
    Karpenter,
    ClusterAutoscaler,
    NoAutoscaling,
}

/// All accelerator choices, in prompt order.
pub open spec fn accelerator_types_spec() -> Seq<AcceleratorType> {
    seq![AcceleratorType::NoAccelerator, AcceleratorType::Nvidia, AcceleratorType::Neuron]
}

/// Reservation choices legal for a given accelerator: an ML capacity block
/// reservation is only offerable when an accelerator is present.
pub open spec fn reservation_types_spec(accelerator: AcceleratorType) -> Seq<ReservationType> {
    match accelerator {
        AcceleratorType::Nvidia | AcceleratorType::Neuron => seq![
            ReservationType::NoReservation,
            ReservationType::OnDemandCapacityReservation,
            ReservationType::MlCapacityBlockReservation,
        ],
        AcceleratorType::NoAccelerator => seq![
            ReservationType::NoReservation,
            ReservationType::OnDemandCapacityReservation,
        ],
    }
}

/// Scaling strategies legal under a given reservation: any reservation
/// excludes Auto Mode (a reservation pins the instance shape, which dynamic
/// provisioning cannot honor), and an ML capacity block reservation also
/// excludes Karpenter.
pub open spec fn scaling_types_spec(reservation: ReservationType) -> Seq<ScalingType> {
    match reservation {
        ReservationType::NoReservation => seq![
            ScalingType::AutoMode,
            ScalingType::Karpenter,
            ScalingType::ClusterAutoscaler,
            ScalingType::NoAutoscaling,
        ],
        ReservationType::OnDemandCapacityReservation => seq![
            ScalingType::Karpenter,
            ScalingType::ClusterAutoscaler,
            ScalingType::NoAutoscaling,
        ],
        ReservationType::MlCapacityBlockReservation => seq![
            ScalingType::ClusterAutoscaler,
            ScalingType::NoAutoscaling,
        ],
    }
}

impl AcceleratorType {
    /// The accelerator at `idx` in the prompt order.
    pub fn from_idx(idx: usize) -> (r: AcceleratorType)
        requires
            idx < accelerator_types_spec().len(),
        ensures
            r == accelerator_types_spec()[idx as int],
    {
        if idx == 0 {
            AcceleratorType::NoAccelerator
        } else if idx == 1 {
            AcceleratorType::Nvidia
        } else {
            AcceleratorType::Neuron
        }
    }
}

impl CpuArch {
    /// The architecture at `idx` in the prompt order (x86-64 first).
    pub fn from_idx(idx: usize) -> (r: CpuArch)
        requires
            idx < 2,
        ensures
            r == (if idx == 0 { CpuArch::X8664 } else { CpuArch::Arm64 }),
    {
        if idx == 0 {
            CpuArch::X8664
        } else {
            CpuArch::Arm64
        }
    }
}

impl ReservationType {
    /// The reservation at `idx` in declaration order.
    pub fn from_idx(idx: usize) -> (r: ReservationType)
        requires
            idx < 3,
        ensures
            r == (if idx == 0 {
                ReservationType::NoReservation
            } else if idx == 1 {
                ReservationType::OnDemandCapacityReservation
            } else {
                ReservationType::MlCapacityBlockReservation
            }),
    {
        if idx == 0 {
            ReservationType::NoReservation
        } else if idx == 1 {
            ReservationType::OnDemandCapacityReservation
        } else {
            ReservationType::MlCapacityBlockReservation
        }
    }
}

impl ScalingType {
    /// The scaling strategy at `idx` in declaration order.
    pub fn from_idx(idx: usize) -> (r: ScalingType)
        requires
            idx < 4,
        ensures
            r == (if idx == 0 {
                ScalingType::AutoMode
            } else if idx == 1 {
                ScalingType::Karpenter
            } else if idx == 2 {
                ScalingType::ClusterAutoscaler
            } else {
                ScalingType::NoAutoscaling
            }),
    {
        if idx == 0 {
            ScalingType::AutoMode
        } else if idx == 1 {
            ScalingType::Karpenter
        } else if idx == 2 {
            ScalingType::ClusterAutoscaler
        } else {
            ScalingType::NoAutoscaling
        }
    }
}

/// Every accelerator choice, in prompt order.
pub fn get_accelerator_types() -> (r: Vec<AcceleratorType>)
    ensures
        r@ == accelerator_types_spec(),
{
    let mut r: Vec<AcceleratorType> = Vec::new();
    r.push(AcceleratorType::NoAccelerator);
    r.push(AcceleratorType::Nvidia);
    r.push(AcceleratorType::Neuron);
    proof {
        assert(r@ =~= accelerator_types_spec());
    }
    r
}

/// The reservation choices legal for the chosen accelerator.
pub fn get_reservation_types(accelerator: &AcceleratorType) -> (r: Vec<ReservationType>)
    ensures
        r@ == reservation_types_spec(*accelerator),
{
    let mut r: Vec<ReservationType> = Vec::new();
    r.push(ReservationType::NoReservation);
    r.push(ReservationType::OnDemandCapacityReservation);
    match accelerator {
        AcceleratorType::Nvidia | AcceleratorType::Neuron => {
            r.push(ReservationType::MlCapacityBlockReservation);
        }
        AcceleratorType::NoAccelerator => {}
    }
    proof {
        assert(r@ =~= reservation_types_spec(*accelerator));
    }
    r
}

/// The scaling strategies legal under the chosen reservation.
pub fn get_compute_scaling_types(reservation: &ReservationType) -> (r: Vec<ScalingType>)
    ensures
        r@ == scaling_types_spec(*reservation),
{
    let mut r: Vec<ScalingType> = Vec::new();
    match reservation {
        ReservationType::NoReservation => {
            r.push(ScalingType::AutoMode);
            r.push(ScalingType::Karpenter);
        }
        ReservationType::OnDemandCapacityReservation => {
            r.push(ScalingType::Karpenter);
        }
        ReservationType::MlCapacityBlockReservation => {}
    }
    r.push(ScalingType::ClusterAutoscaler);
    r.push(ScalingType::NoAutoscaling);
    proof {
        assert(r@ =~= scaling_types_spec(*reservation));
    }
    r
}

} // verus!
