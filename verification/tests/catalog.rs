//! Tests for the instance catalog's filter surface, the selection collapse
//! rule, the storage derivation and the AMI family tables.

use cookiecluster::ami::{get_ami_types, get_default_ami_type, AmiType};
use cookiecluster::compute::{
    get_compute_scaling_types, get_reservation_types, AcceleratorType, CpuArch, ReservationType, ScalingType,
};
use cookiecluster::error::{ConfigError, ConfigField};
use cookiecluster::instance::{
    get_instance_type_names, get_instance_types, instance_storage_supported, limit_instances_selected,
};

fn names(cpu_arch: &CpuArch, require_efa: bool, accelerator: &AcceleratorType, reservation: &ReservationType) -> Vec<String> {
    get_instance_type_names(cpu_arch, require_efa, accelerator, reservation)
}

fn strings(v: &[&str]) -> Vec<String> {
    v.iter().map(|s| s.to_string()).collect()
}

#[test]
fn test_ami_type_from_str() {
    let ami_type = AmiType::from("AL2_x86_64");
    assert_eq!(ami_type, AmiType::AL2_x86_64);

    let ami_type = AmiType::from("DOES_NOT_EXIST");
    assert_eq!(ami_type, AmiType::CUSTOM);
}

#[test]
fn test_get_instance_type_names() {
    let cases: Vec<(CpuArch, bool, AcceleratorType, ReservationType, Vec<&str>, Vec<&str>)> = vec![
        (
            CpuArch::X8664,
            false,
            AcceleratorType::NoAccelerator,
            ReservationType::NoReservation,
            vec!["m5.large", "c5.large", "r5.large"],
            vec!["p4d.24xlarge", "p5.48xlarge"],
        ),
        (
            CpuArch::Arm64,
            false,
            AcceleratorType::NoAccelerator,
            ReservationType::NoReservation,
            vec!["m7g.large", "c7g.large", "r7g.large"],
            vec!["p4d.24xlarge", "p5.48xlarge"],
        ),
        (
            CpuArch::X8664,
            true,
            AcceleratorType::Nvidia,
            ReservationType::NoReservation,
            vec!["g5.24xlarge", "g6e.24xlarge", "p5.48xlarge"],
            vec!["m5.large", "c5.large", "r5.large"],
        ),
        (
            CpuArch::X8664,
            false,
            AcceleratorType::Nvidia,
            ReservationType::NoReservation,
            vec!["g5.8xlarge", "g6e.24xlarge", "p5.48xlarge"],
            vec!["m5.large", "c5.large", "r5.large"],
        ),
        (
            CpuArch::X8664,
            true,
            AcceleratorType::Nvidia,
            ReservationType::MlCapacityBlockReservation,
            vec!["p4d.24xlarge", "p5.48xlarge", "p5en.48xlarge"],
            vec!["m5.large", "c5.large", "r5.large"],
        ),
        (
            CpuArch::X8664,
            true,
            AcceleratorType::Neuron,
            ReservationType::NoReservation,
            vec!["trn1.32xlarge", "trn1n.32xlarge", "trn2.48xlarge"],
            vec!["m5.large", "c5.large", "r5.large", "p5.48xlarge"],
        ),
        (
            CpuArch::X8664,
            false,
            AcceleratorType::Neuron,
            ReservationType::NoReservation,
            vec!["inf2.8xlarge", "inf2.48xlarge", "trn1.2xlarge"],
            vec!["m5.large", "c5.large", "r5.large", "p5.48xlarge"],
        ),
        (
            CpuArch::X8664,
            true,
            AcceleratorType::Neuron,
            ReservationType::MlCapacityBlockReservation,
            vec!["trn1.32xlarge", "trn2.48xlarge"],
            vec!["p4d.24xlarge", "p5.48xlarge", "p5en.48xlarge"],
        ),
    ];
    for (cpu_arch, require_efa, accelerator, reservation, expected, not_expected) in cases {
        let instance_types = names(&cpu_arch, require_efa, &accelerator, &reservation);
        assert!(expected.iter().all(|item| instance_types.iter().any(|i| i == item)));
        assert!(not_expected.iter().all(|item| !instance_types.iter().any(|i| i == item)));
    }
}

#[test]
fn snapshot_x86_64() {
    let standard_x86_64 = names(
        &CpuArch::X8664,
        false,
        &AcceleratorType::NoAccelerator,
        &ReservationType::NoReservation,
    );
    assert_eq!(
        standard_x86_64,
        strings(&["m5.large", "m5d.large", "m7a.xlarge", "m7i.xlarge", "c5.large", "r5.large", "t3.micro", "c6in.32xlarge"]),
    );
}

#[test]
fn snapshot_arm64() {
    let standard_arm64 = names(
        &CpuArch::Arm64,
        false,
        &AcceleratorType::NoAccelerator,
        &ReservationType::NoReservation,
    );
    assert_eq!(
        standard_arm64,
        strings(&["m6g.xlarge", "m7g.large", "m7g.xlarge", "m7gd.2xlarge", "c7g.large", "r7g.large", "c7gn.16xlarge"]),
    );
}

#[test]
fn snapshot_nvidia_x86_64() {
    let nvidia_x86_64 = names(
        &CpuArch::X8664,
        false,
        &AcceleratorType::Nvidia,
        &ReservationType::NoReservation,
    );
    assert_eq!(
        nvidia_x86_64,
        strings(&[
            "g5.8xlarge",
            "g5.24xlarge",
            "g6e.2xlarge",
            "g6e.24xlarge",
            "p4d.24xlarge",
            "p5.48xlarge",
            "p5e.48xlarge",
            "p5en.48xlarge",
        ]),
    );
}

#[test]
fn snapshot_nvidia_x86_64_efa() {
    let nvidia_x86_64_efa = names(
        &CpuArch::X8664,
        true,
        &AcceleratorType::Nvidia,
        &ReservationType::NoReservation,
    );
    assert_eq!(
        nvidia_x86_64_efa,
        strings(&["g5.24xlarge", "g6e.24xlarge", "p4d.24xlarge", "p5.48xlarge", "p5e.48xlarge", "p5en.48xlarge"]),
    );
}

#[test]
fn snapshot_nvidia_x86_64_ml_cbr() {
    let nvidia_x86_64_ml_cbr = names(
        &CpuArch::X8664,
        false,
        &AcceleratorType::Nvidia,
        &ReservationType::MlCapacityBlockReservation,
    );
    assert_eq!(
        nvidia_x86_64_ml_cbr,
        strings(&["p4d.24xlarge", "p5.48xlarge", "p5en.48xlarge"]),
    );
}

#[test]
fn snapshot_nvidia_x86_64_odcr() {
    let nvidia_x86_64_odcr = names(
        &CpuArch::X8664,
        false,
        &AcceleratorType::Nvidia,
        &ReservationType::OnDemandCapacityReservation,
    );
    assert_eq!(
        nvidia_x86_64_odcr,
        strings(&[
            "g5.8xlarge",
            "g5.24xlarge",
            "g6e.2xlarge",
            "g6e.24xlarge",
            "p4d.24xlarge",
            "p5.48xlarge",
            "p5e.48xlarge",
            "p5en.48xlarge",
        ]),
    );
}

#[test]
fn snapshot_neuron_x86_64() {
    let neuron_x86_64 = names(
        &CpuArch::X8664,
        false,
        &AcceleratorType::Neuron,
        &ReservationType::NoReservation,
    );
    assert_eq!(
        neuron_x86_64,
        strings(&[
            "inf2.xlarge",
            "inf2.8xlarge",
            "inf2.48xlarge",
            "trn1.2xlarge",
            "trn1.32xlarge",
            "trn1n.32xlarge",
            "trn2.48xlarge",
        ]),
    );
}

#[test]
fn snapshot_neuron_x86_64_efa() {
    let neuron_x86_64_efa = names(
        &CpuArch::X8664,
        true,
        &AcceleratorType::Neuron,
        &ReservationType::NoReservation,
    );
    assert_eq!(neuron_x86_64_efa, strings(&["trn1.32xlarge", "trn1n.32xlarge", "trn2.48xlarge"]));
}

#[test]
fn snapshot_neuron_x86_64_ml_cbr() {
    let neuron_x86_64_ml_cbr = names(
        &CpuArch::X8664,
        false,
        &AcceleratorType::Neuron,
        &ReservationType::MlCapacityBlockReservation,
    );
    assert_eq!(neuron_x86_64_ml_cbr, strings(&["trn1.32xlarge", "trn2.48xlarge"]));
}

#[test]
fn snapshot_neuron_x86_64_odcr() {
    let neuron_x86_64_odcr = names(
        &CpuArch::X8664,
        false,
        &AcceleratorType::Neuron,
        &ReservationType::OnDemandCapacityReservation,
    );
    assert_eq!(
        neuron_x86_64_odcr,
        strings(&[
            "inf2.xlarge",
            "inf2.8xlarge",
            "inf2.48xlarge",
            "trn1.2xlarge",
            "trn1.32xlarge",
            "trn1n.32xlarge",
            "trn2.48xlarge",
        ]),
    );
}

#[test]
fn snapshot_x86_64_efa() {
    let efa_x86_64 = names(
        &CpuArch::X8664,
        true,
        &AcceleratorType::NoAccelerator,
        &ReservationType::NoReservation,
    );
    assert_eq!(efa_x86_64, strings(&["c6in.32xlarge"]));
}

#[test]
fn snapshot_arm64_efa() {
    let efa_arm64 = names(
        &CpuArch::Arm64,
        true,
        &AcceleratorType::NoAccelerator,
        &ReservationType::NoReservation,
    );
    assert_eq!(efa_arm64, strings(&["c7gn.16xlarge"]));
}

#[test]
fn snapshot_instance_types() {
    // The profile filter agrees with the name filter and carries the flags.
    let profiles = get_instance_types(
        &CpuArch::X8664,
        true,
        &AcceleratorType::Nvidia,
        &ReservationType::MlCapacityBlockReservation,
    );
    let names: Vec<&str> = profiles.iter().map(|p| p.instance_type.as_str()).collect();
    assert_eq!(names, vec!["p4d.24xlarge", "p5.48xlarge", "p5en.48xlarge"]);
    assert!(profiles.iter().all(|p| {
        p.cpu_arch == CpuArch::X8664 && p.efa_supported && p.nvidia_gpu_supported && p.cbr_supported
    }));
}

#[test]
fn test_limit_instances_selected() {
    let instance_type_names = strings(&["t2.micro", "t3.micro", "t3a.micro"]);
    let instance_idxs = vec![0, 1, 2];
    let instance_types =
        limit_instances_selected(&ReservationType::NoReservation, true, instance_type_names, instance_idxs).unwrap();
    assert_eq!(instance_types, strings(&["t3a.micro"]));
}

#[test]
fn test_limit_instances_keeps_multi_selection() {
    let instance_type_names = strings(&["m5.large", "c5.large", "r5.large"]);
    let instance_types = limit_instances_selected(
        &ReservationType::NoReservation,
        false,
        instance_type_names,
        vec![2, 0],
    )
    .unwrap();
    assert_eq!(instance_types, strings(&["r5.large", "m5.large"]));
}

#[test]
fn test_limit_instances_rejects_empty_selection() {
    let r = limit_instances_selected(&ReservationType::NoReservation, false, strings(&["m5.large"]), vec![]);
    assert_eq!(r, Err(ConfigError::EmptySelection(ConfigField::InstanceTypes)));
}

#[test]
fn test_instance_storage_supported() {
    let cases: Vec<(Vec<&str>, AmiType, bool)> = vec![
        (vec!["t3.micro"], AmiType::AL2023_x86_64_STANDARD, false),
        (vec!["p4d.24xlarge"], AmiType::AL2023_x86_64_NVIDIA, true),
        (vec!["p4d.24xlarge", "p5.48xlarge"], AmiType::AL2023_x86_64_NVIDIA, true),
        (vec!["p4d.24xlarge", "t3.micro"], AmiType::AL2023_x86_64_NVIDIA, false),
        (vec!["p4d.24xlarge", "p5.48xlarge"], AmiType::BOTTLEROCKET_x86_64_NVIDIA, false),
        (vec!["m5d.large"], AmiType::AL2023_x86_64_STANDARD, true),
        (vec!["m7gd.2xlarge"], AmiType::AL2023_ARM_64_STANDARD, true),
        // The arm64 NVIDIA-specialized Linux family is storage-capable too.
        (vec!["m7gd.2xlarge"], AmiType::AL2023_ARM_64_NVIDIA, true),
        (vec!["t3.micro"], AmiType::AL2023_ARM_64_NVIDIA, false),
        // A Windows family never reports instance storage, whatever the
        // instances support.
        (vec!["p4d.24xlarge", "p5.48xlarge"], AmiType::WINDOWS_CORE_2022_x86_64, false),
        (vec!["m5d.large"], AmiType::WINDOWS_FULL_2019_x86_64, false),
    ];
    for (instance_types, ami_type, expected) in cases {
        let supported = instance_storage_supported(&strings(&instance_types), &ami_type);
        assert_eq!(supported, expected);
    }
}

#[test]
fn test_get_compute_scaling_types() {
    assert_eq!(
        get_compute_scaling_types(&ReservationType::NoReservation),
        vec![
            ScalingType::AutoMode,
            ScalingType::Karpenter,
            ScalingType::ClusterAutoscaler,
            ScalingType::NoAutoscaling,
        ],
    );
    assert_eq!(
        get_compute_scaling_types(&ReservationType::OnDemandCapacityReservation),
        vec![ScalingType::Karpenter, ScalingType::ClusterAutoscaler, ScalingType::NoAutoscaling],
    );
    let under_cbr = get_compute_scaling_types(&ReservationType::MlCapacityBlockReservation);
    assert_eq!(under_cbr, vec![ScalingType::ClusterAutoscaler, ScalingType::NoAutoscaling]);
    assert!(!under_cbr.contains(&ScalingType::Karpenter));
    assert!(!under_cbr.contains(&ScalingType::AutoMode));
}

#[test]
fn test_get_reservation_types() {
    assert_eq!(
        get_reservation_types(&AcceleratorType::NoAccelerator),
        vec![ReservationType::NoReservation, ReservationType::OnDemandCapacityReservation],
    );
    assert_eq!(
        get_reservation_types(&AcceleratorType::Nvidia),
        vec![
            ReservationType::NoReservation,
            ReservationType::OnDemandCapacityReservation,
            ReservationType::MlCapacityBlockReservation,
        ],
    );
    assert_eq!(
        get_reservation_types(&AcceleratorType::Neuron),
        vec![
            ReservationType::NoReservation,
            ReservationType::OnDemandCapacityReservation,
            ReservationType::MlCapacityBlockReservation,
        ],
    );
}

#[test]
fn test_get_ami_types() {
    let cases: Vec<(AcceleratorType, bool, CpuArch, Vec<AmiType>)> = vec![
        (
            AcceleratorType::Nvidia,
            false,
            CpuArch::X8664,
            vec![AmiType::AL2023_x86_64_NVIDIA, AmiType::BOTTLEROCKET_x86_64_NVIDIA],
        ),
        (
            AcceleratorType::Nvidia,
            false,
            CpuArch::Arm64,
            vec![AmiType::AL2023_ARM_64_NVIDIA, AmiType::BOTTLEROCKET_ARM_64_NVIDIA],
        ),
        (
            AcceleratorType::Nvidia,
            true,
            CpuArch::X8664,
            vec![AmiType::AL2023_x86_64_NVIDIA, AmiType::BOTTLEROCKET_x86_64_NVIDIA],
        ),
        (
            AcceleratorType::Nvidia,
            true,
            CpuArch::Arm64,
            vec![AmiType::AL2023_ARM_64_NVIDIA, AmiType::BOTTLEROCKET_ARM_64_NVIDIA],
        ),
        (
            AcceleratorType::Neuron,
            false,
            CpuArch::X8664,
            vec![AmiType::AL2023_x86_64_NEURON, AmiType::BOTTLEROCKET_x86_64],
        ),
        (AcceleratorType::Neuron, false, CpuArch::Arm64, vec![AmiType::BOTTLEROCKET_ARM_64]),
        (
            AcceleratorType::Neuron,
            true,
            CpuArch::X8664,
            vec![AmiType::AL2023_x86_64_NEURON, AmiType::BOTTLEROCKET_x86_64],
        ),
        (AcceleratorType::Neuron, true, CpuArch::Arm64, vec![AmiType::BOTTLEROCKET_ARM_64]),
        (
            AcceleratorType::NoAccelerator,
            false,
            CpuArch::X8664,
            vec![
                AmiType::AL2023_x86_64_STANDARD,
                AmiType::BOTTLEROCKET_x86_64,
                AmiType::WINDOWS_CORE_2019_x86_64,
                AmiType::WINDOWS_CORE_2022_x86_64,
                AmiType::WINDOWS_FULL_2019_x86_64,
                AmiType::WINDOWS_FULL_2022_x86_64,
            ],
        ),
        (
            AcceleratorType::NoAccelerator,
            false,
            CpuArch::Arm64,
            vec![AmiType::AL2023_ARM_64_STANDARD, AmiType::BOTTLEROCKET_ARM_64],
        ),
        (
            AcceleratorType::NoAccelerator,
            true,
            CpuArch::X8664,
            vec![AmiType::AL2023_x86_64_NVIDIA, AmiType::AL2023_x86_64_NEURON],
        ),
        (
            AcceleratorType::NoAccelerator,
            true,
            CpuArch::Arm64,
            vec![AmiType::AL2023_ARM_64_NVIDIA, AmiType::BOTTLEROCKET_ARM_64],
        ),
    ];
    for (accelerator, require_efa, cpu_arch, expected) in cases {
        let ami_types = get_ami_types(&accelerator, require_efa, &cpu_arch);
        assert_eq!(ami_types, expected);
    }
}

#[test]
fn test_get_default_ami_type() {
    let cases: Vec<(AmiType, CpuArch, AmiType)> = vec![
        (AmiType::AL2023_x86_64_NEURON, CpuArch::X8664, AmiType::AL2023_x86_64_STANDARD),
        (AmiType::AL2023_x86_64_NVIDIA, CpuArch::X8664, AmiType::AL2023_x86_64_STANDARD),
        (AmiType::AL2023_ARM_64_STANDARD, CpuArch::Arm64, AmiType::AL2023_ARM_64_STANDARD),
        (AmiType::AL2023_x86_64_STANDARD, CpuArch::X8664, AmiType::AL2023_x86_64_STANDARD),
        (AmiType::BOTTLEROCKET_x86_64_NVIDIA, CpuArch::X8664, AmiType::BOTTLEROCKET_x86_64),
        (AmiType::BOTTLEROCKET_ARM_64_NVIDIA, CpuArch::Arm64, AmiType::BOTTLEROCKET_ARM_64),
        (AmiType::BOTTLEROCKET_ARM_64, CpuArch::Arm64, AmiType::BOTTLEROCKET_ARM_64),
        (AmiType::WINDOWS_CORE_2019_x86_64, CpuArch::X8664, AmiType::AL2023_x86_64_STANDARD),
    ];
    for (ami_type, cpu_arch, expected) in cases {
        let default_ami_type = get_default_ami_type(&ami_type, &cpu_arch);
        assert_eq!(default_ami_type, expected);
    }
}
