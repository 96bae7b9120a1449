//! End-to-end tests of the interactive resolution pass: the staged domains,
//! the skip rules, the collapse rule and the derived fields.

use cookiecluster::ami::AmiType;
use cookiecluster::compute::{AcceleratorType, CpuArch, ReservationType, ScalingType};
use cookiecluster::error::{ConfigError, ConfigField};
use cookiecluster::inputs::{Inputs, Selections};

fn base_selections() -> Selections {
    Selections {
        cluster_name: "example".to_string(),
        cluster_version_idx: 0,
        cluster_endpoint_public_access: false,
        enable_cluster_creator_admin_permissions: false,
        accelerator_idx: 0,
        require_efa: false,
        reservation_idx: 0,
        // With no reservation the scaling domain is [AutoMode, Karpenter,
        // ClusterAutoscaler, NoAutoscaling]; pick no autoscaling so every
        // later stage is asked.
        scaling_idx: 3,
        // The full registry is offered outside Auto Mode; these are the
        // registry's default entries.
        add_on_idxs: vec![6, 7, 8, 9, 11],
        vpc_name: "example".to_string(),
        control_plane_subnet_filter: "*-private-*".to_string(),
        data_plane_subnet_filter: "*-private-*".to_string(),
        reservation_availability_zone: "us-west-2a".to_string(),
        cpu_arch_idx: 0,
        ami_type_idx: 0,
        instance_idxs: vec![0],
    }
}

#[test]
fn collect_nvidia_efa_cbr_collapses_to_last_selection() {
    // Accelerator NVIDIA, EFA required, ML capacity block reservation,
    // x86-64: the candidates are [p4d.24xlarge, p5.48xlarge, p5en.48xlarge]
    // and a multi-selection of all three collapses to the last.
    let s = Selections {
        accelerator_idx: 1,
        require_efa: true,
        reservation_idx: 2,
        // Under an ML capacity block reservation the scaling domain is
        // [ClusterAutoscaler, NoAutoscaling].
        scaling_idx: 0,
        instance_idxs: vec![0, 1, 2],
        ..base_selections()
    };
    let out = Inputs::new().collect(s).unwrap();
    assert_eq!(out.instance_types, vec!["p5en.48xlarge".to_string()]);
    assert_eq!(out.ami_type, AmiType::AL2023_x86_64_NVIDIA);
    assert_eq!(out.cpu_arch, CpuArch::X8664);
    assert!(out.enable_nvidia_gpus);
    assert!(out.enable_efa);
    assert!(out.enable_ml_cbr);
    assert!(out.enable_compute_reservation);
    assert!(!out.enable_odcr);
    assert!(out.instance_storage_supported);
    assert!(out.enable_helm);
    assert!(!out.enable_public_ecr_helm);
}

#[test]
fn collect_arm64_general_purpose_keeps_family_for_default_group() {
    // No accelerator on arm64 with the general-purpose family: the fallback
    // node group uses the same family and the arm64 instance pair.
    let s = Selections {
        cpu_arch_idx: 1,
        instance_idxs: vec![0],
        ..base_selections()
    };
    let out = Inputs::new().collect(s).unwrap();
    assert_eq!(out.ami_type, AmiType::AL2023_ARM_64_STANDARD);
    assert_eq!(out.default_ami_type, AmiType::AL2023_ARM_64_STANDARD);
    assert_eq!(
        out.default_instance_types,
        vec!["m7g.xlarge".to_string(), "m6g.xlarge".to_string()],
    );
    assert_eq!(out.instance_types, vec!["m6g.xlarge".to_string()]);
}

#[test]
fn collect_bottlerocket_nvidia_falls_back_to_plain_bottlerocket() {
    let s = Selections {
        accelerator_idx: 1,
        require_efa: false,
        // NVIDIA without EFA asks the architecture; keep x86-64.
        cpu_arch_idx: 0,
        // The NVIDIA x86-64 domain is [AL2023_x86_64_NVIDIA,
        // BOTTLEROCKET_x86_64_NVIDIA].
        ami_type_idx: 1,
        instance_idxs: vec![0],
        ..base_selections()
    };
    let out = Inputs::new().collect(s).unwrap();
    assert_eq!(out.ami_type, AmiType::BOTTLEROCKET_x86_64_NVIDIA);
    assert_eq!(out.default_ami_type, AmiType::BOTTLEROCKET_x86_64);
    assert_eq!(
        out.default_instance_types,
        vec!["m7a.xlarge".to_string(), "m7i.xlarge".to_string()],
    );
    // A minimal-OS family never reports instance storage.
    assert!(!out.instance_storage_supported);
}

#[test]
fn collect_auto_mode_skips_arch_ami_and_instances() {
    let s = Selections {
        scaling_idx: 0,
        add_on_idxs: vec![],
        // Out-of-range indices for the skipped stages must not matter.
        cpu_arch_idx: 99,
        ami_type_idx: 99,
        instance_idxs: vec![],
        ..base_selections()
    };
    let out = Inputs::new().collect(s).unwrap();
    assert!(out.enable_auto_mode);
    assert!(!out.enable_karpenter);
    assert_eq!(out.ami_type, AmiType::AL2023_x86_64_STANDARD);
    assert_eq!(
        out.instance_types,
        vec!["m7a.xlarge".to_string(), "m7i.xlarge".to_string()],
    );
    assert!(out.add_ons.is_empty());
    assert!(!out.enable_add_ons);
}

#[test]
fn collect_auto_mode_offers_only_eligible_add_ons() {
    // Under Auto Mode the offered set is [adot,
    // amazon-cloudwatch-observability, aws-efs-csi-driver,
    // aws-mountpoint-s3-csi-driver].
    let s = Selections {
        scaling_idx: 0,
        add_on_idxs: vec![2],
        ..base_selections()
    };
    let out = Inputs::new().collect(s).unwrap();
    assert_eq!(out.add_ons.len(), 1);
    assert_eq!(out.add_ons[0].name, "aws-efs-csi-driver".to_string());
    assert!(out.add_ons[0].auto_mode);
    // A full-registry index is out of range there.
    let s = Selections {
        scaling_idx: 0,
        add_on_idxs: vec![6],
        ..base_selections()
    };
    assert_eq!(
        Inputs::new().collect(s),
        Err(ConfigError::MalformedOverride(ConfigField::AddOns)),
    );
}

#[test]
fn collect_empty_candidate_set_is_an_error() {
    // NVIDIA without EFA on arm64: the catalog has no arm64 NVIDIA
    // instance, so the candidate set is empty and the pass fails.
    let s = Selections {
        accelerator_idx: 1,
        cpu_arch_idx: 1,
        ..base_selections()
    };
    assert_eq!(
        Inputs::new().collect(s),
        Err(ConfigError::EmptyCandidateSet(ConfigField::InstanceTypes)),
    );
}

#[test]
fn collect_empty_instance_selection_is_an_error() {
    let s = Selections {
        instance_idxs: vec![],
        ..base_selections()
    };
    assert_eq!(
        Inputs::new().collect(s),
        Err(ConfigError::EmptySelection(ConfigField::InstanceTypes)),
    );
}

#[test]
fn collect_out_of_range_selections_are_errors() {
    let s = Selections {
        accelerator_idx: 7,
        ..base_selections()
    };
    assert_eq!(
        Inputs::new().collect(s),
        Err(ConfigError::MalformedOverride(ConfigField::Accelerator)),
    );
    let s = Selections {
        cluster_version_idx: 3,
        ..base_selections()
    };
    assert_eq!(
        Inputs::new().collect(s),
        Err(ConfigError::MalformedOverride(ConfigField::ClusterVersion)),
    );
    // With no accelerator the reservation domain has two entries.
    let s = Selections {
        reservation_idx: 2,
        ..base_selections()
    };
    assert_eq!(
        Inputs::new().collect(s),
        Err(ConfigError::MalformedOverride(ConfigField::Reservation)),
    );
    // Under an ML capacity block reservation the scaling domain has two.
    let s = Selections {
        accelerator_idx: 1,
        require_efa: true,
        reservation_idx: 2,
        scaling_idx: 2,
        ..base_selections()
    };
    assert_eq!(
        Inputs::new().collect(s),
        Err(ConfigError::MalformedOverride(ConfigField::ScalingType)),
    );
}

#[test]
fn collect_out_of_range_ami_and_arch_are_errors() {
    // The no-accelerator x86-64 AMI domain has six entries.
    let s = Selections {
        ami_type_idx: 6,
        ..base_selections()
    };
    assert_eq!(
        Inputs::new().collect(s),
        Err(ConfigError::MalformedOverride(ConfigField::AmiFamily)),
    );
    let s = Selections {
        cpu_arch_idx: 2,
        ..base_selections()
    };
    assert_eq!(
        Inputs::new().collect(s),
        Err(ConfigError::MalformedOverride(ConfigField::CpuArch)),
    );
    // An instance index past the candidate list is malformed.
    let s = Selections {
        instance_idxs: vec![57],
        ..base_selections()
    };
    assert_eq!(
        Inputs::new().collect(s),
        Err(ConfigError::MalformedOverride(ConfigField::InstanceTypes)),
    );
}

#[test]
fn collect_karpenter_still_asks_ami_and_instances() {
    let s = Selections {
        scaling_idx: 1,
        instance_idxs: vec![0, 2],
        ..base_selections()
    };
    let out = Inputs::new().collect(s).unwrap();
    assert!(out.enable_karpenter);
    // Karpenter owns the architecture, so the default x86-64 stands; the
    // AMI and instance stages are still asked.
    assert_eq!(out.cpu_arch, CpuArch::X8664);
    assert_eq!(out.ami_type, AmiType::AL2023_x86_64_STANDARD);
    assert_eq!(
        out.instance_types,
        vec!["m5.large".to_string(), "m7a.xlarge".to_string()],
    );
    // The Karpenter chart comes from public ECR.
    assert!(out.enable_public_ecr_helm);
}

#[test]
fn collect_efa_without_accelerator_keeps_prior_value() {
    // EFA is only offered with an accelerator; without one the starting
    // record's value (false) stands even if the selection says otherwise.
    let s = Selections {
        require_efa: true,
        ..base_selections()
    };
    let out = Inputs::new().collect(s).unwrap();
    assert!(!out.enable_efa);
}

#[test]
fn collect_neuron_is_x86_only_and_uses_neuron_family() {
    let s = Selections {
        accelerator_idx: 2,
        require_efa: true,
        instance_idxs: vec![0],
        ..base_selections()
    };
    let out = Inputs::new().collect(s).unwrap();
    assert!(out.enable_neuron_devices);
    assert_eq!(out.cpu_arch, CpuArch::X8664);
    assert_eq!(out.ami_type, AmiType::AL2023_x86_64_NEURON);
    assert_eq!(out.instance_types, vec!["trn1.32xlarge".to_string()]);
    // The Neuron chart comes from public ECR; EFA needs plain Helm too.
    assert!(out.enable_public_ecr_helm);
    assert!(out.enable_helm);
}

#[test]
fn collect_reservation_takes_availability_zone() {
    // Under an on-demand reservation the scaling domain is [Karpenter,
    // ClusterAutoscaler, NoAutoscaling].
    let s = Selections {
        accelerator_idx: 1,
        require_efa: true,
        reservation_idx: 1,
        scaling_idx: 0,
        reservation_availability_zone: "eu-west-1c".to_string(),
        instance_idxs: vec![0],
        ..base_selections()
    };
    let out = Inputs::new().collect(s).unwrap();
    // Karpenter manages the zone itself, so the default stands.
    assert_eq!(out.reservation_availability_zone, "us-west-2a".to_string());

    let s = Selections {
        accelerator_idx: 1,
        require_efa: true,
        reservation_idx: 1,
        scaling_idx: 1,
        reservation_availability_zone: "eu-west-1c".to_string(),
        instance_idxs: vec![0],
        ..base_selections()
    };
    let out = Inputs::new().collect(s).unwrap();
    assert!(out.enable_odcr);
    assert_eq!(out.reservation_availability_zone, "eu-west-1c".to_string());
}

#[test]
fn collect_selects_exactly_one_under_reservation() {
    // On-demand reservation without EFA: still collapses to one instance.
    let s = Selections {
        accelerator_idx: 1,
        require_efa: false,
        reservation_idx: 1,
        scaling_idx: 1,
        cpu_arch_idx: 0,
        instance_idxs: vec![0, 1],
        ..base_selections()
    };
    let out = Inputs::new().collect(s).unwrap();
    assert_eq!(out.instance_types.len(), 1);
    assert_eq!(out.instance_types, vec!["g5.24xlarge".to_string()]);
}

#[test]
fn to_output_reports_pod_identity_bindings() {
    let defaults = Inputs::new();
    let out = defaults.to_output();
    // The default add-ons carry no pod-identity role binding.
    assert!(!out.enable_pod_identity);
    assert!(out.enable_add_ons);
    assert!(out.enable_auto_mode);

    // Selecting the block-storage driver brings one in.
    let s = Selections {
        add_on_idxs: vec![2],
        ..base_selections()
    };
    let out = Inputs::new().collect(s).unwrap();
    assert_eq!(out.add_ons[0].name, "aws-ebs-csi-driver".to_string());
    assert!(out.enable_pod_identity);
}
