//! The configuration record and the ordered constraint resolver. Fields are
//! resolved strictly in dependency order; every stage's domain is a pure
//! function of the previously resolved fields, and the derived fields
//! (instance storage, the fallback node group) are recomputed from what was
//! chosen. A failed stage yields an error and no record.

use vstd::prelude::*;
use vstd::pervasive::unreached;

use crate::add_on::{add_on_spec, add_on_types_spec, get_add_on, get_offerable_add_on_types, AddOn, AddOnView};
use crate::ami::{ami_types_spec, default_ami_type_spec, get_ami_types, get_default_ami_type, AmiType};
use crate::compute::{
    accelerator_types_spec, get_accelerator_types, get_compute_scaling_types, get_reservation_types,
    reservation_types_spec, scaling_types_spec, AcceleratorType, CpuArch, ReservationType, ScalingType,
};
use crate::error::{ConfigError, ConfigField};
use crate::instance::{
    filtered_instance_names, get_instance_type_names, instance_storage_supported, instance_storage_supported_spec,
    limit_instances_selected, limited_selection_spec,
};
use crate::version::ClusterVersion;

verus! {

/// The in-progress configuration record. A fresh record holds the standard
/// defaults; one resolution pass (interactive or batch) rewrites it in
/// dependency order.
#[derive(Debug, PartialEq, Eq)]
pub struct Inputs {
    pub accelerator: AcceleratorType,
    pub add_ons: Vec<AddOn>,
    pub ami_type: AmiType,
    pub cluster_endpoint_public_access: bool,
    pub cluster_name: String,
    pub cluster_version: ClusterVersion,
    pub control_plane_subnet_filter: String,
    pub compute_scaling: ScalingType,
    pub cpu_arch: CpuArch,
    pub data_plane_subnet_filter: String,
    /// AMI family used on the plain node group that accompanies a
    /// specialized (accelerated, Windows) node group.
    pub default_ami_type: AmiType,
    /// Instance types used on that plain node group.
    pub default_instance_types: Vec<String>,
    pub enable_cluster_creator_admin_permissions: bool,
    pub require_efa: bool,
    pub instance_storage_supported: bool,
    pub instance_types: Vec<String>,
    pub reservation: ReservationType,
    pub reservation_availability_zone: String,
    pub vpc_name: String,
}

/// Mathematical image of an [`Inputs`] record.
pub ghost struct InputsView {
    pub accelerator: AcceleratorType,
    pub add_ons: Seq<AddOnView>,
    pub ami_type: AmiType,
    pub cluster_endpoint_public_access: bool,
    pub cluster_name: Seq<char>,
    pub cluster_version: ClusterVersion,
    pub control_plane_subnet_filter: Seq<char>,
    pub compute_scaling: ScalingType,
    pub cpu_arch: CpuArch,
    pub data_plane_subnet_filter: Seq<char>,
    pub default_ami_type: AmiType,
    pub default_instance_types: Seq<Seq<char>>,
    pub enable_cluster_creator_admin_permissions: bool,
    pub require_efa: bool,
    pub instance_storage_supported: bool,
    pub instance_types: Seq<Seq<char>>,
    pub reservation: ReservationType,
    pub reservation_availability_zone: Seq<char>,
    pub vpc_name: Seq<char>,
}

impl View for Inputs {
    type V = InputsView;

    open spec fn view(&self) -> InputsView {
        InputsView {
            accelerator: self.accelerator,
            add_ons: self.add_ons.deep_view(),
            ami_type: self.ami_type,
            cluster_endpoint_public_access: self.cluster_endpoint_public_access,
            cluster_name: self.cluster_name@,
            cluster_version: self.cluster_version,
            control_plane_subnet_filter: self.control_plane_subnet_filter@,
            compute_scaling: self.compute_scaling,
            cpu_arch: self.cpu_arch,
            data_plane_subnet_filter: self.data_plane_subnet_filter@,
            default_ami_type: self.default_ami_type,
            default_instance_types: self.default_instance_types.deep_view(),
            enable_cluster_creator_admin_permissions: self.enable_cluster_creator_admin_permissions,
            require_efa: self.require_efa,
            instance_storage_supported: self.instance_storage_supported,
            instance_types: self.instance_types.deep_view(),
            reservation: self.reservation,
            reservation_availability_zone: self.reservation_availability_zone@,
            vpc_name: self.vpc_name@,
        }
    }
}

/// The answers one resolution pass consumes: free-form strings as given, and
/// for each constrained field an index (or index list) into the domain that
/// the resolver offers at that stage.
#[derive(Debug, PartialEq, Eq)]
pub struct Selections {
    pub cluster_name: String,
    pub cluster_version_idx: usize,
    pub cluster_endpoint_public_access: bool,
    pub enable_cluster_creator_admin_permissions: bool,
    pub accelerator_idx: usize,
    pub require_efa: bool,
    pub reservation_idx: usize,
    pub scaling_idx: usize,
    pub add_on_idxs: Vec<usize>,
    pub vpc_name: String,
    pub control_plane_subnet_filter: String,
    pub data_plane_subnet_filter: String,
    pub reservation_availability_zone: String,
    pub cpu_arch_idx: usize,
    pub ami_type_idx: usize,
    pub instance_idxs: Vec<usize>,
}

/// Mathematical image of a [`Selections`] value.
pub ghost struct SelectionsView {
    pub cluster_name: Seq<char>,
    pub cluster_version_idx: usize,
    pub cluster_endpoint_public_access: bool,
    pub enable_cluster_creator_admin_permissions: bool,
    pub accelerator_idx: usize,
    pub require_efa: bool,
    pub reservation_idx: usize,
    pub scaling_idx: usize,
    pub add_on_idxs: Seq<usize>,
    pub vpc_name: Seq<char>,
    pub control_plane_subnet_filter: Seq<char>,
    pub data_plane_subnet_filter: Seq<char>,
    pub reservation_availability_zone: Seq<char>,
    pub cpu_arch_idx: usize,
    pub ami_type_idx: usize,
    pub instance_idxs: Seq<usize>,
}

impl View for Selections {
    type V = SelectionsView;

    open spec fn view(&self) -> SelectionsView {
        SelectionsView {
            cluster_name: self.cluster_name@,
            cluster_version_idx: self.cluster_version_idx,
            cluster_endpoint_public_access: self.cluster_endpoint_public_access,
            enable_cluster_creator_admin_permissions: self.enable_cluster_creator_admin_permissions,
            accelerator_idx: self.accelerator_idx,
            require_efa: self.require_efa,
            reservation_idx: self.reservation_idx,
            scaling_idx: self.scaling_idx,
            add_on_idxs: self.add_on_idxs@,
            vpc_name: self.vpc_name@,
            control_plane_subnet_filter: self.control_plane_subnet_filter@,
            data_plane_subnet_filter: self.data_plane_subnet_filter@,
            reservation_availability_zone: self.reservation_availability_zone@,
            cpu_arch_idx: self.cpu_arch_idx,
            ami_type_idx: self.ami_type_idx,
            instance_idxs: self.instance_idxs@,
        }
    }
}

/// The fully resolved record handed to the rendering collaborator: derived
/// feature switches up front, the resolved fields passed through behind them.
#[derive(Debug, PartialEq, Eq)]
pub struct Output {
    pub enable_accelerator: bool,
    pub enable_nvidia_gpus: bool,
    pub enable_neuron_devices: bool,
    pub enable_efa: bool,
    pub enable_add_ons: bool,
    pub enable_pod_identity: bool,
    pub enable_helm: bool,
    pub enable_public_ecr_helm: bool,
    pub enable_auto_mode: bool,
    pub enable_karpenter: bool,
    pub enable_compute_reservation: bool,
    pub enable_odcr: bool,
    pub enable_ml_cbr: bool,
    pub add_ons: Vec<AddOn>,
    pub ami_type: AmiType,
    pub cluster_endpoint_public_access: bool,
    pub cluster_name: String,
    pub cluster_version: ClusterVersion,
    pub control_plane_subnet_filter: String,
    pub cpu_arch: CpuArch,
    pub data_plane_subnet_filter: String,
    pub default_ami_type: AmiType,
    pub default_instance_types: Vec<String>,
    pub enable_cluster_creator_admin_permissions: bool,
    pub instance_storage_supported: bool,
    pub instance_types: Vec<String>,
    pub reservation_availability_zone: String,
    pub vpc_name: String,
}

/// Mathematical image of an [`Output`] record.
pub ghost struct OutputView {
    pub enable_accelerator: bool,
    pub enable_nvidia_gpus: bool,
    pub enable_neuron_devices: bool,
    pub enable_efa: bool,
    pub enable_add_ons: bool,
    pub enable_pod_identity: bool,
    pub enable_helm: bool,
    pub enable_public_ecr_helm: bool,
    pub enable_auto_mode: bool,
    pub enable_karpenter: bool,
    pub enable_compute_reservation: bool,
    pub enable_odcr: bool,
    pub enable_ml_cbr: bool,
    pub add_ons: Seq<AddOnView>,
    pub ami_type: AmiType,
    pub cluster_endpoint_public_access: bool,
    pub cluster_name: Seq<char>,
    pub cluster_version: ClusterVersion,
    pub control_plane_subnet_filter: Seq<char>,
    pub cpu_arch: CpuArch,
    pub data_plane_subnet_filter: Seq<char>,
    pub default_ami_type: AmiType,
    pub default_instance_types: Seq<Seq<char>>,
    pub enable_cluster_creator_admin_permissions: bool,
    pub instance_storage_supported: bool,
    pub instance_types: Seq<Seq<char>>,
    pub reservation_availability_zone: Seq<char>,
    pub vpc_name: Seq<char>,
}

impl View for Output {
    type V = OutputView;

    open spec fn view(&self) -> OutputView {
        OutputView {
            enable_accelerator: self.enable_accelerator,
            enable_nvidia_gpus: self.enable_nvidia_gpus,
            enable_neuron_devices: self.enable_neuron_devices,
            enable_efa: self.enable_efa,
            enable_add_ons: self.enable_add_ons,
            enable_pod_identity: self.enable_pod_identity,
            enable_helm: self.enable_helm,
            enable_public_ecr_helm: self.enable_public_ecr_helm,
            enable_auto_mode: self.enable_auto_mode,
            enable_karpenter: self.enable_karpenter,
            enable_compute_reservation: self.enable_compute_reservation,
            enable_odcr: self.enable_odcr,
            enable_ml_cbr: self.enable_ml_cbr,
            add_ons: self.add_ons.deep_view(),
            ami_type: self.ami_type,
            cluster_endpoint_public_access: self.cluster_endpoint_public_access,
            cluster_name: self.cluster_name@,
            cluster_version: self.cluster_version,
            control_plane_subnet_filter: self.control_plane_subnet_filter@,
            cpu_arch: self.cpu_arch,
            data_plane_subnet_filter: self.data_plane_subnet_filter@,
            default_ami_type: self.default_ami_type,
            default_instance_types: self.default_instance_types.deep_view(),
            enable_cluster_creator_admin_permissions: self.enable_cluster_creator_admin_permissions,
            instance_storage_supported: self.instance_storage_supported,
            instance_types: self.instance_types.deep_view(),
            reservation_availability_zone: self.reservation_availability_zone@,
            vpc_name: self.vpc_name@,
        }
    }
}

/// The default add-on selection: the registry entries flagged as defaults,
/// in registry order.
pub open spec fn default_add_ons_spec() -> Seq<AddOnView> {
    seq![
        add_on_spec(crate::add_on::AddOnType::CoreDns),
        add_on_spec(crate::add_on::AddOnType::EksNodeMonitoringAgent),
        add_on_spec(crate::add_on::AddOnType::EksPodIdentityAgent),
        add_on_spec(crate::add_on::AddOnType::KubeProxy),
        add_on_spec(crate::add_on::AddOnType::VpcCni),
    ]
}

/// The standard record a resolution pass starts from.
pub open spec fn default_inputs_spec() -> InputsView {
    InputsView {
        accelerator: AcceleratorType::NoAccelerator,
        add_ons: default_add_ons_spec(),
        ami_type: AmiType::AL2023_x86_64_STANDARD,
        cluster_endpoint_public_access: false,
        cluster_name: "example"@,
        cluster_version: ClusterVersion::K132,
        control_plane_subnet_filter: "*-private-*"@,
        compute_scaling: ScalingType::AutoMode,
        cpu_arch: CpuArch::X8664,
        data_plane_subnet_filter: "*-private-*"@,
        default_ami_type: AmiType::AL2023_x86_64_STANDARD,
        default_instance_types: seq!["m7a.xlarge"@, "m7i.xlarge"@],
        enable_cluster_creator_admin_permissions: false,
        require_efa: false,
        instance_storage_supported: false,
        instance_types: seq!["m7a.xlarge"@, "m7i.xlarge"@],
        reservation: ReservationType::NoReservation,
        reservation_availability_zone: "us-west-2a"@,
        vpc_name: "example"@,
    }
}

/// The plain node group's fixed instance pair, chosen solely by whether the
/// fallback AMI family is an arm64 family.
pub open spec fn default_instance_types_spec(default_ami_type: AmiType) -> Seq<Seq<char>> {
    match default_ami_type {
        AmiType::AL2023_ARM_64_STANDARD | AmiType::BOTTLEROCKET_ARM_64 | AmiType::BOTTLEROCKET_ARM_64_NVIDIA => seq![
            "m7g.xlarge"@,
            "m6g.xlarge"@,
        ],
        _ => seq!["m7a.xlarge"@, "m7i.xlarge"@],
    }
}

/// Whether the CPU architecture stage is asked at all: Auto Mode and
/// Karpenter own the architecture themselves, Neuron instances are
/// x86-64-only, and EFA-enabled NVIDIA shapes are fixed to one architecture
/// family.
pub open spec fn should_collect_arch_spec(
    scaling_type: ScalingType,
    accelerator: AcceleratorType,
    require_efa: bool,
) -> bool {
    &&& scaling_type != ScalingType::Karpenter
    &&& scaling_type != ScalingType::AutoMode
    &&& accelerator != AcceleratorType::Neuron
    &&& !(accelerator == AcceleratorType::Nvidia && require_efa)
}

/// Whether the rendered cluster needs plain Helm resources (NVIDIA and EFA
/// device plugins); Auto Mode bundles them.
pub open spec fn should_enable_helm_spec(
    accelerator: AcceleratorType,
    scaling_type: ScalingType,
    require_efa: bool,
) -> bool {
    scaling_type != ScalingType::AutoMode && (accelerator == AcceleratorType::Nvidia || require_efa)
}

/// Whether the rendered cluster needs public-ECR Helm resources (Neuron and
/// Karpenter charts); Auto Mode bundles their equivalents.
pub open spec fn should_enable_public_ecr_helm_spec(
    accelerator: AcceleratorType,
    scaling_type: ScalingType,
) -> bool {
    scaling_type != ScalingType::AutoMode
        && (accelerator == AcceleratorType::Neuron || scaling_type == ScalingType::Karpenter)
}

/// Whether some selected add-on carries a pod-identity role binding.
pub open spec fn has_pod_identity_spec(add_ons: Seq<AddOnView>) -> bool {
    exists|k: int|
        {
            &&& 0 <= k < add_ons.len()
            &&& (#[trigger] add_ons[k].configuration) matches Some(c)
            &&& c.pod_identity_role_arn is Some
        }
}

/// How a resolved record maps to the output record.
pub open spec fn to_output_spec(iv: InputsView) -> OutputView {
    OutputView {
        enable_accelerator: iv.accelerator != AcceleratorType::NoAccelerator,
        enable_nvidia_gpus: iv.accelerator == AcceleratorType::Nvidia,
        enable_neuron_devices: iv.accelerator == AcceleratorType::Neuron,
        enable_efa: iv.require_efa,
        enable_add_ons: iv.add_ons.len() > 0,
        enable_pod_identity: has_pod_identity_spec(iv.add_ons),
        enable_helm: should_enable_helm_spec(iv.accelerator, iv.compute_scaling, iv.require_efa),
        enable_public_ecr_helm: should_enable_public_ecr_helm_spec(iv.accelerator, iv.compute_scaling),
        enable_auto_mode: iv.compute_scaling == ScalingType::AutoMode,
        enable_karpenter: iv.compute_scaling == ScalingType::Karpenter,
        enable_compute_reservation: iv.reservation != ReservationType::NoReservation,
        enable_odcr: iv.reservation == ReservationType::OnDemandCapacityReservation,
        enable_ml_cbr: iv.reservation == ReservationType::MlCapacityBlockReservation,
        add_ons: iv.add_ons,
        ami_type: iv.ami_type,
        cluster_endpoint_public_access: iv.cluster_endpoint_public_access,
        cluster_name: iv.cluster_name,
        cluster_version: iv.cluster_version,
        control_plane_subnet_filter: iv.control_plane_subnet_filter,
        cpu_arch: iv.cpu_arch,
        data_plane_subnet_filter: iv.data_plane_subnet_filter,
        default_ami_type: iv.default_ami_type,
        default_instance_types: iv.default_instance_types,
        enable_cluster_creator_admin_permissions: iv.enable_cluster_creator_admin_permissions,
        instance_storage_supported: iv.instance_storage_supported,
        instance_types: iv.instance_types,
        reservation_availability_zone: iv.reservation_availability_zone,
        vpc_name: iv.vpc_name,
    }
}

/// One resolution pass over a starting record, from the given selections.
/// Fields resolve strictly in dependency order; each stage interprets its
/// selection against the domain left open by the prior stages; one that is not
/// asked keeps the starting record's value; the derived fields are
/// recomputed at the end. Any stage whose selection falls outside its
/// domain, whose candidate set is empty, or whose mandatory selection is
/// empty fails the whole pass.
pub open spec fn resolve_selections_spec(iv: InputsView, sv: SelectionsView) -> Result<
    InputsView,
    ConfigError,
> {
    if sv.cluster_version_idx >= ClusterVersion::versions_spec().len() {
        Err(ConfigError::MalformedOverride(ConfigField::ClusterVersion))
    } else if sv.accelerator_idx >= accelerator_types_spec().len() {
        Err(ConfigError::MalformedOverride(ConfigField::Accelerator))
    } else {
        let cluster_version = ClusterVersion::versions_spec()[sv.cluster_version_idx as int];
        let accelerator = accelerator_types_spec()[sv.accelerator_idx as int];
        let require_efa = if accelerator != AcceleratorType::NoAccelerator {
            sv.require_efa
        } else {
            iv.require_efa
        };
        if sv.reservation_idx >= reservation_types_spec(accelerator).len() {
            Err(ConfigError::MalformedOverride(ConfigField::Reservation))
        } else {
            let reservation = reservation_types_spec(accelerator)[sv.reservation_idx as int];
            if sv.scaling_idx >= scaling_types_spec(reservation).len() {
                Err(ConfigError::MalformedOverride(ConfigField::ScalingType))
            } else {
                let compute_scaling = scaling_types_spec(reservation)[sv.scaling_idx as int];
                if !(forall|k: int|
                    0 <= k < sv.add_on_idxs.len() ==> #[trigger] sv.add_on_idxs[k] < add_on_types_spec(
                        compute_scaling,
                    ).len()) {
                    Err(ConfigError::MalformedOverride(ConfigField::AddOns))
                } else {
                    let add_ons = sv.add_on_idxs.map_values(
                        |ix: usize| add_on_spec(add_on_types_spec(compute_scaling)[ix as int]),
                    );
                    let reservation_availability_zone = if reservation != ReservationType::NoReservation
                        && compute_scaling != ScalingType::Karpenter {
                        sv.reservation_availability_zone
                    } else {
                        iv.reservation_availability_zone
                    };
                    let arch_asked = should_collect_arch_spec(compute_scaling, accelerator, require_efa);
                    if arch_asked && sv.cpu_arch_idx >= 2 {
                        Err(ConfigError::MalformedOverride(ConfigField::CpuArch))
                    } else {
                        let cpu_arch = if arch_asked {
                            if sv.cpu_arch_idx == 0 {
                                CpuArch::X8664
                            } else {
                                CpuArch::Arm64
                            }
                        } else {
                            iv.cpu_arch
                        };
                        let compute_asked = compute_scaling != ScalingType::AutoMode;
                        if compute_asked && sv.ami_type_idx >= ami_types_spec(
                            accelerator,
                            require_efa,
                            cpu_arch,
                        ).len() {
                            Err(ConfigError::MalformedOverride(ConfigField::AmiFamily))
                        } else {
                            let ami_type = if compute_asked {
                                ami_types_spec(accelerator, require_efa, cpu_arch)[sv.ami_type_idx as int]
                            } else {
                                iv.ami_type
                            };
                            let candidates = filtered_instance_names(cpu_arch, require_efa, accelerator, reservation);
                            if compute_asked && candidates.len() == 0 {
                                Err(ConfigError::EmptyCandidateSet(ConfigField::InstanceTypes))
                            } else if compute_asked && !(forall|k: int|
                                0 <= k < sv.instance_idxs.len() ==> #[trigger] sv.instance_idxs[k]
                                    < candidates.len()) {
                                Err(ConfigError::MalformedOverride(ConfigField::InstanceTypes))
                            } else if compute_asked && sv.instance_idxs.len() == 0 {
                                Err(ConfigError::EmptySelection(ConfigField::InstanceTypes))
                            } else {
                                let instance_types = if compute_asked {
                                    limited_selection_spec(reservation, require_efa, candidates, sv.instance_idxs)
                                } else {
                                    iv.instance_types
                                };
                                let default_ami_type = default_ami_type_spec(ami_type, cpu_arch);
                                Ok(InputsView {
                                    accelerator,
                                    add_ons,
                                    ami_type,
                                    cluster_endpoint_public_access: sv.cluster_endpoint_public_access,
                                    cluster_name: sv.cluster_name,
                                    cluster_version,
                                    control_plane_subnet_filter: sv.control_plane_subnet_filter,
                                    compute_scaling,
                                    cpu_arch,
                                    data_plane_subnet_filter: sv.data_plane_subnet_filter,
                                    default_ami_type,
                                    default_instance_types: default_instance_types_spec(default_ami_type),
                                    enable_cluster_creator_admin_permissions: sv.enable_cluster_creator_admin_permissions,
                                    require_efa,
                                    instance_storage_supported: instance_storage_supported_spec(
                                        instance_types,
                                        ami_type,
                                    ),
                                    instance_types,
                                    reservation,
                                    reservation_availability_zone,
                                    vpc_name: sv.vpc_name,
                                })
                            }
                        }
                    }
                }
            }
        }
    }
}

/// Whether every index in `idxs` lies below `bound`.
fn all_idxs_below(idxs: &Vec<usize>, bound: usize) -> (r: bool)
    ensures
        r == (forall|k: int| 0 <= k < idxs@.len() ==> #[trigger] idxs@[k] < bound),
{
    let mut ok = true;
    let mut i: usize = 0;
    while i < idxs.len()
        invariant
            i <= idxs@.len(),
            ok <==> (forall|k: int| 0 <= k < i ==> #[trigger] idxs@[k] < bound),
        decreases idxs@.len() - i,
    {
        let ghost old_ok = ok;
        if idxs[i] >= bound {
            ok = false;
        }
        i = i + 1;
        proof {
            if !ok {
                if old_ok {
                    assert(!(idxs@[i - 1] < bound));
                } else {
                    let k = choose|k: int| 0 <= k < i - 1 && !(#[trigger] idxs@[k] < bound);
                    assert(0 <= k < i && !(idxs@[k] < bound));
                }
            }
        }
    }
    ok
}

/// Resolve the selected add-on indices against the offered set.
fn select_add_ons(scaling_type: &ScalingType, idxs: &Vec<usize>) -> (r: Vec<AddOn>)
    requires
        forall|k: int| 0 <= k < idxs@.len() ==> #[trigger] idxs@[k] < add_on_types_spec(*scaling_type).len(),
    ensures
        r.deep_view() == idxs@.map_values(
            |ix: usize| add_on_spec(add_on_types_spec(*scaling_type)[ix as int]),
        ),
{
    let offered = get_offerable_add_on_types(scaling_type);
    let mut r: Vec<AddOn> = Vec::new();
    let mut i: usize = 0;
    while i < idxs.len()
        invariant
            i <= idxs@.len(),
            offered@ == add_on_types_spec(*scaling_type),
            forall|k: int| 0 <= k < idxs@.len() ==> #[trigger] idxs@[k] < offered@.len(),
            r@.len() == i,
            forall|k: int| 0 <= k < i ==> (#[trigger] r@[k])@ == add_on_spec(offered@[idxs@[k] as int]),
        decreases idxs@.len() - i,
    {
        let ix = idxs[i];
        let a = match get_add_on(&offered[ix]) {
            Ok(a) => a,
            Err(_) => unreached(),
        };
        r.push(a);
        i = i + 1;
    }
    proof {
        assert(r.deep_view() =~= idxs@.map_values(
            |ix: usize| add_on_spec(add_on_types_spec(*scaling_type)[ix as int]),
        ));
    }
    r
}

/// Whether the CPU architecture stage is asked at all.
pub fn should_collect_arch(
    scaling_type: &ScalingType,
    accelerator: &AcceleratorType,
    require_efa: bool,
) -> (r: bool)
    ensures
        r == should_collect_arch_spec(*scaling_type, *accelerator, require_efa),
{
    if matches!(scaling_type, ScalingType::Karpenter) || matches!(scaling_type, ScalingType::AutoMode) {
        return false;
    }
    if matches!(accelerator, AcceleratorType::Neuron) {
        return false;
    }
    if matches!(accelerator, AcceleratorType::Nvidia) && require_efa {
        return false;
    }
    true
}

/// Whether the rendered cluster needs plain Helm resources.
pub fn should_enable_helm(
    accelerator: &AcceleratorType,
    scaling_type: &ScalingType,
    require_efa: bool,
) -> (r: bool)
    ensures
        r == should_enable_helm_spec(*accelerator, *scaling_type, require_efa),
{
    if matches!(scaling_type, ScalingType::AutoMode) {
        return false;
    }
    if matches!(accelerator, AcceleratorType::Nvidia) || require_efa {
        return true;
    }
    false
}

/// Whether the rendered cluster needs public-ECR Helm resources.
pub fn should_enable_public_ecr_helm(
    accelerator: &AcceleratorType,
    scaling_type: &ScalingType,
) -> (r: bool)
    ensures
        r == should_enable_public_ecr_helm_spec(*accelerator, *scaling_type),
{
    if matches!(scaling_type, ScalingType::AutoMode) {
        return false;
    }
    if matches!(accelerator, AcceleratorType::Neuron) || matches!(scaling_type, ScalingType::Karpenter) {
        return true;
    }
    false
}

/// The plain node group's fixed instance pair for a fallback AMI family.
pub fn get_default_instance_types(default_ami_type: &AmiType) -> (r: Vec<String>)
    ensures
        r.deep_view() == default_instance_types_spec(*default_ami_type),
{
    let mut r: Vec<String> = Vec::new();
    match default_ami_type {
        AmiType::AL2023_ARM_64_STANDARD | AmiType::BOTTLEROCKET_ARM_64 | AmiType::BOTTLEROCKET_ARM_64_NVIDIA => {
            r.push("m7g.xlarge".to_owned());
            r.push("m6g.xlarge".to_owned());
        }
        _ => {
            r.push("m7a.xlarge".to_owned());
            r.push("m7i.xlarge".to_owned());
        }
    }
    proof {
        assert(r.deep_view() =~= default_instance_types_spec(*default_ami_type));
    }
    r
}

/// The fallback node group's instance pair is never empty, and which pair
/// comes out is decided by the fallback AMI family's architecture alone,
/// never by the accelerator: two derivations whose fallback families agree
/// on architecture yield the same pair.
pub proof fn lemma_default_node_group_pair(
    ami_a: AmiType,
    arch_a: CpuArch,
    ami_b: AmiType,
    arch_b: CpuArch,
)
    ensures
        default_instance_types_spec(default_ami_type_spec(ami_a, arch_a)).len() == 2,
        crate::ami::ami_family_arch_spec(default_ami_type_spec(ami_a, arch_a)) == crate::ami::ami_family_arch_spec(
            default_ami_type_spec(ami_b, arch_b),
        ) ==> default_instance_types_spec(default_ami_type_spec(ami_a, arch_a)) == default_instance_types_spec(
            default_ami_type_spec(ami_b, arch_b),
        ),
{
}

/// Every record a resolution pass produces from a starting record with a
/// non-empty instance list selects at least one instance type; and whenever
/// a reservation stands or EFA is required, exactly one — shape homogeneity
/// — except under Auto Mode, where the platform owns instance selection and
/// the starting record's pair is kept as is.
pub proof fn lemma_resolved_record_instances(iv: InputsView, sv: SelectionsView)
    requires
        iv.instance_types.len() > 0,
        resolve_selections_spec(iv, sv) is Ok,
    ensures
        resolve_selections_spec(iv, sv)->Ok_0.instance_types.len() > 0,
        (resolve_selections_spec(iv, sv)->Ok_0.compute_scaling != ScalingType::AutoMode && (
        resolve_selections_spec(iv, sv)->Ok_0.reservation != ReservationType::NoReservation
            || resolve_selections_spec(iv, sv)->Ok_0.require_efa)) ==> resolve_selections_spec(
            iv,
            sv,
        )->Ok_0.instance_types.len() == 1,
{
    let rv = resolve_selections_spec(iv, sv)->Ok_0;
    if rv.compute_scaling != ScalingType::AutoMode {
        let accelerator = accelerator_types_spec()[sv.accelerator_idx as int];
        let require_efa = if accelerator != AcceleratorType::NoAccelerator {
            sv.require_efa
        } else {
            iv.require_efa
        };
        let reservation = reservation_types_spec(accelerator)[sv.reservation_idx as int];
        let arch_asked = should_collect_arch_spec(
            scaling_types_spec(reservation)[sv.scaling_idx as int],
            accelerator,
            require_efa,
        );
        let cpu_arch = if arch_asked {
            if sv.cpu_arch_idx == 0 {
                CpuArch::X8664
            } else {
                CpuArch::Arm64
            }
        } else {
            iv.cpu_arch
        };
        let candidates = filtered_instance_names(cpu_arch, require_efa, accelerator, reservation);
        assert(rv.instance_types == limited_selection_spec(
            reservation,
            require_efa,
            candidates,
            sv.instance_idxs,
        ));
        if reservation != ReservationType::NoReservation || require_efa {
            assert(rv.instance_types.len() == 1);
        } else {
            assert(rv.instance_types.len() == sv.instance_idxs.len());
        }
    }
}

impl Default for Inputs {
    /// The standard record: no accelerator, Auto Mode, the default add-ons,
    /// the general-purpose x86-64 family and its fixed instance pair.
    fn default() -> (r: Inputs)
        ensures
            r@ == default_inputs_spec(),
    {
        let mut add_ons: Vec<AddOn> = Vec::new();
        let types = crate::add_on::get_default_add_on_types();
        let mut i: usize = 0;
        while i < types.len()
            invariant
                i <= types@.len(),
                types@ == crate::add_on::add_on_types_all_spec().filter(
                    |t: crate::add_on::AddOnType| crate::add_on::default_add_on_spec(t),
                ),
                add_ons@.len() == i,
                forall|k: int| 0 <= k < i ==> (#[trigger] add_ons@[k])@ == add_on_spec(types@[k]),
            decreases types@.len() - i,
        {
            let a = match get_add_on(&types[i]) {
                Ok(a) => a,
                Err(_) => unreached(),
            };
            add_ons.push(a);
            i = i + 1;
        }
        let r = Inputs {
            accelerator: AcceleratorType::NoAccelerator,
            add_ons,
            ami_type: AmiType::AL2023_x86_64_STANDARD,
            cluster_endpoint_public_access: false,
            cluster_name: "example".to_owned(),
            cluster_version: ClusterVersion::K132,
            control_plane_subnet_filter: "*-private-*".to_owned(),
            compute_scaling: ScalingType::AutoMode,
            cpu_arch: CpuArch::X8664,
            data_plane_subnet_filter: "*-private-*".to_owned(),
            default_ami_type: AmiType::AL2023_x86_64_STANDARD,
            default_instance_types: get_default_instance_types(&AmiType::AL2023_x86_64_STANDARD),
            enable_cluster_creator_admin_permissions: false,
            require_efa: false,
            instance_storage_supported: false,
            instance_types: get_default_instance_types(&AmiType::AL2023_x86_64_STANDARD),
            reservation: ReservationType::NoReservation,
            reservation_availability_zone: "us-west-2a".to_owned(),
            vpc_name: "example".to_owned(),
        };
        proof {
            reveal_with_fuel(Seq::filter, 13);
            assert(r.add_ons.deep_view() =~= default_add_ons_spec());
            assert(r.default_instance_types.deep_view() =~= default_inputs_spec().default_instance_types);
            assert(r.instance_types.deep_view() =~= default_inputs_spec().instance_types);
        }
        r
    }
}

impl Inputs {
    /// A fresh record holding the standard defaults.
    pub fn new() -> (r: Self)
        ensures
            r@ == default_inputs_spec(),
    {
        Self::default()
    }

    /// Run one full resolution pass over this record from the given
    /// selections and map the result to the output record. The pass either
    /// resolves every stage or fails with the first stage's error; nothing
    /// is partially committed.
    #[verifier::rlimit(100)]
    #[verifier::spinoff_prover]
    pub fn collect(self, s: Selections) -> (r: Result<Output, ConfigError>)
        ensures
            match r {
                Ok(o) => resolve_selections_spec(self@, s@) matches Ok(rv) && o@ == to_output_spec(rv),
                Err(e) => resolve_selections_spec(self@, s@) == Err::<InputsView, ConfigError>(e),
            },
    {
        let ghost iv = self@;
        let ghost sv = s@;

        // Cluster settings: name and flags pass through; the version is
        // picked from the version domain.
        let versions = ClusterVersion::versions();
        if s.cluster_version_idx >= versions.len() {
            return Err(ConfigError::MalformedOverride(ConfigField::ClusterVersion));
        }
        let cluster_version = ClusterVersion::from_idx(s.cluster_version_idx);

        // Accelerator: free choice from the accelerator domain.
        let accelerators = get_accelerator_types();
        if s.accelerator_idx >= accelerators.len() {
            return Err(ConfigError::MalformedOverride(ConfigField::Accelerator));
        }
        let accelerator = AcceleratorType::from_idx(s.accelerator_idx);

        // EFA: offered only with an accelerator; otherwise the prior value
        // stands.
        let require_efa = if !matches!(accelerator, AcceleratorType::NoAccelerator) {
            s.require_efa
        } else {
            self.require_efa
        };

        // Reservation: domain depends on the accelerator.
        let reservations = get_reservation_types(&accelerator);
        if s.reservation_idx >= reservations.len() {
            return Err(ConfigError::MalformedOverride(ConfigField::Reservation));
        }
        let reservation = reservations[s.reservation_idx];

        // Scaling strategy: domain depends on the reservation.
        let scalings = get_compute_scaling_types(&reservation);
        if s.scaling_idx >= scalings.len() {
            return Err(ConfigError::MalformedOverride(ConfigField::ScalingType));
        }
        let compute_scaling = scalings[s.scaling_idx];

        // Add-ons: selected from the set the scaling strategy offers.
        let offered = get_offerable_add_on_types(&compute_scaling);
        if !all_idxs_below(&s.add_on_idxs, offered.len()) {
            return Err(ConfigError::MalformedOverride(ConfigField::AddOns));
        }
        let add_ons = select_add_ons(&compute_scaling, &s.add_on_idxs);

        // Networking: free-form; the reservation zone is only asked when a
        // reservation stands and Karpenter does not manage it.
        let reservation_availability_zone = if !matches!(reservation, ReservationType::NoReservation)
            && !matches!(compute_scaling, ScalingType::Karpenter) {
            s.reservation_availability_zone
        } else {
            self.reservation_availability_zone
        };

        // CPU architecture: asked only when no other stage owns it.
        let arch_asked = should_collect_arch(&compute_scaling, &accelerator, require_efa);
        if arch_asked && s.cpu_arch_idx >= 2 {
            return Err(ConfigError::MalformedOverride(ConfigField::CpuArch));
        }
        let cpu_arch = if arch_asked {
            CpuArch::from_idx(s.cpu_arch_idx)
        } else {
            self.cpu_arch
        };

        // AMI family and instance types: skipped entirely under Auto Mode,
        // which owns both.
        let compute_asked = !matches!(compute_scaling, ScalingType::AutoMode);
        let ami_type = if compute_asked {
            let ami_domain = get_ami_types(&accelerator, require_efa, &cpu_arch);
            if s.ami_type_idx >= ami_domain.len() {
                return Err(ConfigError::MalformedOverride(ConfigField::AmiFamily));
            }
            ami_domain[s.ami_type_idx]
        } else {
            self.ami_type
        };

        let instance_types = if compute_asked {
            let candidates = get_instance_type_names(&cpu_arch, require_efa, &accelerator, &reservation);
            if candidates.len() == 0 {
                return Err(ConfigError::EmptyCandidateSet(ConfigField::InstanceTypes));
            }
            if !all_idxs_below(&s.instance_idxs, candidates.len()) {
                return Err(ConfigError::MalformedOverride(ConfigField::InstanceTypes));
            }
            match limit_instances_selected(&reservation, require_efa, candidates, s.instance_idxs) {
                Ok(v) => v,
                Err(e) => {
                    return Err(e);
                }
            }
        } else {
            self.instance_types
        };

        // Derived fields: instance storage and the plain fallback node group.
        let instance_storage = instance_storage_supported(&instance_types, &ami_type);
        let default_ami_type = get_default_ami_type(&ami_type, &cpu_arch);
        let default_instance_types = get_default_instance_types(&default_ami_type);

        let resolved = Inputs {
            accelerator,
            add_ons,
            ami_type,
            cluster_endpoint_public_access: s.cluster_endpoint_public_access,
            cluster_name: s.cluster_name,
            cluster_version,
            control_plane_subnet_filter: s.control_plane_subnet_filter,
            compute_scaling,
            cpu_arch,
            data_plane_subnet_filter: s.data_plane_subnet_filter,
            default_ami_type,
            default_instance_types,
            enable_cluster_creator_admin_permissions: s.enable_cluster_creator_admin_permissions,
            require_efa,
            instance_storage_supported: instance_storage,
            instance_types,
            reservation,
            reservation_availability_zone,
            vpc_name: s.vpc_name,
        };
        proof {
            assert(resolve_selections_spec(iv, sv) == Ok::<InputsView, ConfigError>(resolved@));
        }
        Ok(resolved.to_output())
    }

    /// Recompute the instance-storage derivation from the resolved instance
    /// types and AMI family.
    pub fn collect_storage_settings(self) -> (r: Inputs)
        ensures
            r@ == (InputsView {
                instance_storage_supported: instance_storage_supported_spec(self@.instance_types, self@.ami_type),
                ..self@
            }),
    {
        let supported = instance_storage_supported(&self.instance_types, &self.ami_type);
        Inputs { instance_storage_supported: supported, ..self }
    }

    /// Derive the plain fallback node group: its AMI family from the resolved
    /// family and architecture, and its fixed instance pair from that family.
    pub fn collect_default_node_group_settings(self) -> (r: Inputs)
        ensures
            r@ == (InputsView {
                default_ami_type: default_ami_type_spec(self@.ami_type, self@.cpu_arch),
                default_instance_types: default_instance_types_spec(
                    default_ami_type_spec(self@.ami_type, self@.cpu_arch),
                ),
                ..self@
            }),
    {
        let default_ami_type = get_default_ami_type(&self.ami_type, &self.cpu_arch);
        let default_instance_types = get_default_instance_types(&default_ami_type);
        Inputs { default_ami_type, default_instance_types, ..self }
    }

    /// Map the resolved record to the output record.
    pub fn to_output(self) -> (r: Output)
        ensures
            r@ == to_output_spec(self@),
    {
        let enable_pod_identity = {
            let mut found = false;
            let mut i: usize = 0;
            while i < self.add_ons.len()
                invariant
                    i <= self.add_ons@.len(),
                    found <==> exists|k: int|
                        {
                            &&& 0 <= k < i
                            &&& (#[trigger] self.add_ons@[k]@.configuration) matches Some(c)
                            &&& c.pod_identity_role_arn is Some
                        },
                decreases self.add_ons@.len() - i,
            {
                let has_role = match &self.add_ons[i].configuration {
                    Some(c) => c.pod_identity_role_arn.is_some(),
                    None => false,
                };
                proof {
                    match self.add_ons@[i as int]@.configuration {
                        Some(c) => {
                            assert(has_role == (c.pod_identity_role_arn is Some));
                        }
                        None => {
                            assert(!has_role);
                        }
                    }
                }
                let ghost old_found = found;
                if has_role {
                    found = true;
                }
                i = i + 1;
                proof {
                    if found {
                        if old_found {
                            let k = choose|k: int|
                                {
                                    &&& 0 <= k < i - 1
                                    &&& (#[trigger] self.add_ons@[k]@.configuration) matches Some(c)
                                    &&& c.pod_identity_role_arn is Some
                                };
                            assert({
                                &&& 0 <= k < i
                                &&& (self.add_ons@[k]@.configuration) matches Some(c)
                                &&& c.pod_identity_role_arn is Some
                            });
                        } else {
                            assert({
                                &&& 0 <= i - 1 < i
                                &&& (self.add_ons@[i - 1]@.configuration) matches Some(c)
                                &&& c.pod_identity_role_arn is Some
                            });
                        }
                    }
                }
            }
            proof {
                assert forall|k: int|
                    0 <= k < self@.add_ons.len() implies #[trigger] self@.add_ons[k] == self.add_ons@[k]@ by {}
                if found {
                    let k = choose|k: int|
                        {
                            &&& 0 <= k < self.add_ons@.len()
                            &&& (#[trigger] self.add_ons@[k]@.configuration) matches Some(c)
                            &&& c.pod_identity_role_arn is Some
                        };
                    assert({
                        &&& 0 <= k < self@.add_ons.len()
                        &&& (self@.add_ons[k].configuration) matches Some(c)
                        &&& c.pod_identity_role_arn is Some
                    });
                } else {
                    if has_pod_identity_spec(self@.add_ons) {
                        let k = choose|k: int|
                            {
                                &&& 0 <= k < self@.add_ons.len()
                                &&& (#[trigger] self@.add_ons[k].configuration) matches Some(c)
                                &&& c.pod_identity_role_arn is Some
                            };
                        assert({
                            &&& 0 <= k < self.add_ons@.len()
                            &&& (self.add_ons@[k]@.configuration) matches Some(c)
                            &&& c.pod_identity_role_arn is Some
                        });
                    }
                }
                assert(found == has_pod_identity_spec(self@.add_ons));
            }
            found
        };
        let enable_helm = should_enable_helm(&self.accelerator, &self.compute_scaling, self.require_efa);
        let enable_public_ecr_helm = should_enable_public_ecr_helm(&self.accelerator, &self.compute_scaling);
        Output {
            enable_accelerator: !matches!(self.accelerator, AcceleratorType::NoAccelerator),
            enable_nvidia_gpus: matches!(self.accelerator, AcceleratorType::Nvidia),
            enable_neuron_devices: matches!(self.accelerator, AcceleratorType::Neuron),
            enable_efa: self.require_efa,
            enable_add_ons: self.add_ons.len() > 0,
            enable_pod_identity,
            enable_helm,
            enable_public_ecr_helm,
            enable_auto_mode: matches!(self.compute_scaling, ScalingType::AutoMode),
            enable_karpenter: matches!(self.compute_scaling, ScalingType::Karpenter),
            enable_compute_reservation: !matches!(self.reservation, ReservationType::NoReservation),
            enable_odcr: matches!(self.reservation, ReservationType::OnDemandCapacityReservation),
            enable_ml_cbr: matches!(self.reservation, ReservationType::MlCapacityBlockReservation),
            add_ons: self.add_ons,
            ami_type: self.ami_type,
            cluster_endpoint_public_access: self.cluster_endpoint_public_access,
            cluster_name: self.cluster_name,
            cluster_version: self.cluster_version,
            control_plane_subnet_filter: self.control_plane_subnet_filter,
            cpu_arch: self.cpu_arch,
            data_plane_subnet_filter: self.data_plane_subnet_filter,
            default_ami_type: self.default_ami_type,
            default_instance_types: self.default_instance_types,
            enable_cluster_creator_admin_permissions: self.enable_cluster_creator_admin_permissions,
            instance_storage_supported: self.instance_storage_supported,
            instance_types: self.instance_types,
            reservation_availability_zone: self.reservation_availability_zone,
            vpc_name: self.vpc_name,
        }
    }
}

} // verus!
