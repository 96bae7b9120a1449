//! Batch resolution: named cluster specifications carry a partial override
//! for every configuration field; each one runs through the same resolution
//! rules as an interactive pass, starting from the standard record.

use vstd::prelude::*;

use crate::add_on::{add_on_spec, resolve_add_ons, AddOnType};
use crate::ami::{default_ami_type_spec, AmiType};
use crate::compute::{AcceleratorType, CpuArch, ReservationType, ScalingType};
use crate::error::{ConfigError, ConfigField};
use crate::inputs::{default_inputs_spec, default_instance_types_spec, Inputs, InputsView};
use crate::instance::instance_storage_supported_spec;
use crate::version::ClusterVersion;

verus! {

/// A partial override set: each field either pins a value or defers to the
/// standard record.
#[derive(Debug, PartialEq, Eq)]
pub struct ConfigInputs {
    pub accelerator: Option<AcceleratorType>,
    pub add_on_types: Option<Vec<AddOnType>>,
    pub ami_type: Option<AmiType>,
    pub endpoint_public_access: Option<bool>,
    pub kubernetes_version: Option<ClusterVersion>,
    pub control_plane_subnet_filter: Option<String>,
    pub compute_scaling: Option<ScalingType>,
    pub cpu_arch: Option<CpuArch>,
    pub data_plane_subnet_filter: Option<String>,
    pub enable_cluster_creator_admin_permissions: Option<bool>,
    pub require_efa: Option<bool>,
    pub instance_types: Option<Vec<String>>,
    pub reservation: Option<ReservationType>,
    pub reservation_availability_zone: Option<String>,
    pub vpc_name: Option<String>,
}

/// Mathematical image of a [`ConfigInputs`] override set.
pub ghost struct ConfigInputsView {
    pub accelerator: Option<AcceleratorType>,
    pub add_on_types: Option<Seq<AddOnType>>,
    pub ami_type: Option<AmiType>,
    pub endpoint_public_access: Option<bool>,
    pub kubernetes_version: Option<ClusterVersion>,
    pub control_plane_subnet_filter: Option<Seq<char>>,
    pub compute_scaling: Option<ScalingType>,
    pub cpu_arch: Option<CpuArch>,
    pub data_plane_subnet_filter: Option<Seq<char>>,
    pub enable_cluster_creator_admin_permissions: Option<bool>,
    pub require_efa: Option<bool>,
    pub instance_types: Option<Seq<Seq<char>>>,
    pub reservation: Option<ReservationType>,
    pub reservation_availability_zone: Option<Seq<char>>,
    pub vpc_name: Option<Seq<char>>,
}

impl View for ConfigInputs {
    type V = ConfigInputsView;

    open spec fn view(&self) -> ConfigInputsView {
        ConfigInputsView {
            accelerator: self.accelerator,
            add_on_types: match self.add_on_types {
                Option::Some(v) => Option::Some(v@),
                Option::None => Option::None,
            },
            ami_type: self.ami_type,
            endpoint_public_access: self.endpoint_public_access,
            kubernetes_version: self.kubernetes_version,
            control_plane_subnet_filter: match self.control_plane_subnet_filter {
                Option::Some(s) => Option::Some(s@),
                Option::None => Option::None,
            },
            compute_scaling: self.compute_scaling,
            cpu_arch: self.cpu_arch,
            data_plane_subnet_filter: match self.data_plane_subnet_filter {
                Option::Some(s) => Option::Some(s@),
                Option::None => Option::None,
            },
            enable_cluster_creator_admin_permissions: self.enable_cluster_creator_admin_permissions,
            require_efa: self.require_efa,
            instance_types: match self.instance_types {
                Option::Some(v) => Option::Some(v.deep_view()),
                Option::None => Option::None,
            },
            reservation: self.reservation,
            reservation_availability_zone: match self.reservation_availability_zone {
                Option::Some(s) => Option::Some(s@),
                Option::None => Option::None,
            },
            vpc_name: match self.vpc_name {
                Option::Some(s) => Option::Some(s@),
                Option::None => Option::None,
            },
        }
    }
}

impl Default for ConfigInputs {
    /// An override set that pins nothing.
    fn default() -> (r: ConfigInputs)
        ensures
            r@ == (ConfigInputsView {
                accelerator: Option::None,
                add_on_types: Option::None,
                ami_type: Option::None,
                endpoint_public_access: Option::None,
                kubernetes_version: Option::None,
                control_plane_subnet_filter: Option::None,
                compute_scaling: Option::None,
                cpu_arch: Option::None,
                data_plane_subnet_filter: Option::None,
                enable_cluster_creator_admin_permissions: Option::None,
                require_efa: Option::None,
                instance_types: Option::None,
                reservation: Option::None,
                reservation_availability_zone: Option::None,
                vpc_name: Option::None,
            }),
    {
        ConfigInputs {
            accelerator: None,
            add_on_types: None,
            ami_type: None,
            endpoint_public_access: None,
            kubernetes_version: None,
            control_plane_subnet_filter: None,
            compute_scaling: None,
            cpu_arch: None,
            data_plane_subnet_filter: None,
            enable_cluster_creator_admin_permissions: None,
            require_efa: None,
            instance_types: None,
            reservation: None,
            reservation_availability_zone: None,
            vpc_name: None,
        }
    }
}

/// One named cluster specification of a batch configuration.
#[derive(Debug, PartialEq, Eq)]
pub struct ClusterSpec {
    pub name: String,
    pub description: String,
    pub params: Option<ConfigInputs>,
}

/// Mathematical image of a [`ClusterSpec`].
pub ghost struct ClusterSpecView {
    pub name: Seq<char>,
    pub description: Seq<char>,
    pub params: Option<ConfigInputsView>,
}

impl View for ClusterSpec {
    type V = ClusterSpecView;

    open spec fn view(&self) -> ClusterSpecView {
        ClusterSpecView {
            name: self.name@,
            description: self.description@,
            params: match self.params {
                Option::Some(p) => Option::Some(p@),
                Option::None => Option::None,
            },
        }
    }
}

/// Whether the override set pins an empty instance-type list — the one
/// override the resolver refuses, since every record must select at least
/// one instance type.
pub open spec fn empty_instance_override(p: ConfigInputsView) -> bool {
    match p.instance_types {
        Option::Some(v) => v.len() == 0,
        Option::None => false,
    }
}

/// The record one batch pass produces: the standard record with each
/// pinned field replaced, before the derived fields are recomputed.
pub open spec fn apply_base_spec(p: ConfigInputsView, name: Seq<char>) -> InputsView {
    let d = default_inputs_spec();
    let accelerator = match p.accelerator {
        Option::Some(v) => v,
        Option::None => d.accelerator,
    };
    let add_ons = match p.add_on_types {
        Option::Some(ts) => ts.map_values(|t: AddOnType| add_on_spec(t)),
        Option::None => d.add_ons,
    };
    let ami_type = match p.ami_type {
        Option::Some(v) => v,
        Option::None => d.ami_type,
    };
    let cluster_endpoint_public_access = match p.endpoint_public_access {
        Option::Some(v) => v,
        Option::None => d.cluster_endpoint_public_access,
    };
    let cluster_version = match p.kubernetes_version {
        Option::Some(v) => v,
        Option::None => d.cluster_version,
    };
    let control_plane_subnet_filter = match p.control_plane_subnet_filter {
        Option::Some(v) => v,
        Option::None => d.control_plane_subnet_filter,
    };
    let compute_scaling = match p.compute_scaling {
        Option::Some(v) => v,
        Option::None => d.compute_scaling,
    };
    let cpu_arch = match p.cpu_arch {
        Option::Some(v) => v,
        Option::None => d.cpu_arch,
    };
    let data_plane_subnet_filter = match p.data_plane_subnet_filter {
        Option::Some(v) => v,
        Option::None => d.data_plane_subnet_filter,
    };
    let enable_cluster_creator_admin_permissions = match p.enable_cluster_creator_admin_permissions {
        Option::Some(v) => v,
        Option::None => d.enable_cluster_creator_admin_permissions,
    };
    let require_efa = match p.require_efa {
        Option::Some(v) => v,
        Option::None => d.require_efa,
    };
    let instance_types = match p.instance_types {
        Option::Some(v) => v,
        Option::None => d.instance_types,
    };
    let reservation = match p.reservation {
        Option::Some(v) => v,
        Option::None => d.reservation,
    };
    let reservation_availability_zone = match p.reservation_availability_zone {
        Option::Some(v) => v,
        Option::None => d.reservation_availability_zone,
    };
    let vpc_name = match p.vpc_name {
        Option::Some(v) => v,
        Option::None => d.vpc_name,
    };
    InputsView {
        accelerator,
        add_ons,
        ami_type,
        cluster_endpoint_public_access,
        cluster_name: name,
        cluster_version,
        control_plane_subnet_filter,
        compute_scaling,
        cpu_arch,
        data_plane_subnet_filter,
        default_ami_type: d.default_ami_type,
        default_instance_types: d.default_instance_types,
        enable_cluster_creator_admin_permissions,
        require_efa,
        instance_storage_supported: d.instance_storage_supported,
        instance_types,
        reservation,
        reservation_availability_zone,
        vpc_name,
    }
}

/// The record one batch pass produces: the standard record, each pinned
/// field replaced, and the derived fields (instance storage, fallback node
/// group) recomputed from what was pinned.
pub open spec fn apply_overrides_spec(p: ConfigInputsView, name: Seq<char>) -> InputsView {
    let b = apply_base_spec(p, name);
    let default_ami_type = default_ami_type_spec(b.ami_type, b.cpu_arch);
    InputsView {
        instance_storage_supported: instance_storage_supported_spec(b.instance_types, b.ami_type),
        default_ami_type,
        default_instance_types: default_instance_types_spec(default_ami_type),
        ..b
    }
}

/// Apply a partial override set to the standard record and recompute the
/// derived fields. Pinning an empty instance-type list is refused; every
/// other override set resolves.
#[verifier::rlimit(100)]
#[verifier::spinoff_prover]
pub fn update_default_inputs(params: ConfigInputs, name: String) -> (r: Result<Inputs, ConfigError>)
    ensures
        match r {
            Ok(inp) => !empty_instance_override(params@) && inp@ == apply_overrides_spec(params@, name@),
            Err(e) => empty_instance_override(params@) && e == ConfigError::EmptySelection(
                ConfigField::InstanceTypes,
            ),
        },
{
    let ghost pv = params@;
    if let Some(v) = &params.instance_types {
        if v.len() == 0 {
            return Err(ConfigError::EmptySelection(ConfigField::InstanceTypes));
        }
    }
    let base = apply_base(params, name);
    let inputs = base.collect_storage_settings().collect_default_node_group_settings();
    Ok(inputs)
}

/// The standard record with each pinned field of the override set replaced.
#[verifier::rlimit(100)]
#[verifier::spinoff_prover]
fn apply_base(params: ConfigInputs, name: String) -> (r: Inputs)
    ensures
        r@ == apply_base_spec(params@, name@),
{
    let ghost pv = params@;
    let d = Inputs::default();
    let accelerator = match params.accelerator {
        Some(v) => v,
        None => d.accelerator,
    };
    let add_ons = match params.add_on_types {
        Some(ts) => resolve_add_ons(&ts),
        None => d.add_ons,
    };
    let ami_type = match params.ami_type {
        Some(v) => v,
        None => d.ami_type,
    };
    let cluster_endpoint_public_access = match params.endpoint_public_access {
        Some(v) => v,
        None => d.cluster_endpoint_public_access,
    };
    let cluster_version = match params.kubernetes_version {
        Some(v) => v,
        None => d.cluster_version,
    };
    let control_plane_subnet_filter = match params.control_plane_subnet_filter {
        Some(v) => v,
        None => d.control_plane_subnet_filter,
    };
    let compute_scaling = match params.compute_scaling {
        Some(v) => v,
        None => d.compute_scaling,
    };
    let cpu_arch = match params.cpu_arch {
        Some(v) => v,
        None => d.cpu_arch,
    };
    let data_plane_subnet_filter = match params.data_plane_subnet_filter {
        Some(v) => v,
        None => d.data_plane_subnet_filter,
    };
    let enable_cluster_creator_admin_permissions = match params.enable_cluster_creator_admin_permissions {
        Some(v) => v,
        None => d.enable_cluster_creator_admin_permissions,
    };
    let require_efa = match params.require_efa {
        Some(v) => v,
        None => d.require_efa,
    };
    let instance_types = match params.instance_types {
        Some(v) => v,
        None => d.instance_types,
    };
    let reservation = match params.reservation {
        Some(v) => v,
        None => d.reservation,
    };
    let reservation_availability_zone = match params.reservation_availability_zone {
        Some(v) => v,
        None => d.reservation_availability_zone,
    };
    let vpc_name = match params.vpc_name {
        Some(v) => v,
        None => d.vpc_name,
    };
    let r = Inputs {
        accelerator,
        add_ons,
        ami_type,
        cluster_endpoint_public_access,
        cluster_name: name,
        cluster_version,
        control_plane_subnet_filter,
        compute_scaling,
        cpu_arch,
        data_plane_subnet_filter,
        default_ami_type: d.default_ami_type,
        default_instance_types: d.default_instance_types,
        enable_cluster_creator_admin_permissions,
        require_efa,
        instance_storage_supported: d.instance_storage_supported,
        instance_types,
        reservation,
        reservation_availability_zone,
        vpc_name,
    };
    proof {
        let av = apply_base_spec(pv, name@);
        assert(r@.accelerator == av.accelerator);
        assert(r@.add_ons == av.add_ons);
        assert(r@.ami_type == av.ami_type);
        assert(r@.cluster_endpoint_public_access == av.cluster_endpoint_public_access);
        assert(r@.cluster_name == av.cluster_name);
        assert(r@.cluster_version == av.cluster_version);
        assert(r@.control_plane_subnet_filter == av.control_plane_subnet_filter);
        assert(r@.compute_scaling == av.compute_scaling);
        assert(r@.cpu_arch == av.cpu_arch);
        assert(r@.data_plane_subnet_filter == av.data_plane_subnet_filter);
        assert(r@.default_ami_type == av.default_ami_type);
        assert(r@.default_instance_types == av.default_instance_types);
        assert(r@.enable_cluster_creator_admin_permissions == av.enable_cluster_creator_admin_permissions);
        assert(r@.require_efa == av.require_efa);
        assert(r@.instance_storage_supported == av.instance_storage_supported);
        assert(r@.instance_types == av.instance_types);
        assert(r@.reservation == av.reservation);
        assert(r@.reservation_availability_zone == av.reservation_availability_zone);
        assert(r@.vpc_name == av.vpc_name);
        assert(r@ == av);
    }
    r
}

/// The add-on types a record pins when it is fed back through the resolver:
/// the pinned types of the first pass where there were any, else the
/// registry's default selection.
pub open spec fn pinned_add_on_types_spec(p: ConfigInputsView) -> Seq<AddOnType> {
    match p.add_on_types {
        Option::Some(ts) => ts,
        Option::None => seq![
            AddOnType::CoreDns,
            AddOnType::EksNodeMonitoringAgent,
            AddOnType::EksPodIdentityAgent,
            AddOnType::KubeProxy,
            AddOnType::VpcCni,
        ],
    }
}

/// The fully-specified override set that pins every field of a resolved
/// record.
pub open spec fn pin_record_spec(r: InputsView, add_on_types: Seq<AddOnType>) -> ConfigInputsView {
    ConfigInputsView {
        accelerator: Option::Some(r.accelerator),
        add_on_types: Option::Some(add_on_types),
        ami_type: Option::Some(r.ami_type),
        endpoint_public_access: Option::Some(r.cluster_endpoint_public_access),
        kubernetes_version: Option::Some(r.cluster_version),
        control_plane_subnet_filter: Option::Some(r.control_plane_subnet_filter),
        compute_scaling: Option::Some(r.compute_scaling),
        cpu_arch: Option::Some(r.cpu_arch),
        data_plane_subnet_filter: Option::Some(r.data_plane_subnet_filter),
        enable_cluster_creator_admin_permissions: Option::Some(r.enable_cluster_creator_admin_permissions),
        require_efa: Option::Some(r.require_efa),
        instance_types: Option::Some(r.instance_types),
        reservation: Option::Some(r.reservation),
        reservation_availability_zone: Option::Some(r.reservation_availability_zone),
        vpc_name: Option::Some(r.vpc_name),
    }
}

/// Idempotence of batch resolution: take the record a pass produces, pin
/// every one of its fields as a new override set, and run the resolver
/// again — the second record is identical to the first. The derived fields
/// are stable because they are functions of the pinned fields alone.
pub proof fn lemma_resolver_idempotent(p: ConfigInputsView, name: Seq<char>)
    ensures
        ({
            let r1 = apply_overrides_spec(p, name);
            apply_overrides_spec(pin_record_spec(r1, pinned_add_on_types_spec(p)), r1.cluster_name) == r1
        }),
{
    let r1 = apply_overrides_spec(p, name);
    let r2 = apply_overrides_spec(pin_record_spec(r1, pinned_add_on_types_spec(p)), r1.cluster_name);
    if p.add_on_types is None {
        assert(r1.add_ons =~= pinned_add_on_types_spec(p).map_values(|t: AddOnType| add_on_spec(t)));
    }
    assert(r2.add_ons == r1.add_ons);
}

/// The starter-template names of a batch configuration, in file order.
pub fn get_starter_templates(clusters: &Vec<ClusterSpec>) -> (r: Vec<String>)
    ensures
        r@.len() == clusters@.len(),
        forall|k: int| 0 <= k < clusters@.len() ==> (#[trigger] r@[k])@ == clusters@[k]@.name,
{
    let mut r: Vec<String> = Vec::new();
    let mut i: usize = 0;
    while i < clusters.len()
        invariant
            i <= clusters@.len(),
            r@.len() == i,
            forall|k: int| 0 <= k < i ==> (#[trigger] r@[k])@ == clusters@[k]@.name,
        decreases clusters@.len() - i,
    {
        r.push(clusters[i].name.clone());
        i = i + 1;
    }
    r
}

/// Resolve the first cluster specification whose name equals
/// `template_name`: its override set runs through the resolver, a
/// specification without one yields the standard record, and an unknown
/// name is an error.
pub fn generate_from_template(template_name: &str, clusters: Vec<ClusterSpec>) -> (r: Result<
    Inputs,
    ConfigError,
>)
    ensures
        match r {
            Ok(inp) => exists|j: int|
                {
                    &&& 0 <= j < clusters@.len()
                    &&& (#[trigger] clusters@[j])@.name == template_name@
                    &&& forall|k: int| 0 <= k < j ==> (#[trigger] clusters@[k])@.name != template_name@
                    &&& match clusters@[j]@.params {
                        Option::Some(p) => !empty_instance_override(p) && inp@ == apply_overrides_spec(
                            p,
                            clusters@[j]@.name,
                        ),
                        Option::None => inp@ == default_inputs_spec(),
                    }
                },
            Err(e) => if e == ConfigError::UnknownTemplate {
                forall|k: int| 0 <= k < clusters@.len() ==> (#[trigger] clusters@[k])@.name != template_name@
            } else {
                e == ConfigError::EmptySelection(ConfigField::InstanceTypes) && exists|j: int|
                    {
                        &&& 0 <= j < clusters@.len()
                        &&& (#[trigger] clusters@[j])@.name == template_name@
                        &&& forall|k: int| 0 <= k < j ==> (#[trigger] clusters@[k])@.name != template_name@
                        &&& clusters@[j]@.params matches Option::Some(p)
                        &&& empty_instance_override(p)
                    }
            },
        },
{
    let ghost cv = clusters@;
    let mut specs = clusters;
    let mut i: usize = 0;
    let mut found: Option<usize> = None;
    while i < specs.len()
        invariant
            i <= specs@.len(),
            specs@ == cv,
            match found {
                Option::Some(j) => {
                    &&& 0 <= j < i
                    &&& cv[j as int]@.name == template_name@
                    &&& forall|k: int| 0 <= k < j ==> (#[trigger] cv[k])@.name != template_name@
                },
                Option::None => forall|k: int| 0 <= k < i ==> (#[trigger] cv[k])@.name != template_name@,
            },
        decreases specs@.len() - i,
    {
        if found.is_none() {
            if crate::str_eq(specs[i].name.as_str(), template_name) {
                found = Some(i);
            }
        }
        i = i + 1;
    }
    let j = match found {
        Some(j) => j,
        None => {
            return Err(ConfigError::UnknownTemplate);
        }
    };
    let spec_j = specs.remove(j);
    match spec_j.params {
        Some(p) => {
            match update_default_inputs(p, spec_j.name) {
                Ok(inp) => Ok(inp),
                Err(e) => Err(e),
            }
        }
        None => Ok(Inputs::default()),
    }
}

} // verus!
