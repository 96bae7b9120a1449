//! The static instance-type catalog and its pure filter surface: which
//! instance types are admissible for a choice of CPU architecture, EFA
//! requirement, accelerator and reservation, the single-instance collapse
//! rule, and the instance-storage derivation.

use vstd::prelude::*;

use crate::ami::{storage_capable_family, AmiType};
use crate::compute::{AcceleratorType, CpuArch, ReservationType};
use crate::error::{ConfigError, ConfigField};

verus! {

/// One catalog entry: an instance type name and its capability flags.
#[derive(Debug, PartialEq, Eq)]
pub struct InstanceProfile {
    pub instance_type: String,
    pub cpu_arch: CpuArch,
    pub efa_supported: bool,
    pub nvidia_gpu_supported: bool,
    pub neuron_supported: bool,
    pub cbr_supported: bool,
    pub instance_storage_supported: bool,
}

/// Mathematical image of an [`InstanceProfile`].
pub ghost struct InstanceProfileView {
    pub instance_type: Seq<char>,
    pub cpu_arch: CpuArch,
    pub efa_supported: bool,
    pub nvidia_gpu_supported: bool,
    pub neuron_supported: bool,
    pub cbr_supported: bool,
    pub instance_storage_supported: bool,
}

impl View for InstanceProfile {
    type V = InstanceProfileView;

    open spec fn view(&self) -> InstanceProfileView {
        InstanceProfileView {
            instance_type: self.instance_type@,
            cpu_arch: self.cpu_arch,
            efa_supported: self.efa_supported,
            nvidia_gpu_supported: self.nvidia_gpu_supported,
            neuron_supported: self.neuron_supported,
            cbr_supported: self.cbr_supported,
            instance_storage_supported: self.instance_storage_supported,
        }
    }
}

/// Shorthand for writing one catalog row.
pub open spec fn profile_row(
    name: Seq<char>,
    cpu_arch: CpuArch,
    efa: bool,
    nvidia: bool,
    neuron: bool,
    cbr: bool,
    storage: bool,
) -> InstanceProfileView {
    InstanceProfileView {
        instance_type: name,
        cpu_arch: cpu_arch,
        efa_supported: efa,
        nvidia_gpu_supported: nvidia,
        neuron_supported: neuron,
        cbr_supported: cbr,
        instance_storage_supported: storage,
    }
}

/// The bundled catalog, in declaration order. The order is stable: it drives
/// prompt rendering and the "last selected" tie-break of the collapse rule.
pub open spec fn instance_catalog_spec() -> Seq<InstanceProfileView> {
    seq![
        // x86-64, no accelerator
        profile_row("m5.large"@, CpuArch::X8664, false, false, false, false, false),
        profile_row("m5d.large"@, CpuArch::X8664, false, false, false, false, true),
        profile_row("m7a.xlarge"@, CpuArch::X8664, false, false, false, false, false),
        profile_row("m7i.xlarge"@, CpuArch::X8664, false, false, false, false, false),
        profile_row("c5.large"@, CpuArch::X8664, false, false, false, false, false),
        profile_row("r5.large"@, CpuArch::X8664, false, false, false, false, false),
        profile_row("t3.micro"@, CpuArch::X8664, false, false, false, false, false),
        profile_row("c6in.32xlarge"@, CpuArch::X8664, true, false, false, false, false),
        // arm64, no accelerator
        profile_row("m6g.xlarge"@, CpuArch::Arm64, false, false, false, false, false),
        profile_row("m7g.large"@, CpuArch::Arm64, false, false, false, false, false),
        profile_row("m7g.xlarge"@, CpuArch::Arm64, false, false, false, false, false),
        profile_row("m7gd.2xlarge"@, CpuArch::Arm64, false, false, false, false, true),
        profile_row("c7g.large"@, CpuArch::Arm64, false, false, false, false, false),
        profile_row("r7g.large"@, CpuArch::Arm64, false, false, false, false, false),
        profile_row("c7gn.16xlarge"@, CpuArch::Arm64, true, false, false, false, false),
        // x86-64, NVIDIA GPUs
        profile_row("g5.8xlarge"@, CpuArch::X8664, false, true, false, false, true),
        profile_row("g5.24xlarge"@, CpuArch::X8664, true, true, false, false, true),
        profile_row("g6e.2xlarge"@, CpuArch::X8664, false, true, false, false, true),
        profile_row("g6e.24xlarge"@, CpuArch::X8664, true, true, false, false, true),
        profile_row("p4d.24xlarge"@, CpuArch::X8664, true, true, false, true, true),
        profile_row("p5.48xlarge"@, CpuArch::X8664, true, true, false, true, true),
        profile_row("p5e.48xlarge"@, CpuArch::X8664, true, true, false, false, true),
        profile_row("p5en.48xlarge"@, CpuArch::X8664, true, true, false, true, true),
        // x86-64, AWS Neuron
        profile_row("inf2.xlarge"@, CpuArch::X8664, false, false, true, false, false),
        profile_row("inf2.8xlarge"@, CpuArch::X8664, false, false, true, false, false),
        profile_row("inf2.48xlarge"@, CpuArch::X8664, false, false, true, false, false),
        profile_row("trn1.2xlarge"@, CpuArch::X8664, false, false, true, false, true),
        profile_row("trn1.32xlarge"@, CpuArch::X8664, true, false, true, true, true),
        profile_row("trn1n.32xlarge"@, CpuArch::X8664, true, false, true, false, true),
        profile_row("trn2.48xlarge"@, CpuArch::X8664, true, false, true, true, true),
    ]
}

/// The four admissibility predicates of the filter: architecture, EFA,
/// accelerator dispatch (an accelerator-capable instance never appears under
/// "no accelerator"), and capacity-block support.
pub open spec fn profile_matches(
    p: InstanceProfileView,
    cpu_arch: CpuArch,
    require_efa: bool,
    accelerator: AcceleratorType,
    reservation: ReservationType,
) -> bool {
    &&& p.cpu_arch == cpu_arch
    &&& (require_efa ==> p.efa_supported)
    &&& match accelerator {
        AcceleratorType::Nvidia => p.nvidia_gpu_supported,
        AcceleratorType::Neuron => p.neuron_supported,
        AcceleratorType::NoAccelerator => !p.nvidia_gpu_supported && !p.neuron_supported,
    }
    &&& (reservation == ReservationType::MlCapacityBlockReservation ==> p.cbr_supported)
}

/// The rows of `s` that match all four predicates, in order.
pub open spec fn filtered_profiles_of(
    s: Seq<InstanceProfileView>,
    cpu_arch: CpuArch,
    require_efa: bool,
    accelerator: AcceleratorType,
    reservation: ReservationType,
) -> Seq<InstanceProfileView>
    decreases s.len(),
{
    if s.len() == 0 {
        Seq::empty()
    } else {
        let rest = filtered_profiles_of(s.drop_last(), cpu_arch, require_efa, accelerator, reservation);
        if profile_matches(s.last(), cpu_arch, require_efa, accelerator, reservation) {
            rest.push(s.last())
        } else {
            rest
        }
    }
}

/// The catalog rows admissible for the given choices, in catalog order.
pub open spec fn filtered_instance_profiles(
    cpu_arch: CpuArch,
    require_efa: bool,
    accelerator: AcceleratorType,
    reservation: ReservationType,
) -> Seq<InstanceProfileView> {
    filtered_profiles_of(instance_catalog_spec(), cpu_arch, require_efa, accelerator, reservation)
}

/// The names of the admissible catalog rows, in catalog order.
pub open spec fn filtered_instance_names(
    cpu_arch: CpuArch,
    require_efa: bool,
    accelerator: AcceleratorType,
    reservation: ReservationType,
) -> Seq<Seq<char>> {
    filtered_instance_profiles(cpu_arch, require_efa, accelerator, reservation).map_values(
        |p: InstanceProfileView| p.instance_type,
    )
}

/// Append one catalog row.
fn push_profile(
    v: &mut Vec<InstanceProfile>,
    name: &str,
    cpu_arch: CpuArch,
    efa: bool,
    nvidia: bool,
    neuron: bool,
    cbr: bool,
    storage: bool,
)
    ensures
        final(v)@.len() == old(v)@.len() + 1,
        forall|k: int| 0 <= k < old(v)@.len() ==> final(v)@[k] == old(v)@[k],
        final(v)@[old(v)@.len() as int]@ == profile_row(name@, cpu_arch, efa, nvidia, neuron, cbr, storage),
{
    v.push(
        InstanceProfile {
            instance_type: name.to_owned(),
            cpu_arch: cpu_arch,
            efa_supported: efa,
            nvidia_gpu_supported: nvidia,
            neuron_supported: neuron,
            cbr_supported: cbr,
            instance_storage_supported: storage,
        },
    );
}

/// The bundled catalog as an owned table, row for row equal to
/// [`instance_catalog_spec`].
pub fn instance_catalog() -> (r: Vec<InstanceProfile>)
    ensures
        r@.len() == instance_catalog_spec().len(),
        forall|k: int| 0 <= k < r@.len() ==> #[trigger] r@[k]@ == instance_catalog_spec()[k],
{
    let mut r: Vec<InstanceProfile> = Vec::new();
    push_profile(&mut r, "m5.large", CpuArch::X8664, false, false, false, false, false);
    push_profile(&mut r, "m5d.large", CpuArch::X8664, false, false, false, false, true);
    push_profile(&mut r, "m7a.xlarge", CpuArch::X8664, false, false, false, false, false);
    push_profile(&mut r, "m7i.xlarge", CpuArch::X8664, false, false, false, false, false);
    push_profile(&mut r, "c5.large", CpuArch::X8664, false, false, false, false, false);
    push_profile(&mut r, "r5.large", CpuArch::X8664, false, false, false, false, false);
    push_profile(&mut r, "t3.micro", CpuArch::X8664, false, false, false, false, false);
    push_profile(&mut r, "c6in.32xlarge", CpuArch::X8664, true, false, false, false, false);
    push_profile(&mut r, "m6g.xlarge", CpuArch::Arm64, false, false, false, false, false);
    push_profile(&mut r, "m7g.large", CpuArch::Arm64, false, false, false, false, false);
    push_profile(&mut r, "m7g.xlarge", CpuArch::Arm64, false, false, false, false, false);
    push_profile(&mut r, "m7gd.2xlarge", CpuArch::Arm64, false, false, false, false, true);
    push_profile(&mut r, "c7g.large", CpuArch::Arm64, false, false, false, false, false);
    push_profile(&mut r, "r7g.large", CpuArch::Arm64, false, false, false, false, false);
    push_profile(&mut r, "c7gn.16xlarge", CpuArch::Arm64, true, false, false, false, false);
    push_profile(&mut r, "g5.8xlarge", CpuArch::X8664, false, true, false, false, true);
    push_profile(&mut r, "g5.24xlarge", CpuArch::X8664, true, true, false, false, true);
    push_profile(&mut r, "g6e.2xlarge", CpuArch::X8664, false, true, false, false, true);
    push_profile(&mut r, "g6e.24xlarge", CpuArch::X8664, true, true, false, false, true);
    push_profile(&mut r, "p4d.24xlarge", CpuArch::X8664, true, true, false, true, true);
    push_profile(&mut r, "p5.48xlarge", CpuArch::X8664, true, true, false, true, true);
    push_profile(&mut r, "p5e.48xlarge", CpuArch::X8664, true, true, false, false, true);
    push_profile(&mut r, "p5en.48xlarge", CpuArch::X8664, true, true, false, true, true);
    push_profile(&mut r, "inf2.xlarge", CpuArch::X8664, false, false, true, false, false);
    push_profile(&mut r, "inf2.8xlarge", CpuArch::X8664, false, false, true, false, false);
    push_profile(&mut r, "inf2.48xlarge", CpuArch::X8664, false, false, true, false, false);
    push_profile(&mut r, "trn1.2xlarge", CpuArch::X8664, false, false, true, false, true);
    push_profile(&mut r, "trn1.32xlarge", CpuArch::X8664, true, false, true, true, true);
    push_profile(&mut r, "trn1n.32xlarge", CpuArch::X8664, true, false, true, false, true);
    push_profile(&mut r, "trn2.48xlarge", CpuArch::X8664, true, false, true, true, true);
    proof {
        assert(instance_catalog_spec().len() == 30);
        assert forall|k: int| 0 <= k < r@.len() implies #[trigger] r@[k]@ == instance_catalog_spec()[k] by {
        }
    }
    r
}

/// The catalog rows matching the architecture, EFA, accelerator and
/// reservation filters, in catalog order.
pub fn get_instance_types(
    cpu_arch: &CpuArch,
    require_efa: bool,
    accelerator: &AcceleratorType,
    reservation: &ReservationType,
) -> (r: Vec<InstanceProfile>)
    ensures
        r@.len() == filtered_instance_profiles(*cpu_arch, require_efa, *accelerator, *reservation).len(),
        forall|k: int| 0 <= k < r@.len() ==> #[trigger] r@[k]@ == filtered_instance_profiles(
            *cpu_arch,
            require_efa,
            *accelerator,
            *reservation,
        )[k],
{
    let catalog = instance_catalog();
    let ghost cs = instance_catalog_spec();
    let mut r: Vec<InstanceProfile> = Vec::new();
    let mut i: usize = 0;
    while i < catalog.len()
        invariant
            i <= catalog@.len(),
            catalog@.len() == cs.len(),
            forall|k: int| 0 <= k < catalog@.len() ==> #[trigger] catalog@[k]@ == cs[k],
            cs == instance_catalog_spec(),
            r@.len() == filtered_profiles_of(cs.take(i as int), *cpu_arch, require_efa, *accelerator, *reservation).len(),
            forall|k: int| 0 <= k < r@.len() ==> #[trigger] r@[k]@ == filtered_profiles_of(
                cs.take(i as int),
                *cpu_arch,
                require_efa,
                *accelerator,
                *reservation,
            )[k],
        decreases catalog@.len() - i,
    {
        let p = &catalog[i];
        let arch_ok = p.cpu_arch == *cpu_arch;
        let efa_ok = if require_efa {
            p.efa_supported
        } else {
            true
        };
        let accel_ok = match accelerator {
            AcceleratorType::Nvidia => p.nvidia_gpu_supported,
            AcceleratorType::Neuron => p.neuron_supported,
            AcceleratorType::NoAccelerator => !p.nvidia_gpu_supported && !p.neuron_supported,
        };
        let cbr_ok = match reservation {
            ReservationType::MlCapacityBlockReservation => p.cbr_supported,
            _ => true,
        };
        proof {
            let prev = filtered_profiles_of(cs.take(i as int), *cpu_arch, require_efa, *accelerator, *reservation);
            let cur = filtered_profiles_of(cs.take(i + 1), *cpu_arch, require_efa, *accelerator, *reservation);
            assert(cs.take(i + 1).drop_last() =~= cs.take(i as int));
            assert(cs.take(i + 1).last() == cs[i as int]);
            assert(catalog@[i as int]@ == cs[i as int]);
            assert(profile_matches(cs[i as int], *cpu_arch, require_efa, *accelerator, *reservation)
                == (arch_ok && efa_ok && accel_ok && cbr_ok));
            assert(cur == if profile_matches(cs[i as int], *cpu_arch, require_efa, *accelerator, *reservation) {
                prev.push(cs[i as int])
            } else {
                prev
            });
        }
        if arch_ok && efa_ok && accel_ok && cbr_ok {
            let q = InstanceProfile {
                instance_type: p.instance_type.clone(),
                cpu_arch: p.cpu_arch,
                efa_supported: p.efa_supported,
                nvidia_gpu_supported: p.nvidia_gpu_supported,
                neuron_supported: p.neuron_supported,
                cbr_supported: p.cbr_supported,
                instance_storage_supported: p.instance_storage_supported,
            };
            r.push(q);
            proof {
                assert(r@[r@.len() - 1]@ == cs[i as int]);
            }
        }
        i = i + 1;
        proof {
            assert forall|k: int|
                0 <= k < r@.len() implies #[trigger] r@[k]@ == filtered_profiles_of(
                cs.take(i as int),
                *cpu_arch,
                require_efa,
                *accelerator,
                *reservation,
            )[k] by {}
        }
    }
    proof {
        assert(cs.take(cs.len() as int) =~= cs);
    }
    r
}

/// The names of the admissible instance types, in catalog order.
pub fn get_instance_type_names(
    cpu_arch: &CpuArch,
    require_efa: bool,
    accelerator: &AcceleratorType,
    reservation: &ReservationType,
) -> (r: Vec<String>)
    ensures
        r.deep_view() == filtered_instance_names(*cpu_arch, require_efa, *accelerator, *reservation),
{
    let profiles = get_instance_types(cpu_arch, require_efa, accelerator, reservation);
    let ghost fs = filtered_instance_profiles(*cpu_arch, require_efa, *accelerator, *reservation);
    let mut r: Vec<String> = Vec::new();
    let mut i: usize = 0;
    while i < profiles.len()
        invariant
            i <= profiles@.len(),
            profiles@.len() == fs.len(),
            forall|k: int| 0 <= k < profiles@.len() ==> #[trigger] profiles@[k]@ == fs[k],
            r@.len() == i,
            forall|k: int| 0 <= k < i ==> #[trigger] r@[k]@ == fs[k].instance_type,
        decreases profiles@.len() - i,
    {
        r.push(profiles[i].instance_type.clone());
        proof {
            assert(profiles@[i as int]@ == fs[i as int]);
            assert(r@[i as int]@ == fs[i as int].instance_type);
        }
        i = i + 1;
    }
    proof {
        assert(r.deep_view() =~= fs.map_values(|p: InstanceProfileView| p.instance_type));
    }
    r
}

/// Which names a selection resolves to: under a reservation or EFA only the
/// last-indexed selection is kept (shape homogeneity); otherwise every
/// selected index is kept, in selection order.
pub open spec fn limited_selection_spec(
    reservation: ReservationType,
    require_efa: bool,
    names: Seq<Seq<char>>,
    idxs: Seq<usize>,
) -> Seq<Seq<char>> {
    if reservation != ReservationType::NoReservation || require_efa {
        seq![names[idxs.last() as int]]
    } else {
        idxs.map_values(|ix: usize| names[ix as int])
    }
}

/// Apply the single-instance collapse rule to a multi-selection over the
/// candidate names. At least one selection is mandatory.
pub fn limit_instances_selected(
    reservation: &ReservationType,
    require_efa: bool,
    instance_type_names: Vec<String>,
    instance_idxs: Vec<usize>,
) -> (r: Result<Vec<String>, ConfigError>)
    requires
        forall|k: int| 0 <= k < instance_idxs@.len() ==> #[trigger] instance_idxs@[k] < instance_type_names@.len(),
    ensures
        match r {
            Ok(v) => {
                &&& instance_idxs@.len() > 0
                &&& v.deep_view() == limited_selection_spec(
                    *reservation,
                    require_efa,
                    instance_type_names.deep_view(),
                    instance_idxs@,
                )
                &&& (*reservation != ReservationType::NoReservation || require_efa) ==> v@.len() == 1
            },
            Err(e) => {
                &&& instance_idxs@.len() == 0
                &&& e == ConfigError::EmptySelection(ConfigField::InstanceTypes)
            },
        },
{
    if instance_idxs.len() == 0 {
        return Err(ConfigError::EmptySelection(ConfigField::InstanceTypes));
    }

    let collapse = match reservation {
        ReservationType::NoReservation => require_efa,
        _ => true,
    };
    if collapse {
        let last = instance_idxs[instance_idxs.len() - 1];
        let mut v: Vec<String> = Vec::new();
        v.push(instance_type_names[last].clone());
        proof {
            assert(v.deep_view() =~= limited_selection_spec(
                *reservation,
                require_efa,
                instance_type_names.deep_view(),
                instance_idxs@,
            ));
        }
        Ok(v)
    } else {
        let mut v: Vec<String> = Vec::new();
        let mut i: usize = 0;
        while i < instance_idxs.len()
            invariant
                i <= instance_idxs@.len(),
                forall|k: int| 0 <= k < instance_idxs@.len() ==> #[trigger] instance_idxs@[k]
                    < instance_type_names@.len(),
                v@.len() == i,
                forall|k: int| 0 <= k < i ==> #[trigger] v@[k]@ == instance_type_names@[
                    instance_idxs@[k] as int
                ]@,
            decreases instance_idxs@.len() - i,
        {
            let ix = instance_idxs[i];
            v.push(instance_type_names[ix].clone());
            i = i + 1;
        }
        proof {
            assert(v.deep_view() =~= limited_selection_spec(
                *reservation,
                require_efa,
                instance_type_names.deep_view(),
                instance_idxs@,
            ));
        }
        Ok(v)
    }
}

/// Whether every catalog row named in `names` supports instance storage.
/// A name the catalog does not know constrains nothing.
pub open spec fn named_instances_support_storage(names: Seq<Seq<char>>) -> bool {
    forall|j: int|
        0 <= j < instance_catalog_spec().len() && names.contains(
            #[trigger] instance_catalog_spec()[j].instance_type,
        ) ==> instance_catalog_spec()[j].instance_storage_supported
}

/// Instance storage is usable only when every selected instance supports it
/// and the AMI family belongs to the storage-capable subset.
pub open spec fn instance_storage_supported_spec(names: Seq<Seq<char>>, ami_type: AmiType) -> bool {
    storage_capable_family(ami_type) && named_instances_support_storage(names)
}

/// Whether `names` holds a string equal to `target`.
fn contains_string(names: &Vec<String>, target: &String) -> (r: bool)
    ensures
        r == names.deep_view().contains(target@),
{
    let mut i: usize = 0;
    let mut found = false;
    while i < names.len()
        invariant
            i <= names@.len(),
            found <==> exists|k: int| 0 <= k < i && #[trigger] names@[k]@ == target@,
        decreases names@.len() - i,
    {
        if names[i].eq(target) {
            found = true;
        }
        i = i + 1;
    }
    proof {
        if found {
            let k = choose|k: int| 0 <= k < names@.len() && #[trigger] names@[k]@ == target@;
            assert(names.deep_view()[k] == target@);
        }
        if names.deep_view().contains(target@) {
            let k = choose|k: int| 0 <= k < names.deep_view().len() && names.deep_view()[k] == target@;
            assert(names@[k]@ == target@);
        }
    }
    found
}

/// Derive whether the resolved node group can use instance storage.
pub fn instance_storage_supported(instance_types: &Vec<String>, ami_type: &AmiType) -> (r: bool)
    ensures
        r == instance_storage_supported_spec(instance_types.deep_view(), *ami_type),
{
    let catalog = instance_catalog();
    let ghost cs = instance_catalog_spec();
    let mut all_support = true;
    let mut i: usize = 0;
    while i < catalog.len()
        invariant
            i <= catalog@.len(),
            catalog@.len() == cs.len(),
            forall|k: int| 0 <= k < catalog@.len() ==> #[trigger] catalog@[k]@ == cs[k],
            cs == instance_catalog_spec(),
            all_support <==> forall|j: int|
                0 <= j < i && instance_types.deep_view().contains(#[trigger] cs[j].instance_type)
                    ==> cs[j].instance_storage_supported,
        decreases catalog@.len() - i,
    {
        let named = contains_string(instance_types, &catalog[i].instance_type);
        proof {
            assert(catalog@[i as int]@ == cs[i as int]);
            assert(named == instance_types.deep_view().contains(cs[i as int].instance_type));
        }
        let ghost was_supported = all_support;
        if named && !catalog[i].instance_storage_supported {
            all_support = false;
        }
        i = i + 1;
        proof {
            if all_support {
                assert forall|j: int|
                    0 <= j < i && instance_types.deep_view().contains(#[trigger] cs[j].instance_type)
                        implies cs[j].instance_storage_supported by {}
            } else {
                if was_supported {
                    assert(instance_types.deep_view().contains(cs[i - 1].instance_type)
                        && !cs[i - 1].instance_storage_supported);
                } else {
                    let j = choose|j: int|
                        0 <= j < i - 1 && instance_types.deep_view().contains(
                            #[trigger] cs[j].instance_type,
                        ) && !cs[j].instance_storage_supported;
                    assert(0 <= j < i && instance_types.deep_view().contains(cs[j].instance_type)
                        && !cs[j].instance_storage_supported);
                }
            }
        }
    }
    let capable = match ami_type {
        AmiType::AL2023_ARM_64_STANDARD
        | AmiType::AL2023_x86_64_STANDARD
        | AmiType::AL2023_x86_64_NVIDIA
        | AmiType::AL2023_ARM_64_NVIDIA
        | AmiType::AL2023_x86_64_NEURON
        | AmiType::AL2_ARM_64
        | AmiType::AL2_x86_64
        | AmiType::AL2_x86_64_GPU => true,
        _ => false,
    };
    capable && all_support
}

/// Soundness and completeness of the filter over any row table: a name comes
/// out exactly when some row carries it and matches all four predicates.
pub proof fn lemma_filtered_profiles_exact(
    s: Seq<InstanceProfileView>,
    cpu_arch: CpuArch,
    require_efa: bool,
    accelerator: AcceleratorType,
    reservation: ReservationType,
)
    ensures
        forall|k: int|
            0 <= k < filtered_profiles_of(s, cpu_arch, require_efa, accelerator, reservation).len()
                ==> {
                let p = #[trigger] filtered_profiles_of(s, cpu_arch, require_efa, accelerator, reservation)[k];
                profile_matches(p, cpu_arch, require_efa, accelerator, reservation) && s.contains(p)
            },
        forall|j: int|
            0 <= j < s.len() && profile_matches(#[trigger] s[j], cpu_arch, require_efa, accelerator, reservation)
                ==> filtered_profiles_of(s, cpu_arch, require_efa, accelerator, reservation).contains(s[j]),
    decreases s.len(),
{
    if s.len() > 0 {
        lemma_filtered_profiles_exact(s.drop_last(), cpu_arch, require_efa, accelerator, reservation);
        let rest = filtered_profiles_of(s.drop_last(), cpu_arch, require_efa, accelerator, reservation);
        let whole = filtered_profiles_of(s, cpu_arch, require_efa, accelerator, reservation);
        assert forall|k: int| 0 <= k < whole.len() implies {
            let p = #[trigger] whole[k];
            profile_matches(p, cpu_arch, require_efa, accelerator, reservation) && s.contains(p)
        } by {
            if k < rest.len() {
                let p = rest[k];
                assert(s.drop_last().contains(p));
                let w = choose|w: int| 0 <= w < s.drop_last().len() && s.drop_last()[w] == p;
                assert(s[w] == p);
            } else {
                assert(whole[k] == s.last());
                assert(s[s.len() - 1] == s.last());
            }
        }
        assert forall|j: int|
            0 <= j < s.len() && profile_matches(#[trigger] s[j], cpu_arch, require_efa, accelerator, reservation)
            implies whole.contains(s[j]) by {
            if j < s.len() - 1 {
                assert(s.drop_last()[j] == s[j]);
                assert(rest.contains(s[j]));
                let w = choose|w: int| 0 <= w < rest.len() && rest[w] == s[j];
                assert(whole[w] == s[j]);
            } else {
                assert(whole[whole.len() - 1] == s.last());
            }
        }
    }
}

/// The filter over the bundled catalog returns a name exactly when a catalog
/// row carries it and matches the architecture, EFA, accelerator and
/// reservation predicates.
pub proof fn lemma_instance_filter_exact(
    cpu_arch: CpuArch,
    require_efa: bool,
    accelerator: AcceleratorType,
    reservation: ReservationType,
)
    ensures
        forall|k: int|
            0 <= k < filtered_instance_profiles(cpu_arch, require_efa, accelerator, reservation).len()
                ==> {
                let p = #[trigger] filtered_instance_profiles(cpu_arch, require_efa, accelerator, reservation)[k];
                profile_matches(p, cpu_arch, require_efa, accelerator, reservation)
                    && instance_catalog_spec().contains(p)
            },
        forall|j: int|
            0 <= j < instance_catalog_spec().len() && profile_matches(
                #[trigger] instance_catalog_spec()[j],
                cpu_arch,
                require_efa,
                accelerator,
                reservation,
            ) ==> filtered_instance_profiles(cpu_arch, require_efa, accelerator, reservation).contains(
                instance_catalog_spec()[j],
            ),
{
    lemma_filtered_profiles_exact(instance_catalog_spec(), cpu_arch, require_efa, accelerator, reservation);
}

/// Instance storage is never reported under a Windows family or a
/// GPU-accelerated minimal-OS family, whatever the selected instances'
/// flags say.
pub proof fn lemma_storage_denied_families(names: Seq<Seq<char>>, ami_type: AmiType)
    requires
        ({
            ||| ami_type == AmiType::WINDOWS_CORE_2019_x86_64
            ||| ami_type == AmiType::WINDOWS_CORE_2022_x86_64
            ||| ami_type == AmiType::WINDOWS_FULL_2019_x86_64
            ||| ami_type == AmiType::WINDOWS_FULL_2022_x86_64
            ||| ami_type == AmiType::BOTTLEROCKET_ARM_64_NVIDIA
            ||| ami_type == AmiType::BOTTLEROCKET_x86_64_NVIDIA
        }),
    ensures
        !instance_storage_supported_spec(names, ami_type),
{
}

} // verus!
