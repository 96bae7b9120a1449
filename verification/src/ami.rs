//! AMI (node operating system image) families and the rules that pick them:
//! which families are offerable for a chosen accelerator, EFA requirement and
//! CPU architecture, and which family the plain fallback node group uses.

use vstd::prelude::*;

use crate::compute::{AcceleratorType, CpuArch};

verus! {

/// An AMI family. The set covers the general-purpose Linux families, the
/// accelerator-specialized Linux families, the minimal-OS (Bottlerocket)
/// families, the Windows variants and a custom escape hatch.
#[derive(Clone, Copy, Debug, PartialEq, Eq, Structural)]
#[allow(non_camel_case_types)]
pub enum AmiType {
    AL2023_ARM_64_STANDARD,
    AL2023_x86_64_STANDARD,
    AL2023_x86_64_NEURON,
    AL2023_x86_64_NVIDIA,
    AL2023_ARM_64_NVIDIA,
    BOTTLEROCKET_ARM_64,
    BOTTLEROCKET_ARM_64_NVIDIA,
    BOTTLEROCKET_x86_64,
    BOTTLEROCKET_x86_64_NVIDIA,
    CUSTOM,
    WINDOWS_CORE_2019_x86_64,
    WINDOWS_CORE_2022_x86_64,
    WINDOWS_FULL_2019_x86_64,
    WINDOWS_FULL_2022_x86_64,
    AL2_ARM_64,
    AL2_x86_64,
    AL2_x86_64_GPU,
}

/// All AMI families in declaration order.
pub open spec fn ami_types_all_spec() -> Seq<AmiType> {
    seq![
        AmiType::AL2023_ARM_64_STANDARD,
        AmiType::AL2023_x86_64_STANDARD,
        AmiType::AL2023_x86_64_NEURON,
        AmiType::AL2023_x86_64_NVIDIA,
        AmiType::AL2023_ARM_64_NVIDIA,
        AmiType::BOTTLEROCKET_ARM_64,
        AmiType::BOTTLEROCKET_ARM_64_NVIDIA,
        AmiType::BOTTLEROCKET_x86_64,
        AmiType::BOTTLEROCKET_x86_64_NVIDIA,
        AmiType::CUSTOM,
        AmiType::WINDOWS_CORE_2019_x86_64,
        AmiType::WINDOWS_CORE_2022_x86_64,
        AmiType::WINDOWS_FULL_2019_x86_64,
        AmiType::WINDOWS_FULL_2022_x86_64,
        AmiType::AL2_ARM_64,
        AmiType::AL2_x86_64,
        AmiType::AL2_x86_64_GPU,
    ]
}

/// The AMI families offerable for a given accelerator, EFA requirement and
/// CPU architecture. Accelerators map to their specialized Linux family plus
/// a minimal-OS alternative; no accelerator maps to the general-purpose
/// family, the minimal-OS alternative and, only on x86-64 without EFA, the
/// Windows variants.
pub open spec fn ami_types_spec(
    accelerator: AcceleratorType,
    require_efa: bool,
    cpu_arch: CpuArch,
) -> Seq<AmiType> {
    match accelerator {
        AcceleratorType::Nvidia => match cpu_arch {
            CpuArch::X8664 => seq![AmiType::AL2023_x86_64_NVIDIA, AmiType::BOTTLEROCKET_x86_64_NVIDIA],
            CpuArch::Arm64 => seq![AmiType::AL2023_ARM_64_NVIDIA, AmiType::BOTTLEROCKET_ARM_64_NVIDIA],
        },
        AcceleratorType::Neuron => match cpu_arch {
            CpuArch::X8664 => seq![AmiType::AL2023_x86_64_NEURON, AmiType::BOTTLEROCKET_x86_64],
            CpuArch::Arm64 => seq![AmiType::BOTTLEROCKET_ARM_64],
        },
        AcceleratorType::NoAccelerator => match (cpu_arch, require_efa) {
            (CpuArch::X8664, true) => seq![AmiType::AL2023_x86_64_NVIDIA, AmiType::AL2023_x86_64_NEURON],
            (CpuArch::X8664, false) => seq![
                AmiType::AL2023_x86_64_STANDARD,
                AmiType::BOTTLEROCKET_x86_64,
                AmiType::WINDOWS_CORE_2019_x86_64,
                AmiType::WINDOWS_CORE_2022_x86_64,
                AmiType::WINDOWS_FULL_2019_x86_64,
                AmiType::WINDOWS_FULL_2022_x86_64,
            ],
            (CpuArch::Arm64, true) => seq![AmiType::AL2023_ARM_64_NVIDIA, AmiType::BOTTLEROCKET_ARM_64],
            (CpuArch::Arm64, false) => seq![AmiType::AL2023_ARM_64_STANDARD, AmiType::BOTTLEROCKET_ARM_64],
        },
    }
}

/// The AMI family the plain fallback node group uses: minimal-OS choices stay
/// minimal-OS for the same architecture (accelerator variants collapse to the
/// plain minimal-OS family); every other choice falls back to the
/// general-purpose Linux family of the resolved architecture.
pub open spec fn default_ami_type_spec(ami_type: AmiType, cpu_arch: CpuArch) -> AmiType {
    match ami_type {
        AmiType::BOTTLEROCKET_x86_64_NVIDIA | AmiType::BOTTLEROCKET_x86_64 => AmiType::BOTTLEROCKET_x86_64,
        AmiType::BOTTLEROCKET_ARM_64_NVIDIA | AmiType::BOTTLEROCKET_ARM_64 => AmiType::BOTTLEROCKET_ARM_64,
        _ => match cpu_arch {
            CpuArch::X8664 => AmiType::AL2023_x86_64_STANDARD,
            CpuArch::Arm64 => AmiType::AL2023_ARM_64_STANDARD,
        },
    }
}

/// The CPU architecture an AMI family boots on. The custom family carries no
/// architecture of its own and counts as x86-64 here.
pub open spec fn ami_family_arch_spec(ami_type: AmiType) -> CpuArch {
    match ami_type {
        AmiType::AL2023_ARM_64_STANDARD
        | AmiType::AL2023_ARM_64_NVIDIA
        | AmiType::BOTTLEROCKET_ARM_64
        | AmiType::BOTTLEROCKET_ARM_64_NVIDIA
        | AmiType::AL2_ARM_64 => CpuArch::Arm64,
        _ => CpuArch::X8664,
    }
}

/// Whether a family belongs to the storage-capable subset: the
/// general-purpose and accelerator-specialized Linux families. The minimal-OS
/// and Windows families manage instance storage outside this mechanism.
pub open spec fn storage_capable_family(ami_type: AmiType) -> bool {
    match ami_type {
        AmiType::AL2023_ARM_64_STANDARD
        | AmiType::AL2023_x86_64_STANDARD
        | AmiType::AL2023_x86_64_NVIDIA
        | AmiType::AL2023_ARM_64_NVIDIA
        | AmiType::AL2023_x86_64_NEURON
        | AmiType::AL2_ARM_64
        | AmiType::AL2_x86_64
        | AmiType::AL2_x86_64_GPU => true,
        _ => false,
    }
}

/// How an AMI family name reads as a string.
pub open spec fn ami_from_str_spec(s: Seq<char>) -> AmiType {
    if s == "AL2023_ARM_64_STANDARD"@ {
        AmiType::AL2023_ARM_64_STANDARD
    } else if s == "AL2023_x86_64_STANDARD"@ {
        AmiType::AL2023_x86_64_STANDARD
    } else if s == "AL2023_x86_64_NEURON"@ {
        AmiType::AL2023_x86_64_NEURON
    } else if s == "AL2023_x86_64_NVIDIA"@ {
        AmiType::AL2023_x86_64_NVIDIA
    } else if s == "AL2023_ARM_64_NVIDIA"@ {
        AmiType::AL2023_ARM_64_NVIDIA
    } else if s == "BOTTLEROCKET_ARM_64"@ {
        AmiType::BOTTLEROCKET_ARM_64
    } else if s == "BOTTLEROCKET_ARM_64_NVIDIA"@ {
        AmiType::BOTTLEROCKET_ARM_64_NVIDIA
    } else if s == "BOTTLEROCKET_x86_64"@ {
        AmiType::BOTTLEROCKET_x86_64
    } else if s == "BOTTLEROCKET_x86_64_NVIDIA"@ {
        AmiType::BOTTLEROCKET_x86_64_NVIDIA
    } else if s == "WINDOWS_CORE_2019_x86_64"@ {
        AmiType::WINDOWS_CORE_2019_x86_64
    } else if s == "WINDOWS_CORE_2022_x86_64"@ {
        AmiType::WINDOWS_CORE_2022_x86_64
    } else if s == "WINDOWS_FULL_2019_x86_64"@ {
        AmiType::WINDOWS_FULL_2019_x86_64
    } else if s == "WINDOWS_FULL_2022_x86_64"@ {
        AmiType::WINDOWS_FULL_2022_x86_64
    } else if s == "AL2_ARM_64"@ {
        AmiType::AL2_ARM_64
    } else if s == "AL2_x86_64"@ {
        AmiType::AL2_x86_64
    } else if s == "AL2_x86_64_GPU"@ {
        AmiType::AL2_x86_64_GPU
    } else {
        AmiType::CUSTOM
    }
}

impl AmiType {
    /// The AMI family at `idx` in declaration order.
    pub fn from_idx(idx: usize) -> (r: AmiType)
        requires
            idx < ami_types_all_spec().len(),
        ensures
            r == ami_types_all_spec()[idx as int],
    {
        if idx == 0 {
            AmiType::AL2023_ARM_64_STANDARD
        } else if idx == 1 {
            AmiType::AL2023_x86_64_STANDARD
        } else if idx == 2 {
            AmiType::AL2023_x86_64_NEURON
        } else if idx == 3 {
            AmiType::AL2023_x86_64_NVIDIA
        } else if idx == 4 {
            AmiType::AL2023_ARM_64_NVIDIA
        } else if idx == 5 {
            AmiType::BOTTLEROCKET_ARM_64
        } else if idx == 6 {
            AmiType::BOTTLEROCKET_ARM_64_NVIDIA
        } else if idx == 7 {
            AmiType::BOTTLEROCKET_x86_64
        } else if idx == 8 {
            AmiType::BOTTLEROCKET_x86_64_NVIDIA
        } else if idx == 9 {
            AmiType::CUSTOM
        } else if idx == 10 {
            AmiType::WINDOWS_CORE_2019_x86_64
        } else if idx == 11 {
            AmiType::WINDOWS_CORE_2022_x86_64
        } else if idx == 12 {
            AmiType::WINDOWS_FULL_2019_x86_64
        } else if idx == 13 {
            AmiType::WINDOWS_FULL_2022_x86_64
        } else if idx == 14 {
            AmiType::AL2_ARM_64
        } else if idx == 15 {
            AmiType::AL2_x86_64
        } else {
            AmiType::AL2_x86_64_GPU
        }
    }
}

impl<'a> core::convert::From<&'a str> for AmiType {
    /// Parse an AMI family from its canonical name; an unknown name reads as
    /// the custom family.
    fn from(s: &'a str) -> (r: AmiType) {
        if crate::str_eq(s, "AL2023_ARM_64_STANDARD") {
            AmiType::AL2023_ARM_64_STANDARD
        } else if crate::str_eq(s, "AL2023_x86_64_STANDARD") {
            AmiType::AL2023_x86_64_STANDARD
        } else if crate::str_eq(s, "AL2023_x86_64_NEURON") {
            AmiType::AL2023_x86_64_NEURON
        } else if crate::str_eq(s, "AL2023_x86_64_NVIDIA") {
            AmiType::AL2023_x86_64_NVIDIA
        } else if crate::str_eq(s, "AL2023_ARM_64_NVIDIA") {
            AmiType::AL2023_ARM_64_NVIDIA
        } else if crate::str_eq(s, "BOTTLEROCKET_ARM_64") {
            AmiType::BOTTLEROCKET_ARM_64
        } else if crate::str_eq(s, "BOTTLEROCKET_ARM_64_NVIDIA") {
            AmiType::BOTTLEROCKET_ARM_64_NVIDIA
        } else if crate::str_eq(s, "BOTTLEROCKET_x86_64") {
            AmiType::BOTTLEROCKET_x86_64
        } else if crate::str_eq(s, "BOTTLEROCKET_x86_64_NVIDIA") {
            AmiType::BOTTLEROCKET_x86_64_NVIDIA
        } else if crate::str_eq(s, "WINDOWS_CORE_2019_x86_64") {
            AmiType::WINDOWS_CORE_2019_x86_64
        } else if crate::str_eq(s, "WINDOWS_CORE_2022_x86_64") {
            AmiType::WINDOWS_CORE_2022_x86_64
        } else if crate::str_eq(s, "WINDOWS_FULL_2019_x86_64") {
            AmiType::WINDOWS_FULL_2019_x86_64
        } else if crate::str_eq(s, "WINDOWS_FULL_2022_x86_64") {
            AmiType::WINDOWS_FULL_2022_x86_64
        } else if crate::str_eq(s, "AL2_ARM_64") {
            AmiType::AL2_ARM_64
        } else if crate::str_eq(s, "AL2_x86_64") {
            AmiType::AL2_x86_64
        } else if crate::str_eq(s, "AL2_x86_64_GPU") {
            AmiType::AL2_x86_64_GPU
        } else {
            AmiType::CUSTOM
        }
    }
}

impl<'a> vstd::std_specs::convert::FromSpecImpl<&'a str> for AmiType {
    open spec fn obeys_from_spec() -> bool {
        true
    }

    open spec fn from_spec(s: &'a str) -> AmiType {
        ami_from_str_spec(s@)
    }
}

/// The AMI families offerable for the chosen accelerator, EFA requirement and
/// CPU architecture, in prompt order.
pub fn get_ami_types(
    accelerator: &AcceleratorType,
    require_efa: bool,
    cpu_arch: &CpuArch,
) -> (r: Vec<AmiType>)
    ensures
        r@ == ami_types_spec(*accelerator, require_efa, *cpu_arch),
{
    let mut r: Vec<AmiType> = Vec::new();
    match accelerator {
        AcceleratorType::Nvidia => match cpu_arch {
            CpuArch::X8664 => {
                r.push(AmiType::AL2023_x86_64_NVIDIA);
                r.push(AmiType::BOTTLEROCKET_x86_64_NVIDIA);
            }
            CpuArch::Arm64 => {
                r.push(AmiType::AL2023_ARM_64_NVIDIA);
                r.push(AmiType::BOTTLEROCKET_ARM_64_NVIDIA);
            }
        },
        AcceleratorType::Neuron => match cpu_arch {
            CpuArch::X8664 => {
                r.push(AmiType::AL2023_x86_64_NEURON);
                r.push(AmiType::BOTTLEROCKET_x86_64);
            }
            CpuArch::Arm64 => {
                r.push(AmiType::BOTTLEROCKET_ARM_64);
            }
        },
        AcceleratorType::NoAccelerator => match (cpu_arch, require_efa) {
            (CpuArch::X8664, true) => {
                r.push(AmiType::AL2023_x86_64_NVIDIA);
                r.push(AmiType::AL2023_x86_64_NEURON);
            }
            (CpuArch::X8664, false) => {
                r.push(AmiType::AL2023_x86_64_STANDARD);
                r.push(AmiType::BOTTLEROCKET_x86_64);
                r.push(AmiType::WINDOWS_CORE_2019_x86_64);
                r.push(AmiType::WINDOWS_CORE_2022_x86_64);
                r.push(AmiType::WINDOWS_FULL_2019_x86_64);
                r.push(AmiType::WINDOWS_FULL_2022_x86_64);
            }
            (CpuArch::Arm64, true) => {
                r.push(AmiType::AL2023_ARM_64_NVIDIA);
                r.push(AmiType::BOTTLEROCKET_ARM_64);
            }
            (CpuArch::Arm64, false) => {
                r.push(AmiType::AL2023_ARM_64_STANDARD);
                r.push(AmiType::BOTTLEROCKET_ARM_64);
            }
        },
    }
    proof {
        assert(r@ =~= ami_types_spec(*accelerator, require_efa, *cpu_arch));
    }
    r
}

/// The plain fallback node group's AMI family for the resolved choice.
pub fn get_default_ami_type(ami_type: &AmiType, cpu_arch: &CpuArch) -> (r: AmiType)
    ensures
        r == default_ami_type_spec(*ami_type, *cpu_arch),
{
    match ami_type {
        AmiType::BOTTLEROCKET_x86_64_NVIDIA | AmiType::BOTTLEROCKET_x86_64 => AmiType::BOTTLEROCKET_x86_64,
        AmiType::BOTTLEROCKET_ARM_64_NVIDIA | AmiType::BOTTLEROCKET_ARM_64 => AmiType::BOTTLEROCKET_ARM_64,
        _ => match cpu_arch {
            CpuArch::X8664 => AmiType::AL2023_x86_64_STANDARD,
            CpuArch::Arm64 => AmiType::AL2023_ARM_64_STANDARD,
        },
    }
}

} // verus!
