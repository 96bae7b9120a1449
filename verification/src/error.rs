//! Errors a resolution pass can report. A failed pass yields no record at
//! all; nothing is silently substituted.

use vstd::prelude::*;

verus! {

/// The configuration field a resolution error is about.
#[derive(Clone, Copy, Debug, PartialEq, Eq, Structural)]
pub enum ConfigField {
    ClusterVersion,
    Accelerator,
    Reservation,
    ScalingType,
    AddOns,
    CpuArch,
    AmiFamily,
    InstanceTypes,
}

/// Why a resolution pass failed.
#[derive(Clone, Copy, Debug, PartialEq, Eq, Structural)]
pub enum ConfigError {
    /// A stage's domain function produced no legal options given the prior
    /// choices.
    EmptyCandidateSet(ConfigField),
    /// Nothing was selected from a non-empty candidate set where at least one
    /// selection is mandatory.
    EmptySelection(ConfigField),
    /// A selection or override names a value outside the field's legal set.
    MalformedOverride(ConfigField),
    /// A named starter template does not exist in the loaded specifications.
    UnknownTemplate,
}

} // verus!
