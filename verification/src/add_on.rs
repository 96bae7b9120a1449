//! The static add-on registry: which add-ons exist, which are selected by
//! default, which remain offerable under EKS Auto Mode, and the identity
//! binding (pod-identity role placeholder and service account) each needs.

use vstd::prelude::*;

use crate::compute::ScalingType;
use crate::error::ConfigError;

verus! {

/// Every add-on the registry knows, in registry (kebab-case name) order.
#[derive(Clone, Copy, Debug, PartialEq, Eq, Structural)]
pub enum AddOnType {
    Adot,
    AmazonCloudwatchObservability,
    AwsEbsCsiDriver,
    AwsEfsCsiDriver,
    AwsGuarddutyAgent,
    AwsMountpointS3CsiDriver,
    CoreDns,
    EksNodeMonitoringAgent,
    EksPodIdentityAgent,
    KubeProxy,
    SnapshotController,
    VpcCni,
}

/// Identity binding an add-on carries: a role placeholder and service-account
/// name to be substituted by the rendering collaborator, and whether the
/// add-on must be ordered ahead of node-group creation.
#[derive(Debug, PartialEq, Eq)]
pub struct AddOnConfiguration {
    pub pod_identity_role_arn: Option<String>,
    pub pod_identity_service_account: Option<String>,
    pub before_compute: bool,
}

/// One registry entry.
#[derive(Debug, PartialEq, Eq)]
pub struct AddOn {
    pub auto_mode: bool,
    pub default: bool,
    pub name: String,
    pub configuration: Option<AddOnConfiguration>,
}

/// Mathematical image of an [`AddOnConfiguration`].
pub ghost struct AddOnConfigurationView {
    pub pod_identity_role_arn: Option<Seq<char>>,
    pub pod_identity_service_account: Option<Seq<char>>,
    pub before_compute: bool,
}

/// Mathematical image of an [`AddOn`].
pub ghost struct AddOnView {
    pub auto_mode: bool,
    pub default: bool,
    pub name: Seq<char>,
    pub configuration: Option<AddOnConfigurationView>,
}

impl View for AddOnConfiguration {
    type V = AddOnConfigurationView;

    open spec fn view(&self) -> AddOnConfigurationView {
        AddOnConfigurationView {
            pod_identity_role_arn: match self.pod_identity_role_arn {
                Option::Some(s) => Option::Some(s@),
                Option::None => Option::None,
            },
            pod_identity_service_account: match self.pod_identity_service_account {
                Option::Some(s) => Option::Some(s@),
                Option::None => Option::None,
            },
            before_compute: self.before_compute,
        }
    }
}

impl DeepView for AddOn {
    type V = AddOnView;

    open spec fn deep_view(&self) -> AddOnView {
        self.view()
    }
}

impl View for AddOn {
    type V = AddOnView;

    open spec fn view(&self) -> AddOnView {
        AddOnView {
            auto_mode: self.auto_mode,
            default: self.default,
            name: self.name@,
            configuration: match self.configuration {
                Option::Some(c) => Option::Some(c@),
                Option::None => Option::None,
            },
        }
    }
}

/// All registry entries in registry order.
pub open spec fn add_on_types_all_spec() -> Seq<AddOnType> {
    seq![
        AddOnType::Adot,
        AddOnType::AmazonCloudwatchObservability,
        AddOnType::AwsEbsCsiDriver,
        AddOnType::AwsEfsCsiDriver,
        AddOnType::AwsGuarddutyAgent,
        AddOnType::AwsMountpointS3CsiDriver,
        AddOnType::CoreDns,
        AddOnType::EksNodeMonitoringAgent,
        AddOnType::EksPodIdentityAgent,
        AddOnType::KubeProxy,
        AddOnType::SnapshotController,
        AddOnType::VpcCni,
    ]
}

/// The kebab-case name of each add-on.
pub open spec fn add_on_name_spec(t: AddOnType) -> Seq<char> {
    match t {
        AddOnType::Adot => "adot"@,
        AddOnType::AmazonCloudwatchObservability => "amazon-cloudwatch-observability"@,
        AddOnType::AwsEbsCsiDriver => "aws-ebs-csi-driver"@,
        AddOnType::AwsEfsCsiDriver => "aws-efs-csi-driver"@,
        AddOnType::AwsGuarddutyAgent => "aws-guardduty-agent"@,
        AddOnType::AwsMountpointS3CsiDriver => "aws-mountpoint-s3-csi-driver"@,
        AddOnType::CoreDns => "coredns"@,
        AddOnType::EksNodeMonitoringAgent => "eks-node-monitoring-agent"@,
        AddOnType::EksPodIdentityAgent => "eks-pod-identity-agent"@,
        AddOnType::KubeProxy => "kube-proxy"@,
        AddOnType::SnapshotController => "snapshot-controller"@,
        AddOnType::VpcCni => "vpc-cni"@,
    }
}

/// Whether the platform still offers the add-on under EKS Auto Mode (the rest
/// is bundled by the platform there).
pub open spec fn auto_mode_eligible_spec(t: AddOnType) -> bool {
    match t {
        AddOnType::Adot
        | AddOnType::AmazonCloudwatchObservability
        | AddOnType::AwsEfsCsiDriver
        | AddOnType::AwsMountpointS3CsiDriver => true,
        _ => false,
    }
}

/// Whether the add-on is selected by default.
pub open spec fn default_add_on_spec(t: AddOnType) -> bool {
    match t {
        AddOnType::CoreDns
        | AddOnType::EksNodeMonitoringAgent
        | AddOnType::EksPodIdentityAgent
        | AddOnType::KubeProxy
        | AddOnType::VpcCni => true,
        _ => false,
    }
}

/// The full registry entry for an add-on.
pub open spec fn add_on_spec(t: AddOnType) -> AddOnView {
    AddOnView {
        auto_mode: auto_mode_eligible_spec(t),
        default: default_add_on_spec(t),
        name: add_on_name_spec(t),
        configuration: match t {
            AddOnType::AmazonCloudwatchObservability => Option::Some(AddOnConfigurationView {
                pod_identity_role_arn: Option::Some(
                    "module.amazon_cloudwatch_observability_pod_identity.iam_role_arn"@,
                ),
                pod_identity_service_account: Option::Some("cloudwatch-agent"@),
                before_compute: false,
            }),
            AddOnType::AwsEbsCsiDriver => Option::Some(AddOnConfigurationView {
                pod_identity_role_arn: Option::Some("module.aws_ebs_csi_driver_pod_identity.iam_role_arn"@),
                pod_identity_service_account: Option::Some("ebs-csi-controller-sa"@),
                before_compute: false,
            }),
            AddOnType::AwsEfsCsiDriver => Option::Some(AddOnConfigurationView {
                pod_identity_role_arn: Option::Some("module.aws_efs_csi_driver_pod_identity.iam_role_arn"@),
                pod_identity_service_account: Option::Some("efs-csi-controller-sa"@),
                before_compute: false,
            }),
            AddOnType::AwsMountpointS3CsiDriver => Option::Some(AddOnConfigurationView {
                pod_identity_role_arn: Option::Some(
                    "module.aws_mountpoint_s3_csi_driver_pod_identity.iam_role_arn"@,
                ),
                pod_identity_service_account: Option::Some("s3-csi-driver-sa"@),
                before_compute: false,
            }),
            AddOnType::EksPodIdentityAgent => Option::Some(AddOnConfigurationView {
                pod_identity_role_arn: Option::None,
                pod_identity_service_account: Option::None,
                before_compute: true,
            }),
            AddOnType::VpcCni => Option::Some(AddOnConfigurationView {
                pod_identity_role_arn: Option::None,
                pod_identity_service_account: Option::None,
                before_compute: true,
            }),
            _ => Option::None,
        },
    }
}

/// The add-ons offerable under a scaling strategy: the whole registry, except
/// that Auto Mode restricts it to the Auto-Mode-eligible entries.
pub open spec fn add_on_types_spec(scaling_type: ScalingType) -> Seq<AddOnType> {
    if scaling_type == ScalingType::AutoMode {
        seq![
            AddOnType::Adot,
            AddOnType::AmazonCloudwatchObservability,
            AddOnType::AwsEfsCsiDriver,
            AddOnType::AwsMountpointS3CsiDriver,
        ]
    } else {
        add_on_types_all_spec()
    }
}

impl AddOnType {
    /// The add-on at `idx` in registry order.
    pub fn from_idx(idx: usize) -> (r: AddOnType)
        requires
            idx < add_on_types_all_spec().len(),
        ensures
            r == add_on_types_all_spec()[idx as int],
    {
        if idx == 0 {
            AddOnType::Adot
        } else if idx == 1 {
            AddOnType::AmazonCloudwatchObservability
        } else if idx == 2 {
            AddOnType::AwsEbsCsiDriver
        } else if idx == 3 {
            AddOnType::AwsEfsCsiDriver
        } else if idx == 4 {
            AddOnType::AwsGuarddutyAgent
        } else if idx == 5 {
            AddOnType::AwsMountpointS3CsiDriver
        } else if idx == 6 {
            AddOnType::CoreDns
        } else if idx == 7 {
            AddOnType::EksNodeMonitoringAgent
        } else if idx == 8 {
            AddOnType::EksPodIdentityAgent
        } else if idx == 9 {
            AddOnType::KubeProxy
        } else if idx == 10 {
            AddOnType::SnapshotController
        } else {
            AddOnType::VpcCni
        }
    }
}

/// All registry entries in registry order.
pub fn _get_all_add_on_types() -> (r: Vec<AddOnType>)
    ensures
        r@ == add_on_types_all_spec(),
{
    let mut r: Vec<AddOnType> = Vec::new();
    r.push(AddOnType::Adot);
    r.push(AddOnType::AmazonCloudwatchObservability);
    r.push(AddOnType::AwsEbsCsiDriver);
    r.push(AddOnType::AwsEfsCsiDriver);
    r.push(AddOnType::AwsGuarddutyAgent);
    r.push(AddOnType::AwsMountpointS3CsiDriver);
    r.push(AddOnType::CoreDns);
    r.push(AddOnType::EksNodeMonitoringAgent);
    r.push(AddOnType::EksPodIdentityAgent);
    r.push(AddOnType::KubeProxy);
    r.push(AddOnType::SnapshotController);
    r.push(AddOnType::VpcCni);
    proof {
        assert(r@ =~= add_on_types_all_spec());
    }
    r
}

/// The registry entry for one add-on. Every known add-on resolves.
pub fn get_add_on(add_on_type: &AddOnType) -> (r: Result<AddOn, ConfigError>)
    ensures
        r matches Ok(a) && a@ == add_on_spec(*add_on_type),
{
    let name: String = match add_on_type {
        AddOnType::Adot => "adot".to_owned(),
        AddOnType::AmazonCloudwatchObservability => "amazon-cloudwatch-observability".to_owned(),
        AddOnType::AwsEbsCsiDriver => "aws-ebs-csi-driver".to_owned(),
        AddOnType::AwsEfsCsiDriver => "aws-efs-csi-driver".to_owned(),
        AddOnType::AwsGuarddutyAgent => "aws-guardduty-agent".to_owned(),
        AddOnType::AwsMountpointS3CsiDriver => "aws-mountpoint-s3-csi-driver".to_owned(),
        AddOnType::CoreDns => "coredns".to_owned(),
        AddOnType::EksNodeMonitoringAgent => "eks-node-monitoring-agent".to_owned(),
        AddOnType::EksPodIdentityAgent => "eks-pod-identity-agent".to_owned(),
        AddOnType::KubeProxy => "kube-proxy".to_owned(),
        AddOnType::SnapshotController => "snapshot-controller".to_owned(),
        AddOnType::VpcCni => "vpc-cni".to_owned(),
    };
    let auto_mode: bool = match add_on_type {
        AddOnType::Adot
        | AddOnType::AmazonCloudwatchObservability
        | AddOnType::AwsEfsCsiDriver
        | AddOnType::AwsMountpointS3CsiDriver => true,
        _ => false,
    };
    let default: bool = match add_on_type {
        AddOnType::CoreDns
        | AddOnType::EksNodeMonitoringAgent
        | AddOnType::EksPodIdentityAgent
        | AddOnType::KubeProxy
        | AddOnType::VpcCni => true,
        _ => false,
    };
    let configuration: Option<AddOnConfiguration> = match add_on_type {
        AddOnType::AmazonCloudwatchObservability => Some(AddOnConfiguration {
            pod_identity_role_arn: Some(
                "module.amazon_cloudwatch_observability_pod_identity.iam_role_arn".to_owned(),
            ),
            pod_identity_service_account: Some("cloudwatch-agent".to_owned()),
            before_compute: false,
        }),
        AddOnType::AwsEbsCsiDriver => Some(AddOnConfiguration {
            pod_identity_role_arn: Some("module.aws_ebs_csi_driver_pod_identity.iam_role_arn".to_owned()),
            pod_identity_service_account: Some("ebs-csi-controller-sa".to_owned()),
            before_compute: false,
        }),
        AddOnType::AwsEfsCsiDriver => Some(AddOnConfiguration {
            pod_identity_role_arn: Some("module.aws_efs_csi_driver_pod_identity.iam_role_arn".to_owned()),
            pod_identity_service_account: Some("efs-csi-controller-sa".to_owned()),
            before_compute: false,
        }),
        AddOnType::AwsMountpointS3CsiDriver => Some(AddOnConfiguration {
            pod_identity_role_arn: Some(
                "module.aws_mountpoint_s3_csi_driver_pod_identity.iam_role_arn".to_owned(),
            ),
            pod_identity_service_account: Some("s3-csi-driver-sa".to_owned()),
            before_compute: false,
        }),
        AddOnType::EksPodIdentityAgent => Some(AddOnConfiguration {
            pod_identity_role_arn: None,
            pod_identity_service_account: None,
            before_compute: true,
        }),
        AddOnType::VpcCni => Some(AddOnConfiguration {
            pod_identity_role_arn: None,
            pod_identity_service_account: None,
            before_compute: true,
        }),
        _ => None,
    };
    Ok(AddOn { auto_mode, default, name, configuration })
}

/// How an add-on name reads: an unknown name reads as the core networking
/// DNS add-on.
pub open spec fn add_on_from_str_spec(s: Seq<char>) -> AddOnType {
    if s == "adot"@ {
        AddOnType::Adot
    } else if s == "amazon-cloudwatch-observability"@ {
        AddOnType::AmazonCloudwatchObservability
    } else if s == "aws-ebs-csi-driver"@ {
        AddOnType::AwsEbsCsiDriver
    } else if s == "aws-efs-csi-driver"@ {
        AddOnType::AwsEfsCsiDriver
    } else if s == "aws-guardduty-agent"@ {
        AddOnType::AwsGuarddutyAgent
    } else if s == "aws-mountpoint-s3-csi-driver"@ {
        AddOnType::AwsMountpointS3CsiDriver
    } else if s == "eks-node-monitoring-agent"@ {
        AddOnType::EksNodeMonitoringAgent
    } else if s == "eks-pod-identity-agent"@ {
        AddOnType::EksPodIdentityAgent
    } else if s == "kube-proxy"@ {
        AddOnType::KubeProxy
    } else if s == "snapshot-controller"@ {
        AddOnType::SnapshotController
    } else if s == "vpc-cni"@ {
        AddOnType::VpcCni
    } else {
        AddOnType::CoreDns
    }
}

impl<'a> core::convert::From<&'a str> for AddOnType {
    /// Parse an add-on from its kebab-case name; an unknown name reads as
    /// the core networking DNS add-on.
    fn from(s: &'a str) -> (r: AddOnType) {
        if crate::str_eq(s, "adot") {
            AddOnType::Adot
        } else if crate::str_eq(s, "amazon-cloudwatch-observability") {
            AddOnType::AmazonCloudwatchObservability
        } else if crate::str_eq(s, "aws-ebs-csi-driver") {
            AddOnType::AwsEbsCsiDriver
        } else if crate::str_eq(s, "aws-efs-csi-driver") {
            AddOnType::AwsEfsCsiDriver
        } else if crate::str_eq(s, "aws-guardduty-agent") {
            AddOnType::AwsGuarddutyAgent
        } else if crate::str_eq(s, "aws-mountpoint-s3-csi-driver") {
            AddOnType::AwsMountpointS3CsiDriver
        } else if crate::str_eq(s, "eks-node-monitoring-agent") {
            AddOnType::EksNodeMonitoringAgent
        } else if crate::str_eq(s, "eks-pod-identity-agent") {
            AddOnType::EksPodIdentityAgent
        } else if crate::str_eq(s, "kube-proxy") {
            AddOnType::KubeProxy
        } else if crate::str_eq(s, "snapshot-controller") {
            AddOnType::SnapshotController
        } else if crate::str_eq(s, "vpc-cni") {
            AddOnType::VpcCni
        } else {
            AddOnType::CoreDns
        }
    }
}

impl<'a> vstd::std_specs::convert::FromSpecImpl<&'a str> for AddOnType {
    open spec fn obeys_from_spec() -> bool {
        true
    }

    open spec fn from_spec(s: &'a str) -> AddOnType {
        add_on_from_str_spec(s@)
    }
}

/// The registry entries for the given add-on types, in the given order.
pub fn resolve_add_ons(types: &Vec<AddOnType>) -> (r: Vec<AddOn>)
    ensures
        r.deep_view() == types@.map_values(|t: AddOnType| add_on_spec(t)),
{
    let mut r: Vec<AddOn> = Vec::new();
    let mut i: usize = 0;
    while i < types.len()
        invariant
            i <= types@.len(),
            r@.len() == i,
            forall|k: int| 0 <= k < i ==> (#[trigger] r@[k])@ == add_on_spec(types@[k]),
        decreases types@.len() - i,
    {
        let a = match get_add_on(&types[i]) {
            Ok(a) => a,
            Err(_) => vstd::pervasive::unreached(),
        };
        r.push(a);
        i = i + 1;
    }
    proof {
        assert(r.deep_view() =~= types@.map_values(|t: AddOnType| add_on_spec(t)));
    }
    r
}

/// The add-on types offerable under the chosen scaling strategy.
pub fn get_offerable_add_on_types(scaling_type: &ScalingType) -> (r: Vec<AddOnType>)
    ensures
        r@ == add_on_types_spec(*scaling_type),
{
    if matches!(scaling_type, ScalingType::AutoMode) {
        let mut r: Vec<AddOnType> = Vec::new();
        r.push(AddOnType::Adot);
        r.push(AddOnType::AmazonCloudwatchObservability);
        r.push(AddOnType::AwsEfsCsiDriver);
        r.push(AddOnType::AwsMountpointS3CsiDriver);
        proof {
            assert(r@ =~= add_on_types_spec(*scaling_type));
        }
        r
    } else {
        _get_all_add_on_types()
    }
}

/// The names of the add-ons offerable under the chosen scaling strategy, in
/// registry order.
pub fn get_add_on_names(scaling_type: &ScalingType) -> (r: Vec<String>)
    ensures
        r.deep_view() == add_on_types_spec(*scaling_type).map_values(|t: AddOnType| add_on_name_spec(t)),
{
    let types = get_offerable_add_on_types(scaling_type);
    let mut r: Vec<String> = Vec::new();
    let mut i: usize = 0;
    while i < types.len()
        invariant
            i <= types@.len(),
            r@.len() == i,
            forall|k: int| 0 <= k < i ==> r@[k]@ == add_on_name_spec(types@[k]),
            types@ == add_on_types_spec(*scaling_type),
        decreases types@.len() - i,
    {
        let t = types[i];
        let name: String = match t {
            AddOnType::Adot => "adot".to_owned(),
            AddOnType::AmazonCloudwatchObservability => "amazon-cloudwatch-observability".to_owned(),
            AddOnType::AwsEbsCsiDriver => "aws-ebs-csi-driver".to_owned(),
            AddOnType::AwsEfsCsiDriver => "aws-efs-csi-driver".to_owned(),
            AddOnType::AwsGuarddutyAgent => "aws-guardduty-agent".to_owned(),
            AddOnType::AwsMountpointS3CsiDriver => "aws-mountpoint-s3-csi-driver".to_owned(),
            AddOnType::CoreDns => "coredns".to_owned(),
            AddOnType::EksNodeMonitoringAgent => "eks-node-monitoring-agent".to_owned(),
            AddOnType::EksPodIdentityAgent => "eks-pod-identity-agent".to_owned(),
            AddOnType::KubeProxy => "kube-proxy".to_owned(),
            AddOnType::SnapshotController => "snapshot-controller".to_owned(),
            AddOnType::VpcCni => "vpc-cni".to_owned(),
        };
        r.push(name);
        i = i + 1;
    }
    proof {
        assert(r.deep_view() =~= types@.map_values(|t: AddOnType| add_on_name_spec(t)));
    }
    r
}

/// The add-on types selected by default.
pub fn get_default_add_on_types() -> (r: Vec<AddOnType>)
    ensures
        r@ == add_on_types_all_spec().filter(|t: AddOnType| default_add_on_spec(t)),
{
    let mut r: Vec<AddOnType> = Vec::new();
    r.push(AddOnType::CoreDns);
    r.push(AddOnType::EksNodeMonitoringAgent);
    r.push(AddOnType::EksPodIdentityAgent);
    r.push(AddOnType::KubeProxy);
    r.push(AddOnType::VpcCni);
    proof {
        reveal_with_fuel(Seq::filter, 13);
        assert(r@ =~= add_on_types_all_spec().filter(|t: AddOnType| default_add_on_spec(t)));
    }
    r
}

/// One default-selection flag per registry entry, in registry order.
pub fn get_default_add_on_flags() -> (r: Vec<bool>)
    ensures
        r@ == add_on_types_all_spec().map_values(|t: AddOnType| default_add_on_spec(t)),
{
    let mut r: Vec<bool> = Vec::new();
    r.push(false);
    r.push(false);
    r.push(false);
    r.push(false);
    r.push(false);
    r.push(false);
    r.push(true);
    r.push(true);
    r.push(true);
    r.push(true);
    r.push(false);
    r.push(true);
    proof {
        assert(r@ =~= add_on_types_all_spec().map_values(|t: AddOnType| default_add_on_spec(t)));
    }
    r
}

} // verus!
