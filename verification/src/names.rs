//! The fixed names under which the operator finds and marks what it manages:
//! labels, annotations, finalizers, cloud tags and the identity it writes with.

use vstd::prelude::*;

verus! {

/// Identity under which every server-side apply is made.
pub const FIELD_MANAGER: &'static str = "eip.materialize.cloud";

/// Label by which a pod asks to be given an Elastic IP.
pub const MANAGE_EIP_LABEL: &'static str = "eip.materialize.cloud/manage";

/// Label by which a pod asks for an `Eip` resource of its own to be created.
pub const AUTOCREATE_EIP_LABEL: &'static str = "eip.materialize.cloud/autocreate_eip";

/// Finalizer that keeps a pod until its address has been disassociated.
pub const POD_FINALIZER_NAME: &'static str = "eip.materialize.cloud/disassociate";

/// Finalizer that keeps an `Eip` until its address has been released.
pub const EIP_FINALIZER_NAME: &'static str = "eip.materialize.cloud/destroy";

/// Pod annotation that names the allocation bound to the pod.
pub const EIP_ALLOCATION_ID_ANNOTATION: &'static str = "eip.materialize.cloud/allocation_id";

/// Pod annotation read by external-dns: the public address to publish.
pub const EXTERNAL_DNS_TARGET_ANNOTATION: &'static str = "external-dns.alpha.kubernetes.io/target";

/// Pod annotation in which the VPC CNI lists the pod's own network interfaces.
pub const POD_ENI_ANNOTATION: &'static str = "vpc.amazonaws.com/pod-eni";

/// Field of an entry of the pod's interface list that holds the interface id.
pub const ENI_ID_FIELD: &'static str = "eniId";

/// Label that earlier releases used to mark managed pods.
pub const LEGACY_MANAGE_EIP_LABEL: &'static str = "eip.aws.materialize.com/manage";

/// Pod finalizer of earlier releases; it is only ever removed.
pub const LEGACY_POD_FINALIZER_NAME: &'static str = "eip.aws.materialize.com/disassociate";

/// Cloud tag that names the cluster owning an allocation.
pub const CLUSTER_NAME_TAG: &'static str = "eip.materialize.cloud/cluster_name";

/// Cluster tag of earlier releases; it is read and never written.
pub const LEGACY_CLUSTER_NAME_TAG: &'static str = "eip.aws.materialize.com/cluster_name";

/// Cloud tag that holds the uid of the `Eip` an allocation belongs to.
pub const EIP_UID_TAG: &'static str = "eip.materialize.cloud/eip_uid";

/// Cloud tag that holds the name of the `Eip` an allocation belongs to.
pub const EIP_NAME_TAG: &'static str = "eip.materialize.cloud/eip_name";

/// Cloud tag that holds the name of the pod an allocation was made for.
pub const POD_NAME_TAG: &'static str = "eip.materialize.cloud/pod_name";

/// Cloud tag that holds the namespace of the `Eip` an allocation belongs to.
pub const NAMESPACE_TAG: &'static str = "eip.materialize.cloud/namespace";

/// Name of the custom resource definition.
pub const CRD_NAME: &'static str = "eips.materialize.cloud";

/// API group of the custom resource.
pub const API_GROUP: &'static str = "materialize.cloud";

/// Kind of the custom resource.
pub const EIP_KIND: &'static str = "Eip";

/// Namespace used where none is given.
pub const DEFAULT_NAMESPACE: &'static str = "default";

/// Service quota code of the number of Elastic IPs an account may hold.
pub const EIP_QUOTA_CODE: &'static str = "L-0263D0A3";

/// Error code with which the cloud answers a disassociation that is already undone.
pub const ASSOCIATION_NOT_FOUND_CODE: &'static str = "InvalidAssociationID.NotFound";

/// Error code with which the cloud answers the release of an address that is already gone.
pub const ALLOCATION_NOT_FOUND_CODE: &'static str = "InvalidAllocationID.NotFound";

/// Status with which the API server answers for an object that does not exist.
pub const HTTP_NOT_FOUND: u16 = 404;

/// Seconds the startup waits for the custom resource definition to be established.
pub const CRD_ESTABLISH_TIMEOUT_SECS: u64 = 10;

} // verus!
