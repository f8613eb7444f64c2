//! The ways in which a reconcile can fail on what it observed.

use vstd::prelude::*;
use vstd::string::StringExecFns;

verus! {

/// A failure found by the operator's own rules. Failures of the cluster or
/// cloud adapters are not among them: those end a reconcile where they occur.
#[derive(Debug, PartialEq, Eq)]
pub enum Error {
    /// No `Eip` selects the pod; the payload is the pod's name.
    NoEipResourceWithThatPodName(String),
    MissingEipStatus,
    MissingEipUid,
    MissingEipName,
    MissingPodName,
    MissingPodIp,
    MissingNodeName,
    MissingProviderId,
    MalformedProviderId,
    MultipleEipsTaggedForPod,
    MissingAllocationId,
    MissingPublicIp,
    MissingReservations,
    MissingInstances,
    MissingNetworkInterfaces,
    MissingAddresses,
    NoInterfaceWithThatIp,
    /// The pod carries the annotation that lists its own network interfaces,
    /// but the annotation names none: it is no list, the list is empty, or
    /// an entry of it has no interface id.
    UnparseableEniAnnotation,
    /// The node that the pod is scheduled on does not exist.
    NodeNotFound,
    /// The reconcile was handed an answer that does not belong to the step it is at.
    UnexpectedEvent,
}

/// The mathematical value of an [`Error`].
pub enum ErrorView {
    NoEipResourceWithThatPodName(Seq<char>),
    MissingEipStatus,
    MissingEipUid,
    MissingEipName,
    MissingPodName,
    MissingPodIp,
    MissingNodeName,
    MissingProviderId,
    MalformedProviderId,
    MultipleEipsTaggedForPod,
    MissingAllocationId,
    MissingPublicIp,
    MissingReservations,
    MissingInstances,
    MissingNetworkInterfaces,
    MissingAddresses,
    NoInterfaceWithThatIp,
    UnparseableEniAnnotation,
    NodeNotFound,
    UnexpectedEvent,
}

impl View for Error {
    type V = ErrorView;

    open spec fn view(&self) -> ErrorView {
        match self {
            Error::NoEipResourceWithThatPodName(name) => ErrorView::NoEipResourceWithThatPodName(
                name@,
            ),
            Error::MissingEipStatus => ErrorView::MissingEipStatus,
            Error::MissingEipUid => ErrorView::MissingEipUid,
            Error::MissingEipName => ErrorView::MissingEipName,
            Error::MissingPodName => ErrorView::MissingPodName,
            Error::MissingPodIp => ErrorView::MissingPodIp,
            Error::MissingNodeName => ErrorView::MissingNodeName,
            Error::MissingProviderId => ErrorView::MissingProviderId,
            Error::MalformedProviderId => ErrorView::MalformedProviderId,
            Error::MultipleEipsTaggedForPod => ErrorView::MultipleEipsTaggedForPod,
            Error::MissingAllocationId => ErrorView::MissingAllocationId,
            Error::MissingPublicIp => ErrorView::MissingPublicIp,
            Error::MissingReservations => ErrorView::MissingReservations,
            Error::MissingInstances => ErrorView::MissingInstances,
            Error::MissingNetworkInterfaces => ErrorView::MissingNetworkInterfaces,
            Error::MissingAddresses => ErrorView::MissingAddresses,
            Error::NoInterfaceWithThatIp => ErrorView::NoInterfaceWithThatIp,
            Error::UnparseableEniAnnotation => ErrorView::UnparseableEniAnnotation,
            Error::NodeNotFound => ErrorView::NodeNotFound,
            Error::UnexpectedEvent => ErrorView::UnexpectedEvent,
        }
    }
}

impl DeepView for Error {
    type V = ErrorView;

    open spec fn deep_view(&self) -> ErrorView {
        self.view()
    }
}

impl ErrorView {
    /// The text that describes the failure.
    pub open spec fn message(self) -> Seq<char> {
        match self {
            ErrorView::NoEipResourceWithThatPodName(_) => "No EIP found with that podName."@,
            ErrorView::MissingEipStatus => "EIP does not have a status."@,
            ErrorView::MissingEipUid => "EIP does not have a UID in its metadata."@,
            ErrorView::MissingEipName => "EIP does not have a name in its metadata."@,
            ErrorView::MissingPodName => "Pod does not have a name in its metadata."@,
            ErrorView::MissingPodIp => "Pod does not have an IP address."@,
            ErrorView::MissingNodeName => "Pod does not have a node name in its spec."@,
            ErrorView::MissingProviderId => "Node does not have a provider_id in its spec."@,
            ErrorView::MalformedProviderId => "Node provider_id is not in expected format."@,
            ErrorView::MultipleEipsTaggedForPod => "Multiple elastic IPs are tagged with this pod's UID."@,
            ErrorView::MissingAllocationId => "allocation_id was None."@,
            ErrorView::MissingPublicIp => "public_ip was None."@,
            ErrorView::MissingReservations => "DescribeInstancesResult.reservations was None."@,
            ErrorView::MissingInstances => "DescribeInstancesResult.reservations[0].instances was None."@,
            ErrorView::MissingNetworkInterfaces => "DescribeInstancesResult.reservations[0].instances[0].network_interfaces was None."@,
            ErrorView::MissingAddresses => "DescribeAddressesResult.addresses was None."@,
            ErrorView::NoInterfaceWithThatIp => "No interface found with IP matching pod."@,
            ErrorView::UnparseableEniAnnotation => "Pod annotation vpc.amazonaws.com/pod-eni names no network interface."@,
            ErrorView::NodeNotFound => "Node of the pod does not exist."@,
            ErrorView::UnexpectedEvent => "Reconcile received an answer it did not ask for."@,
        }
    }
}

impl Error {
    /// The text that describes the failure.
    pub fn message(&self) -> (r: String)
        ensures
            r@ == self@.message(),
    {
        let text: &'static str = match self {
            Error::NoEipResourceWithThatPodName(_) => "No EIP found with that podName.",
            Error::MissingEipStatus => "EIP does not have a status.",
            Error::MissingEipUid => "EIP does not have a UID in its metadata.",
            Error::MissingEipName => "EIP does not have a name in its metadata.",
            Error::MissingPodName => "Pod does not have a name in its metadata.",
            Error::MissingPodIp => "Pod does not have an IP address.",
            Error::MissingNodeName => "Pod does not have a node name in its spec.",
            Error::MissingProviderId => "Node does not have a provider_id in its spec.",
            Error::MalformedProviderId => "Node provider_id is not in expected format.",
            Error::MultipleEipsTaggedForPod => "Multiple elastic IPs are tagged with this pod's UID.",
            Error::MissingAllocationId => "allocation_id was None.",
            Error::MissingPublicIp => "public_ip was None.",
            Error::MissingReservations => "DescribeInstancesResult.reservations was None.",
            Error::MissingInstances => "DescribeInstancesResult.reservations[0].instances was None.",
            Error::MissingNetworkInterfaces => "DescribeInstancesResult.reservations[0].instances[0].network_interfaces was None.",
            Error::MissingAddresses => "DescribeAddressesResult.addresses was None.",
            Error::NoInterfaceWithThatIp => "No interface found with IP matching pod.",
            Error::UnparseableEniAnnotation => "Pod annotation vpc.amazonaws.com/pod-eni names no network interface.",
            Error::NodeNotFound => "Node of the pod does not exist.",
            Error::UnexpectedEvent => "Reconcile received an answer it did not ask for.",
        };
        String::from_str(text)
    }

    /// Whether the failure is one that no retry mends: the state found
    /// contradicts what the operator relies on, and someone has to look at it.
    pub fn needs_intervention(&self) -> (r: bool)
        ensures
            r == (self@ is MultipleEipsTaggedForPod || self@ is MalformedProviderId
                || self@ is UnparseableEniAnnotation || self@ is UnexpectedEvent),
    {
        match self {
            Error::MultipleEipsTaggedForPod => true,
            Error::MalformedProviderId => true,
            Error::UnparseableEniAnnotation => true,
            Error::UnexpectedEvent => true,
            _ => false,
        }
    }
}

} // verus!
