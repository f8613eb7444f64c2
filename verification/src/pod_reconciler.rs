//! The pod reconciler: binds the address of the `Eip` that selects a pod to
//! the network interface that carries the pod's address, and undoes the
//! binding when the pod goes.

use crate::cloud::Address;
use crate::cluster::{first_eni_id, instance_id_from, json_list_fields, NodeView, Pod, PodView};
use crate::eip::v2::{Eip, EipView};
use crate::error::{Error, ErrorView};
use crate::labels::Labels;
use crate::names::{
    EIP_ALLOCATION_ID_ANNOTATION, ENI_ID_FIELD, EXTERNAL_DNS_TARGET_ANNOTATION, POD_ENI_ANNOTATION,
};
use crate::protocol::{take_next, Action, ActionView, Event, EventView};
use crate::selector::{eip_for_pod, find_eip_for_pod};
use crate::teardown::{disassociate_actions, disassociations_of};
use crate::text::clone_opt;
use vstd::prelude::*;

verus! {

/// Where the binding of a pod stands.
#[derive(Debug, PartialEq, Eq)]
pub enum PodApplyState {
    /// Nothing has been done yet.
    Start,
    /// The pod's own `Eip` is being created.
    CreatingEip,
    /// The node that the pod runs on is being read.
    FetchingNode,
    /// The instance behind the node is being described, to find the pod's interface.
    DescribingInstance { node_labels: Labels },
    /// The `Eip` resources are being listed, to find the one that selects the pod.
    ListingEips { eni: String, node_labels: Labels },
    /// The address of the `Eip` is being described.
    DescribingAddress { eni: String, eip_name: String, allocation_id: String },
    /// The address is being attached to the pod's interface.
    Associating { eni: String, eip_name: String, allocation_id: String, public_ip: String },
    /// The attachment is being written into the status of the `Eip`.
    WritingStatus { allocation_id: String, public_ip: String },
    /// The pod is being annotated.
    Annotating,
    /// The reconcile has ended.
    Finished,
}

/// The mathematical value of a [`PodApplyState`].
pub enum PodApplyStateView {
    Start,
    CreatingEip,
    FetchingNode,
    DescribingInstance { node_labels: Map<Seq<char>, Seq<char>> },
    ListingEips { eni: Seq<char>, node_labels: Map<Seq<char>, Seq<char>> },
    DescribingAddress { eni: Seq<char>, eip_name: Seq<char>, allocation_id: Seq<char> },
    Associating { eni: Seq<char>, eip_name: Seq<char>, allocation_id: Seq<char>, public_ip: Seq<char> },
    WritingStatus { allocation_id: Seq<char>, public_ip: Seq<char> },
    Annotating,
    Finished,
}

impl View for PodApplyState {
    type V = PodApplyStateView;

    open spec fn view(&self) -> PodApplyStateView {
        match self {
            PodApplyState::Start => PodApplyStateView::Start,
            PodApplyState::CreatingEip => PodApplyStateView::CreatingEip,
            PodApplyState::FetchingNode => PodApplyStateView::FetchingNode,
            PodApplyState::DescribingInstance { node_labels } => PodApplyStateView::DescribingInstance {
                node_labels: node_labels@,
            },
            PodApplyState::ListingEips { eni, node_labels } => PodApplyStateView::ListingEips {
                eni: eni@,
                node_labels: node_labels@,
            },
            PodApplyState::DescribingAddress { eni, eip_name, allocation_id } => {
                PodApplyStateView::DescribingAddress {
                    eni: eni@,
                    eip_name: eip_name@,
                    allocation_id: allocation_id@,
                }
            },
            PodApplyState::Associating { eni, eip_name, allocation_id, public_ip } => {
                PodApplyStateView::Associating {
                    eni: eni@,
                    eip_name: eip_name@,
                    allocation_id: allocation_id@,
                    public_ip: public_ip@,
                }
            },
            PodApplyState::WritingStatus { allocation_id, public_ip } => PodApplyStateView::WritingStatus {
                allocation_id: allocation_id@,
                public_ip: public_ip@,
            },
            PodApplyState::Annotating => PodApplyStateView::Annotating,
            PodApplyState::Finished => PodApplyStateView::Finished,
        }
    }
}

/// The end of a reconcile that has failed.
pub open spec fn apply_failed(error: ErrorView) -> (PodApplyStateView, ActionView) {
    (PodApplyStateView::Finished, ActionView::Fail(error))
}

/// The annotations that tell which address a pod has been given.
pub open spec fn binding_annotations(allocation_id: Seq<char>, public_ip: Seq<char>) -> Map<
    Seq<char>,
    Seq<char>,
> {
    Map::<Seq<char>, Seq<char>>::empty().insert(EIP_ALLOCATION_ID_ANNOTATION@, allocation_id).insert(
        EXTERNAL_DNS_TARGET_ANNOTATION@,
        public_ip,
    )
}

/// What follows once the pod's own `Eip`, where it asked for one, is in
/// place: the pod must have an address and a node, and the node is read.
pub open spec fn apply_after_eip_ensured(pod: PodView) -> (PodApplyStateView, ActionView) {
    if pod.pod_ip is None {
        apply_failed(ErrorView::MissingPodIp)
    } else if pod.node_name is None {
        apply_failed(ErrorView::MissingNodeName)
    } else {
        (PodApplyStateView::FetchingNode, ActionView::GetNode { name: pod.node_name->0 })
    }
}

/// What follows once the interface of the pod is known: the `Eip` resources are listed.
pub open spec fn apply_after_eni(eni: Seq<char>, node_labels: Map<Seq<char>, Seq<char>>) -> (
    PodApplyStateView,
    ActionView,
) {
    (PodApplyStateView::ListingEips { eni, node_labels }, ActionView::ListEips)
}

/// What follows once the address is known to be attached where it belongs.
pub open spec fn apply_after_association(
    pod: PodView,
    eni: Seq<char>,
    eip_name: Seq<char>,
    allocation_id: Seq<char>,
    public_ip: Seq<char>,
) -> (PodApplyStateView, ActionView) {
    match pod.pod_ip {
        None => apply_failed(ErrorView::MissingPodIp),
        Some(pod_ip) => (
            PodApplyStateView::WritingStatus { allocation_id, public_ip },
            ActionView::SetEipStatusAttached { name: eip_name, eni, private_ip_address: pod_ip },
        ),
    }
}

/// One step of the binding of a pod: from where it stands and what came of
/// the last action to where it stands then and what is to be done next.
///
/// The pod must have a name; where it asks for an `Eip` of its own, that is
/// applied first. The pod must have an address and a node. Where the pod
/// carries the annotation that lists its interfaces, the annotation must
/// name one: an annotation that cannot be read fails the reconcile, and no
/// other source is asked. The node must name its instance. The interface is
/// the one that the pod's annotation names, or else, for a pod without the
/// annotation, the one of the instance that holds the pod's address. The
/// first `Eip` that selects the pod must have a name and an allocation. The
/// address of that allocation is attached to the interface unless it is
/// there already; then the status of the `Eip` and the annotations of the
/// pod are written, and the reconcile asks to be run again later.
pub open spec fn pod_apply_next(pod: PodView, state: PodApplyStateView, event: EventView) -> (
    PodApplyStateView,
    ActionView,
) {
    match (state, event) {
        (PodApplyStateView::Start, EventView::Begin) => match pod.metadata.name {
            None => apply_failed(ErrorView::MissingPodName),
            Some(name) => if pod.should_autocreate_eip() {
                (PodApplyStateView::CreatingEip, ActionView::ApplyEip { eip: EipView::for_pod(name) })
            } else {
                apply_after_eip_ensured(pod)
            },
        },
        (PodApplyStateView::CreatingEip, EventView::Done) => apply_after_eip_ensured(pod),
        (PodApplyStateView::FetchingNode, EventView::Missing) => apply_failed(ErrorView::NodeNotFound),
        (PodApplyStateView::FetchingNode, EventView::Node(node)) => match pod.eni_id_from_annotation() {
            Err(error) => apply_failed(error),
            Ok(annotated) => match node.provider_id {
                None => apply_failed(ErrorView::MissingProviderId),
                Some(_) => match node.instance_id() {
                    None => apply_failed(ErrorView::MalformedProviderId),
                    Some(instance_id) => match annotated {
                        Some(eni) => apply_after_eni(eni, node.metadata.labels),
                        None => (
                            PodApplyStateView::DescribingInstance { node_labels: node.metadata.labels },
                            ActionView::DescribeInstance { instance_id },
                        ),
                    },
                },
            },
        },
        (PodApplyStateView::DescribingInstance { node_labels }, EventView::Instance(description)) => {
            match pod.pod_ip {
                None => apply_failed(ErrorView::MissingPodIp),
                Some(pod_ip) => match description.eni_for_ip(pod_ip) {
                    Err(error) => apply_failed(error),
                    Ok(eni) => apply_after_eni(eni, node_labels),
                },
            }
        },
        (PodApplyStateView::ListingEips { eni, node_labels }, EventView::Eips(eips)) => {
            match pod.metadata.name {
                None => apply_failed(ErrorView::MissingPodName),
                Some(pod_name) => match eip_for_pod(eips, pod_name, node_labels) {
                    None => apply_failed(ErrorView::NoEipResourceWithThatPodName(pod_name)),
                    Some(i) => match eips[i].metadata.name {
                        None => apply_failed(ErrorView::MissingEipName),
                        Some(eip_name) => match eips[i].status {
                            None => apply_failed(ErrorView::MissingEipStatus),
                            Some(status) => match status.allocation_id {
                                None => apply_failed(ErrorView::MissingAllocationId),
                                Some(allocation_id) => (
                                    PodApplyStateView::DescribingAddress { eni, eip_name, allocation_id },
                                    ActionView::DescribeAddress { allocation_id },
                                ),
                            },
                        },
                    },
                },
            }
        },
        (
            PodApplyStateView::DescribingAddress { eni, eip_name, allocation_id },
            EventView::Addresses(addresses),
        ) => match addresses {
            None => apply_failed(ErrorView::MissingAddresses),
            Some(addresses) => if addresses.len() == 0 {
                apply_failed(ErrorView::MissingAddresses)
            } else {
                match (addresses[0].public_ip, pod.pod_ip) {
                    (None, _) => apply_failed(ErrorView::MissingPublicIp),
                    (Some(_), None) => apply_failed(ErrorView::MissingPodIp),
                    (Some(public_ip), Some(pod_ip)) => if addresses[0].attached_to(eni, pod_ip) {
                        apply_after_association(pod, eni, eip_name, allocation_id, public_ip)
                    } else {
                        (
                            PodApplyStateView::Associating { eni, eip_name, allocation_id, public_ip },
                            ActionView::Associate { allocation_id, eni, private_ip: pod_ip },
                        )
                    },
                }
            },
        },
        (
            PodApplyStateView::Associating { eni, eip_name, allocation_id, public_ip },
            EventView::Done,
        ) => apply_after_association(pod, eni, eip_name, allocation_id, public_ip),
        (PodApplyStateView::WritingStatus { allocation_id, public_ip }, EventView::Done) => {
            match pod.metadata.name {
                None => apply_failed(ErrorView::MissingPodName),
                Some(name) => (
                    PodApplyStateView::Annotating,
                    ActionView::AnnotatePod {
                        name,
                        annotations: binding_annotations(allocation_id, public_ip),
                    },
                ),
            }
        },
        (PodApplyStateView::Annotating, EventView::Done) => (
            PodApplyStateView::Finished,
            ActionView::Done { refresh: true },
        ),
        _ => apply_failed(ErrorView::UnexpectedEvent),
    }
}

/// A pod that carries the annotation listing its interfaces, where the
/// annotation names none, fails its reconcile when the node has been read:
/// no instance is described in its place and nothing is associated.
pub proof fn lemma_unreadable_annotation_fails(pod: PodView, node: NodeView)
    requires
        pod.metadata.annotations.contains_key(POD_ENI_ANNOTATION@),
        first_eni_id(json_list_fields(pod.metadata.annotations[POD_ENI_ANNOTATION@], ENI_ID_FIELD@)) is None,
    ensures
        pod_apply_next(pod, PodApplyStateView::FetchingNode, EventView::Node(node)) == apply_failed(
            ErrorView::UnparseableEniAnnotation,
        ),
{
}

fn fail_apply(error: Error) -> (r: (PodApplyState, Action))
    ensures
        (r.0@, r.1@) == apply_failed(error@),
{
    (PodApplyState::Finished, Action::Fail(error))
}

fn after_eip_ensured(pod: &Pod) -> (r: (PodApplyState, Action))
    ensures
        (r.0@, r.1@) == apply_after_eip_ensured(pod@),
{
    if pod.pod_ip.is_none() {
        return fail_apply(Error::MissingPodIp);
    }
    match &pod.node_name {
        None => fail_apply(Error::MissingNodeName),
        Some(node_name) => (PodApplyState::FetchingNode, Action::GetNode { name: node_name.clone() }),
    }
}

fn after_association(
    pod: &Pod,
    eni: String,
    eip_name: String,
    allocation_id: String,
    public_ip: String,
) -> (r: (PodApplyState, Action))
    ensures
        (r.0@, r.1@) == apply_after_association(pod@, eni@, eip_name@, allocation_id@, public_ip@),
{
    match &pod.pod_ip {
        None => fail_apply(Error::MissingPodIp),
        Some(pod_ip) => (
            PodApplyState::WritingStatus { allocation_id, public_ip },
            Action::SetEipStatusAttached { name: eip_name, eni, private_ip_address: pod_ip.clone() },
        ),
    }
}

fn on_eips_listed(pod: &Pod, eni: String, node_labels: Labels, eips: Vec<Eip>) -> (r: (
    PodApplyState,
    Action,
))
    ensures
        (r.0@, r.1@) == pod_apply_next(
            pod@,
            PodApplyStateView::ListingEips { eni: eni@, node_labels: node_labels@ },
            EventView::Eips(eips.deep_view()),
        ),
{
    let pod_name = match &pod.metadata.name {
        None => {
            return fail_apply(Error::MissingPodName);
        },
        Some(pod_name) => pod_name,
    };
    let i = match find_eip_for_pod(&eips, pod_name.as_str(), &node_labels) {
        None => {
            return fail_apply(Error::NoEipResourceWithThatPodName(pod_name.clone()));
        },
        Some(i) => i,
    };
    let eip = &eips[i];
    assert(eip@ == eips.deep_view()[i as int]);
    let eip_name = match &eip.metadata.name {
        None => {
            return fail_apply(Error::MissingEipName);
        },
        Some(eip_name) => eip_name.clone(),
    };
    let status = match &eip.status {
        None => {
            return fail_apply(Error::MissingEipStatus);
        },
        Some(status) => status,
    };
    match &status.allocation_id {
        None => fail_apply(Error::MissingAllocationId),
        Some(allocation_id) => (
            PodApplyState::DescribingAddress { eni, eip_name, allocation_id: allocation_id.clone() },
            Action::DescribeAddress { allocation_id: allocation_id.clone() },
        ),
    }
}

fn on_address_described(
    pod: &Pod,
    eni: String,
    eip_name: String,
    allocation_id: String,
    addresses: Option<Vec<Address>>,
) -> (r: (PodApplyState, Action))
    ensures
        (r.0@, r.1@) == pod_apply_next(
            pod@,
            PodApplyStateView::DescribingAddress {
                eni: eni@,
                eip_name: eip_name@,
                allocation_id: allocation_id@,
            },
            EventView::Addresses(addresses.deep_view()),
        ),
{
    let addresses = match addresses {
        None => {
            return fail_apply(Error::MissingAddresses);
        },
        Some(addresses) => addresses,
    };
    if addresses.len() == 0 {
        return fail_apply(Error::MissingAddresses);
    }
    let address = &addresses[0];
    assert(address@ == addresses.deep_view()[0]);
    let public_ip = match &address.public_ip {
        None => {
            return fail_apply(Error::MissingPublicIp);
        },
        Some(public_ip) => public_ip.clone(),
    };
    let pod_ip = match &pod.pod_ip {
        None => {
            return fail_apply(Error::MissingPodIp);
        },
        Some(pod_ip) => pod_ip,
    };
    if address.attached_to(eni.as_str(), pod_ip.as_str()) {
        after_association(pod, eni, eip_name, allocation_id, public_ip)
    } else {
        let action = Action::Associate {
            allocation_id: allocation_id.clone(),
            eni: eni.clone(),
            private_ip: pod_ip.clone(),
        };
        (PodApplyState::Associating { eni, eip_name, allocation_id, public_ip }, action)
    }
}

/// The annotations that tell which address a pod has been given.
pub fn make_binding_annotations(allocation_id: &str, public_ip: &str) -> (r: Labels)
    ensures
        r@ == binding_annotations(allocation_id@, public_ip@),
{
    let mut annotations = Labels::new();
    annotations.insert(EIP_ALLOCATION_ID_ANNOTATION.to_owned(), allocation_id.to_owned());
    annotations.insert(EXTERNAL_DNS_TARGET_ANNOTATION.to_owned(), public_ip.to_owned());
    annotations
}

/// One step of the binding of a pod.
pub fn pod_apply_step(pod: &Pod, state: PodApplyState, event: Event) -> (r: (PodApplyState, Action))
    ensures
        (r.0@, r.1@) == pod_apply_next(pod@, state@, event@),
{
    match (state, event) {
        (PodApplyState::Start, Event::Begin) => match &pod.metadata.name {
            None => fail_apply(Error::MissingPodName),
            Some(name) => {
                if pod.should_autocreate_eip() {
                    (PodApplyState::CreatingEip, Action::ApplyEip { eip: Eip::for_pod(name.as_str()) })
                } else {
                    after_eip_ensured(pod)
                }
            },
        },
        (PodApplyState::CreatingEip, Event::Done) => after_eip_ensured(pod),
        (PodApplyState::FetchingNode, Event::Missing) => fail_apply(Error::NodeNotFound),
        (PodApplyState::FetchingNode, Event::Node(node)) => {
            let annotated = match pod.eni_id_from_annotation() {
                Err(error) => {
                    return fail_apply(error);
                },
                Ok(annotated) => annotated,
            };
            let provider_id = match &node.provider_id {
                None => {
                    return fail_apply(Error::MissingProviderId);
                },
                Some(provider_id) => provider_id,
            };
            let instance_id = match instance_id_from(provider_id.as_str()) {
                None => {
                    return fail_apply(Error::MalformedProviderId);
                },
                Some(instance_id) => instance_id,
            };
            let node_labels = node.metadata.labels;
            match annotated {
                Some(eni) => (PodApplyState::ListingEips { eni, node_labels }, Action::ListEips),
                None => (
                    PodApplyState::DescribingInstance { node_labels },
                    Action::DescribeInstance { instance_id },
                ),
            }
        },
        (PodApplyState::DescribingInstance { node_labels }, Event::Instance(description)) => {
            match &pod.pod_ip {
                None => fail_apply(Error::MissingPodIp),
                Some(pod_ip) => match description.eni_for_ip(pod_ip.as_str()) {
                    Err(error) => fail_apply(error),
                    Ok(eni) => (PodApplyState::ListingEips { eni, node_labels }, Action::ListEips),
                },
            }
        },
        (PodApplyState::ListingEips { eni, node_labels }, Event::Eips(eips)) => on_eips_listed(
            pod,
            eni,
            node_labels,
            eips,
        ),
        (
            PodApplyState::DescribingAddress { eni, eip_name, allocation_id },
            Event::Addresses(addresses),
        ) => on_address_described(pod, eni, eip_name, allocation_id, addresses),
        (PodApplyState::Associating { eni, eip_name, allocation_id, public_ip }, Event::Done) => {
            after_association(pod, eni, eip_name, allocation_id, public_ip)
        },
        (PodApplyState::WritingStatus { allocation_id, public_ip }, Event::Done) => {
            match &pod.metadata.name {
                None => fail_apply(Error::MissingPodName),
                Some(name) => (
                    PodApplyState::Annotating,
                    Action::AnnotatePod {
                        name: name.clone(),
                        annotations: make_binding_annotations(allocation_id.as_str(), public_ip.as_str()),
                    },
                ),
            }
        },
        (PodApplyState::Annotating, Event::Done) => (
            PodApplyState::Finished,
            Action::Done { refresh: true },
        ),
        _ => fail_apply(Error::UnexpectedEvent),
    }
}

/// Where the unbinding of a pod stands.
#[derive(Debug, PartialEq, Eq)]
pub enum PodCleanupState {
    /// Nothing has been done yet.
    Start,
    /// The node that the pod ran on is being read.
    FetchingNode,
    /// The `Eip` resources are being listed, to find the one that selects the pod.
    ListingEips { node_labels: Labels },
    /// The address of the `Eip` is being described; `eip_name` is the name of the `Eip`.
    DescribingAddress { eip_name: Option<String> },
    /// An association is being undone; `pending` holds the calls that follow.
    Disassociating { eip_name: Option<String>, pending: Vec<Action> },
    /// The attachment is being cleared from the status of the `Eip`.
    Detaching,
    /// The pod's own `Eip` is being deleted.
    DeletingEip,
    /// The reconcile has ended.
    Finished,
}

/// The mathematical value of a [`PodCleanupState`].
pub enum PodCleanupStateView {
    Start,
    FetchingNode,
    ListingEips { node_labels: Map<Seq<char>, Seq<char>> },
    DescribingAddress { eip_name: Option<Seq<char>> },
    Disassociating { eip_name: Option<Seq<char>>, pending: Seq<ActionView> },
    Detaching,
    DeletingEip,
    Finished,
}

impl View for PodCleanupState {
    type V = PodCleanupStateView;

    open spec fn view(&self) -> PodCleanupStateView {
        match self {
            PodCleanupState::Start => PodCleanupStateView::Start,
            PodCleanupState::FetchingNode => PodCleanupStateView::FetchingNode,
            PodCleanupState::ListingEips { node_labels } => PodCleanupStateView::ListingEips {
                node_labels: node_labels@,
            },
            PodCleanupState::DescribingAddress { eip_name } => PodCleanupStateView::DescribingAddress {
                eip_name: eip_name.deep_view(),
            },
            PodCleanupState::Disassociating { eip_name, pending } => PodCleanupStateView::Disassociating {
                eip_name: eip_name.deep_view(),
                pending: pending.deep_view(),
            },
            PodCleanupState::Detaching => PodCleanupStateView::Detaching,
            PodCleanupState::DeletingEip => PodCleanupStateView::DeletingEip,
            PodCleanupState::Finished => PodCleanupStateView::Finished,
        }
    }
}

/// The end of an unbinding that has failed.
pub open spec fn cleanup_failed(error: ErrorView) -> (PodCleanupStateView, ActionView) {
    (PodCleanupStateView::Finished, ActionView::Fail(error))
}

/// What follows once the `Eip` no longer records an attachment: the `Eip`
/// that was made for the pod goes with it, any other stays.
pub open spec fn cleanup_after_detach(pod: PodView) -> (PodCleanupStateView, ActionView) {
    if pod.should_autocreate_eip() {
        match pod.metadata.name {
            None => cleanup_failed(ErrorView::MissingPodName),
            Some(name) => (PodCleanupStateView::DeletingEip, ActionView::DeleteEip { name }),
        }
    } else {
        (PodCleanupStateView::Finished, ActionView::Done { refresh: false })
    }
}

/// What follows while associations are undone: the next call of `pending`,
/// and after the last of them the clearing of the status.
pub open spec fn cleanup_continue(eip_name: Option<Seq<char>>, pending: Seq<ActionView>) -> (
    PodCleanupStateView,
    ActionView,
) {
    if pending.len() > 0 {
        (PodCleanupStateView::Disassociating { eip_name, pending: pending.drop_first() }, pending[0])
    } else {
        match eip_name {
            None => cleanup_failed(ErrorView::MissingEipName),
            Some(name) => (PodCleanupStateView::Detaching, ActionView::SetEipStatusDetached { name }),
        }
    }
}

/// One step of the unbinding of a pod that is being deleted.
///
/// The node of the pod is read where the pod has one, for its labels; a
/// node that is gone has none. Where an `Eip` selects the pod, every
/// association of its address is undone (one that is gone already counts as
/// undone) and the attachment is cleared from its status. Where the pod
/// asked for an `Eip` of its own, that is deleted (one that is gone already
/// counts as deleted).
pub open spec fn pod_cleanup_next(pod: PodView, state: PodCleanupStateView, event: EventView) -> (
    PodCleanupStateView,
    ActionView,
) {
    match (state, event) {
        (PodCleanupStateView::Start, EventView::Begin) => match pod.metadata.name {
            None => cleanup_failed(ErrorView::MissingPodName),
            Some(_) => match pod.node_name {
                Some(name) => (PodCleanupStateView::FetchingNode, ActionView::GetNode { name }),
                None => (
                    PodCleanupStateView::ListingEips { node_labels: Map::empty() },
                    ActionView::ListEips,
                ),
            },
        },
        (PodCleanupStateView::FetchingNode, EventView::Node(node)) => (
            PodCleanupStateView::ListingEips { node_labels: node.metadata.labels },
            ActionView::ListEips,
        ),
        (PodCleanupStateView::FetchingNode, EventView::Missing) => (
            PodCleanupStateView::ListingEips { node_labels: Map::empty() },
            ActionView::ListEips,
        ),
        (PodCleanupStateView::ListingEips { node_labels }, EventView::Eips(eips)) => {
            match pod.metadata.name {
                None => cleanup_failed(ErrorView::MissingPodName),
                Some(pod_name) => match eip_for_pod(eips, pod_name, node_labels) {
                    None => cleanup_after_detach(pod),
                    Some(i) => match eips[i].status {
                        None => cleanup_failed(ErrorView::MissingEipStatus),
                        Some(status) => match status.allocation_id {
                            None => cleanup_failed(ErrorView::MissingAllocationId),
                            Some(allocation_id) => (
                                PodCleanupStateView::DescribingAddress { eip_name: eips[i].metadata.name },
                                ActionView::DescribeAddress { allocation_id },
                            ),
                        },
                    },
                },
            }
        },
        (PodCleanupStateView::DescribingAddress { eip_name }, EventView::Addresses(addresses)) => {
            match addresses {
                None => cleanup_failed(ErrorView::MissingAddresses),
                Some(addresses) => cleanup_continue(eip_name, disassociations_of(addresses)),
            }
        },
        (PodCleanupStateView::Disassociating { eip_name, pending }, EventView::Done) => cleanup_continue(
            eip_name,
            pending,
        ),
        (PodCleanupStateView::Disassociating { eip_name, pending }, EventView::Missing) => {
            cleanup_continue(eip_name, pending)
        },
        (PodCleanupStateView::Detaching, EventView::Done) => cleanup_after_detach(pod),
        (PodCleanupStateView::DeletingEip, EventView::Done) => (
            PodCleanupStateView::Finished,
            ActionView::Done { refresh: false },
        ),
        (PodCleanupStateView::DeletingEip, EventView::Missing) => (
            PodCleanupStateView::Finished,
            ActionView::Done { refresh: false },
        ),
        _ => cleanup_failed(ErrorView::UnexpectedEvent),
    }
}

fn fail_cleanup(error: Error) -> (r: (PodCleanupState, Action))
    ensures
        (r.0@, r.1@) == cleanup_failed(error@),
{
    (PodCleanupState::Finished, Action::Fail(error))
}

fn after_detach(pod: &Pod) -> (r: (PodCleanupState, Action))
    ensures
        (r.0@, r.1@) == cleanup_after_detach(pod@),
{
    if pod.should_autocreate_eip() {
        match &pod.metadata.name {
            None => fail_cleanup(Error::MissingPodName),
            Some(name) => (PodCleanupState::DeletingEip, Action::DeleteEip { name: name.clone() }),
        }
    } else {
        (PodCleanupState::Finished, Action::Done { refresh: false })
    }
}

fn continue_cleanup(eip_name: Option<String>, pending: Vec<Action>) -> (r: (PodCleanupState, Action))
    ensures
        (r.0@, r.1@) == cleanup_continue(eip_name.deep_view(), pending.deep_view()),
{
    if pending.len() > 0 {
        let (rest, first) = take_next(pending, false);
        (PodCleanupState::Disassociating { eip_name, pending: rest }, first)
    } else {
        match eip_name {
            None => fail_cleanup(Error::MissingEipName),
            Some(name) => (PodCleanupState::Detaching, Action::SetEipStatusDetached { name }),
        }
    }
}

fn on_eips_listed_for_cleanup(pod: &Pod, node_labels: Labels, eips: Vec<Eip>) -> (r: (
    PodCleanupState,
    Action,
))
    ensures
        (r.0@, r.1@) == pod_cleanup_next(
            pod@,
            PodCleanupStateView::ListingEips { node_labels: node_labels@ },
            EventView::Eips(eips.deep_view()),
        ),
{
    let pod_name = match &pod.metadata.name {
        None => {
            return fail_cleanup(Error::MissingPodName);
        },
        Some(pod_name) => pod_name,
    };
    let i = match find_eip_for_pod(&eips, pod_name.as_str(), &node_labels) {
        None => {
            return after_detach(pod);
        },
        Some(i) => i,
    };
    let eip = &eips[i];
    assert(eip@ == eips.deep_view()[i as int]);
    let status = match &eip.status {
        None => {
            return fail_cleanup(Error::MissingEipStatus);
        },
        Some(status) => status,
    };
    match &status.allocation_id {
        None => fail_cleanup(Error::MissingAllocationId),
        Some(allocation_id) => (
            PodCleanupState::DescribingAddress { eip_name: clone_opt(&eip.metadata.name) },
            Action::DescribeAddress { allocation_id: allocation_id.clone() },
        ),
    }
}

/// One step of the unbinding of a pod that is being deleted.
pub fn pod_cleanup_step(pod: &Pod, state: PodCleanupState, event: Event) -> (r: (
    PodCleanupState,
    Action,
))
    ensures
        (r.0@, r.1@) == pod_cleanup_next(pod@, state@, event@),
{
    match (state, event) {
        (PodCleanupState::Start, Event::Begin) => {
            if pod.metadata.name.is_none() {
                return fail_cleanup(Error::MissingPodName);
            }
            match &pod.node_name {
                Some(name) => (PodCleanupState::FetchingNode, Action::GetNode { name: name.clone() }),
                None => (PodCleanupState::ListingEips { node_labels: Labels::new() }, Action::ListEips),
            }
        },
        (PodCleanupState::FetchingNode, Event::Node(node)) => (
            PodCleanupState::ListingEips { node_labels: node.metadata.labels },
            Action::ListEips,
        ),
        (PodCleanupState::FetchingNode, Event::Missing) => (
            PodCleanupState::ListingEips { node_labels: Labels::new() },
            Action::ListEips,
        ),
        (PodCleanupState::ListingEips { node_labels }, Event::Eips(eips)) => {
            on_eips_listed_for_cleanup(pod, node_labels, eips)
        },
        (PodCleanupState::DescribingAddress { eip_name }, Event::Addresses(addresses)) => {
            match addresses {
                None => fail_cleanup(Error::MissingAddresses),
                Some(addresses) => continue_cleanup(eip_name, disassociate_actions(&addresses)),
            }
        },
        (PodCleanupState::Disassociating { eip_name, pending }, Event::Done) => continue_cleanup(
            eip_name,
            pending,
        ),
        (PodCleanupState::Disassociating { eip_name, pending }, Event::Missing) => continue_cleanup(
            eip_name,
            pending,
        ),
        (PodCleanupState::Detaching, Event::Done) => after_detach(pod),
        (PodCleanupState::DeletingEip, Event::Done) => (
            PodCleanupState::Finished,
            Action::Done { refresh: false },
        ),
        (PodCleanupState::DeletingEip, Event::Missing) => (
            PodCleanupState::Finished,
            Action::Done { refresh: false },
        ),
        _ => fail_cleanup(Error::UnexpectedEvent),
    }
}

} // verus!
