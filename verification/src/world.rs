//! A model of the cluster and the cloud, as far as the reconcilers read and
//! change them, and what a whole reconcile of a pod or of an `Eip` does to
//! it. The model is for stating what holds of reconciles from end to end;
//! nothing of it runs.

use crate::cloud::{allocation_tags_of, AddressView, InstanceDescriptionView, TagView};
use crate::cluster::{NodeView, PodView};
use crate::eip::v2::{EipSelectorView, EipView};
use crate::eip::{status_or_empty, EipStatusView};
use crate::eip_reconciler::{
    eip_apply_next, namespace_of, status_reflects, uid_filters_of, EipApplyState,
};
use crate::meta::ObjectMetaView;
use crate::names::{EIP_ALLOCATION_ID_ANNOTATION, EXTERNAL_DNS_TARGET_ANNOTATION, POD_ENI_ANNOTATION};
use crate::pod_reconciler::{
    apply_after_eip_ensured, binding_annotations, pod_apply_next, PodApplyStateView,
};
use crate::protocol::{ActionView, EventView};
use crate::search::{first_index, first_match, lemma_first_index_least, lemma_first_index_map};
use crate::selector::{eip_for_pod, selecting};
use vstd::prelude::*;

verus! {

/// The cluster and the cloud at one moment.
pub struct World {
    pub pods: Seq<PodView>,
    pub nodes: Seq<NodeView>,
    pub eips: Seq<EipView>,
    pub addresses: Seq<AddressView>,
    /// The descriptions of the instances, by instance id.
    pub instances: Map<Seq<char>, InstanceDescriptionView>,
}

/// Some `Eip` of the list bears this name.
pub open spec fn has_eip_named(eips: Seq<EipView>, name: Option<Seq<char>>) -> bool {
    exists|i: int| 0 <= i < eips.len() && (#[trigger] eips[i]).metadata.name == name
}

/// The `Eip` with the spec of `applied`, all else kept.
pub open spec fn with_spec_of(applied: EipView) -> spec_fn(EipView) -> EipView {
    |eip: EipView|
        if eip.metadata.name == applied.metadata.name {
            EipView { spec: applied.spec, ..eip }
        } else {
            eip
        }
}

/// The `Eip` resources after a server-side apply: the resource of that
/// name takes the spec that was applied, and where there is none yet, the
/// applied resource is added.
pub open spec fn eips_after_apply(eips: Seq<EipView>, applied: EipView) -> Seq<EipView> {
    if has_eip_named(eips, applied.metadata.name) {
        eips.map_values(with_spec_of(applied))
    } else {
        eips.push(applied)
    }
}

/// The `Eip` with its status changed by `change`, if it bears the name.
pub open spec fn with_status(name: Seq<char>, change: spec_fn(EipStatusView) -> EipStatusView) -> spec_fn(
    EipView,
) -> EipView {
    |eip: EipView|
        if eip.metadata.name == Some(name) {
            EipView { status: Some(change(status_or_empty(eip.status))), ..eip }
        } else {
            eip
        }
}

/// The writing of an allocation into a status.
pub open spec fn allocating(allocation_id: Seq<char>, public_ip: Seq<char>) -> spec_fn(EipStatusView) -> EipStatusView {
    |status: EipStatusView| status.with_allocation(allocation_id, public_ip)
}

/// The writing of an attachment into a status.
pub open spec fn attaching(eni: Seq<char>, private_ip: Seq<char>) -> spec_fn(EipStatusView) -> EipStatusView {
    |status: EipStatusView| status.with_attachment(eni, private_ip)
}

/// The clearing of the attachment from a status.
pub open spec fn detaching() -> spec_fn(EipStatusView) -> EipStatusView {
    |status: EipStatusView| status.without_attachment()
}

/// The property of a node to bear this name.
pub open spec fn node_named(name: Seq<char>) -> spec_fn(NodeView) -> bool {
    |node: NodeView| node.metadata.name == Some(name)
}

/// The property of an address to be of this allocation.
pub open spec fn of_allocation(allocation_id: Seq<char>) -> spec_fn(AddressView) -> bool {
    |address: AddressView| address.allocation_id == Some(allocation_id)
}

/// The address attached to the interface, if it is of the allocation.
pub open spec fn with_association(allocation_id: Seq<char>, eni: Seq<char>, private_ip: Seq<char>) -> spec_fn(
    AddressView,
) -> AddressView {
    |address: AddressView|
        if address.allocation_id == Some(allocation_id) {
            AddressView {
                network_interface_id: Some(eni),
                private_ip_address: Some(private_ip),
                association_id: Some(allocation_id + eni + private_ip),
                ..address
            }
        } else {
            address
        }
}

/// The pod with the annotations added, if it bears the name.
pub open spec fn with_annotations(name: Seq<char>, annotations: Map<Seq<char>, Seq<char>>) -> spec_fn(
    PodView,
) -> PodView {
    |pod: PodView|
        if pod.metadata.name == Some(name) {
            PodView {
                metadata: ObjectMetaView {
                    annotations: pod.metadata.annotations.union_prefer_right(annotations),
                    ..pod.metadata
                },
                ..pod
            }
        } else {
            pod
        }
}

/// The property of an address to carry all of these tags.
pub open spec fn carrying(filters: Seq<TagView>) -> spec_fn(AddressView) -> bool {
    |address: AddressView| forall|j: int| 0 <= j < filters.len() ==> address.tags.contains(#[trigger] filters[j])
}

/// No address of the world is of this allocation.
pub open spec fn allocation_unused(world: World, id: Seq<char>) -> bool {
    forall|j: int| 0 <= j < world.addresses.len() ==> (#[trigger] world.addresses[j]).allocation_id != Some(id)
}

/// No address of the world has this public address.
pub open spec fn public_ip_unused(world: World, ip: Seq<char>) -> bool {
    forall|j: int| 0 <= j < world.addresses.len() ==> (#[trigger] world.addresses[j]).public_ip != Some(ip)
}

/// The address that the cloud hands out next: one of an allocation and
/// with a public address that no address of the world has yet, with these
/// tags, attached to nothing.
pub open spec fn fresh_address(world: World, tags: Seq<TagView>) -> AddressView {
    AddressView {
        allocation_id: Some(choose|id: Seq<char>| allocation_unused(world, id)),
        public_ip: Some(choose|ip: Seq<char>| public_ip_unused(world, ip)),
        network_interface_id: None,
        private_ip_address: None,
        association_id: None,
        tags,
    }
}

/// What the adapters do to the world on an action of the pod reconciler or
/// of the `Eip` reconciler's allocation, and what they answer. The other
/// actions, which undo and delete, are not modelled: they leave the world
/// as it is.
pub open spec fn respond(world: World, action: ActionView) -> (World, EventView) {
    match action {
        ActionView::ApplyEip { eip } => (
            World { eips: eips_after_apply(world.eips, eip), ..world },
            EventView::Done,
        ),
        ActionView::GetNode { name } => match first_match(world.nodes, node_named(name)) {
            Some(node) => (world, EventView::Node(node)),
            None => (world, EventView::Missing),
        },
        ActionView::DescribeInstance { instance_id } => (
            world,
            EventView::Instance(
                if world.instances.contains_key(instance_id) {
                    world.instances[instance_id]
                } else {
                    InstanceDescriptionView { reservations: None }
                },
            ),
        ),
        ActionView::ListEips => (world, EventView::Eips(world.eips)),
        ActionView::DescribeAddress { allocation_id } => match first_match(
            world.addresses,
            of_allocation(allocation_id),
        ) {
            Some(address) => (world, EventView::Addresses(Some(seq![address]))),
            None => (world, EventView::Addresses(Some(Seq::empty()))),
        },
        ActionView::DescribeAddresses { filters } => (
            world,
            EventView::Addresses(Some(world.addresses.filter(carrying(filters)))),
        ),
        ActionView::Allocate { tags } => (
            World { addresses: world.addresses.push(fresh_address(world, tags)), ..world },
            EventView::Allocated {
                allocation_id: fresh_address(world, tags).allocation_id,
                public_ip: fresh_address(world, tags).public_ip,
            },
        ),
        ActionView::Associate { allocation_id, eni, private_ip } => (
            World {
                addresses: world.addresses.map_values(with_association(allocation_id, eni, private_ip)),
                ..world
            },
            EventView::Done,
        ),
        ActionView::SetEipStatusCreated { name, allocation_id, public_ip_address } => (
            World {
                eips: world.eips.map_values(with_status(name, allocating(allocation_id, public_ip_address))),
                ..world
            },
            EventView::Done,
        ),
        ActionView::SetEipStatusAttached { name, eni, private_ip_address } => (
            World {
                eips: world.eips.map_values(with_status(name, attaching(eni, private_ip_address))),
                ..world
            },
            EventView::Done,
        ),
        ActionView::SetEipStatusDetached { name } => (
            World {
                eips: world.eips.map_values(with_status(name, detaching())),
                ..world
            },
            EventView::Done,
        ),
        ActionView::AnnotatePod { name, annotations } => (
            World { pods: world.pods.map_values(with_annotations(name, annotations)), ..world },
            EventView::Done,
        ),
        _ => (world, EventView::Done),
    }
}

/// What a reconcile has come to.
pub struct Outcome {
    /// The world when the reconcile has ended.
    pub world: World,
    /// The writes to the cluster that the reconcile has made, in their order.
    pub cluster_writes: Seq<ActionView>,
    /// The changes to the cloud that the reconcile has made, in their order.
    pub cloud_changes: Seq<ActionView>,
    /// The action that ended the reconcile.
    pub end: ActionView,
}

/// The action as a list, if it has the property, and the empty list if not.
pub open spec fn only_if(action: ActionView, counts: bool) -> Seq<ActionView> {
    if counts {
        seq![action]
    } else {
        Seq::empty()
    }
}

/// A reconcile of a pod from the point on at which it stands at `state`
/// and has named `action`: the action is performed on the world, the
/// reconciler takes its next step on the answer, and so on until an action
/// ends the reconcile. `steps` bounds the number of actions performed.
pub open spec fn pod_apply_from(
    world: World,
    pod: PodView,
    state: PodApplyStateView,
    action: ActionView,
    steps: nat,
) -> Outcome
    decreases steps,
{
    if action.is_final() || steps == 0 {
        Outcome { world, cluster_writes: Seq::empty(), cloud_changes: Seq::empty(), end: action }
    } else {
        let (after, answer) = respond(world, action);
        let (next, then) = pod_apply_next(pod, state, answer);
        let rest = pod_apply_from(after, pod, next, then, (steps - 1) as nat);
        Outcome {
            world: rest.world,
            cluster_writes: only_if(action, action.changes_cluster()) + rest.cluster_writes,
            cloud_changes: only_if(action, action.changes_cloud()) + rest.cloud_changes,
            end: rest.end,
        }
    }
}

/// A whole reconcile of a pod in a world. A reconcile performs at most nine actions.
pub open spec fn pod_apply_run(world: World, pod: PodView) -> Outcome {
    let (state, action) = pod_apply_next(pod, PodApplyStateView::Start, EventView::Begin);
    pod_apply_from(world, pod, state, action, 9)
}

/// Two pods look the same to the reconciler: it reads the same of both.
pub open spec fn same_to_reconciler(one: PodView, other: PodView) -> bool {
    &&& one.metadata.name == other.metadata.name
    &&& one.metadata.labels == other.metadata.labels
    &&& one.pod_ip == other.pod_ip
    &&& one.node_name == other.node_name
    &&& one.eni_id_from_annotation() == other.eni_id_from_annotation()
}

/// The annotations that a binding writes are not the one in which the
/// pod's interfaces are listed: a pod looks the same with and without them.
pub proof fn lemma_binding_keeps_pod(pod: PodView, name: Seq<char>, allocation_id: Seq<char>, public_ip: Seq<char>)
    ensures
        same_to_reconciler(pod, with_annotations(name, binding_annotations(allocation_id, public_ip))(pod)),
{
    reveal_strlit("eip.materialize.cloud/allocation_id");
    reveal_strlit("external-dns.alpha.kubernetes.io/target");
    reveal_strlit("vpc.amazonaws.com/pod-eni");
    assert(EIP_ALLOCATION_ID_ANNOTATION@.len() != POD_ENI_ANNOTATION@.len());
    assert(EXTERNAL_DNS_TARGET_ANNOTATION@.len() != POD_ENI_ANNOTATION@.len());
}

/// Pods that look the same to the reconciler take the same steps.
pub proof fn lemma_same_pod_same_step(one: PodView, other: PodView, state: PodApplyStateView, event: EventView)
    requires
        same_to_reconciler(one, other),
    ensures
        pod_apply_next(one, state, event) == pod_apply_next(other, state, event),
{
}

/// Pods that look the same to the reconciler are reconciled alike.
pub proof fn lemma_same_pod_same_run(
    world: World,
    one: PodView,
    other: PodView,
    state: PodApplyStateView,
    action: ActionView,
    steps: nat,
)
    requires
        same_to_reconciler(one, other),
    ensures
        pod_apply_from(world, one, state, action, steps) == pod_apply_from(world, other, state, action, steps),
    decreases steps,
{
    if !(action.is_final() || steps == 0) {
        let (after, answer) = respond(world, action);
        lemma_same_pod_same_step(one, other, state, answer);
        let (next, then) = pod_apply_next(one, state, answer);
        lemma_same_pod_same_run(after, one, other, next, then, (steps - 1) as nat);
    }
}

/// The list holds an `Eip` of the name of `applied`, and every `Eip` of
/// that name has the spec of `applied`.
pub open spec fn holds_applied(eips: Seq<EipView>, applied: EipView) -> bool {
    &&& has_eip_named(eips, applied.metadata.name)
    &&& forall|j: int|
        0 <= j < eips.len() && (#[trigger] eips[j]).metadata.name == applied.metadata.name ==> eips[j].spec
            == applied.spec
}

/// After a server-side apply the list holds what was applied.
pub proof fn lemma_apply_holds(eips: Seq<EipView>, applied: EipView)
    ensures
        holds_applied(eips_after_apply(eips, applied), applied),
{
    let after = eips_after_apply(eips, applied);
    if has_eip_named(eips, applied.metadata.name) {
        let i = choose|i: int| 0 <= i < eips.len() && (#[trigger] eips[i]).metadata.name == applied.metadata.name;
        assert(after[i].metadata.name == applied.metadata.name);
    } else {
        assert(after[eips.len() as int].metadata.name == applied.metadata.name);
    }
}

/// A server-side apply of what the list holds already changes nothing.
pub proof fn lemma_apply_again(eips: Seq<EipView>, applied: EipView)
    requires
        holds_applied(eips, applied),
    ensures
        eips_after_apply(eips, applied) == eips,
{
    assert(eips.map_values(with_spec_of(applied)) =~= eips);
}

/// A write to the status of the `Eip` resources of one name changes no
/// name and no spec.
pub proof fn lemma_status_keeps_applied(
    eips: Seq<EipView>,
    name: Seq<char>,
    change: spec_fn(EipStatusView) -> EipStatusView,
    applied: EipView,
)
    requires
        holds_applied(eips, applied),
    ensures
        holds_applied(eips.map_values(with_status(name, change)), applied),
{
    let after = eips.map_values(with_status(name, change));
    let i = choose|i: int| 0 <= i < eips.len() && (#[trigger] eips[i]).metadata.name == applied.metadata.name;
    assert(after[i].metadata.name == applied.metadata.name);
    assert forall|j: int|
        0 <= j < after.len() && (#[trigger] after[j]).metadata.name == applied.metadata.name implies after[j].spec
        == applied.spec by {
        assert(eips[j].metadata.name == applied.metadata.name);
    }
}

/// The status of every `Eip` of the list has its fields paired.
pub open spec fn all_paired(eips: Seq<EipView>) -> bool {
    forall|j: int| 0 <= j < eips.len() ==> status_or_empty((#[trigger] eips[j]).status).paired()
}

/// No two `Eip` resources of the list bear the same name.
pub open spec fn names_differ(eips: Seq<EipView>) -> bool {
    forall|j: int, k: int|
        0 <= j < k < eips.len() ==> (#[trigger] eips[j]).metadata.name != (#[trigger] eips[k]).metadata.name
}

/// A server-side apply of an `Eip` for a pod keeps the statuses paired and the names apart.
pub proof fn lemma_apply_keeps_order(eips: Seq<EipView>, pod_name: Seq<char>)
    requires
        all_paired(eips),
        names_differ(eips),
    ensures
        all_paired(eips_after_apply(eips, EipView::for_pod(pod_name))),
        names_differ(eips_after_apply(eips, EipView::for_pod(pod_name))),
{
    let applied = EipView::for_pod(pod_name);
    let after = eips_after_apply(eips, applied);
    assert forall|j: int| 0 <= j < after.len() implies status_or_empty((#[trigger] after[j]).status).paired() by {
        if j < eips.len() {
            assert(status_or_empty(eips[j].status).paired());
        }
    }
    assert forall|j: int, k: int| 0 <= j < k < after.len() implies (#[trigger] after[j]).metadata.name != (
    #[trigger] after[k]).metadata.name by {
        if k < eips.len() {
            assert(eips[j].metadata.name != eips[k].metadata.name);
        } else {
            assert(eips[j].metadata.name != applied.metadata.name);
        }
    }
}

/// What `pod_apply_from` says of one action: a reconcile that has named an
/// action that ends it is over; any other action is performed, and the
/// reconcile goes on from the answer.
proof fn lemma_unfold(world: World, pod: PodView, state: PodApplyStateView, action: ActionView, steps: nat)
    ensures
        pod_apply_from(world, pod, state, action, steps) == (if action.is_final() || steps == 0 {
            Outcome { world, cluster_writes: Seq::empty(), cloud_changes: Seq::empty(), end: action }
        } else {
            let (after, answer) = respond(world, action);
            let (next, then) = pod_apply_next(pod, state, answer);
            let rest = pod_apply_from(after, pod, next, then, (steps - 1) as nat);
            Outcome {
                world: rest.world,
                cluster_writes: only_if(action, action.changes_cluster()) + rest.cluster_writes,
                cloud_changes: only_if(action, action.changes_cloud()) + rest.cloud_changes,
                end: rest.end,
            }
        }),
{
}

/// The writes of a binding, made once more, change nothing: the status of
/// the `Eip` holds the attachment already, and the pod its annotations.
proof fn lemma_binding_writes_settle(
    world: World,
    eip_name: Seq<char>,
    eni: Seq<char>,
    pod_ip: Seq<char>,
    pod_name: Seq<char>,
    annotations: Map<Seq<char>, Seq<char>>,
)
    ensures
        ({
            let eips = world.eips.map_values(with_status(eip_name, attaching(eni, pod_ip)));
            let pods = world.pods.map_values(with_annotations(pod_name, annotations));
            &&& eips.map_values(with_status(eip_name, attaching(eni, pod_ip))) == eips
            &&& pods.map_values(with_annotations(pod_name, annotations)) == pods
        }),
{
    let eips = world.eips.map_values(with_status(eip_name, attaching(eni, pod_ip)));
    let pods = world.pods.map_values(with_annotations(pod_name, annotations));
    assert(eips.map_values(with_status(eip_name, attaching(eni, pod_ip))) =~= eips);
    assert forall|j: int| 0 <= j < pods.len() implies with_annotations(pod_name, annotations)(
        #[trigger] pods[j],
    ) == pods[j] by {
        let p = world.pods[j];
        assert(pods[j] == with_annotations(pod_name, annotations)(p));
        assert(p.metadata.annotations.union_prefer_right(annotations).union_prefer_right(annotations)
            =~= p.metadata.annotations.union_prefer_right(annotations));
    }
    assert(pods.map_values(with_annotations(pod_name, annotations)) =~= pods);
}

/// What the second half of a reconcile comes to where it binds: the world
/// with the address attached, the status written and the pod annotated.
spec fn bound_world(
    world: World,
    allocation_id: Seq<char>,
    eni: Seq<char>,
    pod_ip: Seq<char>,
    eip_name: Seq<char>,
    pod_name: Seq<char>,
    public_ip: Seq<char>,
    associate: bool,
) -> World {
    World {
        pods: world.pods.map_values(with_annotations(pod_name, binding_annotations(allocation_id, public_ip))),
        eips: world.eips.map_values(with_status(eip_name, attaching(eni, pod_ip))),
        addresses: if associate {
            world.addresses.map_values(with_association(allocation_id, eni, pod_ip))
        } else {
            world.addresses
        },
        ..world
    }
}

/// The end of the second half of a reconcile, from the point on at which
/// the address is known to be where it belongs: the status is written, the
/// pod is annotated, and the reconcile is done.
proof fn lemma_binding_ends(
    world: World,
    pod: PodView,
    eni: Seq<char>,
    eip_name: Seq<char>,
    allocation_id: Seq<char>,
    public_ip: Seq<char>,
    steps: nat,
)
    requires
        steps >= 2,
        pod.metadata.name is Some,
        pod.pod_ip is Some,
    ensures
        ({
            let pod_ip = pod.pod_ip->0;
            let pod_name = pod.metadata.name->0;
            let write = ActionView::SetEipStatusAttached { name: eip_name, eni, private_ip_address: pod_ip };
            let annotate = ActionView::AnnotatePod {
                name: pod_name,
                annotations: binding_annotations(allocation_id, public_ip),
            };
            pod_apply_from(
                world,
                pod,
                PodApplyStateView::WritingStatus { allocation_id, public_ip },
                write,
                steps,
            ) == (Outcome {
                world: World {
                    pods: world.pods.map_values(
                        with_annotations(pod_name, binding_annotations(allocation_id, public_ip)),
                    ),
                    eips: world.eips.map_values(with_status(eip_name, attaching(eni, pod_ip))),
                    ..world
                },
                cluster_writes: seq![write, annotate],
                cloud_changes: Seq::empty(),
                end: ActionView::Done { refresh: true },
            })
        }),
{
    let pod_ip = pod.pod_ip->0;
    let pod_name = pod.metadata.name->0;
    let write = ActionView::SetEipStatusAttached { name: eip_name, eni, private_ip_address: pod_ip };
    let annotate = ActionView::AnnotatePod {
        name: pod_name,
        annotations: binding_annotations(allocation_id, public_ip),
    };
    let writing = PodApplyStateView::WritingStatus { allocation_id, public_ip };
    let w1 = respond(world, write).0;
    let w2 = respond(w1, annotate).0;
    lemma_unfold(world, pod, writing, write, steps);
    lemma_unfold(w1, pod, PodApplyStateView::Annotating, annotate, (steps - 1) as nat);
    lemma_unfold(w2, pod, PodApplyStateView::Finished, ActionView::Done { refresh: true }, (steps - 2) as nat);
    let out = pod_apply_from(world, pod, writing, write, steps);
    assert(out.cluster_writes =~= seq![write, annotate]);
    assert(out.cloud_changes =~= Seq::<ActionView>::empty());
}

/// The second half of a reconcile of a pod, from the listing of the `Eip`
/// resources on, done once more on the world that it has left, comes to the
/// same end, repeats its writes to the cluster without changing anything,
/// and leaves the cloud alone. It touches neither nodes nor instances,
/// leaves the pod looking the same, and keeps what was applied before it.
proof fn lemma_second_half_settles(
    world: World,
    i: int,
    eni: Seq<char>,
    node_labels: Map<Seq<char>, Seq<char>>,
    applied: EipView,
    steps: nat,
)
    requires
        0 <= i < world.pods.len(),
        steps >= 5,
    ensures
        ({
            let state = PodApplyStateView::ListingEips { eni, node_labels };
            let first = pod_apply_from(world, world.pods[i], state, ActionView::ListEips, steps);
            let second = pod_apply_from(first.world, first.world.pods[i], state, ActionView::ListEips, steps);
            &&& second.world == first.world
            &&& second.cluster_writes == first.cluster_writes
            &&& second.cloud_changes == Seq::<ActionView>::empty()
            &&& second.end == first.end
            &&& first.world.nodes == world.nodes
            &&& first.world.instances == world.instances
            &&& first.world.pods.len() == world.pods.len()
            &&& same_to_reconciler(world.pods[i], first.world.pods[i])
            &&& holds_applied(world.eips, applied) ==> holds_applied(first.world.eips, applied)
            &&& all_paired(world.eips) && names_differ(world.eips) ==> all_paired(first.world.eips)
        }),
{
    let pod = world.pods[i];
    let state = PodApplyStateView::ListingEips { eni, node_labels };
    let first = pod_apply_from(world, pod, state, ActionView::ListEips, steps);
    let (s1, a1) = pod_apply_next(pod, state, EventView::Eips(world.eips));
    lemma_unfold(world, pod, state, ActionView::ListEips, steps);
    lemma_unfold(world, pod, s1, a1, (steps - 1) as nat);
    assert(first.cluster_writes =~= pod_apply_from(world, pod, s1, a1, (steps - 1) as nat).cluster_writes);
    assert(first.cloud_changes =~= pod_apply_from(world, pod, s1, a1, (steps - 1) as nat).cloud_changes);
    if a1 is Fail {
        assert(first.world == world);
        assert(first.cloud_changes =~= Seq::<ActionView>::empty());
    } else {
        let pod_name = pod.metadata.name->0;
        let pod_ip = pod.pod_ip->0;
        let found = eip_for_pod(world.eips, pod_name, node_labels)->0;
        lemma_first_index_least(world.eips, selecting(pod_name, node_labels));
        let eip_name = world.eips[found].metadata.name->0;
        let allocation_id = world.eips[found].status->0.allocation_id->0;
        assert(a1 == ActionView::DescribeAddress { allocation_id });
        assert(s1 == PodApplyStateView::DescribingAddress { eni, eip_name, allocation_id });
        let described = respond(world, a1).1;
        let (s2, a2) = pod_apply_next(pod, s1, described);
        lemma_unfold(world, pod, s2, a2, (steps - 2) as nat);
        let from_a2 = pod_apply_from(world, pod, s2, a2, (steps - 2) as nat);
        assert(first.world == from_a2.world);
        assert(first.end == from_a2.end);
        assert(first.cluster_writes =~= from_a2.cluster_writes);
        assert(first.cloud_changes =~= from_a2.cloud_changes);
        if a2 is Fail {
            assert(first.world == world);
            assert(first.cloud_changes =~= Seq::<ActionView>::empty());
        } else {
            lemma_first_index_least(world.addresses, of_allocation(allocation_id));
            let at = first_index(world.addresses, of_allocation(allocation_id))->0;
            let address = world.addresses[at];
            let public_ip = address.public_ip->0;
            let annotations = binding_annotations(allocation_id, public_ip);
            let writing = PodApplyStateView::WritingStatus { allocation_id, public_ip };
            let write = ActionView::SetEipStatusAttached { name: eip_name, eni, private_ip_address: pod_ip };
            let annotate = ActionView::AnnotatePod { name: pod_name, annotations };
            let associate = !address.attached_to(eni, pod_ip);
            let settled = bound_world(world, allocation_id, eni, pod_ip, eip_name, pod_name, public_ip, associate);
            if associate {
                let w2 = respond(world, a2).0;
                assert(a2 == ActionView::Associate { allocation_id, eni, private_ip: pod_ip });
                lemma_binding_ends(w2, pod, eni, eip_name, allocation_id, public_ip, (steps - 3) as nat);
            } else {
                assert(a2 == write);
                assert(s2 == writing);
                lemma_binding_ends(world, pod, eni, eip_name, allocation_id, public_ip, (steps - 2) as nat);
            }
            assert(first.world == settled);
            assert(first.end == ActionView::Done { refresh: true });
            assert(first.cluster_writes =~= seq![write, annotate]);
            if holds_applied(world.eips, applied) {
                lemma_status_keeps_applied(world.eips, eip_name, attaching(eni, pod_ip), applied);
            }
            if all_paired(world.eips) && names_differ(world.eips) {
                assert forall|j: int| 0 <= j < settled.eips.len() implies status_or_empty(
                    (#[trigger] settled.eips[j]).status,
                ).paired() by {
                    assert(status_or_empty(world.eips[j].status).paired());
                    if world.eips[j].metadata.name == Some(eip_name) {
                        assert(j == found);
                    }
                }
            }
            let again = settled.pods[i];
            lemma_binding_keeps_pod(pod, pod_name, allocation_id, public_ip);
            assert(again == with_annotations(pod_name, annotations)(pod));
            lemma_same_pod_same_run(settled, again, pod, state, ActionView::ListEips, steps);

            // The second run finds the same `Eip` with the same allocation.
            assert forall|j: int| 0 <= j < world.eips.len() implies selecting(pod_name, node_labels)(
                with_status(eip_name, attaching(eni, pod_ip))(#[trigger] world.eips[j]),
            ) == selecting(pod_name, node_labels)(world.eips[j]) by {}
            lemma_first_index_map(
                world.eips,
                with_status(eip_name, attaching(eni, pod_ip)),
                selecting(pod_name, node_labels),
            );
            assert(eip_for_pod(settled.eips, pod_name, node_labels) == Some(found));
            assert(settled.eips[found] == with_status(eip_name, attaching(eni, pod_ip))(world.eips[found]));
            let (t1, b1) = pod_apply_next(pod, state, EventView::Eips(settled.eips));
            assert(b1 == a1);
            assert(t1 == s1);

            // It finds the address attached where it belongs.
            if associate {
                assert forall|j: int| 0 <= j < world.addresses.len() implies of_allocation(allocation_id)(
                    with_association(allocation_id, eni, pod_ip)(#[trigger] world.addresses[j]),
                ) == of_allocation(allocation_id)(world.addresses[j]) by {}
                lemma_first_index_map(
                    world.addresses,
                    with_association(allocation_id, eni, pod_ip),
                    of_allocation(allocation_id),
                );
                assert(settled.addresses[at] == with_association(allocation_id, eni, pod_ip)(address));
            }
            assert(first_index(settled.addresses, of_allocation(allocation_id)) == Some(at));
            assert(settled.addresses[at].attached_to(eni, pod_ip));
            assert(settled.addresses[at].public_ip == Some(public_ip));
            let (t2, b2) = pod_apply_next(pod, t1, respond(settled, b1).1);
            assert(b2 == write);
            assert(t2 == writing);

            // Its writes change nothing.
            lemma_binding_writes_settle(world, eip_name, eni, pod_ip, pod_name, annotations);
            lemma_binding_ends(settled, pod, eni, eip_name, allocation_id, public_ip, (steps - 2) as nat);
            lemma_unfold(settled, pod, state, ActionView::ListEips, steps);
            lemma_unfold(settled, pod, t1, b1, (steps - 1) as nat);
            let second = pod_apply_from(settled, pod, state, ActionView::ListEips, steps);
            let tail = pod_apply_from(settled, pod, writing, write, (steps - 2) as nat);
            assert(tail.world == settled);
            assert(second.world == settled);
            assert(second.end == tail.end);
            assert(second.cluster_writes =~= seq![write, annotate]);
            assert(second.cloud_changes =~= Seq::<ActionView>::empty());
        }
    }
}

/// The first half of a reconcile of a pod: where it stands, and in which
/// world, once the pod's own `Eip` is applied, the node is read and the
/// interface is found, or the reconcile has failed on the way.
spec fn first_half(world: World, pod: PodView) -> (World, PodApplyStateView, ActionView, nat) {
    let (s0, a0) = pod_apply_next(pod, PodApplyStateView::Start, EventView::Begin);
    if a0 is Fail {
        (world, s0, a0, 9)
    } else {
        let creating = a0 is ApplyEip;
        let w1 = if creating {
            respond(world, a0).0
        } else {
            world
        };
        let top: nat = if creating {
            8
        } else {
            9
        };
        let (s1, a1) = apply_after_eip_ensured(pod);
        if a1 is Fail {
            (w1, s1, a1, top)
        } else {
            let (s2, a2) = pod_apply_next(pod, s1, respond(w1, a1).1);
            if a2 is DescribeInstance {
                let (s3, a3) = pod_apply_next(pod, s2, respond(w1, a2).1);
                (w1, s3, a3, (top - 2) as nat)
            } else {
                (w1, s2, a2, (top - 1) as nat)
            }
        }
    }
}

/// A whole reconcile is its first half followed by what remains: the first
/// half writes at most the pod's own `Eip` and changes nothing else.
proof fn lemma_first_half(world: World, pod: PodView)
    ensures
        ({
            let (w1, state, action, steps) = first_half(world, pod);
            let (s0, a0) = pod_apply_next(pod, PodApplyStateView::Start, EventView::Begin);
            let rest = pod_apply_from(w1, pod, state, action, steps);
            let run = pod_apply_run(world, pod);
            &&& steps >= 6
            &&& action is Fail || action is ListEips
            &&& action is ListEips ==> state is ListingEips
            &&& w1 == (if a0 is ApplyEip {
                World { eips: eips_after_apply(world.eips, a0->ApplyEip_eip), ..world }
            } else {
                world
            })
            &&& a0 is ApplyEip ==> pod.metadata.name is Some && a0->ApplyEip_eip == EipView::for_pod(
                pod.metadata.name->0,
            )
            &&& pod.should_autocreate_eip() && pod.metadata.name is Some ==> a0 is ApplyEip
            &&& run.world == rest.world
            &&& run.end == rest.end
            &&& run.cloud_changes == rest.cloud_changes
            &&& run.cluster_writes == only_if(a0, a0 is ApplyEip) + rest.cluster_writes
        }),
{
    let (s0, a0) = pod_apply_next(pod, PodApplyStateView::Start, EventView::Begin);
    let run = pod_apply_run(world, pod);
    lemma_unfold(world, pod, s0, a0, 9);
    if a0 is Fail {
        assert(run.cluster_writes =~= only_if(a0, false) + run.cluster_writes);
    } else {
        let creating = a0 is ApplyEip;
        let w1 = if creating {
            respond(world, a0).0
        } else {
            world
        };
        let top: nat = if creating {
            8
        } else {
            9
        };
        let (s1, a1) = apply_after_eip_ensured(pod);
        lemma_unfold(w1, pod, s1, a1, top);
        let from_a1 = pod_apply_from(w1, pod, s1, a1, top);
        assert(run.world == from_a1.world);
        assert(run.end == from_a1.end);
        assert(run.cloud_changes =~= from_a1.cloud_changes);
        assert(run.cluster_writes =~= only_if(a0, creating) + from_a1.cluster_writes);
        if !(a1 is Fail) {
            let (s2, a2) = pod_apply_next(pod, s1, respond(w1, a1).1);
            lemma_unfold(w1, pod, s2, a2, (top - 1) as nat);
            let from_a2 = pod_apply_from(w1, pod, s2, a2, (top - 1) as nat);
            assert(from_a1.cloud_changes =~= from_a2.cloud_changes);
            assert(from_a1.cluster_writes =~= from_a2.cluster_writes);
            if a2 is DescribeInstance {
                let (s3, a3) = pod_apply_next(pod, s2, respond(w1, a2).1);
                lemma_unfold(w1, pod, s3, a3, (top - 2) as nat);
                let from_a3 = pod_apply_from(w1, pod, s3, a3, (top - 2) as nat);
                assert(from_a2.cloud_changes =~= from_a3.cloud_changes);
                assert(from_a2.cluster_writes =~= from_a3.cluster_writes);
            }
        }
    }
}

/// The first half of a reconcile reads only what a reconcile leaves as it
/// is: in two worlds that agree on nodes and instances, and for two pods
/// that look the same, it comes to the same point, provided that the pod's
/// own `Eip` stands applied in both where the pod asks for one.
proof fn lemma_first_half_again(world: World, settled: World, pod: PodView, again: PodView)
    requires
        same_to_reconciler(pod, again),
        settled.nodes == first_half(world, pod).0.nodes,
        settled.instances == first_half(world, pod).0.instances,
        pod.should_autocreate_eip() && pod.metadata.name is Some ==> holds_applied(
            settled.eips,
            EipView::for_pod(pod.metadata.name->0),
        ),
    ensures
        first_half(settled, again) == (
            settled,
            first_half(world, pod).1,
            first_half(world, pod).2,
            first_half(world, pod).3,
        ),
{
    lemma_same_pod_same_step(pod, again, PodApplyStateView::Start, EventView::Begin);
    let (s0, a0) = pod_apply_next(pod, PodApplyStateView::Start, EventView::Begin);
    if !(a0 is Fail) {
        if a0 is ApplyEip {
            lemma_apply_again(settled.eips, EipView::for_pod(pod.metadata.name->0));
            assert(respond(settled, a0).0 == settled);
        }
        let w1 = first_half(world, pod).0;
        let (s1, a1) = apply_after_eip_ensured(pod);
        if !(a1 is Fail) {
            assert(respond(settled, a1).1 == respond(w1, a1).1);
            lemma_same_pod_same_step(pod, again, s1, respond(w1, a1).1);
            let (s2, a2) = pod_apply_next(pod, s1, respond(w1, a1).1);
            if a2 is DescribeInstance {
                assert(respond(settled, a2).1 == respond(w1, a2).1);
                lemma_same_pod_same_step(pod, again, s2, respond(w1, a2).1);
            }
        }
    }
}

/// What a whole reconcile of a pod comes to, in the terms of its two
/// halves, and what a second reconcile makes of the world that it has left.
proof fn lemma_run_settles(world: World, i: int)
    requires
        0 <= i < world.pods.len(),
    ensures
        ({
            let pod = world.pods[i];
            let first = pod_apply_run(world, pod);
            let second = pod_apply_run(first.world, first.world.pods[i]);
            &&& second.world == first.world
            &&& second.cluster_writes == first.cluster_writes
            &&& second.cloud_changes == Seq::<ActionView>::empty()
            &&& second.end == first.end
            &&& pod.should_autocreate_eip() && pod.metadata.name is Some ==> holds_applied(
                first.world.eips,
                EipView::for_pod(pod.metadata.name->0),
            )
            &&& all_paired(world.eips) && names_differ(world.eips) ==> all_paired(first.world.eips)
        }),
{
    let pod = world.pods[i];
    let first = pod_apply_run(world, pod);
    let (s0, a0) = pod_apply_next(pod, PodApplyStateView::Start, EventView::Begin);
    let (w1, state, action, steps) = first_half(world, pod);
    lemma_first_half(world, pod);
    let applied = if a0 is ApplyEip {
        a0->ApplyEip_eip
    } else {
        EipView::for_pod(Seq::empty())
    };
    if a0 is ApplyEip {
        lemma_apply_holds(world.eips, applied);
        if all_paired(world.eips) && names_differ(world.eips) {
            lemma_apply_keeps_order(world.eips, pod.metadata.name->0);
        }
    }
    let rest = pod_apply_from(w1, pod, state, action, steps);
    if action is Fail {
        lemma_unfold(w1, pod, state, action, steps);
        assert(first.world == w1);
        lemma_first_half(w1, pod);
        lemma_first_half_again(world, w1, pod, pod);
        lemma_unfold(w1, pod, state, action, steps);
    } else {
        let eni = state->ListingEips_eni;
        let node_labels = state->ListingEips_node_labels;
        lemma_second_half_settles(w1, i, eni, node_labels, applied, steps);
        let settled = rest.world;
        let again = settled.pods[i];
        assert(first.world == settled);
        lemma_first_half(settled, again);
        lemma_first_half_again(world, settled, pod, again);
        lemma_same_pod_same_step(pod, again, PodApplyStateView::Start, EventView::Begin);
    }
}

/// Reconciling a pod is idempotent. A second reconcile, made on the world
/// that the first has left and of the pod as it stands there, ends as the
/// first did, makes the same writes to the cluster, which change nothing,
/// and makes no change to the cloud.
pub proof fn lemma_pod_apply_idempotent(world: World, i: int)
    requires
        0 <= i < world.pods.len(),
    ensures
        ({
            let first = pod_apply_run(world, world.pods[i]);
            let second = pod_apply_run(first.world, first.world.pods[i]);
            &&& second.world == first.world
            &&& second.cluster_writes == first.cluster_writes
            &&& second.cloud_changes == Seq::<ActionView>::empty()
            &&& second.end == first.end
        }),
{
    lemma_run_settles(world, i);
}

/// A pod that asks for an `Eip` of its own has one after its reconcile,
/// however the reconcile ends: an `Eip` of the pod's name is there, and it
/// selects the pod by that name.
pub proof fn lemma_autocreate_leaves_eip(world: World, i: int)
    requires
        0 <= i < world.pods.len(),
        world.pods[i].should_autocreate_eip(),
        world.pods[i].metadata.name is Some,
    ensures
        ({
            let name = world.pods[i].metadata.name->0;
            let eips = pod_apply_run(world, world.pods[i]).world.eips;
            &&& exists|j: int| 0 <= j < eips.len() && (#[trigger] eips[j]).metadata.name == Some(name)
            &&& forall|j: int|
                0 <= j < eips.len() && (#[trigger] eips[j]).metadata.name == Some(name) ==> eips[j].spec.selector
                    == (EipSelectorView::Pod { pod_name: name })
        }),
{
    lemma_run_settles(world, i);
    let name = world.pods[i].metadata.name->0;
    let eips = pod_apply_run(world, world.pods[i]).world.eips;
    assert(holds_applied(eips, EipView::for_pod(name)));
    let j = choose|j: int| 0 <= j < eips.len() && (#[trigger] eips[j]).metadata.name == EipView::for_pod(name).metadata.name;
    assert(eips[j].metadata.name == Some(name));
}

/// Reconciling a pod keeps the status of every `Eip` in order: where each
/// status had its fields paired before, and no two resources shared a name,
/// each status has its fields paired afterwards.
pub proof fn lemma_pod_apply_keeps_pairing(world: World, i: int)
    requires
        0 <= i < world.pods.len(),
        all_paired(world.eips),
        names_differ(world.eips),
    ensures
        all_paired(pod_apply_run(world, world.pods[i]).world.eips),
{
    lemma_run_settles(world, i);
}

/// A reconcile of an `Eip` from the point on at which it stands at `state`
/// and has named `action`, in the way of `pod_apply_from`.
pub open spec fn eip_apply_from(
    world: World,
    eip: EipView,
    cluster_name: Seq<char>,
    default_tags: Seq<TagView>,
    state: EipApplyState,
    action: ActionView,
    steps: nat,
) -> Outcome
    decreases steps,
{
    if action.is_final() || steps == 0 {
        Outcome { world, cluster_writes: Seq::empty(), cloud_changes: Seq::empty(), end: action }
    } else {
        let (after, answer) = respond(world, action);
        let (next, then) = eip_apply_next(eip, cluster_name, default_tags, state, answer);
        let rest = eip_apply_from(after, eip, cluster_name, default_tags, next, then, (steps - 1) as nat);
        Outcome {
            world: rest.world,
            cluster_writes: only_if(action, action.changes_cluster()) + rest.cluster_writes,
            cloud_changes: only_if(action, action.changes_cloud()) + rest.cloud_changes,
            end: rest.end,
        }
    }
}

/// A whole reconcile of an `Eip` in a world. It performs at most three
/// actions: it describes, allocates and writes the status.
pub open spec fn eip_apply_run(
    world: World,
    eip: EipView,
    cluster_name: Seq<char>,
    default_tags: Seq<TagView>,
) -> Outcome {
    let (state, action) = eip_apply_next(eip, cluster_name, default_tags, EipApplyState::Start, EventView::Begin);
    eip_apply_from(world, eip, cluster_name, default_tags, state, action, 3)
}

/// Whatever is done to the world, the statuses stay paired, unless an
/// attachment is written or an `Eip` is applied whose own status is out of order.
pub proof fn lemma_respond_keeps_pairing(world: World, action: ActionView)
    requires
        all_paired(world.eips),
        !(action is SetEipStatusAttached),
        action matches ActionView::ApplyEip { eip } ==> status_or_empty(eip.status).paired(),
    ensures
        all_paired(respond(world, action).0.eips),
{
    let after = respond(world, action).0.eips;
    assert forall|j: int| 0 <= j < after.len() implies status_or_empty((#[trigger] after[j]).status).paired() by {
        if j < world.eips.len() {
            assert(status_or_empty(world.eips[j].status).paired());
        }
    }
}

proof fn lemma_eip_apply_from_keeps_pairing(
    world: World,
    eip: EipView,
    cluster_name: Seq<char>,
    default_tags: Seq<TagView>,
    state: EipApplyState,
    action: ActionView,
    steps: nat,
)
    requires
        all_paired(world.eips),
        !(action is SetEipStatusAttached),
        !(action is ApplyEip),
    ensures
        all_paired(eip_apply_from(world, eip, cluster_name, default_tags, state, action, steps).world.eips),
    decreases steps,
{
    if !(action.is_final() || steps == 0) {
        let (after, answer) = respond(world, action);
        lemma_respond_keeps_pairing(world, action);
        let (next, then) = eip_apply_next(eip, cluster_name, default_tags, state, answer);
        lemma_eip_apply_from_keeps_pairing(after, eip, cluster_name, default_tags, next, then, (steps - 1) as nat);
    }
}

/// Reconciling an `Eip` keeps the status of every `Eip` in order: where
/// each status had its fields paired before, each has them paired
/// afterwards. The reconcile writes allocation and public address together,
/// and touches neither interface nor private address.
pub proof fn lemma_eip_apply_keeps_pairing(
    world: World,
    eip: EipView,
    cluster_name: Seq<char>,
    default_tags: Seq<TagView>,
)
    requires
        all_paired(world.eips),
    ensures
        all_paired(eip_apply_run(world, eip, cluster_name, default_tags).world.eips),
{
    let (state, action) = eip_apply_next(eip, cluster_name, default_tags, EipApplyState::Start, EventView::Begin);
    lemma_eip_apply_from_keeps_pairing(world, eip, cluster_name, default_tags, state, action, 3);
}

/// An `Eip` without an address of its own gets exactly one and has it
/// recorded: where no address of the world carries its uid, the reconcile
/// allocates one with the full set of tags, writes it into the status of
/// the `Eip` unless the status holds it already, and asks to be run again later.
pub proof fn lemma_eip_apply_allocates_once(
    world: World,
    eip: EipView,
    cluster_name: Seq<char>,
    default_tags: Seq<TagView>,
)
    requires
        eip.metadata.uid is Some,
        eip.metadata.name is Some,
        world.addresses.filter(carrying(uid_filters_of(eip.metadata.uid->0))).len() == 0,
    ensures
        ({
            let run = eip_apply_run(world, eip, cluster_name, default_tags);
            let tags = allocation_tags_of(
                eip.metadata.uid->0,
                eip.metadata.name->0,
                eip.spec.selector,
                cluster_name,
                namespace_of(eip),
                default_tags,
            );
            let address = fresh_address(world, tags);
            let write = ActionView::SetEipStatusCreated {
                name: eip.metadata.name->0,
                allocation_id: address.allocation_id->0,
                public_ip_address: address.public_ip->0,
            };
            &&& run.end == ActionView::Done { refresh: true }
            &&& run.cloud_changes == seq![ActionView::Allocate { tags }]
            &&& run.world.addresses == world.addresses.push(address)
            &&& run.cluster_writes == only_if(
                write,
                !status_reflects(eip, address.allocation_id->0, address.public_ip->0),
            )
            &&& run.world.eips == (if status_reflects(eip, address.allocation_id->0, address.public_ip->0) {
                world.eips
            } else {
                world.eips.map_values(
                    with_status(
                        eip.metadata.name->0,
                        allocating(address.allocation_id->0, address.public_ip->0),
                    ),
                )
            })
        }),
{
    reveal_with_fuel(eip_apply_from, 4);
    let run = eip_apply_run(world, eip, cluster_name, default_tags);
    let tags = allocation_tags_of(
        eip.metadata.uid->0,
        eip.metadata.name->0,
        eip.spec.selector,
        cluster_name,
        namespace_of(eip),
        default_tags,
    );
    let address = fresh_address(world, tags);
    let write = ActionView::SetEipStatusCreated {
        name: eip.metadata.name->0,
        allocation_id: address.allocation_id->0,
        public_ip_address: address.public_ip->0,
    };
    assert(run.cloud_changes =~= seq![ActionView::Allocate { tags }]);
    assert(run.cluster_writes =~= only_if(
        write,
        !status_reflects(eip, address.allocation_id->0, address.public_ip->0),
    ));
}

} // verus!
