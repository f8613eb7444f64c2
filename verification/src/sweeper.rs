//! The orphan sweeper: gives back the addresses that carry this cluster's
//! tag and belong to no `Eip` that exists, and takes the finalizer of
//! earlier releases off the pods that still bear it.

use crate::cloud::{Address, AddressView, Tag, TagView};
use crate::cluster::{Pod, PodView};
use crate::eip::v2::{Eip, EipView};
use crate::error::{Error, ErrorView};
use crate::finalizer::{finalizer_removal, finalizer_removal_of};
use crate::names::{
    CLUSTER_NAME_TAG, EIP_UID_TAG, LEGACY_CLUSTER_NAME_TAG, LEGACY_POD_FINALIZER_NAME, NAMESPACE_TAG,
};
use crate::protocol::{take_next, Action, ActionView, Event, EventView};
use crate::teardown::{lemma_releases_cover, lemma_releases_only, release_actions, releases_of};
use crate::text::clone_opt;
use vstd::prelude::*;

verus! {

/// The tags by which the addresses of this cluster are found: the cluster's
/// name and, where the operator is held to one namespace, that namespace.
pub open spec fn cluster_filters_of(cluster_name: Seq<char>, namespace: Option<Seq<char>>) -> Seq<
    TagView,
> {
    seq![TagView { key: CLUSTER_NAME_TAG@, value: cluster_name }] + (match namespace {
        Some(namespace) => seq![TagView { key: NAMESPACE_TAG@, value: namespace }],
        None => Seq::empty(),
    })
}

/// The tag by which earlier releases marked the addresses of this cluster.
pub open spec fn legacy_filters_of(cluster_name: Seq<char>) -> Seq<TagView> {
    seq![TagView { key: LEGACY_CLUSTER_NAME_TAG@, value: cluster_name }]
}

/// The uids of the `Eip` resources that have one, in their order.
pub open spec fn live_uids_of(eips: Seq<EipView>) -> Seq<Seq<char>>
    decreases eips.len(),
{
    if eips.len() == 0 {
        Seq::empty()
    } else {
        live_uids_of(eips.drop_last()) + (match eips.last().metadata.uid {
            Some(uid) => seq![uid],
            None => Seq::empty(),
        })
    }
}

/// The address is one for the sweep to take apart: it is within reach of
/// an operator held to `namespace`, and it belongs to no `Eip` of `live_uids`.
pub open spec fn is_candidate(address: AddressView, live_uids: Seq<Seq<char>>, namespace: Option<Seq<char>>) -> bool {
    address.in_namespace(namespace) && address.is_orphan(live_uids)
}

/// The addresses of the list that the sweep is to take apart, in their
/// order: those within reach of an operator held to `namespace` that belong
/// to no `Eip` of `live_uids`.
pub open spec fn orphans_of(
    addresses: Seq<AddressView>,
    live_uids: Seq<Seq<char>>,
    namespace: Option<Seq<char>>,
) -> Seq<AddressView>
    decreases addresses.len(),
{
    if addresses.len() == 0 {
        Seq::empty()
    } else {
        orphans_of(addresses.drop_last(), live_uids, namespace) + (if is_candidate(
            addresses.last(),
            live_uids,
            namespace,
        ) {
            seq![addresses.last()]
        } else {
            Seq::empty()
        })
    }
}

/// The patches that take the finalizer of earlier releases off the pods
/// that bear it, in the order of the pods. A pod that bears it but has no
/// name ends the list with an error.
pub open spec fn legacy_patches_of(pods: Seq<PodView>) -> Seq<ActionView>
    decreases pods.len(),
{
    if pods.len() == 0 {
        Seq::empty()
    } else {
        match pods[0].metadata.finalizer_position(LEGACY_POD_FINALIZER_NAME@) {
            None => legacy_patches_of(pods.drop_first()),
            Some(position) => match pods[0].metadata.name {
                None => seq![ActionView::Fail(ErrorView::MissingPodName)],
                Some(name) => seq![
                    ActionView::PatchPod {
                        namespace: pods[0].metadata.namespace,
                        name,
                        operations: finalizer_removal_of(position as nat, LEGACY_POD_FINALIZER_NAME@),
                    },
                ] + legacy_patches_of(pods.drop_first()),
            },
        }
    }
}

/// The uids of the `Eip` resources that have one, in their order.
pub fn live_uids(eips: &Vec<Eip>) -> (r: Vec<String>)
    ensures
        r.deep_view() == live_uids_of(eips.deep_view()),
{
    let mut uids: Vec<String> = Vec::new();
    let mut i: usize = 0;
    proof {
        assert(eips.deep_view().take(0) =~= Seq::<EipView>::empty());
        assert(uids.deep_view() =~= Seq::<Seq<char>>::empty());
    }
    while i < eips.len()
        invariant
            0 <= i <= eips@.len(),
            uids.deep_view() == live_uids_of(eips.deep_view().take(i as int)),
        decreases eips@.len() - i,
    {
        let ghost before = uids.deep_view();
        proof {
            let next = eips.deep_view().take(i + 1);
            assert(next.drop_last() =~= eips.deep_view().take(i as int));
            assert(next.last() == eips@[i as int]@);
        }
        match &eips[i].metadata.uid {
            Some(uid) => {
                uids.push(uid.clone());
                proof {
                    assert(uids.deep_view() =~= before + seq![uid@]);
                }
            },
            None => {
                proof {
                    assert(uids.deep_view() =~= before + Seq::<Seq<char>>::empty());
                }
            },
        }
        i += 1;
    }
    proof {
        assert(eips.deep_view().take(eips@.len() as int) =~= eips.deep_view());
    }
    uids
}

/// The view of an optional namespace.
pub open spec fn namespace_view(namespace: Option<&str>) -> Option<Seq<char>> {
    match namespace {
        Some(namespace) => Some(namespace@),
        None => None,
    }
}

/// The addresses of the list that the sweep is to take apart, in their order.
pub fn orphans(addresses: &Vec<Address>, live_uids: &Vec<String>, namespace: Option<&str>) -> (r: Vec<Address>)
    ensures
        r.deep_view() == orphans_of(addresses.deep_view(), live_uids.deep_view(), namespace_view(namespace)),
{
    let mut found: Vec<Address> = Vec::new();
    let mut i: usize = 0;
    proof {
        assert(addresses.deep_view().take(0) =~= Seq::<AddressView>::empty());
        assert(found.deep_view() =~= Seq::<AddressView>::empty());
    }
    while i < addresses.len()
        invariant
            0 <= i <= addresses@.len(),
            found.deep_view() == orphans_of(
                addresses.deep_view().take(i as int),
                live_uids.deep_view(),
                namespace_view(namespace),
            ),
        decreases addresses@.len() - i,
    {
        let ghost before = found.deep_view();
        proof {
            let next = addresses.deep_view().take(i + 1);
            assert(next.drop_last() =~= addresses.deep_view().take(i as int));
            assert(next.last() == addresses@[i as int]@);
        }
        if addresses[i].in_namespace(namespace) && addresses[i].is_orphan(live_uids) {
            found.push(addresses[i].clone());
            proof {
                assert(found.deep_view() =~= before + seq![addresses@[i as int]@]);
            }
        } else {
            proof {
                assert(found.deep_view() =~= before + Seq::<AddressView>::empty());
            }
        }
        i += 1;
    }
    proof {
        assert(addresses.deep_view().take(addresses@.len() as int) =~= addresses.deep_view());
    }
    found
}

/// The patches that take the finalizer of earlier releases off the pods that bear it.
pub fn legacy_patches(pods: &Vec<Pod>) -> (r: Vec<Action>)
    ensures
        r.deep_view() == legacy_patches_of(pods.deep_view()),
{
    let mut actions: Vec<Action> = Vec::new();
    let mut i: usize = 0;
    proof {
        assert(pods.deep_view().skip(0) =~= pods.deep_view());
        assert(actions.deep_view() =~= Seq::<ActionView>::empty());
    }
    while i < pods.len()
        invariant
            0 <= i <= pods@.len(),
            pods.deep_view().len() == pods@.len(),
            actions.deep_view() + legacy_patches_of(pods.deep_view().skip(i as int)) == legacy_patches_of(
                pods.deep_view(),
            ),
        decreases pods@.len() - i,
    {
        let ghost before = actions.deep_view();
        let ghost rest = pods.deep_view().skip(i as int);
        proof {
            assert(rest.drop_first() =~= pods.deep_view().skip(i + 1));
            assert(rest[0] == pods@[i as int]@);
        }
        match pods[i].metadata.finalizer_position(LEGACY_POD_FINALIZER_NAME) {
            None => {},
            Some(position) => match &pods[i].metadata.name {
                None => {
                    actions.push(Action::Fail(Error::MissingPodName));
                    proof {
                        assert(actions.deep_view() =~= before + seq![
                            ActionView::Fail(ErrorView::MissingPodName),
                        ]);
                    }
                    return actions;
                },
                Some(name) => {
                    let action = Action::PatchPod {
                        namespace: clone_opt(&pods[i].metadata.namespace),
                        name: name.clone(),
                        operations: finalizer_removal(position, LEGACY_POD_FINALIZER_NAME),
                    };
                    let ghost shown = action@;
                    actions.push(action);
                    proof {
                        assert(actions.deep_view() =~= before + seq![shown]);
                        assert(actions.deep_view() + legacy_patches_of(pods.deep_view().skip(i + 1))
                            =~= before + (seq![shown] + legacy_patches_of(rest.drop_first())));
                    }
                },
            },
        }
        i += 1;
    }
    proof {
        assert(actions.deep_view() + Seq::<ActionView>::empty() =~= actions.deep_view());
    }
    actions
}

/// Where a sweep stands.
#[derive(Debug, PartialEq, Eq)]
pub enum SweepState {
    /// Nothing has been done yet.
    Start,
    /// The addresses that carry the cluster's tag are being described.
    ListingCurrent,
    /// The addresses that carry the tag of earlier releases are being described.
    ListingLegacy { found: Vec<Address> },
    /// The `Eip` resources are being listed.
    ListingEips { found: Vec<Address> },
    /// An orphan is being taken apart; `pending` holds the calls that follow.
    Releasing { pending: Vec<Action> },
    /// The pods of earlier releases are being listed.
    ListingPods,
    /// A pod is being patched; `pending` holds the patches that follow.
    Patching { pending: Vec<Action> },
    /// The sweep has ended.
    Finished,
}

/// The mathematical value of a [`SweepState`].
pub enum SweepStateView {
    Start,
    ListingCurrent,
    ListingLegacy { found: Seq<AddressView> },
    ListingEips { found: Seq<AddressView> },
    Releasing { pending: Seq<ActionView> },
    ListingPods,
    Patching { pending: Seq<ActionView> },
    Finished,
}

impl View for SweepState {
    type V = SweepStateView;

    open spec fn view(&self) -> SweepStateView {
        match self {
            SweepState::Start => SweepStateView::Start,
            SweepState::ListingCurrent => SweepStateView::ListingCurrent,
            SweepState::ListingLegacy { found } => SweepStateView::ListingLegacy { found: found.deep_view() },
            SweepState::ListingEips { found } => SweepStateView::ListingEips { found: found.deep_view() },
            SweepState::Releasing { pending } => SweepStateView::Releasing { pending: pending.deep_view() },
            SweepState::ListingPods => SweepStateView::ListingPods,
            SweepState::Patching { pending } => SweepStateView::Patching { pending: pending.deep_view() },
            SweepState::Finished => SweepStateView::Finished,
        }
    }
}

/// The end of a sweep that has failed.
pub open spec fn sweep_failed(error: ErrorView) -> (SweepStateView, ActionView) {
    (SweepStateView::Finished, ActionView::Fail(error))
}

/// What follows while orphans are taken apart: the next call of `pending`,
/// and after the last of them the listing of the pods of earlier releases.
pub open spec fn sweep_release(pending: Seq<ActionView>) -> (SweepStateView, ActionView) {
    if pending.len() > 0 {
        (SweepStateView::Releasing { pending: pending.drop_first() }, pending[0])
    } else {
        (SweepStateView::ListingPods, ActionView::ListLegacyPods)
    }
}

/// What follows while pods are patched: the next patch of `pending`; the
/// end of the sweep after the last of them, or at an error among them.
pub open spec fn sweep_patch(pending: Seq<ActionView>) -> (SweepStateView, ActionView) {
    if pending.len() == 0 {
        (SweepStateView::Finished, ActionView::Done { refresh: false })
    } else if pending[0].is_final() {
        (SweepStateView::Finished, pending[0])
    } else {
        (SweepStateView::Patching { pending: pending.drop_first() }, pending[0])
    }
}

/// One step of a sweep.
///
/// The addresses that carry the cluster's tag (and the namespace's, where
/// the operator is held to one) are described, then those that carry the
/// cluster tag of earlier releases; the two lists are joined. The `Eip`
/// resources are listed. Every address of the joined list whose uid tag is
/// missing or names no listed `Eip` is taken apart: its association is
/// undone and its allocation given back, where what is gone already counts
/// as done. Where the operator is held to one namespace, an address that
/// names another namespace is passed over, whichever of the two tags
/// brought it into the list. Then the pods of earlier releases are listed, and the finalizer
/// of earlier releases is taken off each that bears it.
pub open spec fn sweep_next(
    cluster_name: Seq<char>,
    namespace: Option<Seq<char>>,
    state: SweepStateView,
    event: EventView,
) -> (SweepStateView, ActionView) {
    match (state, event) {
        (SweepStateView::Start, EventView::Begin) => (
            SweepStateView::ListingCurrent,
            ActionView::DescribeAddresses { filters: cluster_filters_of(cluster_name, namespace) },
        ),
        (SweepStateView::ListingCurrent, EventView::Addresses(addresses)) => match addresses {
            None => sweep_failed(ErrorView::MissingAddresses),
            Some(found) => (
                SweepStateView::ListingLegacy { found },
                ActionView::DescribeAddresses { filters: legacy_filters_of(cluster_name) },
            ),
        },
        (SweepStateView::ListingLegacy { found }, EventView::Addresses(addresses)) => match addresses {
            None => sweep_failed(ErrorView::MissingAddresses),
            Some(more) => (SweepStateView::ListingEips { found: found + more }, ActionView::ListEips),
        },
        (SweepStateView::ListingEips { found }, EventView::Eips(eips)) => sweep_release(
            releases_of(orphans_of(found, live_uids_of(eips), namespace)),
        ),
        (SweepStateView::Releasing { pending }, EventView::Done) => sweep_release(pending),
        (SweepStateView::Releasing { pending }, EventView::Missing) => sweep_release(pending),
        (SweepStateView::ListingPods, EventView::Pods(pods)) => sweep_patch(legacy_patches_of(pods)),
        (SweepStateView::Patching { pending }, EventView::Done) => sweep_patch(pending),
        _ => sweep_failed(ErrorView::UnexpectedEvent),
    }
}

fn fail_sweep(error: Error) -> (r: (SweepState, Action))
    ensures
        (r.0@, r.1@) == sweep_failed(error@),
{
    (SweepState::Finished, Action::Fail(error))
}

fn continue_release(pending: Vec<Action>) -> (r: (SweepState, Action))
    ensures
        (r.0@, r.1@) == sweep_release(pending.deep_view()),
{
    if pending.len() > 0 {
        let (rest, first) = take_next(pending, false);
        (SweepState::Releasing { pending: rest }, first)
    } else {
        (SweepState::ListingPods, Action::ListLegacyPods)
    }
}

fn continue_patch(pending: Vec<Action>) -> (r: (SweepState, Action))
    ensures
        (r.0@, r.1@) == sweep_patch(pending.deep_view()),
{
    if pending.len() == 0 {
        (SweepState::Finished, Action::Done { refresh: false })
    } else {
        let (rest, first) = take_next(pending, false);
        if first.is_final() {
            (SweepState::Finished, first)
        } else {
            (SweepState::Patching { pending: rest }, first)
        }
    }
}

/// The tags by which the addresses of this cluster are found.
pub fn cluster_filters(cluster_name: &str, namespace: Option<&str>) -> (r: Vec<Tag>)
    ensures
        r.deep_view() == cluster_filters_of(
            cluster_name@,
            match namespace {
                Some(namespace) => Some(namespace@),
                None => None,
            },
        ),
{
    let mut filters: Vec<Tag> = Vec::new();
    filters.push(Tag::new(CLUSTER_NAME_TAG, cluster_name));
    match namespace {
        Some(namespace) => {
            filters.push(Tag::new(NAMESPACE_TAG, namespace));
            proof {
                assert(filters.deep_view() =~= cluster_filters_of(cluster_name@, Some(namespace@)));
            }
        },
        None => {
            proof {
                assert(filters.deep_view() =~= cluster_filters_of(cluster_name@, None));
            }
        },
    }
    filters
}

/// One step of a sweep.
pub fn sweep_step(cluster_name: &str, namespace: Option<&str>, state: SweepState, event: Event) -> (r: (
    SweepState,
    Action,
))
    ensures
        (r.0@, r.1@) == sweep_next(
            cluster_name@,
            match namespace {
                Some(namespace) => Some(namespace@),
                None => None,
            },
            state@,
            event@,
        ),
{
    match (state, event) {
        (SweepState::Start, Event::Begin) => (
            SweepState::ListingCurrent,
            Action::DescribeAddresses { filters: cluster_filters(cluster_name, namespace) },
        ),
        (SweepState::ListingCurrent, Event::Addresses(addresses)) => match addresses {
            None => fail_sweep(Error::MissingAddresses),
            Some(found) => {
                let mut filters: Vec<Tag> = Vec::new();
                filters.push(Tag::new(LEGACY_CLUSTER_NAME_TAG, cluster_name));
                proof {
                    assert(filters.deep_view() =~= legacy_filters_of(cluster_name@));
                }
                (SweepState::ListingLegacy { found }, Action::DescribeAddresses { filters })
            },
        },
        (SweepState::ListingLegacy { found }, Event::Addresses(addresses)) => match addresses {
            None => fail_sweep(Error::MissingAddresses),
            Some(more) => {
                let mut found = found;
                let mut more = more;
                let ghost first = found.deep_view();
                let ghost second = more.deep_view();
                found.append(&mut more);
                proof {
                    assert(found.deep_view() =~= first + second);
                }
                (SweepState::ListingEips { found }, Action::ListEips)
            },
        },
        (SweepState::ListingEips { found }, Event::Eips(eips)) => {
            let uids = live_uids(&eips);
            let orphaned = orphans(&found, &uids, namespace);
            continue_release(release_actions(&orphaned))
        },
        (SweepState::Releasing { pending }, Event::Done) => continue_release(pending),
        (SweepState::Releasing { pending }, Event::Missing) => continue_release(pending),
        (SweepState::ListingPods, Event::Pods(pods)) => continue_patch(legacy_patches(&pods)),
        (SweepState::Patching { pending }, Event::Done) => continue_patch(pending),
        _ => fail_sweep(Error::UnexpectedEvent),
    }
}

/// The uids that count as live are those of the listed `Eip` resources.
pub proof fn lemma_live_uids(eips: Seq<EipView>, uid: Seq<char>)
    ensures
        live_uids_of(eips).contains(uid) <==> exists|j: int|
            0 <= j < eips.len() && (#[trigger] eips[j]).metadata.uid == Some(uid),
    decreases eips.len(),
{
    if eips.len() > 0 {
        let rest = eips.drop_last();
        let head = live_uids_of(rest);
        let tail = match eips.last().metadata.uid {
            Some(uid) => seq![uid],
            None => Seq::<Seq<char>>::empty(),
        };
        lemma_live_uids(rest, uid);
        if live_uids_of(eips).contains(uid) {
            let k = choose|k: int| 0 <= k < (head + tail).len() && (head + tail)[k] == uid;
            if k < head.len() {
                assert(head[k] == uid);
                let j = choose|j: int| 0 <= j < rest.len() && (#[trigger] rest[j]).metadata.uid == Some(uid);
                assert(eips[j].metadata.uid == Some(uid));
            } else {
                assert(eips[eips.len() - 1].metadata.uid == Some(uid));
            }
        }
        if exists|j: int| 0 <= j < eips.len() && (#[trigger] eips[j]).metadata.uid == Some(uid) {
            let j = choose|j: int| 0 <= j < eips.len() && (#[trigger] eips[j]).metadata.uid == Some(uid);
            if j < rest.len() {
                assert(rest[j].metadata.uid == Some(uid));
                let k = choose|k: int| 0 <= k < head.len() && head[k] == uid;
                assert((head + tail)[k] == uid);
            } else {
                assert(tail[0] == uid);
                assert((head + tail)[head.len() as int] == uid);
            }
        }
    }
}

/// The addresses picked out for the sweep are those of the list that are
/// within reach and belong to no live `Eip`, and no others.
pub proof fn lemma_orphans(
    addresses: Seq<AddressView>,
    live_uids: Seq<Seq<char>>,
    namespace: Option<Seq<char>>,
    address: AddressView,
)
    ensures
        orphans_of(addresses, live_uids, namespace).contains(address) <==> addresses.contains(address)
            && is_candidate(address, live_uids, namespace),
    decreases addresses.len(),
{
    if addresses.len() > 0 {
        let rest = addresses.drop_last();
        let head = orphans_of(rest, live_uids, namespace);
        let tail = if is_candidate(addresses.last(), live_uids, namespace) {
            seq![addresses.last()]
        } else {
            Seq::<AddressView>::empty()
        };
        lemma_orphans(rest, live_uids, namespace, address);
        if orphans_of(addresses, live_uids, namespace).contains(address) {
            let k = choose|k: int| 0 <= k < (head + tail).len() && (head + tail)[k] == address;
            if k < head.len() {
                assert(head[k] == address);
                let j = choose|j: int| 0 <= j < rest.len() && rest[j] == address;
                assert(addresses[j] == address);
            } else {
                assert(addresses[addresses.len() - 1] == address);
            }
        }
        if addresses.contains(address) && is_candidate(address, live_uids, namespace) {
            let j = choose|j: int| 0 <= j < addresses.len() && addresses[j] == address;
            if j < rest.len() {
                assert(rest[j] == address);
                let k = choose|k: int| 0 <= k < head.len() && head[k] == address;
                assert((head + tail)[k] == address);
            } else {
                assert(tail[0] == address);
                assert((head + tail)[head.len() as int] == address);
            }
        }
    }
}

/// No address outlives its `Eip` by more than one sweep. Of the addresses
/// that the sweep has found, each either names the uid of an `Eip` that the
/// sweep has listed, or names a namespace other than the one the operator
/// is held to, or is among those that the sweep lines up to be taken apart,
/// with the call that gives its allocation back.
pub proof fn lemma_sweep_covers_orphans(
    found: Seq<AddressView>,
    eips: Seq<EipView>,
    namespace: Option<Seq<char>>,
    k: int,
)
    requires
        0 <= k < found.len(),
    ensures
        ({
            let plan = releases_of(orphans_of(found, live_uids_of(eips), namespace));
            ||| exists|j: int|
                0 <= j < eips.len() && (#[trigger] eips[j]).metadata.uid is Some && eips[j].metadata.uid
                    == found[k].tag(EIP_UID_TAG@)
            ||| !found[k].in_namespace(namespace)
            ||| found[k].allocation_id is None
            ||| plan.contains(ActionView::Release { allocation_id: found[k].allocation_id->0 })
        }),
{
    let live = live_uids_of(eips);
    let address = found[k];
    if address.is_orphan(live) {
        if address.in_namespace(namespace) {
            lemma_orphans(found, live, namespace, address);
            assert(found.contains(address));
            let orphaned = orphans_of(found, live, namespace);
            let m = choose|m: int| 0 <= m < orphaned.len() && orphaned[m] == address;
            if address.allocation_id is Some {
                lemma_releases_cover(orphaned, m);
            }
        }
    } else {
        let uid = address.tag(EIP_UID_TAG@)->0;
        lemma_live_uids(eips, uid);
        let j = choose|j: int| 0 <= j < eips.len() && (#[trigger] eips[j]).metadata.uid == Some(uid);
        assert(eips[j].metadata.uid is Some);
    }
}

/// The sweep takes nothing apart that belongs to a live `Eip` or that lies
/// out of its reach: each call that it lines up is for an address of the
/// list that is within reach of an operator held to `namespace` and whose
/// uid tag is missing or names no listed `Eip`.
pub proof fn lemma_sweep_spares_live(
    found: Seq<AddressView>,
    eips: Seq<EipView>,
    namespace: Option<Seq<char>>,
    k: int,
)
    requires
        0 <= k < releases_of(orphans_of(found, live_uids_of(eips), namespace)).len(),
    ensures
        ({
            let live = live_uids_of(eips);
            match releases_of(orphans_of(found, live, namespace))[k] {
                ActionView::Disassociate { association_id } => exists|i: int|
                    0 <= i < found.len() && is_candidate(#[trigger] found[i], live, namespace)
                        && found[i].association_id == Some(association_id),
                ActionView::Release { allocation_id } => exists|i: int|
                    0 <= i < found.len() && is_candidate(#[trigger] found[i], live, namespace)
                        && found[i].allocation_id == Some(allocation_id),
                _ => false,
            }
        }),
{
    let live = live_uids_of(eips);
    let orphaned = orphans_of(found, live, namespace);
    lemma_releases_only(orphaned, k);
    match releases_of(orphaned)[k] {
        ActionView::Disassociate { association_id } => {
            let m = choose|m: int|
                0 <= m < orphaned.len() && (#[trigger] orphaned[m]).association_id == Some(association_id);
            lemma_orphans(found, live, namespace, orphaned[m]);
            assert(orphaned.contains(orphaned[m]));
            let i = choose|i: int| 0 <= i < found.len() && found[i] == orphaned[m];
            assert(is_candidate(found[i], live, namespace));
        },
        ActionView::Release { allocation_id } => {
            let m = choose|m: int|
                0 <= m < orphaned.len() && (#[trigger] orphaned[m]).allocation_id == Some(allocation_id);
            lemma_orphans(found, live, namespace, orphaned[m]);
            assert(orphaned.contains(orphaned[m]));
            let i = choose|i: int| 0 <= i < found.len() && found[i] == orphaned[m];
            assert(is_candidate(found[i], live, namespace));
        },
        _ => {},
    }
}

/// A sweep held to one namespace leaves the addresses of other namespaces
/// alone. An address that names a namespace other than the operator's is
/// no candidate, whichever tag brought it into the list and whatever its
/// uid tag says: the sweep lines up no call that gives its allocation back
/// and none that undoes its association. What identifies an address in a
/// call is its allocation id and its association id; the lemma asks that
/// no address within reach shares them with this one.
pub proof fn lemma_sweep_spares_other_namespaces(
    cluster_name: Seq<char>,
    found: Seq<AddressView>,
    eips: Seq<EipView>,
    namespace: Seq<char>,
    k: int,
)
    requires
        0 <= k < found.len(),
        found[k].tag(NAMESPACE_TAG@) is Some,
        found[k].tag(NAMESPACE_TAG@) != Some(namespace),
        forall|i: int|
            0 <= i < found.len() && (#[trigger] found[i]).in_namespace(Some(namespace)) ==> {
                &&& found[k].allocation_id is Some ==> found[i].allocation_id != found[k].allocation_id
                &&& found[k].association_id is Some ==> found[i].association_id != found[k].association_id
            },
    ensures
        ({
            let plan = releases_of(orphans_of(found, live_uids_of(eips), Some(namespace)));
            &&& sweep_next(
                cluster_name,
                Some(namespace),
                SweepStateView::ListingEips { found },
                EventView::Eips(eips),
            ) == sweep_release(plan)
            &&& !orphans_of(found, live_uids_of(eips), Some(namespace)).contains(found[k])
            &&& found[k].allocation_id is Some ==> !plan.contains(
                ActionView::Release { allocation_id: found[k].allocation_id->0 },
            )
            &&& found[k].association_id is Some ==> !plan.contains(
                ActionView::Disassociate { association_id: found[k].association_id->0 },
            )
        }),
{
    let live = live_uids_of(eips);
    let plan = releases_of(orphans_of(found, live, Some(namespace)));
    lemma_orphans(found, live, Some(namespace), found[k]);
    if found[k].allocation_id is Some {
        let release = ActionView::Release { allocation_id: found[k].allocation_id->0 };
        if plan.contains(release) {
            let m = choose|m: int| 0 <= m < plan.len() && plan[m] == release;
            lemma_sweep_spares_live(found, eips, Some(namespace), m);
        }
    }
    if found[k].association_id is Some {
        let disassociate = ActionView::Disassociate { association_id: found[k].association_id->0 };
        if plan.contains(disassociate) {
            let m = choose|m: int| 0 <= m < plan.len() && plan[m] == disassociate;
            lemma_sweep_spares_live(found, eips, Some(namespace), m);
        }
    }
}

/// Where the sweep stands once `done` of the calls that it has lined up
/// have been answered, each with success or with the news that the thing
/// is gone already.
pub open spec fn sweep_release_after(pending: Seq<ActionView>, done: nat) -> (SweepStateView, ActionView)
    decreases done,
{
    if done == 0 {
        sweep_release(pending)
    } else {
        sweep_next(
            Seq::empty(),
            None,
            sweep_release_after(pending, (done - 1) as nat).0,
            EventView::Done,
        )
    }
}

/// The sweep makes every call that it has lined up, in order and within
/// the same sweep, as long as each call is answered; after the last of them
/// it turns to the pods.
pub proof fn lemma_sweep_makes_every_call(pending: Seq<ActionView>, done: nat)
    requires
        done <= pending.len(),
    ensures
        sweep_release_after(pending, done) == (if done < pending.len() {
            (SweepStateView::Releasing { pending: pending.skip(done as int + 1) }, pending[done as int])
        } else {
            (SweepStateView::ListingPods, ActionView::ListLegacyPods)
        }),
    decreases done,
{
    if done == 0 {
        assert(pending.drop_first() =~= pending.skip(1));
    } else {
        lemma_sweep_makes_every_call(pending, (done - 1) as nat);
        let rest = pending.skip(done as int);
        if done < pending.len() {
            assert(rest.drop_first() =~= pending.skip(done as int + 1));
            assert(rest[0] == pending[done as int]);
        } else {
            assert(rest.len() == 0);
        }
    }
}

} // verus!
