//! The `Eip` reconciler: sees to it that each `Eip` has exactly one address
//! allocated for it in the cloud, recorded in its status, and gives the
//! address back when the `Eip` goes.

use crate::cloud::{allocation_tags, allocation_tags_of, AddressView, Tag, TagView};
use crate::eip::v2::{Eip, EipView};
use crate::eip::status_or_empty;
use crate::error::{Error, ErrorView};
use crate::names::{DEFAULT_NAMESPACE, EIP_UID_TAG};
use crate::protocol::{take_next, Action, ActionView, Event, EventView};
use crate::teardown::{release_actions, releases_of};
use crate::text::str_eq;
use vstd::prelude::*;

verus! {

/// Where the allocation for an `Eip` stands.
#[derive(Clone, Copy, Debug, PartialEq, Eq, Structural)]
pub enum EipApplyState {
    /// Nothing has been done yet.
    Start,
    /// The addresses tagged with the uid of the `Eip` are being described.
    DescribingAddresses,
    /// An address is being allocated.
    Allocating,
    /// The allocation is being written into the status.
    WritingStatus,
    /// The reconcile has ended.
    Finished,
}

/// The tag by which the addresses of an `Eip` are found.
pub open spec fn uid_filters_of(uid: Seq<char>) -> Seq<TagView> {
    seq![TagView { key: EIP_UID_TAG@, value: uid }]
}

/// The namespace of an `Eip`; one that names none lives in the default namespace.
pub open spec fn namespace_of(eip: EipView) -> Seq<char> {
    match eip.metadata.namespace {
        Some(namespace) => namespace,
        None => DEFAULT_NAMESPACE@,
    }
}

/// The status of the `Eip` records this allocation with this public address.
pub open spec fn status_reflects(eip: EipView, allocation_id: Seq<char>, public_ip: Seq<char>) -> bool {
    status_or_empty(eip.status).allocation_id == Some(allocation_id) && status_or_empty(
        eip.status,
    ).public_ip_address == Some(public_ip)
}

/// The end of a reconcile that has failed.
pub open spec fn eip_apply_failed(error: ErrorView) -> (EipApplyState, ActionView) {
    (EipApplyState::Finished, ActionView::Fail(error))
}

/// What follows once the address of the `Eip` is known: it is written into
/// the status, unless the status holds it already.
pub open spec fn eip_apply_record(eip: EipView, allocation_id: Option<Seq<char>>, public_ip: Option<Seq<char>>) -> (
    EipApplyState,
    ActionView,
) {
    match (allocation_id, public_ip, eip.metadata.name) {
        (None, _, _) => eip_apply_failed(ErrorView::MissingAllocationId),
        (Some(_), None, _) => eip_apply_failed(ErrorView::MissingPublicIp),
        (Some(_), Some(_), None) => eip_apply_failed(ErrorView::MissingEipName),
        (Some(allocation_id), Some(public_ip), Some(name)) => if status_reflects(
            eip,
            allocation_id,
            public_ip,
        ) {
            (EipApplyState::Finished, ActionView::Done { refresh: true })
        } else {
            (
                EipApplyState::WritingStatus,
                ActionView::SetEipStatusCreated { name, allocation_id, public_ip_address: public_ip },
            )
        },
    }
}

/// One step of the allocation for an `Eip`.
///
/// The `Eip` must have a uid and a name. The addresses that carry its uid
/// are described. Where there is none, one is allocated with the full set of
/// tags; where there is one, it is taken over; more than one is an error
/// that nothing here mends. The allocation is written into the status
/// unless the status holds it already, and the reconcile asks to be run
/// again later.
pub open spec fn eip_apply_next(
    eip: EipView,
    cluster_name: Seq<char>,
    default_tags: Seq<TagView>,
    state: EipApplyState,
    event: EventView,
) -> (EipApplyState, ActionView) {
    match (eip.metadata.uid, eip.metadata.name) {
        (None, _) => eip_apply_failed(
            if state is Start && event is Begin {
                ErrorView::MissingEipUid
            } else {
                ErrorView::UnexpectedEvent
            },
        ),
        (Some(_), None) => eip_apply_failed(
            if state is Start && event is Begin {
                ErrorView::MissingEipName
            } else {
                ErrorView::UnexpectedEvent
            },
        ),
        (Some(uid), Some(name)) => match (state, event) {
            (EipApplyState::Start, EventView::Begin) => (
                EipApplyState::DescribingAddresses,
                ActionView::DescribeAddresses { filters: uid_filters_of(uid) },
            ),
            (EipApplyState::DescribingAddresses, EventView::Addresses(addresses)) => match addresses {
                None => eip_apply_failed(ErrorView::MissingAddresses),
                Some(addresses) => if addresses.len() == 0 {
                    (
                        EipApplyState::Allocating,
                        ActionView::Allocate {
                            tags: allocation_tags_of(
                                uid,
                                name,
                                eip.spec.selector,
                                cluster_name,
                                namespace_of(eip),
                                default_tags,
                            ),
                        },
                    )
                } else if addresses.len() == 1 {
                    eip_apply_record(eip, addresses[0].allocation_id, addresses[0].public_ip)
                } else {
                    eip_apply_failed(ErrorView::MultipleEipsTaggedForPod)
                },
            },
            (EipApplyState::Allocating, EventView::Allocated { allocation_id, public_ip }) => {
                eip_apply_record(eip, allocation_id, public_ip)
            },
            (EipApplyState::WritingStatus, EventView::Done) => (
                EipApplyState::Finished,
                ActionView::Done { refresh: true },
            ),
            _ => eip_apply_failed(ErrorView::UnexpectedEvent),
        },
    }
}

fn fail_eip_apply(error: Error) -> (r: (EipApplyState, Action))
    ensures
        (r.0, r.1@) == eip_apply_failed(error@),
{
    (EipApplyState::Finished, Action::Fail(error))
}

/// Whether the status of the `Eip` records this allocation with this public address.
pub fn reflects(eip: &Eip, allocation_id: &str, public_ip: &str) -> (r: bool)
    ensures
        r == status_reflects(eip@, allocation_id@, public_ip@),
{
    match &eip.status {
        None => false,
        Some(status) => {
            let same_allocation = match &status.allocation_id {
                Some(id) => str_eq(id.as_str(), allocation_id),
                None => false,
            };
            let same_address = match &status.public_ip_address {
                Some(ip) => str_eq(ip.as_str(), public_ip),
                None => false,
            };
            same_allocation && same_address
        },
    }
}

fn record(eip: &Eip, allocation_id: &Option<String>, public_ip: &Option<String>) -> (r: (
    EipApplyState,
    Action,
))
    ensures
        (r.0, r.1@) == eip_apply_record(eip@, allocation_id.deep_view(), public_ip.deep_view()),
{
    let allocation_id = match allocation_id {
        None => {
            return fail_eip_apply(Error::MissingAllocationId);
        },
        Some(allocation_id) => allocation_id,
    };
    let public_ip = match public_ip {
        None => {
            return fail_eip_apply(Error::MissingPublicIp);
        },
        Some(public_ip) => public_ip,
    };
    let name = match &eip.metadata.name {
        None => {
            return fail_eip_apply(Error::MissingEipName);
        },
        Some(name) => name,
    };
    if reflects(eip, allocation_id.as_str(), public_ip.as_str()) {
        (EipApplyState::Finished, Action::Done { refresh: true })
    } else {
        (
            EipApplyState::WritingStatus,
            Action::SetEipStatusCreated {
                name: name.clone(),
                allocation_id: allocation_id.clone(),
                public_ip_address: public_ip.clone(),
            },
        )
    }
}

/// The tag by which the addresses of an `Eip` are found.
pub fn uid_filters(uid: &str) -> (r: Vec<Tag>)
    ensures
        r.deep_view() == uid_filters_of(uid@),
{
    let mut filters: Vec<Tag> = Vec::new();
    filters.push(Tag::new(EIP_UID_TAG, uid));
    proof {
        assert(filters.deep_view() =~= uid_filters_of(uid@));
    }
    filters
}

/// One step of the allocation for an `Eip`.
pub fn eip_apply_step(
    eip: &Eip,
    cluster_name: &str,
    default_tags: &Vec<Tag>,
    state: EipApplyState,
    event: Event,
) -> (r: (EipApplyState, Action))
    ensures
        (r.0, r.1@) == eip_apply_next(eip@, cluster_name@, default_tags.deep_view(), state, event@),
{
    let starting = match (&state, &event) {
        (EipApplyState::Start, Event::Begin) => true,
        _ => false,
    };
    let uid = match &eip.metadata.uid {
        None => {
            return fail_eip_apply(
                if starting {
                    Error::MissingEipUid
                } else {
                    Error::UnexpectedEvent
                },
            );
        },
        Some(uid) => uid,
    };
    let name = match &eip.metadata.name {
        None => {
            return fail_eip_apply(
                if starting {
                    Error::MissingEipName
                } else {
                    Error::UnexpectedEvent
                },
            );
        },
        Some(name) => name,
    };
    match (state, event) {
        (EipApplyState::Start, Event::Begin) => (
            EipApplyState::DescribingAddresses,
            Action::DescribeAddresses { filters: uid_filters(uid.as_str()) },
        ),
        (EipApplyState::DescribingAddresses, Event::Addresses(addresses)) => match addresses {
            None => fail_eip_apply(Error::MissingAddresses),
            Some(addresses) => {
                if addresses.len() == 0 {
                    let namespace = match &eip.metadata.namespace {
                        Some(namespace) => namespace.as_str(),
                        None => DEFAULT_NAMESPACE,
                    };
                    (
                        EipApplyState::Allocating,
                        Action::Allocate {
                            tags: allocation_tags(
                                uid.as_str(),
                                name.as_str(),
                                &eip.spec.selector,
                                cluster_name,
                                namespace,
                                default_tags,
                            ),
                        },
                    )
                } else if addresses.len() == 1 {
                    assert(addresses.deep_view()[0] == addresses@[0]@);
                    record(eip, &addresses[0].allocation_id, &addresses[0].public_ip)
                } else {
                    fail_eip_apply(Error::MultipleEipsTaggedForPod)
                }
            },
        },
        (EipApplyState::Allocating, Event::Allocated { allocation_id, public_ip }) => record(
            eip,
            &allocation_id,
            &public_ip,
        ),
        (EipApplyState::WritingStatus, Event::Done) => (
            EipApplyState::Finished,
            Action::Done { refresh: true },
        ),
        _ => fail_eip_apply(Error::UnexpectedEvent),
    }
}

/// Where the giving back of the addresses of an `Eip` stands.
#[derive(Debug, PartialEq, Eq)]
pub enum EipCleanupState {
    /// Nothing has been done yet.
    Start,
    /// The addresses tagged with the uid of the `Eip` are being described.
    DescribingAddresses,
    /// An address is being taken apart; `pending` holds the calls that follow.
    Releasing { pending: Vec<Action> },
    /// The reconcile has ended.
    Finished,
}

/// The mathematical value of an [`EipCleanupState`].
pub enum EipCleanupStateView {
    Start,
    DescribingAddresses,
    Releasing { pending: Seq<ActionView> },
    Finished,
}

impl View for EipCleanupState {
    type V = EipCleanupStateView;

    open spec fn view(&self) -> EipCleanupStateView {
        match self {
            EipCleanupState::Start => EipCleanupStateView::Start,
            EipCleanupState::DescribingAddresses => EipCleanupStateView::DescribingAddresses,
            EipCleanupState::Releasing { pending } => EipCleanupStateView::Releasing {
                pending: pending.deep_view(),
            },
            EipCleanupState::Finished => EipCleanupStateView::Finished,
        }
    }
}

/// The end of a cleanup that has failed.
pub open spec fn eip_cleanup_failed(error: ErrorView) -> (EipCleanupStateView, ActionView) {
    (EipCleanupStateView::Finished, ActionView::Fail(error))
}

/// What follows while addresses are taken apart: the next call of
/// `pending`, and after the last of them the end of the cleanup.
pub open spec fn eip_cleanup_continue(pending: Seq<ActionView>) -> (EipCleanupStateView, ActionView) {
    if pending.len() > 0 {
        (EipCleanupStateView::Releasing { pending: pending.drop_first() }, pending[0])
    } else {
        (EipCleanupStateView::Finished, ActionView::Done { refresh: false })
    }
}

/// One step of the giving back of the addresses of an `Eip` that is being deleted.
///
/// The `Eip` must have a name and a uid. Every address that carries its uid
/// is taken apart: its association is undone and its allocation given back,
/// where what is gone already counts as done.
pub open spec fn eip_cleanup_next(eip: EipView, state: EipCleanupStateView, event: EventView) -> (
    EipCleanupStateView,
    ActionView,
) {
    match (state, event) {
        (EipCleanupStateView::Start, EventView::Begin) => match (eip.metadata.name, eip.metadata.uid) {
            (None, _) => eip_cleanup_failed(ErrorView::MissingEipName),
            (Some(_), None) => eip_cleanup_failed(ErrorView::MissingEipUid),
            (Some(_), Some(uid)) => (
                EipCleanupStateView::DescribingAddresses,
                ActionView::DescribeAddresses { filters: uid_filters_of(uid) },
            ),
        },
        (EipCleanupStateView::DescribingAddresses, EventView::Addresses(addresses)) => match addresses {
            None => (EipCleanupStateView::Finished, ActionView::Done { refresh: false }),
            Some(addresses) => eip_cleanup_continue(releases_of(addresses)),
        },
        (EipCleanupStateView::Releasing { pending }, EventView::Done) => eip_cleanup_continue(pending),
        (EipCleanupStateView::Releasing { pending }, EventView::Missing) => eip_cleanup_continue(pending),
        _ => eip_cleanup_failed(ErrorView::UnexpectedEvent),
    }
}

fn fail_eip_cleanup(error: Error) -> (r: (EipCleanupState, Action))
    ensures
        (r.0@, r.1@) == eip_cleanup_failed(error@),
{
    (EipCleanupState::Finished, Action::Fail(error))
}

fn continue_eip_cleanup(pending: Vec<Action>) -> (r: (EipCleanupState, Action))
    ensures
        (r.0@, r.1@) == eip_cleanup_continue(pending.deep_view()),
{
    if pending.len() > 0 {
        let (rest, first) = take_next(pending, false);
        (EipCleanupState::Releasing { pending: rest }, first)
    } else {
        (EipCleanupState::Finished, Action::Done { refresh: false })
    }
}

/// One step of the giving back of the addresses of an `Eip` that is being deleted.
pub fn eip_cleanup_step(eip: &Eip, state: EipCleanupState, event: Event) -> (r: (
    EipCleanupState,
    Action,
))
    ensures
        (r.0@, r.1@) == eip_cleanup_next(eip@, state@, event@),
{
    match (state, event) {
        (EipCleanupState::Start, Event::Begin) => {
            if eip.metadata.name.is_none() {
                return fail_eip_cleanup(Error::MissingEipName);
            }
            match &eip.metadata.uid {
                None => fail_eip_cleanup(Error::MissingEipUid),
                Some(uid) => (
                    EipCleanupState::DescribingAddresses,
                    Action::DescribeAddresses { filters: uid_filters(uid.as_str()) },
                ),
            }
        },
        (EipCleanupState::DescribingAddresses, Event::Addresses(addresses)) => match addresses {
            None => (EipCleanupState::Finished, Action::Done { refresh: false }),
            Some(addresses) => continue_eip_cleanup(release_actions(&addresses)),
        },
        (EipCleanupState::Releasing { pending }, Event::Done) => continue_eip_cleanup(pending),
        (EipCleanupState::Releasing { pending }, Event::Missing) => continue_eip_cleanup(pending),
        _ => fail_eip_cleanup(Error::UnexpectedEvent),
    }
}

/// Where several addresses carry the uid of an `Eip`, its reconcile asks
/// only for their description and then fails; the cloud is not changed, not
/// then and not by anything handed to the reconcile afterwards.
pub proof fn lemma_duplicate_tag_changes_nothing(
    eip: EipView,
    cluster_name: Seq<char>,
    default_tags: Seq<TagView>,
    addresses: Seq<AddressView>,
    later: EventView,
)
    requires
        eip.metadata.uid is Some,
        eip.metadata.name is Some,
        addresses.len() > 1,
    ensures
        ({
            let first = eip_apply_next(eip, cluster_name, default_tags, EipApplyState::Start, EventView::Begin);
            let second = eip_apply_next(
                eip,
                cluster_name,
                default_tags,
                first.0,
                EventView::Addresses(Some(addresses)),
            );
            let third = eip_apply_next(eip, cluster_name, default_tags, second.0, later);
            &&& first.1 == ActionView::DescribeAddresses { filters: uid_filters_of(eip.metadata.uid->0) }
            &&& second == eip_apply_failed(ErrorView::MultipleEipsTaggedForPod)
            &&& third.1 is Fail
        }),
{
}

/// The `Eip` reconciler allocates and records; it attaches nothing: no step
/// of it asks for an association or writes an attachment into a status.
pub proof fn lemma_eip_apply_never_attaches(
    eip: EipView,
    cluster_name: Seq<char>,
    default_tags: Seq<TagView>,
    state: EipApplyState,
    event: EventView,
)
    ensures
        ({
            let action = eip_apply_next(eip, cluster_name, default_tags, state, event).1;
            !(action is Associate) && !(action is SetEipStatusAttached) && !(action is Disassociate)
                && !(action is Release)
        }),
{
}

/// An `Eip` whose status holds the one address found for it is left as it
/// is: the reconcile writes nothing.
pub proof fn lemma_eip_apply_settled_writes_nothing(
    eip: EipView,
    cluster_name: Seq<char>,
    default_tags: Seq<TagView>,
    address: AddressView,
)
    requires
        eip.metadata.uid is Some,
        eip.metadata.name is Some,
        address.allocation_id is Some,
        address.public_ip is Some,
        status_reflects(eip, address.allocation_id->0, address.public_ip->0),
    ensures
        eip_apply_next(
            eip,
            cluster_name,
            default_tags,
            EipApplyState::DescribingAddresses,
            EventView::Addresses(Some(seq![address])),
        ) == (EipApplyState::Finished, ActionView::Done { refresh: true }),
{
}

} // verus!
