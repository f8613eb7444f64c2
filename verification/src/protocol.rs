//! The vocabulary between the reconcilers and the adapters that reach the
//! cluster and the cloud. A reconciler never performs anything: each of its
//! steps names one [`Action`], and is resumed with the [`Event`] that tells
//! what came of it.

use crate::cloud::{Address, AddressView, InstanceDescription, InstanceDescriptionView, Tag, TagView};
use crate::cluster::{Node, NodeView, Pod, PodView};
use crate::eip::v1::{LaxEip, LaxEipView};
use crate::eip::v2::{Eip, EipView};
use crate::error::{Error, ErrorView};
use crate::labels::Labels;
use crate::names::{ALLOCATION_NOT_FOUND_CODE, ASSOCIATION_NOT_FOUND_CODE, HTTP_NOT_FOUND};
use crate::text::str_eq;
use vstd::prelude::*;

verus! {

/// One operation of a JSON patch.
#[derive(Debug, PartialEq, Eq)]
pub enum PatchOp {
    /// Go on only if the value at `path` is the string `value`.
    Test { path: String, value: String },
    /// Remove what is at `path`.
    Remove { path: String },
}

/// The mathematical value of a [`PatchOp`].
pub enum PatchOpView {
    Test { path: Seq<char>, value: Seq<char> },
    Remove { path: Seq<char> },
}

impl View for PatchOp {
    type V = PatchOpView;

    open spec fn view(&self) -> PatchOpView {
        match self {
            PatchOp::Test { path, value } => PatchOpView::Test { path: path@, value: value@ },
            PatchOp::Remove { path } => PatchOpView::Remove { path: path@ },
        }
    }
}

impl DeepView for PatchOp {
    type V = PatchOpView;

    open spec fn deep_view(&self) -> PatchOpView {
        self.view()
    }
}

/// What a reconciler asks an adapter to do next, or how it ends.
#[derive(Debug, PartialEq, Eq)]
pub enum Action {
    /// Create or update the `Eip` by server-side apply.
    ApplyEip { eip: Eip },
    /// Delete the `Eip` of this name.
    DeleteEip { name: String },
    /// Replace the stored `Eip` of the same name in `namespace` by this one.
    ReplaceEip { namespace: Option<String>, eip: Eip },
    /// Read the node of this name.
    GetNode { name: String },
    /// List the `Eip` resources.
    ListEips,
    /// List what the first version of the schema holds, read laxly.
    ListLaxEips,
    /// List the pods that carry the manage label of earlier releases.
    ListLegacyPods,
    /// Write allocation and public address into the status of the `Eip`.
    SetEipStatusCreated { name: String, allocation_id: String, public_ip_address: String },
    /// Write interface and private address into the status of the `Eip`.
    SetEipStatusAttached { name: String, eni: String, private_ip_address: String },
    /// Clear interface and private address in the status of the `Eip`.
    SetEipStatusDetached { name: String },
    /// Set these annotations on the pod by server-side apply.
    AnnotatePod { name: String, annotations: Labels },
    /// Apply this JSON patch to the pod of this name in `namespace`.
    PatchPod { namespace: Option<String>, name: String, operations: Vec<PatchOp> },
    /// Describe the instance with its network interfaces.
    DescribeInstance { instance_id: String },
    /// Describe the address of this allocation.
    DescribeAddress { allocation_id: String },
    /// Describe the addresses that carry all of these tags.
    DescribeAddresses { filters: Vec<Tag> },
    /// Allocate an address and give it these tags.
    Allocate { tags: Vec<Tag> },
    /// Attach the allocation to the interface under the private address,
    /// taking it from wherever it is attached now.
    Associate { allocation_id: String, eni: String, private_ip: String },
    /// Undo the association.
    Disassociate { association_id: String },
    /// Give the allocation back.
    Release { allocation_id: String },
    /// The reconcile has succeeded; `refresh` asks for another one after the refresh interval.
    Done { refresh: bool },
    /// The reconcile has failed.
    Fail(Error),
}

/// The mathematical value of an [`Action`].
pub enum ActionView {
    ApplyEip { eip: EipView },
    DeleteEip { name: Seq<char> },
    ReplaceEip { namespace: Option<Seq<char>>, eip: EipView },
    GetNode { name: Seq<char> },
    ListEips,
    ListLaxEips,
    ListLegacyPods,
    SetEipStatusCreated { name: Seq<char>, allocation_id: Seq<char>, public_ip_address: Seq<char> },
    SetEipStatusAttached { name: Seq<char>, eni: Seq<char>, private_ip_address: Seq<char> },
    SetEipStatusDetached { name: Seq<char> },
    AnnotatePod { name: Seq<char>, annotations: Map<Seq<char>, Seq<char>> },
    PatchPod { namespace: Option<Seq<char>>, name: Seq<char>, operations: Seq<PatchOpView> },
    DescribeInstance { instance_id: Seq<char> },
    DescribeAddress { allocation_id: Seq<char> },
    DescribeAddresses { filters: Seq<TagView> },
    Allocate { tags: Seq<TagView> },
    Associate { allocation_id: Seq<char>, eni: Seq<char>, private_ip: Seq<char> },
    Disassociate { association_id: Seq<char> },
    Release { allocation_id: Seq<char> },
    Done { refresh: bool },
    Fail(ErrorView),
}

impl View for Action {
    type V = ActionView;

    open spec fn view(&self) -> ActionView {
        match self {
            Action::ApplyEip { eip } => ActionView::ApplyEip { eip: eip@ },
            Action::DeleteEip { name } => ActionView::DeleteEip { name: name@ },
            Action::ReplaceEip { namespace, eip } => ActionView::ReplaceEip {
                namespace: namespace.deep_view(),
                eip: eip@,
            },
            Action::GetNode { name } => ActionView::GetNode { name: name@ },
            Action::ListEips => ActionView::ListEips,
            Action::ListLaxEips => ActionView::ListLaxEips,
            Action::ListLegacyPods => ActionView::ListLegacyPods,
            Action::SetEipStatusCreated { name, allocation_id, public_ip_address } => {
                ActionView::SetEipStatusCreated {
                    name: name@,
                    allocation_id: allocation_id@,
                    public_ip_address: public_ip_address@,
                }
            },
            Action::SetEipStatusAttached { name, eni, private_ip_address } => {
                ActionView::SetEipStatusAttached {
                    name: name@,
                    eni: eni@,
                    private_ip_address: private_ip_address@,
                }
            },
            Action::SetEipStatusDetached { name } => ActionView::SetEipStatusDetached { name: name@ },
            Action::AnnotatePod { name, annotations } => ActionView::AnnotatePod {
                name: name@,
                annotations: annotations@,
            },
            Action::PatchPod { namespace, name, operations } => ActionView::PatchPod {
                namespace: namespace.deep_view(),
                name: name@,
                operations: operations.deep_view(),
            },
            Action::DescribeInstance { instance_id } => ActionView::DescribeInstance {
                instance_id: instance_id@,
            },
            Action::DescribeAddress { allocation_id } => ActionView::DescribeAddress {
                allocation_id: allocation_id@,
            },
            Action::DescribeAddresses { filters } => ActionView::DescribeAddresses {
                filters: filters.deep_view(),
            },
            Action::Allocate { tags } => ActionView::Allocate { tags: tags.deep_view() },
            Action::Associate { allocation_id, eni, private_ip } => ActionView::Associate {
                allocation_id: allocation_id@,
                eni: eni@,
                private_ip: private_ip@,
            },
            Action::Disassociate { association_id } => ActionView::Disassociate {
                association_id: association_id@,
            },
            Action::Release { allocation_id } => ActionView::Release { allocation_id: allocation_id@ },
            Action::Done { refresh } => ActionView::Done { refresh: *refresh },
            Action::Fail(error) => ActionView::Fail(error@),
        }
    }
}

impl DeepView for Action {
    type V = ActionView;

    open spec fn deep_view(&self) -> ActionView {
        self.view()
    }
}

impl ActionView {
    /// The action ends the reconcile.
    pub open spec fn is_final(self) -> bool {
        self is Done || self is Fail
    }

    /// The action changes what the cloud holds.
    pub open spec fn changes_cloud(self) -> bool {
        self is Allocate || self is Associate || self is Disassociate || self is Release
    }

    /// The action changes what the cluster holds.
    pub open spec fn changes_cluster(self) -> bool {
        self is ApplyEip || self is DeleteEip || self is ReplaceEip || self is SetEipStatusCreated
            || self is SetEipStatusAttached || self is SetEipStatusDetached || self is AnnotatePod
            || self is PatchPod
    }

    /// The API server's answer `status` to this action means that the
    /// thing acted on does not exist, and the adapter is to say so with
    /// [`Event::Missing`] in place of an error: the answer 404 to the
    /// deleting of an `Eip` and to the reading of a node.
    pub open spec fn gone_by_status(self, status: u16) -> bool {
        (self is DeleteEip || self is GetNode) && status == HTTP_NOT_FOUND
    }

    /// The cloud's error `code` to this action means that what was to be
    /// undone is undone already, and the adapter is to say so with
    /// [`Event::Missing`] in place of an error: an association that is not
    /// found when it is to be undone, an allocation that is not found when
    /// it is to be given back.
    pub open spec fn gone_by_code(self, code: Seq<char>) -> bool {
        ||| self is Disassociate && code == ASSOCIATION_NOT_FOUND_CODE@
        ||| self is Release && code == ALLOCATION_NOT_FOUND_CODE@
    }
}

impl Action {
    /// Whether the action ends the reconcile.
    pub fn is_final(&self) -> (r: bool)
        ensures
            r == self@.is_final(),
    {
        match self {
            Action::Done { .. } => true,
            Action::Fail(_) => true,
            _ => false,
        }
    }

    /// Whether the action changes what the cloud holds.
    pub fn changes_cloud(&self) -> (r: bool)
        ensures
            r == self@.changes_cloud(),
    {
        match self {
            Action::Allocate { .. } => true,
            Action::Associate { .. } => true,
            Action::Disassociate { .. } => true,
            Action::Release { .. } => true,
            _ => false,
        }
    }

    /// Whether the API server's answer `status` to this action means that
    /// the thing acted on does not exist.
    pub fn gone_by_status(&self, status: u16) -> (r: bool)
        ensures
            r == self@.gone_by_status(status),
    {
        match self {
            Action::DeleteEip { .. } => status == HTTP_NOT_FOUND,
            Action::GetNode { .. } => status == HTTP_NOT_FOUND,
            _ => false,
        }
    }

    /// Whether the cloud's error `code` to this action means that what was
    /// to be undone is undone already.
    pub fn gone_by_code(&self, code: &str) -> (r: bool)
        ensures
            r == self@.gone_by_code(code@),
    {
        match self {
            Action::Disassociate { .. } => str_eq(code, ASSOCIATION_NOT_FOUND_CODE),
            Action::Release { .. } => str_eq(code, ALLOCATION_NOT_FOUND_CODE),
            _ => false,
        }
    }
}

/// What came of the last action.
#[derive(Debug, PartialEq, Eq)]
pub enum Event {
    /// Nothing has been asked yet: the reconcile starts.
    Begin,
    /// The write or the call went through.
    Done,
    /// The thing acted on does not exist.
    Missing,
    /// The node that was read.
    Node(Node),
    /// The description of the instance.
    Instance(InstanceDescription),
    /// The `Eip` resources that were listed.
    Eips(Vec<Eip>),
    /// The version 1 objects that were listed.
    LaxEips(Vec<LaxEip>),
    /// The pods that were listed.
    Pods(Vec<Pod>),
    /// The addresses that were described; the cloud may leave the list out.
    Addresses(Option<Vec<Address>>),
    /// What the cloud says it has allocated.
    Allocated { allocation_id: Option<String>, public_ip: Option<String> },
}

/// The mathematical value of an [`Event`].
pub enum EventView {
    Begin,
    Done,
    Missing,
    Node(NodeView),
    Instance(InstanceDescriptionView),
    Eips(Seq<EipView>),
    LaxEips(Seq<LaxEipView>),
    Pods(Seq<PodView>),
    Addresses(Option<Seq<AddressView>>),
    Allocated { allocation_id: Option<Seq<char>>, public_ip: Option<Seq<char>> },
}

impl View for Event {
    type V = EventView;

    open spec fn view(&self) -> EventView {
        match self {
            Event::Begin => EventView::Begin,
            Event::Done => EventView::Done,
            Event::Missing => EventView::Missing,
            Event::Node(node) => EventView::Node(node@),
            Event::Instance(description) => EventView::Instance(description@),
            Event::Eips(eips) => EventView::Eips(eips.deep_view()),
            Event::LaxEips(eips) => EventView::LaxEips(eips.deep_view()),
            Event::Pods(pods) => EventView::Pods(pods.deep_view()),
            Event::Addresses(addresses) => EventView::Addresses(addresses.deep_view()),
            Event::Allocated { allocation_id, public_ip } => EventView::Allocated {
                allocation_id: allocation_id.deep_view(),
                public_ip: public_ip.deep_view(),
            },
        }
    }
}

impl DeepView for Event {
    type V = EventView;

    open spec fn deep_view(&self) -> EventView {
        self.view()
    }
}

/// What a reconciler does with the actions it has lined up: the first of
/// them is named next and the rest stays; with none left the reconcile is
/// done. The second part of the result tells which of the two it was.
pub open spec fn next_of(pending: Seq<ActionView>, refresh: bool) -> (Seq<ActionView>, ActionView) {
    if pending.len() == 0 {
        (pending, ActionView::Done { refresh })
    } else {
        (pending.drop_first(), pending[0])
    }
}

/// Takes the first of the actions lined up, or ends the reconcile where none is left.
pub fn take_next(pending: Vec<Action>, refresh: bool) -> (r: (Vec<Action>, Action))
    ensures
        (r.0.deep_view(), r.1@) == next_of(pending.deep_view(), refresh),
{
    let mut pending = pending;
    if pending.len() == 0 {
        (pending, Action::Done { refresh })
    } else {
        let ghost before = pending.deep_view();
        let first = pending.remove(0);
        proof {
            assert(pending.deep_view() =~= before.drop_first());
        }
        (pending, first)
    }
}

} // verus!
