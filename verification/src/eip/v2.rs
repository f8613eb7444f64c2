//! The second version of the schema, in which an `Eip` selects its target
//! either by pod name or by node labels.

use crate::eip::v1::{LaxEip, LaxEipSpecView, LaxEipView};
use crate::eip::{status_or_empty, EipPhase, EipStatus, EipStatusView};
use crate::error::{Error, ErrorView};
use crate::labels::Labels;
use crate::meta::{ObjectMeta, ObjectMetaView};
use crate::text::{clone_opt, str_eq};
use vstd::prelude::*;
use vstd::string::StringExecFns;

verus! {

/// What an `Eip` is to be bound to.
#[derive(Debug, PartialEq, Eq)]
pub enum EipSelector {
    /// The pod of this name.
    Pod { pod_name: String },
    /// A node that carries all of these labels.
    Node { selector: Labels },
}

/// The mathematical value of an [`EipSelector`].
pub enum EipSelectorView {
    Pod { pod_name: Seq<char> },
    Node { selector: Map<Seq<char>, Seq<char>> },
}

impl View for EipSelector {
    type V = EipSelectorView;

    open spec fn view(&self) -> EipSelectorView {
        match self {
            EipSelector::Pod { pod_name } => EipSelectorView::Pod { pod_name: pod_name@ },
            EipSelector::Node { selector } => EipSelectorView::Node { selector: selector@ },
        }
    }
}

impl DeepView for EipSelector {
    type V = EipSelectorView;

    open spec fn deep_view(&self) -> EipSelectorView {
        self.view()
    }
}

impl EipSelectorView {
    /// The selector names this pod.
    pub open spec fn matches_pod(self, pod_name: Seq<char>) -> bool {
        self matches EipSelectorView::Pod { pod_name: own } && own == pod_name
    }

    /// The selector asks for node labels, and `node_labels` has them all.
    pub open spec fn matches_node(self, node_labels: Map<Seq<char>, Seq<char>>) -> bool {
        self matches EipSelectorView::Node { selector } && selector.submap_of(node_labels)
    }

    /// The selector picks a pod of this name that runs on a node with these labels.
    pub open spec fn selects(self, pod_name: Seq<char>, node_labels: Map<Seq<char>, Seq<char>>) -> bool {
        self.matches_pod(pod_name) || self.matches_node(node_labels)
    }
}

/// One label as it is written out: key, colon, space, value.
pub open spec fn label_text(pair: (Seq<char>, Seq<char>)) -> Seq<char> {
    pair.0 + ": "@ + pair.1
}

/// The labels written out in their order, separated by a comma and a space.
pub open spec fn labels_text(pairs: Seq<(Seq<char>, Seq<char>)>) -> Seq<char>
    decreases pairs.len(),
{
    if pairs.len() == 0 {
        Seq::empty()
    } else if pairs.len() == 1 {
        label_text(pairs[0])
    } else {
        labels_text(pairs.drop_last()) + ", "@ + label_text(pairs.last())
    }
}

impl EipSelector {
    /// The selector as it is shown in listings: `Pod(name)`, or `Node(key:
    /// value, key: value)` with the labels in the order of their keys.
    pub open spec fn text(self) -> Seq<char> {
        match self {
            EipSelector::Pod { pod_name } => "Pod("@ + pod_name@ + ")"@,
            EipSelector::Node { selector } => "Node("@ + labels_text(selector.pairs()) + ")"@,
        }
    }

    /// The selector as it is shown in listings.
    pub fn display(&self) -> (r: String)
        ensures
            r@ == self.text(),
    {
        match self {
            EipSelector::Pod { pod_name } => {
                let mut out = String::from_str("Pod(");
                out.append(pod_name.as_str());
                out.append(")");
                out
            },
            EipSelector::Node { selector } => {
                let mut out = String::from_str("Node(");
                let n = selector.len();
                let mut i: usize = 0;
                while i < n
                    invariant
                        0 <= i <= n,
                        n == selector.pairs().len(),
                        out@ == "Node("@ + labels_text(selector.pairs().take(i as int)),
                    decreases n - i,
                {
                    let ghost before = selector.pairs().take(i as int);
                    let ghost after = selector.pairs().take(i + 1);
                    proof {
                        assert(after.drop_last() =~= before);
                        assert(after.last() == selector.pairs()[i as int]);
                    }
                    if i > 0 {
                        out.append(", ");
                    }
                    out.append(selector.key_at(i).as_str());
                    out.append(": ");
                    out.append(selector.value_at(i).as_str());
                    proof {
                        let entry = label_text(selector.pairs()[i as int]);
                        if i > 0 {
                            assert(out@ =~= "Node("@ + (labels_text(before) + ", "@ + entry));
                        } else {
                            assert(labels_text(before) =~= Seq::<char>::empty());
                            assert(out@ =~= "Node("@ + entry);
                        }
                    }
                    i += 1;
                }
                proof {
                    assert(selector.pairs().take(n as int) =~= selector.pairs());
                }
                out.append(")");
                out
            },
        }
    }
}

impl Clone for EipSelector {
    fn clone(&self) -> (r: EipSelector)
        ensures
            r@ == self@,
            r.text() == self.text(),
    {
        match self {
            EipSelector::Pod { pod_name } => EipSelector::Pod { pod_name: pod_name.clone() },
            EipSelector::Node { selector } => EipSelector::Node { selector: selector.clone() },
        }
    }
}

/// The spec of a version 2 `Eip`.
#[derive(Debug, PartialEq, Eq)]
pub struct EipSpec {
    pub selector: EipSelector,
}

/// The mathematical value of a version 2 [`EipSpec`].
pub struct EipSpecView {
    pub selector: EipSelectorView,
}

impl View for EipSpec {
    type V = EipSpecView;

    open spec fn view(&self) -> EipSpecView {
        EipSpecView { selector: self.selector@ }
    }
}

impl DeepView for EipSpec {
    type V = EipSpecView;

    open spec fn deep_view(&self) -> EipSpecView {
        self.view()
    }
}

/// An `Eip` resource of the stored version.
#[derive(Debug, PartialEq, Eq)]
pub struct Eip {
    pub metadata: ObjectMeta,
    pub spec: EipSpec,
    pub status: Option<EipStatus>,
}

/// The mathematical value of an [`Eip`].
pub struct EipView {
    pub metadata: ObjectMetaView,
    pub spec: EipSpecView,
    pub status: Option<EipStatusView>,
}

impl View for Eip {
    type V = EipView;

    open spec fn view(&self) -> EipView {
        EipView { metadata: self.metadata@, spec: self.spec@, status: self.status.deep_view() }
    }
}

impl DeepView for Eip {
    type V = EipView;

    open spec fn deep_view(&self) -> EipView {
        self.view()
    }
}

impl EipView {
    /// A fresh resource: a name, a spec and nothing else.
    pub open spec fn new(name: Seq<char>, spec: EipSpecView) -> EipView {
        EipView {
            metadata: ObjectMetaView { name: Some(name), ..ObjectMetaView::empty() },
            spec,
            status: None,
        }
    }

    /// The resource that binds an address to the pod `pod_name` and bears its name.
    pub open spec fn for_pod(pod_name: Seq<char>) -> EipView {
        EipView::new(pod_name, EipSpecView { selector: EipSelectorView::Pod { pod_name } })
    }

    /// The allocation recorded in the status.
    pub open spec fn allocation_id(self) -> Option<Seq<char>> {
        match self.status {
            Some(status) => status.allocation_id,
            None => None,
        }
    }

    /// Whether the status records an attachment.
    pub open spec fn attached(self) -> bool {
        self.status matches Some(status) && status.private_ip_address is Some
    }

    /// Where the resource stands in its life.
    pub open spec fn phase(self) -> EipPhase {
        if self.metadata.deleting {
            EipPhase::Deleting
        } else if self.allocation_id() is None {
            EipPhase::Pending
        } else if status_or_empty(self.status).eni is Some && self.attached() {
            EipPhase::Attached
        } else {
            EipPhase::Allocated
        }
    }

    /// What reading a version 1 object as version 2 gives: the resource of
    /// the same name and resource version that selects the named pod; `Err(None)`
    /// where the object names no pod and is left alone.
    pub open spec fn upgraded(old: LaxEipView) -> Result<EipView, Option<ErrorView>> {
        match old.spec.pod_name {
            None => Err(None),
            Some(pod_name) => match old.metadata.name {
                None => Err(Some(ErrorView::MissingEipName)),
                Some(name) => Ok(
                    EipView {
                        metadata: ObjectMetaView {
                            name: Some(name),
                            resource_version: old.metadata.resource_version,
                            ..ObjectMetaView::empty()
                        },
                        spec: EipSpecView { selector: EipSelectorView::Pod { pod_name } },
                        status: None,
                    },
                ),
            },
        }
    }

    /// What a version 2 resource looks like through the version 1 schema:
    /// the pod name, where the selector names a pod.
    pub open spec fn downgraded(self) -> LaxEipView {
        LaxEipView {
            metadata: self.metadata,
            spec: LaxEipSpecView {
                pod_name: match self.spec.selector {
                    EipSelectorView::Pod { pod_name } => Some(pod_name),
                    EipSelectorView::Node { .. } => None,
                },
            },
        }
    }
}

impl Eip {
    /// The stored version of the schema.
    pub fn version() -> (r: String)
        ensures
            r@ == "v2"@,
    {
        String::from_str("v2")
    }

    /// A fresh resource: a name, a spec and nothing else.
    pub fn new(name: &str, spec: EipSpec) -> (r: Eip)
        ensures
            r@ == EipView::new(name@, spec@),
    {
        Eip { metadata: ObjectMeta::named(name), spec, status: None }
    }

    /// The resource that binds an address to the pod `pod_name` and bears its name.
    pub fn for_pod(pod_name: &str) -> (r: Eip)
        ensures
            r@ == EipView::for_pod(pod_name@),
    {
        Eip::new(pod_name, EipSpec { selector: EipSelector::Pod { pod_name: pod_name.to_owned() } })
    }

    /// The name of the resource.
    pub fn name(&self) -> (r: Option<&str>)
        ensures
            r is Some == self@.metadata.name is Some,
            r matches Some(name) ==> self@.metadata.name == Some(name@),
    {
        match &self.metadata.name {
            Some(name) => Some(name.as_str()),
            None => None,
        }
    }

    /// Whether the status records an attachment.
    pub fn attached(&self) -> (r: bool)
        ensures
            r == self@.attached(),
    {
        match &self.status {
            Some(status) => status.private_ip_address.is_some(),
            None => false,
        }
    }

    /// Whether the selector names the pod `pod_name`.
    pub fn matches_pod(&self, pod_name: &str) -> (r: bool)
        ensures
            r == self@.spec.selector.matches_pod(pod_name@),
    {
        match &self.spec.selector {
            EipSelector::Pod { pod_name: this_pod_name } => str_eq(pod_name, this_pod_name.as_str()),
            _ => false,
        }
    }

    /// Whether the selector asks for node labels and `node_labels` has them all.
    pub fn matches_node(&self, node_labels: &Labels) -> (r: bool)
        ensures
            r == self@.spec.selector.matches_node(node_labels@),
    {
        match &self.spec.selector {
            EipSelector::Node { selector } => selector.is_submap_of(node_labels),
            _ => false,
        }
    }

    /// The allocation recorded in the status.
    pub fn allocation_id(&self) -> (r: Option<&str>)
        ensures
            r is Some == self@.allocation_id() is Some,
            r matches Some(id) ==> self@.allocation_id() == Some(id@),
    {
        match &self.status {
            Some(status) => match &status.allocation_id {
                Some(id) => Some(id.as_str()),
                None => None,
            },
            None => None,
        }
    }

    /// Where the resource stands in its life.
    pub fn phase(&self) -> (r: EipPhase)
        ensures
            r == self@.phase(),
    {
        if self.metadata.deleting {
            EipPhase::Deleting
        } else {
            match &self.status {
                None => EipPhase::Pending,
                Some(status) => {
                    if status.allocation_id.is_none() {
                        EipPhase::Pending
                    } else if status.eni.is_some() && status.private_ip_address.is_some() {
                        EipPhase::Attached
                    } else {
                        EipPhase::Allocated
                    }
                },
            }
        }
    }

    /// Reads a version 1 object as version 2. An object that names no pod is
    /// no version 1 `Eip` and gives `Err(None)`; one that names a pod but has
    /// no name of its own gives the error.
    pub fn try_from(eip_v1: &LaxEip) -> (r: Result<Eip, Option<Error>>)
        ensures
            match r {
                Ok(eip) => EipView::upgraded(eip_v1@) == Ok::<EipView, Option<ErrorView>>(eip@),
                Err(e) => EipView::upgraded(eip_v1@) == Err::<EipView, Option<ErrorView>>(e.deep_view()),
            },
    {
        match &eip_v1.spec.pod_name {
            Some(pod_name) => {
                match &eip_v1.metadata.name {
                    None => Err(Some(Error::MissingEipName)),
                    Some(name) => {
                        let mut eip = Eip::new(
                            name.as_str(),
                            EipSpec { selector: EipSelector::Pod { pod_name: pod_name.clone() } },
                        );
                        eip.metadata.resource_version = clone_opt(&eip_v1.metadata.resource_version);
                        Ok(eip)
                    },
                }
            },
            None => Err(None),
        }
    }
}

impl Clone for Eip {
    fn clone(&self) -> (r: Eip)
        ensures
            r@ == self@,
    {
        Eip {
            metadata: self.metadata.clone(),
            spec: EipSpec { selector: self.spec.selector.clone() },
            status: match &self.status {
                Some(status) => Some(status.clone()),
                None => None,
            },
        }
    }
}

} // verus!
