//! The `Eip` custom resource: the declaration that an Elastic IP is to be
//! bound to a pod or to a node, in both versions of its schema.

use crate::text::clone_opt;
use vstd::prelude::*;

pub mod v1;
pub mod v2;

verus! {

/// The status of an `Eip`. The first two fields describe the cloud
/// allocation, the last two what it is currently attached to.
#[derive(Debug, PartialEq, Eq)]
pub struct EipStatus {
    pub allocation_id: Option<String>,
    pub public_ip_address: Option<String>,
    pub eni: Option<String>,
    pub private_ip_address: Option<String>,
}

/// The mathematical value of an [`EipStatus`].
pub struct EipStatusView {
    pub allocation_id: Option<Seq<char>>,
    pub public_ip_address: Option<Seq<char>>,
    pub eni: Option<Seq<char>>,
    pub private_ip_address: Option<Seq<char>>,
}

/// Where an `Eip` stands in its life.
#[derive(Clone, Copy, Debug, PartialEq, Eq, Structural)]
pub enum EipPhase {
    /// No address has been allocated yet.
    Pending,
    /// An address is allocated and attached to nothing.
    Allocated,
    /// The address is attached to a network interface.
    Attached,
    /// The resource is being deleted.
    Deleting,
}

impl View for EipStatus {
    type V = EipStatusView;

    open spec fn view(&self) -> EipStatusView {
        EipStatusView {
            allocation_id: self.allocation_id.deep_view(),
            public_ip_address: self.public_ip_address.deep_view(),
            eni: self.eni.deep_view(),
            private_ip_address: self.private_ip_address.deep_view(),
        }
    }
}

impl DeepView for EipStatus {
    type V = EipStatusView;

    open spec fn deep_view(&self) -> EipStatusView {
        self.view()
    }
}

impl EipStatusView {
    /// The status in which nothing is set.
    pub open spec fn empty() -> EipStatusView {
        EipStatusView { allocation_id: None, public_ip_address: None, eni: None, private_ip_address: None }
    }

    /// The fields come in pairs: the allocation with its public address, the
    /// interface with its private address, and an attachment only where there
    /// is an allocation.
    pub open spec fn paired(self) -> bool {
        &&& self.allocation_id is Some <==> self.public_ip_address is Some
        &&& self.eni is Some <==> self.private_ip_address is Some
        &&& self.eni is Some ==> self.allocation_id is Some
    }

    /// The status once an allocation has been written into it.
    pub open spec fn with_allocation(self, allocation_id: Seq<char>, public_ip: Seq<char>) -> EipStatusView {
        EipStatusView { allocation_id: Some(allocation_id), public_ip_address: Some(public_ip), ..self }
    }

    /// The status once an attachment has been written into it.
    pub open spec fn with_attachment(self, eni: Seq<char>, private_ip: Seq<char>) -> EipStatusView {
        EipStatusView { eni: Some(eni), private_ip_address: Some(private_ip), ..self }
    }

    /// The status once the attachment has been cleared from it.
    pub open spec fn without_attachment(self) -> EipStatusView {
        EipStatusView { eni: None, private_ip_address: None, ..self }
    }
}

/// Writing an allocation keeps the fields of a status paired.
pub proof fn lemma_allocation_keeps_pairing(status: EipStatusView, allocation_id: Seq<char>, public_ip: Seq<char>)
    requires
        status.paired(),
    ensures
        status.with_allocation(allocation_id, public_ip).paired(),
{
}

/// Writing an attachment keeps the fields of a status paired, provided
/// that the status holds an allocation.
pub proof fn lemma_attachment_keeps_pairing(status: EipStatusView, eni: Seq<char>, private_ip: Seq<char>)
    requires
        status.paired(),
        status.allocation_id is Some,
    ensures
        status.with_attachment(eni, private_ip).paired(),
{
}

/// Clearing the attachment keeps the fields of a status paired.
pub proof fn lemma_detachment_keeps_pairing(status: EipStatusView)
    requires
        status.paired(),
    ensures
        status.without_attachment().paired(),
{
}

/// What a missing status stands for: one in which nothing is set.
pub open spec fn status_or_empty(status: Option<EipStatusView>) -> EipStatusView {
    match status {
        Some(s) => s,
        None => EipStatusView::empty(),
    }
}

impl EipStatus {
    /// The status in which nothing is set.
    pub fn new() -> (r: EipStatus)
        ensures
            r@ == EipStatusView::empty(),
    {
        EipStatus { allocation_id: None, public_ip_address: None, eni: None, private_ip_address: None }
    }
}

impl Clone for EipStatus {
    fn clone(&self) -> (r: EipStatus)
        ensures
            r@ == self@,
    {
        EipStatus {
            allocation_id: clone_opt(&self.allocation_id),
            public_ip_address: clone_opt(&self.public_ip_address),
            eni: clone_opt(&self.eni),
            private_ip_address: clone_opt(&self.private_ip_address),
        }
    }
}

} // verus!
