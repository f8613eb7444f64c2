//! Finalizers: what a reconcile is to do with an object given whether the
//! operator's finalizer is on it and whether it is being deleted, and the
//! patch that takes a finalizer off.

use crate::cluster::{Pod, PodView};
use crate::eip::v2::{Eip, EipView};
use crate::meta::{ObjectMeta, ObjectMetaView};
use crate::names::{EIP_FINALIZER_NAME, POD_FINALIZER_NAME};
use crate::protocol::{PatchOp, PatchOpView};
use vstd::prelude::*;
use vstd::string::StringExecFns;

verus! {

/// What a reconcile is to do with an object.
#[derive(Clone, Copy, Debug, PartialEq, Eq, Structural)]
pub enum Phase {
    /// Nothing: the object is none of the operator's business, or it is
    /// going and nothing of the operator's is left on it.
    Ignore,
    /// Put the finalizer on the object and stop; the write brings the object back.
    AddFinalizer,
    /// Bring the world in line with the object.
    Apply,
    /// Undo what was done for the object, then take the finalizer off,
    /// which stands at this position among the object's finalizers.
    Cleanup { finalizer_index: usize },
}

/// The phase of an object that the operator manages, by the two facts that
/// decide it: whether the finalizer is on the object, and whether the object
/// is being deleted.
pub open spec fn phase_of(meta: ObjectMetaView, finalizer: Seq<char>) -> Phase {
    match meta.finalizer_position(finalizer) {
        Some(i) => if meta.deleting {
            Phase::Cleanup { finalizer_index: i as usize }
        } else {
            Phase::Apply
        },
        None => if meta.deleting {
            Phase::Ignore
        } else {
            Phase::AddFinalizer
        },
    }
}

/// The phase of a pod. A pod without the manage label is left alone: it is
/// given no finalizer and nothing is bound to it. Only if it still bears the
/// finalizer while it is being deleted is the binding undone.
pub open spec fn pod_phase_of(pod: PodView) -> Phase {
    let phase = phase_of(pod.metadata, POD_FINALIZER_NAME@);
    if pod.is_managed() || phase is Cleanup {
        phase
    } else {
        Phase::Ignore
    }
}

/// The phase of an `Eip`.
pub open spec fn eip_phase_of(eip: EipView) -> Phase {
    phase_of(eip.metadata, EIP_FINALIZER_NAME@)
}

/// The phase of an object that the operator manages.
pub fn reconcile_phase(meta: &ObjectMeta, finalizer: &str) -> (r: Phase)
    ensures
        r == phase_of(meta@, finalizer@),
{
    match meta.finalizer_position(finalizer) {
        Some(i) => {
            if meta.deleting {
                Phase::Cleanup { finalizer_index: i }
            } else {
                Phase::Apply
            }
        },
        None => {
            if meta.deleting {
                Phase::Ignore
            } else {
                Phase::AddFinalizer
            }
        },
    }
}

/// The phase of a pod.
pub fn pod_phase(pod: &Pod) -> (r: Phase)
    ensures
        r == pod_phase_of(pod@),
        r is AddFinalizer ==> pod@.is_managed(),
        r is Apply ==> pod@.is_managed(),
{
    let phase = reconcile_phase(&pod.metadata, POD_FINALIZER_NAME);
    match phase {
        Phase::Cleanup { .. } => phase,
        _ => {
            if pod.is_managed() {
                phase
            } else {
                Phase::Ignore
            }
        },
    }
}

/// The phase of an `Eip`.
pub fn eip_phase(eip: &Eip) -> (r: Phase)
    ensures
        r == eip_phase_of(eip@),
{
    reconcile_phase(&eip.metadata, EIP_FINALIZER_NAME)
}

/// A pod that does not carry the manage label is never given the finalizer,
/// whatever else holds of it.
pub proof fn lemma_unmanaged_pod_gains_no_finalizer(pod: PodView)
    requires
        !pod.is_managed(),
    ensures
        !(pod_phase_of(pod) is AddFinalizer),
        !(pod_phase_of(pod) is Apply),
{
}

/// The digit `d` as text.
pub open spec fn digit_text(d: nat) -> Seq<char> {
    if d == 0 {
        "0"@
    } else if d == 1 {
        "1"@
    } else if d == 2 {
        "2"@
    } else if d == 3 {
        "3"@
    } else if d == 4 {
        "4"@
    } else if d == 5 {
        "5"@
    } else if d == 6 {
        "6"@
    } else if d == 7 {
        "7"@
    } else if d == 8 {
        "8"@
    } else {
        "9"@
    }
}

/// The number `n` in decimal notation.
pub open spec fn decimal_text(n: nat) -> Seq<char>
    decreases n,
{
    if n < 10 {
        digit_text(n)
    } else {
        decimal_text(n / 10) + digit_text(n % 10)
    }
}

fn digit(d: usize) -> (r: &'static str)
    requires
        d < 10,
    ensures
        r@ == digit_text(d as nat),
{
    if d == 0 {
        "0"
    } else if d == 1 {
        "1"
    } else if d == 2 {
        "2"
    } else if d == 3 {
        "3"
    } else if d == 4 {
        "4"
    } else if d == 5 {
        "5"
    } else if d == 6 {
        "6"
    } else if d == 7 {
        "7"
    } else if d == 8 {
        "8"
    } else {
        "9"
    }
}

/// The number `n` in decimal notation.
pub fn decimal(n: usize) -> (r: String)
    ensures
        r@ == decimal_text(n as nat),
    decreases n,
{
    if n < 10 {
        String::from_str(digit(n))
    } else {
        let mut text = decimal(n / 10);
        text.append(digit(n % 10));
        text
    }
}

/// The JSON pointer to the finalizer at position `index` of an object.
pub open spec fn finalizer_path_of(index: nat) -> Seq<char> {
    "/metadata/finalizers/"@ + decimal_text(index)
}

/// The patch that takes the finalizer at position `index` off an object,
/// provided that it is `finalizer` that stands there: a test of the value
/// followed by the removal. Where someone else has changed the list in the
/// meantime the test fails and nothing is removed.
pub open spec fn finalizer_removal_of(index: nat, finalizer: Seq<char>) -> Seq<PatchOpView> {
    seq![
        PatchOpView::Test { path: finalizer_path_of(index), value: finalizer },
        PatchOpView::Remove { path: finalizer_path_of(index) },
    ]
}

/// The JSON pointer to the finalizer at position `index` of an object.
pub fn finalizer_path(index: usize) -> (r: String)
    ensures
        r@ == finalizer_path_of(index as nat),
{
    let mut path = String::from_str("/metadata/finalizers/");
    let number = decimal(index);
    path.append(number.as_str());
    path
}

/// The patch that takes the finalizer at position `index` off an object,
/// provided that it is `finalizer` that stands there.
pub fn finalizer_removal(index: usize, finalizer: &str) -> (r: Vec<PatchOp>)
    ensures
        r.deep_view() == finalizer_removal_of(index as nat, finalizer@),
{
    let mut operations: Vec<PatchOp> = Vec::new();
    operations.push(PatchOp::Test { path: finalizer_path(index), value: finalizer.to_owned() });
    operations.push(PatchOp::Remove { path: finalizer_path(index) });
    proof {
        assert(operations.deep_view() =~= finalizer_removal_of(index as nat, finalizer@));
    }
    operations
}

} // verus!
