//! The first version of the schema, in which an `Eip` names one pod.

use crate::meta::{ObjectMeta, ObjectMetaView};
use crate::text::clone_opt;
use vstd::prelude::*;

verus! {

/// The spec of a version 1 `Eip`.
#[derive(Debug, PartialEq, Eq)]
pub struct EipSpec {
    pub pod_name: String,
}

/// The mathematical value of a version 1 [`EipSpec`].
pub struct EipSpecView {
    pub pod_name: Seq<char>,
}

impl View for EipSpec {
    type V = EipSpecView;

    open spec fn view(&self) -> EipSpecView {
        EipSpecView { pod_name: self.pod_name@ }
    }
}

impl DeepView for EipSpec {
    type V = EipSpecView;

    open spec fn deep_view(&self) -> EipSpecView {
        self.view()
    }
}

/// A version 1 spec as it may be found stored: the pod name may be missing.
#[derive(Debug, PartialEq, Eq)]
pub struct LaxEipSpec {
    pub pod_name: Option<String>,
}

/// The mathematical value of a [`LaxEipSpec`].
pub struct LaxEipSpecView {
    pub pod_name: Option<Seq<char>>,
}

impl View for LaxEipSpec {
    type V = LaxEipSpecView;

    open spec fn view(&self) -> LaxEipSpecView {
        LaxEipSpecView { pod_name: self.pod_name.deep_view() }
    }
}

impl DeepView for LaxEipSpec {
    type V = LaxEipSpecView;

    open spec fn deep_view(&self) -> LaxEipSpecView {
        self.view()
    }
}

/// An object read through the version 1 schema without insisting on its fields.
#[derive(Debug, PartialEq, Eq)]
pub struct LaxEip {
    pub metadata: ObjectMeta,
    pub spec: LaxEipSpec,
}

/// The mathematical value of a [`LaxEip`].
pub struct LaxEipView {
    pub metadata: ObjectMetaView,
    pub spec: LaxEipSpecView,
}

impl View for LaxEip {
    type V = LaxEipView;

    open spec fn view(&self) -> LaxEipView {
        LaxEipView { metadata: self.metadata@, spec: self.spec@ }
    }
}

impl DeepView for LaxEip {
    type V = LaxEipView;

    open spec fn deep_view(&self) -> LaxEipView {
        self.view()
    }
}

impl Clone for LaxEip {
    fn clone(&self) -> (r: LaxEip)
        ensures
            r@ == self@,
    {
        LaxEip { metadata: self.metadata.clone(), spec: LaxEipSpec { pod_name: clone_opt(&self.spec.pod_name) } }
    }
}

} // verus!
