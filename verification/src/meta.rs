//! The metadata that every Kubernetes object carries, as far as the operator reads it.

use crate::labels::Labels;
use crate::text::{clone_list, clone_opt, first_position, index_of, position_of};
use vstd::prelude::*;

verus! {

/// Metadata of a Kubernetes object.
#[derive(Debug, PartialEq, Eq)]
pub struct ObjectMeta {
    pub name: Option<String>,
    pub namespace: Option<String>,
    pub uid: Option<String>,
    pub resource_version: Option<String>,
    pub labels: Labels,
    pub annotations: Labels,
    pub finalizers: Vec<String>,
    /// Whether a deletion timestamp is set: the object is being deleted.
    pub deleting: bool,
}

/// The mathematical value of an [`ObjectMeta`].
pub struct ObjectMetaView {
    pub name: Option<Seq<char>>,
    pub namespace: Option<Seq<char>>,
    pub uid: Option<Seq<char>>,
    pub resource_version: Option<Seq<char>>,
    pub labels: Map<Seq<char>, Seq<char>>,
    pub annotations: Map<Seq<char>, Seq<char>>,
    pub finalizers: Seq<Seq<char>>,
    pub deleting: bool,
}

impl View for ObjectMeta {
    type V = ObjectMetaView;

    open spec fn view(&self) -> ObjectMetaView {
        ObjectMetaView {
            name: self.name.deep_view(),
            namespace: self.namespace.deep_view(),
            uid: self.uid.deep_view(),
            resource_version: self.resource_version.deep_view(),
            labels: self.labels@,
            annotations: self.annotations@,
            finalizers: self.finalizers.deep_view(),
            deleting: self.deleting,
        }
    }
}

impl DeepView for ObjectMeta {
    type V = ObjectMetaView;

    open spec fn deep_view(&self) -> ObjectMetaView {
        self.view()
    }
}

impl ObjectMetaView {
    /// Metadata with nothing set.
    pub open spec fn empty() -> ObjectMetaView {
        ObjectMetaView {
            name: None,
            namespace: None,
            uid: None,
            resource_version: None,
            labels: Map::empty(),
            annotations: Map::empty(),
            finalizers: Seq::empty(),
            deleting: false,
        }
    }

    /// Where `finalizer` first stands in the list of finalizers.
    pub open spec fn finalizer_position(self, finalizer: Seq<char>) -> Option<int> {
        first_position(self.finalizers, finalizer)
    }
}

impl ObjectMeta {
    /// Metadata with nothing set.
    pub fn new() -> (r: ObjectMeta)
        ensures
            r@ == ObjectMetaView::empty(),
    {
        let r = ObjectMeta {
            name: None,
            namespace: None,
            uid: None,
            resource_version: None,
            labels: Labels::new(),
            annotations: Labels::new(),
            finalizers: Vec::new(),
            deleting: false,
        };
        proof {
            assert(r.finalizers.deep_view() =~= Seq::<Seq<char>>::empty());
        }
        r
    }

    /// Metadata that holds a name and nothing else.
    pub fn named(name: &str) -> (r: ObjectMeta)
        ensures
            r@ == (ObjectMetaView { name: Some(name@), ..ObjectMetaView::empty() }),
    {
        let mut r = ObjectMeta::new();
        r.name = Some(name.to_owned());
        r
    }

    /// Where `finalizer` first stands in the list of finalizers.
    pub fn finalizer_position(&self, finalizer: &str) -> (r: Option<usize>)
        ensures
            index_of(r) == self@.finalizer_position(finalizer@),
            r matches Some(i) ==> i < self.finalizers@.len(),
    {
        position_of(&self.finalizers, finalizer)
    }
}

impl Clone for ObjectMeta {
    fn clone(&self) -> (r: ObjectMeta)
        ensures
            r@ == self@,
    {
        ObjectMeta {
            name: clone_opt(&self.name),
            namespace: clone_opt(&self.namespace),
            uid: clone_opt(&self.uid),
            resource_version: clone_opt(&self.resource_version),
            labels: self.labels.clone(),
            annotations: self.annotations.clone(),
            finalizers: clone_list(&self.finalizers),
            deleting: self.deleting,
        }
    }
}

} // verus!
