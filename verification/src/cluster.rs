//! What the operator reads of the cluster besides its own resource: pods and nodes.

use crate::error::{Error, ErrorView};
use crate::meta::{ObjectMeta, ObjectMetaView};
use crate::names::{AUTOCREATE_EIP_LABEL, ENI_ID_FIELD, MANAGE_EIP_LABEL, POD_ENI_ANNOTATION};
use crate::text::clone_opt;
use vstd::prelude::*;
use vstd::std_specs::iter::IteratorSpec;
use vstd::string::StrSliceExecFns;

verus! {

/// A pod, as far as the operator reads it.
#[derive(Debug, PartialEq, Eq)]
pub struct Pod {
    pub metadata: ObjectMeta,
    /// The node the pod is scheduled on.
    pub node_name: Option<String>,
    /// The address the pod has inside the cluster network.
    pub pod_ip: Option<String>,
}

/// The mathematical value of a [`Pod`].
pub struct PodView {
    pub metadata: ObjectMetaView,
    pub node_name: Option<Seq<char>>,
    pub pod_ip: Option<Seq<char>>,
}

impl View for Pod {
    type V = PodView;

    open spec fn view(&self) -> PodView {
        PodView {
            metadata: self.metadata@,
            node_name: self.node_name.deep_view(),
            pod_ip: self.pod_ip.deep_view(),
        }
    }
}

impl DeepView for Pod {
    type V = PodView;

    open spec fn deep_view(&self) -> PodView {
        self.view()
    }
}

/// A node, as far as the operator reads it.
#[derive(Debug, PartialEq, Eq)]
pub struct Node {
    pub metadata: ObjectMeta,
    /// The cloud provider's name for the machine; the instance id follows its last `/`.
    pub provider_id: Option<String>,
}

/// The mathematical value of a [`Node`].
pub struct NodeView {
    pub metadata: ObjectMetaView,
    pub provider_id: Option<Seq<char>>,
}

impl View for Node {
    type V = NodeView;

    open spec fn view(&self) -> NodeView {
        NodeView { metadata: self.metadata@, provider_id: self.provider_id.deep_view() }
    }
}

impl DeepView for Node {
    type V = NodeView;

    open spec fn deep_view(&self) -> NodeView {
        self.view()
    }
}

/// The text is `true`, in any mix of upper and lower case.
pub open spec fn is_true_text(s: Seq<char>) -> bool {
    &&& s.len() == 4
    &&& (s[0] == 't' || s[0] == 'T')
    &&& (s[1] == 'r' || s[1] == 'R')
    &&& (s[2] == 'u' || s[2] == 'U')
    &&& (s[3] == 'e' || s[3] == 'E')
}

/// Whether the text is `true`, in any mix of upper and lower case.
pub fn is_true(s: &str) -> (r: bool)
    ensures
        r == is_true_text(s@),
{
    if s.unicode_len() != 4 {
        return false;
    }
    let c0 = s.get_char(0);
    let c1 = s.get_char(1);
    let c2 = s.get_char(2);
    let c3 = s.get_char(3);
    (c0 == 't' || c0 == 'T') && (c1 == 'r' || c1 == 'R') && (c2 == 'u' || c2 == 'U') && (c3 == 'e'
        || c3 == 'E')
}

/// The position of the last `/` of the text.
pub open spec fn last_slash(s: Seq<char>) -> Option<int>
    decreases s.len(),
{
    if s.len() == 0 {
        None
    } else if s.last() == '/' {
        Some(s.len() - 1)
    } else {
        last_slash(s.drop_last())
    }
}

/// What follows the last `/` of a provider id: the cloud's id of the
/// instance. A provider id without `/` has none.
pub open spec fn instance_id_of(provider_id: Seq<char>) -> Option<Seq<char>> {
    match last_slash(provider_id) {
        Some(i) => Some(provider_id.skip(i + 1)),
        None => None,
    }
}

/// What follows the last `/` of a provider id.
pub fn instance_id_from(provider_id: &str) -> (r: Option<String>)
    ensures
        r.deep_view() == instance_id_of(provider_id@),
{
    let n = provider_id.unicode_len();
    let mut chars = provider_id.chars();
    let mut found: Option<usize> = None;
    let mut i: usize = 0;
    while i < n
        invariant
            0 <= i <= n,
            n == provider_id@.len(),
            chars.remaining() == provider_id@.skip(i as int),
            match found {
                Some(p) => p < i && last_slash(provider_id@.take(i as int)) == Some(p as int),
                None => last_slash(provider_id@.take(i as int)) is None,
            },
        decreases n - i,
    {
        let c = chars.next();
        proof {
            assert(provider_id@.take(i + 1).drop_last() =~= provider_id@.take(i as int));
            assert(provider_id@.take(i + 1).last() == provider_id@[i as int]);
        }
        match c {
            Some(c) => {
                if c == '/' {
                    found = Some(i);
                }
            },
            None => {},
        }
        i += 1;
    }
    proof {
        assert(provider_id@.take(n as int) =~= provider_id@);
    }
    match found {
        Some(p) => {
            let rest = provider_id.substring_char(p + 1, n);
            proof {
                assert(provider_id@.subrange(p + 1, n as int) =~= provider_id@.skip(p + 1));
            }
            Some(rest.to_owned())
        },
        None => None,
    }
}

/// What a text that lists JSON objects holds under one field name: `None`
/// where the text is no JSON list; else, for each entry of the list in its
/// order, the string that the entry holds under `field`, or `None` where the
/// entry is no object, has no such field, or holds something other than a
/// string there. An entry that is itself a list gives `None`, also where a
/// reader of records by position would take its first element for the
/// field; an entry that holds the field twice gives the last of the two
/// values.
pub uninterp spec fn json_list_fields(text: Seq<char>, field: Seq<char>) -> Option<Seq<Option<Seq<char>>>>;

/// Parses `text` with `serde_json::from_str` as a list of JSON values and
/// reads `field` of each entry with `Value::get` and `Value::as_str`. The
/// contract only says that the outcome is a function of the two texts, under
/// the name `json_list_fields`.
#[verifier::external_body]
fn read_json_list_fields(text: &str, field: &str) -> (r: Option<Vec<Option<String>>>)
    ensures
        r.deep_view() == json_list_fields(text@, field@),
{
    let list: Vec<serde_json::Value> = serde_json::from_str(text).ok()?;
    Some(list.iter().map(|entry| entry.get(field).and_then(|v| v.as_str()).map(|s| s.to_owned())).collect())
}

/// The interface id that a parsed interface list gives: the id of its first
/// entry, provided that the text was a list and every entry of it has an id.
pub open spec fn first_eni_id(parsed: Option<Seq<Option<Seq<char>>>>) -> Option<Seq<char>> {
    match parsed {
        None => None,
        Some(ids) => if ids.len() > 0 && (forall|i: int| 0 <= i < ids.len() ==> (#[trigger] ids[i]) is Some) {
            ids[0]
        } else {
            None
        },
    }
}

/// The interface id that a parsed interface list gives.
pub fn eni_id_from_parsed(parsed: &Option<Vec<Option<String>>>) -> (r: Option<String>)
    ensures
        r.deep_view() == first_eni_id(parsed.deep_view()),
{
    match parsed {
        None => None,
        Some(ids) => {
            if ids.len() == 0 {
                return None;
            }
            let mut i: usize = 0;
            while i < ids.len()
                invariant
                    0 <= i <= ids@.len(),
                    ids.deep_view().len() == ids@.len(),
                    parsed.deep_view() == Some(ids.deep_view()),
                    forall|j: int| 0 <= j < i ==> (#[trigger] ids.deep_view()[j]) is Some,
                decreases ids@.len() - i,
            {
                if ids[i].is_none() {
                    proof {
                        assert(ids.deep_view()[i as int] is None);
                    }
                    return None;
                }
                i += 1;
            }
            clone_opt(&ids[0])
        },
    }
}

impl PodView {
    /// The pod asks to be managed: it carries the manage label.
    pub open spec fn is_managed(self) -> bool {
        self.metadata.labels.contains_key(MANAGE_EIP_LABEL@)
    }

    /// The pod asks for an `Eip` of its own.
    pub open spec fn should_autocreate_eip(self) -> bool {
        self.metadata.labels.contains_key(AUTOCREATE_EIP_LABEL@) && is_true_text(
            self.metadata.labels[AUTOCREATE_EIP_LABEL@],
        )
    }

    /// The interface that the pod's own annotation names: none where the
    /// pod has no such annotation, and an error where it has one that names
    /// no interface.
    pub open spec fn eni_id_from_annotation(self) -> Result<Option<Seq<char>>, ErrorView> {
        if self.metadata.annotations.contains_key(POD_ENI_ANNOTATION@) {
            match first_eni_id(
                json_list_fields(self.metadata.annotations[POD_ENI_ANNOTATION@], ENI_ID_FIELD@),
            ) {
                Some(id) => Ok(Some(id)),
                None => Err(ErrorView::UnparseableEniAnnotation),
            }
        } else {
            Ok(None)
        }
    }
}

impl Pod {
    /// Whether the pod carries the manage label.
    pub fn is_managed(&self) -> (r: bool)
        ensures
            r == self@.is_managed(),
    {
        self.metadata.labels.contains_key(MANAGE_EIP_LABEL)
    }

    /// Whether the pod asks for an `Eip` of its own: the autocreate label is
    /// `true`, in any mix of upper and lower case.
    pub fn should_autocreate_eip(&self) -> (r: bool)
        ensures
            r == self@.should_autocreate_eip(),
    {
        match self.metadata.labels.get(AUTOCREATE_EIP_LABEL) {
            Some(value) => is_true(value.as_str()),
            None => false,
        }
    }

    /// The interface that the pod's own annotation names: the `eniId` of the
    /// first entry of the list that the VPC CNI wrote. A pod without the
    /// annotation names none, which is no error. A pod whose annotation
    /// cannot be read as such a list, or lists nothing, is in a state that
    /// the operator does not mend: that is an error.
    pub fn eni_id_from_annotation(&self) -> (r: Result<Option<String>, Error>)
        ensures
            match r {
                Ok(id) => self@.eni_id_from_annotation() == Ok::<Option<Seq<char>>, ErrorView>(
                    id.deep_view(),
                ),
                Err(e) => self@.eni_id_from_annotation() == Err::<Option<Seq<char>>, ErrorView>(e@),
            },
    {
        match self.metadata.annotations.get(POD_ENI_ANNOTATION) {
            Some(annotation) => {
                let parsed = read_json_list_fields(annotation.as_str(), ENI_ID_FIELD);
                match eni_id_from_parsed(&parsed) {
                    Some(id) => Ok(Some(id)),
                    None => Err(Error::UnparseableEniAnnotation),
                }
            },
            None => Ok(None),
        }
    }
}

impl Clone for Pod {
    fn clone(&self) -> (r: Pod)
        ensures
            r@ == self@,
    {
        Pod {
            metadata: self.metadata.clone(),
            node_name: clone_opt(&self.node_name),
            pod_ip: clone_opt(&self.pod_ip),
        }
    }
}

impl NodeView {
    /// The cloud's id of the machine behind the node.
    pub open spec fn instance_id(self) -> Option<Seq<char>> {
        match self.provider_id {
            Some(provider_id) => instance_id_of(provider_id),
            None => None,
        }
    }
}

impl Clone for Node {
    fn clone(&self) -> (r: Node)
        ensures
            r@ == self@,
    {
        Node { metadata: self.metadata.clone(), provider_id: clone_opt(&self.provider_id) }
    }
}

} // verus!
