//! The selector engine: which pod or node an `Eip` is meant for, and which
//! `Eip` is meant for a pod.

use crate::cluster::{Node, NodeView, Pod, PodView};
use crate::eip::v2::{Eip, EipSelector, EipSelectorView, EipView};
use crate::labels::Labels;
use crate::search::{first_index, lemma_first_index_is, lemma_first_index_least};
use crate::text::{
    index_of, lemma_lex_lt_asymmetric, lemma_lex_lt_total, lemma_lex_lt_transitive, lex_lt, str_eq,
    str_lt,
};
use vstd::prelude::*;

verus! {

/// The pod is what a pod selector for `pod_name` waits for: it bears the
/// name and has an address.
pub open spec fn pod_is_target(pod: PodView, pod_name: Seq<char>) -> bool {
    pod.metadata.name == Some(pod_name) && pod.pod_ip is Some
}

/// The node satisfies a node selector: it has a name and carries all the labels asked for.
pub open spec fn node_is_candidate(node: NodeView, selector: Map<Seq<char>, Seq<char>>) -> bool {
    node.metadata.name is Some && selector.submap_of(node.metadata.labels)
}

/// Node `i` is the one to choose for the selector: it is a candidate, no
/// candidate has a name that comes before its name, and of the candidates
/// of that name it stands first.
pub open spec fn is_chosen_node(nodes: Seq<NodeView>, selector: Map<Seq<char>, Seq<char>>, i: int) -> bool {
    &&& 0 <= i < nodes.len()
    &&& node_is_candidate(nodes[i], selector)
    &&& forall|j: int|
        0 <= j < nodes.len() && node_is_candidate(#[trigger] nodes[j], selector) ==> {
            ||| lex_lt(nodes[i].metadata.name->0, nodes[j].metadata.name->0)
            ||| (nodes[i].metadata.name == nodes[j].metadata.name && i <= j)
        }
}

/// What an `Eip` resolves to in the cluster as it stands.
#[derive(Clone, Copy, Debug, PartialEq, Eq, Structural)]
pub enum Target {
    /// The pod at this position of the list of pods.
    Pod(usize),
    /// The node at this position of the list of nodes.
    Node(usize),
    /// Nothing yet: the pod has not appeared or has no address, or no node
    /// carries the labels. This is no error; a later reconcile finds it.
    NotReady,
}

/// What the selector resolves to among these pods and nodes.
pub open spec fn resolves_to(
    selector: EipSelectorView,
    pods: Seq<PodView>,
    nodes: Seq<NodeView>,
    target: Target,
) -> bool {
    match selector {
        EipSelectorView::Pod { pod_name } => match target {
            Target::Pod(i) => first_index(pods, |pod: PodView| pod_is_target(pod, pod_name)) == Some(
                i as int,
            ),
            Target::Node(_) => false,
            Target::NotReady => first_index(pods, |pod: PodView| pod_is_target(pod, pod_name)) is None,
        },
        EipSelectorView::Node { selector } => match target {
            Target::Pod(_) => false,
            Target::Node(i) => is_chosen_node(nodes, selector, i as int),
            Target::NotReady => forall|j: int|
                0 <= j < nodes.len() ==> !node_is_candidate(#[trigger] nodes[j], selector),
        },
    }
}

/// The first pod that bears the name and has an address.
pub fn find_target_pod(pods: &Vec<Pod>, pod_name: &str) -> (r: Option<usize>)
    ensures
        index_of(r) == first_index(pods.deep_view(), |pod: PodView| pod_is_target(pod, pod_name@)),
        r matches Some(i) ==> i < pods@.len(),
{
    let ghost wanted = |pod: PodView| pod_is_target(pod, pod_name@);
    let mut i: usize = 0;
    while i < pods.len()
        invariant
            0 <= i <= pods@.len(),
            wanted == |pod: PodView| pod_is_target(pod, pod_name@),
            forall|j: int| 0 <= j < i ==> !wanted(#[trigger] pods.deep_view()[j]),
        decreases pods@.len() - i,
    {
        let named = match &pods[i].metadata.name {
            Some(name) => str_eq(name.as_str(), pod_name),
            None => false,
        };
        if named && pods[i].pod_ip.is_some() {
            proof {
                lemma_first_index_is(pods.deep_view(), wanted, i as int);
            }
            return Some(i);
        }
        i += 1;
    }
    proof {
        lemma_first_index_is(pods.deep_view(), wanted, pods@.len() as int);
    }
    None
}

/// The node to choose for a node selector: of the nodes that carry all the
/// labels, the one whose name comes first in dictionary order.
pub fn choose_node(nodes: &Vec<Node>, selector: &Labels) -> (r: Option<usize>)
    ensures
        match r {
            Some(i) => is_chosen_node(nodes.deep_view(), selector@, i as int),
            None => forall|j: int|
                0 <= j < nodes@.len() ==> !node_is_candidate(#[trigger] nodes.deep_view()[j], selector@),
        },
{
    let mut best: Option<usize> = None;
    let mut i: usize = 0;
    while i < nodes.len()
        invariant
            0 <= i <= nodes@.len(),
            nodes.deep_view().len() == nodes@.len(),
            match best {
                Some(b) => b < i && is_chosen_node(nodes.deep_view().take(i as int), selector@, b as int),
                None => forall|j: int|
                    0 <= j < i ==> !node_is_candidate(#[trigger] nodes.deep_view()[j], selector@),
            },
        decreases nodes@.len() - i,
    {
        let ghost all = nodes.deep_view();
        let ghost seen = all.take(i as int);
        let ghost next = all.take(i + 1);
        let candidate = match &nodes[i].metadata.name {
            Some(_) => selector.is_submap_of(&nodes[i].metadata.labels),
            None => false,
        };
        let mut better = false;
        if candidate {
            better = match best {
                None => true,
                Some(b) => match (&nodes[i].metadata.name, &nodes[b].metadata.name) {
                    (Some(name), Some(best_name)) => str_lt(name.as_str(), best_name.as_str()),
                    _ => false,
                },
            };
        }
        proof {
            assert(forall|j: int| 0 <= j < i ==> seen[j] == all[j]);
            assert(forall|j: int| 0 <= j <= i ==> next[j] == all[j]);
            if better {
                assert(is_chosen_node(next, selector@, i as int)) by {
                    assert forall|j: int|
                        0 <= j < next.len() && node_is_candidate(#[trigger] next[j], selector@) implies {
                        ||| lex_lt(next[i as int].metadata.name->0, next[j].metadata.name->0)
                        ||| (next[i as int].metadata.name == next[j].metadata.name && i <= j)
                    } by {
                        if j < i {
                            let b = best->0 as int;
                            assert(node_is_candidate(seen[j], selector@));
                            let nb = seen[b].metadata.name->0;
                            let nj = seen[j].metadata.name->0;
                            let ni = all[i as int].metadata.name->0;
                            if nb != nj {
                                lemma_lex_lt_transitive(ni, nb, nj);
                            }
                        }
                    }
                }
            } else if best is Some {
                let b = best->0 as int;
                assert(is_chosen_node(next, selector@, b)) by {
                    assert forall|j: int|
                        0 <= j < next.len() && node_is_candidate(#[trigger] next[j], selector@) implies {
                        ||| lex_lt(next[b].metadata.name->0, next[j].metadata.name->0)
                        ||| (next[b].metadata.name == next[j].metadata.name && b <= j)
                    } by {
                        if j < i {
                            assert(node_is_candidate(seen[j], selector@));
                        } else {
                            lemma_lex_lt_total(all[i as int].metadata.name->0, all[b].metadata.name->0);
                        }
                    }
                }
            }
        }
        if better {
            best = Some(i);
        }
        i += 1;
    }
    proof {
        assert(nodes.deep_view().take(nodes@.len() as int) =~= nodes.deep_view());
    }
    best
}

/// What the `Eip` resolves to among these pods and nodes. A pod selector
/// looks only at pods and a node selector only at nodes.
pub fn resolve_target(eip: &Eip, pods: &Vec<Pod>, nodes: &Vec<Node>) -> (r: Target)
    ensures
        resolves_to(eip@.spec.selector, pods.deep_view(), nodes.deep_view(), r),
{
    match &eip.spec.selector {
        EipSelector::Pod { pod_name } => match find_target_pod(pods, pod_name.as_str()) {
            Some(i) => Target::Pod(i),
            None => Target::NotReady,
        },
        EipSelector::Node { selector } => match choose_node(nodes, selector) {
            Some(i) => Target::Node(i),
            None => Target::NotReady,
        },
    }
}

/// The property of an `Eip` to select a pod of this name on a node with these labels.
pub open spec fn selecting(pod_name: Seq<char>, node_labels: Map<Seq<char>, Seq<char>>) -> spec_fn(
    EipView,
) -> bool {
    |eip: EipView| eip.spec.selector.selects(pod_name, node_labels)
}

/// The first `Eip` of the list that selects a pod of this name on a node with these labels.
pub open spec fn eip_for_pod(eips: Seq<EipView>, pod_name: Seq<char>, node_labels: Map<Seq<char>, Seq<char>>) -> Option<
    int,
> {
    first_index(eips, selecting(pod_name, node_labels))
}

/// The first `Eip` of the list that selects the pod: one that names it, or
/// one whose labels the node that the pod runs on carries.
pub fn find_eip_for_pod(eips: &Vec<Eip>, pod_name: &str, node_labels: &Labels) -> (r: Option<usize>)
    ensures
        index_of(r) == eip_for_pod(eips.deep_view(), pod_name@, node_labels@),
        r matches Some(i) ==> i < eips@.len(),
{
    let ghost wanted = selecting(pod_name@, node_labels@);
    let mut i: usize = 0;
    while i < eips.len()
        invariant
            0 <= i <= eips@.len(),
            wanted == selecting(pod_name@, node_labels@),
            forall|j: int| 0 <= j < i ==> !wanted(#[trigger] eips.deep_view()[j]),
        decreases eips@.len() - i,
    {
        if eips[i].matches_pod(pod_name) || eips[i].matches_node(node_labels) {
            proof {
                lemma_first_index_is(eips.deep_view(), wanted, i as int);
            }
            return Some(i);
        }
        i += 1;
    }
    proof {
        lemma_first_index_is(eips.deep_view(), wanted, eips@.len() as int);
    }
    None
}

/// The node chosen for a selector does not depend on the order in which the
/// nodes are listed: two lists that hold the same nodes give nodes of the
/// same name.
pub proof fn lemma_chosen_node_is_stable(
    selector: Map<Seq<char>, Seq<char>>,
    first: Seq<NodeView>,
    second: Seq<NodeView>,
    i: int,
    j: int,
)
    requires
        forall|node: NodeView| first.contains(node) <==> second.contains(node),
        is_chosen_node(first, selector, i),
        is_chosen_node(second, selector, j),
    ensures
        first[i].metadata.name == second[j].metadata.name,
{
    let a = first[i].metadata.name->0;
    let b = second[j].metadata.name->0;
    assert(first.contains(first[i]));
    assert(second.contains(second[j]));
    let i2 = choose|k: int| 0 <= k < second.len() && second[k] == first[i];
    let j2 = choose|k: int| 0 <= k < first.len() && first[k] == second[j];
    assert(node_is_candidate(second[i2], selector));
    assert(node_is_candidate(first[j2], selector));
    if a != b {
        assert(lex_lt(b, a));
        assert(lex_lt(a, b));
        lemma_lex_lt_asymmetric(a, b);
    }
}

/// Where no node carries the labels, nothing is chosen, and where one does,
/// a node is chosen: the selector never fails.
pub proof fn lemma_chosen_node_exists(selector: Map<Seq<char>, Seq<char>>, nodes: Seq<NodeView>)
    ensures
        (exists|i: int| is_chosen_node(nodes, selector, i)) <==> (exists|j: int|
            0 <= j < nodes.len() && node_is_candidate(#[trigger] nodes[j], selector)),
    decreases nodes.len(),
{
    if exists|j: int| 0 <= j < nodes.len() && node_is_candidate(#[trigger] nodes[j], selector) {
        let last = nodes.len() - 1;
        let rest = nodes.take(last);
        lemma_chosen_node_exists(selector, rest);
        assert(forall|j: int| 0 <= j < last ==> rest[j] == nodes[j]);
        if exists|j: int| 0 <= j < rest.len() && node_is_candidate(#[trigger] rest[j], selector) {
            let b = choose|b: int| is_chosen_node(rest, selector, b);
            if node_is_candidate(nodes[last], selector) && lex_lt(
                nodes[last].metadata.name->0,
                nodes[b].metadata.name->0,
            ) {
                assert forall|j: int|
                    0 <= j < nodes.len() && node_is_candidate(#[trigger] nodes[j], selector) implies {
                    ||| lex_lt(nodes[last].metadata.name->0, nodes[j].metadata.name->0)
                    ||| (nodes[last].metadata.name == nodes[j].metadata.name && last <= j)
                } by {
                    if j < last {
                        assert(node_is_candidate(rest[j], selector));
                        if rest[b].metadata.name != rest[j].metadata.name {
                            lemma_lex_lt_transitive(
                                nodes[last].metadata.name->0,
                                nodes[b].metadata.name->0,
                                nodes[j].metadata.name->0,
                            );
                        }
                    }
                }
                assert(is_chosen_node(nodes, selector, last));
            } else {
                assert forall|j: int|
                    0 <= j < nodes.len() && node_is_candidate(#[trigger] nodes[j], selector) implies {
                    ||| lex_lt(nodes[b].metadata.name->0, nodes[j].metadata.name->0)
                    ||| (nodes[b].metadata.name == nodes[j].metadata.name && b <= j)
                } by {
                    if j < last {
                        assert(node_is_candidate(rest[j], selector));
                    } else {
                        lemma_lex_lt_total(nodes[last].metadata.name->0, nodes[b].metadata.name->0);
                    }
                }
                assert(is_chosen_node(nodes, selector, b));
            }
        } else {
            assert(node_is_candidate(nodes[last], selector));
            assert forall|j: int|
                0 <= j < nodes.len() && node_is_candidate(#[trigger] nodes[j], selector) implies {
                ||| lex_lt(nodes[last].metadata.name->0, nodes[j].metadata.name->0)
                ||| (nodes[last].metadata.name == nodes[j].metadata.name && last <= j)
            } by {
                if j < last {
                    assert(node_is_candidate(rest[j], selector));
                }
            }
            assert(is_chosen_node(nodes, selector, last));
        }
    } else {
        if exists|i: int| is_chosen_node(nodes, selector, i) {
            let i = choose|i: int| is_chosen_node(nodes, selector, i);
            assert(node_is_candidate(nodes[i], selector));
        }
    }
}

/// The two directions of the engine agree. What an `Eip` resolves to is
/// what its selector selects: a pod that it resolves to is selected by it
/// whatever node the pod runs on, and so is every pod that runs on a node
/// that it resolves to.
pub proof fn lemma_resolution_agrees_with_lookup(
    selector: EipSelectorView,
    pods: Seq<PodView>,
    nodes: Seq<NodeView>,
    target: Target,
    pod_name: Seq<char>,
    node_labels: Map<Seq<char>, Seq<char>>,
)
    requires
        resolves_to(selector, pods, nodes, target),
    ensures
        target matches Target::Pod(i) ==> 0 <= i < pods.len() && pods[i as int].metadata.name is Some
            && pods[i as int].pod_ip is Some && selector.selects(pods[i as int].metadata.name->0, node_labels),
        target matches Target::Node(j) ==> 0 <= j < nodes.len() && selector.selects(
            pod_name,
            nodes[j as int].metadata.labels,
        ),
{
    match selector {
        EipSelectorView::Pod { pod_name: wanted } => {
            lemma_first_index_least(pods, |pod: PodView| pod_is_target(pod, wanted));
        },
        EipSelectorView::Node { .. } => {},
    }
}

} // verus!
