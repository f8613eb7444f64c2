//! The migration from the first version of the schema to the second: every
//! stored object that names a pod is rewritten as an `Eip` that selects
//! that pod.

use crate::eip::v1::{LaxEip, LaxEipView};
use crate::eip::v2::{Eip, EipView};
use crate::error::{Error, ErrorView};
use crate::protocol::{take_next, Action, ActionView, Event, EventView};
use crate::text::clone_opt;
use vstd::prelude::*;

verus! {

/// The writes that bring the listed objects to the second version, in their
/// order: one replacement for each object that names a pod, made in the
/// namespace of the object. An object that names no pod is passed over; one
/// that names a pod but has no name ends the list with an error.
pub open spec fn upgrades_of(objects: Seq<LaxEipView>) -> Seq<ActionView>
    decreases objects.len(),
{
    if objects.len() == 0 {
        Seq::empty()
    } else {
        match EipView::upgraded(objects[0]) {
            Err(None) => upgrades_of(objects.drop_first()),
            Err(Some(error)) => seq![ActionView::Fail(error)],
            Ok(eip) => seq![ActionView::ReplaceEip { namespace: objects[0].metadata.namespace, eip }]
                + upgrades_of(objects.drop_first()),
        }
    }
}

/// The writes that bring the listed objects to the second version.
pub fn upgrade_actions(objects: &Vec<LaxEip>) -> (r: Vec<Action>)
    ensures
        r.deep_view() == upgrades_of(objects.deep_view()),
{
    let mut actions: Vec<Action> = Vec::new();
    let mut i: usize = 0;
    proof {
        assert(objects.deep_view().skip(0) =~= objects.deep_view());
        assert(actions.deep_view() =~= Seq::<ActionView>::empty());
    }
    while i < objects.len()
        invariant
            0 <= i <= objects@.len(),
            objects.deep_view().len() == objects@.len(),
            actions.deep_view() + upgrades_of(objects.deep_view().skip(i as int)) == upgrades_of(
                objects.deep_view(),
            ),
        decreases objects@.len() - i,
    {
        let ghost before = actions.deep_view();
        let ghost rest = objects.deep_view().skip(i as int);
        proof {
            assert(rest.drop_first() =~= objects.deep_view().skip(i + 1));
            assert(rest[0] == objects@[i as int]@);
        }
        match Eip::try_from(&objects[i]) {
            Err(None) => {},
            Err(Some(error)) => {
                let ghost shown = error@;
                actions.push(Action::Fail(error));
                proof {
                    assert(actions.deep_view() =~= before + seq![ActionView::Fail(shown)]);
                }
                return actions;
            },
            Ok(eip) => {
                let action = Action::ReplaceEip { namespace: clone_opt(&objects[i].metadata.namespace), eip };
                let ghost shown = action@;
                actions.push(action);
                proof {
                    assert(actions.deep_view() =~= before + seq![shown]);
                    assert(actions.deep_view() + upgrades_of(objects.deep_view().skip(i + 1)) =~= before
                        + (seq![shown] + upgrades_of(rest.drop_first())));
                }
            },
        }
        i += 1;
    }
    proof {
        assert(actions.deep_view() + Seq::<ActionView>::empty() =~= actions.deep_view());
    }
    actions
}

/// Where the migration stands.
#[derive(Debug, PartialEq, Eq)]
pub enum UpgradeState {
    /// Nothing has been done yet.
    Start,
    /// The stored objects are being listed through the first version.
    Listing,
    /// An object is being replaced; `pending` holds the writes that follow.
    Replacing { pending: Vec<Action> },
    /// The migration has ended.
    Finished,
}

/// The mathematical value of an [`UpgradeState`].
pub enum UpgradeStateView {
    Start,
    Listing,
    Replacing { pending: Seq<ActionView> },
    Finished,
}

impl View for UpgradeState {
    type V = UpgradeStateView;

    open spec fn view(&self) -> UpgradeStateView {
        match self {
            UpgradeState::Start => UpgradeStateView::Start,
            UpgradeState::Listing => UpgradeStateView::Listing,
            UpgradeState::Replacing { pending } => UpgradeStateView::Replacing { pending: pending.deep_view() },
            UpgradeState::Finished => UpgradeStateView::Finished,
        }
    }
}

/// What follows while objects are replaced: the next write of `pending`;
/// the end of the migration after the last of them, or at an error among them.
pub open spec fn upgrade_continue(pending: Seq<ActionView>) -> (UpgradeStateView, ActionView) {
    if pending.len() == 0 {
        (UpgradeStateView::Finished, ActionView::Done { refresh: false })
    } else if pending[0].is_final() {
        (UpgradeStateView::Finished, pending[0])
    } else {
        (UpgradeStateView::Replacing { pending: pending.drop_first() }, pending[0])
    }
}

/// One step of the migration: the stored objects are listed through the
/// first version of the schema, and each that names a pod is replaced by
/// its second version.
pub open spec fn upgrade_next(state: UpgradeStateView, event: EventView) -> (UpgradeStateView, ActionView) {
    match (state, event) {
        (UpgradeStateView::Start, EventView::Begin) => (UpgradeStateView::Listing, ActionView::ListLaxEips),
        (UpgradeStateView::Listing, EventView::LaxEips(objects)) => upgrade_continue(upgrades_of(objects)),
        (UpgradeStateView::Replacing { pending }, EventView::Done) => upgrade_continue(pending),
        _ => (UpgradeStateView::Finished, ActionView::Fail(ErrorView::UnexpectedEvent)),
    }
}

fn continue_upgrade(pending: Vec<Action>) -> (r: (UpgradeState, Action))
    ensures
        (r.0@, r.1@) == upgrade_continue(pending.deep_view()),
{
    if pending.len() == 0 {
        (UpgradeState::Finished, Action::Done { refresh: false })
    } else {
        let (rest, first) = take_next(pending, false);
        if first.is_final() {
            (UpgradeState::Finished, first)
        } else {
            (UpgradeState::Replacing { pending: rest }, first)
        }
    }
}

/// One step of the migration.
pub fn upgrade_step(state: UpgradeState, event: Event) -> (r: (UpgradeState, Action))
    ensures
        (r.0@, r.1@) == upgrade_next(state@, event@),
{
    match (state, event) {
        (UpgradeState::Start, Event::Begin) => (UpgradeState::Listing, Action::ListLaxEips),
        (UpgradeState::Listing, Event::LaxEips(objects)) => continue_upgrade(upgrade_actions(&objects)),
        (UpgradeState::Replacing { pending }, Event::Done) => continue_upgrade(pending),
        _ => (UpgradeState::Finished, Action::Fail(Error::UnexpectedEvent)),
    }
}

/// An object of the first version that names a pod, once upgraded and read
/// back through the first version, names the same pod and has kept its name
/// and its resource version.
pub proof fn lemma_upgrade_round_trip(old: LaxEipView)
    requires
        old.spec.pod_name is Some,
        old.metadata.name is Some,
    ensures
        EipView::upgraded(old) is Ok,
        EipView::upgraded(old)->Ok_0.downgraded().spec.pod_name == old.spec.pod_name,
        EipView::upgraded(old)->Ok_0.downgraded().metadata.name == old.metadata.name,
        EipView::upgraded(old)->Ok_0.downgraded().metadata.resource_version
            == old.metadata.resource_version,
{
}

/// The migration is idempotent: upgrading what an upgrade has written
/// gives the same object again.
pub proof fn lemma_upgrade_idempotent(old: LaxEipView)
    requires
        EipView::upgraded(old) is Ok,
    ensures
        EipView::upgraded(EipView::upgraded(old)->Ok_0.downgraded()) == EipView::upgraded(old),
{
}

} // verus!
