//! Taking addresses apart: the cloud calls that undo the associations of a
//! list of addresses, and those that also give the addresses back.

use crate::cloud::{Address, AddressView};
use crate::protocol::{Action, ActionView};
use vstd::prelude::*;

verus! {

/// The call that undoes the association of an address, if it has one.
pub open spec fn disassociation_of(address: AddressView) -> Seq<ActionView> {
    match address.association_id {
        Some(association_id) => seq![ActionView::Disassociate { association_id }],
        None => Seq::empty(),
    }
}

/// The calls that take an address apart: its association is undone if it
/// has one, then its allocation is given back if it has one. An address that
/// has lost either is taken apart as far as it still stands.
pub open spec fn release_of(address: AddressView) -> Seq<ActionView> {
    disassociation_of(address) + (match address.allocation_id {
        Some(allocation_id) => seq![ActionView::Release { allocation_id }],
        None => Seq::empty(),
    })
}

/// The calls that undo the associations of the addresses, in their order.
pub open spec fn disassociations_of(addresses: Seq<AddressView>) -> Seq<ActionView>
    decreases addresses.len(),
{
    if addresses.len() == 0 {
        Seq::empty()
    } else {
        disassociations_of(addresses.drop_last()) + disassociation_of(addresses.last())
    }
}

/// The calls that take the addresses apart, in their order.
pub open spec fn releases_of(addresses: Seq<AddressView>) -> Seq<ActionView>
    decreases addresses.len(),
{
    if addresses.len() == 0 {
        Seq::empty()
    } else {
        releases_of(addresses.drop_last()) + release_of(addresses.last())
    }
}

/// The calls that undo the associations of the addresses, in their order.
pub fn disassociate_actions(addresses: &Vec<Address>) -> (r: Vec<Action>)
    ensures
        r.deep_view() == disassociations_of(addresses.deep_view()),
{
    let mut actions: Vec<Action> = Vec::new();
    let mut i: usize = 0;
    proof {
        assert(addresses.deep_view().take(0) =~= Seq::<AddressView>::empty());
        assert(actions.deep_view() =~= Seq::<ActionView>::empty());
    }
    while i < addresses.len()
        invariant
            0 <= i <= addresses@.len(),
            actions.deep_view() == disassociations_of(addresses.deep_view().take(i as int)),
        decreases addresses@.len() - i,
    {
        let ghost before = actions.deep_view();
        proof {
            let next = addresses.deep_view().take(i + 1);
            assert(next.drop_last() =~= addresses.deep_view().take(i as int));
            assert(next.last() == addresses@[i as int]@);
        }
        match &addresses[i].association_id {
            Some(association_id) => {
                actions.push(Action::Disassociate { association_id: association_id.clone() });
                proof {
                    assert(actions.deep_view() =~= before + disassociation_of(addresses@[i as int]@));
                }
            },
            None => {
                proof {
                    assert(actions.deep_view() =~= before + disassociation_of(addresses@[i as int]@));
                }
            },
        }
        i += 1;
    }
    proof {
        assert(addresses.deep_view().take(addresses@.len() as int) =~= addresses.deep_view());
    }
    actions
}

/// The calls that take the addresses apart, in their order.
pub fn release_actions(addresses: &Vec<Address>) -> (r: Vec<Action>)
    ensures
        r.deep_view() == releases_of(addresses.deep_view()),
{
    let mut actions: Vec<Action> = Vec::new();
    let mut i: usize = 0;
    proof {
        assert(addresses.deep_view().take(0) =~= Seq::<AddressView>::empty());
        assert(actions.deep_view() =~= Seq::<ActionView>::empty());
    }
    while i < addresses.len()
        invariant
            0 <= i <= addresses@.len(),
            actions.deep_view() == releases_of(addresses.deep_view().take(i as int)),
        decreases addresses@.len() - i,
    {
        let ghost before = actions.deep_view();
        proof {
            let next = addresses.deep_view().take(i + 1);
            assert(next.drop_last() =~= addresses.deep_view().take(i as int));
            assert(next.last() == addresses@[i as int]@);
        }
        match &addresses[i].association_id {
            Some(association_id) => {
                actions.push(Action::Disassociate { association_id: association_id.clone() });
            },
            None => {},
        }
        let ghost middle = actions.deep_view();
        proof {
            assert(middle =~= before + disassociation_of(addresses@[i as int]@));
        }
        match &addresses[i].allocation_id {
            Some(allocation_id) => {
                actions.push(Action::Release { allocation_id: allocation_id.clone() });
            },
            None => {},
        }
        proof {
            assert(actions.deep_view() =~= before + release_of(addresses@[i as int]@));
        }
        i += 1;
    }
    proof {
        assert(addresses.deep_view().take(addresses@.len() as int) =~= addresses.deep_view());
    }
    actions
}

/// Every address of the list that has an allocation is given back by the
/// calls that take the list apart.
pub proof fn lemma_releases_cover(addresses: Seq<AddressView>, i: int)
    requires
        0 <= i < addresses.len(),
        addresses[i].allocation_id is Some,
    ensures
        releases_of(addresses).contains(ActionView::Release { allocation_id: addresses[i].allocation_id->0 }),
    decreases addresses.len(),
{
    let wanted = ActionView::Release { allocation_id: addresses[i].allocation_id->0 };
    let rest = releases_of(addresses.drop_last());
    let last = release_of(addresses.last());
    if i == addresses.len() - 1 {
        let k = last.len() - 1;
        assert(last[k] == wanted);
        assert((rest + last)[rest.len() + k] == wanted);
    } else {
        lemma_releases_cover(addresses.drop_last(), i);
        let k = choose|k: int| 0 <= k < rest.len() && rest[k] == wanted;
        assert((rest + last)[k] == wanted);
    }
}

/// The calls that take a list apart are calls to undo an association or to
/// give an allocation back, each for an address of the list.
pub proof fn lemma_releases_only(addresses: Seq<AddressView>, k: int)
    requires
        0 <= k < releases_of(addresses).len(),
    ensures
        match releases_of(addresses)[k] {
            ActionView::Disassociate { association_id } => exists|i: int|
                0 <= i < addresses.len() && (#[trigger] addresses[i]).association_id == Some(
                    association_id,
                ),
            ActionView::Release { allocation_id } => exists|i: int|
                0 <= i < addresses.len() && (#[trigger] addresses[i]).allocation_id == Some(allocation_id),
            _ => false,
        },
    decreases addresses.len(),
{
    let rest = releases_of(addresses.drop_last());
    let last = release_of(addresses.last());
    if addresses.len() > 0 {
        if k < rest.len() {
            lemma_releases_only(addresses.drop_last(), k);
            match rest[k] {
                ActionView::Disassociate { association_id } => {
                    let i = choose|i: int|
                        0 <= i < addresses.drop_last().len() && (#[trigger] addresses.drop_last()[i]).association_id
                            == Some(association_id);
                    assert(addresses[i].association_id == Some(association_id));
                },
                ActionView::Release { allocation_id } => {
                    let i = choose|i: int|
                        0 <= i < addresses.drop_last().len() && (#[trigger] addresses.drop_last()[i]).allocation_id
                            == Some(allocation_id);
                    assert(addresses[i].allocation_id == Some(allocation_id));
                },
                _ => {},
            }
        } else {
            let i = addresses.len() - 1;
            assert(releases_of(addresses)[k] == last[k - rest.len()]);
            assert(addresses[i] == addresses.last());
        }
    }
}

} // verus!
