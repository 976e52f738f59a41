//! The transition planner: the single next state that the service
//! advertises for an item.

use vstd::prelude::*;

verus! {

/// One entry of the service's transition advertisement: an item id and the
/// state the item would move to.
pub struct TransitionCandidate {
    pub id: Option<i32>,
    pub state_on_transition: Option<String>,
}

/// The state advertised for item `id`: the one named by the first entry that
/// carries that id, or none when no entry does (or that entry names none).
pub open spec fn advertised_state(list: Seq<TransitionCandidate>, id: i32) -> Option<Seq<char>>
    decreases list.len(),
{
    if list.len() == 0 {
        None
    } else if list[0].id == Some(id) {
        match list[0].state_on_transition {
            Some(s) => Some(s@),
            None => None,
        }
    } else {
        advertised_state(list.drop_first(), id)
    }
}

/// The next state for `work_item_id`, as the advertisement names it. No
/// local transition table is consulted: the current state plays no part.
pub fn pick_next_state(
    transitions: &Vec<TransitionCandidate>,
    work_item_id: i32,
    _current_state: &str,
) -> (r: Option<String>)
    ensures
        match r {
            Some(s) => advertised_state(transitions@, work_item_id) == Some(s@),
            None => advertised_state(transitions@, work_item_id) is None,
        },
{
    let mut i: usize = 0;
    proof {
        assert(transitions@.skip(0) =~= transitions@);
    }
    while i < transitions.len()
        invariant
            i <= transitions.len(),
            advertised_state(transitions@, work_item_id) == advertised_state(
                transitions@.skip(i as int),
                work_item_id,
            ),
        decreases transitions.len() - i,
    {
        proof {
            assert(transitions@.skip(i as int)[0] == transitions@[i as int]);
            assert(transitions@.skip(i as int).drop_first() =~= transitions@.skip(i + 1));
        }
        if transitions[i].id == Some(work_item_id) {
            return match &transitions[i].state_on_transition {
                Some(s) => Some(s.clone()),
                None => None,
            };
        }
        i = i + 1;
    }
    None
}

/// An item that no entry of the advertisement names has no next state.
pub proof fn lemma_unlisted_item_has_no_target(list: Seq<TransitionCandidate>, id: i32)
    requires
        forall|i: int| 0 <= i < list.len() ==> #[trigger] list[i].id != Some(id),
    ensures
        advertised_state(list, id) is None,
    decreases list.len(),
{
    if list.len() > 0 {
        assert(list[0].id != Some(id));
        assert forall|i: int| 0 <= i < list.drop_first().len() implies #[trigger] list.drop_first()[i].id
            != Some(id) by {
            assert(list.drop_first()[i] == list[i + 1]);
        }
        lemma_unlisted_item_has_no_target(list.drop_first(), id);
    }
}

} // verus!
