//! The end of a match: when a single player still owns anything, it wins.
use vstd::prelude::*;

use crate::collections::{id_set, id_set_elements, id_set_insert, id_set_len, id_set_new};

verus! {

/// The winner given the owner of every owned building and ant (players
/// written as their 64-bit entity form): the one player left, if only one is.
pub open spec fn spec_winner(owners: Seq<u64>) -> Option<u64> {
    if owners.len() > 0 && forall|i: int| 0 <= i < owners.len() ==> #[trigger] owners[i] == owners[0] {
        Some(owners[0])
    } else {
        None
    }
}

/// The player that still owns something, when exactly one does.
pub fn winner(owners: &Vec<u64>) -> (winner: Option<u64>)
    ensures
        winner == spec_winner(owners@),
{
    let mut alive = id_set_new();
    for i in 0..owners.len()
        invariant
            id_set(alive) == owners@.take(i as int).to_set(),
    {
        id_set_insert(&mut alive, owners[i]);
        proof {
            assert(owners@.take(i + 1) =~= owners@.take(i as int).push(owners@[i as int]));
            let prev = owners@.take(i as int);
            assert(prev.push(owners@[i as int]).to_set() =~= prev.to_set().insert(owners@[i as int])) by {
                assert forall|x: u64| prev.push(owners@[i as int]).to_set().contains(x) <==> prev.to_set().insert(owners@[i as int]).contains(x) by {
                    if prev.push(owners@[i as int]).to_set().contains(x) {
                        let k = choose|k: int| 0 <= k < prev.len() + 1 && prev.push(owners@[i as int])[k] == x;
                        if k < prev.len() {
                            assert(prev[k] == x);
                        }
                    }
                    if prev.to_set().contains(x) {
                        let k = choose|k: int| 0 <= k < prev.len() && prev[k] == x;
                        assert(prev.push(owners@[i as int])[k] == x);
                    }
                    if x == owners@[i as int] {
                        assert(prev.push(owners@[i as int])[prev.len() as int] == x);
                    }
                }
            }
        }
    }
    assert(owners@.take(owners@.len() as int) =~= owners@);
    let count = id_set_len(&alive);
    if count == 1 {
        let players = id_set_elements(&alive);
        proof {
            vstd::seq_lib::seq_to_set_is_finite(owners@);
            assert(players@.to_set().len() == 1);
            players@.unique_seq_to_set();
            assert(players@.len() == 1);
            assert(players@.to_set().contains(players@[0]));
            assert forall|i: int| 0 <= i < owners@.len() implies #[trigger] owners@[i] == owners@[0] by {
                assert(owners@.to_set().contains(owners@[i]));
                assert(owners@.to_set().contains(owners@[0]));
                assert(players@.to_set().contains(owners@[i]));
                assert(players@.to_set().contains(owners@[0]));
                let a = choose|a: int| 0 <= a < players@.len() && players@[a] == owners@[i];
                let b = choose|b: int| 0 <= b < players@.len() && players@[b] == owners@[0];
            }
            assert(owners@.len() > 0) by {
                if owners@.len() == 0 {
                    assert(owners@.to_set() =~= Set::<u64>::empty());
                }
            }
            assert(owners@.to_set().contains(owners@[0]));
            assert(players@.to_set().contains(owners@[0]));
        }
        Some(players[0])
    } else {
        proof {
            if owners@.len() > 0 && forall|i: int| 0 <= i < owners@.len() ==> #[trigger] owners@[i] == owners@[0] {
                assert(owners@.to_set() =~= Set::empty().insert(owners@[0])) by {
                    assert forall|x: u64| owners@.to_set().contains(x) implies x == owners@[0] by {
                        let k = choose|k: int| 0 <= k < owners@.len() && owners@[k] == x;
                    }
                    assert(owners@.to_set().contains(owners@[0]));
                }
                assert(Set::empty().insert(owners@[0]).len() == 1);
            }
        }
        None
    }
}

} // verus!
