//! The queue of actions that the contributions feeder sends on chain, first in,
//! first out.
use crate::ids::{ContributionId, ContributorId, GithubRepoId};
use vstd::prelude::*;

verus! {

/// An action on a contribution.
#[derive(Clone, Copy, Debug, PartialEq, Eq, Structural)]
pub enum Action {
    CreateContribution { contribution_id: ContributionId, project_id: GithubRepoId, gate: u8 },
    AssignContributor { contribution_id: ContributionId, contributor_id: ContributorId },
    UnassignContributor { contribution_id: ContributionId },
    ValidateContribution { contribution_id: ContributionId },
}

/// The number of actions that `pop_n(n)` takes from `len` pending ones.
pub open spec fn popped_count(len: nat, n: nat) -> nat {
    if n < len {
        n
    } else {
        len
    }
}

/// A first-in, first-out queue of actions. The vector holds the most recent action
/// first.
pub struct ActionQueue(pub Vec<Action>);

impl ActionQueue {
    /// The pending actions, oldest first.
    pub open spec fn pending(self) -> Seq<Action> {
        self.0@.reverse()
    }

    /// An empty queue.
    pub fn new() -> (r: ActionQueue)
        ensures
            r.pending() == Seq::<Action>::empty(),
    {
        ActionQueue(Vec::new())
    }

    /// Adds `action` behind the pending ones.
    pub fn push(&mut self, action: Action)
        ensures
            final(self).pending() == old(self).pending().push(action),
    {
        self.0.insert(0, action);
        proof {
            assert(self.pending() =~= old(self).pending().push(action));
        }
    }

    /// Takes the `n` oldest actions (all of them where fewer are pending), oldest first.
    pub fn pop_n(&mut self, n: usize) -> (r: Vec<Action>)
        ensures
            r@ == old(self).pending().take(popped_count(old(self).pending().len(), n as nat) as int),
            final(self).pending() == old(self).pending().skip(
                popped_count(old(self).pending().len(), n as nat) as int,
            ),
    {
        let ghost before = self.pending();
        let mut popped: Vec<Action> = Vec::new();
        let mut i: usize = 0;
        while i < n
            invariant_except_break
                i <= n,
            invariant
                i <= before.len(),
                popped@ == before.take(i as int),
                self.pending() == before.skip(i as int),
            ensures
                i == popped_count(before.len(), n as nat),
                popped@ == before.take(i as int),
                self.pending() == before.skip(i as int),
            decreases n - i,
        {
            let ghost stored = self.0@;
            proof {
                assert(stored.reverse().len() == stored.len());
                if stored.len() > 0 {
                    assert(stored.reverse()[0] == stored[stored.len() - 1]);
                    assert(before.skip(i as int)[0] == before[i as int]);
                }
            }
            match self.0.pop() {
                Some(action) => {
                    proof {
                        assert(stored.len() == before.len() - i);
                        assert(action == before[i as int]);
                        assert(self.0@ == stored.drop_last());
                        assert(stored.drop_last().reverse() =~= stored.reverse().drop_first());
                        assert(before.skip(i as int).drop_first() =~= before.skip(i + 1));
                        assert(self.pending() =~= before.skip(i + 1));
                    }
                    popped.push(action);
                    i = i + 1;
                    proof {
                        assert(popped@ =~= before.take(i as int));
                    }
                },
                None => {
                    proof {
                        assert(stored.len() == 0);
                        assert(i == before.len());
                    }
                    break;
                },
            }
        }
        popped
    }
}

/// Popping `a` actions and then `b` more takes, in order, the same actions as popping
/// `a + b` at once, and leaves the same ones pending.
pub proof fn lemma_pop_in_two_batches(pending: Seq<Action>, a: nat, b: nat)
    ensures
        ({
            let first = popped_count(pending.len(), a);
            let rest = pending.skip(first as int);
            let second = popped_count(rest.len(), b);
            let both = popped_count(pending.len(), a + b);
            &&& pending.take(first as int) + rest.take(second as int) == pending.take(both as int)
            &&& rest.skip(second as int) == pending.skip(both as int)
        }),
{
    let first = popped_count(pending.len(), a);
    let rest = pending.skip(first as int);
    let second = popped_count(rest.len(), b);
    let both = popped_count(pending.len(), a + b);
    assert(first + second == both);
    assert(pending.take(first as int) + rest.take(second as int) =~= pending.take(both as int));
    assert(rest.skip(second as int) =~= pending.skip(both as int));
}

/// What `pop_n` takes, followed by what it leaves, is what was pending: no action is
/// lost, duplicated or reordered.
pub proof fn lemma_pop_keeps_every_action(pending: Seq<Action>, n: nat)
    ensures
        pending.take(popped_count(pending.len(), n) as int) + pending.skip(
            popped_count(pending.len(), n) as int,
        ) == pending,
{
    let k = popped_count(pending.len(), n) as int;
    assert(pending.take(k) + pending.skip(k) =~= pending);
}

/// An action pushed behind pending ones does not overtake them: popping no more than were
/// pending takes the same actions as before the push, and the pushed action stays last.
pub proof fn lemma_push_does_not_overtake(pending: Seq<Action>, action: Action, n: nat)
    requires
        n <= pending.len(),
    ensures
        pending.push(action).take(popped_count(pending.push(action).len(), n) as int)
            == pending.take(popped_count(pending.len(), n) as int),
        pending.push(action).skip(popped_count(pending.push(action).len(), n) as int)
            == pending.skip(popped_count(pending.len(), n) as int).push(action),
{
    assert(pending.push(action).take(n as int) =~= pending.take(n as int));
    assert(pending.push(action).skip(n as int) =~= pending.skip(n as int).push(action));
}

} // verus!
