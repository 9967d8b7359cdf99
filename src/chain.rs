use vstd::prelude::*;

verus! {

/// What the integrator does with the outcome of one Metropolis step.
#[derive(Clone, Copy, Debug, PartialEq, Eq, Structural)]
pub enum ChainAction {
    /// A rejected burn-in step: nothing is summed or remembered.
    Discard,
    /// An accepted burn-in step: its sample becomes the remembered one, unsummed.
    Remember,
    /// An accepted production step: its sample is summed and remembered.
    AddNew,
    /// A rejected production step: the remembered sample is summed once more.
    AddRemembered,
}

/// Whether an action adds a sample to the running sum.
pub open spec fn adds(a: ChainAction) -> bool {
    a is AddNew || a is AddRemembered
}

/// Number of burn-in steps that precede `total` production steps.
pub open spec fn burn_in_steps(total: nat) -> nat {
    total / 4
}

/// The action for step `k` (counted from zero over burn-in and production)
/// of a run with `total` production steps.
pub open spec fn step_action(total: nat, k: nat, accepted: bool) -> ChainAction {
    if k < burn_in_steps(total) {
        if accepted { ChainAction::Remember } else { ChainAction::Discard }
    } else {
        if accepted { ChainAction::AddNew } else { ChainAction::AddRemembered }
    }
}

/// The actions of a whole run, one per step outcome (`true` for an accepted move).
pub open spec fn run_actions(total: nat, outcomes: Seq<bool>) -> Seq<ChainAction> {
    Seq::new(outcomes.len(), |k: int| step_action(total, k as nat, outcomes[k]))
}

/// How many of the given actions add a sample to the running sum.
pub open spec fn count_adds(actions: Seq<ChainAction>) -> nat
    decreases actions.len(),
{
    if actions.len() == 0 {
        0
    } else {
        count_adds(actions.drop_last()) + if adds(actions.last()) { 1nat } else { 0nat }
    }
}

/// Abstract state of a chain: its step budget and how far it has come.
pub struct ChainState {
    pub burn_in: nat,
    pub total: nat,
    pub taken: nat,
    pub accepted: nat,
}

/// The bookkeeping of one Monte Carlo integration run: a burn-in phase of a
/// quarter of the production steps, then `total` production steps whose
/// samples are summed and finally divided by `total`.
pub struct Chain {
    burn_in: usize,
    total: usize,
    burn_in_taken: usize,
    production_taken: usize,
    accepted: usize,
}

impl View for Chain {
    type V = ChainState;

    closed spec fn view(&self) -> ChainState {
        ChainState {
            burn_in: self.burn_in as nat,
            total: self.total as nat,
            taken: (self.burn_in_taken + self.production_taken) as nat,
            accepted: self.accepted as nat,
        }
    }
}

impl Chain {
    #[verifier::type_invariant]
    spec fn counters_in_budget(&self) -> bool {
        &&& self.burn_in == self.total / 4
        &&& self.burn_in_taken <= self.burn_in
        &&& self.production_taken <= self.total
        &&& self.production_taken > 0 ==> self.burn_in_taken == self.burn_in
        &&& self.accepted <= self.production_taken
    }

    /// The chain's state is consistent: burn-in length fixed by the budget,
    /// never more steps taken than the two phases hold.
    pub open spec fn wf(&self) -> bool {
        &&& self@.burn_in == burn_in_steps(self@.total)
        &&& self@.taken <= self@.burn_in + self@.total
        &&& self@.accepted <= self@.taken
    }

    /// The chain has taken every burn-in and production step.
    pub open spec fn spec_finished(&self) -> bool {
        self@.taken == self@.burn_in + self@.total
    }

    /// A fresh chain for `total_steps` production steps.
    pub fn new(total_steps: usize) -> (r: Chain)
        ensures
            r.wf(),
            r@.total == total_steps,
            r@.burn_in == total_steps / 4,
            r@.taken == 0,
            r@.accepted == 0,
    {
        Chain {
            burn_in: total_steps / 4,
            total: total_steps,
            burn_in_taken: 0,
            production_taken: 0,
            accepted: 0,
        }
    }

    /// Whether every step of the run has been taken.
    pub fn is_finished(&self) -> (r: bool)
        ensures
            r == self.spec_finished(),
    {
        proof {
            use_type_invariant(self);
        }
        self.burn_in_taken == self.burn_in && self.production_taken == self.total
    }

    /// Whether the next step belongs to the burn-in phase.
    pub fn in_burn_in(&self) -> (r: bool)
        ensures
            r == (self@.taken < self@.burn_in),
    {
        proof {
            use_type_invariant(self);
        }
        self.burn_in_taken < self.burn_in
    }

    /// Records the outcome of the next step and says what to do with its sample.
    pub fn advance(&mut self, accepted: bool) -> (r: ChainAction)
        requires
            !old(self).spec_finished(),
        ensures
            final(self).wf(),
            r == step_action(old(self)@.total, old(self)@.taken, accepted),
            final(self)@.total == old(self)@.total,
            final(self)@.burn_in == old(self)@.burn_in,
            final(self)@.taken == old(self)@.taken + 1,
            final(self)@.accepted == old(self)@.accepted + if accepted
                && old(self)@.taken >= old(self)@.burn_in { 1nat } else { 0nat },
    {
        proof {
            use_type_invariant(&*self);
        }
        if self.burn_in_taken < self.burn_in {
            self.burn_in_taken = self.burn_in_taken + 1;
            if accepted { ChainAction::Remember } else { ChainAction::Discard }
        } else {
            self.production_taken = self.production_taken + 1;
            if accepted {
                self.accepted = self.accepted + 1;
                ChainAction::AddNew
            } else {
                ChainAction::AddRemembered
            }
        }
    }

    /// Number of production steps, by which the final sum is divided.
    pub fn total_steps(&self) -> (r: usize)
        ensures
            r == self@.total,
    {
        self.total
    }

    /// Number of accepted production steps so far.
    pub fn accepted_steps(&self) -> (r: usize)
        ensures
            r == self@.accepted,
    {
        self.accepted
    }
}

/// Adding actions counted over a prefix grow by one exactly at adding actions.
proof fn lemma_count_adds_push(actions: Seq<ChainAction>, a: ChainAction)
    ensures
        count_adds(actions.push(a)) == count_adds(actions) + if adds(a) { 1nat } else { 0nat },
{
    assert(actions.push(a).drop_last() =~= actions);
}

/// Adding actions among the first `i` actions of a run.
proof fn lemma_count_adds_prefix(total: nat, outcomes: Seq<bool>, i: nat)
    requires
        i <= outcomes.len(),
    ensures
        count_adds(run_actions(total, outcomes).take(i as int)) == if i <= burn_in_steps(total) {
            0
        } else {
            (i - burn_in_steps(total)) as nat
        },
    decreases i,
{
    let acts = run_actions(total, outcomes);
    if i > 0 {
        let j = (i - 1) as nat;
        lemma_count_adds_prefix(total, outcomes, j);
        lemma_count_adds_push(acts.take(j as int), acts[j as int]);
        assert(acts.take(j as int).push(acts[j as int]) =~= acts.take(i as int));
    } else {
        assert(acts.take(0) =~= Seq::<ChainAction>::empty());
    }
}

/// Over a run of `total` production steps, no burn-in step adds to the sum,
/// and exactly `total` steps do: the final division by `total` yields a mean
/// of production samples alone.
pub proof fn lemma_burn_in_not_summed(total: nat, outcomes: Seq<bool>)
    requires
        outcomes.len() == burn_in_steps(total) + total,
    ensures
        forall|k: int| 0 <= k < burn_in_steps(total) ==> !adds(#[trigger] run_actions(total, outcomes)[k]),
        count_adds(run_actions(total, outcomes)) == total,
{
    let acts = run_actions(total, outcomes);
    lemma_count_adds_prefix(total, outcomes, outcomes.len());
    assert(acts.take(outcomes.len() as int) =~= acts);
}

} // verus!
