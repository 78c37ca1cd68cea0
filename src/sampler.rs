use vstd::prelude::*;

use crate::labels::{initial_labels, Group, LabelAssignment};
use rand::rngs::StdRng;
use rand::seq::SliceRandom;
use rand::SeedableRng;

verus! {

/// rand's standard generator, carried through opaquely.
#[verifier::external_type_specification]
#[verifier::external_body]
pub struct ExStdRng(StdRng);

/// Relies on rand_core's `SeedableRng::seed_from_u64`: a generator made
/// from a 64-bit seed.
#[verifier::external_body]
fn seeded_rng(seed: u64) -> (r: StdRng) {
    StdRng::seed_from_u64(seed)
}

/// Relies on rand's `SliceRandom::shuffle` for slices: it only swaps items,
/// so the result is a rearrangement of the input.
#[verifier::external_body]
pub(crate) fn shuffle_groups(v: &mut Vec<Group>, rng: &mut StdRng)
    ensures
        final(v)@.len() == old(v)@.len(),
        final(v)@.to_multiset() == old(v)@.to_multiset(),
{
    v.as_mut_slice().shuffle(rng)
}

/// One worker of the test: a private generator, a private label
/// assignment that it reshuffles for every trial, and its local tally.
pub struct Worker {
    labels: LabelAssignment,
    rng: StdRng,
    trials: u64,
    exceedances: u64,
}

impl Worker {
    /// The worker's current label assignment.
    pub closed spec fn assignment(&self) -> LabelAssignment {
        self.labels
    }

    /// How many trials the worker has recorded.
    pub closed spec fn trial_count(&self) -> nat {
        self.trials as nat
    }

    /// How many of the recorded trials were exceedances.
    pub closed spec fn exceed_count(&self) -> nat {
        self.exceedances as nat
    }

    pub open spec fn wf(&self) -> bool {
        &&& self.assignment().wf()
        &&& self.exceed_count() <= self.trial_count()
        &&& self.trial_count() <= u64::MAX
    }

    /// A worker over `n_control + n_treatment` positions whose generator is
    /// made from `seed`.
    pub fn new(n_control: usize, n_treatment: usize, seed: u64) -> (r: Worker)
        requires
            n_control + n_treatment <= usize::MAX,
        ensures
            r.wf(),
            r.assignment()@ == initial_labels(n_control as nat, n_treatment as nat),
            r.assignment().control_len() == n_control,
            r.assignment().treatment_len() == n_treatment,
            r.trial_count() == 0,
            r.exceed_count() == 0,
    {
        Worker {
            labels: LabelAssignment::new(n_control, n_treatment),
            rng: seeded_rng(seed),
            trials: 0,
            exceedances: 0,
        }
    }

    pub fn labels(&self) -> (r: &LabelAssignment)
        ensures
            *r == self.assignment(),
    {
        &self.labels
    }

    /// Starts a trial: the labels are reshuffled, the tally is kept.
    pub fn next_trial(&mut self)
        requires
            old(self).wf(),
        ensures
            final(self).wf(),
            final(self).assignment()@.to_multiset() == old(self).assignment()@.to_multiset(),
            final(self).assignment().control_len() == old(self).assignment().control_len(),
            final(self).assignment().treatment_len() == old(self).assignment().treatment_len(),
            final(self).trial_count() == old(self).trial_count(),
            final(self).exceed_count() == old(self).exceed_count(),
    {
        self.labels.reshuffle(&mut self.rng);
    }

    /// Records the outcome of the current trial.
    pub fn record(&mut self, exceeded: bool)
        requires
            old(self).wf(),
            old(self).trial_count() < u64::MAX,
        ensures
            final(self).wf(),
            final(self).assignment() == old(self).assignment(),
            final(self).trial_count() == old(self).trial_count() + 1,
            final(self).exceed_count() == old(self).exceed_count() + (if exceeded {
                1nat
            } else {
                0nat
            }),
    {
        self.trials = self.trials + 1;
        if exceeded {
            self.exceedances = self.exceedances + 1;
        }
    }

    pub fn trials_run(&self) -> (r: u64)
        ensures
            r == self.trial_count(),
    {
        self.trials
    }

    pub fn exceedances(&self) -> (r: u64)
        ensures
            r == self.exceed_count(),
    {
        self.exceedances
    }
}

} // verus!
