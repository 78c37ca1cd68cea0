use vstd::prelude::*;

use crate::sampler::shuffle_groups;
use rand::rngs::StdRng;

verus! {

broadcast use vstd::seq_lib::group_to_multiset_ensures;

/// The group that a position belongs to during one trial.
#[derive(Clone, Copy, Debug, PartialEq, Eq, Structural)]
pub enum Group {
    Control,
    Treatment,
}

/// How many times `g` occurs in `s`.
pub open spec fn count_of(s: Seq<Group>, g: Group) -> nat {
    s.to_multiset().count(g)
}

/// The assignment that a worker starts from: `n_control` control labels
/// followed by `n_treatment` treatment labels.
pub open spec fn initial_labels(n_control: nat, n_treatment: nat) -> Seq<Group> {
    Seq::new(
        n_control + n_treatment,
        |i: int|
            if i < n_control {
                Group::Control
            } else {
                Group::Treatment
            },
    )
}

/// A sequence of group labels whose multiplicities never change.
pub struct LabelAssignment {
    labels: Vec<Group>,
    n_control: usize,
    n_treatment: usize,
}

impl View for LabelAssignment {
    type V = Seq<Group>;

    closed spec fn view(&self) -> Seq<Group> {
        self.labels@
    }
}

impl LabelAssignment {
    /// The number of control labels the assignment was made with.
    pub closed spec fn control_len(&self) -> nat {
        self.n_control as nat
    }

    /// The number of treatment labels the assignment was made with.
    pub closed spec fn treatment_len(&self) -> nat {
        self.n_treatment as nat
    }

    /// The labels are exactly `control_len()` controls and
    /// `treatment_len()` treatments, in some order.
    pub open spec fn wf(&self) -> bool {
        &&& self@.len() == self.control_len() + self.treatment_len()
        &&& count_of(self@, Group::Control) == self.control_len()
        &&& count_of(self@, Group::Treatment) == self.treatment_len()
    }

    pub fn new(n_control: usize, n_treatment: usize) -> (r: LabelAssignment)
        requires
            n_control + n_treatment <= usize::MAX,
        ensures
            r.wf(),
            r.control_len() == n_control,
            r.treatment_len() == n_treatment,
            r@ == initial_labels(n_control as nat, n_treatment as nat),
    {
        let total: usize = n_control + n_treatment;
        let mut labels: Vec<Group> = Vec::with_capacity(total);
        let mut i: usize = 0;
        while i < total
            invariant
                i <= total,
                total == n_control + n_treatment,
                labels@ == initial_labels(n_control as nat, n_treatment as nat).take(i as int),
                count_of(labels@, Group::Control) == (if i <= n_control { i } else { n_control }),
                count_of(labels@, Group::Treatment) == (if i <= n_control { 0 } else { (i - n_control) as nat }),
            decreases total - i,
        {
            let g = if i < n_control {
                Group::Control
            } else {
                Group::Treatment
            };
            proof {
                assert(labels@.push(g).to_multiset() =~= labels@.to_multiset().insert(g));
            }
            labels.push(g);
            assert(labels@ =~= initial_labels(n_control as nat, n_treatment as nat).take(i + 1));
            i = i + 1;
        }
        assert(labels@ =~= initial_labels(n_control as nat, n_treatment as nat));
        LabelAssignment { labels, n_control, n_treatment }
    }

    pub fn len(&self) -> (r: usize)
        ensures
            r == self@.len(),
    {
        self.labels.len()
    }

    pub fn label(&self, i: usize) -> (r: Group)
        requires
            i < self@.len(),
        ensures
            r == self@[i as int],
    {
        self.labels[i]
    }

    pub fn n_control(&self) -> (r: usize)
        ensures
            r == self.control_len(),
    {
        self.n_control
    }

    pub fn n_treatment(&self) -> (r: usize)
        ensures
            r == self.treatment_len(),
    {
        self.n_treatment
    }

    /// Permutes the labels uniformly at random; the multiplicities stay.
    pub fn reshuffle(&mut self, rng: &mut StdRng)
        requires
            old(self).wf(),
        ensures
            final(self).wf(),
            final(self)@.to_multiset() == old(self)@.to_multiset(),
            final(self).control_len() == old(self).control_len(),
            final(self).treatment_len() == old(self).treatment_len(),
    {
        shuffle_groups(&mut self.labels, rng);
    }
}

/// Reshuffling conserves labels: along any chain of assignments in which
/// each is a rearrangement of the one before, the last holds as many control
/// labels and as many treatment labels as the first.
pub proof fn reshuffles_conserve_labels(chain: Seq<Seq<Group>>)
    requires
        chain.len() > 0,
        forall|k: int|
            0 < k < chain.len() ==> (#[trigger] chain[k]).to_multiset() == chain[k - 1].to_multiset(),
    ensures
        count_of(chain.last(), Group::Control) == count_of(chain[0], Group::Control),
        count_of(chain.last(), Group::Treatment) == count_of(chain[0], Group::Treatment),
        chain.last().len() == chain[0].len(),
    decreases chain.len(),
{
    if chain.len() > 1 {
        let shorter = chain.drop_last();
        assert forall|k: int| 0 < k < shorter.len() implies (#[trigger] shorter[k]).to_multiset()
            == shorter[k - 1].to_multiset() by {
            assert(chain[k] == shorter[k]);
        }
        reshuffles_conserve_labels(shorter);
        let k = chain.len() - 1;
        assert(chain[k].to_multiset() == chain[k - 1].to_multiset());
        assert(chain[k - 1].len() == chain[k - 1].to_multiset().len());
        assert(chain[k].len() == chain[k].to_multiset().len());
    }
}

} // verus!
