use vstd::prelude::*;

verus! {

/// How the test is run: the number of workers, the trials each of them
/// runs, and an optional seed that makes the run reproducible.
pub struct EngineConfig {
    pub workers: u64,
    pub trials_per_worker: u64,
    pub seed: Option<u64>,
}

/// Why the observations cannot be tested.
#[derive(Clone, Copy, Debug, PartialEq, Eq, Structural)]
pub enum SampleError {
    EmptyControl,
    EmptyTreatment,
    TooLarge,
}

/// Relies on rand's `random::<u64>`: a seed drawn from the thread-local
/// generator, which is seeded from system entropy.
#[verifier::external_body]
fn entropy_seed() -> (r: u64) {
    rand::random::<u64>()
}

impl Default for EngineConfig {
    /// A thousand workers of a thousand trials each, unseeded.
    fn default() -> (r: EngineConfig)
        ensures
            r.workers == 1000,
            r.trials_per_worker == 1000,
            r.seed is None,
    {
        EngineConfig { workers: 1000, trials_per_worker: 1000, seed: None }
    }
}

impl EngineConfig {
    pub open spec fn spec_total_trials(&self) -> int {
        self.workers * self.trials_per_worker
    }

    /// The whole trial budget, if it fits in a `u64`.
    pub fn total_trials(&self) -> (r: Option<u64>)
        ensures
            r == (if self.spec_total_trials() <= u64::MAX {
                Some(self.spec_total_trials() as u64)
            } else {
                None::<u64>
            }),
    {
        self.workers.checked_mul(self.trials_per_worker)
    }

    /// The seed of the run: the configured one, or else a fresh one drawn
    /// from system entropy.
    pub fn run_seed(&self) -> (r: u64)
        ensures
            self.seed matches Some(s) ==> r == s,
    {
        match self.seed {
            Some(s) => s,
            None => entropy_seed(),
        }
    }
}

/// The seed of worker `worker` in a run seeded with `run_seed`.
pub open spec fn spec_worker_seed(run_seed: u64, worker: u64) -> int {
    (run_seed + worker) % 0x1_0000_0000_0000_0000
}

pub fn worker_seed(run_seed: u64, worker: u64) -> (r: u64)
    ensures
        r == spec_worker_seed(run_seed, worker),
{
    run_seed.wrapping_add(worker)
}

/// Whether the two samples can be tested: both non-empty, and together
/// short enough to be labelled.
pub fn check_samples(n_control: usize, n_treatment: usize) -> (r: Result<(), SampleError>)
    ensures
        r == (if n_control == 0 {
            Err::<(), SampleError>(SampleError::EmptyControl)
        } else if n_treatment == 0 {
            Err(SampleError::EmptyTreatment)
        } else if n_control + n_treatment > usize::MAX {
            Err(SampleError::TooLarge)
        } else {
            Ok(())
        }),
{
    if n_control == 0 {
        Err(SampleError::EmptyControl)
    } else if n_treatment == 0 {
        Err(SampleError::EmptyTreatment)
    } else if n_control > usize::MAX - n_treatment {
        Err(SampleError::TooLarge)
    } else {
        Ok(())
    }
}

/// The sum of the workers' tallies.
pub open spec fn sum_of(counts: Seq<u64>) -> int
    decreases counts.len(),
{
    if counts.len() == 0 {
        0
    } else {
        sum_of(counts.drop_last()) + counts.last()
    }
}

/// The tallies may be reduced in any grouping and any order: the sum over
/// two batches of workers put together is the sum of the two batches'
/// sums, whichever batch comes first.
pub proof fn tallies_combine_in_any_order(a: Seq<u64>, b: Seq<u64>)
    ensures
        sum_of(a + b) == sum_of(a) + sum_of(b),
        sum_of(a + b) == sum_of(b + a),
{
    sum_of_concat(a, b);
    sum_of_concat(b, a);
}

proof fn sum_of_concat(a: Seq<u64>, b: Seq<u64>)
    ensures
        sum_of(a + b) == sum_of(a) + sum_of(b),
    decreases b.len(),
{
    if b.len() > 0 {
        assert((a + b).drop_last() =~= a + b.drop_last());
        sum_of_concat(a, b.drop_last());
    } else {
        assert(a + b =~= a);
    }
}

/// Adds up the tallies of the workers, each of which ran
/// `trials_per_worker` trials.
pub fn total_exceedances(counts: &Vec<u64>, trials_per_worker: u64) -> (r: u64)
    requires
        counts@.len() * trials_per_worker <= u64::MAX,
        forall|i: int| 0 <= i < counts@.len() ==> #[trigger] counts@[i] <= trials_per_worker,
    ensures
        r == sum_of(counts@),
        r <= counts@.len() * trials_per_worker,
{
    let mut total: u64 = 0;
    let mut i: usize = 0;
    while i < counts.len()
        invariant
            i <= counts@.len(),
            counts@.len() * trials_per_worker <= u64::MAX,
            forall|j: int| 0 <= j < counts@.len() ==> #[trigger] counts@[j] <= trials_per_worker,
            total == sum_of(counts@.take(i as int)),
            total <= i * trials_per_worker,
        decreases counts@.len() - i,
    {
        let c = counts[i];
        proof {
            let n = counts@.len();
            assert(counts@.take(i + 1).drop_last() =~= counts@.take(i as int));
            assert((i + 1) * trials_per_worker <= n * trials_per_worker) by (nonlinear_arith)
                requires
                    i + 1 <= n,
            ;
            assert((i + 1) * trials_per_worker == i * trials_per_worker + trials_per_worker)
                by (nonlinear_arith);
        }
        total = total + c;
        i = i + 1;
    }
    assert(counts@.take(i as int) =~= counts@);
    total
}

} // verus!
