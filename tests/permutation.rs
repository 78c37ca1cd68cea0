use permtest::{
    check_samples, p_value, total_exceedances, worker_seed, EngineConfig, Evidence, Group,
    LabelAssignment, PValue, SampleError, Worker,
};
use rayon::iter::{IntoParallelIterator, ParallelIterator};

const MEAN_EPSILON: f64 = 0.000001;
const PVALUE_EPSILON: f64 = 0.001;

fn approx_eq(a: f64, b: f64, epsilon: f64) -> bool {
    (a - b).abs() < epsilon
}

fn mean(xs: &[f64]) -> f64 {
    xs.iter()
        .enumerate()
        .fold(0.0, |mu, (i, x)| mu + ((x - mu) / (i + 1) as f64))
}

fn exceeds(labels: &LabelAssignment, control: &[f64], treatment: &[f64], diff: f64) -> bool {
    let (mut mu_c, mut n_c) = (0.0, 0.0);
    let (mut mu_t, mut n_t) = (0.0, 0.0);
    for (i, x) in control.iter().chain(treatment.iter()).enumerate() {
        match labels.label(i) {
            Group::Control => {
                n_c += 1.0;
                mu_c += (x - mu_c) / n_c;
            }
            Group::Treatment => {
                n_t += 1.0;
                mu_t += (x - mu_t) / n_t;
            }
        }
    }
    (mu_t - mu_c) > diff
}

fn run(control: &[f64], treatment: &[f64], diff: f64, config: &EngineConfig) -> PValue {
    let run_seed = config.run_seed();
    let counts: Vec<u64> = (0..config.workers)
        .into_par_iter()
        .map(|w| {
            let mut worker = Worker::new(control.len(), treatment.len(), worker_seed(run_seed, w));
            for _ in 0..config.trials_per_worker {
                worker.next_trial();
                let e = exceeds(worker.labels(), control, treatment, diff);
                worker.record(e);
            }
            worker.exceedances()
        })
        .collect();
    let total = config.total_trials().unwrap();
    p_value(total_exceedances(&counts, config.trials_per_worker), total, diff < 0.0)
}

fn as_f64(p: PValue) -> f64 {
    p.numerator as f64 / p.denominator as f64
}

fn seeded(workers: u64, trials_per_worker: u64, seed: u64) -> EngineConfig {
    EngineConfig { workers, trials_per_worker, seed: Some(seed) }
}

fn mouse_control() -> Vec<f64> {
    vec![52.0, 104.0, 146.0, 10.0, 51.0, 30.0, 40.0, 27.0, 46.0]
}

fn mouse_treatment() -> Vec<f64> {
    vec![94.0, 197.0, 16.0, 38.0, 99.0, 141.0, 23.0]
}

#[test]
fn test_mouse_data() {
    let control = mouse_control();
    let treatment = mouse_treatment();

    let mean_control = mean(&control);
    assert!(approx_eq(mean_control, 56.22222222222222, MEAN_EPSILON));
    let mean_treatment = mean(&treatment);
    assert!(approx_eq(mean_treatment, 86.85714285714286, MEAN_EPSILON));
    assert!(approx_eq(mean_treatment - mean_control, 30.63492063492064, MEAN_EPSILON));

    let config = EngineConfig { seed: Some(2024), ..EngineConfig::default() };
    let pvalue = as_f64(run(&control, &treatment, mean_treatment - mean_control, &config));
    assert!(approx_eq(pvalue, 0.13896357, PVALUE_EPSILON));
}

#[test]
fn new_assignment_lists_controls_first() {
    let labels = LabelAssignment::new(2, 3);
    assert_eq!(labels.len(), 5);
    assert_eq!(labels.n_control(), 2);
    assert_eq!(labels.n_treatment(), 3);
    let got: Vec<Group> = (0..5).map(|i| labels.label(i)).collect();
    assert_eq!(
        got,
        vec![Group::Control, Group::Control, Group::Treatment, Group::Treatment, Group::Treatment]
    );
}

#[test]
fn reshuffles_keep_label_counts_and_move_labels() {
    let mut worker = Worker::new(9, 7, 11);
    let initial: Vec<Group> = (0..16).map(|i| worker.labels().label(i)).collect();
    let mut moved = false;
    for _ in 0..200 {
        worker.next_trial();
        let now: Vec<Group> = (0..16).map(|i| worker.labels().label(i)).collect();
        assert_eq!(now.iter().filter(|g| **g == Group::Control).count(), 9);
        assert_eq!(now.iter().filter(|g| **g == Group::Treatment).count(), 7);
        moved |= now != initial;
    }
    assert!(moved);
    assert_eq!(worker.trials_run(), 0);
}

#[test]
fn worker_records_trials_and_exceedances() {
    let mut worker = Worker::new(1, 1, 0);
    worker.record(true);
    worker.record(false);
    worker.record(true);
    assert_eq!(worker.trials_run(), 3);
    assert_eq!(worker.exceedances(), 2);
}

#[test]
fn empty_samples_are_rejected() {
    assert_eq!(check_samples(0, 4), Err(SampleError::EmptyControl));
    assert_eq!(check_samples(0, 0), Err(SampleError::EmptyControl));
    assert_eq!(check_samples(3, 0), Err(SampleError::EmptyTreatment));
    assert_eq!(check_samples(usize::MAX, 1), Err(SampleError::TooLarge));
    assert_eq!(check_samples(9, 7), Ok(()));
}

#[test]
fn default_budget_is_a_million_trials() {
    let config = EngineConfig::default();
    assert_eq!(config.workers, 1000);
    assert_eq!(config.trials_per_worker, 1000);
    assert_eq!(config.seed, None);
    assert_eq!(config.total_trials(), Some(1_000_000));
    let huge = EngineConfig { workers: u64::MAX, trials_per_worker: 2, seed: None };
    assert_eq!(huge.total_trials(), None);
}

#[test]
fn seeds_follow_the_configuration() {
    assert_eq!(seeded(1, 1, 7).run_seed(), 7);
    assert_eq!(worker_seed(7, 3), 10);
    assert_eq!(worker_seed(u64::MAX, 1), 0);
}

#[test]
fn tallies_add_up() {
    assert_eq!(total_exceedances(&vec![1, 2, 3], 5), 6);
    assert_eq!(total_exceedances(&vec![], 5), 0);
}

#[test]
fn tail_is_chosen_by_the_sign() {
    assert_eq!(p_value(30, 100, false), PValue { numerator: 30, denominator: 100 });
    assert_eq!(p_value(30, 100, true), PValue { numerator: 70, denominator: 100 });
}

#[test]
fn classes_follow_the_thresholds() {
    let class = |n: u64| PValue { numerator: n, denominator: 1000 }.classify();
    assert_eq!(class(0), Evidence::VeryStrong);
    assert_eq!(class(9), Evidence::VeryStrong);
    assert_eq!(class(10), Evidence::Strong);
    assert_eq!(class(24), Evidence::Strong);
    assert_eq!(class(25), Evidence::ReasonablyStrong);
    assert_eq!(class(49), Evidence::ReasonablyStrong);
    assert_eq!(class(50), Evidence::Borderline);
    assert_eq!(class(99), Evidence::Borderline);
    assert_eq!(class(100), Evidence::NoEvidence);
    assert_eq!(class(1000), Evidence::NoEvidence);
}

#[test]
fn classes_have_their_phrases() {
    assert_eq!(Evidence::VeryStrong.phrase(), "very strong evidence against null hypothesis");
    assert_eq!(Evidence::Strong.phrase(), "strong evidence against null hypothesis");
    assert_eq!(
        Evidence::ReasonablyStrong.phrase(),
        "reasonably strong evidence against null hypothesis"
    );
    assert_eq!(Evidence::Borderline.phrase(), "borderline evidence against null hypothesis");
    assert_eq!(Evidence::NoEvidence.phrase(), "no evidence against null hypothesis");
}

#[test]
fn tail_symmetry_on_swapped_samples() {
    let control = mouse_control();
    let treatment = mouse_treatment();
    let diff = mean(&treatment) - mean(&control);
    let config = seeded(100, 1000, 5);
    let upper = as_f64(run(&control, &treatment, diff, &config));
    let lower = as_f64(run(&treatment, &control, -diff, &config));
    assert!(approx_eq(upper, lower, 0.01));
}

#[test]
fn extreme_separation_gives_a_tiny_p_value() {
    let control: Vec<f64> = (0..10).map(|i| i as f64).collect();
    let treatment: Vec<f64> = (0..10).map(|i| 1000.0 + i as f64).collect();
    let diff = mean(&treatment) - mean(&control);
    let p = run(&control, &treatment, diff, &seeded(100, 1000, 9));
    assert!(as_f64(p) < 0.01);
    assert_eq!(p.classify(), Evidence::VeryStrong);
}

#[test]
fn random_splits_of_one_sample_are_not_significant_on_average() {
    let sample: Vec<f64> = (0..30).map(|i| ((i * 37) % 101) as f64).collect();
    let mut total = 0.0;
    let runs: u64 = 20;
    for r in 0..runs {
        let mut split = Worker::new(15, 15, 1000 + r);
        split.next_trial();
        let mut control = Vec::new();
        let mut treatment = Vec::new();
        for (i, x) in sample.iter().enumerate() {
            match split.labels().label(i) {
                Group::Control => control.push(*x),
                Group::Treatment => treatment.push(*x),
            }
        }
        let diff = mean(&treatment) - mean(&control);
        total += as_f64(run(&control, &treatment, diff, &seeded(20, 200, r)));
    }
    let average = total / runs as f64;
    assert!(average > 0.2 && average < 0.8);
}

#[test]
fn seeded_runs_are_identical() {
    let control = mouse_control();
    let treatment = mouse_treatment();
    let diff = mean(&treatment) - mean(&control);
    let config = seeded(10, 500, 77);
    assert_eq!(run(&control, &treatment, diff, &config), run(&control, &treatment, diff, &config));
}
