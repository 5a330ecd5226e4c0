use prom_timer::timer::{timed, Histograms, Timer};
use prometheus::{HistogramOpts, Registry};
use std::time::{Duration, Instant};

fn family(name: &str) -> (Histograms, Registry) {
    let histograms = Histograms::new(HistogramOpts::new(name, "test timings"), &["op"]).unwrap();
    let registry = Registry::new();
    histograms.register(&registry).unwrap();
    (histograms, registry)
}

/// The number and the sum of the observations under `op = value`.
fn observed(registry: &Registry, value: &str) -> (u64, f64) {
    for family in registry.gather() {
        for metric in family.get_metric() {
            let labels = metric.get_label();
            if labels.len() == 1 && labels[0].get_value() == value {
                let h = metric.get_histogram();
                return (h.get_sample_count(), h.get_sample_sum());
            }
        }
    }
    (0, 0.0)
}

fn spin(ms: u64) {
    let start = Instant::now();
    while start.elapsed() < Duration::from_millis(ms) {}
}

#[test]
fn sleeping_call_is_observed_once_with_its_duration() {
    let (h, registry) = family("sleeping");
    let mut t = Timer::new(h.share(), &["f"]);
    let r = timed(&mut t, || {
        spin(50);
        7u32
    });
    assert_eq!(r, 7);
    let (count, sum) = observed(&registry, "f");
    assert_eq!(count, 1);
    assert!(sum >= 0.045 && sum <= 0.070, "observed {}", sum);
}

#[test]
fn failing_call_propagates_its_error_and_is_observed_once() {
    let (h, registry) = family("failing");
    let mut t = Timer::new(h.share(), &["g"]);
    let r: Result<u32, String> = timed(&mut t, || {
        spin(10);
        Err("boom".to_string())
    });
    assert_eq!(r, Err("boom".to_string()));
    let (count, sum) = observed(&registry, "g");
    assert_eq!(count, 1);
    assert!(sum >= 0.009 && sum <= 0.030, "observed {}", sum);
}

#[test]
fn early_return_is_delivered_and_observed_once() {
    let (h, registry) = family("early");
    let mut t = Timer::new(h.share(), &["e"]);
    let r = timed(&mut t, || {
        for i in 0..10u32 {
            if i == 3 {
                return i;
            }
        }
        99
    });
    assert_eq!(r, 3);
    assert_eq!(observed(&registry, "e").0, 1);
}

#[test]
fn normal_completion_is_observed_once() {
    let (h, registry) = family("normal");
    let mut t = Timer::new(h.share(), &["n"]);
    let r = timed(&mut t, || 40 + 2);
    assert!(t.is_recorded());
    drop(t);
    assert_eq!(r, 42);
    let (count, sum) = observed(&registry, "n");
    assert_eq!(count, 1);
    assert!(sum >= 0.0);
}

#[test]
fn dropping_a_timer_observes_once() {
    let (h, registry) = family("dropped");
    {
        let _t = Timer::new(h.share(), &["d"]);
        spin(5);
    }
    let (count, sum) = observed(&registry, "d");
    assert_eq!(count, 1);
    assert!(sum >= 0.005);
}

#[test]
fn record_then_drop_observes_once() {
    let (h, registry) = family("recorded");
    let mut t = Timer::new(h.share(), &["r"]);
    assert!(!t.is_recorded());
    assert!(t.record());
    assert!(t.is_recorded());
    assert!(!t.record());
    drop(t);
    assert_eq!(observed(&registry, "r").0, 1);
}

#[test]
fn two_wrappers_are_timed_independently() {
    let (h, registry) = family("twice");
    let f = |n: u8| n;
    let a = timed(&mut Timer::new(h.share(), &["f"]), || f(1));
    let b = timed(&mut Timer::new(h.share(), &["g"]), || f(2));
    let c = timed(&mut Timer::new(h.share(), &["f"]), || f(3));
    assert_eq!((a, b, c), (1, 2, 3));
    assert_eq!(observed(&registry, "f").0, 2);
    assert_eq!(observed(&registry, "g").0, 1);
}

#[test]
fn timer_started_in_a_dropped_scope_observes_once() {
    let (h, registry) = family("abandoned");
    let pending = Timer::new(h.share(), &["p"]);
    spin(2);
    drop(pending);
    assert_eq!(observed(&registry, "p").0, 1);
    assert_eq!(observed(&registry, "q").0, 0);
}

#[test]
fn label_count_is_the_schema_length() {
    let one = Histograms::new(HistogramOpts::new("one_label", "test timings"), &["op"]).unwrap();
    let two = Histograms::new(HistogramOpts::new("two_labels", "test timings"), &["op", "kind"]).unwrap();
    assert_eq!(one.label_count(), 1);
    assert_eq!(two.label_count(), 2);
    assert_eq!(two.share().label_count(), 2);
}

#[test]
fn record_elapsed_observes_the_given_duration_once() {
    let (h, registry) = family("given");
    let mut t = Timer::new(h.share(), &["x"]);
    assert!(t.record_elapsed(Duration::from_millis(250)));
    assert!(!t.record_elapsed(Duration::from_millis(900)));
    assert!(!t.record());
    drop(t);
    let (count, sum) = observed(&registry, "x");
    assert_eq!(count, 1);
    assert!((sum - 0.25).abs() < 1e-9, "observed {}", sum);
}

#[test]
fn family_accepts_label_values_of_the_schema_length() {
    let (h, _registry) = family("accepting");
    assert!(h.accepts(&["f"]));
    assert!(h.accepts(&["g"]));
    assert!(!h.accepts(&[]));
    assert!(!h.accepts(&["f", "g"]));
}
