use arcstr_benchmark::bench::{clone_workload, generate_source, task_handles, BenchStr};
use arcstr_benchmark::cli::{Cli, StrType};

#[test]
fn workload_zero_clones_performs_no_checks() {
    let owned = BenchStr::wrap(String::from("abcdef"), StrType::OwnedString);
    assert_eq!(clone_workload(&owned, 0), 0);
    let shared = BenchStr::wrap(String::from("abcdef"), StrType::ArcStr);
    assert_eq!(clone_workload(&shared, 0), 0);
}

#[test]
fn workload_performs_one_check_per_clone() {
    let owned = BenchStr::wrap(String::from("hello world"), StrType::OwnedString);
    assert_eq!(clone_workload(&owned, 50), 50);
    let shared = BenchStr::wrap(String::from("hello world"), StrType::ArcStr);
    assert_eq!(clone_workload(&shared, 50), 50);
}

#[test]
fn workload_accepts_empty_string() {
    let owned = BenchStr::wrap(String::new(), StrType::OwnedString);
    assert_eq!(clone_workload(&owned, 7), 7);
    let shared = BenchStr::wrap(String::new(), StrType::ArcStr);
    assert_eq!(clone_workload(&shared, 7), 7);
}

#[test]
fn zero_tasks_spawn_no_workloads() {
    let wrapped = BenchStr::wrap(String::from("source"), StrType::ArcStr);
    let handles = task_handles(&wrapped, 0);
    assert_eq!(handles.len(), 0);
}

#[test]
fn each_task_gets_a_handle_to_the_same_value() {
    let wrapped = BenchStr::wrap(String::from("shared-source"), StrType::ArcStr);
    let handles = task_handles(&wrapped, 4);
    assert_eq!(handles.len(), 4);
    for h in &handles {
        assert_eq!(h.contents().as_str(), "shared-source");
        assert!(h.value_eq(&wrapped));
    }
}

#[test]
fn duplicate_equals_source_across_representations() {
    let owned = BenchStr::wrap(String::from("same"), StrType::OwnedString);
    let shared = BenchStr::wrap(String::from("same"), StrType::ArcStr);
    assert!(owned.value_eq(&shared));
    assert!(owned.dup().value_eq(&owned));
    assert!(shared.dup().value_eq(&shared));
    let other = BenchStr::wrap(String::from("different"), StrType::OwnedString);
    assert!(!owned.value_eq(&other));
}

#[test]
fn generated_source_has_requested_length_and_charset() {
    let mut rng = rand::thread_rng();
    for len in [0usize, 1, 8, 128] {
        let s = generate_source(&mut rng, len);
        assert_eq!(s.chars().count(), len);
        assert!(s.chars().all(|c| c.is_ascii_alphanumeric()));
    }
}

#[test]
fn generated_sources_differ_between_trials() {
    let mut rng = rand::thread_rng();
    let a = generate_source(&mut rng, 64);
    let b = generate_source(&mut rng, 64);
    // 62^64 possibilities: a collision would mean the source is not random.
    assert_ne!(a, b);
}

#[test]
fn concurrent_fanout_joins_all_workloads() {
    let runtime = tokio::runtime::Builder::new_multi_thread()
        .worker_threads(4)
        .build()
        .unwrap();
    let mut rng = rand::thread_rng();
    for str_type in [StrType::OwnedString, StrType::ArcStr] {
        let source = generate_source(&mut rng, 32);
        let wrapped = BenchStr::wrap(source, str_type);
        let handles = task_handles(&wrapped, 8);
        let results = runtime.block_on(async move {
            let mut joins = Vec::new();
            for h in handles {
                joins.push(tokio::spawn(async move { clone_workload(&h, 100) }));
            }
            let mut out = Vec::new();
            for j in joins {
                out.push(j.await.unwrap());
            }
            out
        });
        assert_eq!(results, vec![100; 8]);
    }
}

#[test]
fn boundary_rejects_zero_trials_and_zero_clones() {
    let bad_trials = Cli::CsvReport {
        task_ct: 4,
        num_trials: 0,
        clone_ct: 100,
        csv_path: String::from("out.csv"),
    };
    assert!(!bad_trials.validate());
    let bad_clones = Cli::CsvReport {
        task_ct: 4,
        num_trials: 3,
        clone_ct: 0,
        csv_path: String::from("out.csv"),
    };
    assert!(!bad_clones.validate());
    let good = Cli::CsvReport {
        task_ct: 0,
        num_trials: 1,
        clone_ct: 1,
        csv_path: String::from("out.csv"),
    };
    assert!(good.validate());
    let single = Cli::Single {
        task_ct: 0,
        clone_ct: 0,
        string_len: 0,
        str_type: StrType::OwnedString,
    };
    assert!(single.validate());
}
