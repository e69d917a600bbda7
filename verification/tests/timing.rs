use arcstr_benchmark::bench::{clone_workload, generate_source, BenchStr};
use arcstr_benchmark::cli::StrType;
use std::time::Instant;

/// Wall-clock nanoseconds one workload takes at the given length and clone
/// count, minimum over a few repeats to damp scheduler noise.
fn measure(str_type: StrType, string_len: usize, clone_ct: usize) -> u128 {
    let mut rng = rand::thread_rng();
    let mut best = u128::MAX;
    for _ in 0..3 {
        let source = generate_source(&mut rng, string_len);
        let start = Instant::now();
        let wrapped = BenchStr::wrap(source, str_type);
        let checks = clone_workload(&wrapped, clone_ct);
        let elapsed = start.elapsed().as_nanos();
        assert_eq!(checks, clone_ct);
        if elapsed < best {
            best = elapsed;
        }
    }
    best
}

#[test]
fn more_clones_never_take_less_time() {
    // Monotonicity in the clone count, with a gap wide enough (none versus
    // tens of thousands of deep copies) that scheduler noise cannot flip it.
    let few = measure(StrType::OwnedString, 100_000, 0);
    let many = measure(StrType::OwnedString, 100_000, 20_000);
    assert!(many >= few, "cloning 20000 times took {many}ns, cloning 0 times took {few}ns");
}

#[test]
fn owned_cost_grows_with_length_while_shared_stays_flat() {
    let clone_ct = 10_000;
    let owned_small = measure(StrType::OwnedString, 16, clone_ct);
    let owned_big = measure(StrType::OwnedString, 200_000, clone_ct);
    let shared_small = measure(StrType::ArcStr, 16, clone_ct);
    let shared_big = measure(StrType::ArcStr, 200_000, clone_ct);
    // Deep-copying a 200000-character string 10000 times dwarfs doing the
    // same with 16 characters.
    assert!(
        owned_big > owned_small,
        "owned: big {owned_big}ns, small {owned_small}ns"
    );
    // A reference-count bump costs the same whatever the length; allow a
    // generous noise factor plus absolute slack.
    assert!(
        shared_big < shared_small * 20 + 100_000_000,
        "shared: big {shared_big}ns, small {shared_small}ns"
    );
    // At the large length the shared representation is far cheaper than the
    // deep copy.
    assert!(
        shared_big < owned_big,
        "at length 200000: shared {shared_big}ns, owned {owned_big}ns"
    );
}
