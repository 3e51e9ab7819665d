use fingerprint_entropy::{
    canonical_bytes, generate_fingerprint, measure_contention_pair, reduce_trials, set_panic_hook,
    sha256_hex, to_hex_bytes, workload_registry, ContentionResult, MeasureConfig,
    PortContentionFingerprint, WorkloadPair,
};

#[test]
fn the_registry_lists_the_five_pairs_in_order() {
    set_panic_hook();
    let registry = workload_registry();
    assert_eq!(
        registry,
        vec![
            WorkloadPair::MulAdd,
            WorkloadPair::DivMul,
            WorkloadPair::ShiftXor,
            WorkloadPair::BranchStress,
            WorkloadPair::MemoryFence,
        ]
    );
}

fn result(name: &str, grouped: u64, interleaved: u64, ratio: u64) -> ContentionResult {
    ContentionResult {
        instruction_pair: name.to_string(),
        grouped_time: grouped,
        interleaved_time: interleaved,
        ratio_rho: ratio,
    }
}

#[test]
fn hex_encoding_is_exact() {
    let bytes = vec![0x00u8, 0x0f, 0xa5, 0xff];
    assert_eq!(to_hex_bytes(&bytes), b"000fa5ff".to_vec());
}

#[test]
fn sha256_of_empty_input_matches_known_digest() {
    // the well-known SHA-256 of the empty message; fails if the digest
    // primitive returned anything but the real hash of its input
    let empty: Vec<u8> = Vec::new();
    assert_eq!(
        sha256_hex(&empty),
        "e3b0c44298fc1c149afbf4c8996fb92427ae41e4649b934ca495991b7852b855"
    );
}

#[test]
fn sha256_of_known_input_matches_known_digest() {
    let abc = vec![b'a', b'b', b'c'];
    assert_eq!(
        sha256_hex(&abc),
        "ba7816bf8f01cfea414140de5dae2223b00361a396177a9cb410ff61f20015ad"
    );
}

#[test]
fn canonical_string_has_the_documented_shape() {
    let results = vec![result("mul_add", 100, 120, 12000)];
    let canonical = canonical_bytes(&results);
    assert_eq!(
        canonical,
        b"mul_add:high_parallelism:1.2000|norm_mul_add:1.00:1.20|".to_vec()
    );
}

#[test]
fn canonical_string_normalizes_by_the_least_time() {
    let results = vec![
        result("mul_add", 200, 220, 11000),
        result("div_mul", 100, 300, 30000),
    ];
    let canonical = canonical_bytes(&results);
    let expected = b"mul_add:no_contention:1.1000|div_mul:high_parallelism:3.0000|norm_mul_add:2.00:2.20|norm_div_mul:1.00:3.00|".to_vec();
    assert_eq!(canonical, expected);
}

#[test]
fn fingerprint_is_deterministic() {
    // identical measurement sequences digest to identical strings
    let results = vec![
        result("mul_add", 150, 180, 12000),
        result("div_mul", 90, 80, 8888),
    ];
    let fp1 = generate_fingerprint(&results);
    let fp2 = generate_fingerprint(&results);
    assert_eq!(fp1, fp2);
    assert_eq!(fp1.len(), 64);
    assert!(fp1.bytes().all(|b| b.is_ascii_hexdigit()));
}

#[test]
fn fingerprint_changes_with_the_measurements() {
    let a = vec![result("mul_add", 150, 180, 12000)];
    let b = vec![result("mul_add", 150, 180, 12001)];
    assert_ne!(generate_fingerprint(&a), generate_fingerprint(&b));
}

#[test]
fn reduce_trials_takes_medians_and_forms_the_ratio() {
    let grouped = vec![3u64, 1, 2];
    let interleaved = vec![4u64, 1, 3, 2];
    let r = reduce_trials("mul_add", &grouped, &interleaved);
    assert_eq!(r.instruction_pair, "mul_add");
    assert_eq!(r.grouped_time, 4); // twice the median 2
    assert_eq!(r.interleaved_time, 5); // twice the median 2.5
    assert_eq!(r.ratio_rho, 5 * 10000 / 4);
}

#[test]
fn reduce_trials_guards_a_zero_denominator() {
    let grouped = vec![0u64, 0, 0];
    let interleaved = vec![5u64, 5, 5];
    let r = reduce_trials("div_mul", &grouped, &interleaved);
    assert_eq!(r.grouped_time, 0);
    assert_eq!(r.ratio_rho, 10000); // defined fallback: exactly 1.0
}

#[test]
fn measure_contention_pair_reports_consistent_fields() {
    let config = MeasureConfig {
        iterations: 2000,
        trials: 3,
        warmup_rounds: 100,
    };
    let r = measure_contention_pair(WorkloadPair::ShiftXor, &config);
    assert_eq!(r.instruction_pair, "shift_xor");
    let expected = if r.grouped_time == 0 {
        10000
    } else {
        ((r.interleaved_time as u128) * 10000 / (r.grouped_time as u128)).min(u64::MAX as u128)
            as u64
    };
    assert_eq!(r.ratio_rho, expected);
}

#[test]
fn collect_detailed_measures_the_whole_registry() {
    let config = MeasureConfig {
        iterations: 2000,
        trials: 3,
        warmup_rounds: 100,
    };
    let results = PortContentionFingerprint::collect_detailed_with(&config)
        .expect("warm-up cannot collapse");
    assert_eq!(results.len(), 5);
    let names: Vec<&str> = results.iter().map(|r| r.instruction_pair.as_str()).collect();
    assert_eq!(
        names,
        vec!["mul_add", "div_mul", "shift_xor", "branch_stress", "memory_fence"]
    );
}

#[test]
fn production_collection_yields_a_hex_fingerprint() {
    let fp = fingerprint_entropy::get_port_contention_fingerprint()
        .expect("warm-up cannot collapse");
    assert_eq!(fp.len(), 64);
    assert!(fp.bytes().all(|b| b.is_ascii_hexdigit()));
}

#[test]
fn collect_yields_a_hex_fingerprint() {
    let config = MeasureConfig {
        iterations: 2000,
        trials: 3,
        warmup_rounds: 100,
    };
    let fp = PortContentionFingerprint::collect_with(&config).expect("warm-up cannot collapse");
    assert_eq!(fp.len(), 64);
    assert!(fp.bytes().all(|b| b.is_ascii_hexdigit()));
}
