use fingerprint_entropy::{
    crypto_operations_benchmark, generate_wasm_fingerprint, grouped_execution_clz_and,
    grouped_execution_ctz_xor, grouped_execution_mul_add, grouped_execution_popcnt_or,
    grouped_execution_rotl_shl, interleaved_execution_clz_and, interleaved_execution_ctz_xor,
    interleaved_execution_mul_add, interleaved_execution_popcnt_or,
    interleaved_execution_rotl_shl, log2q, measure_wasm_port_contention,
    memory_access_benchmark, run_all_wasm_benchmarks, warmup, WasmPair, LOG_SCALE,
};

#[test]
fn hardware_benchmarks_run_and_report_a_time() {
    assert!(crypto_operations_benchmark().is_ok());
    assert!(memory_access_benchmark().is_ok());
}

#[test]
fn popcnt_or_chains_settle_to_known_values() {
    // grouped: the count-ones chain collapses to 1, then OR saturates it
    assert_eq!(grouped_execution_popcnt_or(10), 0xDEADBEEF);
    // interleaved: the chain alternates and settles on 0xDEADBEFF
    assert_eq!(interleaved_execution_popcnt_or(10), 0xDEADBEFF);
}

#[test]
fn chains_are_deterministic_in_the_iteration_count() {
    for iterations in [1u32, 7, 100] {
        assert_eq!(
            grouped_execution_clz_and(iterations),
            grouped_execution_clz_and(iterations)
        );
        assert_eq!(
            interleaved_execution_clz_and(iterations),
            interleaved_execution_clz_and(iterations)
        );
        assert_eq!(
            grouped_execution_ctz_xor(iterations),
            grouped_execution_ctz_xor(iterations)
        );
        assert_eq!(
            interleaved_execution_ctz_xor(iterations),
            interleaved_execution_ctz_xor(iterations)
        );
        assert_eq!(
            grouped_execution_rotl_shl(iterations),
            grouped_execution_rotl_shl(iterations)
        );
        assert_eq!(
            interleaved_execution_rotl_shl(iterations),
            interleaved_execution_rotl_shl(iterations)
        );
        assert_eq!(
            grouped_execution_mul_add(iterations),
            grouped_execution_mul_add(iterations)
        );
        assert_eq!(
            interleaved_execution_mul_add(iterations),
            interleaved_execution_mul_add(iterations)
        );
    }
}

#[test]
fn warmup_chain_does_not_collapse() {
    assert!(warmup(1000).is_ok());
    assert!(warmup(10).is_ok());
}

#[test]
fn measuring_one_instruction_pair_keeps_its_name() {
    let r = measure_wasm_port_contention(WasmPair::RotlShl, 2000);
    assert_eq!(r.instruction_pair, "rotl_shl");
    assert_eq!(r.iterations, 2000);
    let expected = if r.grouped_time == 0 {
        10000
    } else {
        ((r.interleaved_time as u128) * 10000 / (r.grouped_time as u128)).min(u64::MAX as u128)
            as u64
    };
    assert_eq!(r.ratio, expected);
}

#[test]
fn the_whole_suite_is_measured_in_order() {
    let rs = run_all_wasm_benchmarks();
    let names: Vec<&str> = rs.iter().map(|r| r.instruction_pair.as_str()).collect();
    assert_eq!(
        names,
        vec!["popcnt_or", "clz_and", "ctz_xor", "rotl_shl", "mul_add"]
    );
}

#[test]
fn suite_fingerprint_is_hex() {
    let fp = generate_wasm_fingerprint();
    assert_eq!(fp.len(), 64);
    assert!(fp.bytes().all(|b| b.is_ascii_hexdigit()));
}

#[test]
fn log2q_is_exact_on_powers_of_two() {
    assert_eq!(log2q(0), 0);
    assert_eq!(log2q(1), 0);
    assert_eq!(log2q(2), LOG_SCALE);
    assert_eq!(log2q(4), 2 * LOG_SCALE);
    assert_eq!(log2q(1024), 10 * LOG_SCALE);
    assert_eq!(log2q(1 << 40), 40 * LOG_SCALE);
}

#[test]
fn log2q_is_monotone_between_powers() {
    let three = log2q(3);
    assert!(LOG_SCALE < three && three < 2 * LOG_SCALE);
    // log2(3) is about 1.58496; sixteen fraction digits keep it within
    // one step of the scale
    let expected = (1.584962500721156 * LOG_SCALE as f64) as u64;
    assert!(three.abs_diff(expected) <= 1);
    let mut prev = 0u64;
    for n in 1u64..200 {
        let h = log2q(n);
        assert!(h >= prev);
        prev = h;
    }
}
