use fingerprint_entropy::{
    calculate_analysis, calculate_entropy_from_values, parse_record, parse_records,
    FingerprintRecord, LOG_SCALE,
};

fn record(id: &str, session: &str, ts: &str) -> FingerprintRecord {
    FingerprintRecord {
        id: id.to_string(),
        session_id: session.to_string(),
        server_timestamp: ts.to_string(),
        client_timestamp: None,
        canvas: None,
        webgl: None,
        port_contention: None,
    }
}

const TS: &str = "2024-01-02T03:04:05Z";

#[test]
fn uniform_corpus_entropy_is_log2_n() {
    // four distinct ids: entropy is exactly 2 bits, normalized exactly 1
    let records = vec![
        record("a", "s1", TS),
        record("b", "s2", TS),
        record("c", "s3", TS),
        record("d", "s4", TS),
    ];
    let r = calculate_analysis(&records);
    assert_eq!(r.total_entries, 4);
    assert_eq!(r.unique_fingerprints, 4);
    assert_eq!(r.unique_sessions, 4);
    assert_eq!(r.shannon_entropy, 2 * LOG_SCALE);
    assert_eq!(r.max_possible_entropy, 2 * LOG_SCALE);
    assert_eq!(r.normalized_entropy, LOG_SCALE);
    assert_eq!(r.shannon_entropy as f64 / LOG_SCALE as f64, 2.0);
    assert_eq!(r.normalized_entropy as f64 / LOG_SCALE as f64, 1.0);
    assert_eq!(r.uniqueness_rate_num, 4);
    assert_eq!(r.uniqueness_rate_den, 4);
}

#[test]
fn constant_corpus_entropy_is_zero() {
    // all records share one id: entropy 0, uniqueness rate 1/N
    let records = vec![
        record("same", "s1", TS),
        record("same", "s2", TS),
        record("same", "s3", TS),
        record("same", "s4", TS),
        record("same", "s5", TS),
    ];
    let r = calculate_analysis(&records);
    assert_eq!(r.shannon_entropy, 0);
    assert_eq!(r.shannon_entropy as f64, 0.0);
    assert_eq!(r.unique_fingerprints, 1);
    assert_eq!(r.uniqueness_rate_num, 1);
    assert_eq!(r.uniqueness_rate_den, 5);
    assert_eq!(
        r.uniqueness_rate_num as f64 / r.uniqueness_rate_den as f64,
        1.0 / 5.0
    );
}

#[test]
fn skewed_corpus_entropy_exact() {
    // counts [2,1,1] over 4 entries: H = log2(4) - (2*log2(2))/4 = 1.5 bits
    let records = vec![
        record("x", "s1", TS),
        record("x", "s2", TS),
        record("y", "s3", TS),
        record("z", "s4", TS),
    ];
    let r = calculate_analysis(&records);
    assert_eq!(r.shannon_entropy, 98304);
    assert_eq!(r.shannon_entropy as f64 / LOG_SCALE as f64, 1.5);
    assert_eq!(r.unique_fingerprints, 3);
}

#[test]
fn bounds_hold_on_mixed_corpus() {
    let records = vec![
        record("a", "s1", TS),
        record("a", "s1", TS),
        record("b", "s2", TS),
        record("c", "s2", TS),
        record("c", "s2", TS),
        record("c", "s3", TS),
        record("d", "s3", TS),
    ];
    let r = calculate_analysis(&records);
    assert!(r.normalized_entropy <= LOG_SCALE);
    assert!(r.uniqueness_rate_num <= r.uniqueness_rate_den);
    assert!(r.shannon_entropy <= r.max_possible_entropy);
    assert_eq!(r.unique_sessions, 3);
}

#[test]
fn empty_corpus_degenerates_to_zero() {
    let records: Vec<FingerprintRecord> = Vec::new();
    let r = calculate_analysis(&records);
    assert_eq!(r.total_entries, 0);
    assert_eq!(r.shannon_entropy, 0);
    assert_eq!(r.normalized_entropy, 0);
    assert_eq!(r.max_possible_entropy, 0);
    assert_eq!(r.uniqueness_rate_num, 0);
    assert_eq!(r.uniqueness_rate_den, 1);
    assert_eq!(r.temporal_distribution.len(), 0);
}

#[test]
fn single_record_has_zero_max_entropy() {
    let records = vec![record("only", "s1", TS)];
    let r = calculate_analysis(&records);
    assert_eq!(r.shannon_entropy, 0);
    assert_eq!(r.max_possible_entropy, 0);
    assert_eq!(r.normalized_entropy, 0);
    assert_eq!(r.uniqueness_rate_num, 1);
    assert_eq!(r.uniqueness_rate_den, 1);
}

#[test]
fn malformed_lines_are_skipped_not_fatal() {
    // 8 valid lines and 2 malformed ones: the analysis sees exactly 8
    let mut lines: Vec<String> = Vec::new();
    for i in 0..4 {
        lines.push(format!(
            "{{\"id\":\"fp{}\",\"sessionId\":\"s{}\",\"serverTimestamp\":\"2024-01-02T0{}:00:00Z\"}}",
            i, i, i
        ));
    }
    lines.push("this is not json".to_string());
    for i in 4..8 {
        lines.push(format!(
            "{{\"id\":\"fp{}\",\"sessionId\":\"s{}\",\"serverTimestamp\":\"2024-01-02T0{}:00:00Z\"}}",
            i, i, i
        ));
    }
    lines.push("{\"id\":42}".to_string());
    let (records, malformed) = parse_records(&lines);
    assert_eq!(records.len(), 8);
    assert_eq!(malformed, 2);
    // the valid lines survive in file order
    for i in 0..8 {
        assert_eq!(records[i].id, format!("fp{}", i));
    }
    let r = calculate_analysis(&records);
    assert_eq!(r.total_entries, 8);
    assert_eq!(r.shannon_entropy, 3 * LOG_SCALE);
}

#[test]
fn blank_lines_are_not_malformed() {
    let lines = vec![
        "".to_string(),
        "   ".to_string(),
        "{\"id\":\"a\",\"sessionId\":\"s\",\"serverTimestamp\":\"2024-01-02T03:04:05Z\"}"
            .to_string(),
        "\t".to_string(),
    ];
    let (records, malformed) = parse_records(&lines);
    assert_eq!(records.len(), 1);
    assert_eq!(malformed, 0);
}

#[test]
fn parse_record_extracts_components() {
    let line = "{\"id\":\"fp\",\"sessionId\":\"s\",\"serverTimestamp\":\"2024-01-02T03:04:05Z\",\"clientTimestamp\":\"2024-01-02T03:04:04Z\",\"data\":{\"sessionId\":\"s\",\"proposalA\":{\"canvas\":\"ch\",\"webgl\":\"wh\"},\"proposalB\":{\"portContention\":\"ph\"}}}";
    let rec = parse_record(line).expect("valid line");
    assert_eq!(rec.id, "fp");
    assert_eq!(rec.session_id, "s");
    assert_eq!(rec.canvas.as_deref(), Some("ch"));
    assert_eq!(rec.webgl.as_deref(), Some("wh"));
    assert_eq!(rec.port_contention.as_deref(), Some("ph"));
    assert_eq!(rec.client_timestamp.as_deref(), Some("2024-01-02T03:04:04Z"));
}

#[test]
fn parse_record_rejects_missing_fields() {
    assert!(parse_record("{\"id\":\"a\",\"sessionId\":\"s\"}").is_none());
    assert!(parse_record("{\"id\":\"a\",\"serverTimestamp\":\"2024-01-02T03:04:05Z\"}").is_none());
    assert!(parse_record("{\"sessionId\":\"s\",\"serverTimestamp\":\"2024-01-02T03:04:05Z\"}")
        .is_none());
    // timestamp too short to carry an hour bucket
    assert!(parse_record("{\"id\":\"a\",\"sessionId\":\"s\",\"serverTimestamp\":\"2024\"}")
        .is_none());
}

#[test]
fn component_entropy_uses_present_values_only() {
    let mut r1 = record("a", "s1", TS);
    r1.canvas = Some("c1".to_string());
    let mut r2 = record("b", "s2", TS);
    r2.canvas = Some("c2".to_string());
    let r3 = record("c", "s3", TS); // no canvas value
    let records = vec![r1, r2, r3];
    let analysis = calculate_analysis(&records);
    // two distinct canvas values over an effective sample of 2: 1 bit
    assert_eq!(analysis.component_analysis.canvas_entropy, LOG_SCALE);
    assert_eq!(analysis.component_analysis.webgl_entropy, 0);
    assert_eq!(analysis.component_analysis.audio_entropy, 0);
    assert_eq!(
        analysis.component_analysis.combined_entropy,
        analysis.shannon_entropy
    );
}

#[test]
fn values_entropy_of_uniform_pair() {
    let values = vec!["u".to_string(), "v".to_string()];
    assert_eq!(calculate_entropy_from_values(&values), LOG_SCALE);
}

#[test]
fn temporal_buckets_are_counted_and_sorted() {
    let records = vec![
        record("a", "s1", "2024-01-02T05:10:00Z"),
        record("b", "s2", "2024-01-02T03:20:00Z"),
        record("c", "s3", "2024-01-02T05:30:00Z"),
        record("d", "s4", "2024-01-02T04:40:00Z"),
        record("e", "s5", "2024-01-02T03:50:00Z"),
    ];
    let r = calculate_analysis(&records);
    let t = &r.temporal_distribution;
    assert_eq!(t.len(), 3);
    assert_eq!(t[0].timestamp, "2024-01-02T03");
    assert_eq!(t[0].count, 2);
    assert_eq!(t[1].timestamp, "2024-01-02T04");
    assert_eq!(t[1].count, 1);
    assert_eq!(t[2].timestamp, "2024-01-02T05");
    assert_eq!(t[2].count, 2);
}
