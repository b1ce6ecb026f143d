use rusthttp2::chunk::{ChunkSource, CHUNK_SIZE};
use rusthttp2::generator::Generator;
use rusthttp2::handler::{
    format_size, handle_get, handle_put, parse_size, plan_request, upload_response, GetResponse,
    Method, RequestPlan, STATUS_BAD_REQUEST, STATUS_NO_CONTENT, STATUS_OK,
};
use rusthttp2::measure::{
    compute_throughput, download_result, loopback_transfer, upload_result, MeasureError,
};
use rusthttp2::sink::Sink;
use rusthttp2::tuner::{TransportConfig, MAX_FRAME_SIZE};

fn drain_generator(mut g: Generator, src: &ChunkSource) -> (Vec<usize>, u64, bool) {
    let mut lens = Vec::new();
    let mut total: u64 = 0;
    let mut all_zero = true;
    while let Some(chunk) = g.next(src) {
        lens.push(chunk.len());
        total += chunk.len() as u64;
        if !chunk.iter().all(|b| *b == 0) {
            all_zero = false;
        }
    }
    (lens, total, all_zero)
}

#[test]
fn chunk_source_caps_at_chunk_size() {
    let src = ChunkSource::new();
    let small = src.next(5);
    assert_eq!(small.len(), 5);
    assert!(small.iter().all(|b| *b == 0));
    let large = src.next(CHUNK_SIZE as u64 + 10);
    assert_eq!(large.len(), CHUNK_SIZE);
    let exact = src.next(CHUNK_SIZE as u64);
    assert_eq!(exact.len(), CHUNK_SIZE);
}

#[test]
fn generator_chunk_lengths_sum_exactly() {
    let src = ChunkSource::new();
    let requested = 2 * CHUNK_SIZE as u64 + 100;
    let (lens, total, all_zero) = drain_generator(Generator::new(requested), &src);
    assert_eq!(total, requested);
    assert!(all_zero);
    assert!(lens.iter().all(|l| *l <= CHUNK_SIZE));
    assert_eq!(lens, vec![CHUNK_SIZE, CHUNK_SIZE, 100]);
}

#[test]
fn generator_final_chunk_is_full_on_exact_multiple() {
    let src = ChunkSource::new();
    let requested = 3 * CHUNK_SIZE as u64;
    let (lens, total, all_zero) = drain_generator(Generator::new(requested), &src);
    assert_eq!(total, requested);
    assert!(all_zero);
    assert_eq!(lens, vec![CHUNK_SIZE, CHUNK_SIZE, CHUNK_SIZE]);
}

#[test]
fn generator_does_not_restart() {
    let src = ChunkSource::new();
    let mut g = Generator::new(10);
    assert!(g.next(&src).is_some());
    assert!(g.next(&src).is_none());
    assert!(g.next(&src).is_none());
}

#[test]
fn download_4096_scenario() {
    let plan = plan_request(Method::Get, "4096");
    assert_eq!(plan, RequestPlan::Download { size: 4096 });
    let src = ChunkSource::new();
    match handle_get(4096) {
        GetResponse::Stream { content_length, body } => {
            assert_eq!(content_length, 4096);
            let (lens, total, all_zero) = drain_generator(body, &src);
            assert_eq!(total, 4096);
            assert!(all_zero);
            assert_eq!(lens, vec![4096]);
        }
        GetResponse::BadRequest => panic!("valid download rejected"),
    }
    assert_eq!(STATUS_OK, 200);
}

#[test]
fn upload_4096_scenario() {
    let plan = plan_request(Method::Put, "4096");
    assert_eq!(plan, RequestPlan::Upload { size: 4096 });
    let mut sink = handle_put(4096).expect("valid upload rejected");
    let chunk = bytes::Bytes::from(vec![0u8; 1024]);
    let mut done = false;
    for _ in 0..4 {
        assert!(!done);
        done = sink.consume(&chunk);
    }
    assert!(done);
    assert_eq!(upload_response(&sink), Some(STATUS_NO_CONTENT));
    assert_eq!(STATUS_NO_CONTENT, 204);
}

#[test]
fn short_upload_never_succeeds() {
    let mut sink = handle_put(4096).expect("valid upload rejected");
    let chunk = bytes::Bytes::from(vec![0u8; 2048]);
    let done = sink.consume(&chunk);
    assert!(!done);
    assert_eq!(upload_response(&sink), None);
}

#[test]
fn upload_one_byte_short_never_succeeds() {
    let n: u64 = 4096;
    let mut sink = Sink::new(n);
    let chunk = bytes::Bytes::from(vec![0u8; (n - 1) as usize]);
    assert!(!sink.consume(&chunk));
    assert_eq!(upload_response(&sink), None);
    let last = bytes::Bytes::from(vec![0u8; 1]);
    assert!(sink.consume(&last));
    assert_eq!(upload_response(&sink), Some(204));
}

#[test]
fn upload_overshoot_completes() {
    let mut sink = Sink::new(100);
    let chunk = bytes::Bytes::from(vec![0u8; 150]);
    assert!(sink.consume(&chunk));
    assert_eq!(sink.received, 150);
    assert_eq!(upload_response(&sink), Some(204));
}

#[test]
fn zero_size_rejected_both_directions() {
    assert_eq!(plan_request(Method::Get, "0"), RequestPlan::Download { size: 0 });
    assert_eq!(plan_request(Method::Put, "0"), RequestPlan::Upload { size: 0 });
    assert!(matches!(handle_get(0), GetResponse::BadRequest));
    assert!(handle_put(0).is_none());
    assert_eq!(STATUS_BAD_REQUEST, 400);
}

#[test]
fn parse_size_accepts_exact_decimal() {
    assert_eq!(parse_size("4096"), Some(4096));
    assert_eq!(parse_size("1"), Some(1));
    assert_eq!(parse_size("007"), Some(7));
    assert_eq!(parse_size("1073741824"), Some(1 << 30));
    assert_eq!(parse_size("18446744073709551615"), Some(u64::MAX));
}

#[test]
fn parse_size_rejects_bad_segments() {
    assert_eq!(parse_size(""), None);
    assert_eq!(parse_size("abc"), None);
    assert_eq!(parse_size("12a"), None);
    assert_eq!(parse_size("-1"), None);
    assert_eq!(parse_size("+1"), None);
    assert_eq!(parse_size(" 1"), None);
    assert_eq!(parse_size("18446744073709551616"), None);
    assert_eq!(parse_size("99999999999999999999999"), None);
}

#[test]
fn format_size_exact_decimal() {
    assert_eq!(format_size(0), "0");
    assert_eq!(format_size(7), "7");
    assert_eq!(format_size(10), "10");
    assert_eq!(format_size(4096), "4096");
    assert_eq!(format_size(u64::MAX), "18446744073709551615");
}

#[test]
fn format_size_round_trips_through_parse() {
    for n in [0u64, 1, 9, 10, 99, 4096, 1 << 30, u64::MAX] {
        assert_eq!(parse_size(&format_size(n)), Some(n));
    }
}

#[test]
fn unparseable_target_is_rejected() {
    assert_eq!(plan_request(Method::Get, "abc"), RequestPlan::Reject);
    assert_eq!(plan_request(Method::Put, ""), RequestPlan::Reject);
}

#[test]
fn throughput_exact_values() {
    // 1 MB in one second: 8 million bits per second.
    assert_eq!(compute_throughput(1_000_000, 1_000_000_000), 8_000_000);
    // 4096 bytes in one nanosecond.
    assert_eq!(compute_throughput(4096, 1), 4096u128 * 8 * 1_000_000_000);
    // Rounds down.
    assert_eq!(compute_throughput(1000, 3), 8_000_000_000_000u128 / 3);
}

#[test]
fn throughput_halves_when_elapsed_doubles() {
    let t1 = compute_throughput(1000, 3);
    let t2 = compute_throughput(1000, 6);
    assert_eq!(t2, t1 / 2);
    let t3 = compute_throughput(123456789, 997);
    let t4 = compute_throughput(123456789, 1994);
    assert_eq!(t4, t3 / 2);
}

#[test]
fn loopback_round_trip_is_exact() {
    let src = ChunkSource::new();
    assert_eq!(loopback_transfer(1, &src), 1);
    assert_eq!(loopback_transfer(4096, &src), 4096);
    let n = 10 * CHUNK_SIZE as u64 + 17;
    assert_eq!(loopback_transfer(n, &src), n);
}

#[test]
fn download_result_reports_failures() {
    match download_result(404, true, 0, 1) {
        Err(MeasureError::BadStatus { status }) => assert_eq!(status, 404),
        _ => panic!("expected a status error"),
    }
    assert_eq!(download_result(200, false, 100, 1), Err(MeasureError::StreamError));
    let ok = download_result(200, true, 4096, 1_000_000_000).expect("success expected");
    assert_eq!(ok.total_bytes, 4096);
    assert_eq!(ok.elapsed_nanos, 1_000_000_000);
    assert_eq!(ok.throughput_bits_per_sec, 4096 * 8);
}

#[test]
fn upload_result_reports_failures() {
    match upload_result(4096, 400, 1) {
        Err(MeasureError::BadStatus { status }) => assert_eq!(status, 400),
        _ => panic!("expected a status error"),
    }
    let ok = upload_result(4096, 204, 1_000_000_000).expect("success expected");
    assert_eq!(ok.total_bytes, 4096);
    assert_eq!(ok.throughput_bits_per_sec, 4096 * 8);
}

#[test]
fn transport_config_rejects_zero_only() {
    assert!(TransportConfig::new(0, 1, 1).is_none());
    assert!(TransportConfig::new(1, 0, 1).is_none());
    assert!(TransportConfig::new(1, 1, 0).is_none());
    let c = TransportConfig::new(7, 9, 11).expect("nonzero knobs rejected");
    assert_eq!(c.initial_stream_window, 7);
    assert_eq!(c.initial_connection_window, 9);
    assert_eq!(c.max_frame_size, 11);
}

#[test]
fn tuned_transport_config_values() {
    let c = TransportConfig::tuned();
    assert_eq!(c.initial_stream_window, 1 << 30);
    assert_eq!(c.initial_connection_window, 1 << 30);
    assert_eq!(c.max_frame_size, (1 << 24) - 1);
    assert_eq!(c.max_frame_size, MAX_FRAME_SIZE);
}
