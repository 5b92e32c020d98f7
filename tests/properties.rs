use ripping::checksum::calculate_icmp_checksum;
use ripping::packet::{build_icmpv4_packet, build_icmpv6_packet, validate_icmpv4_reply, validate_icmpv6_reply, IpFamily};
use ripping::probe::{probe_result, progress_marker, ProbeRun, ReceiveOutcome};
use ripping::resolve::IpAddress;
use ripping::summary::{average, PingResult};

fn result(dropped: bool, latency_ms: u64) -> PingResult {
    PingResult { dropped, latency_ms }
}

#[test]
fn checksum_of_echo_header() {
    assert_eq!(calculate_icmp_checksum(&[8, 0, 0, 0, 0, 1, 0, 1]), 0xf7fd);
}

#[test]
fn checksum_of_empty_buffer() {
    assert_eq!(calculate_icmp_checksum(&[]), 0xffff);
}

#[test]
fn checksum_pads_odd_length() {
    assert_eq!(calculate_icmp_checksum(&[0x01]), 0xfeff);
    assert_eq!(calculate_icmp_checksum(&[0x01, 0x02, 0x03]), 0xfbfd);
}

#[test]
fn checksum_folds_carries() {
    assert_eq!(calculate_icmp_checksum(&[0xff, 0xff, 0x00, 0x02]), 0xfffd);
    assert_eq!(calculate_icmp_checksum(&[0xff, 0xff, 0xff, 0xff]), 0);
}

#[test]
fn checksum_of_long_buffer() {
    let buffer = vec![0xffu8; 200_001];
    // 100_000 words of 0xffff and a last word of 0xff00
    assert_eq!(calculate_icmp_checksum(&buffer), 0x00ff);
}

#[test]
fn built_ipv4_packets_checksum_to_zero() {
    for size in [0u64, 1, 7, 56, 57, 1000, 1501] {
        let packet = build_icmpv4_packet(size);
        assert_eq!(calculate_icmp_checksum(&packet), 0);
    }
}

#[test]
fn ipv4_packet_without_payload() {
    let packet = build_icmpv4_packet(0);
    assert_eq!(packet, vec![8, 0, 0xf7, 0xfd, 0, 1, 0, 1]);
}

#[test]
fn ipv6_packet_without_payload() {
    let packet = build_icmpv6_packet(0);
    assert_eq!(packet, vec![128, 0, 0, 0, 0, 1, 0, 1]);
}

#[test]
fn payload_pattern_wraps_at_256() {
    let packet = build_icmpv4_packet(300);
    assert_eq!(packet.len(), 308);
    assert_eq!(packet[255], 255);
    assert_eq!(packet[256], 0);
    assert_eq!(packet[307], 51);
    let packet = build_icmpv6_packet(300);
    assert_eq!(packet.len(), 308);
    assert_eq!(packet[256], 0);
    assert_eq!(packet[300], 44);
}

#[test]
fn family_selects_packet_format() {
    assert_eq!(IpFamily::V4.build_packet(56), build_icmpv4_packet(56));
    assert_eq!(IpFamily::V6.build_packet(56), build_icmpv6_packet(56));
    assert_eq!(IpFamily::V4.build_packet(56)[0], 8);
    assert_eq!(IpFamily::V6.build_packet(56)[0], 128);
}

#[test]
fn ipv4_reply_length_boundary() {
    let buffer = vec![0u8; 64];
    assert!(!validate_icmpv4_reply(&buffer, 27));
    assert!(validate_icmpv4_reply(&buffer, 28));
    assert!(!validate_icmpv4_reply(&buffer, 0));
}

#[test]
fn ipv6_reply_length_boundary() {
    let mut buffer = vec![0u8; 8];
    buffer[0] = 129;
    assert!(!validate_icmpv6_reply(&buffer, 7));
    assert!(validate_icmpv6_reply(&buffer, 8));
}

#[test]
fn reply_type_must_match_family() {
    let mut v4 = vec![0u8; 28];
    v4[0] = 0x45;
    assert!(IpFamily::V4.validate_reply(&v4, 28));
    assert!(!IpFamily::V6.validate_reply(&v4, 28));
    let mut v6 = vec![0u8; 28];
    v6[0] = 129;
    v6[20] = 3;
    assert!(IpFamily::V6.validate_reply(&v6, 28));
    assert!(!IpFamily::V4.validate_reply(&v6, 28));
}

#[test]
fn send_failure_is_a_drop_of_the_whole_timeout() {
    let r = probe_result(IpFamily::V4, &ReceiveOutcome::SendFailed, 3, 5000);
    assert_eq!(r, result(true, 5000));
}

#[test]
fn missing_reply_records_time_waited() {
    let r = probe_result(IpFamily::V6, &ReceiveOutcome::NoReply, 5002, 5000);
    assert_eq!(r, result(true, 5002));
}

#[test]
fn valid_reply_is_a_success() {
    let outcome = ReceiveOutcome::Received {
        buffer: vec![0u8; 1024],
        bytes_received: 84,
    };
    assert_eq!(probe_result(IpFamily::V4, &outcome, 12, 5000), result(false, 12));
}

#[test]
fn invalid_reply_is_a_drop_with_latency() {
    let mut buffer = vec![0u8; 1024];
    buffer[0] = 1;
    let outcome = ReceiveOutcome::Received {
        buffer,
        bytes_received: 64,
    };
    assert_eq!(probe_result(IpFamily::V6, &outcome, 7, 5000), result(true, 7));
}

#[test]
fn progress_markers() {
    assert_eq!(progress_marker(&result(false, 10)), '!');
    assert_eq!(progress_marker(&result(true, 10)), '.');
}

#[test]
fn summary_of_one_zero_latency_drop() {
    let summary = average(&vec![result(true, 0)]);
    assert_eq!(summary.total, 1);
    assert_eq!(summary.succeeded, 0);
    assert_eq!(summary.failed, 1);
    assert_eq!(summary.min_latency, 0);
    assert_eq!(summary.max_latency, 0);
    assert_eq!(summary.average_latency, 0);
}

#[test]
fn summary_minimum_ignores_zero_latencies() {
    let summary = average(&vec![result(true, 0), result(false, 50), result(false, 20)]);
    assert_eq!(summary.min_latency, 20);
    assert_eq!(summary.max_latency, 50);
    assert_eq!(summary.average_latency, 23);
    assert_eq!(summary.succeeded, 2);
    assert_eq!(summary.failed, 1);
    assert_eq!(summary.total, summary.succeeded + summary.failed);
}

#[test]
fn summary_average_does_not_overflow() {
    let summary = average(&vec![result(false, u64::MAX), result(false, u64::MAX - 2)]);
    assert_eq!(summary.average_latency, u64::MAX - 1);
    assert_eq!(summary.max_latency, u64::MAX);
    assert_eq!(summary.min_latency, u64::MAX - 2);
}

#[test]
fn probe_run_records_in_order_and_summarises() {
    let target = IpAddress::V6(1);
    let mut run = ProbeRun::new(target, 3);
    assert_eq!(run.target(), target);
    assert_eq!(run.family(), IpFamily::V6);
    assert!(!run.is_finished());
    run.record(result(false, 100));
    run.record(result(true, 300));
    assert!(!run.is_finished());
    run.record(result(false, 50));
    assert!(run.is_finished());
    assert_eq!(
        run.results(),
        &vec![result(false, 100), result(true, 300), result(false, 50)]
    );
    let summary = run.summary();
    assert_eq!(summary.total, 3);
    assert_eq!(summary.succeeded, 2);
    assert_eq!(summary.failed, 1);
    assert_eq!(summary.max_latency, 300);
    assert_eq!(summary.min_latency, 50);
    assert_eq!(summary.average_latency, 150);
}
