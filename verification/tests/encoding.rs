//! Tests of the telemetry encoder: line format, numeric rendering, URL and
//! header building, and status classification.

use sensilo::aggregator::Measurements;
use sensilo::telemetry::{
    authorization_value, encode_payload, is_success_status, write_url, DIAGNOSTIC_BUFFER_LEN,
    SUCCESS_STATUS,
};
use sensilo::textfmt::decimal_string;

fn snapshot(
    temperature: Option<i32>,
    humidity: Option<i32>,
    illuminance: Option<u32>,
    co2eq: Option<u16>,
    tvoc: Option<u16>,
) -> Measurements {
    let mut m = Measurements::new();
    m.temperature_millicelsius = temperature;
    m.humidity_millipercent = humidity;
    m.illuminance_millilux = illuminance;
    m.co2eq_ppm = co2eq;
    m.tvoc_ppb = tvoc;
    m
}

#[test]
fn payload_example_snapshot() {
    // temperature 21.5 degrees, humidity absent, illuminance 123.4 lux,
    // 450 ppm CO2 equivalent, 12 ppb TVOC
    let m = snapshot(Some(21_500), None, Some(123_400), Some(450), Some(12));
    let payload = encode_payload(&m, "N", "1.0");
    let lines: Vec<&str> = payload.lines().collect();
    assert_eq!(lines.len(), 4);
    assert_eq!(lines[0], "temperature,name=N,fw_version=1.0 celsius=21.50");
    assert_eq!(lines[1], "illumination,name=N,fw_version=1.0 lux=123.40");
    assert_eq!(lines[2], "co2,sensor_type=mox,name=N,fw_version=1.0 ppm=450u");
    assert_eq!(lines[3], "tvoc,name=N,fw_version=1.0 ppb=12u");
    assert!(!payload.contains("humidity"));
    assert!(!payload.ends_with('\n'));
}

#[test]
fn payload_all_present() {
    let m = snapshot(Some(21_500), Some(55_250), Some(1_000), Some(400), Some(0));
    let payload = encode_payload(&m, "node-1", "2.3.4");
    assert_eq!(
        payload,
        "temperature,name=node-1,fw_version=2.3.4 celsius=21.50\n\
         humidity,name=node-1,fw_version=2.3.4 percent=55.25\n\
         illumination,name=node-1,fw_version=2.3.4 lux=1.00\n\
         co2,sensor_type=mox,name=node-1,fw_version=2.3.4 ppm=400u\n\
         tvoc,name=node-1,fw_version=2.3.4 ppb=0u"
    );
}

#[test]
fn payload_empty_snapshot() {
    let m = Measurements::new();
    let payload = encode_payload(&m, "N", "1.0");
    assert_eq!(payload, "");
}

#[test]
fn payload_single_line_has_no_newline() {
    let m = snapshot(None, None, None, Some(450), None);
    let payload = encode_payload(&m, "N", "1.0");
    assert_eq!(payload, "co2,sensor_type=mox,name=N,fw_version=1.0 ppm=450u");
}

#[test]
fn fixed_point_rendering() {
    let cases: &[(i32, &str)] = &[
        (21_500, "21.50"),
        (21_505, "21.51"),
        (21_504, "21.50"),
        (-5_125, "-5.13"),
        (-5_124, "-5.12"),
        (0, "0.00"),
        (999, "1.00"),
        (-45_000, "-45.00"),
        (9, "0.01"),
        (-4, "-0.00"),
    ];
    for &(milli, expected) in cases {
        let m = snapshot(Some(milli), None, None, None, None);
        let payload = encode_payload(&m, "N", "1.0");
        let value = payload.rsplit('=').next().unwrap();
        assert_eq!(value, expected, "milli-value {milli}");
    }
}

#[test]
fn count_rendering_bounds() {
    let m = snapshot(None, None, None, Some(u16::MAX), Some(1));
    let payload = encode_payload(&m, "N", "1.0");
    assert!(payload.contains("ppm=65535u"));
    assert!(payload.contains("ppb=1u"));
}

#[test]
fn decimal_string_values() {
    assert_eq!(decimal_string(0), "0");
    assert_eq!(decimal_string(7), "7");
    assert_eq!(decimal_string(10), "10");
    assert_eq!(decimal_string(204), "204");
    assert_eq!(decimal_string(u64::MAX), "18446744073709551615");
}

#[test]
fn content_length_matches_payload_bytes() {
    let m = snapshot(Some(21_500), None, Some(123_400), Some(450), Some(12));
    let payload = encode_payload(&m, "N", "1.0");
    let header = decimal_string(payload.len() as u64);
    assert_eq!(header, payload.as_bytes().len().to_string());
}

#[test]
fn write_url_trims_trailing_slashes() {
    assert_eq!(
        write_url("https://example.net/", "org1", "bucket1"),
        "https://example.net/api/v2/write?org=org1&bucket=bucket1"
    );
    assert_eq!(
        write_url("https://example.net///", "o", "b"),
        "https://example.net/api/v2/write?org=o&bucket=b"
    );
    assert_eq!(
        write_url("https://example.net", "o", "b"),
        "https://example.net/api/v2/write?org=o&bucket=b"
    );
}

#[test]
fn authorization_header_value() {
    assert_eq!(authorization_value("secret-token"), "Token secret-token");
    assert_eq!(authorization_value(""), "Token ");
}

#[test]
fn exactly_one_status_is_success() {
    assert_eq!(SUCCESS_STATUS, 204);
    assert!(is_success_status(204));
    assert!(!is_success_status(500));
    assert!(!is_success_status(401));
    assert!(!is_success_status(200));
    assert!(!is_success_status(0));
    for status in 0..=u16::MAX {
        assert_eq!(is_success_status(status), status == 204);
    }
}

#[test]
fn failure_diagnostic_is_bounded() {
    // the diagnostic path keeps at most this many body bytes; the rest is
    // drained unread
    assert_eq!(DIAGNOSTIC_BUFFER_LEN, 1024);
    let body = vec![b'x'; 4096];
    let kept = &body[..DIAGNOSTIC_BUFFER_LEN.min(body.len())];
    assert_eq!(kept.len(), 1024);
}

#[test]
fn write_url_handles_multibyte_host() {
    assert_eq!(
        write_url("https://exämple.net/", "o", "b"),
        "https://exämple.net/api/v2/write?org=o&bucket=b"
    );
    assert_eq!(write_url("", "o", "b"), "/api/v2/write?org=o&bucket=b");
    assert_eq!(write_url("///", "o", "b"), "/api/v2/write?org=o&bucket=b");
}

#[test]
fn payload_with_empty_tags() {
    let mut m = Measurements::new();
    m.co2eq_ppm = Some(1);
    let payload = encode_payload(&m, "", "");
    assert_eq!(payload, "co2,sensor_type=mox,name=,fw_version= ppm=1u");
}
