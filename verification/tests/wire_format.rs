use forgy::proto::{
    encode_i64_field, encode_varint, encode_write_request, label_payload, sample_payload,
    timeseries_payload,
};
use forgy::remote::{build_remote_write_body, remote_write_headers};
use forgy::snapshot::{
    create_base_labels, create_counter_timeseries, create_histogram_timeseries_simple,
    process_metric_families, BucketData, MetricData, MetricFamilyData, MetricValue,
    MetricsMessage,
};
use forgy::wire::{metric_type_value, Label, MetricType, Sample, TimeSeries, WriteRequest};

fn label(name: &str, value: &str) -> Label {
    Label { name: name.to_string(), value: value.to_string() }
}

fn varint_bytes(n: u64) -> Vec<u8> {
    let mut buf = Vec::new();
    encode_varint(&mut buf, n);
    buf
}

#[test]
fn varint_encoding() {
    assert_eq!(varint_bytes(0), vec![0]);
    assert_eq!(varint_bytes(1), vec![1]);
    assert_eq!(varint_bytes(127), vec![127]);
    assert_eq!(varint_bytes(128), vec![0x80, 0x01]);
    assert_eq!(varint_bytes(300), vec![0xac, 0x02]);
    assert_eq!(varint_bytes(u64::MAX), vec![0xff, 0xff, 0xff, 0xff, 0xff, 0xff, 0xff, 0xff, 0xff, 0x01]);
}

#[test]
fn varint_round_trips_through_prost() {
    for n in [0u64, 1, 127, 128, 300, 65535, 1 << 40, u64::MAX] {
        let bytes = varint_bytes(n);
        let mut slice: &[u8] = &bytes;
        let decoded = prost::encoding::decode_varint(&mut slice).unwrap();
        assert_eq!(decoded, n);
        assert!(slice.is_empty());
    }
}

#[test]
fn label_encoding_exact_bytes() {
    let l = label("__name__", "up");
    let bytes = label_payload(&l);
    let mut expected = vec![0x0a, 8];
    expected.extend_from_slice(b"__name__");
    expected.extend_from_slice(&[0x12, 2]);
    expected.extend_from_slice(b"up");
    assert_eq!(bytes, expected);
}

#[test]
fn empty_strings_are_omitted() {
    let l = label("", "");
    assert_eq!(label_payload(&l), Vec::<u8>::new());
}

#[test]
fn sample_encoding_exact_bytes() {
    let s = Sample { value_bits: 1.5f64.to_bits(), timestamp: 1000 };
    let bytes = sample_payload(&s);
    let mut expected = vec![0x09];
    expected.extend_from_slice(&1.5f64.to_le_bytes());
    expected.extend_from_slice(&[0x10, 0xe8, 0x07]);
    assert_eq!(bytes, expected);
}

#[test]
fn zero_sample_value_is_omitted() {
    let s = Sample { value_bits: 0.0f64.to_bits(), timestamp: 7 };
    assert_eq!(sample_payload(&s), vec![0x10, 7]);
    let neg = Sample { value_bits: (-0.0f64).to_bits(), timestamp: 7 };
    assert_eq!(sample_payload(&neg), vec![0x10, 7]);
}

#[test]
fn negative_timestamp_is_ten_byte_varint() {
    let mut buf = Vec::new();
    encode_i64_field(&mut buf, 2, -1);
    let mut expected = vec![0x10];
    expected.extend_from_slice(&[0xff, 0xff, 0xff, 0xff, 0xff, 0xff, 0xff, 0xff, 0xff, 0x01]);
    assert_eq!(buf, expected);
}

#[test]
fn timeseries_and_write_request_bytes() {
    let ts = TimeSeries {
        labels: vec![label("__name__", "up")],
        samples: vec![Sample { value_bits: 1.0f64.to_bits(), timestamp: 3 }],
        exemplars: Vec::new(),
        histograms: Vec::new(),
    };
    let ts_payload = timeseries_payload(&ts);

    // labels: element of 14 bytes, samples: element of 11 bytes.
    let mut expected = vec![0x0a, 14, 0x0a, 8];
    expected.extend_from_slice(b"__name__");
    expected.extend_from_slice(&[0x12, 2]);
    expected.extend_from_slice(b"up");
    expected.extend_from_slice(&[0x12, 11, 0x09]);
    expected.extend_from_slice(&1.0f64.to_le_bytes());
    expected.extend_from_slice(&[0x10, 3]);
    assert_eq!(ts_payload, expected);

    let wr = WriteRequest { timeseries: vec![ts], metadata: Vec::new() };
    let bytes = encode_write_request(&wr);
    let mut wr_expected = vec![0x0a, expected.len() as u8];
    wr_expected.extend_from_slice(&expected);
    assert_eq!(bytes, wr_expected);
}

#[test]
fn metric_type_values_follow_the_protocol() {
    assert_eq!(metric_type_value(MetricType::Unknown), 0);
    assert_eq!(metric_type_value(MetricType::Counter), 1);
    assert_eq!(metric_type_value(MetricType::Gauge), 2);
    assert_eq!(metric_type_value(MetricType::Histogram), 3);
    assert_eq!(metric_type_value(MetricType::Stateset), 7);
}

#[test]
fn compressed_body_round_trips_through_snappy() {
    let wr = WriteRequest {
        timeseries: vec![TimeSeries {
            labels: vec![label("__name__", "forgy_requests_total"), label("app", "forgy")],
            samples: vec![Sample { value_bits: 42.0f64.to_bits(), timestamp: 1234567 }],
            exemplars: Vec::new(),
            histograms: Vec::new(),
        }],
        metadata: Vec::new(),
    };
    let encoded = encode_write_request(&wr);
    let body = build_remote_write_body(&wr).unwrap();
    let decompressed = snap::raw::Decoder::new().decompress_vec(&body).unwrap();
    assert_eq!(decompressed, encoded);
}

#[test]
fn remote_write_headers_match_protocol() {
    let headers = remote_write_headers();
    assert_eq!(
        headers,
        vec![
            ("Content-Type", "application/x-protobuf"),
            ("Content-Encoding", "snappy"),
            ("X-Prometheus-Remote-Write-Version", "0.1.0"),
        ]
    );
}

#[test]
fn base_labels_order() {
    let metric = MetricData {
        labels: vec![label("method", "GET"), label("status", "200")],
        value: MetricValue::Counter { value_bits: 1.0f64.to_bits() },
    };
    let labels = create_base_labels("forgy_requests_total", "myapp", &metric);
    assert_eq!(labels.len(), 4);
    assert_eq!((labels[0].name.as_str(), labels[0].value.as_str()), ("__name__", "forgy_requests_total"));
    assert_eq!((labels[1].name.as_str(), labels[1].value.as_str()), ("app", "myapp"));
    assert_eq!((labels[2].name.as_str(), labels[2].value.as_str()), ("method", "GET"));
    assert_eq!((labels[3].name.as_str(), labels[3].value.as_str()), ("status", "200"));
}

#[test]
fn histogram_yields_buckets_plus_two_series() {
    // A histogram with B buckets yields exactly B + 2 time series.
    let base = vec![label("__name__", "forgy_request_duration_seconds"), label("app", "a")];
    let buckets = vec![
        BucketData {
            cumulative_count: 1,
            cumulative_count_bits: 1.0f64.to_bits(),
            upper_bound_label: "0.005".to_string(),
        },
        BucketData {
            cumulative_count: 3,
            cumulative_count_bits: 3.0f64.to_bits(),
            upper_bound_label: "0.01".to_string(),
        },
        BucketData {
            cumulative_count: 4,
            cumulative_count_bits: 4.0f64.to_bits(),
            upper_bound_label: "inf".to_string(),
        },
    ];
    let series = create_histogram_timeseries_simple(
        base,
        "forgy_request_duration_seconds",
        4.0f64.to_bits(),
        0.123f64.to_bits(),
        &buckets,
        99,
    );
    assert_eq!(series.len(), 5);
    for s in &series {
        assert_eq!(s.samples.len(), 1);
        assert_eq!(s.samples[0].timestamp, 99);
    }
    // Bucket series carry an `le` label with the bound's text.
    assert_eq!(series[0].labels.last().unwrap().name, "le");
    assert_eq!(series[0].labels.last().unwrap().value, "0.005");
    assert_eq!(series[2].labels.last().unwrap().value, "inf");
    assert_eq!(series[1].samples[0].value_bits, 3.0f64.to_bits());
    // The `_count` and `_sum` series rewrite the metric name.
    assert_eq!(series[3].labels[0].value, "forgy_request_duration_seconds_count");
    assert_eq!(series[3].samples[0].value_bits, 4.0f64.to_bits());
    assert_eq!(series[4].labels[0].value, "forgy_request_duration_seconds_sum");
    assert_eq!(series[4].samples[0].value_bits, 0.123f64.to_bits());
}

#[test]
fn snapshot_processing_counts_series() {
    let families = vec![
        MetricFamilyData {
            name: "forgy_active_vus".to_string(),
            metrics: vec![MetricData {
                labels: Vec::new(),
                value: MetricValue::Gauge { value_bits: 5.0f64.to_bits() },
            }],
        },
        MetricFamilyData {
            name: "forgy_request_duration_seconds".to_string(),
            metrics: vec![MetricData {
                labels: vec![label("method", "GET")],
                value: MetricValue::Histogram {
                    sample_count: 2,
                    sample_count_bits: 2.0f64.to_bits(),
                    sum_bits: 0.5f64.to_bits(),
                    buckets: vec![
                        BucketData {
                            cumulative_count: 1,
                            cumulative_count_bits: 1.0f64.to_bits(),
                            upper_bound_label: "0.1".to_string(),
                        },
                        BucketData {
                            cumulative_count: 2,
                            cumulative_count_bits: 2.0f64.to_bits(),
                            upper_bound_label: "inf".to_string(),
                        },
                    ],
                },
            }],
        },
    ];
    let message = MetricsMessage { metric_families: families, app: "forgy".to_string() };
    let series = process_metric_families(&message.metric_families, &message.app, 777);
    // 1 gauge series + (2 buckets + 2) histogram series.
    assert_eq!(series.len(), 5);
    for s in &series {
        assert_eq!(s.samples.len(), 1);
        assert_eq!(s.samples[0].timestamp, 777);
    }
    assert_eq!(series[0].labels[0].value, "forgy_active_vus");
    assert_eq!(series[0].labels[1].name, "app");
    assert_eq!(series[0].labels[1].value, "forgy");
}

#[test]
fn counter_series_shape() {
    let ts = create_counter_timeseries(vec![label("__name__", "c")], 7.5f64.to_bits(), 5);
    assert_eq!(ts.samples.len(), 1);
    assert_eq!(ts.samples[0].value_bits, 7.5f64.to_bits());
    assert_eq!(ts.samples[0].timestamp, 5);
    assert!(ts.exemplars.is_empty());
    assert!(ts.histograms.is_empty());
}
