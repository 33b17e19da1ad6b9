use metrics_push::encoder::{encode, EncodeError, PushPayload};
use metrics_push::snappy::compress;
use metrics_push::snapshot::{stamp_family, stamp_snapshot};
use metrics_push::wire::{content_type, serialize};
use prometheus::proto::{Bucket, Counter, Gauge, Histogram, LabelPair, Metric, MetricFamily, MetricType};

fn label(name: &str, value: &str) -> LabelPair {
    let mut l = LabelPair::new();
    l.set_name(name.to_string());
    l.set_value(value.to_string());
    l
}

fn counter_sample(labels: Vec<LabelPair>, value: f64, timestamp_ms: Option<i64>) -> Metric {
    let mut m = Metric::new();
    for l in labels {
        m.mut_label().push(l);
    }
    let mut c = Counter::new();
    c.set_value(value);
    m.set_counter(c);
    if let Some(t) = timestamp_ms {
        m.set_timestamp_ms(t);
    }
    m
}

fn gauge_sample(value: f64) -> Metric {
    let mut m = Metric::new();
    let mut g = Gauge::new();
    g.set_value(value);
    m.set_gauge(g);
    m
}

fn histogram_sample(bounds: &[f64], counts: &[u64], sum: f64, timestamp_ms: i64) -> Metric {
    let mut h = Histogram::new();
    let mut total = 0;
    for (bound, count) in bounds.iter().zip(counts.iter()) {
        let mut b = Bucket::new();
        b.set_upper_bound(*bound);
        b.set_cumulative_count(*count);
        h.mut_bucket().push(b);
        total += *count;
    }
    h.set_sample_count(total);
    h.set_sample_sum(sum);
    let mut m = Metric::new();
    m.mut_label().push(label("type", "eth_call"));
    m.set_histogram(h);
    m.set_timestamp_ms(timestamp_ms);
    m
}

fn family(name: &str, help: &str, kind: MetricType, samples: Vec<Metric>) -> MetricFamily {
    let mut f = MetricFamily::new();
    f.set_name(name.to_string());
    f.set_help(help.to_string());
    f.set_field_type(kind);
    for s in samples {
        f.mut_metric().push(s);
    }
    f
}

fn decode(payload: &PushPayload) -> Vec<MetricFamily> {
    let bytes = snap::raw::Decoder::new().decompress_vec(&payload.body).unwrap();
    let mut input = protobuf::CodedInputStream::from_bytes(&bytes);
    let mut families = Vec::new();
    while !input.eof().unwrap() {
        families.push(input.read_message::<MetricFamily>().unwrap());
    }
    families
}

fn sample_snapshot() -> Vec<MetricFamily> {
    vec![
        family(
            "bridge_requests_received",
            "Total number of requests received in Server, by request type",
            MetricType::COUNTER,
            vec![
                counter_sample(vec![label("type", "sign")], 4.0, Some(11)),
                counter_sample(vec![label("type", "ping")], 9.0, Some(22)),
                counter_sample(vec![label("type", "other")], 1.0, None),
            ],
        ),
        family("bridge_gas_coin_balance", "Current balance of gas coin, in mist", MetricType::GAUGE, vec![
            gauge_sample(1234.5),
        ]),
        family(
            "bridge_eth_rpc_queries_latency",
            "Latency of queries issued to eth provider, by request type",
            MetricType::HISTOGRAM,
            vec![histogram_sample(&[0.1, 1.0, 10.0], &[3, 7, 2], 12.75, 33)],
        ),
    ]
}

#[test]
fn encode_sets_every_timestamp_to_the_push_instant() {
    let mut snapshot = sample_snapshot();
    let now: i64 = 1_700_000_000_123;
    let payload = encode(&mut snapshot, now).unwrap();
    let decoded = decode(&payload);
    assert_eq!(decoded.len(), 3);
    let mut samples = 0;
    for f in &decoded {
        for m in f.get_metric() {
            assert!(m.has_timestamp_ms());
            assert_eq!(m.get_timestamp_ms(), now);
            samples += 1;
        }
    }
    assert_eq!(samples, 5);
}

#[test]
fn encode_leaves_the_snapshot_stamped() {
    let mut snapshot = sample_snapshot();
    let payload = encode(&mut snapshot, 77).unwrap();
    for f in &snapshot {
        for m in f.get_metric() {
            assert_eq!(m.get_timestamp_ms(), 77);
        }
    }
    assert_eq!(decode(&payload), snapshot);
}

#[test]
fn encode_round_trip_keeps_histogram_buckets_names_and_labels() {
    let mut snapshot = sample_snapshot();
    let gathered = sample_snapshot();
    let payload = encode(&mut snapshot, 5000).unwrap();
    let decoded = decode(&payload);
    assert_eq!(decoded.len(), gathered.len());
    for (d, o) in decoded.iter().zip(gathered.iter()) {
        assert_eq!(d.get_name(), o.get_name());
        assert_eq!(d.get_help(), o.get_help());
        assert_eq!(d.get_field_type(), o.get_field_type());
        assert_eq!(d.get_metric().len(), o.get_metric().len());
        for (dm, om) in d.get_metric().iter().zip(o.get_metric().iter()) {
            assert_eq!(dm.get_label(), om.get_label());
            assert_eq!(dm.get_counter(), om.get_counter());
            assert_eq!(dm.get_gauge(), om.get_gauge());
            assert_eq!(dm.get_histogram(), om.get_histogram());
        }
    }
    let h = decoded[2].get_metric()[0].get_histogram();
    let bounds: Vec<f64> = h.get_bucket().iter().map(|b| b.get_upper_bound()).collect();
    let counts: Vec<u64> = h.get_bucket().iter().map(|b| b.get_cumulative_count()).collect();
    assert_eq!(bounds, vec![0.1, 1.0, 10.0]);
    assert_eq!(counts, vec![3, 7, 2]);
    assert_eq!(h.get_sample_count(), 12);
    assert_eq!(h.get_sample_sum(), 12.75);
    assert_eq!(decoded[2].get_metric()[0].get_label()[0].get_name(), "type");
    assert_eq!(decoded[2].get_metric()[0].get_label()[0].get_value(), "eth_call");
}

#[test]
fn encode_names_the_two_headers() {
    let mut snapshot = sample_snapshot();
    let payload = encode(&mut snapshot, 1).unwrap();
    assert_eq!(payload.content_encoding, "snappy");
    assert_eq!(
        payload.content_type,
        "application/vnd.google.protobuf; proto=io.prometheus.client.MetricFamily; encoding=delimited"
    );
    assert_eq!(payload.content_type, prometheus::PROTOBUF_FORMAT);
    assert_eq!(content_type(), prometheus::PROTOBUF_FORMAT);
}

#[test]
fn encode_of_an_empty_snapshot_is_an_empty_block() {
    let mut snapshot: Vec<MetricFamily> = Vec::new();
    let payload = encode(&mut snapshot, 1).unwrap();
    assert_eq!(payload.body, vec![0u8]);
    assert!(decode(&payload).is_empty());
}

#[test]
fn encode_refuses_a_family_without_samples() {
    let mut snapshot = sample_snapshot();
    snapshot.push(family("empty", "no samples", MetricType::COUNTER, vec![]));
    assert_eq!(encode(&mut snapshot, 9), Err(EncodeError::Serialize));
    assert_eq!(snapshot[0].get_metric()[0].get_timestamp_ms(), 9);
}

#[test]
fn encode_refuses_a_family_without_name() {
    let mut snapshot = vec![family("", "no name", MetricType::COUNTER, vec![counter_sample(vec![], 1.0, None)])];
    assert_eq!(encode(&mut snapshot, 9), Err(EncodeError::Serialize));
}

#[test]
fn payload_new_keeps_the_body() {
    let payload = PushPayload::new(vec![1, 2, 3]);
    assert_eq!(payload.body, vec![1, 2, 3]);
    assert_eq!(payload.content_encoding, "snappy");
    assert_eq!(payload.content_type, prometheus::PROTOBUF_FORMAT);
}

#[test]
fn serialize_writes_length_delimited_families() {
    // The bytes that the wire format prescribes for one counter family with
    // one labeled sample of value 1.
    let snapshot = vec![family("test_counter_vec", "help information", MetricType::COUNTER, vec![
        counter_sample(vec![label("labelname", "2230")], 1.0, None),
    ])];
    let expected: Vec<u8> = vec![
        70, 10, 16, 116, 101, 115, 116, 95, 99, 111, 117, 110, 116, 101, 114, 95, 118, 101, 99, 18, 16, 104,
        101, 108, 112, 32, 105, 110, 102, 111, 114, 109, 97, 116, 105, 111, 110, 24, 0, 34, 30, 10, 17, 10, 9,
        108, 97, 98, 101, 108, 110, 97, 109, 101, 18, 4, 50, 50, 51, 48, 26, 9, 9, 0, 0, 0, 0, 0, 0, 240, 63,
    ];
    assert_eq!(serialize(&snapshot), Ok(expected));
}

#[test]
fn serialize_refuses_unsendable_families() {
    let nameless = vec![family("", "h", MetricType::GAUGE, vec![gauge_sample(1.0)])];
    assert_eq!(serialize(&nameless), Err(EncodeError::Serialize));
    let empty = vec![family("n", "h", MetricType::GAUGE, vec![])];
    assert_eq!(serialize(&empty), Err(EncodeError::Serialize));
}

#[test]
fn compress_gives_a_block_that_decompresses_to_the_input() {
    let input: Vec<u8> = (0..2000u32).map(|i| (i % 7) as u8).collect();
    let block = compress(&input).unwrap();
    assert_ne!(block, input);
    assert!(block.len() < input.len());
    assert_eq!(snap::raw::Decoder::new().decompress_vec(&block).unwrap(), input);
    assert_eq!(compress(&input).unwrap(), block);
}

#[test]
fn compress_of_nothing_is_the_zero_length_header() {
    assert_eq!(compress(&Vec::new()), Ok(vec![0u8]));
}

#[test]
fn compress_carries_no_state_between_calls() {
    let first: Vec<u8> = vec![5; 300];
    let second: Vec<u8> = (0..300u32).map(|i| (i * 31 % 251) as u8).collect();
    let alone = compress(&second).unwrap();
    let _ = compress(&first).unwrap();
    assert_eq!(compress(&second).unwrap(), alone);
}

#[test]
fn stamp_family_overwrites_distinct_timestamps() {
    let mut f = sample_snapshot().remove(0);
    assert_eq!(f.get_metric()[0].get_timestamp_ms(), 11);
    assert_eq!(f.get_metric()[1].get_timestamp_ms(), 22);
    assert!(!f.get_metric()[2].has_timestamp_ms());
    let before = f.clone();
    stamp_family(&mut f, -5);
    assert_eq!(f.get_metric().len(), 3);
    for (after, was) in f.get_metric().iter().zip(before.get_metric().iter()) {
        assert!(after.has_timestamp_ms());
        assert_eq!(after.get_timestamp_ms(), -5);
        assert_eq!(after.get_label(), was.get_label());
        assert_eq!(after.get_counter(), was.get_counter());
    }
    assert_eq!(f.get_name(), before.get_name());
    assert_eq!(f.get_help(), before.get_help());
    assert_eq!(f.get_field_type(), before.get_field_type());
}

#[test]
fn stamp_snapshot_twice_keeps_the_later_instant() {
    let mut once = sample_snapshot();
    let mut twice = sample_snapshot();
    stamp_snapshot(&mut once, 20);
    stamp_snapshot(&mut twice, 10);
    stamp_snapshot(&mut twice, 20);
    assert_eq!(once, twice);
    assert_ne!(once, sample_snapshot());
}

#[test]
fn stamp_snapshot_accepts_families_without_samples() {
    let mut snapshot = vec![family("empty", "h", MetricType::COUNTER, vec![])];
    stamp_snapshot(&mut snapshot, 3);
    assert_eq!(snapshot, vec![family("empty", "h", MetricType::COUNTER, vec![])]);
}
