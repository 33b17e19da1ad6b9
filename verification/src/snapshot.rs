//! The metrics snapshot and its stamping with one observation instant.
//!
//! A snapshot is an ordered sequence of metric families as the registry
//! gathers them. A family has a name, a help text, a kind and its samples; a
//! sample has labels, a value and a timestamp. The families themselves are
//! protobuf messages of the `prometheus` crate; the contracts here speak of
//! what such a message holds, read field by field into the types below.
//! Floating-point quantities (values, sums, bucket bounds) stand in them as
//! their IEEE-754 bit patterns.

use vstd::prelude::*;

verus! {

/// The kind of a metric family, as the wire format enumerates it.
pub enum MetricKind {
    Counter,
    Gauge,
    Summary,
    Untyped,
    Histogram,
}

/// One label of a sample.
pub struct LabelView {
    pub name: Seq<char>,
    pub value: Seq<char>,
}

/// One bucket of a histogram: how many observations were at most the bound.
pub struct BucketView {
    pub cumulative_count: u64,
    pub upper_bound_bits: u64,
}

/// The value of a sample.
pub enum ValueView {
    Counter { value_bits: u64 },
    Gauge { value_bits: u64 },
    Histogram { sample_count: u64, sample_sum_bits: u64, buckets: Seq<BucketView> },
    /// A summary or an untyped value, which the registry does not produce.
    Other,
}

/// One labeled sample of a family.
pub struct SampleView {
    pub labels: Seq<LabelView>,
    pub value: ValueView,
    /// Milliseconds since the epoch, if the sample bears a timestamp.
    pub timestamp_ms: Option<i64>,
}

impl SampleView {
    /// The same sample, observed at `now_ms`.
    pub open spec fn stamped(self, now_ms: i64) -> SampleView {
        SampleView { timestamp_ms: Some(now_ms), ..self }
    }
}

/// What a family says of itself, apart from its samples.
pub struct FamilyHeader {
    pub name: Seq<char>,
    pub help: Seq<char>,
    pub kind: MetricKind,
}

/// A family as mathematical value.
pub struct FamilyView {
    pub header: FamilyHeader,
    pub samples: Seq<SampleView>,
}

impl FamilyView {
    /// The same family with every sample observed at `now_ms`.
    pub open spec fn stamped(self, now_ms: i64) -> FamilyView {
        FamilyView { samples: self.samples.map_values(|s: SampleView| s.stamped(now_ms)), ..self }
    }

    /// Whether the wire format can carry the family: it needs a name and at
    /// least one sample.
    pub open spec fn is_sendable(self) -> bool {
        self.header.name.len() > 0 && self.samples.len() > 0
    }
}

/// A metric family as the registry gathers it: a protobuf message of the
/// `prometheus` crate, opaque here.
#[verifier::external_type_specification]
#[verifier::external_body]
pub struct ExMetricFamily(prometheus::proto::MetricFamily);

/// The name, help text and kind that a `prometheus::proto::MetricFamily`
/// holds, as `get_name`, `get_help` and `get_field_type` read them.
pub uninterp spec fn family_header(family: prometheus::proto::MetricFamily) -> FamilyHeader;

/// The samples that a `prometheus::proto::MetricFamily` holds, in the order
/// of `get_metric`.
pub uninterp spec fn family_samples(family: prometheus::proto::MetricFamily) -> Seq<SampleView>;

/// What a family holds: its header and its samples.
pub open spec fn family_view(family: prometheus::proto::MetricFamily) -> FamilyView {
    FamilyView { header: family_header(family), samples: family_samples(family) }
}

/// What the families of a snapshot hold, in order.
pub open spec fn snapshot_view(snapshot: Seq<prometheus::proto::MetricFamily>) -> Seq<FamilyView> {
    snapshot.map_values(|f: prometheus::proto::MetricFamily| family_view(f))
}

/// The same snapshot with every sample of every family observed at `now_ms`.
pub open spec fn stamped_snapshot(snapshot: Seq<FamilyView>, now_ms: i64) -> Seq<FamilyView> {
    snapshot.map_values(|f: FamilyView| f.stamped(now_ms))
}

/// `MetricFamily::get_metric` of `prometheus::proto`, and the length of the
/// slice it returns: the number of samples of the family.
#[verifier::external_body]
fn sample_count(family: &prometheus::proto::MetricFamily) -> (n: usize)
    ensures
        n == family_samples(*family).len(),
{
    family.get_metric().len()
}

/// `MetricFamily::mut_metric` of `prometheus::proto`, and `Metric::set_timestamp_ms`
/// on the sample at `index`: that sample's timestamp becomes `timestamp_ms`;
/// its labels and value, the other samples and the header stay.
#[verifier::external_body]
fn set_sample_timestamp(family: &mut prometheus::proto::MetricFamily, index: usize, timestamp_ms: i64)
    requires
        index < family_samples(*old(family)).len(),
    ensures
        family_header(*final(family)) == family_header(*old(family)),
        family_samples(*final(family)) == family_samples(*old(family)).update(
            index as int,
            family_samples(*old(family))[index as int].stamped(timestamp_ms),
        ),
{
    family.mut_metric()[index].set_timestamp_ms(timestamp_ms);
}

/// Overwrites the timestamp of every sample of the family with `now_ms`.
pub fn stamp_family(family: &mut prometheus::proto::MetricFamily, now_ms: i64)
    ensures
        family_view(*final(family)) == family_view(*old(family)).stamped(now_ms),
{
    let n = sample_count(family);
    let mut i: usize = 0;
    while i < n
        invariant
            i <= n,
            family_samples(*family).len() == n,
            family_samples(*old(family)).len() == n,
            family_header(*family) == family_header(*old(family)),
            forall|k: int|
                0 <= k < i ==> #[trigger] family_samples(*family)[k] == family_samples(*old(family))[k].stamped(
                    now_ms,
                ),
            forall|k: int| i <= k < n ==> #[trigger] family_samples(*family)[k] == family_samples(*old(family))[k],
        decreases n - i,
    {
        set_sample_timestamp(family, i, now_ms);
        i += 1;
    }
    assert(family_samples(*family) =~= family_view(*old(family)).stamped(now_ms).samples);
}

/// Overwrites the timestamp of every sample in the snapshot with `now_ms`, so
/// that all of them share one observation instant. Nothing else changes.
pub fn stamp_snapshot(snapshot: &mut Vec<prometheus::proto::MetricFamily>, now_ms: i64)
    ensures
        snapshot_view(final(snapshot)@) == stamped_snapshot(snapshot_view(old(snapshot)@), now_ms),
{
    let n = snapshot.len();
    let mut i: usize = 0;
    while i < n
        invariant
            i <= n,
            snapshot@.len() == n,
            old(snapshot)@.len() == n,
            forall|k: int|
                0 <= k < i ==> family_view(#[trigger] snapshot@[k]) == family_view(old(snapshot)@[k]).stamped(now_ms),
            forall|k: int| i <= k < n ==> #[trigger] snapshot@[k] == old(snapshot)@[k],
        decreases n - i,
    {
        stamp_family(&mut snapshot[i], now_ms);
        i += 1;
    }
    assert(snapshot_view(snapshot@) =~= stamped_snapshot(snapshot_view(old(snapshot)@), now_ms));
}

/// After stamping, every sample of every family bears the given instant,
/// whatever timestamps the samples bore before.
pub proof fn lemma_stamped_is_uniform(snapshot: Seq<FamilyView>, now_ms: i64, family: int, sample: int)
    requires
        0 <= family < snapshot.len(),
        0 <= sample < snapshot[family].samples.len(),
    ensures
        stamped_snapshot(snapshot, now_ms).len() == snapshot.len(),
        stamped_snapshot(snapshot, now_ms)[family].samples.len() == snapshot[family].samples.len(),
        stamped_snapshot(snapshot, now_ms)[family].samples[sample].timestamp_ms == Some(now_ms),
{
}

/// Stamping changes timestamps only: the families keep their order, names,
/// help texts and kinds, and every sample keeps its labels and its value.
pub proof fn lemma_stamped_keeps_contents(snapshot: Seq<FamilyView>, now_ms: i64, family: int, sample: int)
    requires
        0 <= family < snapshot.len(),
        0 <= sample < snapshot[family].samples.len(),
    ensures
        stamped_snapshot(snapshot, now_ms)[family].header == snapshot[family].header,
        stamped_snapshot(snapshot, now_ms)[family].samples[sample].labels
            == snapshot[family].samples[sample].labels,
        stamped_snapshot(snapshot, now_ms)[family].samples[sample].value == snapshot[family].samples[sample].value,
{
}

} // verus!
