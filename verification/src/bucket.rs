use vstd::prelude::*;

verus! {

/// One climate reading. Temperature and humidity are carried as the raw
/// IEEE-754 bit patterns of the values the sensor reported; the library
/// never interprets them, it only stores and moves them.
#[derive(Clone, Copy, PartialEq, Eq, Structural, Debug)]
pub struct Sample {
    pub timestamp_millis: i64,
    pub temperature_bits: u64,
    pub humidity_bits: u64,
}

/// Descriptive unit strings, set once when a bucket is created.
#[derive(Clone, Debug)]
pub struct Units {
    pub temperature: String,
    pub humidity: String,
}

/// Fixed per-device metadata, set once when a bucket is created.
#[derive(Clone, Debug)]
pub struct Metadata {
    pub sensor_type: String,
    pub installation_date_millis: i64,
}

/// A time-windowed aggregation document: all samples of one device whose
/// bucket opened at `interval_start_millis`. Samples are insertion-ordered
/// and append-only; every field but `samples` is immutable once set.
#[derive(Clone, Debug)]
pub struct Bucket {
    pub device_id: String,
    pub interval_start_millis: i64,
    pub samples: Vec<Sample>,
    pub units: Units,
    pub metadata: Metadata,
}

/// Writer operation: append one sample at the end of an existing bucket's
/// sequence. All previously stored samples are preserved in order, and
/// every other field of the bucket is left unchanged.
pub fn append_sample(bucket: &mut Bucket, sample: Sample)
    ensures
        final(bucket).samples@ == old(bucket).samples@.push(sample),
        final(bucket).device_id == old(bucket).device_id,
        final(bucket).interval_start_millis == old(bucket).interval_start_millis,
        final(bucket).units == old(bucket).units,
        final(bucket).metadata == old(bucket).metadata,
{
    bucket.samples.push(sample);
}

/// Writer operation: build a fresh bucket around its first sample. The new
/// bucket's sequence holds exactly that one sample.
pub fn new_bucket(
    device_id: String,
    interval_start_millis: i64,
    first: Sample,
    units: Units,
    metadata: Metadata,
) -> (b: Bucket)
    ensures
        b.device_id == device_id,
        b.interval_start_millis == interval_start_millis,
        b.samples@ =~= seq![first],
        b.units == units,
        b.metadata == metadata,
{
    let mut samples: Vec<Sample> = Vec::new();
    samples.push(first);
    Bucket { device_id, interval_start_millis, samples, units, metadata }
}

} // verus!
