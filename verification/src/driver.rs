use vstd::prelude::*;

use crate::bucket::{new_bucket, Bucket, Metadata, Sample, Units};

verus! {

/// Installation date recorded in every fresh bucket's metadata:
/// 2024-06-09 00:00:00 UTC, in milliseconds since the Unix epoch.
pub const INSTALLATION_DATE_MILLIS: i64 = 1717891200000;

/// A successful sensor read: the raw IEEE-754 bit patterns of the
/// temperature (degrees Celsius) and relative humidity (percent) the
/// hardware reported.
#[derive(Clone, Copy, PartialEq, Eq, Structural, Debug)]
pub struct Reading {
    pub temperature_bits: u64,
    pub humidity_bits: u64,
}

/// Transient hardware read failure: the bit-timing protocol produced too
/// few bits, or the checksum byte did not match. The tick is skipped and
/// the next scheduled one retried.
#[derive(Clone, Copy, PartialEq, Eq, Structural, Debug)]
pub enum SensorError {
    MissingData,
    InvalidChecksum,
}

/// Transient storage failure during a query or write. The tick is
/// skipped; nothing is retried within the same tick.
#[derive(Clone, Copy, PartialEq, Eq, Structural, Debug)]
pub struct StorageError;

/// The one write the Loop Driver performs at the end of a tick, chosen by
/// `plan_write`. The two storage operations are mutually exclusive per
/// invocation; `Skip` performs none.
pub enum WriteAction {
    Append { interval_start_millis: i64, sample: Sample },
    Create { bucket: Bucket },
    Skip,
}

/// The sample a tick at `now_millis` stores for `reading`.
pub open spec fn sample_at(now_millis: i64, reading: Reading) -> Sample {
    Sample {
        timestamp_millis: now_millis,
        temperature_bits: reading.temperature_bits,
        humidity_bits: reading.humidity_bits,
    }
}

/// Build the sample a tick at `now_millis` stores for `reading`.
pub fn make_sample(now_millis: i64, reading: Reading) -> (s: Sample)
    ensures
        s == sample_at(now_millis, reading),
{
    Sample {
        timestamp_millis: now_millis,
        temperature_bits: reading.temperature_bits,
        humidity_bits: reading.humidity_bits,
    }
}

/// What a bucket freshly created at `now_millis` for `reading` holds: the
/// fixed device identifier, unit strings and metadata of this deployment,
/// `interval_start` equal to the creation time, and exactly one sample.
pub open spec fn is_fresh_bucket(b: Bucket, now_millis: i64, reading: Reading) -> bool {
    &&& b.device_id@ == "sensor-001"@
    &&& b.interval_start_millis == now_millis
    &&& b.samples@ =~= seq![sample_at(now_millis, reading)]
    &&& b.units.temperature@ == "Celsius"@
    &&& b.units.humidity@ == "Percentage"@
    &&& b.metadata.sensor_type@ == "DHT11"@
    &&& b.metadata.installation_date_millis == INSTALLATION_DATE_MILLIS
}

/// Open a fresh bucket at `now_millis` around its first sample.
pub fn fresh_bucket(now_millis: i64, reading: Reading) -> (b: Bucket)
    ensures
        is_fresh_bucket(b, now_millis, reading),
{
    let units = Units {
        temperature: String::from_str("Celsius"),
        humidity: String::from_str("Percentage"),
    };
    let metadata = Metadata {
        sensor_type: String::from_str("DHT11"),
        installation_date_millis: INSTALLATION_DATE_MILLIS,
    };
    new_bucket(
        String::from_str("sensor-001"),
        now_millis,
        make_sample(now_millis, reading),
        units,
        metadata,
    )
}

/// Loop Driver, first decision of a tick: only a successful sensor read
/// is processed further; on a read failure the whole tick is skipped and
/// the resolver is never consulted.
pub fn plan_tick(sensor: &Result<Reading, SensorError>) -> (proceed: bool)
    ensures
        proceed == sensor is Ok,
{
    sensor.is_ok()
}

/// Loop Driver, second decision of a tick: given the resolver's outcome
/// at query time `now_millis`, choose the one write to perform. A
/// resolved bucket is appended to under its `interval_start` key; no
/// qualifying bucket means a fresh bucket is created; a resolver error
/// means no write of either kind is attempted.
pub fn plan_write(
    now_millis: i64,
    resolved: Result<Option<Bucket>, StorageError>,
    reading: Reading,
) -> (a: WriteAction)
    ensures
        match resolved {
            Err(_) => a is Skip,
            Ok(Some(b)) => a == (WriteAction::Append {
                interval_start_millis: b.interval_start_millis,
                sample: sample_at(now_millis, reading),
            }),
            Ok(None) => match a {
                WriteAction::Create { bucket } => is_fresh_bucket(bucket, now_millis, reading),
                _ => false,
            },
        },
{
    match resolved {
        Err(_) => WriteAction::Skip,
        Ok(Some(b)) => WriteAction::Append {
            interval_start_millis: b.interval_start_millis,
            sample: make_sample(now_millis, reading),
        },
        Ok(None) => WriteAction::Create { bucket: fresh_bucket(now_millis, reading) },
    }
}

} // verus!
