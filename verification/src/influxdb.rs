//! The exporter's side of the dashboard that needs no network: checking its
//! configuration and laying out the records that a sample turns into.

use crate::gpu::info::GpuInfo;
use crate::utils::formatting::{decimal, decimal_string};
use vstd::prelude::*;

verus! {

/// Where and as whom samples are forwarded.
#[derive(Clone, Debug)]
pub struct InfluxDBConfig {
    pub url: String,
    pub org: String,
    pub bucket: String,
    pub token: String,
}

/// What an exporter configuration lacks.
#[derive(Clone, Copy, Debug, PartialEq, Eq, Structural)]
pub enum ConfigError {
    EmptyUrl,
    EmptyOrg,
    EmptyBucket,
    EmptyToken,
}

/// The verdict on a configuration with the given field contents: the first
/// empty field in the order url, org, bucket, token, or none.
pub open spec fn validation_of(
    url: Seq<char>,
    org: Seq<char>,
    bucket: Seq<char>,
    token: Seq<char>,
) -> Result<(), ConfigError> {
    if url.len() == 0 {
        Err(ConfigError::EmptyUrl)
    } else if org.len() == 0 {
        Err(ConfigError::EmptyOrg)
    } else if bucket.len() == 0 {
        Err(ConfigError::EmptyBucket)
    } else if token.len() == 0 {
        Err(ConfigError::EmptyToken)
    } else {
        Ok(())
    }
}

/// The sentence that names `error`.
pub open spec fn config_error_text(error: ConfigError) -> Seq<char> {
    match error {
        ConfigError::EmptyUrl => "InfluxDB URL cannot be empty"@,
        ConfigError::EmptyOrg => "InfluxDB organization cannot be empty"@,
        ConfigError::EmptyBucket => "InfluxDB bucket cannot be empty"@,
        ConfigError::EmptyToken => "InfluxDB token cannot be empty"@,
    }
}

impl ConfigError {
    /// The sentence that names this error.
    pub fn message(&self) -> (text: String)
        ensures
            text@ == config_error_text(*self),
    {
        match self {
            ConfigError::EmptyUrl => String::from_str("InfluxDB URL cannot be empty"),
            ConfigError::EmptyOrg => String::from_str("InfluxDB organization cannot be empty"),
            ConfigError::EmptyBucket => String::from_str("InfluxDB bucket cannot be empty"),
            ConfigError::EmptyToken => String::from_str("InfluxDB token cannot be empty"),
        }
    }
}

impl InfluxDBConfig {
    /// The verdict on this configuration.
    pub open spec fn verdict(&self) -> Result<(), ConfigError> {
        validation_of(self.url@, self.org@, self.bucket@, self.token@)
    }

    /// Accepts the configuration if all four fields are non-empty, and
    /// names the first empty one otherwise.
    pub fn validate(&self) -> (result: Result<(), ConfigError>)
        ensures
            result == self.verdict(),
    {
        if self.url.as_str().is_empty() {
            return Err(ConfigError::EmptyUrl);
        }
        if self.org.as_str().is_empty() {
            return Err(ConfigError::EmptyOrg);
        }
        if self.bucket.as_str().is_empty() {
            return Err(ConfigError::EmptyBucket);
        }
        if self.token.as_str().is_empty() {
            return Err(ConfigError::EmptyToken);
        }
        Ok(())
    }
}

/// Whether samples are forwarded at all: only with a configuration, and
/// only with one that passes validation.
pub fn exporter_enabled(config: &Option<InfluxDBConfig>) -> (enabled: bool)
    ensures
        enabled == (config matches Some(c) && c.verdict() is Ok),
{
    match config {
        Some(c) => c.validate().is_ok(),
        None => false,
    }
}

/// The text put in the error slot when forwarding failed for `cause`.
pub fn export_failure_message(cause: &str) -> (text: String)
    ensures
        text@ == "InfluxDB Error: "@ + cause@,
{
    let mut text = String::from_str("InfluxDB Error: ");
    text.append(cause);
    text
}

/// A number as the sink is to receive it.
#[derive(Clone, Copy, Debug, PartialEq, Eq, Structural)]
pub enum FieldValue {
    /// To be sent as a floating-point number of this value.
    Float(u32),
    /// To be sent as a signed integer.
    Integer(i64),
}

/// A label of a record.
#[derive(Clone, Debug)]
pub struct Tag {
    pub name: String,
    pub value: String,
}

/// A measured quantity of a record.
#[derive(Clone, Debug)]
pub struct Field {
    pub name: String,
    pub value: FieldValue,
}

/// What is forwarded for one device of one sample.
#[derive(Clone, Debug)]
pub struct MetricRecord {
    /// Capture time in nanoseconds since the epoch.
    pub timestamp: u128,
    pub measurement: String,
    pub tags: Vec<Tag>,
    pub fields: Vec<Field>,
}

/// The contents of a record: its tags and fields as name and value, in
/// the order in which they are forwarded.
pub struct RecordContents {
    pub timestamp: u128,
    pub measurement: Seq<char>,
    pub tags: Seq<(Seq<char>, Seq<char>)>,
    pub fields: Seq<(Seq<char>, FieldValue)>,
}

impl View for MetricRecord {
    type V = RecordContents;

    open spec fn view(&self) -> RecordContents {
        RecordContents {
            timestamp: self.timestamp,
            measurement: self.measurement@,
            tags: self.tags@.map_values(|t: Tag| (t.name@, t.value@)),
            fields: self.fields@.map_values(|f: Field| (f.name@, f.value)),
        }
    }
}

/// A byte count as the signed integer with the same 64 bits.
pub open spec fn signed_of(count: u64) -> i64 {
    if count <= i64::MAX {
        count as i64
    } else {
        (count - 0x1_0000_0000_0000_0000) as i64
    }
}

/// The record of `gpu` for a sample captured at `timestamp`: tagged by
/// device index and name, with the seven metrics as fields.
pub open spec fn record_of(timestamp: u128, gpu: GpuInfo) -> RecordContents {
    RecordContents {
        timestamp,
        measurement: "gpu_metrics"@,
        tags: seq![("gpu_index"@, decimal(gpu.index as nat)), ("gpu_name"@, gpu.name@)],
        fields: seq![
            ("temperature"@, FieldValue::Float(gpu.temperature)),
            ("utilization"@, FieldValue::Float(gpu.utilization)),
            ("memory_used"@, FieldValue::Integer(signed_of(gpu.memory_used))),
            ("memory_total"@, FieldValue::Integer(signed_of(gpu.memory_total))),
            ("power_usage"@, FieldValue::Float(gpu.power_usage)),
            ("power_limit"@, FieldValue::Float(gpu.power_limit)),
            ("clock_freq"@, FieldValue::Float(gpu.clock_freq)),
        ],
    }
}

/// Whether `records` are the records of `devices`, one per device and in
/// the same order, all stamped with `timestamp`.
pub open spec fn records_match(
    records: Seq<MetricRecord>,
    timestamp: u128,
    devices: Seq<GpuInfo>,
) -> bool {
    &&& records.len() == devices.len()
    &&& forall|i: int|
        0 <= i < devices.len() ==> (#[trigger] records[i])@ == record_of(timestamp, devices[i])
}

/// Reinterprets a byte count as a signed integer.
fn to_signed(count: u64) -> (value: i64)
    ensures
        value == signed_of(count),
{
    if count <= 0x7fff_ffff_ffff_ffff {
        count as i64
    } else {
        let low: i64 = (count - 0x8000_0000_0000_0000) as i64;
        low + i64::MIN
    }
}

fn float_field(name: &str, value: u32) -> (field: Field)
    ensures
        field.name@ == name@,
        field.value == FieldValue::Float(value),
{
    Field { name: String::from_str(name), value: FieldValue::Float(value) }
}

fn integer_field(name: &str, value: u64) -> (field: Field)
    ensures
        field.name@ == name@,
        field.value == FieldValue::Integer(signed_of(value)),
{
    Field { name: String::from_str(name), value: FieldValue::Integer(to_signed(value)) }
}

/// Lays out the record of `gpu` for a sample captured at `timestamp`.
pub fn build_record(timestamp: u128, gpu: &GpuInfo) -> (record: MetricRecord)
    ensures
        record@ == record_of(timestamp, *gpu),
{
    let mut tags: Vec<Tag> = Vec::new();
    tags.push(Tag { name: String::from_str("gpu_index"), value: decimal_string(gpu.index as u64) });
    tags.push(Tag { name: String::from_str("gpu_name"), value: gpu.name.clone() });
    let mut fields: Vec<Field> = Vec::new();
    fields.push(float_field("temperature", gpu.temperature));
    fields.push(float_field("utilization", gpu.utilization));
    fields.push(integer_field("memory_used", gpu.memory_used));
    fields.push(integer_field("memory_total", gpu.memory_total));
    fields.push(float_field("power_usage", gpu.power_usage));
    fields.push(float_field("power_limit", gpu.power_limit));
    fields.push(float_field("clock_freq", gpu.clock_freq));
    let record = MetricRecord {
        timestamp,
        measurement: String::from_str("gpu_metrics"),
        tags,
        fields,
    };
    proof {
        let want = record_of(timestamp, *gpu);
        assert(record@.tags =~= want.tags);
        assert(record@.fields =~= want.fields);
    }
    record
}

/// Lays out one record per device of a sample, in device order, all with
/// the one `timestamp` at which the sample was captured.
pub fn build_records(timestamp: u128, devices: &Vec<GpuInfo>) -> (records: Vec<MetricRecord>)
    ensures
        records_match(records@, timestamp, devices@),
{
    let mut records: Vec<MetricRecord> = Vec::new();
    let mut i: usize = 0;
    while i < devices.len()
        invariant
            i <= devices.len(),
            records_match(records@, timestamp, devices@.take(i as int)),
        decreases devices.len() - i,
    {
        records.push(build_record(timestamp, &devices[i]));
        i += 1;
    }
    assert(devices@.take(i as int) =~= devices@);
    records
}

/// What forwarding a sample starts with: the configuration is checked
/// first, and only a valid one yields the records to send.
pub fn prepare_export(config: &InfluxDBConfig, timestamp: u128, devices: &Vec<GpuInfo>) -> (plan:
    Result<Vec<MetricRecord>, ConfigError>)
    ensures
        match config.verdict() {
            Ok(_) => plan matches Ok(records) && records_match(records@, timestamp, devices@),
            Err(error) => plan == Err::<Vec<MetricRecord>, ConfigError>(error),
        },
{
    match config.validate() {
        Ok(_) => Ok(build_records(timestamp, devices)),
        Err(error) => Err(error),
    }
}

} // verus!
