use nviwatch::gpu::info::GpuInfo;
use nviwatch::influxdb::{
    build_record, build_records, export_failure_message, exporter_enabled, prepare_export,
    ConfigError, FieldValue, InfluxDBConfig,
};

fn config(url: &str, org: &str, bucket: &str, token: &str) -> InfluxDBConfig {
    InfluxDBConfig {
        url: url.to_string(),
        org: org.to_string(),
        bucket: bucket.to_string(),
        token: token.to_string(),
    }
}

fn sample_gpu() -> GpuInfo {
    GpuInfo {
        index: 0,
        name: "Test GPU".to_string(),
        temperature: 75,
        utilization: 50,
        memory_used: 4 * 1024 * 1024 * 1024,
        memory_total: 8 * 1024 * 1024 * 1024,
        power_usage: 150,
        power_limit: 200,
        clock_freq: 1800,
        processes: vec![],
    }
}

#[test]
fn test_influxdb_config_validation_valid() {
    let config = InfluxDBConfig {
        url: "http://localhost:8086".to_string(),
        org: "my-org".to_string(),
        bucket: "gpu-metrics".to_string(),
        token: "my-token".to_string(),
    };

    assert!(config.validate().is_ok());
}

#[test]
fn test_influxdb_config_validation_empty_url() {
    let config = InfluxDBConfig {
        url: "".to_string(),
        org: "my-org".to_string(),
        bucket: "gpu-metrics".to_string(),
        token: "my-token".to_string(),
    };

    assert!(config.validate().is_err());
}

#[test]
fn test_influxdb_config_validation_empty_org() {
    let config = InfluxDBConfig {
        url: "http://localhost:8086".to_string(),
        org: "".to_string(),
        bucket: "gpu-metrics".to_string(),
        token: "my-token".to_string(),
    };

    assert!(config.validate().is_err());
}

#[test]
fn test_influxdb_config_validation_empty_bucket() {
    let config = InfluxDBConfig {
        url: "http://localhost:8086".to_string(),
        org: "my-org".to_string(),
        bucket: "".to_string(),
        token: "my-token".to_string(),
    };

    assert!(config.validate().is_err());
}

#[test]
fn test_influxdb_config_validation_empty_token() {
    let config = InfluxDBConfig {
        url: "http://localhost:8086".to_string(),
        org: "my-org".to_string(),
        bucket: "gpu-metrics".to_string(),
        token: "".to_string(),
    };

    assert!(config.validate().is_err());
}

#[test]
fn validation_names_the_first_empty_field() {
    assert_eq!(config("", "", "", "").validate(), Err(ConfigError::EmptyUrl));
    assert_eq!(config("u", "", "", "").validate(), Err(ConfigError::EmptyOrg));
    assert_eq!(config("u", "o", "", "").validate(), Err(ConfigError::EmptyBucket));
    assert_eq!(config("u", "o", "b", "").validate(), Err(ConfigError::EmptyToken));
    assert_eq!(config("u", "o", "b", "t").validate(), Ok(()));
    assert_eq!(config("u", "o", "b", " ").validate(), Ok(()));
}

#[test]
fn config_errors_have_their_sentences() {
    assert_eq!(ConfigError::EmptyUrl.message(), "InfluxDB URL cannot be empty");
    assert_eq!(ConfigError::EmptyOrg.message(), "InfluxDB organization cannot be empty");
    assert_eq!(ConfigError::EmptyBucket.message(), "InfluxDB bucket cannot be empty");
    assert_eq!(ConfigError::EmptyToken.message(), "InfluxDB token cannot be empty");
}

#[test]
fn empty_token_disables_the_exporter() {
    let broken = config("http://localhost:8086", "my-org", "gpu-metrics", "");
    assert_eq!(broken.validate(), Err(ConfigError::EmptyToken));
    assert!(!exporter_enabled(&Some(broken)));
    assert!(!exporter_enabled(&None));
    assert!(exporter_enabled(&Some(config("http://localhost:8086", "my-org", "gpu-metrics", "t"))));
}

#[test]
fn export_is_not_prepared_with_an_invalid_config() {
    let broken = config("", "my-org", "gpu-metrics", "my-token");
    let plan = prepare_export(&broken, 1, &vec![sample_gpu()]);
    assert_eq!(plan.err(), Some(ConfigError::EmptyUrl));
}

#[test]
fn export_of_an_empty_sample_has_no_records() {
    let valid = config("http://localhost:8086", "my-org", "gpu-metrics", "my-token");
    let plan = prepare_export(&valid, 1, &vec![]);
    assert_eq!(plan.unwrap().len(), 0);
}

#[test]
fn record_layout() {
    let mut gpu = sample_gpu();
    gpu.index = 12;
    let record = build_record(1_700_000_000_123_456_789, &gpu);
    assert_eq!(record.timestamp, 1_700_000_000_123_456_789);
    assert_eq!(record.measurement, "gpu_metrics");
    let tags: Vec<(&str, &str)> =
        record.tags.iter().map(|t| (t.name.as_str(), t.value.as_str())).collect();
    assert_eq!(tags, vec![("gpu_index", "12"), ("gpu_name", "Test GPU")]);
    let fields: Vec<(&str, FieldValue)> =
        record.fields.iter().map(|f| (f.name.as_str(), f.value)).collect();
    assert_eq!(
        fields,
        vec![
            ("temperature", FieldValue::Float(75)),
            ("utilization", FieldValue::Float(50)),
            ("memory_used", FieldValue::Integer(4 * 1024 * 1024 * 1024)),
            ("memory_total", FieldValue::Integer(8 * 1024 * 1024 * 1024)),
            ("power_usage", FieldValue::Float(150)),
            ("power_limit", FieldValue::Float(200)),
            ("clock_freq", FieldValue::Float(1800)),
        ]
    );
}

#[test]
fn byte_counts_keep_their_bits_as_signed_integers() {
    let mut gpu = sample_gpu();
    gpu.memory_used = u64::MAX;
    gpu.memory_total = 1 << 63;
    let record = build_record(0, &gpu);
    assert_eq!(record.fields[2].value, FieldValue::Integer(-1));
    assert_eq!(record.fields[3].value, FieldValue::Integer(i64::MIN));
    gpu.memory_used = i64::MAX as u64;
    let record = build_record(0, &gpu);
    assert_eq!(record.fields[2].value, FieldValue::Integer(i64::MAX));
    assert_eq!(record.fields[2].value, FieldValue::Integer(gpu.memory_used as i64));
}

#[test]
fn one_record_per_device_with_a_shared_timestamp() {
    let mut second = sample_gpu();
    second.index = 1;
    second.name = "Other".to_string();
    second.temperature = 60;
    let records = build_records(42, &vec![sample_gpu(), second]);
    assert_eq!(records.len(), 2);
    assert!(records.iter().all(|r| r.timestamp == 42));
    assert_eq!(records[0].tags[0].value, "0");
    assert_eq!(records[1].tags[0].value, "1");
    assert_eq!(records[1].tags[1].value, "Other");
    assert_eq!(records[1].fields[0].value, FieldValue::Float(60));
}

#[test]
fn export_failure_is_prefixed() {
    assert_eq!(export_failure_message("connection refused"), "InfluxDB Error: connection refused");
    assert_eq!(export_failure_message(""), "InfluxDB Error: ");
}
