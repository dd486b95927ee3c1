use dicom_reader::attrmap::AttrMap;
use dicom_reader::effective_worker_count;
use dicom_reader::pipeline::{aggregate_results, keep_file, FileFailure};
use dicom_reader::record::DicomData;
use dicom_reader::value::Value;

fn record(path: &str) -> DicomData {
    DicomData { path: path.to_string(), tags: AttrMap::new(), pixel_data: None }
}

fn failure(path: &str, message: &str) -> FileFailure {
    FileFailure { path: path.to_string(), message: message.to_string() }
}

#[test]
fn aggregate_partitions_outcomes_exactly() {
    let results: Vec<Result<DicomData, FileFailure>> = vec![
        Ok(record("a.dcm")),
        Err(failure("b.dcm", "not a supported container")),
        Ok(record("c.dcm")),
        Ok(record("d.dcm")),
        Err(failure("e.dcm", "unreadable")),
    ];
    let report = aggregate_results(results);
    assert_eq!(report.total_discovered, 5);
    assert_eq!(report.succeeded.len(), 3);
    assert_eq!(report.failed.len(), 2);
    assert_eq!(report.succeeded[0].path, "a.dcm");
    assert_eq!(report.succeeded[1].path, "c.dcm");
    assert_eq!(report.succeeded[2].path, "d.dcm");
    assert_eq!(report.failed[0].path, "b.dcm");
    assert_eq!(report.failed[1].message, "unreadable");
}

#[test]
fn aggregate_of_empty_batch_is_empty_report() {
    let report = aggregate_results(Vec::new());
    assert_eq!(report.total_discovered, 0);
    assert!(report.succeeded.is_empty());
    assert!(report.failed.is_empty());
}

#[test]
fn aggregate_is_deterministic_over_equal_outcomes() {
    let make = || -> Vec<Result<DicomData, FileFailure>> {
        vec![Ok(record("x.dcm")), Err(failure("y.dcm", "bad")), Ok(record("z.dcm"))]
    };
    let first = aggregate_results(make());
    let second = aggregate_results(make());
    assert_eq!(first, second);
}

#[test]
fn aggregate_partition_is_order_independent() {
    let forward: Vec<Result<DicomData, FileFailure>> =
        vec![Ok(record("x.dcm")), Err(failure("y.dcm", "bad")), Ok(record("z.dcm"))];
    let reversed: Vec<Result<DicomData, FileFailure>> =
        vec![Ok(record("z.dcm")), Err(failure("y.dcm", "bad")), Ok(record("x.dcm"))];
    let a = aggregate_results(forward);
    let b = aggregate_results(reversed);
    assert_eq!(a.total_discovered, b.total_discovered);
    let mut paths_a: Vec<String> = a.succeeded.iter().map(|d| d.path.clone()).collect();
    let mut paths_b: Vec<String> = b.succeeded.iter().map(|d| d.path.clone()).collect();
    paths_a.sort();
    paths_b.sort();
    assert_eq!(paths_a, paths_b);
    assert_eq!(a.failed.len(), b.failed.len());
}

#[test]
fn worker_count_override_wins() {
    assert_eq!(effective_worker_count(8, Some(3)), 3);
}

#[test]
fn worker_count_defaults_to_cores_minus_one() {
    assert_eq!(effective_worker_count(8, None), 7);
}

#[test]
fn worker_count_never_drops_below_one() {
    assert_eq!(effective_worker_count(1, None), 1);
    assert_eq!(effective_worker_count(0, None), 1);
}

#[test]
fn metadata_artifact_is_excluded_from_discovery() {
    assert!(!keep_file(".DS_Store"));
    assert!(keep_file("scan0001.dcm"));
    assert!(keep_file("DS_Store"));
}

#[test]
fn attribute_map_keeps_last_value_per_name() {
    let mut m = AttrMap::new();
    m.insert("Modality".to_string(), Value::String("CT".to_string()));
    m.insert("Rows".to_string(), Value::UnsignedInteger(512));
    m.insert("Modality".to_string(), Value::String("MR".to_string()));
    assert_eq!(m.len(), 2);
    assert_eq!(m.get("Modality"), Some(&Value::String("MR".to_string())));
    assert_eq!(m.get("Rows"), Some(&Value::UnsignedInteger(512)));
    assert_eq!(m.get("Columns"), None);
    assert!(m.contains_key("Rows"));
    assert!(!m.contains_key("Columns"));
}

#[test]
fn attribute_map_starts_empty() {
    let m = AttrMap::new();
    assert_eq!(m.len(), 0);
    assert!(!m.contains_key("Modality"));
}
