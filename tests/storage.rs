use checkpoint_conf::error::{ConfigError, ConfigErrorKind, ConfigParsingError};
use checkpoint_conf::path::ConfigPath;
use checkpoint_conf::storage::{
    split_uri, CheckpointSyncerConf, DirOutcome, RawCheckpointSyncerConf, UriError, UriParts,
};

fn segs(p: &ConfigPath) -> Vec<String> {
    p.segments.clone()
}

fn one(e: ConfigParsingError) -> ConfigError {
    assert_eq!(e.errors.len(), 1);
    e.errors.into_iter().next().unwrap()
}

#[test]
fn uri_file_selects_local_storage() {
    match CheckpointSyncerConf::from_str("file:///tmp/x") {
        Ok(CheckpointSyncerConf::LocalStorage { path }) => assert_eq!(path, "/tmp/x"),
        other => panic!("unexpected {:?}", other),
    }
}

#[test]
fn uri_s3_selects_object_storage() {
    match CheckpointSyncerConf::from_str("s3://my-bucket/us-east-1") {
        Ok(CheckpointSyncerConf::S3 { bucket, region }) => {
            assert_eq!(bucket, "my-bucket");
            assert_eq!(region, "us-east-1");
        }
        other => panic!("unexpected {:?}", other),
    }
}

#[test]
fn uri_s3_without_region_fails() {
    assert!(matches!(
        CheckpointSyncerConf::from_str("s3://only-bucket"),
        Err(UriError::BadBucketRegion)
    ));
}

#[test]
fn uri_unknown_prefix_is_named() {
    match CheckpointSyncerConf::from_str("ftp://x") {
        Err(UriError::UnknownPrefix { prefix }) => assert_eq!(prefix, "ftp"),
        other => panic!("unexpected {:?}", other),
    }
}

#[test]
fn uri_without_separator_fails() {
    assert!(matches!(
        CheckpointSyncerConf::from_str("/tmp/x"),
        Err(UriError::MissingSeparator)
    ));
    assert!(matches!(CheckpointSyncerConf::from_str(""), Err(UriError::MissingSeparator)));
}

#[test]
fn uri_file_rest_with_separator_is_verbatim() {
    match CheckpointSyncerConf::from_str("file://a://b") {
        Ok(CheckpointSyncerConf::LocalStorage { path }) => assert_eq!(path, "a://b"),
        other => panic!("unexpected {:?}", other),
    }
    assert!(matches!(
        CheckpointSyncerConf::from_str("s3://a://b"),
        Err(UriError::BadBucketRegion)
    ));
}

#[test]
fn uri_s3_with_extra_segment_fails() {
    assert!(matches!(
        CheckpointSyncerConf::from_str("s3://b/us-east-1/x"),
        Err(UriError::BadBucketRegion)
    ));
}

#[test]
fn uri_s3_unknown_region_fails() {
    assert!(matches!(
        CheckpointSyncerConf::from_str("s3://b/moon-base-1"),
        Err(UriError::InvalidRegion)
    ));
}

#[test]
fn uri_s3_region_in_capitals_is_kept_as_written() {
    match CheckpointSyncerConf::from_str("s3://b/EU-WEST-2") {
        Ok(CheckpointSyncerConf::S3 { bucket, region }) => {
            assert_eq!(bucket, "b");
            assert_eq!(region, "EU-WEST-2");
        }
        other => panic!("unexpected {:?}", other),
    }
}

#[test]
fn uri_empty_file_path_is_taken_verbatim() {
    match CheckpointSyncerConf::from_str("file://") {
        Ok(CheckpointSyncerConf::LocalStorage { path }) => assert_eq!(path, ""),
        other => panic!("unexpected {:?}", other),
    }
}

#[test]
fn split_keeps_unknown_region_text() {
    match split_uri("s3://bkt/nowhere") {
        Ok(UriParts::S3 { bucket, region }) => {
            assert_eq!(bucket, "bkt");
            assert_eq!(region, "nowhere");
        }
        other => panic!("unexpected {:?}", other),
    }
}

#[test]
fn structured_local_missing_path() {
    let cwp = ConfigPath::root().join("checkpointsyncer");
    let r = CheckpointSyncerConf::from_config_filtered(
        RawCheckpointSyncerConf::LocalStorage { path: None },
        &cwp,
        DirOutcome::Existing,
    );
    let e = one(r.unwrap_err());
    assert_eq!(e.kind, ConfigErrorKind::MissingField);
    assert_eq!(segs(&e.path), vec!["checkpointsyncer".to_string(), "path".to_string()]);
}

#[test]
fn structured_local_created_directory_succeeds() {
    let r = CheckpointSyncerConf::from_config_filtered(
        RawCheckpointSyncerConf::LocalStorage { path: Some("/tmp/new".to_string()) },
        &ConfigPath::root(),
        DirOutcome::Created,
    );
    match r {
        Ok(CheckpointSyncerConf::LocalStorage { path }) => assert_eq!(path, "/tmp/new"),
        other => panic!("unexpected {:?}", other),
    }
}

#[test]
fn structured_local_regular_file_fails() {
    let r = CheckpointSyncerConf::from_config_filtered(
        RawCheckpointSyncerConf::LocalStorage { path: Some("/tmp/file".to_string()) },
        &ConfigPath::root(),
        DirOutcome::NotDirectory,
    );
    let e = one(r.unwrap_err());
    assert_eq!(e.kind, ConfigErrorKind::FilesystemViolation);
    assert_eq!(segs(&e.path), vec!["path".to_string()]);
}

#[test]
fn structured_local_create_failure_fails() {
    let r = CheckpointSyncerConf::from_config_filtered(
        RawCheckpointSyncerConf::LocalStorage { path: Some("/proc/x".to_string()) },
        &ConfigPath::root(),
        DirOutcome::CreateFailed,
    );
    assert_eq!(one(r.unwrap_err()).kind, ConfigErrorKind::FilesystemViolation);
}

#[test]
fn structured_s3_missing_bucket_and_region_both_reported() {
    let cwp = ConfigPath::root().join("checkpointsyncer");
    let r = CheckpointSyncerConf::from_config_filtered(
        RawCheckpointSyncerConf::S3 { bucket: None, region: None },
        &cwp,
        DirOutcome::Existing,
    );
    let e = r.unwrap_err();
    assert_eq!(
        e.report(),
        "checkpointsyncer.bucket: missing required field\n\
         checkpointsyncer.region: missing required field"
    );
}

#[test]
fn structured_s3_missing_bucket_and_bad_region_both_reported() {
    let r = CheckpointSyncerConf::from_config_filtered(
        RawCheckpointSyncerConf::S3 { bucket: None, region: Some("atlantis".to_string()) },
        &ConfigPath::root(),
        DirOutcome::Existing,
    );
    let e = r.unwrap_err();
    assert_eq!(e.errors.len(), 2);
    assert_eq!(e.errors[0].kind, ConfigErrorKind::MissingField);
    assert_eq!(segs(&e.errors[0].path), vec!["bucket".to_string()]);
    assert_eq!(e.errors[1].kind, ConfigErrorKind::ParseFailure);
    assert_eq!(segs(&e.errors[1].path), vec!["region".to_string()]);
}

#[test]
fn structured_s3_missing_region() {
    let r = CheckpointSyncerConf::from_config_filtered(
        RawCheckpointSyncerConf::S3 { bucket: Some("b".to_string()), region: None },
        &ConfigPath::root(),
        DirOutcome::Existing,
    );
    let e = one(r.unwrap_err());
    assert_eq!(e.kind, ConfigErrorKind::MissingField);
    assert_eq!(segs(&e.path), vec!["region".to_string()]);
}

#[test]
fn structured_s3_bad_region() {
    let r = CheckpointSyncerConf::from_config_filtered(
        RawCheckpointSyncerConf::S3 {
            bucket: Some("b".to_string()),
            region: Some("atlantis".to_string()),
        },
        &ConfigPath::root(),
        DirOutcome::Existing,
    );
    let e = one(r.unwrap_err());
    assert_eq!(e.kind, ConfigErrorKind::ParseFailure);
    assert_eq!(segs(&e.path), vec!["region".to_string()]);
}

#[test]
fn structured_unknown_type() {
    let r = CheckpointSyncerConf::from_config_filtered(
        RawCheckpointSyncerConf::Unknown,
        &ConfigPath::root(),
        DirOutcome::Existing,
    );
    let e = one(r.unwrap_err());
    assert_eq!(e.kind, ConfigErrorKind::UnknownVariant);
    assert_eq!(segs(&e.path), vec!["type".to_string()]);
}

#[test]
fn structured_round_trip_keeps_fields() {
    let raw = RawCheckpointSyncerConf::S3 {
        bucket: Some("my-bucket".to_string()),
        region: Some("ap-south-1".to_string()),
    };
    let c = CheckpointSyncerConf::from_config_filtered(raw, &ConfigPath::root(), DirOutcome::Existing)
        .unwrap();
    match c.to_raw() {
        RawCheckpointSyncerConf::S3 { bucket, region } => {
            assert_eq!(bucket.as_deref(), Some("my-bucket"));
            assert_eq!(region.as_deref(), Some("ap-south-1"));
        }
        other => panic!("unexpected {:?}", other),
    }
    let again =
        CheckpointSyncerConf::from_config_filtered(c.to_raw(), &ConfigPath::root(), DirOutcome::Existing)
            .unwrap();
    match again {
        CheckpointSyncerConf::S3 { bucket, region } => {
            assert_eq!(bucket, "my-bucket");
            assert_eq!(region, "ap-south-1");
        }
        other => panic!("unexpected {:?}", other),
    }
}

#[test]
fn dotted_path() {
    let p = ConfigPath::root()
        .join("chains")
        .join("ethereum")
        .join("checkpointSyncer")
        .join("bucket");
    assert_eq!(p.dotted(), "chains.ethereum.checkpointSyncer.bucket");
    assert_eq!(ConfigPath::root().dotted(), "");
}

#[test]
fn uri_parses_through_from_str_trait() {
    let c: CheckpointSyncerConf = "s3://bkt/eu-central-1".parse().unwrap();
    match c {
        CheckpointSyncerConf::S3 { bucket, region } => {
            assert_eq!(bucket, "bkt");
            assert_eq!(region, "eu-central-1");
        }
        other => panic!("unexpected {:?}", other),
    }
    assert!("gs://x".parse::<CheckpointSyncerConf>().is_err());
}

#[test]
fn uri_round_trip_of_written_form() {
    let c = CheckpointSyncerConf::S3 { bucket: "my-bucket".to_string(), region: "us-east-1".to_string() };
    assert_eq!(c.to_uri(), "s3://my-bucket/us-east-1");
    match CheckpointSyncerConf::from_str(&c.to_uri()) {
        Ok(CheckpointSyncerConf::S3 { bucket, region }) => {
            assert_eq!(bucket, "my-bucket");
            assert_eq!(region, "us-east-1");
        }
        other => panic!("unexpected {:?}", other),
    }
    let l = CheckpointSyncerConf::LocalStorage { path: "/var/sigs".to_string() };
    assert_eq!(l.to_uri(), "file:///var/sigs");
    let odd = CheckpointSyncerConf::LocalStorage { path: "x://y".to_string() };
    match CheckpointSyncerConf::from_str(&odd.to_uri()) {
        Ok(CheckpointSyncerConf::LocalStorage { path }) => assert_eq!(path, "x://y"),
        other => panic!("unexpected {:?}", other),
    }
}
