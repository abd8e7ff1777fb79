use stellar_reconcile::config::BackupSpec;
use stellar_reconcile::config::DesiredDatabaseSpec;
use stellar_reconcile::config::PoolerSpec;
use stellar_reconcile::config::S3CredentialsSpec;
use stellar_reconcile::config::S3Spec;
use stellar_reconcile::config::StorageSpec;
use stellar_reconcile::resolver::resolve;

fn empty_spec() -> DesiredDatabaseSpec {
    DesiredDatabaseSpec {
        db_type: "cloudnativepg".to_string(),
        instances: None,
        storage: None,
        backup: None,
        pooler: None,
    }
}

#[test]
fn defaults_for_entirely_empty_spec() {
    let resolved = resolve(&empty_spec()).expect("resolution of an empty spec succeeds");
    assert_eq!(resolved.instances, 3);
    assert_eq!(resolved.storage.size, "10Gi");
    assert_eq!(resolved.storage.storage_class, None);
    assert!(resolved.backup.enabled);
    assert_eq!(resolved.backup.retention_policy, "30d");
    assert_eq!(resolved.backup.schedule, "0 0 * * *");
    assert!(resolved.backup.s3.is_none());
    assert!(resolved.pooler.enabled);
    assert_eq!(resolved.pooler.instances, 2);
    assert_eq!(resolved.pooler.pool_mode, "transaction");
    assert_eq!(resolved.pooler.max_client_conn, 1000);
}

#[test]
fn s3_defaults_with_no_credentials_block() {
    let mut spec = empty_spec();
    spec.backup = Some(BackupSpec {
        enabled: None,
        retention_policy: None,
        schedule: None,
        s3: Some(S3Spec {
            bucket: "b".to_string(),
            region: "us-east-1".to_string(),
            endpoint_url: None,
            credentials: None,
        }),
    });
    let resolved = resolve(&spec).expect("resolution succeeds");
    let s3 = resolved.backup.s3.expect("an S3 target is resolved");
    assert_eq!(s3.bucket, "b");
    assert_eq!(s3.region, "us-east-1");
    assert_eq!(s3.endpoint_url, "");
    assert_eq!(s3.credentials.secret_name, "s3-credentials");
}

#[test]
fn empty_bucket_fails_validation() {
    let mut spec = empty_spec();
    spec.backup = Some(BackupSpec {
        enabled: None,
        retention_policy: None,
        schedule: None,
        s3: Some(S3Spec {
            bucket: "".to_string(),
            region: "us-east-1".to_string(),
            endpoint_url: None,
            credentials: None,
        }),
    });
    let err = resolve(&spec).expect_err("an empty bucket is rejected");
    assert_eq!(err.field, "s3.bucket");
    assert_eq!(err.reason, "required field is empty");
}

#[test]
fn empty_region_fails_validation() {
    let mut spec = empty_spec();
    spec.backup = Some(BackupSpec {
        enabled: None,
        retention_policy: None,
        schedule: None,
        s3: Some(S3Spec {
            bucket: "b".to_string(),
            region: "".to_string(),
            endpoint_url: None,
            credentials: None,
        }),
    });
    let err = resolve(&spec).expect_err("an empty region is rejected");
    assert_eq!(err.field, "s3.region");
    assert_eq!(err.reason, "required field is empty");
}

#[test]
fn explicit_values_override_every_default() {
    let spec = DesiredDatabaseSpec {
        db_type: "cloudnativepg".to_string(),
        instances: Some(5),
        storage: Some(StorageSpec {
            size: Some("50Gi".to_string()),
            storage_class: Some("fast-ssd".to_string()),
        }),
        backup: Some(BackupSpec {
            enabled: Some(false),
            retention_policy: Some("7d".to_string()),
            schedule: Some("0 3 * * *".to_string()),
            s3: Some(S3Spec {
                bucket: "backups".to_string(),
                region: "eu-west-2".to_string(),
                endpoint_url: Some("https://s3.example".to_string()),
                credentials: Some(S3CredentialsSpec {
                    secret_name: Some("my-creds".to_string()),
                }),
            }),
        }),
        pooler: Some(PoolerSpec {
            enabled: Some(false),
            instances: Some(4),
            pool_mode: Some("session".to_string()),
            max_client_conn: Some(250),
        }),
    };
    let resolved = resolve(&spec).expect("resolution succeeds");
    assert_eq!(resolved.instances, 5);
    assert_eq!(resolved.storage.size, "50Gi");
    assert_eq!(resolved.storage.storage_class, Some("fast-ssd".to_string()));
    assert!(!resolved.backup.enabled);
    assert_eq!(resolved.backup.retention_policy, "7d");
    assert_eq!(resolved.backup.schedule, "0 3 * * *");
    let s3 = resolved.backup.s3.expect("an S3 target is resolved");
    assert_eq!(s3.bucket, "backups");
    assert_eq!(s3.region, "eu-west-2");
    assert_eq!(s3.endpoint_url, "https://s3.example");
    assert_eq!(s3.credentials.secret_name, "my-creds");
    assert!(!resolved.pooler.enabled);
    assert_eq!(resolved.pooler.instances, 4);
    assert_eq!(resolved.pooler.pool_mode, "session");
    assert_eq!(resolved.pooler.max_client_conn, 250);
}

#[test]
fn present_block_defaults_only_its_absent_fields() {
    let mut spec = empty_spec();
    spec.backup = Some(BackupSpec {
        enabled: Some(false),
        retention_policy: None,
        schedule: None,
        s3: None,
    });
    spec.pooler = Some(PoolerSpec {
        enabled: None,
        instances: Some(1),
        pool_mode: None,
        max_client_conn: None,
    });
    let resolved = resolve(&spec).expect("resolution succeeds");
    assert!(!resolved.backup.enabled);
    assert_eq!(resolved.backup.retention_policy, "30d");
    assert_eq!(resolved.backup.schedule, "0 0 * * *");
    assert!(resolved.backup.s3.is_none());
    assert!(resolved.pooler.enabled);
    assert_eq!(resolved.pooler.instances, 1);
    assert_eq!(resolved.pooler.pool_mode, "transaction");
    assert_eq!(resolved.pooler.max_client_conn, 1000);
}

#[test]
fn resolving_twice_yields_structurally_equal_output() {
    let mut spec = empty_spec();
    spec.instances = Some(7);
    spec.storage = Some(StorageSpec { size: None, storage_class: Some("standard".to_string()) });
    let once = resolve(&spec).expect("resolution succeeds");
    let twice = resolve(&spec).expect("resolution succeeds");
    assert_eq!(once, twice);
}

#[test]
fn totality_on_a_fully_specified_input() {
    let mut spec = empty_spec();
    spec.backup = Some(BackupSpec {
        enabled: Some(true),
        retention_policy: Some("90d".to_string()),
        schedule: Some("30 2 * * 0".to_string()),
        s3: Some(S3Spec {
            bucket: "archive".to_string(),
            region: "ap-south-1".to_string(),
            endpoint_url: Some("".to_string()),
            credentials: Some(S3CredentialsSpec { secret_name: None }),
        }),
    });
    let resolved = resolve(&spec).expect("no required field is empty, so resolution succeeds");
    let s3 = resolved.backup.s3.expect("an S3 target is resolved");
    // An explicitly empty endpoint URL is a user value, not a failure.
    assert_eq!(s3.endpoint_url, "");
    // A credentials block whose field is absent still gets the default name.
    assert_eq!(s3.credentials.secret_name, "s3-credentials");
}
