//! Data model of the reconciliation core.
//!
//! `DesiredDatabaseSpec` is the user-authored, partially-specified desired
//! state: every field below the type discriminator is optional, and an
//! absent block hides all of its children. `DatabaseConfig` is the
//! fully-resolved internal configuration: every field holds a concrete
//! value after resolution, except where absence itself is meaningful
//! (storage class, S3 target).
//!
//! Each executable type has a ghost counterpart (`...View`) in which every
//! string is a `Seq<char>`; the contracts of the resolver and of the engine
//! are stated over these views.

use vstd::prelude::*;

verus! {

/// The view of an optional value, mapped through the `View` of its content.
pub open spec fn view_opt<T: View>(o: Option<T>) -> Option<T::V> {
    match o {
        Some(t) => Some(t@),
        None => None,
    }
}

// ---------------------------------------------------------------------------
// Desired state (user input, partially specified)
// ---------------------------------------------------------------------------

/// Optional storage block of the desired state.
#[derive(Clone, Debug)]
pub struct StorageSpec {
    /// Requested volume size, in Kubernetes quantity syntax.
    pub size: Option<String>,
    /// Requested storage class; absent means the platform default.
    pub storage_class: Option<String>,
}

/// Optional reference to the secret holding S3 credentials.
#[derive(Clone, Debug)]
pub struct S3CredentialsSpec {
    pub secret_name: Option<String>,
}

/// Optional off-cluster backup target of the desired state.
#[derive(Clone, Debug)]
pub struct S3Spec {
    /// Target bucket; required, resolution fails when it is empty.
    pub bucket: String,
    /// Bucket region; required, resolution fails when it is empty.
    pub region: String,
    /// Endpoint URL; absent means the provider default.
    pub endpoint_url: Option<String>,
    pub credentials: Option<S3CredentialsSpec>,
}

/// Optional backup block of the desired state.
#[derive(Clone, Debug)]
pub struct BackupSpec {
    pub enabled: Option<bool>,
    pub retention_policy: Option<String>,
    pub schedule: Option<String>,
    pub s3: Option<S3Spec>,
}

/// Optional connection-pooler block of the desired state.
#[derive(Clone, Debug)]
pub struct PoolerSpec {
    pub enabled: Option<bool>,
    pub instances: Option<u32>,
    pub pool_mode: Option<String>,
    pub max_client_conn: Option<u32>,
}

/// The user-authored database block of the custom resource.
#[derive(Clone, Debug)]
pub struct DesiredDatabaseSpec {
    /// Type discriminator; only `"cloudnativepg"` is currently handled.
    pub db_type: String,
    pub instances: Option<u32>,
    pub storage: Option<StorageSpec>,
    pub backup: Option<BackupSpec>,
    pub pooler: Option<PoolerSpec>,
}

pub ghost struct StorageSpecView {
    pub size: Option<Seq<char>>,
    pub storage_class: Option<Seq<char>>,
}

pub ghost struct S3CredentialsSpecView {
    pub secret_name: Option<Seq<char>>,
}

pub ghost struct S3SpecView {
    pub bucket: Seq<char>,
    pub region: Seq<char>,
    pub endpoint_url: Option<Seq<char>>,
    pub credentials: Option<S3CredentialsSpecView>,
}

pub ghost struct BackupSpecView {
    pub enabled: Option<bool>,
    pub retention_policy: Option<Seq<char>>,
    pub schedule: Option<Seq<char>>,
    pub s3: Option<S3SpecView>,
}

pub ghost struct PoolerSpecView {
    pub enabled: Option<bool>,
    pub instances: Option<u32>,
    pub pool_mode: Option<Seq<char>>,
    pub max_client_conn: Option<u32>,
}

pub ghost struct DesiredDatabaseSpecView {
    pub db_type: Seq<char>,
    pub instances: Option<u32>,
    pub storage: Option<StorageSpecView>,
    pub backup: Option<BackupSpecView>,
    pub pooler: Option<PoolerSpecView>,
}

impl View for StorageSpec {
    type V = StorageSpecView;

    open spec fn view(&self) -> StorageSpecView {
        StorageSpecView { size: view_opt(self.size), storage_class: view_opt(self.storage_class) }
    }
}

impl View for S3CredentialsSpec {
    type V = S3CredentialsSpecView;

    open spec fn view(&self) -> S3CredentialsSpecView {
        S3CredentialsSpecView { secret_name: view_opt(self.secret_name) }
    }
}

impl View for S3Spec {
    type V = S3SpecView;

    open spec fn view(&self) -> S3SpecView {
        S3SpecView {
            bucket: self.bucket@,
            region: self.region@,
            endpoint_url: view_opt(self.endpoint_url),
            credentials: view_opt(self.credentials),
        }
    }
}

impl View for BackupSpec {
    type V = BackupSpecView;

    open spec fn view(&self) -> BackupSpecView {
        BackupSpecView {
            enabled: self.enabled,
            retention_policy: view_opt(self.retention_policy),
            schedule: view_opt(self.schedule),
            s3: view_opt(self.s3),
        }
    }
}

impl View for PoolerSpec {
    type V = PoolerSpecView;

    open spec fn view(&self) -> PoolerSpecView {
        PoolerSpecView {
            enabled: self.enabled,
            instances: self.instances,
            pool_mode: view_opt(self.pool_mode),
            max_client_conn: self.max_client_conn,
        }
    }
}

impl View for DesiredDatabaseSpec {
    type V = DesiredDatabaseSpecView;

    open spec fn view(&self) -> DesiredDatabaseSpecView {
        DesiredDatabaseSpecView {
            db_type: self.db_type@,
            instances: self.instances,
            storage: view_opt(self.storage),
            backup: view_opt(self.backup),
            pooler: view_opt(self.pooler),
        }
    }
}

// ---------------------------------------------------------------------------
// Resolved configuration (internal, fully specified)
// ---------------------------------------------------------------------------

/// Fully-resolved storage configuration.
#[derive(Clone, Debug, PartialEq)]
pub struct StorageConfig {
    pub size: String,
    /// Absence means the platform default; the resolver supplies no value.
    pub storage_class: Option<String>,
}

/// Fully-resolved S3 credentials reference.
#[derive(Clone, Debug, PartialEq)]
pub struct S3CredentialsConfig {
    pub secret_name: String,
}

/// Fully-resolved S3 backup target.
#[derive(Clone, Debug, PartialEq)]
pub struct S3Config {
    pub bucket: String,
    pub region: String,
    /// Empty string means the provider default endpoint.
    pub endpoint_url: String,
    pub credentials: S3CredentialsConfig,
}

/// Fully-resolved backup configuration.
#[derive(Clone, Debug, PartialEq)]
pub struct BackupConfig {
    pub enabled: bool,
    pub retention_policy: String,
    pub schedule: String,
    /// Absent when the user configured no S3 target: backups then proceed
    /// without off-cluster replication.
    pub s3: Option<S3Config>,
}

/// Fully-resolved connection-pooler configuration.
#[derive(Clone, Debug, PartialEq)]
pub struct PoolerConfig {
    pub enabled: bool,
    pub instances: u32,
    pub pool_mode: String,
    pub max_client_conn: u32,
}

/// The fully-resolved internal configuration handed to the database
/// manager: every field holds a concrete value after resolution.
#[derive(Clone, Debug, PartialEq)]
pub struct DatabaseConfig {
    pub instances: u32,
    pub storage: StorageConfig,
    pub backup: BackupConfig,
    pub pooler: PoolerConfig,
}

pub ghost struct StorageConfigView {
    pub size: Seq<char>,
    pub storage_class: Option<Seq<char>>,
}

pub ghost struct S3CredentialsConfigView {
    pub secret_name: Seq<char>,
}

pub ghost struct S3ConfigView {
    pub bucket: Seq<char>,
    pub region: Seq<char>,
    pub endpoint_url: Seq<char>,
    pub credentials: S3CredentialsConfigView,
}

pub ghost struct BackupConfigView {
    pub enabled: bool,
    pub retention_policy: Seq<char>,
    pub schedule: Seq<char>,
    pub s3: Option<S3ConfigView>,
}

pub ghost struct PoolerConfigView {
    pub enabled: bool,
    pub instances: u32,
    pub pool_mode: Seq<char>,
    pub max_client_conn: u32,
}

pub ghost struct DatabaseConfigView {
    pub instances: u32,
    pub storage: StorageConfigView,
    pub backup: BackupConfigView,
    pub pooler: PoolerConfigView,
}

impl View for StorageConfig {
    type V = StorageConfigView;

    open spec fn view(&self) -> StorageConfigView {
        StorageConfigView { size: self.size@, storage_class: view_opt(self.storage_class) }
    }
}

impl View for S3CredentialsConfig {
    type V = S3CredentialsConfigView;

    open spec fn view(&self) -> S3CredentialsConfigView {
        S3CredentialsConfigView { secret_name: self.secret_name@ }
    }
}

impl View for S3Config {
    type V = S3ConfigView;

    open spec fn view(&self) -> S3ConfigView {
        S3ConfigView {
            bucket: self.bucket@,
            region: self.region@,
            endpoint_url: self.endpoint_url@,
            credentials: self.credentials@,
        }
    }
}

impl View for BackupConfig {
    type V = BackupConfigView;

    open spec fn view(&self) -> BackupConfigView {
        BackupConfigView {
            enabled: self.enabled,
            retention_policy: self.retention_policy@,
            schedule: self.schedule@,
            s3: view_opt(self.s3),
        }
    }
}

impl View for PoolerConfig {
    type V = PoolerConfigView;

    open spec fn view(&self) -> PoolerConfigView {
        PoolerConfigView {
            enabled: self.enabled,
            instances: self.instances,
            pool_mode: self.pool_mode@,
            max_client_conn: self.max_client_conn,
        }
    }
}

impl View for DatabaseConfig {
    type V = DatabaseConfigView;

    open spec fn view(&self) -> DatabaseConfigView {
        DatabaseConfigView {
            instances: self.instances,
            storage: self.storage@,
            backup: self.backup@,
            pooler: self.pooler@,
        }
    }
}

// ---------------------------------------------------------------------------
// Validation errors
// ---------------------------------------------------------------------------

/// Error of the resolver: a present configuration block left a field empty
/// that is required in context (the S3 bucket or region).
#[derive(Clone, Debug, PartialEq)]
pub struct ValidationError {
    /// Path of the offending field, such as `"s3.bucket"`.
    pub field: String,
    pub reason: String,
}

pub ghost struct ValidationErrorView {
    pub field: Seq<char>,
    pub reason: Seq<char>,
}

impl View for ValidationError {
    type V = ValidationErrorView;

    open spec fn view(&self) -> ValidationErrorView {
        ValidationErrorView { field: self.field@, reason: self.reason@ }
    }
}

} // verus!
