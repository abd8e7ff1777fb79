//! The spec resolver: a pure function from the partially-specified desired
//! state to a fully-resolved configuration.
//!
//! Each field is resolved independently with a three-tier precedence: the
//! explicit user value if present; the documented default if the field is
//! absent but its containing block is present; and, when a block is absent,
//! every descendant field takes its default without inspecting deeper
//! nesting.

use vstd::prelude::*;

use crate::config::BackupConfig;
use crate::config::BackupConfigView;
use crate::config::BackupSpec;
use crate::config::BackupSpecView;
use crate::config::DatabaseConfig;
use crate::config::DatabaseConfigView;
use crate::config::DesiredDatabaseSpec;
use crate::config::DesiredDatabaseSpecView;
use crate::config::PoolerConfig;
use crate::config::PoolerConfigView;
use crate::config::PoolerSpec;
use crate::config::PoolerSpecView;
use crate::config::S3Config;
use crate::config::S3ConfigView;
use crate::config::S3CredentialsConfig;
use crate::config::S3CredentialsConfigView;
use crate::config::S3Spec;
use crate::config::S3SpecView;
use crate::config::StorageConfig;
use crate::config::StorageConfigView;
use crate::config::StorageSpec;
use crate::config::StorageSpecView;
use crate::config::ValidationError;
use crate::config::ValidationErrorView;
use crate::config::view_opt;

verus! {

/// What an absent or size-less storage block resolves the size to.
pub open spec fn default_storage_size() -> Seq<char> {
    "10Gi"@
}

/// The storage block of the resolved configuration, as a function of the
/// desired storage block.
pub open spec fn resolve_storage_model(st: Option<StorageSpecView>) -> StorageConfigView {
    StorageConfigView {
        size: match st {
            Some(s) => match s.size {
                Some(size) => size,
                None => default_storage_size(),
            },
            None => default_storage_size(),
        },
        storage_class: match st {
            Some(s) => s.storage_class,
            None => None,
        },
    }
}

/// Resolves the storage block: user values win, the size defaults to
/// `"10Gi"`, and an absent storage class stays absent (platform default).
pub fn resolve_storage(st: &Option<StorageSpec>) -> (r: StorageConfig)
    ensures
        r@ == resolve_storage_model(view_opt(*st)),
{
    match st {
        Some(s) => StorageConfig {
            size: match &s.size {
                Some(size) => size.clone(),
                None => "10Gi".to_owned(),
            },
            storage_class: match &s.storage_class {
                Some(c) => Some(c.clone()),
                None => None,
            },
        },
        None => StorageConfig { size: "10Gi".to_owned(), storage_class: None },
    }
}

/// Default secret name for S3 credentials.
pub open spec fn default_s3_secret_name() -> Seq<char> {
    "s3-credentials"@
}

/// Reason carried by every validation error the resolver raises.
pub open spec fn empty_field_reason() -> Seq<char> {
    "required field is empty"@
}

/// The S3 target of the resolved configuration, as a function of a desired
/// S3 block. Fails exactly when the bucket or the region is empty.
pub open spec fn resolve_s3_model(s3: S3SpecView) -> Result<S3ConfigView, ValidationErrorView> {
    if s3.bucket.len() == 0 {
        Err(ValidationErrorView { field: "s3.bucket"@, reason: empty_field_reason() })
    } else if s3.region.len() == 0 {
        Err(ValidationErrorView { field: "s3.region"@, reason: empty_field_reason() })
    } else {
        Ok(S3ConfigView {
            bucket: s3.bucket,
            region: s3.region,
            endpoint_url: match s3.endpoint_url {
                Some(e) => e,
                None => Seq::empty(),
            },
            credentials: S3CredentialsConfigView {
                secret_name: match s3.credentials {
                    Some(c) => match c.secret_name {
                        Some(n) => n,
                        None => default_s3_secret_name(),
                    },
                    None => default_s3_secret_name(),
                },
            },
        })
    }
}

/// Resolves a present S3 block: bucket and region pass through verbatim and
/// must be nonempty, the endpoint URL defaults to the empty string (provider
/// default), and the credentials secret name defaults to `"s3-credentials"`.
pub fn resolve_s3(s3: &S3Spec) -> (r: Result<S3Config, ValidationError>)
    ensures
        r matches Ok(c) ==> resolve_s3_model(s3@) matches Ok(m) && c@ == m,
        r matches Err(e) ==> resolve_s3_model(s3@) matches Err(m) && e@ == m,
{
    if s3.bucket.as_str().is_empty() {
        Err(ValidationError {
            field: "s3.bucket".to_owned(),
            reason: "required field is empty".to_owned(),
        })
    } else if s3.region.as_str().is_empty() {
        Err(ValidationError {
            field: "s3.region".to_owned(),
            reason: "required field is empty".to_owned(),
        })
    } else {
        Ok(S3Config {
            bucket: s3.bucket.clone(),
            region: s3.region.clone(),
            endpoint_url: match &s3.endpoint_url {
                Some(e) => e.clone(),
                None => String::new(),
            },
            credentials: S3CredentialsConfig {
                secret_name: match &s3.credentials {
                    Some(c) => match &c.secret_name {
                        Some(n) => n.clone(),
                        None => "s3-credentials".to_owned(),
                    },
                    None => "s3-credentials".to_owned(),
                },
            },
        })
    }
}

/// What an absent or field-less backup block resolves to: backups are
/// enabled by default, kept for thirty days, taken daily at midnight.
pub open spec fn default_backup_retention() -> Seq<char> {
    "30d"@
}

/// Default cron schedule: daily at midnight.
pub open spec fn default_backup_schedule() -> Seq<char> {
    "0 0 * * *"@
}

/// The backup block of the resolved configuration, as a function of the
/// desired backup block. The boolean and string fields default even when the
/// whole block is absent; the S3 target is resolved only when the user
/// supplied one, and its validation is the only way resolution can fail.
pub open spec fn resolve_backup_model(b: Option<BackupSpecView>) -> Result<
    BackupConfigView,
    ValidationErrorView,
> {
    let s3_resolved = match b {
        Some(bb) => match bb.s3 {
            Some(s3) => match resolve_s3_model(s3) {
                Ok(c) => Ok(Some(c)),
                Err(e) => Err(e),
            },
            None => Ok(None),
        },
        None => Ok(None),
    };
    match s3_resolved {
        Err(e) => Err(e),
        Ok(s3c) => Ok(BackupConfigView {
            enabled: match b {
                Some(bb) => match bb.enabled {
                    Some(en) => en,
                    None => true,
                },
                None => true,
            },
            retention_policy: match b {
                Some(bb) => match bb.retention_policy {
                    Some(rp) => rp,
                    None => default_backup_retention(),
                },
                None => default_backup_retention(),
            },
            schedule: match b {
                Some(bb) => match bb.schedule {
                    Some(sc) => sc,
                    None => default_backup_schedule(),
                },
                None => default_backup_schedule(),
            },
            s3: s3c,
        }),
    }
}

/// Resolves the backup block: enabled defaults to true, retention to
/// `"30d"`, schedule to `"0 0 * * *"`, even when the whole block is absent;
/// an absent S3 block yields no S3 target.
pub fn resolve_backup(b: &Option<BackupSpec>) -> (r: Result<BackupConfig, ValidationError>)
    ensures
        r matches Ok(c) ==> resolve_backup_model(view_opt(*b)) matches Ok(m) && c@ == m,
        r matches Err(e) ==> resolve_backup_model(view_opt(*b)) matches Err(m) && e@ == m,
{
    let s3c: Option<S3Config> = match b {
        Some(bb) => match &bb.s3 {
            Some(s3) => match resolve_s3(s3) {
                Ok(c) => Some(c),
                Err(e) => {
                    return Err(e);
                },
            },
            None => None,
        },
        None => None,
    };
    Ok(BackupConfig {
        enabled: match b {
            Some(bb) => match bb.enabled {
                Some(en) => en,
                None => true,
            },
            None => true,
        },
        retention_policy: match b {
            Some(bb) => match &bb.retention_policy {
                Some(rp) => rp.clone(),
                None => "30d".to_owned(),
            },
            None => "30d".to_owned(),
        },
        schedule: match b {
            Some(bb) => match &bb.schedule {
                Some(sc) => sc.clone(),
                None => "0 0 * * *".to_owned(),
            },
            None => "0 0 * * *".to_owned(),
        },
        s3: s3c,
    })
}

/// Default pool mode of the connection pooler.
pub open spec fn default_pool_mode() -> Seq<char> {
    "transaction"@
}

/// The pooler block of the resolved configuration, as a function of the
/// desired pooler block: enabled by default, two instances, transaction
/// pool mode, at most one thousand client connections.
pub open spec fn resolve_pooler_model(p: Option<PoolerSpecView>) -> PoolerConfigView {
    PoolerConfigView {
        enabled: match p {
            Some(pp) => match pp.enabled {
                Some(en) => en,
                None => true,
            },
            None => true,
        },
        instances: match p {
            Some(pp) => match pp.instances {
                Some(i) => i,
                None => 2,
            },
            None => 2,
        },
        pool_mode: match p {
            Some(pp) => match pp.pool_mode {
                Some(m) => m,
                None => default_pool_mode(),
            },
            None => default_pool_mode(),
        },
        max_client_conn: match p {
            Some(pp) => match pp.max_client_conn {
                Some(m) => m,
                None => 1000,
            },
            None => 1000,
        },
    }
}

/// Resolves the pooler block: enabled defaults to true, instances to 2,
/// pool mode to `"transaction"`, max client connections to 1000.
pub fn resolve_pooler(p: &Option<PoolerSpec>) -> (r: PoolerConfig)
    ensures
        r@ == resolve_pooler_model(view_opt(*p)),
{
    match p {
        Some(pp) => PoolerConfig {
            enabled: match pp.enabled {
                Some(en) => en,
                None => true,
            },
            instances: match pp.instances {
                Some(i) => i,
                None => 2,
            },
            pool_mode: match &pp.pool_mode {
                Some(m) => m.clone(),
                None => "transaction".to_owned(),
            },
            max_client_conn: match pp.max_client_conn {
                Some(m) => m,
                None => 1000,
            },
        },
        None => PoolerConfig {
            enabled: true,
            instances: 2,
            pool_mode: "transaction".to_owned(),
            max_client_conn: 1000,
        },
    }
}

/// The fully-resolved configuration as a function of the desired spec: each
/// sub-section is resolved independently, and only the S3 target can fail.
pub open spec fn resolve_model(s: DesiredDatabaseSpecView) -> Result<
    DatabaseConfigView,
    ValidationErrorView,
> {
    match resolve_backup_model(s.backup) {
        Err(e) => Err(e),
        Ok(backup) => Ok(DatabaseConfigView {
            instances: match s.instances {
                Some(i) => i,
                None => 3,
            },
            storage: resolve_storage_model(s.storage),
            backup,
            pooler: resolve_pooler_model(s.pooler),
        }),
    }
}

/// Whether the desired spec leaves no required field empty: when an S3
/// block is present, its bucket and region are nonempty.
pub open spec fn no_required_empty(s: DesiredDatabaseSpecView) -> bool {
    s.backup matches Some(b) ==> (b.s3 matches Some(s3) ==> s3.bucket.len() > 0
        && s3.region.len() > 0)
}

/// Resolves a desired database spec into a fully-specified configuration,
/// or fails with a validation error naming the offending required field.
/// Resolution succeeds exactly when no required field is left empty, and
/// the result is a pure function of the input.
pub fn resolve(s: &DesiredDatabaseSpec) -> (r: Result<DatabaseConfig, ValidationError>)
    ensures
        r matches Ok(c) ==> resolve_model(s@) matches Ok(m) && c@ == m,
        r matches Err(e) ==> resolve_model(s@) matches Err(m) && e@ == m,
        r is Ok <==> no_required_empty(s@),
{
    proof {
        lemma_resolver_totality(s@);
    }
    let backup = match resolve_backup(&s.backup) {
        Ok(bc) => bc,
        Err(e) => {
            return Err(e);
        },
    };
    Ok(DatabaseConfig {
        instances: match s.instances {
            Some(i) => i,
            None => 3,
        },
        storage: resolve_storage(&s.storage),
        backup,
        pooler: resolve_pooler(&s.pooler),
    })
}

/// Resolver totality: resolution succeeds on exactly the desired specs
/// whose required fields (the S3 bucket and region, when an S3 block is
/// present) are nonempty; on those it fails with a validation error.
pub proof fn lemma_resolver_totality(s: DesiredDatabaseSpecView)
    ensures
        resolve_model(s) is Ok <==> no_required_empty(s),
{
}

/// Resolver determinism: resolving equal desired specs yields structurally
/// equal resolved configurations; resolution is a pure function of its
/// input.
pub proof fn lemma_resolver_determinism(a: DesiredDatabaseSpecView, b: DesiredDatabaseSpecView)
    requires
        a == b,
    ensures
        resolve_model(a) == resolve_model(b),
{
}

} // verus!
