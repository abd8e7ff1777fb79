//! The convergence engine: planning one reconcile pass and turning the
//! database manager's outcome into a scheduling decision.
//!
//! The engine is stateless across invocations. A pass has three terminal
//! outcomes: converged (requeue after a fixed delay), a collaborator error
//! (propagated unmodified), or a fatal error (malformed object or invalid
//! spec, which re-running cannot mend).
//!
//! The collaborator call itself — the database manager converging actual
//! cluster state — is outside this crate: the caller executes the returned
//! plan, performs the call when the plan asks for one, and hands the outcome
//! to `decide_schedule`.

use vstd::prelude::*;

use crate::config::DatabaseConfig;
use crate::config::DatabaseConfigView;
use crate::config::DesiredDatabaseSpec;
use crate::config::DesiredDatabaseSpecView;
use crate::config::ValidationError;
use crate::config::ValidationErrorView;
use crate::config::view_opt;
use crate::resolver::resolve;
use crate::resolver::resolve_model;

verus! {

/// Delay, in seconds, after which a successful pass asks the controller
/// runtime to re-invoke reconciliation. The fixed interval polls externally
/// observed cluster health that no object-change event reports.
pub const REQUEUE_DELAY_SECONDS: u64 = 300;

/// The database type discriminator this engine handles.
pub open spec fn handled_db_type() -> Seq<char> {
    "cloudnativepg"@
}

/// Scheduling decision returned to the controller runtime.
#[derive(Clone, Copy, Debug, PartialEq, Eq, Structural)]
pub enum Action {
    /// Re-invoke this reconcile pass after the given number of seconds,
    /// even if nothing external changed.
    RequeueAfter(u64),
}

/// Error of the database manager collaborator: any failure converging
/// actual cluster state. The engine propagates it unmodified.
#[derive(Clone, Debug, PartialEq)]
pub struct CollaboratorError {
    pub message: String,
}

pub ghost struct CollaboratorErrorView {
    pub message: Seq<char>,
}

impl View for CollaboratorError {
    type V = CollaboratorErrorView;

    open spec fn view(&self) -> CollaboratorErrorView {
        CollaboratorErrorView { message: self.message@ }
    }
}

/// Why a reconcile pass failed.
#[derive(Clone, Debug, PartialEq)]
pub enum ReconcileError {
    /// The object lacks a namespace: malformed or cluster-scoped, fatal and
    /// non-retryable, since re-running the same pass cannot succeed without
    /// external correction.
    MissingNamespace,
    /// The desired spec left a required field empty; fatal per pass, since
    /// the input will not change until the user edits it.
    InvalidSpec(ValidationError),
    /// The database manager failed to converge; propagated unmodified and
    /// left to the runtime's retry and backoff policy.
    Collaborator(CollaboratorError),
}

pub ghost enum ReconcileErrorView {
    MissingNamespace,
    InvalidSpec(ValidationErrorView),
    Collaborator(CollaboratorErrorView),
}

impl View for ReconcileError {
    type V = ReconcileErrorView;

    open spec fn view(&self) -> ReconcileErrorView {
        match self {
            ReconcileError::MissingNamespace => ReconcileErrorView::MissingNamespace,
            ReconcileError::InvalidSpec(e) => ReconcileErrorView::InvalidSpec(e@),
            ReconcileError::Collaborator(e) => ReconcileErrorView::Collaborator(e@),
        }
    }
}

impl ReconcileError {
    /// The kind of this error, for the runtime's status reporting.
    pub open spec fn spec_kind(&self) -> Seq<char> {
        match self {
            ReconcileError::MissingNamespace => "IdentityError"@,
            ReconcileError::InvalidSpec(_) => "ValidationError"@,
            ReconcileError::Collaborator(_) => "CollaboratorError"@,
        }
    }

    /// Returns the error's kind as a string.
    pub fn kind(&self) -> (r: String)
        ensures
            r@ == self.spec_kind(),
    {
        match self {
            ReconcileError::MissingNamespace => "IdentityError".to_owned(),
            ReconcileError::InvalidSpec(_) => "ValidationError".to_owned(),
            ReconcileError::Collaborator(_) => "CollaboratorError".to_owned(),
        }
    }
}

/// Plain-value mirror of the custom-resource object, as far as this engine
/// reads it: identity plus the optional database block of the spec.
#[derive(Clone, Debug)]
pub struct StellarCoreObject {
    pub name: String,
    /// Namespace of the object; a namespaced object always has one, so its
    /// absence marks the object malformed.
    pub namespace: Option<String>,
    pub database: Option<DesiredDatabaseSpec>,
}

pub ghost struct StellarCoreObjectView {
    pub name: Seq<char>,
    pub namespace: Option<Seq<char>>,
    pub database: Option<DesiredDatabaseSpecView>,
}

impl View for StellarCoreObject {
    type V = StellarCoreObjectView;

    open spec fn view(&self) -> StellarCoreObjectView {
        StellarCoreObjectView {
            name: self.name@,
            namespace: view_opt(self.namespace),
            database: view_opt(self.database),
        }
    }
}

/// What one reconcile pass has to do about the database: nothing, or one
/// collaborator call with the resolved configuration.
#[derive(Clone, Debug)]
pub enum ReconcilePlan {
    /// No database block, or a type discriminator this engine does not
    /// handle: skip database reconciliation; not an error.
    Skip,
    /// Invoke the database manager's `reconcile_database(name, namespace,
    /// config)` with the fully-resolved configuration.
    Converge { name: String, namespace: String, config: DatabaseConfig },
}

pub ghost enum ReconcilePlanView {
    Skip,
    Converge { name: Seq<char>, namespace: Seq<char>, config: DatabaseConfigView },
}

impl View for ReconcilePlan {
    type V = ReconcilePlanView;

    open spec fn view(&self) -> ReconcilePlanView {
        match self {
            ReconcilePlan::Skip => ReconcilePlanView::Skip,
            ReconcilePlan::Converge { name, namespace, config } => ReconcilePlanView::Converge {
                name: name@,
                namespace: namespace@,
                config: config@,
            },
        }
    }
}

/// The plan of one reconcile pass as a function of the object: a missing
/// namespace is a fatal identity error; no database block, or an unhandled
/// type discriminator, is a skip; otherwise the spec is resolved, an invalid
/// spec is a fatal validation error, and a resolved one is converged.
pub open spec fn plan_model(obj: StellarCoreObjectView) -> Result<
    ReconcilePlanView,
    ReconcileErrorView,
> {
    match obj.namespace {
        None => Err(ReconcileErrorView::MissingNamespace),
        Some(namespace) => match obj.database {
            None => Ok(ReconcilePlanView::Skip),
            Some(db) => if db.db_type != handled_db_type() {
                Ok(ReconcilePlanView::Skip)
            } else {
                match resolve_model(db) {
                    Ok(config) => Ok(ReconcilePlanView::Converge {
                        name: obj.name,
                        namespace,
                        config,
                    }),
                    Err(e) => Err(ReconcileErrorView::InvalidSpec(e)),
                }
            },
        },
    }
}

/// Plans one reconcile pass for the object: extracts its identity, fails on
/// a missing namespace, skips an absent database block or an unrecognized
/// type discriminator, and otherwise resolves the desired spec for exactly
/// one collaborator call.
pub fn plan_reconcile(obj: &StellarCoreObject) -> (r: Result<ReconcilePlan, ReconcileError>)
    ensures
        r matches Ok(p) ==> plan_model(obj@) matches Ok(m) && p@ == m,
        r matches Err(e) ==> plan_model(obj@) matches Err(m) && e@ == m,
{
    let namespace: String = match &obj.namespace {
        Some(ns) => ns.clone(),
        None => {
            return Err(ReconcileError::MissingNamespace);
        },
    };
    match &obj.database {
        None => Ok(ReconcilePlan::Skip),
        Some(db) => {
            let handled: String = "cloudnativepg".to_owned();
            if db.db_type == handled {
                match resolve(db) {
                    Ok(config) => Ok(ReconcilePlan::Converge {
                        name: obj.name.clone(),
                        namespace,
                        config,
                    }),
                    Err(e) => Err(ReconcileError::InvalidSpec(e)),
                }
            } else {
                Ok(ReconcilePlan::Skip)
            }
        },
    }
}

/// Turns the collaborator's outcome into the pass's scheduling decision: a
/// successful pass always yields a requeue after exactly
/// `REQUEUE_DELAY_SECONDS`, and a collaborator error always yields that
/// error propagated unmodified, never a success decision.
pub fn decide_schedule(outcome: Result<(), CollaboratorError>) -> (r: Result<
    Action,
    ReconcileError,
>)
    ensures
        outcome is Ok ==> r == Ok::<Action, ReconcileError>(
            Action::RequeueAfter(REQUEUE_DELAY_SECONDS),
        ),
        outcome matches Err(e) ==> r matches Err(re) && re@ == ReconcileErrorView::Collaborator(
            e@,
        ),
{
    match outcome {
        Ok(()) => Ok(Action::RequeueAfter(REQUEUE_DELAY_SECONDS)),
        Err(e) => Err(ReconcileError::Collaborator(e)),
    }
}

/// Namespace requirement: an object with no namespace fails the pass with
/// the identity error before any plan is made, so it never reaches the
/// collaborator call.
pub proof fn lemma_namespace_required(obj: StellarCoreObjectView)
    requires
        obj.namespace is None,
    ensures
        plan_model(obj) == Err::<ReconcilePlanView, ReconcileErrorView>(
            ReconcileErrorView::MissingNamespace,
        ),
        !(plan_model(obj) matches Ok(p) && p is Converge),
{
}

/// Plan determinism: planning equal objects yields equal plans, so repeated
/// passes over an unchanged object hand the collaborator an identical
/// resolved configuration — the serialization of passes plus the
/// collaborator's idempotent-convergence contract is what keeps convergence
/// idempotent.
pub proof fn lemma_plan_determinism(a: StellarCoreObjectView, b: StellarCoreObjectView)
    requires
        a == b,
    ensures
        plan_model(a) == plan_model(b),
{
}

} // verus!
