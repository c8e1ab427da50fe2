//! Data migrations: their registry, and the per-record decisions of the
//! two that transform records one by one (the auth split and the
//! attribution cutover). The database reads and writes around those
//! decisions belong to the migration runner.

use vstd::prelude::*;
use crate::text::{to_owned, str_eq};
use crate::config::opt_view;

verus! {

/// A named, described data migration.
pub trait Migration {
    /// The stable id the runner is invoked with.
    spec fn spec_id(&self) -> Seq<char>;

    /// One line on what the migration does.
    spec fn spec_description(&self) -> Seq<char>;

    /// The stable id the runner is invoked with.
    fn id(&self) -> (r: &'static str)
        ensures
            r@ == self.spec_id(),
    ;

    /// One line on what the migration does.
    fn description(&self) -> (r: &'static str)
        ensures
            r@ == self.spec_description(),
    ;
}

/// Split `api_keys` into tenants, users and secret keys.
pub struct M001AuthSplit;

/// Backfill billing fields on existing tenants.
pub struct M002BillingFoundation;

/// Move one-off tokens into the unified `tokens` collection.
pub struct M003UnifyTokens;

/// Give every secret key an explicit full scope.
pub struct M004SecretKeyScopeBackfill;

/// Move identity bindings from `installs` to `app_users`.
pub struct M005AttributionCutover;

impl Migration for M001AuthSplit {
    open spec fn spec_id(&self) -> Seq<char> {
        "m001_auth_split"@
    }

    open spec fn spec_description(&self) -> Seq<char> {
        "Split api_keys into tenants + users + secret_keys collections"@
    }

    fn id(&self) -> &'static str {
        "m001_auth_split"
    }

    fn description(&self) -> &'static str {
        "Split api_keys into tenants + users + secret_keys collections"
    }
}

impl Migration for M002BillingFoundation {
    open spec fn spec_id(&self) -> Seq<char> {
        "m002_billing_foundation"@
    }

    open spec fn spec_description(&self) -> Seq<char> {
        "Backfill plan_tier/billing_method/status on existing tenants"@
    }

    fn id(&self) -> &'static str {
        "m002_billing_foundation"
    }

    fn description(&self) -> &'static str {
        "Backfill plan_tier/billing_method/status on existing tenants"
    }
}

impl Migration for M003UnifyTokens {
    open spec fn spec_id(&self) -> Seq<char> {
        "m003_unify_tokens"@
    }

    open spec fn spec_description(&self) -> Seq<char> {
        "Retire users.verify_token + secret_key_create_requests + billing_magic_links in favor of the unified `tokens` collection"@
    }

    fn id(&self) -> &'static str {
        "m003_unify_tokens"
    }

    fn description(&self) -> &'static str {
        "Retire users.verify_token + secret_key_create_requests + billing_magic_links in favor of the unified `tokens` collection"
    }
}

impl Migration for M004SecretKeyScopeBackfill {
    open spec fn spec_id(&self) -> Seq<char> {
        "m004_secret_key_scope_backfill"@
    }

    open spec fn spec_description(&self) -> Seq<char> {
        "Backfill SecretKeyDoc.scope = { type: \"full\" } on rows missing scope"@
    }

    fn id(&self) -> &'static str {
        "m004_secret_key_scope_backfill"
    }

    fn description(&self) -> &'static str {
        "Backfill SecretKeyDoc.scope = { type: \"full\" } on rows missing scope"
    }
}

impl Migration for M005AttributionCutover {
    open spec fn spec_id(&self) -> Seq<char> {
        "m005_attribution_cutover"@
    }

    open spec fn spec_description(&self) -> Seq<char> {
        "Migrate (user_id, install_id) bindings from installs to app_users, then drop installs"@
    }

    fn id(&self) -> &'static str {
        "m005_attribution_cutover"
    }

    fn description(&self) -> &'static str {
        "Migrate (user_id, install_id) bindings from installs to app_users, then drop installs"
    }
}

/// The migrations the runner knows by id.
#[derive(Clone, Copy, Debug, PartialEq, Eq, Structural)]
pub enum RegisteredMigration {
    AuthSplit,
    BillingFoundation,
    UnifyTokens,
}

/// The id of a registered migration.
pub open spec fn registered_id(m: RegisteredMigration) -> Seq<char> {
    match m {
        RegisteredMigration::AuthSplit => "m001_auth_split"@,
        RegisteredMigration::BillingFoundation => "m002_billing_foundation"@,
        RegisteredMigration::UnifyTokens => "m003_unify_tokens"@,
    }
}

impl RegisteredMigration {
    /// The migration's id.
    pub fn id(self) -> (r: &'static str)
        ensures
            r@ == registered_id(self),
    {
        match self {
            RegisteredMigration::AuthSplit => "m001_auth_split",
            RegisteredMigration::BillingFoundation => "m002_billing_foundation",
            RegisteredMigration::UnifyTokens => "m003_unify_tokens",
        }
    }

    /// The migration's description.
    pub fn description(self) -> (r: &'static str)
        ensures
            r@ == match self {
                RegisteredMigration::AuthSplit => M001AuthSplit.spec_description(),
                RegisteredMigration::BillingFoundation => M002BillingFoundation.spec_description(),
                RegisteredMigration::UnifyTokens => M003UnifyTokens.spec_description(),
            },
    {
        match self {
            RegisteredMigration::AuthSplit => M001AuthSplit.description(),
            RegisteredMigration::BillingFoundation => M002BillingFoundation.description(),
            RegisteredMigration::UnifyTokens => M003UnifyTokens.description(),
        }
    }
}

/// Every registered migration, in the order they run.
pub fn all() -> (r: Vec<RegisteredMigration>)
    ensures
        r@ == seq![
            RegisteredMigration::AuthSplit,
            RegisteredMigration::BillingFoundation,
            RegisteredMigration::UnifyTokens,
        ],
{
    let mut v = Vec::new();
    v.push(RegisteredMigration::AuthSplit);
    v.push(RegisteredMigration::BillingFoundation);
    v.push(RegisteredMigration::UnifyTokens);
    v
}

/// The registered migration with id `name`.
pub fn get_by_name(name: &str) -> (r: Option<RegisteredMigration>)
    ensures
        match r {
            Some(m) => registered_id(m) == name@,
            None => forall|m: RegisteredMigration| registered_id(m) != name@,
        },
{
    let list = all();
    let mut i: usize = 0;
    while i < list.len()
        invariant
            i <= list@.len(),
            list@ == seq![
                RegisteredMigration::AuthSplit,
                RegisteredMigration::BillingFoundation,
                RegisteredMigration::UnifyTokens,
            ],
            forall|k: int| 0 <= k < i ==> registered_id(#[trigger] list@[k]) != name@,
        decreases list@.len() - i,
    {
        if str_eq(list[i].id(), name) {
            return Some(list[i]);
        }
        i = i + 1;
    }
    assert forall|m: RegisteredMigration| registered_id(m) != name@ by {
        match m {
            RegisteredMigration::AuthSplit => assert(registered_id(list@[0]) != name@),
            RegisteredMigration::BillingFoundation => assert(registered_id(list@[1]) != name@),
            RegisteredMigration::UnifyTokens => assert(registered_id(list@[2]) != name@),
        }
    }
    None
}

// ── Auth split ──

/// What the auth split reads of one `api_keys` record; a field that is
/// missing or of another type is `None`.
#[derive(Clone, Debug)]
pub struct ApiKeyRecord {
    pub id: Option<[u8; 12]>,
    pub email: Option<String>,
    pub verified: Option<bool>,
    pub key_hash: Option<String>,
    pub key_prefix: Option<String>,
    pub monthly_quota: Option<i64>,
    pub created_at: Option<i64>,
}

/// A record the auth split can migrate, its defaults filled in.
#[derive(Clone, Debug)]
pub struct AuthSplitFields {
    pub old_id: [u8; 12],
    pub email: String,
    pub verified: bool,
    pub key_hash: String,
    pub key_prefix: String,
    pub monthly_quota: i64,
    pub created_at: i64,
}

/// A string field, or empty.
pub open spec fn text_or_empty(o: Option<String>) -> Seq<char> {
    match opt_view(&o) {
        Some(s) => s,
        None => Seq::empty(),
    }
}

/// The migratable fields of a record at time `now`: `None` without an id or
/// an email; otherwise unverified, no key, quota 100 and created now unless
/// the record says otherwise.
pub open spec fn auth_split_fields_ok(rec: ApiKeyRecord, now: i64, f: AuthSplitFields) -> bool {
    &&& rec.id == Some(f.old_id)
    &&& opt_view(&rec.email) == Some(f.email@)
    &&& f.verified == (match rec.verified {
        Some(b) => b,
        None => false,
    })
    &&& f.key_hash@ == text_or_empty(rec.key_hash)
    &&& f.key_prefix@ == text_or_empty(rec.key_prefix)
    &&& f.monthly_quota == (match rec.monthly_quota {
        Some(q) => q,
        None => 100,
    })
    &&& f.created_at == (match rec.created_at {
        Some(t) => t,
        None => now,
    })
}

fn text_or_empty_exec(o: &Option<String>) -> (r: String)
    ensures
        r@ == text_or_empty(*o),
{
    match o {
        Some(s) => s.clone(),
        None => String::new(),
    }
}

/// Read a record for the auth split; `None` when it lacks an id or email.
pub fn auth_split_fields(rec: &ApiKeyRecord, now: i64) -> (r: Option<AuthSplitFields>)
    ensures
        match r {
            Some(f) => auth_split_fields_ok(*rec, now, f),
            None => rec.id is None || rec.email is None,
        },
{
    let old_id = match rec.id {
        Some(id) => id,
        None => return None,
    };
    let email = match &rec.email {
        Some(e) => e.clone(),
        None => return None,
    };
    Some(
        AuthSplitFields {
            old_id,
            email,
            verified: match rec.verified {
                Some(b) => b,
                None => false,
            },
            key_hash: text_or_empty_exec(&rec.key_hash),
            key_prefix: text_or_empty_exec(&rec.key_prefix),
            monthly_quota: match rec.monthly_quota {
                Some(q) => q,
                None => 100,
            },
            created_at: match rec.created_at {
                Some(t) => t,
                None => now,
            },
        },
    )
}

/// What to do with one readable record.
#[derive(Clone, Copy, Debug, PartialEq, Eq, Structural)]
pub enum AuthSplitPlan {
    /// A tenant with this id exists already.
    AlreadyMigrated,
    /// Dry run: report it.
    Report,
    /// Create the tenant and owner user, and a secret key when `with_key`.
    Write { with_key: bool },
}

/// Whether the old record carries a usable key: verified with a key hash.
pub open spec fn has_key(f: AuthSplitFields) -> bool {
    f.verified && f.key_hash@.len() > 0
}

/// The plan for a readable record.
pub open spec fn auth_split_plan_of(f: AuthSplitFields, already: bool, dry_run: bool) -> AuthSplitPlan {
    if already {
        AuthSplitPlan::AlreadyMigrated
    } else if dry_run {
        AuthSplitPlan::Report
    } else {
        AuthSplitPlan::Write { with_key: has_key(f) }
    }
}

/// Plan one readable record: skip it when already migrated, report it on a
/// dry run, else write it, with a secret key only for a verified account
/// with a key hash.
pub fn auth_split_plan(f: &AuthSplitFields, already_migrated: bool, dry_run: bool) -> (r: AuthSplitPlan)
    ensures
        r == auth_split_plan_of(*f, already_migrated, dry_run),
{
    if already_migrated {
        AuthSplitPlan::AlreadyMigrated
    } else if dry_run {
        AuthSplitPlan::Report
    } else {
        AuthSplitPlan::Write { with_key: f.verified && f.key_hash.unicode_len() > 0 }
    }
}

/// Running counts of the auth split.
#[derive(Clone, Copy, Debug)]
pub struct AuthSplitTally {
    pub migrated: u64,
    pub skipped: u64,
}

impl AuthSplitTally {
    /// Count one record: unreadable and already-migrated records are
    /// skipped, every other one is migrated (or would be, on a dry run).
    pub fn count(&mut self, plan: Option<AuthSplitPlan>)
        requires
            old(self).migrated < u64::MAX,
            old(self).skipped < u64::MAX,
        ensures
            final(self).migrated + final(self).skipped == old(self).migrated + old(self).skipped + 1,
            final(self).skipped == old(self).skipped + (match plan {
                None => 1int,
                Some(AuthSplitPlan::AlreadyMigrated) => 1int,
                _ => 0int,
            }),
    {
        match plan {
            None => self.skipped = self.skipped + 1,
            Some(AuthSplitPlan::AlreadyMigrated) => self.skipped = self.skipped + 1,
            _ => self.migrated = self.migrated + 1,
        }
    }
}

// ── Attribution cutover ──

/// What the cutover reads of one `installs` record; a field that is
/// missing or of another type is `None`.
#[derive(Clone, Debug)]
pub struct InstallRecord {
    pub tenant_id: Option<[u8; 12]>,
    pub install_id: Option<String>,
    pub user_id: Option<String>,
    pub identified_at: Option<i64>,
    pub first_attributed_at: Option<i64>,
}

/// An identity binding to carry over.
#[derive(Clone, Debug)]
pub struct IdentityBinding {
    pub tenant_id: [u8; 12],
    pub install_id: String,
    pub user_id: String,
    pub identified_at: i64,
}

/// The binding of a record at time `now`: it needs a tenant, an install id
/// and a user id; it was identified when the record says, else when first
/// attributed, else now.
pub open spec fn binding_ok(rec: InstallRecord, now: i64, b: IdentityBinding) -> bool {
    &&& rec.tenant_id == Some(b.tenant_id)
    &&& opt_view(&rec.install_id) == Some(b.install_id@)
    &&& opt_view(&rec.user_id) == Some(b.user_id@)
    &&& b.identified_at == (match rec.identified_at {
        Some(t) => t,
        None => match rec.first_attributed_at {
            Some(t) => t,
            None => now,
        },
    })
}

/// Whether a record can be carried over.
pub open spec fn is_well_formed_install(rec: InstallRecord) -> bool {
    rec.tenant_id is Some && rec.install_id is Some && rec.user_id is Some
}

/// The counters of a cutover run.
#[derive(Clone, Copy, Debug)]
pub struct CutoverStats {
    pub installs_scanned: u64,
    pub skipped: u64,
    pub would_upsert: u64,
    pub upserted: u64,
}

/// Scanned records not yet accounted for by a counter: those whose
/// binding is being written.
pub open spec fn pending(s: CutoverStats) -> int {
    s.installs_scanned - s.skipped - s.would_upsert - s.upserted
}

impl CutoverStats {
    /// No record scanned.
    pub fn new() -> (r: Self)
        ensures
            r.installs_scanned == 0 && r.skipped == 0 && r.would_upsert == 0 && r.upserted == 0,
    {
        CutoverStats { installs_scanned: 0, skipped: 0, would_upsert: 0, upserted: 0 }
    }

    /// Scan one record. A malformed one is skipped; on a dry run a
    /// well-formed one would be upserted; otherwise its binding is returned
    /// to be written, and counted by [`CutoverStats::confirm_upsert`].
    pub fn scan(&mut self, rec: &InstallRecord, dry_run: bool, now: i64) -> (r: Option<IdentityBinding>)
        requires
            old(self).installs_scanned < u64::MAX,
            old(self).skipped < u64::MAX,
            old(self).would_upsert < u64::MAX,
        ensures
            final(self).installs_scanned == old(self).installs_scanned + 1,
            final(self).upserted == old(self).upserted,
            !is_well_formed_install(*rec) ==> r is None && final(self).skipped == old(self).skipped + 1
                && final(self).would_upsert == old(self).would_upsert,
            is_well_formed_install(*rec) && dry_run ==> r is None && final(self).would_upsert == old(
                self,
            ).would_upsert + 1 && final(self).skipped == old(self).skipped,
            is_well_formed_install(*rec) && !dry_run ==> r is Some && binding_ok(*rec, now, r->0)
                && final(self).skipped == old(self).skipped && final(self).would_upsert == old(
                self,
            ).would_upsert,
            pending(*final(self)) == pending(*old(self)) + (if r is Some {
                1int
            } else {
                0int
            }),
    {
        self.installs_scanned = self.installs_scanned + 1;
        let tenant_id = match rec.tenant_id {
            Some(t) => t,
            None => {
                self.skipped = self.skipped + 1;
                return None;
            },
        };
        let install_id = match &rec.install_id {
            Some(s) => s.clone(),
            None => {
                self.skipped = self.skipped + 1;
                return None;
            },
        };
        let user_id = match &rec.user_id {
            Some(s) => s.clone(),
            None => {
                self.skipped = self.skipped + 1;
                return None;
            },
        };
        let identified_at = match rec.identified_at {
            Some(t) => t,
            None => match rec.first_attributed_at {
                Some(t) => t,
                None => now,
            },
        };
        if dry_run {
            self.would_upsert = self.would_upsert + 1;
            return None;
        }
        Some(IdentityBinding { tenant_id, install_id, user_id, identified_at })
    }

    /// Count a binding that was written.
    pub fn confirm_upsert(&mut self)
        requires
            old(self).upserted < u64::MAX,
        ensures
            final(self).upserted == old(self).upserted + 1,
            final(self).installs_scanned == old(self).installs_scanned,
            final(self).skipped == old(self).skipped,
            final(self).would_upsert == old(self).would_upsert,
            pending(*final(self)) == pending(*old(self)) - 1,
    {
        self.upserted = self.upserted + 1;
    }
}

/// Every scanned record lands in exactly one counter once its write, if
/// any, is confirmed: a scan that hands out a binding followed by its
/// confirmation leaves the balance of a fully accounted run at zero.
pub proof fn lemma_cutover_accounting(s0: CutoverStats, s1: CutoverStats, s2: CutoverStats, wrote: bool)
    requires
        pending(s0) == 0,
        pending(s1) == pending(s0) + (if wrote {
            1int
        } else {
            0int
        }),
        wrote ==> pending(s2) == pending(s1) - 1,
        !wrote ==> s2 == s1,
    ensures
        s2.installs_scanned == s2.skipped + s2.would_upsert + s2.upserted,
{
}

} // verus!
