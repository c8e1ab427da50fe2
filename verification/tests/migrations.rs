use rift::migrations::{
    all, auth_split_fields, auth_split_plan, get_by_name, ApiKeyRecord, AuthSplitPlan,
    AuthSplitTally, CutoverStats, InstallRecord, RegisteredMigration,
};

#[test]
fn migration_registry() {
    let ids: Vec<&str> = all().iter().map(|m| m.id()).collect();
    assert_eq!(ids, vec!["m001_auth_split", "m002_billing_foundation", "m003_unify_tokens"]);
    assert_eq!(get_by_name("m002_billing_foundation"), Some(RegisteredMigration::BillingFoundation));
    assert_eq!(get_by_name("m004_secret_key_scope_backfill"), None);
    assert!(!RegisteredMigration::AuthSplit.description().is_empty());
}

#[test]
fn auth_split_defaults() {
    let rec = ApiKeyRecord {
        id: Some([7; 12]),
        email: Some("a@b.co".to_string()),
        verified: None,
        key_hash: None,
        key_prefix: Some("rl_live_".to_string()),
        monthly_quota: None,
        created_at: None,
    };
    let f = auth_split_fields(&rec, 42).unwrap();
    assert_eq!(f.email, "a@b.co");
    assert!(!f.verified);
    assert_eq!(f.key_hash, "");
    assert_eq!(f.monthly_quota, 100);
    assert_eq!(f.created_at, 42);
    assert_eq!(auth_split_plan(&f, false, false), AuthSplitPlan::Write { with_key: false });
    assert_eq!(auth_split_plan(&f, false, true), AuthSplitPlan::Report);
    assert_eq!(auth_split_plan(&f, true, false), AuthSplitPlan::AlreadyMigrated);
    let mut no_email = rec.clone();
    no_email.email = None;
    assert!(auth_split_fields(&no_email, 0).is_none());
}

#[test]
fn auth_split_tally() {
    let mut t = AuthSplitTally { migrated: 0, skipped: 0 };
    t.count(None);
    t.count(Some(AuthSplitPlan::AlreadyMigrated));
    t.count(Some(AuthSplitPlan::Write { with_key: true }));
    t.count(Some(AuthSplitPlan::Report));
    assert_eq!((t.migrated, t.skipped), (2, 2));
}

#[test]
fn cutover_accounting() {
    let good = InstallRecord {
        tenant_id: Some([1; 12]),
        install_id: Some("i1".to_string()),
        user_id: Some("u1".to_string()),
        identified_at: None,
        first_attributed_at: Some(5),
    };
    let bad = InstallRecord { user_id: None, ..good.clone() };
    let mut s = CutoverStats::new();
    assert!(s.scan(&bad, false, 9).is_none());
    let b = s.scan(&good, false, 9).unwrap();
    assert_eq!(b.identified_at, 5);
    assert_eq!(b.user_id, "u1");
    s.confirm_upsert();
    assert!(s.scan(&good, true, 9).is_none());
    assert_eq!((s.installs_scanned, s.skipped, s.would_upsert, s.upserted), (3, 1, 1, 1));
}
