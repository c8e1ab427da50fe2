use rift::architecture::{
    classify_free_fn, contains_object_id_word, has_requires_attribute_above,
    is_object_id_allowed, parse_impl_container_marker, parse_pub_async_fn_start,
    parse_pub_type_name, strip_line_comment, FnVisibility,
};

fn name(s: &str) -> Option<String> {
    Some(s.to_string())
}

#[test]
fn matches_pub_struct() {
    assert_eq!(parse_pub_type_name("pub struct Foo {"), name("Foo"));
    assert_eq!(parse_pub_type_name("pub struct Foo;"), name("Foo"));
    assert_eq!(parse_pub_type_name("pub struct Foo<'a, T> {"), name("Foo"));
}

#[test]
fn matches_pub_enum() {
    assert_eq!(parse_pub_type_name("pub enum Bar {"), name("Bar"));
}

#[test]
fn matches_pub_type_alias() {
    assert_eq!(parse_pub_type_name("pub type Baz = String;"), name("Baz"));
}

#[test]
fn rejects_pub_crate() {
    assert_eq!(parse_pub_type_name("pub(crate) struct Foo {"), None);
    assert_eq!(parse_pub_type_name("pub(super) enum Bar {"), None);
}

#[test]
fn rejects_non_type_pub() {
    assert_eq!(parse_pub_type_name("pub fn foo() {"), None);
    assert_eq!(parse_pub_type_name("pub const X: u32 = 1;"), None);
    assert_eq!(parse_pub_type_name("pub use foo::Bar;"), None);
}

#[test]
fn marker_with_crate_prefix() {
    assert_eq!(
        parse_impl_container_marker("crate::impl_container!(LinksService);"),
        name("LinksService")
    );
}

#[test]
fn marker_without_crate_prefix() {
    assert_eq!(
        parse_impl_container_marker("impl_container!(LinksRepo);"),
        name("LinksRepo")
    );
}

#[test]
fn marker_indented() {
    assert_eq!(
        parse_impl_container_marker("    crate::impl_container!(Foo);"),
        name("Foo")
    );
}

#[test]
fn marker_rejects_non_macro_lines() {
    assert_eq!(parse_impl_container_marker("pub struct LinksService {"), None);
    assert_eq!(parse_impl_container_marker("// just a comment"), None);
    assert_eq!(parse_impl_container_marker("impl_container!();"), None);
}

fn pub_fn(s: &str) -> Option<(FnVisibility, String)> {
    Some((FnVisibility::Pub, s.to_string()))
}

fn priv_fn(s: &str) -> Option<(FnVisibility, String)> {
    Some((FnVisibility::Priv, s.to_string()))
}

#[test]
fn fn_classify_public() {
    assert_eq!(classify_free_fn("pub fn foo() {"), pub_fn("foo"));
    assert_eq!(classify_free_fn("pub async fn foo() {"), pub_fn("foo"));
    assert_eq!(classify_free_fn("pub(crate) fn bar() {"), pub_fn("bar"));
    assert_eq!(classify_free_fn("pub(super) async fn baz() {"), pub_fn("baz"));
}

#[test]
fn fn_classify_private() {
    assert_eq!(classify_free_fn("fn helper() {"), priv_fn("helper"));
    assert_eq!(classify_free_fn("async fn helper() {"), priv_fn("helper"));
    assert_eq!(classify_free_fn("    fn helper() {"), priv_fn("helper"));
}

#[test]
fn fn_classify_rejects_non_fn() {
    assert_eq!(classify_free_fn("pub struct Foo {"), None);
    assert_eq!(classify_free_fn("pub use foo::Bar;"), None);
    assert_eq!(classify_free_fn("pub const X: u32 = 1;"), None);
    assert_eq!(classify_free_fn("// pub fn commented out"), None);
    assert_eq!(classify_free_fn("let x = 1;"), None);
}

#[test]
fn fn_classify_extern() {
    assert_eq!(classify_free_fn("extern \"C\" fn foo() {"), priv_fn("foo"));
    assert_eq!(classify_free_fn("pub extern \"C\" fn foo() {"), pub_fn("foo"));
}

#[test]
fn word_match_accepts_standalone() {
    assert!(contains_object_id_word("    pub id: ObjectId,"));
    assert!(contains_object_id_word("fn foo(id: ObjectId) {"));
    assert!(contains_object_id_word(
        "pub tenant_id: mongodb::bson::oid::ObjectId,"
    ));
    assert!(contains_object_id_word("Vec<ObjectId>"));
    assert!(contains_object_id_word("Option<ObjectId>"));
    assert!(contains_object_id_word("ObjectId::parse_str(s)"));
}

#[test]
fn word_match_rejects_substring() {
    assert!(!contains_object_id_word("MyObjectIdRef"));
    assert!(!contains_object_id_word("ObjectIds"));
    assert!(!contains_object_id_word("_ObjectId"));
    assert!(!contains_object_id_word("foo123ObjectId"));
}

#[test]
fn strip_line_comment_works() {
    assert_eq!(
        strip_line_comment("pub x: i32, // ObjectId here"),
        "pub x: i32, "
    );
    assert_eq!(strip_line_comment("// just a doc ObjectId"), "");
    assert_eq!(strip_line_comment("pub id: ObjectId,"), "pub id: ObjectId,");
}

#[test]
fn allowlist_includes_repos() {
    assert!(is_object_id_allowed("src/services/affiliates/repo.rs", false));
    assert!(is_object_id_allowed("src/services/auth/users/repo.rs", false));
    assert!(is_object_id_allowed(
        "src/services/billing/repos/event_counters.rs",
        false
    ));
}

#[test]
fn allowlist_includes_migrations_and_bootstrap() {
    assert!(is_object_id_allowed("src/migrations/m001_auth_split.rs", false));
    assert!(is_object_id_allowed("src/core/db.rs", false));
    assert!(is_object_id_allowed("src/core/public_id/mod.rs", false));
    assert!(is_object_id_allowed("src/app.rs", false));
    assert!(is_object_id_allowed("src/main.rs", false));
}

#[test]
fn allowlist_includes_sibling_tests() {
    // Both files sit next to a non-test source file in the server tree.
    assert!(is_object_id_allowed("src/services/billing/quota_tests.rs", true));
    assert!(is_object_id_allowed("src/services/links/service_tests.rs", true));
}

#[test]
fn allowlist_excludes_transports_and_services() {
    assert!(!is_object_id_allowed("src/api/affiliates/routes.rs", false));
    assert!(!is_object_id_allowed("src/services/affiliates/models.rs", false));
    assert!(!is_object_id_allowed("src/services/affiliates/service.rs", false));
    assert!(!is_object_id_allowed("src/mcp/models.rs", false));
}

#[test]
fn async_fn_start_reads_public_methods_only() {
    assert_eq!(
        parse_pub_async_fn_start("    pub async fn create_link(&self, ctx: &AuthContext) {"),
        Some("create_link".to_string())
    );
    assert_eq!(
        parse_pub_async_fn_start("pub(crate) async fn find (x: u8)"),
        Some("find".to_string())
    );
    assert_eq!(parse_pub_async_fn_start("async fn private(&self) {"), None);
    assert_eq!(parse_pub_async_fn_start("// pub async fn commented(x) {"), None);
    assert_eq!(parse_pub_async_fn_start("pub async fn no_paren"), None);
}

#[test]
fn scope_attribute_found_through_comments_and_other_attributes() {
    let lines = [
        "impl Service {",
        "    #[requires(Scope::LinksWrite)]",
        "    /// Creates a link.",
        "",
        "    #[tracing::instrument]",
        "    pub async fn create(&self, ctx: &AuthContext) {",
    ];
    assert!(has_requires_attribute_above(&lines, 5));
    let bare = ["    let x = 1;", "    #[tracing::instrument]", "    pub async fn f(&self) {"];
    assert!(!has_requires_attribute_above(&bare, 2));
    assert!(!has_requires_attribute_above(&bare, 0));
}

#[test]
fn signatures_span_lines_until_parens_close() {
    let lines = ["pub async fn create(", "    ctx: &AuthContext,", "    id: u64,", ") -> Result<(), E> {", "}"];
    assert_eq!(
        rift::architecture::collect_signature(&lines, 0),
        "pub async fn create(\n    ctx: &AuthContext,\n    id: u64,\n) -> Result<(), E> {\n"
    );
    assert_eq!(rift::architecture::collect_signature(&lines, 4), "}\n");
}

#[test]
fn unguarded_auth_methods_are_reported() {
    let lines = [
        "impl LinksService {",
        "    #[requires(Scope::Links)]",
        "    /// Guarded.",
        "    pub async fn guarded(&self, ctx: &AuthContext) {}",
        "    pub async fn open(&self, ctx : & mut AuthContext) {}",
        "    pub async fn no_ctx(&self, id: u64) {}",
        "    #[tracing::instrument]",
        "    pub(crate) async fn spanned(",
        "        &self,",
        "        ctx: &AuthContext,",
        "    ) {}",
        "}",
    ];
    let found = rift::architecture::unguarded_auth_methods(&lines);
    assert_eq!(found, vec![(4, "open".to_string()), (7, "spanned".to_string())]);
}

#[test]
fn object_id_mentions_outside_comments() {
    let hit = ["use x::y;", "let id: ObjectId = get(); // fine"];
    let comment_only = ["// ObjectId lives in the storage layer", "let r = MyObjectIdRef::new();"];
    assert!(rift::architecture::file_mentions_object_id(&hit));
    assert!(!rift::architecture::file_mentions_object_id(&comment_only));
}

#[test]
fn pub_types_outside_containers_are_reported() {
    let lines = [
        "crate::impl_container!(LinksService);",
        "pub struct LinksService {",
        "    inner: u8,",
        "}",
        "  pub enum Mode { A }",
        "pub(crate) struct Hidden;",
        "pub type Alias = u8;",
    ];
    let found = rift::architecture::pub_type_violations(&lines);
    assert_eq!(found, vec![(4, "Mode".to_string()), (6, "Alias".to_string())]);
}

#[test]
fn stepdown_rule_checks_depth_zero_only() {
    let ok = ["pub fn entry() {", "    fn nested() {}", "}", "fn helper() {}"];
    assert_eq!(rift::architecture::stepdown_violation(&ok), None);
    let bad = ["fn helper() {}", "", "pub async fn entry() {", "}"];
    assert_eq!(
        rift::architecture::stepdown_violation(&bad),
        Some(((0, "helper".to_string()), (2, "entry".to_string())))
    );
}
