//! Landing-page themes: the brand configuration a tenant stores, the request
//! shapes of the themes API, and the rules that govern updating a theme.
//!
//! Storage ids are held as their 12 raw bytes and timestamps as milliseconds
//! since the epoch. The overlay opacity of a background image is a decimal
//! number in the API; it is only ever written back into CSS, so the library
//! carries it as that decimal text.

use vstd::prelude::*;

verus! {

/// Lifecycle of a theme.
#[derive(Clone, Copy, Debug, PartialEq, Eq, Structural)]
pub enum ThemeStatus {
    Active,
    Archived,
}

/// Overall page layout.
#[derive(Clone, Copy, Debug, PartialEq, Eq, Structural)]
pub enum LayoutTemplate {
    Split,
    Centered,
    Editorial,
}

/// Horizontal alignment of the main content.
#[derive(Clone, Copy, Debug, PartialEq, Eq, Structural)]
pub enum ContentAlignment {
    Left,
    Center,
}

/// Maximum width of the main content.
#[derive(Clone, Copy, Debug, PartialEq, Eq, Structural)]
pub enum ContentWidth {
    Narrow,
    Regular,
    Wide,
}

/// How the machine-readable panel is shown.
#[derive(Clone, Copy, Debug, PartialEq, Eq, Structural)]
pub enum AgentPanelMode {
    Expanded,
    Compact,
    HiddenOnMobile,
}

/// Named font stacks.
#[derive(Clone, Copy, Debug, PartialEq, Eq, Structural)]
pub enum FontPreset {
    SystemSans,
    ModernSans,
    HumanistSans,
    GeometricSans,
    EditorialSerif,
}

/// Type scale of headings and body text.
#[derive(Clone, Copy, Debug, PartialEq, Eq, Structural)]
pub enum TypeScale {
    Compact,
    Comfortable,
    Spacious,
}

/// Corner radius presets.
#[derive(Clone, Copy, Debug, PartialEq, Eq, Structural)]
pub enum RadiusPreset {
    Sharp,
    Soft,
    Rounded,
    Pill,
}

/// Call-to-action button styles.
#[derive(Clone, Copy, Debug, PartialEq, Eq, Structural)]
pub enum ButtonStyle {
    Solid,
    Outline,
    Soft,
}

/// Card surface styles.
#[derive(Clone, Copy, Debug, PartialEq, Eq, Structural)]
pub enum CardStyle {
    Flat,
    Elevated,
    Glass,
}

/// Drop-shadow presets; `NoShadow` is the API's `none`.
#[derive(Clone, Copy, Debug, PartialEq, Eq, Structural)]
pub enum ShadowPreset {
    NoShadow,
    Soft,
    Medium,
    Dramatic,
}

/// Page background kinds.
#[derive(Clone, Copy, Debug, PartialEq, Eq, Structural)]
pub enum BackgroundStyle {
    Solid,
    Gradient,
    Image,
}

/// A two-stop linear gradient.
#[derive(Clone, Debug)]
pub struct GradientConfig {
    pub from: Option<String>,
    pub to: Option<String>,
    pub angle: Option<i32>,
}

/// Brand colours; each one left unset keeps the colour below it.
#[derive(Clone, Debug)]
pub struct ThemePalette {
    pub primary: Option<String>,
    pub secondary: Option<String>,
    pub accent: Option<String>,
    pub background: Option<String>,
    pub surface: Option<String>,
    pub surface_muted: Option<String>,
    pub text: Option<String>,
    pub text_muted: Option<String>,
    pub border: Option<String>,
    pub success: Option<String>,
    pub warning: Option<String>,
    pub danger: Option<String>,
}

/// Fonts and type scale.
#[derive(Clone, Debug)]
pub struct ThemeTypography {
    pub heading_font: Option<FontPreset>,
    pub body_font: Option<FontPreset>,
    pub mono_font: Option<FontPreset>,
    pub scale: Option<TypeScale>,
}

/// Corners, button, card and shadow styles.
#[derive(Clone, Debug)]
pub struct ThemeShape {
    pub radius: Option<RadiusPreset>,
    pub button_style: Option<ButtonStyle>,
    pub card_style: Option<CardStyle>,
    pub shadow: Option<ShadowPreset>,
}

/// Page background. `overlay_opacity` is the decimal text of the opacity
/// laid over a background image.
#[derive(Clone, Debug)]
pub struct ThemeBackground {
    pub style: Option<BackgroundStyle>,
    pub solid: Option<String>,
    pub gradient: Option<GradientConfig>,
    pub image_url: Option<String>,
    pub overlay_opacity: Option<String>,
}

/// Motion switches.
#[derive(Clone, Debug)]
pub struct ThemeMotion {
    pub subtle_reveal: Option<bool>,
    pub button_lift: Option<bool>,
    pub ambient_glow: Option<bool>,
}

/// The design tokens of a theme.
#[derive(Clone, Debug)]
pub struct ThemeTokens {
    pub palette: Option<ThemePalette>,
    pub typography: Option<ThemeTypography>,
    pub shape: Option<ThemeShape>,
    pub background: Option<ThemeBackground>,
    pub motion: Option<ThemeMotion>,
}

/// Default copy of the page.
#[derive(Clone, Debug)]
pub struct ThemeCopy {
    pub brand_name: Option<String>,
    pub tagline: Option<String>,
    pub default_headline: Option<String>,
    pub default_subheadline: Option<String>,
    pub primary_cta_label: Option<String>,
    pub secondary_cta_label: Option<String>,
    pub footer_text: Option<String>,
}

/// Brand imagery.
#[derive(Clone, Debug)]
pub struct ThemeMedia {
    pub logo_url: Option<String>,
    pub wordmark_url: Option<String>,
    pub icon_url: Option<String>,
    pub hero_image_url: Option<String>,
    pub og_image_url: Option<String>,
}

/// Layout choices.
#[derive(Clone, Debug)]
pub struct ThemeLayout {
    pub template: Option<LayoutTemplate>,
    pub alignment: Option<ContentAlignment>,
    pub content_width: Option<ContentWidth>,
    pub agent_panel_mode: Option<AgentPanelMode>,
}

/// Which page modules are shown.
#[derive(Clone, Debug)]
pub struct ThemeModules {
    pub show_logo: Option<bool>,
    pub show_icon: Option<bool>,
    pub show_hero_image: Option<bool>,
    pub show_trust_panel: Option<bool>,
    pub show_agent_panel: Option<bool>,
    pub show_footer: Option<bool>,
    pub show_store_badges: Option<bool>,
}

/// Social-card templates; `{{link.title}}` and `{{link.description}}` are
/// filled in from the page's headline and subheadline.
#[derive(Clone, Debug)]
pub struct ThemeSeo {
    pub default_og_title_template: Option<String>,
    pub default_og_description_template: Option<String>,
    pub twitter_card: Option<String>,
}

/// A stored theme.
#[derive(Clone, Debug)]
pub struct LandingTheme {
    pub id: [u8; 12],
    pub tenant_id: [u8; 12],
    pub name: String,
    pub slug: String,
    pub is_default: bool,
    pub status: ThemeStatus,
    pub tokens: ThemeTokens,
    pub copy: ThemeCopy,
    pub media: ThemeMedia,
    pub layout: ThemeLayout,
    pub modules: ThemeModules,
    pub seo: ThemeSeo,
    pub created_at: i64,
    pub updated_at: i64,
}

/// Body of `POST /v1/themes`.
#[derive(Clone, Debug)]
pub struct CreateThemeRequest {
    pub name: String,
    pub slug: String,
    pub is_default: bool,
    pub tokens: ThemeTokens,
    pub copy: ThemeCopy,
    pub media: ThemeMedia,
    pub layout: ThemeLayout,
    pub modules: ThemeModules,
    pub seo: ThemeSeo,
}

/// Body of `PATCH /v1/themes/{id}`: each field present replaces the stored one.
#[derive(Clone, Debug)]
pub struct UpdateThemeRequest {
    pub name: Option<String>,
    pub slug: Option<String>,
    pub is_default: Option<bool>,
    pub status: Option<ThemeStatus>,
    pub tokens: Option<ThemeTokens>,
    pub copy: Option<ThemeCopy>,
    pub media: Option<ThemeMedia>,
    pub layout: Option<ThemeLayout>,
    pub modules: Option<ThemeModules>,
    pub seo: Option<ThemeSeo>,
}

/// A theme as the API returns it.
#[derive(Clone, Debug)]
pub struct ThemeDetail {
    pub id: String,
    pub name: String,
    pub slug: String,
    pub is_default: bool,
    pub status: ThemeStatus,
    pub tokens: ThemeTokens,
    pub copy: ThemeCopy,
    pub media: ThemeMedia,
    pub layout: ThemeLayout,
    pub modules: ThemeModules,
    pub seo: ThemeSeo,
    pub created_at: String,
    pub updated_at: String,
}

/// A stored theme as the API returns it: the id as 24 hex digits and the
/// timestamps in the RFC 3339 form the store writes them in.
pub fn to_detail(theme: LandingTheme, created_at: String, updated_at: String) -> (r: ThemeDetail)
    ensures
        r.id@ == crate::public_id::hex_lower(theme.id@),
        r.name == theme.name,
        r.slug == theme.slug,
        r.is_default == theme.is_default,
        r.status == theme.status,
        r.tokens == theme.tokens,
        r.copy == theme.copy,
        r.media == theme.media,
        r.layout == theme.layout,
        r.modules == theme.modules,
        r.seo == theme.seo,
        r.created_at == created_at,
        r.updated_at == updated_at,
{
    let id = crate::public_id::object_id_hex(&theme.id);
    ThemeDetail {
        id,
        name: theme.name,
        slug: theme.slug,
        is_default: theme.is_default,
        status: theme.status,
        tokens: theme.tokens,
        copy: theme.copy,
        media: theme.media,
        layout: theme.layout,
        modules: theme.modules,
        seo: theme.seo,
        created_at,
        updated_at,
    }
}

/// Body of `GET /v1/themes`.
#[derive(Clone, Debug)]
pub struct ListThemesResponse {
    pub themes: Vec<ThemeDetail>,
}

/// Query of `GET /v1/themes`.
#[derive(Clone, Debug)]
pub struct ListThemesQuery {
    pub status: Option<String>,
}

// ── Updating a stored theme ──

/// `value` if present, else `current`.
pub open spec fn override_with<T>(current: T, value: Option<T>) -> T {
    match value {
        Some(v) => v,
        None => current,
    }
}

/// The stored theme after a patch: every field the request carries replaces
/// the stored one; ids and timestamps are untouched.
pub open spec fn patched(theme: LandingTheme, req: UpdateThemeRequest) -> LandingTheme {
    LandingTheme {
        name: override_with(theme.name, req.name),
        slug: override_with(theme.slug, req.slug),
        is_default: override_with(theme.is_default, req.is_default),
        status: override_with(theme.status, req.status),
        tokens: override_with(theme.tokens, req.tokens),
        copy: override_with(theme.copy, req.copy),
        media: override_with(theme.media, req.media),
        layout: override_with(theme.layout, req.layout),
        modules: override_with(theme.modules, req.modules),
        seo: override_with(theme.seo, req.seo),
        ..theme
    }
}

/// Merge a patch into a stored theme.
pub fn apply_theme_update(theme: &mut LandingTheme, req: UpdateThemeRequest)
    ensures
        *final(theme) == patched(*old(theme), req),
{
    let UpdateThemeRequest { name, slug, is_default, status, tokens, copy, media, layout, modules, seo } = req;
    if let Some(v) = name {
        theme.name = v;
    }
    if let Some(v) = slug {
        theme.slug = v;
    }
    if let Some(v) = is_default {
        theme.is_default = v;
    }
    if let Some(v) = status {
        theme.status = v;
    }
    if let Some(v) = tokens {
        theme.tokens = v;
    }
    if let Some(v) = copy {
        theme.copy = v;
    }
    if let Some(v) = media {
        theme.media = v;
    }
    if let Some(v) = layout {
        theme.layout = v;
    }
    if let Some(v) = modules {
        theme.modules = v;
    }
    if let Some(v) = seo {
        theme.seo = v;
    }
}

/// A patch replaces exactly the fields it carries: each field present in
/// the request is stored as given, each absent one keeps its stored value,
/// and the identity and timestamps are never touched by the patch itself.
pub proof fn lemma_patch_replaces_carried_fields(theme: LandingTheme, req: UpdateThemeRequest)
    ensures
        req.name is Some ==> patched(theme, req).name == req.name->0,
        req.name is None ==> patched(theme, req).name == theme.name,
        req.slug is Some ==> patched(theme, req).slug == req.slug->0,
        req.slug is None ==> patched(theme, req).slug == theme.slug,
        req.is_default is Some ==> patched(theme, req).is_default == req.is_default->0,
        req.is_default is None ==> patched(theme, req).is_default == theme.is_default,
        req.status is Some ==> patched(theme, req).status == req.status->0,
        req.status is None ==> patched(theme, req).status == theme.status,
        req.tokens is Some ==> patched(theme, req).tokens == req.tokens->0,
        req.tokens is None ==> patched(theme, req).tokens == theme.tokens,
        req.copy is Some ==> patched(theme, req).copy == req.copy->0,
        req.copy is None ==> patched(theme, req).copy == theme.copy,
        req.media is Some ==> patched(theme, req).media == req.media->0,
        req.media is None ==> patched(theme, req).media == theme.media,
        req.layout is Some ==> patched(theme, req).layout == req.layout->0,
        req.layout is None ==> patched(theme, req).layout == theme.layout,
        req.modules is Some ==> patched(theme, req).modules == req.modules->0,
        req.modules is None ==> patched(theme, req).modules == theme.modules,
        req.seo is Some ==> patched(theme, req).seo == req.seo->0,
        req.seo is None ==> patched(theme, req).seo == theme.seo,
        patched(theme, req).id == theme.id,
        patched(theme, req).tenant_id == theme.tenant_id,
        patched(theme, req).created_at == theme.created_at,
        patched(theme, req).updated_at == theme.updated_at,
{
}

/// A patch that carries no field leaves the theme as it was.
pub proof fn lemma_empty_patch_is_identity(theme: LandingTheme, req: UpdateThemeRequest)
    requires
        req.name is None,
        req.slug is None,
        req.is_default is None,
        req.status is None,
        req.tokens is None,
        req.copy is None,
        req.media is None,
        req.layout is None,
        req.modules is None,
        req.seo is None,
    ensures
        patched(theme, req) == theme,
{
}

/// Applying the same patch twice is the same as applying it once.
pub proof fn lemma_patch_idempotent(theme: LandingTheme, req: UpdateThemeRequest)
    ensures
        patched(patched(theme, req), req) == patched(theme, req),
{
}

/// Why the themes API refuses a request.
#[derive(Clone, Debug)]
pub enum ThemeRejection {
    /// 400 with the given code and message.
    BadRequest { code: String, message: String },
    /// 409: another theme of the tenant has this slug.
    SlugTaken,
    /// 404.
    NotFound,
    /// 500: the store failed.
    StoreFailed,
}

/// What the update flow learnt from its last step.
#[derive(Debug)]
pub enum UpdateThemeEvent {
    /// The patch has been merged into the stored theme.
    Patched,
    /// Result of validating the merged theme.
    Validated(Result<(), String>),
    /// The id of the theme that holds the merged slug, if any.
    SlugOwner(Option<[u8; 12]>),
    /// Whether any domain or link still points at the theme.
    Referenced(bool),
    /// Whether clearing the tenant's other default themes succeeded.
    OtherDefaultsCleared(bool),
    /// The id of the tenant's current default theme, if any.
    CurrentDefault(Option<[u8; 12]>),
}

/// What the update flow must do next.
#[derive(Clone, Debug)]
pub enum UpdateThemeAction {
    Validate,
    LookUpSlugOwner,
    CountReferences,
    ClearOtherDefaults,
    LookUpCurrentDefault,
    /// Stamp `updated_at` and store the theme.
    Save,
    Reject(ThemeRejection),
}

/// The step that settles the default flag once the theme may be kept.
pub open spec fn default_step(theme: LandingTheme) -> UpdateThemeAction {
    if theme.is_default {
        UpdateThemeAction::ClearOtherDefaults
    } else {
        UpdateThemeAction::LookUpCurrentDefault
    }
}

/// The step after the slug check passed.
pub open spec fn after_slug_step(theme: LandingTheme) -> UpdateThemeAction {
    if theme.status == ThemeStatus::Archived {
        UpdateThemeAction::CountReferences
    } else {
        default_step(theme)
    }
}

/// A `ThemeRejection` that is a 400 with the given code and message.
pub open spec fn is_bad_request(r: ThemeRejection, code: Seq<char>, message: Seq<char>) -> bool {
    match r {
        ThemeRejection::BadRequest { code: c, message: m } => c@ == code && m@ == message,
        _ => false,
    }
}

/// An action that rejects with a 400 of the given code and message.
pub open spec fn rejects_with(a: UpdateThemeAction, code: Seq<char>, message: Seq<char>) -> bool {
    a matches UpdateThemeAction::Reject(r) && is_bad_request(r, code, message)
}

/// The update flow: `a` is the action that follows `event` for the merged
/// theme `theme`.
pub open spec fn update_theme_next(theme: LandingTheme, event: UpdateThemeEvent, a: UpdateThemeAction) -> bool {
    match event {
        UpdateThemeEvent::Patched => a is Validate,
        UpdateThemeEvent::Validated(v) => match v {
            Ok(_) => a is LookUpSlugOwner,
            Err(e) => rejects_with(a, "invalid_theme"@, e@),
        },
        UpdateThemeEvent::SlugOwner(owner) => if owner is Some && owner->0@ != theme.id@ {
            a matches UpdateThemeAction::Reject(r) && r is SlugTaken
        } else {
            a == after_slug_step(theme)
        },
        UpdateThemeEvent::Referenced(referenced) => if referenced {
            rejects_with(a, "theme_in_use"@, "Themes in use by domains or links cannot be archived"@)
        } else {
            a == default_step(theme)
        },
        UpdateThemeEvent::OtherDefaultsCleared(ok) => if ok {
            a is Save
        } else {
            a matches UpdateThemeAction::Reject(r) && r is StoreFailed
        },
        UpdateThemeEvent::CurrentDefault(current) => if current is Some && current->0@ == theme.id@ {
            rejects_with(
                a,
                "default_theme_required"@,
                "Use another theme as default before unsetting the current default"@,
            )
        } else {
            a is Save
        },
    }
}

/// Whether two storage ids are equal.
pub fn same_id(a: &[u8; 12], b: &[u8; 12]) -> (r: bool)
    ensures
        r == (a@ == b@),
{
    let mut i: usize = 0;
    while i < 12
        invariant
            i <= 12,
            forall|k: int| 0 <= k < i ==> a@[k] == b@[k],
        decreases 12 - i,
    {
        if a[i] != b[i] {
            return false;
        }
        i = i + 1;
    }
    assert(a@ =~= b@);
    true
}

fn reject(code: &str, message: &str) -> (r: UpdateThemeAction)
    ensures
        rejects_with(r, code@, message@),
{
    UpdateThemeAction::Reject(
        ThemeRejection::BadRequest {
            code: crate::text::to_owned(code),
            message: crate::text::to_owned(message),
        },
    )
}

/// One step of updating a theme: given the merged theme and what the last
/// step found, what to do next.
pub fn update_theme_step(theme: &LandingTheme, event: UpdateThemeEvent) -> (r: UpdateThemeAction)
    ensures
        update_theme_next(*theme, event, r),
{
    match event {
        UpdateThemeEvent::Patched => UpdateThemeAction::Validate,
        UpdateThemeEvent::Validated(Ok(())) => UpdateThemeAction::LookUpSlugOwner,
        UpdateThemeEvent::Validated(Err(e)) => {
            let r = UpdateThemeAction::Reject(
                ThemeRejection::BadRequest { code: crate::text::to_owned("invalid_theme"), message: e },
            );
            r
        },
        UpdateThemeEvent::SlugOwner(owner) => {
            let taken = match owner {
                Some(id) => !same_id(&id, &theme.id),
                None => false,
            };
            if taken {
                UpdateThemeAction::Reject(ThemeRejection::SlugTaken)
            } else if theme.status == ThemeStatus::Archived {
                UpdateThemeAction::CountReferences
            } else if theme.is_default {
                UpdateThemeAction::ClearOtherDefaults
            } else {
                UpdateThemeAction::LookUpCurrentDefault
            }
        },
        UpdateThemeEvent::Referenced(referenced) => {
            if referenced {
                reject("theme_in_use", "Themes in use by domains or links cannot be archived")
            } else if theme.is_default {
                UpdateThemeAction::ClearOtherDefaults
            } else {
                UpdateThemeAction::LookUpCurrentDefault
            }
        },
        UpdateThemeEvent::OtherDefaultsCleared(ok) => {
            if ok {
                UpdateThemeAction::Save
            } else {
                UpdateThemeAction::Reject(ThemeRejection::StoreFailed)
            }
        },
        UpdateThemeEvent::CurrentDefault(current) => {
            let is_current = match current {
                Some(id) => same_id(&id, &theme.id),
                None => false,
            };
            if is_current {
                reject(
                    "default_theme_required",
                    "Use another theme as default before unsetting the current default",
                )
            } else {
                UpdateThemeAction::Save
            }
        },
    }
}

// ── Creating and deleting themes ──

/// The stored theme a create request becomes: active, with the given ids and
/// creation time.
pub open spec fn created_theme(req: CreateThemeRequest, id: [u8; 12], tenant_id: [u8; 12], now: i64) -> LandingTheme {
    LandingTheme {
        id: id,
        tenant_id: tenant_id,
        name: req.name,
        slug: req.slug,
        is_default: req.is_default,
        status: ThemeStatus::Active,
        tokens: req.tokens,
        copy: req.copy,
        media: req.media,
        layout: req.layout,
        modules: req.modules,
        seo: req.seo,
        created_at: now,
        updated_at: now,
    }
}

/// Build the theme a create request stores.
pub fn theme_from_request(req: CreateThemeRequest, id: [u8; 12], tenant_id: [u8; 12], now: i64) -> (r: LandingTheme)
    ensures
        r == created_theme(req, id, tenant_id, now),
{
    LandingTheme {
        id,
        tenant_id,
        name: req.name,
        slug: req.slug,
        is_default: req.is_default,
        status: ThemeStatus::Active,
        tokens: req.tokens,
        copy: req.copy,
        media: req.media,
        layout: req.layout,
        modules: req.modules,
        seo: req.seo,
        created_at: now,
        updated_at: now,
    }
}

/// What the create flow learnt from its last step.
#[derive(Debug)]
pub enum CreateThemeEvent {
    /// The request arrived.
    Received,
    /// Result of validating the request.
    Validated(Result<(), String>),
    /// Whether a theme of the tenant already has the slug.
    SlugInUse(bool),
    /// Whether clearing the tenant's other default themes succeeded.
    OtherDefaultsCleared(bool),
    /// Result of storing the theme; on failure, the store's message.
    Stored(Result<(), String>),
}

/// What the create flow must do next.
#[derive(Clone, Debug)]
pub enum CreateThemeAction {
    Validate,
    LookUpSlug,
    ClearOtherDefaults,
    /// Build the theme and store it.
    Store,
    /// Answer 201 with the stored theme.
    Created,
    Reject(ThemeRejection),
}

/// The create flow: `a` is the action that follows `event` for a request
/// asking for a default theme or not.
pub open spec fn create_theme_next(is_default: bool, event: CreateThemeEvent, a: CreateThemeAction) -> bool {
    match event {
        CreateThemeEvent::Received => a is Validate,
        CreateThemeEvent::Validated(v) => match v {
            Ok(_) => a is LookUpSlug,
            Err(e) => a matches CreateThemeAction::Reject(r) && is_bad_request(r, "invalid_theme"@, e@),
        },
        CreateThemeEvent::SlugInUse(taken) => if taken {
            a matches CreateThemeAction::Reject(r) && r is SlugTaken
        } else if is_default {
            a is ClearOtherDefaults
        } else {
            a is Store
        },
        CreateThemeEvent::OtherDefaultsCleared(ok) => if ok {
            a is Store
        } else {
            a matches CreateThemeAction::Reject(r) && r is StoreFailed
        },
        CreateThemeEvent::Stored(res) => match res {
            Ok(_) => a is Created,
            Err(e) => if crate::text::contains(e@, "E11000"@) {
                a matches CreateThemeAction::Reject(r) && r is SlugTaken
            } else {
                a matches CreateThemeAction::Reject(r) && r is StoreFailed
            },
        },
    }
}

/// One step of creating a theme. A duplicate-key error from the store (a
/// slug taken concurrently) is a slug conflict.
pub fn create_theme_step(is_default: bool, event: CreateThemeEvent) -> (r: CreateThemeAction)
    ensures
        create_theme_next(is_default, event, r),
{
    match event {
        CreateThemeEvent::Received => CreateThemeAction::Validate,
        CreateThemeEvent::Validated(Ok(())) => CreateThemeAction::LookUpSlug,
        CreateThemeEvent::Validated(Err(e)) => CreateThemeAction::Reject(
            ThemeRejection::BadRequest { code: crate::text::to_owned("invalid_theme"), message: e },
        ),
        CreateThemeEvent::SlugInUse(taken) => {
            if taken {
                CreateThemeAction::Reject(ThemeRejection::SlugTaken)
            } else if is_default {
                CreateThemeAction::ClearOtherDefaults
            } else {
                CreateThemeAction::Store
            }
        },
        CreateThemeEvent::OtherDefaultsCleared(ok) => {
            if ok {
                CreateThemeAction::Store
            } else {
                CreateThemeAction::Reject(ThemeRejection::StoreFailed)
            }
        },
        CreateThemeEvent::Stored(Ok(())) => CreateThemeAction::Created,
        CreateThemeEvent::Stored(Err(e)) => {
            if crate::text::str_contains(e.as_str(), "E11000") {
                CreateThemeAction::Reject(ThemeRejection::SlugTaken)
            } else {
                CreateThemeAction::Reject(ThemeRejection::StoreFailed)
            }
        },
    }
}

/// Why a theme may not be deleted, if it may not: the tenant's default
/// theme must be replaced first, and a theme in use stays.
pub open spec fn delete_refusal(is_default: bool, referenced: bool) -> Option<(Seq<char>, Seq<char>)> {
    if is_default {
        Some(("default_theme_required"@, "Select a different default theme before deleting this one"@))
    } else if referenced {
        Some(("theme_in_use"@, "Themes in use by domains or links cannot be deleted"@))
    } else {
        None
    }
}

/// The check before deleting a theme; `Some((code, message))` when refused.
pub fn check_delete_theme(theme: &LandingTheme, referenced: bool) -> (r: Option<(String, String)>)
    ensures
        match r {
            Some((c, m)) => delete_refusal(theme.is_default, referenced) == Some((c@, m@)),
            None => delete_refusal(theme.is_default, referenced) is None,
        },
{
    if theme.is_default {
        Some(
            (
                crate::text::to_owned("default_theme_required"),
                crate::text::to_owned("Select a different default theme before deleting this one"),
            ),
        )
    } else if referenced {
        Some(
            (
                crate::text::to_owned("theme_in_use"),
                crate::text::to_owned("Themes in use by domains or links cannot be deleted"),
            ),
        )
    } else {
        None
    }
}

} // verus!
