use rift::themes::{
    apply_theme_update, check_delete_theme, create_theme_step, theme_from_request, update_theme_step,
    CreateThemeAction, CreateThemeEvent, CreateThemeRequest, LandingTheme, ThemeCopy, ThemeLayout,
    ThemeMedia, ThemeModules, ThemeRejection, ThemeSeo, ThemeStatus, ThemeTokens,
    UpdateThemeAction, UpdateThemeEvent, UpdateThemeRequest,
};

pub fn empty_tokens() -> ThemeTokens {
    ThemeTokens { palette: None, typography: None, shape: None, background: None, motion: None }
}

pub fn empty_copy() -> ThemeCopy {
    ThemeCopy {
        brand_name: None,
        tagline: None,
        default_headline: None,
        default_subheadline: None,
        primary_cta_label: None,
        secondary_cta_label: None,
        footer_text: None,
    }
}

fn request(is_default: bool) -> CreateThemeRequest {
    CreateThemeRequest {
        name: "Nord Roast".to_string(),
        slug: "nord-roast".to_string(),
        is_default,
        tokens: empty_tokens(),
        copy: empty_copy(),
        media: ThemeMedia { logo_url: None, wordmark_url: None, icon_url: None, hero_image_url: None, og_image_url: None },
        layout: ThemeLayout { template: None, alignment: None, content_width: None, agent_panel_mode: None },
        modules: ThemeModules {
            show_logo: None,
            show_icon: None,
            show_hero_image: None,
            show_trust_panel: None,
            show_agent_panel: None,
            show_footer: None,
            show_store_badges: None,
        },
        seo: ThemeSeo { default_og_title_template: None, default_og_description_template: None, twitter_card: None },
    }
}

fn stored(is_default: bool) -> LandingTheme {
    theme_from_request(request(is_default), [1; 12], [2; 12], 1_700_000_000_000)
}

fn no_patch() -> UpdateThemeRequest {
    UpdateThemeRequest {
        name: None,
        slug: None,
        is_default: None,
        status: None,
        tokens: None,
        copy: None,
        media: None,
        layout: None,
        modules: None,
        seo: None,
    }
}

#[test]
fn created_theme_is_active_with_the_request_fields() {
    let t = stored(true);
    assert_eq!(t.status, ThemeStatus::Active);
    assert_eq!(t.slug, "nord-roast");
    assert!(t.is_default);
    assert_eq!(t.created_at, t.updated_at);
}

#[test]
fn patch_replaces_only_given_fields() {
    let mut t = stored(false);
    let mut p = no_patch();
    p.name = Some("Nord".to_string());
    p.status = Some(ThemeStatus::Archived);
    apply_theme_update(&mut t, p);
    assert_eq!(t.name, "Nord");
    assert_eq!(t.slug, "nord-roast");
    assert_eq!(t.status, ThemeStatus::Archived);
    let before = t.clone();
    apply_theme_update(&mut t, no_patch());
    assert_eq!(t.name, before.name);
    assert_eq!(t.status, before.status);
}

fn rejection(a: UpdateThemeAction) -> ThemeRejection {
    match a {
        UpdateThemeAction::Reject(r) => r,
        other => panic!("expected a rejection, got {other:?}"),
    }
}

#[test]
fn update_flow_steps() {
    let mut t = stored(false);
    assert!(matches!(update_theme_step(&t, UpdateThemeEvent::Patched), UpdateThemeAction::Validate));
    match rejection(update_theme_step(&t, UpdateThemeEvent::Validated(Err("bad".to_string())))) {
        ThemeRejection::BadRequest { code, message } => {
            assert_eq!(code, "invalid_theme");
            assert_eq!(message, "bad");
        }
        other => panic!("unexpected {other:?}"),
    }
    assert!(matches!(
        rejection(update_theme_step(&t, UpdateThemeEvent::SlugOwner(Some([9; 12])))),
        ThemeRejection::SlugTaken
    ));
    assert!(matches!(
        update_theme_step(&t, UpdateThemeEvent::SlugOwner(Some([1; 12]))),
        UpdateThemeAction::LookUpCurrentDefault
    ));
    assert!(matches!(
        update_theme_step(&t, UpdateThemeEvent::CurrentDefault(Some([1; 12]))),
        UpdateThemeAction::Reject(_)
    ));
    assert!(matches!(update_theme_step(&t, UpdateThemeEvent::CurrentDefault(None)), UpdateThemeAction::Save));
    t.status = ThemeStatus::Archived;
    assert!(matches!(update_theme_step(&t, UpdateThemeEvent::SlugOwner(None)), UpdateThemeAction::CountReferences));
    match rejection(update_theme_step(&t, UpdateThemeEvent::Referenced(true))) {
        ThemeRejection::BadRequest { code, .. } => assert_eq!(code, "theme_in_use"),
        other => panic!("unexpected {other:?}"),
    }
    t.is_default = true;
    assert!(matches!(update_theme_step(&t, UpdateThemeEvent::Referenced(false)), UpdateThemeAction::ClearOtherDefaults));
    assert!(matches!(
        rejection(update_theme_step(&t, UpdateThemeEvent::OtherDefaultsCleared(false))),
        ThemeRejection::StoreFailed
    ));
}

#[test]
fn create_flow_steps() {
    assert!(matches!(create_theme_step(false, CreateThemeEvent::Received), CreateThemeAction::Validate));
    assert!(matches!(create_theme_step(false, CreateThemeEvent::SlugInUse(true)), CreateThemeAction::Reject(ThemeRejection::SlugTaken)));
    assert!(matches!(create_theme_step(true, CreateThemeEvent::SlugInUse(false)), CreateThemeAction::ClearOtherDefaults));
    assert!(matches!(create_theme_step(false, CreateThemeEvent::SlugInUse(false)), CreateThemeAction::Store));
    assert!(matches!(
        create_theme_step(false, CreateThemeEvent::Stored(Err("E11000 duplicate key".to_string()))),
        CreateThemeAction::Reject(ThemeRejection::SlugTaken)
    ));
    assert!(matches!(
        create_theme_step(false, CreateThemeEvent::Stored(Err("timeout".to_string()))),
        CreateThemeAction::Reject(ThemeRejection::StoreFailed)
    ));
    assert!(matches!(create_theme_step(false, CreateThemeEvent::Stored(Ok(()))), CreateThemeAction::Created));
}

#[test]
fn delete_gate() {
    assert_eq!(
        check_delete_theme(&stored(true), false),
        Some((
            "default_theme_required".to_string(),
            "Select a different default theme before deleting this one".to_string()
        ))
    );
    assert_eq!(check_delete_theme(&stored(false), true).unwrap().0, "theme_in_use");
    assert_eq!(check_delete_theme(&stored(false), false), None);
}

#[test]
fn theme_detail_view() {
    let d = rift::themes::to_detail(stored(true), "2023-11-14T22:13:20Z".to_string(), "x".to_string());
    assert_eq!(d.id, "010101010101010101010101");
    assert_eq!(d.slug, "nord-roast");
    assert!(d.is_default);
    assert_eq!(d.status, ThemeStatus::Active);
    assert_eq!(d.created_at, "2023-11-14T22:13:20Z");
}
