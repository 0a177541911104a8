use chord::config::{
    change_messages, default_false, default_format, default_max_concurrent, default_video_format,
    default_video_quality, finish_config_load, get_default_download_path, get_default_video_path,
    sanitize_config, sanitize_config_with, AppConfig,
};
use chord::state::{InnerState, PermitChange};

fn broken() -> AppConfig {
    AppConfig {
        download_path: Some(String::new()),
        video_path: None,
        default_format: String::new(),
        video_format: String::new(),
        video_quality: String::new(),
        max_concurrent_downloads: 0,
        cookies_enabled: true,
        debug_logging: true,
        custom_deps: true,
        setup_shown: true,
    }
}

#[test]
fn defaults() {
    assert!(!default_false());
    assert_eq!(default_format(), "m4a");
    assert_eq!(default_video_format(), "mp4");
    assert_eq!(default_video_quality(), "1080");
    assert_eq!(default_max_concurrent(), 3);
    let c = AppConfig::default();
    assert_eq!(c.download_path, None);
    assert_eq!(c.video_path, None);
    assert_eq!(c.default_format, "m4a");
    assert_eq!(c.video_format, "mp4");
    assert_eq!(c.video_quality, "1080");
    assert_eq!(c.max_concurrent_downloads, 3);
    assert!(!c.cookies_enabled && !c.debug_logging && !c.custom_deps && !c.setup_shown);
}

#[test]
fn default_directories_are_not_empty() {
    assert!(!get_default_download_path().is_empty());
    assert!(!get_default_video_path().is_empty());
}

#[test]
fn sanitize_repairs_every_field() {
    let mut c = broken();
    assert!(sanitize_config_with(&mut c, "/dl".to_string(), "/vid".to_string()));
    assert_eq!(c.download_path.as_deref(), Some("/dl"));
    assert_eq!(c.video_path.as_deref(), Some("/vid"));
    assert_eq!(c.default_format, "m4a");
    assert_eq!(c.video_format, "mp4");
    assert_eq!(c.video_quality, "1080");
    assert_eq!(c.max_concurrent_downloads, 3);
    assert!(c.cookies_enabled && c.debug_logging && c.custom_deps && c.setup_shown);
    // A second repair changes nothing.
    assert!(!sanitize_config_with(&mut c, "/other".to_string(), "/other".to_string()));
    assert_eq!(c.download_path.as_deref(), Some("/dl"));
}

#[test]
fn sanitize_keeps_valid_settings() {
    let mut c = AppConfig::default();
    c.download_path = Some("/a".to_string());
    c.video_path = Some("/b".to_string());
    c.max_concurrent_downloads = 7;
    assert!(!sanitize_config(&mut c));
    assert_eq!(c.max_concurrent_downloads, 7);
    assert_eq!(c.download_path.as_deref(), Some("/a"));
}

#[test]
fn sanitize_fills_default_directories() {
    let mut c = broken();
    assert!(sanitize_config(&mut c));
    assert_eq!(c.download_path.as_deref(), Some(get_default_download_path().as_str()));
    assert_eq!(c.video_path.as_deref(), Some(get_default_video_path().as_str()));
    assert!(!sanitize_config(&mut c));
}

#[test]
fn loading_config() {
    let r = finish_config_load(false, false, None);
    assert!(r.is_fresh);
    assert!(!r.should_write);
    assert_eq!(r.config.default_format, "m4a");

    let r = finish_config_load(true, false, None);
    assert!(r.is_fresh);
    assert!(!r.should_write);
    assert!(r.config.download_path.is_some());

    let r = finish_config_load(true, true, Some(broken()));
    assert!(!r.is_fresh);
    assert!(r.should_write);
    assert!(r.config.custom_deps);
    assert_eq!(r.config.max_concurrent_downloads, 3);

    let mut good = AppConfig::default();
    good.download_path = Some("/a".to_string());
    good.video_path = Some("/b".to_string());
    good.max_concurrent_downloads = 5;
    let r = finish_config_load(true, true, Some(good));
    assert!(!r.is_fresh);
    assert!(!r.should_write);
    assert_eq!(r.config.max_concurrent_downloads, 5);

    // An unreadable file falls back to the defaults but is not fresh.
    let r = finish_config_load(true, true, None);
    assert!(!r.is_fresh);
    assert!(r.should_write);
}

#[test]
fn saving_settings_applies_limit() {
    let mut s = InnerState::new();
    let mut c = AppConfig::default();
    c.max_concurrent_downloads = 5;
    c.debug_logging = true;
    let change = s.apply_config(c);
    assert_eq!(change.old_limit, 3);
    assert!(!change.old_debug);
    assert_eq!(change.permits, PermitChange::Add(2));
    assert_eq!(s.current_limit, 5);
    assert!(s.config.debug_logging);
}

#[test]
fn settings_change_messages() {
    assert_eq!(
        change_messages(3, 5, false, true),
        vec!["Concurrent download limit changed from 3 to 5".to_string(), "Debug logging enabled".to_string()]
    );
    assert_eq!(change_messages(3, 3, true, false), vec!["Debug logging disabled".to_string()]);
    assert!(change_messages(10, 10, true, true).is_empty());
}

#[test]
fn setup_and_custom_mode() {
    let mut c = AppConfig::default();
    c.set_custom_mode(true);
    assert!(c.custom_deps && !c.setup_shown);
    c.mark_setup_done(false);
    assert!(!c.custom_deps && c.setup_shown);
    assert_eq!(c.default_format, "m4a");
}
