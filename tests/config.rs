use gyst::config::{
    default_commit_template, default_max_diff_size, default_max_subject_length, default_model,
    default_protected_branches, default_use_server, Config, ServerConfig,
};
use gyst::profile::{Theme, UserPreferences, UserProfile};

#[test]
fn defaults() {
    assert_eq!(default_model(), "haiku");
    assert_eq!(default_max_diff_size(), 1000);
    assert_eq!(default_protected_branches(), vec!["main".to_string(), "master".to_string()]);
    assert_eq!(default_commit_template(), "conventional");
    assert_eq!(default_max_subject_length(), 72);
    assert!(default_use_server());
    assert!(ServerConfig::default().use_server);
}

#[test]
fn api_key_round_trip() {
    let mut c = Config::unconfigured();
    assert_eq!(c.get_api_key(), None);
    c.set_api_key("sk-test".to_string());
    assert_eq!(c.get_api_key(), Some("sk-test"));
    assert!(c.use_server());
    c.set_use_server(false);
    assert!(!c.use_server());
}

#[test]
fn display_masks_key() {
    let mut c = Config::unconfigured();
    c.git.protected_branches = vec!["main".to_string()];
    c.git.max_diff_size = 1000;
    c.commit.template = "conventional".to_string();
    c.commit.max_subject_length = 72;
    let unset = c.display();
    assert!(unset.contains("  API Key: <not set>\n"));
    c.set_api_key("secret".to_string());
    let shown = c.display();
    let expected = [
        "",
        "AI Configuration:",
        "  Provider: anthropic",
        "  Model: haiku",
        "  API Key: ********",
        "",
        "Git Configuration:",
        "  Max Diff Size: 1000 lines",
        "  Protected Branches:",
        "    - main",
        "",
        "Commit Configuration:",
        "  Template: conventional",
        "  Max Subject Length: 72 characters",
        "",
        "Server Configuration:",
        "  Use Server: true",
        "",
    ]
    .join("\n");
    assert_eq!(shown, expected);
    assert!(!shown.contains("secret"));
}

#[test]
fn profile_preferences() {
    let mut p = UserProfile::new("ada".to_string(), "ada@example.com".to_string());
    assert_eq!(p.preferences, UserPreferences { theme: Theme::System, notifications_enabled: true, auto_sync: false });
    let prefs = UserPreferences { theme: Theme::Dark, notifications_enabled: false, auto_sync: true };
    p.update_preferences(prefs);
    assert_eq!(p.preferences, prefs);
    assert_eq!(p.username, "ada");
}
