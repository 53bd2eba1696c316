use usermgmt::resolve::Config;
use usermgmt::resolve::ConfigEntry;
use usermgmt::resolve::Credential;
use usermgmt::resolve::ResolutionError;
use usermgmt::resolve::Settings;
use usermgmt::resolve::field_conf_or_state;
use usermgmt::resolve::resolve;
use usermgmt::selector::Backend;
use usermgmt::selector::TargetSelector;

fn credential(name: &str) -> Credential {
    Credential {
        username: name.to_string(),
        password: "SECRET-REDACTED".to_string(),
    }
}

fn settings(
    config: bool,
    directory_credential: Option<Credential>,
    cluster_credential: Option<Credential>,
) -> Settings {
    Settings {
        config: if config { Some(Config { entries: Vec::new() }) } else { None },
        directory_credential,
        cluster_credential,
    }
}

#[test]
fn resolve_without_config_reports_config_missing() {
    let selector = TargetSelector::new(true, true).unwrap();
    let r = resolve(settings(false, Some(credential("a")), Some(credential("b"))), &selector, true);
    assert_eq!(r.err(), Some(ResolutionError::ConfigMissing));
}

#[test]
fn resolve_directory_selected_needs_directory_credential() {
    let selector = TargetSelector::new(true, false).unwrap();
    let r = resolve(settings(true, None, None), &selector, false);
    assert_eq!(
        r.err(),
        Some(ResolutionError::CredentialMissing(Backend::Directory))
    );
}

#[test]
fn resolve_cluster_with_ssh_required_needs_ssh_credential() {
    // Whether or not a directory credential is present, the missing SSH
    // credential is what is reported.
    let selector = TargetSelector::new(false, true).unwrap();
    let r = resolve(settings(true, None, None), &selector, true);
    assert_eq!(
        r.err(),
        Some(ResolutionError::CredentialMissing(Backend::Cluster))
    );
    let r = resolve(settings(true, Some(credential("a")), None), &selector, true);
    assert_eq!(
        r.err(),
        Some(ResolutionError::CredentialMissing(Backend::Cluster))
    );
    // Both backends selected and both credentials missing: the missing
    // SSH credential is still what is reported.
    let both = TargetSelector::new(true, true).unwrap();
    let r = resolve(settings(true, None, None), &both, true);
    assert_eq!(
        r.err(),
        Some(ResolutionError::CredentialMissing(Backend::Cluster))
    );
}

#[test]
fn resolve_cluster_without_ssh_requirement_passes() {
    let selector = TargetSelector::new(false, true).unwrap();
    let ctx = resolve(settings(true, None, None), &selector, false).unwrap();
    assert!(ctx.directory_credential.is_none());
    assert!(ctx.cluster_credential.is_none());
}

#[test]
fn resolve_captures_the_settings_snapshot() {
    let selector = TargetSelector::new(true, true).unwrap();
    let ctx = resolve(
        settings(true, Some(credential("reader")), Some(credential("ssh"))),
        &selector,
        true,
    )
    .unwrap();
    assert_eq!(ctx.directory_credential.unwrap().username, "reader");
    assert_eq!(ctx.cluster_credential.unwrap().username, "ssh");
}

#[test]
fn selector_refuses_the_empty_selection() {
    assert!(TargetSelector::new(false, false).is_none());
    let s = TargetSelector::new(true, false).unwrap();
    assert!(s.contains(Backend::Directory));
    assert!(!s.contains(Backend::Cluster));
}

#[test]
fn config_get_first_matching_key_wins() {
    let config = Config {
        entries: vec![
            ConfigEntry { key: "ldap_readonly_user".to_string(), value: "reader".to_string() },
            ConfigEntry { key: "head_node".to_string(), value: "login01".to_string() },
            ConfigEntry { key: "head_node".to_string(), value: "login02".to_string() },
        ],
    };
    assert_eq!(config.get("head_node"), Some(&"login01".to_string()));
    assert_eq!(config.get("ldap_readonly_user"), Some(&"reader".to_string()));
    assert_eq!(config.get("absent"), None);
}

#[test]
fn field_prefers_typed_value_over_configured() {
    assert_eq!(
        field_conf_or_state(Some("typed"), Some("configured")),
        Some("typed".to_string())
    );
    assert_eq!(
        field_conf_or_state(None, Some("configured")),
        Some("configured".to_string())
    );
    assert_eq!(field_conf_or_state(None, None), None);
}
