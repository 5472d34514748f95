use sd_core::{override_enabled, MigrationConfig};

#[test]
fn override_is_on_for_the_exact_text_true() {
    assert!(override_enabled(Some("true")));
}

#[test]
fn override_is_off_when_absent() {
    assert!(!override_enabled(None));
}

#[test]
fn override_is_off_for_any_other_text() {
    assert!(!override_enabled(Some("")));
    assert!(!override_enabled(Some("false")));
    assert!(!override_enabled(Some("TRUE")));
    assert!(!override_enabled(Some("True")));
    assert!(!override_enabled(Some("1")));
    assert!(!override_enabled(Some("yes")));
    assert!(!override_enabled(Some(" true")));
    assert!(!override_enabled(Some("true ")));
    assert!(!override_enabled(Some("true\n")));
    assert!(!override_enabled(Some("tru")));
    assert!(!override_enabled(Some("truee")));
}

#[test]
fn config_reads_each_override_on_its_own() {
    assert_eq!(
        MigrationConfig::from_overrides(None, None),
        MigrationConfig { accept_data_loss: false, force_reset: false }
    );
    assert_eq!(
        MigrationConfig::from_overrides(Some("true"), None),
        MigrationConfig { accept_data_loss: true, force_reset: false }
    );
    assert_eq!(
        MigrationConfig::from_overrides(None, Some("true")),
        MigrationConfig { accept_data_loss: false, force_reset: true }
    );
    assert_eq!(
        MigrationConfig::from_overrides(Some("true"), Some("true")),
        MigrationConfig { accept_data_loss: true, force_reset: true }
    );
    assert_eq!(
        MigrationConfig::from_overrides(Some("1"), Some("on")),
        MigrationConfig { accept_data_loss: false, force_reset: false }
    );
}
