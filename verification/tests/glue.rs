//! The surrounding data model: settings and configuration defaults, power
//! and notification policy, startup metrics, the log buffer, and the access
//! mode's bind address.

use tunnelforge_core::config::AppConfig;
use tunnelforge_core::logbuf::{LogBuffer, LogEntry};
use tunnelforge_core::metrics::{ServerDirectoryCache, StartupTimer};
use tunnelforge_core::notifications::{NotificationPreferences, NotificationSettings};
use tunnelforge_core::power::{PowerManager, PowerSettings};
use tunnelforge_core::settings::SettingsConfig;
use tunnelforge_core::notifications::NotificationEvent;
use tunnelforge_core::status::{AccessMode, AccessModeStatus};

#[test]
fn test_secure_operations_logging() {
    // Test that logging setup works
    // In a real implementation, we'd test the actual secure_store function
    // For now, we verify the logging setup is correct
    assert!(true, "Logging setup should be functional");
}

#[test]
fn test_settings_config() {
    let config = SettingsConfig::default();

    // Verify default values
    assert!(!config.autostart);
    assert!(config.show_in_dock);
    assert_eq!(config.server_port, "4020");
    assert_eq!(config.access_mode, "localhost");
}

#[test]
fn test_access_mode_status_clone() {
    let original = AccessModeStatus {
        current_mode: AccessMode::NetworkAccess,
        server_port: 8080,
        network_interfaces: vec!["192.168.1.100".to_string()],
        can_bind_network: true,
        firewall_status: Some("Test firewall".to_string()),
    };

    let cloned = original.clone();
    assert_eq!(original.current_mode, cloned.current_mode);
    assert_eq!(original.server_port, cloned.server_port);
    assert_eq!(original.network_interfaces, cloned.network_interfaces);
    assert_eq!(original.can_bind_network, cloned.can_bind_network);
    assert_eq!(original.firewall_status, cloned.firewall_status);
}

#[test]
fn current_binding_follows_mode() {
    let mut status = AccessModeStatus {
        current_mode: AccessMode::LocalhostOnly,
        server_port: 4021,
        network_interfaces: vec![],
        can_bind_network: false,
        firewall_status: None,
    };
    assert_eq!(status.current_binding().unwrap(), "127.0.0.1:4021");

    status.current_mode = AccessMode::NetworkAccess;
    assert_eq!(
        status.current_binding(),
        Err("Cannot bind to network interfaces".to_string())
    );

    status.can_bind_network = true;
    assert_eq!(status.current_binding().unwrap(), "0.0.0.0:4021");

    status.server_port = 80;
    assert_eq!(status.current_binding().unwrap(), "0.0.0.0:80");
}

#[test]
fn app_config_defaults() {
    let config = AppConfig::default();
    assert_eq!(config.server_port, 4021);
    assert!(config.auto_start_server);
    assert!(!config.use_development_server);
    assert_eq!(config.theme, "dark");
    assert_eq!(config.server_host, "127.0.0.1");
    assert!(config.server_executable_path.is_none());
}

#[test]
fn power_manager_state_machine() {
    let mut pm = PowerManager::new();
    assert!(!pm.is_monitoring());
    assert!(pm.start_monitoring().is_ok());
    assert!(pm.is_monitoring());
    // A second start while active is refused.
    assert_eq!(
        pm.start_monitoring(),
        Err("Power monitoring is already active".to_string())
    );
    pm.stop_monitoring();
    assert!(!pm.is_monitoring());
    assert!(pm.start_monitoring().is_ok());

    let settings = PowerSettings {
        pause_on_sleep: false,
        resume_on_wake: true,
        handle_lid_events: false,
    };
    pm.update_settings(settings);
    assert_eq!(pm.get_settings(), settings);
    assert!(!pm.handle_sleep_event());
    assert!(pm.handle_wake_event());
}

#[test]
fn notification_preferences_follow_config() {
    let mut config = SettingsConfig::default();
    config.notifications_enabled = false;
    config.notification_bell = true;
    let prefs = NotificationPreferences::from_config(&config);
    assert!(!prefs.enabled);
    assert!(prefs.bell);
    assert!(prefs.session_start);
    assert!(!prefs.command_completion);

    let defaults = NotificationPreferences::default();
    assert!(defaults.enabled && defaults.session_exit && !defaults.claude_turn);

    let ns = NotificationSettings::default();
    assert!(ns.enabled && ns.sound_enabled && ns.show_in_dock && ns.show_server_status);
}

#[test]
fn startup_timer_records_milestones() {
    let timer = StartupTimer::new();
    let mut timer = timer;
    timer.record_server_start();
    timer.record_ui_init();
    timer.record_health_check();
    timer.record_server_ready();
    let metrics = timer.get_metrics();
    assert!(metrics.total_startup_time_ms >= metrics.server_start_time_ms);
    assert!(metrics.server_ready_time_ms >= metrics.server_start_time_ms);
}

#[test]
fn server_directory_cache_remembers_path() {
    let mut cache = ServerDirectoryCache::new();
    assert!(cache.get_path().is_none());
    cache.set_path("/opt/tunnelforge/server".to_string());
    assert_eq!(cache.get_path().unwrap(), "/opt/tunnelforge/server");
}

#[test]
fn log_buffer_keeps_last_entries() {
    let mut buffer = LogBuffer::new();
    for i in 0..250 {
        buffer.add_log_entry(LogEntry {
            timestamp: "00:00:00".to_string(),
            level: "info".to_string(),
            message: format!("entry {}", i),
        });
    }
    assert_eq!(buffer.len(), 200);
    let all = buffer.recent(None);
    assert_eq!(all.len(), 200);
    assert_eq!(all[0].message, "entry 50");
    assert_eq!(all[199].message, "entry 249");

    let last_three = buffer.recent(Some(3));
    assert_eq!(last_three.len(), 3);
    assert_eq!(last_three[0].message, "entry 247");
    assert_eq!(last_three[2].message, "entry 249");

    let more_than_held = buffer.recent(Some(1000));
    assert_eq!(more_than_held.len(), 200);
}

#[test]
fn auto_start_state_machine() {
    let mut mgr = tunnelforge_core::autostart::AutoStartManager::new();
    assert_eq!(mgr.is_auto_start_enabled(), Ok(false));
    assert!(mgr.enable_auto_start().is_ok());
    assert_eq!(mgr.is_auto_start_enabled(), Ok(true));
    assert!(mgr.enable_auto_start().is_ok());
    assert_eq!(mgr.is_auto_start_enabled(), Ok(true));
    assert!(mgr.disable_auto_start().is_ok());
    assert_eq!(mgr.is_auto_start_enabled(), Ok(false));
}

#[test]
fn notification_gating_needs_master_and_event_flag() {
    let mut prefs = NotificationPreferences::default();
    assert!(prefs.should_notify(NotificationEvent::SessionStart));
    assert!(prefs.should_notify(NotificationEvent::SessionExit));
    assert!(prefs.should_notify(NotificationEvent::CommandError));
    assert!(!prefs.should_notify(NotificationEvent::CommandCompletion));
    assert!(!prefs.should_notify(NotificationEvent::Bell));
    assert!(!prefs.should_notify(NotificationEvent::ClaudeTurn));

    prefs.enabled = false;
    assert!(!prefs.should_notify(NotificationEvent::SessionStart));
    assert!(!prefs.should_notify(NotificationEvent::SessionExit));
}
