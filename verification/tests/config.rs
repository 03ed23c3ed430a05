use print_agent::agent::{
    boot, launched_from_autostart, menu_action, quit, restart_poller, starts_hidden, MenuAction,
};
use print_agent::config::{default_poll_interval, AgentConfig, ConfigError, ConfigRead, ConfigWrite};
use print_agent::platform::Platform;
use print_agent::poller::{Phase, PollAction};
use print_agent::status::PollerStatus;

fn config() -> AgentConfig {
    AgentConfig {
        api_url: "https://api.lesscommerce.io".to_string(),
        printer_token: "lpa_live_x".to_string(),
        system_printer: "Zebra ZD220".to_string(),
        display_name: None,
        poll_interval: 5,
        launch_at_login: false,
    }
}

fn args(list: &[&str]) -> Vec<String> {
    list.iter().map(|s| s.to_string()).collect()
}

#[test]
fn default_cadence() {
    assert_eq!(default_poll_interval(), 5);
}

#[test]
fn complete_settings_name_server_token_and_printer() {
    assert!(config().is_complete());
    assert!(!AgentConfig { api_url: String::new(), ..config() }.is_complete());
    assert!(!AgentConfig { printer_token: " \t".to_string(), ..config() }.is_complete());
    assert!(!AgentConfig { system_printer: "\u{3000}\n".to_string(), ..config() }.is_complete());
    assert!(AgentConfig { system_printer: " x ".to_string(), ..config() }.is_complete());
}

#[test]
fn platforms_by_name() {
    assert_eq!(Platform::named("windows"), Platform::Windows);
    assert_eq!(Platform::named("macos"), Platform::MacOs);
    assert_eq!(Platform::named("linux"), Platform::Linux);
    assert_eq!(Platform::named("freebsd"), Platform::Linux);
}

#[test]
fn settings_are_kept_where_the_system_keeps_them() {
    let path = AgentConfig::config_path(Platform::Linux, true).unwrap();
    assert_eq!((path.dir.as_str(), path.file.as_str()), ("lesscommerce", "print-agent.json"));
    assert_eq!(path.mode, Some(0o600));
    let path = AgentConfig::config_path(Platform::MacOs, true).unwrap();
    assert_eq!(path.mode, Some(0o600));
    assert_eq!(
        (path.dir.as_str(), path.file.as_str()),
        ("io.lesscommerce.print-agent", "print-agent.json")
    );
    let path = AgentConfig::config_path(Platform::Windows, true).unwrap();
    assert_eq!((path.dir.as_str(), path.file.as_str()), ("lesscommerce", "print-agent.json"));
    assert_eq!(path.mode, None);
    let error = AgentConfig::config_path(Platform::Linux, false).unwrap_err();
    assert_eq!(error.message(), "Could not resolve OS config dir for print-agent");
}

#[test]
fn loading_settings() {
    assert!(AgentConfig::load(ConfigRead::Missing).unwrap().is_none());
    let loaded = AgentConfig::load(ConfigRead::Parsed(config())).unwrap().unwrap();
    assert_eq!(loaded.system_printer, "Zebra ZD220");
    let error = AgentConfig::load(ConfigRead::NoDirectory).unwrap_err();
    assert!(matches!(error, ConfigError::NoDirectory));
    let error = AgentConfig::load(ConfigRead::Unreadable("/c.json".to_string())).unwrap_err();
    assert_eq!(error.message(), "Failed to read /c.json");
    let error = AgentConfig::load(ConfigRead::Malformed("/c.json".to_string())).unwrap_err();
    assert_eq!(error.message(), "Failed to parse /c.json — is the JSON valid?");
}

#[test]
fn saving_settings() {
    assert!(AgentConfig::save(ConfigWrite::Written).is_ok());
    let error = AgentConfig::save(ConfigWrite::NoDirectory).unwrap_err();
    assert!(matches!(error, ConfigError::NoDirectory));
    let error = AgentConfig::save(ConfigWrite::DirectoryNotCreated("/d".to_string())).unwrap_err();
    assert_eq!(error.message(), "Failed to create /d");
    let error = AgentConfig::save(ConfigWrite::NotSerialized("why".to_string())).unwrap_err();
    assert_eq!(error.message(), "why");
    let error = AgentConfig::save(ConfigWrite::NotWritten("/d/c".to_string())).unwrap_err();
    assert_eq!(error.message(), "Failed to write /d/c");
}

#[test]
fn complete_settings_start_the_loop() {
    let mut status = PollerStatus::default();
    let mut running = false;
    let hasty = AgentConfig { poll_interval: 0, ..config() };
    let restart = restart_poller(&mut running, &hasty, &mut status);
    assert!(running);
    assert!(!restart.stop);
    assert!(!restart.shown);
    let (poller, action) = restart.start.unwrap();
    assert_eq!(poller.interval_secs, 1);
    assert_eq!(poller.printer, "Zebra ZD220");
    assert!(matches!(poller.phase, Phase::Connecting));
    match action {
        PollAction::Connect(api_url, token) => {
            assert_eq!(api_url, "https://api.lesscommerce.io");
            assert_eq!(token, "lpa_live_x");
        }
        other => panic!("{:?}", other),
    }
    assert_eq!(status.last_message, None);
}

#[test]
fn incomplete_settings_do_not() {
    let mut status = PollerStatus::default();
    status.state = "idle".to_string();
    status.jobs_printed = 3;
    let mut running = true;
    let partial = AgentConfig { printer_token: String::new(), ..config() };
    let restart = restart_poller(&mut running, &partial, &mut status);
    assert!(!running);
    assert!(restart.stop);
    assert!(restart.shown);
    assert!(restart.start.is_none());
    assert_eq!(status.state, "unconfigured");
    assert_eq!(status.last_message.as_deref(), Some("Configure the agent to start printing."));
    assert_eq!(status.jobs_printed, 3);
}

#[test]
fn one_loop_runs_at_a_time() {
    let mut status = PollerStatus::default();
    let mut running = false;
    let partial = AgentConfig { api_url: String::new(), ..config() };
    let mut alive = 0;
    for settings in [config(), config(), partial.clone(), partial, config(), config()] {
        let restart = restart_poller(&mut running, &settings, &mut status);
        if restart.stop {
            alive -= 1;
        }
        assert_eq!(alive, 0);
        if restart.start.is_some() {
            alive += 1;
        }
        assert_eq!(running, settings.is_complete());
    }
    assert_eq!(alive, 1);
    assert!(quit(&mut running));
    assert!(!running);
    assert!(!quit(&mut running));
}

#[test]
fn friendly_name_defaults_to_the_one_the_server_tells() {
    let told = Some("Warehouse".to_string());
    assert_eq!(config().friendly_name(&told).as_deref(), Some("Warehouse"));
    assert_eq!(config().friendly_name(&None), None);
    let named = AgentConfig { display_name: Some("Desk".to_string()), ..config() };
    assert_eq!(named.friendly_name(&told).as_deref(), Some("Desk"));
}

#[test]
fn first_run_asks_for_settings() {
    let mut status = PollerStatus::default();
    let first = boot(Ok(None), &mut status);
    assert!(first.config.is_none());
    assert!(first.shown);
    assert_eq!(status.state, "unconfigured");
    assert_eq!(
        status.last_message.as_deref(),
        Some("First run — open the setup window to configure.")
    );
    let mut status = PollerStatus::default();
    assert!(boot(Err(ConfigError::NoDirectory), &mut status).config.is_none());
    assert!(status.last_message.is_some());
    let mut status = PollerStatus::default();
    let found = boot(Ok(Some(config())), &mut status);
    assert!(found.config.is_some());
    assert!(!found.shown);
    assert_eq!(status.last_message, None);
}

#[test]
fn window_is_hidden_for_returning_users_and_at_login() {
    assert!(launched_from_autostart(&args(&["agent", "--launched-from-autostart"])));
    assert!(!launched_from_autostart(&args(&["agent", "--launched"])));
    assert!(starts_hidden(&args(&["--launched-from-autostart"]), &Ok(None)));
    assert!(starts_hidden(&args(&["agent"]), &Ok(Some(config()))));
    assert!(!starts_hidden(&args(&["agent"]), &Ok(None)));
    assert!(!starts_hidden(&args(&["agent"]), &Err(ConfigError::NoDirectory)));
    let partial = AgentConfig { api_url: String::new(), ..config() };
    assert!(!starts_hidden(&args(&["agent"]), &Ok(Some(partial))));
}

#[test]
fn tray_menu() {
    assert_eq!(menu_action("show"), Some(MenuAction::Show));
    assert_eq!(menu_action("docs"), Some(MenuAction::Documentation));
    assert_eq!(menu_action("quit"), Some(MenuAction::Quit));
    assert_eq!(menu_action("other"), None);
}
