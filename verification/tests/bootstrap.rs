use app_shell::config::assemble_full_configuration;
use app_shell::config::initialize_default_configuration;
use app_shell::config::AppConfig;
use app_shell::config::PluginKind;
use app_shell::startup::complete_startup;
use app_shell::startup::initial_boot_state;
use app_shell::startup::BootState;
use app_shell::startup::StartupFailure;

#[test]
fn fresh_configuration_is_empty() {
    let config = initialize_default_configuration();
    assert_eq!(config.plugins().len(), 0);
}

#[test]
fn default_configuration_is_empty() {
    let config = AppConfig::default();
    assert_eq!(config.plugins().len(), 0);
}

#[test]
fn register_preserves_order() {
    let config = initialize_default_configuration()
        .register_plugin(PluginKind::Notifications)
        .register_plugin(PluginKind::Storage)
        .register_plugin(PluginKind::Dialogs);
    assert_eq!(
        config.plugins(),
        &vec![
            PluginKind::Notifications,
            PluginKind::Storage,
            PluginKind::Dialogs,
        ]
    );
}

#[test]
fn full_capability_set_in_declared_order() {
    let config = initialize_default_configuration()
        .register_plugin(PluginKind::Storage)
        .register_plugin(PluginKind::Network)
        .register_plugin(PluginKind::Dialogs)
        .register_plugin(PluginKind::Notifications)
        .register_plugin(PluginKind::ExternalOpen);
    assert_eq!(
        config.plugins(),
        &vec![
            PluginKind::Storage,
            PluginKind::Network,
            PluginKind::Dialogs,
            PluginKind::Notifications,
            PluginKind::ExternalOpen,
        ]
    );
}

#[test]
fn assembled_full_set_matches_declared_order() {
    let config = assemble_full_configuration();
    assert_eq!(
        config.plugins(),
        &vec![
            PluginKind::Storage,
            PluginKind::Network,
            PluginKind::Dialogs,
            PluginKind::Notifications,
            PluginKind::ExternalOpen,
        ]
    );
}

#[test]
fn register_plugins_appends_in_order() {
    let base = initialize_default_configuration().register_plugin(PluginKind::Storage);
    let rest = vec![
        PluginKind::Network,
        PluginKind::Dialogs,
        PluginKind::Notifications,
    ];
    let config = base.register_plugins(&rest);
    assert_eq!(
        config.plugins(),
        &vec![
            PluginKind::Storage,
            PluginKind::Network,
            PluginKind::Dialogs,
            PluginKind::Notifications,
        ]
    );
}

#[test]
fn register_all_plugins_at_once_keeps_input_order() {
    let all = vec![
        PluginKind::Storage,
        PluginKind::Network,
        PluginKind::Dialogs,
        PluginKind::Notifications,
        PluginKind::ExternalOpen,
    ];
    let config = initialize_default_configuration().register_plugins(&all);
    assert_eq!(config.plugins(), &all);
}

#[test]
fn contains_plugin_reflects_registration() {
    let config = initialize_default_configuration().register_plugin(PluginKind::Network);
    assert!(config.contains_plugin(PluginKind::Network));
    assert!(!config.contains_plugin(PluginKind::Storage));
    assert!(!initialize_default_configuration().contains_plugin(PluginKind::Network));
}

#[test]
fn boot_begins_unstarted() {
    let state = initial_boot_state();
    assert!(matches!(state, BootState::Unstarted));
}

#[test]
fn startup_failure_aborts_with_diagnostic() {
    let config = initialize_default_configuration()
        .register_plugin(PluginKind::Storage)
        .register_plugin(PluginKind::Network);
    let failure = StartupFailure {
        message: String::from("the storage plugin failed to initialize"),
    };
    match complete_startup(config, Err(failure)) {
        BootState::Aborted(reported) => {
            assert_eq!(reported.message, "the storage plugin failed to initialize");
        }
        _ => panic!("a startup failure must abort the shell"),
    }
}

#[test]
fn empty_configuration_still_runs() {
    let config = initialize_default_configuration();
    match complete_startup(config, Ok(())) {
        BootState::Running(owned) => assert_eq!(owned.plugins().len(), 0),
        _ => panic!("a successful startup with no plugins must reach the running state"),
    }
}

#[test]
fn successful_startup_keeps_plugin_order() {
    let all = vec![
        PluginKind::Storage,
        PluginKind::Network,
        PluginKind::Dialogs,
        PluginKind::Notifications,
        PluginKind::ExternalOpen,
    ];
    let config = initialize_default_configuration().register_plugins(&all);
    match complete_startup(config, Ok(())) {
        BootState::Running(owned) => assert_eq!(owned.plugins(), &all),
        _ => panic!("a successful startup must reach the running state"),
    }
}
