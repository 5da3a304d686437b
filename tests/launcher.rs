use rdp::config::{load_config, Config, ConfigRead, CONFIG_FILE_NAME};
use rdp::credentials::CredentialState;
use rdp::error::LaunchError;
use rdp::launch::{command_args, COMMAND_TO_RUN};
use rdp::mode::{parse_mode, Mode};
use rdp::options::resolve_args;
use rdp::session::{Phase, Session};

fn strings(items: &[&str]) -> Vec<String> {
    items.iter().map(|s| s.to_string()).collect()
}

fn sample_config() -> Config {
    Config::new(strings(&["/cert-ignore"]), "admin".to_string(), "10.0.0.1".to_string())
}

#[test]
fn parse_mode_accepts_cli() {
    assert_eq!(parse_mode("cli"), Some(Mode::Cli));
}

#[test]
fn parse_mode_accepts_gui() {
    assert_eq!(parse_mode("gui"), Some(Mode::Gui));
}

#[test]
fn parse_mode_rejects_other_text() {
    assert_eq!(parse_mode("GUI"), None);
    assert_eq!(parse_mode("cli "), None);
    assert_eq!(parse_mode(""), None);
    assert_eq!(parse_mode("tui"), None);
}

#[test]
fn command_args_for_sample_credentials() {
    let creds = CredentialState::from_fields(
        "10.0.0.5".to_string(),
        "alice".to_string(),
        "secret".to_string(),
    );
    let args = command_args(&strings(&["/cert-ignore"]), &creds);
    assert_eq!(args, strings(&["/cert-ignore", "/p:secret", "/u:alice", "/v:10.0.0.5"]));
}

#[test]
fn command_args_without_base_args_and_empty_password() {
    let creds = CredentialState::new("host".to_string(), "bob".to_string());
    let args = command_args(&Vec::new(), &creds);
    assert_eq!(args, strings(&["/p:", "/u:bob", "/v:host"]));
}

#[test]
fn command_args_keep_base_order() {
    let creds = CredentialState::from_fields("s".to_string(), "u".to_string(), "p".to_string());
    let args = command_args(&strings(&["/f", "/cert-ignore", "+clipboard"]), &creds);
    assert_eq!(args, strings(&["/f", "/cert-ignore", "+clipboard", "/p:p", "/u:u", "/v:s"]));
}

#[test]
fn load_config_keeps_decoded_fields() {
    let read = ConfigRead::Fields(sample_config());
    let config = load_config(read).ok().unwrap();
    assert_eq!(config.args, strings(&["/cert-ignore"]));
    assert_eq!(config.default_user, "admin");
    assert_eq!(config.default_server, "10.0.0.1");
}

#[test]
fn load_config_missing_file() {
    assert_eq!(load_config(ConfigRead::NotFound).err(), Some(LaunchError::ConfigNotFound));
}

#[test]
fn load_config_malformed_file() {
    assert_eq!(load_config(ConfigRead::Malformed).err(), Some(LaunchError::ConfigParseError));
}

#[test]
fn resolve_args_uses_config_defaults() {
    let inv = resolve_args(&sample_config(), None, None, None).ok().unwrap();
    assert_eq!(inv.mode, Mode::Cli);
    assert_eq!(inv.credentials.server, "10.0.0.1");
    assert_eq!(inv.credentials.user, "admin");
    assert_eq!(inv.credentials.password, "");
}

#[test]
fn resolve_args_uses_given_options() {
    let inv = resolve_args(
        &sample_config(),
        Some("10.0.0.5".to_string()),
        Some("alice".to_string()),
        Some("gui".to_string()),
    )
    .ok()
    .unwrap();
    assert_eq!(inv.mode, Mode::Gui);
    assert_eq!(inv.credentials.server, "10.0.0.5");
    assert_eq!(inv.credentials.user, "alice");
    assert_eq!(inv.credentials.password, "");
}

#[test]
fn resolve_args_cli_mode_selects_terminal() {
    let inv = resolve_args(&sample_config(), None, None, Some("cli".to_string())).ok().unwrap();
    assert_eq!(inv.mode, Mode::Cli);
}

#[test]
fn resolve_args_rejects_unknown_mode() {
    let r = resolve_args(&sample_config(), Some("h".to_string()), None, Some("web".to_string()));
    assert_eq!(r.err(), Some(LaunchError::InvalidMode));
}

#[test]
fn set_password_keeps_server_and_user() {
    let mut creds = CredentialState::new("host".to_string(), "bob".to_string());
    creds.set_password("typed secret".to_string());
    assert_eq!(creds.server, "host");
    assert_eq!(creds.user, "bob");
    assert_eq!(creds.password, "typed secret");
}

#[test]
fn set_password_accepts_empty_line() {
    let mut creds = CredentialState::new("host".to_string(), "bob".to_string());
    creds.set_password(String::new());
    assert_eq!(creds.password, "");
}

#[test]
fn confirmed_form_replaces_all_fields() {
    let mut creds = CredentialState::new("10.0.0.1".to_string(), "admin".to_string());
    let form = CredentialState::from_fields("host1".to_string(), "bob".to_string(), "pw1".to_string());
    creds.apply_form(Some(form));
    assert_eq!(creds.server, "host1");
    assert_eq!(creds.user, "bob");
    assert_eq!(creds.password, "pw1");
}

#[test]
fn dismissed_form_leaves_record_unchanged() {
    let mut creds = CredentialState::new("10.0.0.1".to_string(), "admin".to_string());
    creds.apply_form(None);
    assert_eq!(creds.server, "10.0.0.1");
    assert_eq!(creds.user, "admin");
    assert_eq!(creds.password, "");
}

#[test]
fn error_messages_are_distinct() {
    assert_eq!(LaunchError::ConfigNotFound.message(), "Config file not found");
    assert_eq!(LaunchError::ConfigParseError.message(), "Cannot deserialize config");
    assert_eq!(LaunchError::InvalidMode.message(), "Invalid mode parameter");
    assert_eq!(LaunchError::SpawnError.message(), "Cannot run RDP process");
}

#[test]
fn fixed_names() {
    assert_eq!(CONFIG_FILE_NAME, "rdp-config.json");
    assert_eq!(COMMAND_TO_RUN, "xfreerdp");
}

#[test]
fn session_cli_flow() {
    let mut session = Session::start(ConfigRead::Fields(sample_config()), None, None, None).ok().unwrap();
    assert_eq!(session.phase(), Phase::AwaitingCredentials);
    assert_eq!(session.mode(), Mode::Cli);
    assert_eq!(session.credentials().password, "");
    session.collect_password("secret".to_string());
    assert_eq!(session.phase(), Phase::CredentialsReady);
    assert_eq!(
        session.client_args(),
        strings(&["/cert-ignore", "/p:secret", "/u:admin", "/v:10.0.0.1"])
    );
}

#[test]
fn session_gui_flow_confirmed() {
    let mut session = Session::start(
        ConfigRead::Fields(sample_config()),
        Some("10.0.0.9".to_string()),
        None,
        Some("gui".to_string()),
    )
    .ok()
    .unwrap();
    assert_eq!(session.mode(), Mode::Gui);
    assert_eq!(session.credentials().server, "10.0.0.9");
    let form = CredentialState::from_fields("host1".to_string(), "bob".to_string(), "pw1".to_string());
    session.collect_form(Some(form));
    assert_eq!(session.phase(), Phase::CredentialsReady);
    assert_eq!(session.credentials().server, "host1");
    assert_eq!(session.credentials().user, "bob");
    assert_eq!(session.credentials().password, "pw1");
    assert_eq!(session.client_args(), strings(&["/cert-ignore", "/p:pw1", "/u:bob", "/v:host1"]));
}

#[test]
fn session_gui_flow_dismissed() {
    let mut session =
        Session::start(ConfigRead::Fields(sample_config()), None, None, Some("gui".to_string()))
            .ok()
            .unwrap();
    session.collect_form(None);
    assert_eq!(session.phase(), Phase::CredentialsReady);
    assert_eq!(session.client_args(), strings(&["/cert-ignore", "/p:", "/u:admin", "/v:10.0.0.1"]));
}

#[test]
fn session_start_errors() {
    let missing = Session::start(ConfigRead::NotFound, None, None, Some("web".to_string()));
    assert_eq!(missing.err(), Some(LaunchError::ConfigNotFound));
    let malformed = Session::start(ConfigRead::Malformed, None, None, None);
    assert_eq!(malformed.err(), Some(LaunchError::ConfigParseError));
    let bad_mode =
        Session::start(ConfigRead::Fields(sample_config()), None, None, Some("web".to_string()));
    assert_eq!(bad_mode.err(), Some(LaunchError::InvalidMode));
}
