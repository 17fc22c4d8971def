use s1_mcp_client_rust::config::{
    missing_config_report, settings_report, settings_report_from_text, ConfigDiagnosticKind, ConfigSource, Settings,
};
use s1_mcp_client_rust::json::{JsonNumber, JsonValue};

fn obj(entries: Vec<(&str, JsonValue)>) -> JsonValue {
    JsonValue::Object(entries.into_iter().map(|(k, v)| (k.to_string(), v)).collect())
}

#[test]
fn default_settings_values() {
    let s = Settings::default();
    assert_eq!(s.host, "127.0.0.1");
    assert_eq!(s.port, 8765);
    assert_eq!(s.log_level, "info");
    assert_eq!(s.connection_timeout, 10);
    assert_eq!(s.reconnect_delay, 3);
    assert_eq!(s.game_startup_timeout, 120);
    assert_eq!(s.game_connection_poll_interval, 2);
    assert!(s.game_il2cpp_path.is_empty() && s.game_mono_path.is_empty() && s.game_executable.is_empty());
}

#[test]
fn load_with_diagnostics_reports_missing_config() {
    let report = settings_report("/tmp/s1mcprust-missing.json", ConfigSource::NotFound);

    assert_eq!(report.settings.host, Settings::default().host);
    assert!(report.diagnostics.iter().any(|diag| diag.kind == ConfigDiagnosticKind::MissingConfigFile));
    assert_eq!(
        report.diagnostics[0].message,
        "Config file '/tmp/s1mcprust-missing.json' was not found. Using default settings."
    );
}

#[test]
fn load_with_diagnostics_reports_partial_fallback() {
    let value = obj(vec![("host", JsonValue::String("10.0.0.5".to_string()))]);
    let mut decoded = Settings::default();
    decoded.host = "10.0.0.5".to_string();
    let report = settings_report("partial.json", ConfigSource::Parsed { value, decoded: Ok(decoded) });

    assert_eq!(report.settings.host, "10.0.0.5");
    assert!(report.diagnostics.iter().any(|diag| diag.kind == ConfigDiagnosticKind::PartialFallback));
    assert_eq!(
        report.diagnostics[0].message,
        "Config file 'partial.json' is missing keys [port, log_level, connection_timeout, reconnect_delay, \
game_il2cpp_path, game_mono_path, game_executable, game_startup_timeout, game_connection_poll_interval]. \
Defaults were applied for missing values."
    );
}

#[test]
fn load_with_diagnostics_reports_invalid_json() {
    let report = settings_report("invalid.json", ConfigSource::InvalidJson("key must be a string at line 1 column 2".to_string()));

    assert_eq!(report.settings.port, Settings::default().port);
    assert!(report.diagnostics.iter().any(|diag| diag.kind == ConfigDiagnosticKind::InvalidConfig));
}

#[test]
fn complete_config_has_no_diagnostics() {
    let keys = [
        "host", "port", "log_level", "connection_timeout", "reconnect_delay", "game_il2cpp_path", "game_mono_path",
        "game_executable", "game_startup_timeout", "game_connection_poll_interval",
    ];
    let value = JsonValue::Object(
        keys.iter().map(|k| (k.to_string(), JsonValue::Number(JsonNumber::PosInt(1)))).collect(),
    );
    let mut decoded = Settings::default();
    decoded.port = 9000;
    let report = settings_report("full.json", ConfigSource::Parsed { value, decoded: Ok(decoded) });
    assert!(report.diagnostics.is_empty());
    assert_eq!(report.settings.port, 9000);
}

#[test]
fn non_object_config_and_bad_values_fall_back_to_defaults() {
    let report = settings_report("list.json", ConfigSource::Parsed { value: JsonValue::Array(vec![]), decoded: Err("x".to_string()) });
    assert_eq!(report.diagnostics.len(), 1);
    assert_eq!(report.diagnostics[0].kind, ConfigDiagnosticKind::InvalidConfig);
    assert_eq!(report.diagnostics[0].message, "Config file 'list.json' must contain a JSON object. Using default settings.");

    let value = obj(vec![("port", JsonValue::String("x".to_string()))]);
    let report = settings_report("bad.json", ConfigSource::Parsed { value, decoded: Err("invalid type".to_string()) });
    assert_eq!(report.diagnostics.len(), 2);
    assert_eq!(report.diagnostics[0].kind, ConfigDiagnosticKind::PartialFallback);
    assert_eq!(report.diagnostics[1].kind, ConfigDiagnosticKind::InvalidConfig);
    assert_eq!(report.diagnostics[1].message, "Config file 'bad.json' has invalid values: invalid type. Using default settings.");
    assert_eq!(report.settings.port, 8765);
}

#[test]
fn read_error_and_missing_everywhere() {
    let report = settings_report("c.json", ConfigSource::ReadError("permission denied".to_string()));
    assert_eq!(report.diagnostics[0].kind, ConfigDiagnosticKind::ConfigReadError);
    assert_eq!(report.diagnostics[0].message, "Failed to read config file 'c.json': permission denied. Using default settings.");

    let report = missing_config_report();
    assert_eq!(report.diagnostics[0].kind, ConfigDiagnosticKind::MissingConfigFile);
    assert_eq!(
        report.diagnostics[0].message,
        "Config file was not found. Checked paths: S1MCPClientRust/config.json, config.json. Using default settings."
    );
}

#[test]
fn settings_report_from_text_reads_the_file_text() {
    let report = settings_report_from_text("cfg.json", "{ not json", Err("unused".to_string()));
    assert_eq!(report.diagnostics.len(), 1);
    assert_eq!(report.diagnostics[0].kind, ConfigDiagnosticKind::InvalidConfig);
    assert!(report.diagnostics[0].message.starts_with("Config file 'cfg.json' is invalid JSON: "));
    assert!(report.diagnostics[0].message.ends_with(". Using default settings."));
    assert_eq!(report.settings.port, 8765);

    let mut decoded = Settings::default();
    decoded.port = 9000;
    let report = settings_report_from_text("cfg.json", "{\"port\": 9000}", Ok(decoded));
    assert_eq!(report.settings.port, 9000);
    assert_eq!(report.diagnostics.len(), 1);
    assert_eq!(report.diagnostics[0].kind, ConfigDiagnosticKind::PartialFallback);
    assert!(report.diagnostics[0].message.starts_with("Config file 'cfg.json' is missing keys [host, log_level"));

    let report = settings_report_from_text("cfg.json", "[1, 2]", Ok(Settings::default()));
    assert_eq!(report.diagnostics[0].message, "Config file 'cfg.json' must contain a JSON object. Using default settings.");
}
