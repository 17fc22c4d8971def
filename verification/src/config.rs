//! Client settings: their defaults, and the report that loading a config file gives.

use vstd::prelude::*;
use crate::json::{obj_get, object_get, parse_json_text, parsed_json, JsonValue};
use crate::text::{join, join_strings, push_str, string_from_chars};

verus! {

/// What kind of problem loading the config file met.
#[derive(Debug, Clone, Copy, PartialEq, Eq, Structural)]
pub enum ConfigDiagnosticKind {
    MissingConfigFile,
    ConfigReadError,
    InvalidConfig,
    PartialFallback,
}

/// One problem met while loading the config file, with a message for the log.
#[derive(Debug, Clone, PartialEq, Eq)]
pub struct ConfigDiagnostic {
    pub kind: ConfigDiagnosticKind,
    pub message: String,
}

/// The settings in force and the problems met while loading them.
#[derive(Debug, Clone)]
pub struct SettingsLoadReport {
    pub settings: Settings,
    pub diagnostics: Vec<ConfigDiagnostic>,
}

/// Client settings: where the game mod listens, logging, timeouts and game paths.
#[derive(Debug, Clone)]
pub struct Settings {
    pub host: String,
    pub port: u16,
    pub log_level: String,
    pub connection_timeout: u64,
    pub reconnect_delay: u64,
    pub game_il2cpp_path: String,
    pub game_mono_path: String,
    pub game_executable: String,
    pub game_startup_timeout: u64,
    pub game_connection_poll_interval: u64,
}

/// Whether `s` holds the default settings: the mod at 127.0.0.1:8765, `info`
/// logging, 10 s connection timeout, 3 s reconnect delay, no game paths, 120 s
/// startup timeout and 2 s poll interval.
pub open spec fn is_default_settings(s: Settings) -> bool {
    &&& s.host@ == "127.0.0.1"@
    &&& s.port == 8765
    &&& s.log_level@ == "info"@
    &&& s.connection_timeout == 10
    &&& s.reconnect_delay == 3
    &&& s.game_il2cpp_path@.len() == 0
    &&& s.game_mono_path@.len() == 0
    &&& s.game_executable@.len() == 0
    &&& s.game_startup_timeout == 120
    &&& s.game_connection_poll_interval == 2
}

impl Default for Settings {
    fn default() -> (s: Self)
        ensures
            is_default_settings(s),
    {
        Settings {
            host: String::from_str("127.0.0.1"),
            port: 8765,
            log_level: String::from_str("info"),
            connection_timeout: 10,
            reconnect_delay: 3,
            game_il2cpp_path: String::new(),
            game_mono_path: String::new(),
            game_executable: String::new(),
            game_startup_timeout: 120,
            game_connection_poll_interval: 2,
        }
    }
}

/// The places searched for a config file, in order.
pub open spec fn config_paths() -> Seq<Seq<char>> {
    seq!["S1MCPClientRust/config.json"@, "config.json"@]
}

/// The keys that a complete config file holds.
pub open spec fn settings_keys() -> Seq<Seq<char>> {
    seq!["host"@, "port"@, "log_level"@, "connection_timeout"@, "reconnect_delay"@, "game_il2cpp_path"@,
        "game_mono_path"@, "game_executable"@, "game_startup_timeout"@, "game_connection_poll_interval"@]
}

fn settings_key_list() -> (r: Vec<String>)
    ensures
        r@.map_values(|k: String| k@) == settings_keys(),
{
    let mut r: Vec<String> = Vec::new();
    r.push(String::from_str("host"));
    r.push(String::from_str("port"));
    r.push(String::from_str("log_level"));
    r.push(String::from_str("connection_timeout"));
    r.push(String::from_str("reconnect_delay"));
    r.push(String::from_str("game_il2cpp_path"));
    r.push(String::from_str("game_mono_path"));
    r.push(String::from_str("game_executable"));
    r.push(String::from_str("game_startup_timeout"));
    r.push(String::from_str("game_connection_poll_interval"));
    assert(r@.map_values(|k: String| k@) =~= settings_keys());
    r
}

/// The keys of `keys` that `entries` does not hold, in order.
pub open spec fn missing_keys(keys: Seq<Seq<char>>, entries: Seq<(String, JsonValue)>) -> Seq<Seq<char>>
    decreases keys.len(),
{
    if keys.len() == 0 {
        Seq::empty()
    } else {
        let rest = missing_keys(keys.drop_last(), entries);
        if obj_get(entries, keys.last()) is None { rest.push(keys.last()) } else { rest }
    }
}

/// How reading and parsing the config file went.
#[derive(Debug)]
pub enum ConfigSource {
    /// The file does not exist.
    NotFound,
    /// The file exists but could not be read; the reader's error text.
    ReadError(String),
    /// The file is not JSON; the parser's error text.
    InvalidJson(String),
    /// The file parsed to `value`; `decoded` is what decoding it into settings
    /// gave (missing keys take their defaults), or the decoder's error text.
    Parsed { value: JsonValue, decoded: Result<Settings, String> },
}

/// The message for a config file that is missing.
pub open spec fn missing_file_message(path: Seq<char>) -> Seq<char> {
    "Config file '"@ + path + "' was not found. Using default settings."@
}

/// The message for a config file that could not be read.
pub open spec fn read_error_message(path: Seq<char>, error: Seq<char>) -> Seq<char> {
    "Failed to read config file '"@ + path + "': "@ + error + ". Using default settings."@
}

/// The message for a config file that is not JSON.
pub open spec fn invalid_json_message(path: Seq<char>, error: Seq<char>) -> Seq<char> {
    "Config file '"@ + path + "' is invalid JSON: "@ + error + ". Using default settings."@
}

/// The message for a config file whose JSON is not an object.
pub open spec fn not_object_message(path: Seq<char>) -> Seq<char> {
    "Config file '"@ + path + "' must contain a JSON object. Using default settings."@
}

/// The message for a config file that lacks some keys.
pub open spec fn partial_message(path: Seq<char>, missing: Seq<Seq<char>>) -> Seq<char> {
    "Config file '"@ + path + "' is missing keys ["@ + join(missing, ", "@)
        + "]. Defaults were applied for missing values."@
}

/// The message for a config file whose values do not decode.
pub open spec fn invalid_values_message(path: Seq<char>, error: Seq<char>) -> Seq<char> {
    "Config file '"@ + path + "' has invalid values: "@ + error + ". Using default settings."@
}

/// Whether `d` is a diagnostic of kind `kind` with message `message`.
pub open spec fn diag_is(d: ConfigDiagnostic, kind: ConfigDiagnosticKind, message: Seq<char>) -> bool {
    d.kind == kind && d.message@ == message
}

fn diagnostic(kind: ConfigDiagnosticKind, message: Vec<char>) -> (d: ConfigDiagnostic)
    ensures
        diag_is(d, kind, message@),
{
    ConfigDiagnostic { kind, message: string_from_chars(&message) }
}

fn one_diagnostic_report(kind: ConfigDiagnosticKind, message: Vec<char>) -> (r: SettingsLoadReport)
    ensures
        is_default_settings(r.settings),
        r.diagnostics@.len() == 1,
        diag_is(r.diagnostics@[0], kind, message@),
{
    let mut diagnostics: Vec<ConfigDiagnostic> = Vec::new();
    diagnostics.push(diagnostic(kind, message));
    SettingsLoadReport { settings: Settings::default(), diagnostics }
}

/// The report when no config file was found at any of the searched places.
pub fn missing_config_report() -> (r: SettingsLoadReport)
    ensures
        is_default_settings(r.settings),
        r.diagnostics@.len() == 1,
        diag_is(r.diagnostics@[0], ConfigDiagnosticKind::MissingConfigFile,
            "Config file was not found. Checked paths: "@ + join(config_paths(), ", "@) + ". Using default settings."@),
{
    let mut paths: Vec<String> = Vec::new();
    paths.push(String::from_str("S1MCPClientRust/config.json"));
    paths.push(String::from_str("config.json"));
    assert(paths@.map_values(|p: String| p@) =~= config_paths());
    let joined = join_strings(&paths, ", ");
    let mut m: Vec<char> = Vec::new();
    push_str(&mut m, "Config file was not found. Checked paths: ");
    push_str(&mut m, joined.as_str());
    push_str(&mut m, ". Using default settings.");
    one_diagnostic_report(ConfigDiagnosticKind::MissingConfigFile, m)
}

/// What loading a config file at `path` reports, given how reading and parsing
/// it went: defaults and a diagnostic for a file that is missing, unreadable, not
/// JSON, not an object or holds values that do not decode; the decoded settings
/// otherwise, with a `PartialFallback` diagnostic naming the keys it lacks.
pub open spec fn settings_report_spec(path: Seq<char>, source: ConfigSource, r: SettingsLoadReport) -> bool {
    match source {
        ConfigSource::NotFound => is_default_settings(r.settings) && r.diagnostics@.len() == 1
            && diag_is(r.diagnostics@[0], ConfigDiagnosticKind::MissingConfigFile, missing_file_message(path)),
        ConfigSource::ReadError(e) => is_default_settings(r.settings) && r.diagnostics@.len() == 1
            && diag_is(r.diagnostics@[0], ConfigDiagnosticKind::ConfigReadError, read_error_message(path, e@)),
        ConfigSource::InvalidJson(e) => is_default_settings(r.settings) && r.diagnostics@.len() == 1
            && diag_is(r.diagnostics@[0], ConfigDiagnosticKind::InvalidConfig, invalid_json_message(path, e@)),
        ConfigSource::Parsed { value, decoded } => match value {
            JsonValue::Object(entries) => {
                let missing = missing_keys(settings_keys(), entries@);
                let partial = if missing.len() > 0 {
                    seq![partial_message(path, missing)]
                } else {
                    Seq::<Seq<char>>::empty()
                };
                match decoded {
                    Ok(s) => r.settings == s && r.diagnostics@.len() == partial.len()
                        && (partial.len() == 1 ==> diag_is(r.diagnostics@[0], ConfigDiagnosticKind::PartialFallback, partial[0])),
                    Err(e) => is_default_settings(r.settings) && r.diagnostics@.len() == partial.len() + 1
                        && (partial.len() == 1 ==> diag_is(r.diagnostics@[0], ConfigDiagnosticKind::PartialFallback, partial[0]))
                        && diag_is(r.diagnostics@[partial.len() as int], ConfigDiagnosticKind::InvalidConfig,
                            invalid_values_message(path, e@)),
                }
            },
            _ => is_default_settings(r.settings) && r.diagnostics@.len() == 1
                && diag_is(r.diagnostics@[0], ConfigDiagnosticKind::InvalidConfig, not_object_message(path)),
        },
    }
}

fn missing_key_list(entries: &Vec<(String, JsonValue)>) -> (r: Vec<String>)
    ensures
        r@.map_values(|k: String| k@) == missing_keys(settings_keys(), entries@),
{
    let keys = settings_key_list();
    let ghost kv = keys@.map_values(|k: String| k@);
    let mut r: Vec<String> = Vec::new();
    let mut i: usize = 0;
    while i < keys.len()
        invariant
            i <= keys.len(),
            kv == keys@.map_values(|k: String| k@),
            kv == settings_keys(),
            r@.map_values(|k: String| k@) == missing_keys(kv.subrange(0, i as int), entries@),
        decreases keys.len() - i,
    {
        let ghost prev = r@;
        assert(kv.subrange(0, i + 1).drop_last() =~= kv.subrange(0, i as int));
        assert(kv.subrange(0, i + 1).last() == keys@[i as int]@);
        match object_get(entries, keys[i].as_str()) {
            None => {
                r.push(String::from_str(keys[i].as_str()));
                assert(r@.map_values(|k: String| k@) =~= prev.map_values(|k: String| k@).push(keys@[i as int]@));
            },
            Some(_) => {},
        }
        i += 1;
    }
    assert(kv.subrange(0, keys.len() as int) =~= kv);
    r
}

/// Builds the report for loading the config file at `path` (see `settings_report_spec`).
pub fn settings_report(path: &str, source: ConfigSource) -> (r: SettingsLoadReport)
    ensures
        settings_report_spec(path@, source, r),
{
    let mut m: Vec<char> = Vec::new();
    match source {
        ConfigSource::NotFound => {
            push_str(&mut m, "Config file '");
            push_str(&mut m, path);
            push_str(&mut m, "' was not found. Using default settings.");
            assert(m@ =~= missing_file_message(path@));
            one_diagnostic_report(ConfigDiagnosticKind::MissingConfigFile, m)
        },
        ConfigSource::ReadError(e) => {
            push_str(&mut m, "Failed to read config file '");
            push_str(&mut m, path);
            push_str(&mut m, "': ");
            push_str(&mut m, e.as_str());
            push_str(&mut m, ". Using default settings.");
            assert(m@ =~= read_error_message(path@, e@));
            one_diagnostic_report(ConfigDiagnosticKind::ConfigReadError, m)
        },
        ConfigSource::InvalidJson(e) => {
            push_str(&mut m, "Config file '");
            push_str(&mut m, path);
            push_str(&mut m, "' is invalid JSON: ");
            push_str(&mut m, e.as_str());
            push_str(&mut m, ". Using default settings.");
            assert(m@ =~= invalid_json_message(path@, e@));
            one_diagnostic_report(ConfigDiagnosticKind::InvalidConfig, m)
        },
        ConfigSource::Parsed { value, decoded } => {
            let entries = match &value {
                JsonValue::Object(entries) => entries,
                _ => {
                    push_str(&mut m, "Config file '");
                    push_str(&mut m, path);
                    push_str(&mut m, "' must contain a JSON object. Using default settings.");
                    assert(m@ =~= not_object_message(path@));
                    return one_diagnostic_report(ConfigDiagnosticKind::InvalidConfig, m);
                },
            };
            let missing = missing_key_list(entries);
            let mut diagnostics: Vec<ConfigDiagnostic> = Vec::new();
            if missing.len() > 0 {
                let joined = join_strings(&missing, ", ");
                push_str(&mut m, "Config file '");
                push_str(&mut m, path);
                push_str(&mut m, "' is missing keys [");
                push_str(&mut m, joined.as_str());
                push_str(&mut m, "]. Defaults were applied for missing values.");
                assert(m@ =~= partial_message(path@, missing_keys(settings_keys(), entries@)));
                diagnostics.push(diagnostic(ConfigDiagnosticKind::PartialFallback, m));
            }
            match decoded {
                Ok(settings) => SettingsLoadReport { settings, diagnostics },
                Err(e) => {
                    let mut m2: Vec<char> = Vec::new();
                    push_str(&mut m2, "Config file '");
                    push_str(&mut m2, path);
                    push_str(&mut m2, "' has invalid values: ");
                    push_str(&mut m2, e.as_str());
                    push_str(&mut m2, ". Using default settings.");
                    assert(m2@ =~= invalid_values_message(path@, e@));
                    diagnostics.push(diagnostic(ConfigDiagnosticKind::InvalidConfig, m2));
                    SettingsLoadReport { settings: Settings::default(), diagnostics }
                },
            }
        },
    }
}

/// A config object that holds every settings key lacks none of them, so loading
/// it reports no partial fallback.
pub proof fn lemma_complete_config_misses_nothing(keys: Seq<Seq<char>>, entries: Seq<(String, JsonValue)>)
    requires
        forall|i: int| 0 <= i < keys.len() ==> obj_get(entries, #[trigger] keys[i]) is Some,
    ensures
        missing_keys(keys, entries).len() == 0,
    decreases keys.len(),
{
    if keys.len() > 0 {
        assert(obj_get(entries, keys[keys.len() - 1]) is Some);
        lemma_complete_config_misses_nothing(keys.drop_last(), entries);
    }
}

/// Builds the report for the config file at `path` from its text: the text is
/// read as JSON (see `parsed_json`); text that is not JSON is reported as such,
/// and a parsed value is reported on with `decoded`, what decoding the same text
/// into settings gave (see `settings_report_spec`).
pub fn settings_report_from_text(path: &str, contents: &str, decoded: Result<Settings, String>) -> (r: SettingsLoadReport)
    ensures
        match parsed_json(contents@) {
            Err(e) => is_default_settings(r.settings) && r.diagnostics@.len() == 1
                && diag_is(r.diagnostics@[0], ConfigDiagnosticKind::InvalidConfig, invalid_json_message(path@, e)),
            Ok(v) => settings_report_spec(path@, ConfigSource::Parsed { value: v, decoded }, r),
        },
{
    match parse_json_text(contents) {
        Err(e) => settings_report(path, ConfigSource::InvalidJson(e)),
        Ok(v) => settings_report(path, ConfigSource::Parsed { value: v, decoded }),
    }
}

/// Every key that a config object lacks is reported as missing, and only those.
pub proof fn lemma_missing_keys_are_absent(keys: Seq<Seq<char>>, entries: Seq<(String, JsonValue)>, k: Seq<char>)
    ensures
        missing_keys(keys, entries).contains(k) <==> (keys.contains(k) && obj_get(entries, k) is None),
    decreases keys.len(),
{
    if keys.len() > 0 {
        lemma_missing_keys_are_absent(keys.drop_last(), entries, k);
        let rest = missing_keys(keys.drop_last(), entries);
        if keys.contains(k) {
            let i = choose|i: int| 0 <= i < keys.len() && keys[i] == k;
            if i < keys.len() - 1 {
                assert(keys.drop_last()[i] == k);
            }
        }
        if keys.drop_last().contains(k) {
            let i = choose|i: int| 0 <= i < keys.drop_last().len() && keys.drop_last()[i] == k;
            assert(keys[i] == k);
        }
        if obj_get(entries, keys.last()) is None {
            if rest.push(keys.last()).contains(k) {
                let i = choose|i: int| 0 <= i < rest.push(keys.last()).len() && rest.push(keys.last())[i] == k;
                if i < rest.len() {
                    assert(rest[i] == k);
                }
            }
            if rest.contains(k) {
                let i = choose|i: int| 0 <= i < rest.len() && rest[i] == k;
                assert(rest.push(keys.last())[i] == k);
            }
            if k == keys.last() {
                assert(rest.push(keys.last())[rest.len() as int] == k);
            }
        }
    } else {
        assert(!keys.contains(k));
    }
}

} // verus!
