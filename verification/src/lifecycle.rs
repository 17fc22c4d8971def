//! Game lifecycle decisions: which build to launch, the commands that launch,
//! find and describe the game process, and the texts that report on them.

use vstd::prelude::*;
use crate::config::Settings;
use crate::models::Response;
use crate::tcp::TcpClientError;
use crate::json::{obj_get, object_get, parse_json_text, parsed_json, value_get, JsonNumber, JsonValue};
use crate::text::{decimal, push_chars, push_decimal, push_str, str_equal, string_from_chars, trim_chars, trimmed};

verus! {

/// The two builds of the game.
#[derive(Debug, Clone, Copy, PartialEq, Eq, Structural)]
pub enum GameVersion {
    Il2cpp,
    Mono,
}

/// What `str::to_lowercase` returns for `s` (Unicode lowercase mapping).
pub uninterp spec fn lowercase(s: Seq<char>) -> Seq<char>;

/// Whether every character of `s` is ASCII.
pub open spec fn is_ascii_text(s: Seq<char>) -> bool {
    forall|i: int| 0 <= i < s.len() ==> (s[i] as u32) < 128
}

/// `c` with an ASCII capital letter made small; any other character unchanged.
pub open spec fn ascii_lower_char(c: char) -> char {
    if 'A' <= c && c <= 'Z' { ((c as u32) + 32) as char } else { c }
}

/// `s` with its ASCII capital letters made small.
pub open spec fn ascii_lowered(s: Seq<char>) -> Seq<char> {
    s.map_values(|c: char| ascii_lower_char(c))
}

/// The lowercase form of `s` (`str::to_lowercase`). Its full Unicode mapping is
/// left to the name `lowercase`; of ASCII text, whose Unicode lowercase is its
/// ASCII lowercase, the result is stated.
#[verifier::external_body]
fn to_lowercase_string(s: &str) -> (r: String)
    ensures
        r@ == lowercase(s@),
        is_ascii_text(s@) ==> r@ == ascii_lowered(s@),
{
    s.to_lowercase()
}

/// The error for a version name that is neither build.
pub open spec fn invalid_version_text(input: Seq<char>) -> Seq<char> {
    "Error: Invalid version '"@ + input + "'. Must be 'il2cpp' or 'mono'."@
}

/// The version that `input`, already lowercased to `lowered`, names.
pub open spec fn version_from_lowered(input: Seq<char>, lowered: Seq<char>) -> Result<GameVersion, Seq<char>> {
    if lowered == "il2cpp"@ {
        Ok(GameVersion::Il2cpp)
    } else if lowered == "mono"@ {
        Ok(GameVersion::Mono)
    } else {
        Err(invalid_version_text(input))
    }
}

/// Whether `r` is the result that `spec` states.
pub open spec fn version_result_is(r: Result<GameVersion, String>, spec: Result<GameVersion, Seq<char>>) -> bool {
    match (r, spec) {
        (Ok(v), Ok(w)) => v == w,
        (Err(m), Err(t)) => m@ == t,
        _ => false,
    }
}

/// The texts a version name is shown and configured with.
pub open spec fn display_text(v: GameVersion) -> Seq<char> {
    match v {
        GameVersion::Il2cpp => "IL2CPP"@,
        GameVersion::Mono => "MONO"@,
    }
}

/// The name of a version in config keys.
pub open spec fn config_name(v: GameVersion) -> Seq<char> {
    match v {
        GameVersion::Il2cpp => "il2cpp"@,
        GameVersion::Mono => "mono"@,
    }
}

impl GameVersion {
    /// Reads a version name, ignoring case.
    pub fn parse(input: &str) -> (r: Result<GameVersion, String>)
        ensures
            version_result_is(r, version_from_lowered(input@, lowercase(input@))),
            is_ascii_text(input@) ==> version_result_is(r, version_from_lowered(input@, ascii_lowered(input@))),
    {
        let lowered = to_lowercase_string(input);
        GameVersion::parse_lowercased(input, lowered.as_str())
    }

    /// Reads a version name given its lowercase form: `il2cpp` or `mono`, else an
    /// error that quotes the name as given.
    pub fn parse_lowercased(input: &str, lowered: &str) -> (r: Result<GameVersion, String>)
        ensures
            version_result_is(r, version_from_lowered(input@, lowered@)),
    {
        if str_equal(lowered, "il2cpp") {
            Ok(GameVersion::Il2cpp)
        } else if str_equal(lowered, "mono") {
            Ok(GameVersion::Mono)
        } else {
            let mut m: Vec<char> = Vec::new();
            push_str(&mut m, "Error: Invalid version '");
            push_str(&mut m, input);
            push_str(&mut m, "'. Must be 'il2cpp' or 'mono'.");
            assert(m@ =~= invalid_version_text(input@));
            Err(string_from_chars(&m))
        }
    }

    /// The version's name for display: `IL2CPP` or `MONO`.
    pub fn as_display(self) -> (r: &'static str)
        ensures
            r@ == display_text(self),
    {
        match self {
            GameVersion::Il2cpp => "IL2CPP",
            GameVersion::Mono => "MONO",
        }
    }
}

/// Reading a version ignores the case of ASCII letters: two names that differ
/// only in the case of ASCII letters name the same version, or are both refused.
pub proof fn lemma_parse_ignores_ascii_case(a: Seq<char>, b: Seq<char>)
    requires
        ascii_lowered(a) == ascii_lowered(b),
    ensures
        (version_from_lowered(a, ascii_lowered(a)) is Ok) == (version_from_lowered(b, ascii_lowered(b)) is Ok),
        version_from_lowered(a, ascii_lowered(a)) matches Ok(v)
            ==> version_from_lowered(b, ascii_lowered(b)) == Ok::<GameVersion, Seq<char>>(v),
{
}

/// How to launch the game.
#[derive(Debug, Clone, Copy)]
pub struct LaunchGameOptions {
    pub version: GameVersion,
    pub enable_debugger: bool,
    pub wait_for_connection: bool,
}

/// The error when no install path is configured for a version.
pub open spec fn no_path_text(v: GameVersion) -> Seq<char> {
    "Error: No game path configured for "@ + display_text(v) + " version.\nPlease set 'game_"@ + config_name(v)
        + "_path' in your config.json file.\nExample: game_config.json.example"@
}

/// The error when no game executable is configured.
pub open spec fn no_executable_text() -> Seq<char> {
    "Error: game_executable is not configured. Please set it in S1MCPClientRust/config.json."@
}

/// The install path configured for a version (before trimming).
pub open spec fn configured_path(v: GameVersion, settings: Settings) -> Seq<char> {
    match v {
        GameVersion::Il2cpp => settings.game_il2cpp_path@,
        GameVersion::Mono => settings.game_mono_path@,
    }
}

/// The install directory of `version`: its configured path, trimmed. Fails when
/// that path or the executable name is blank.
pub fn resolve_game_path(version: GameVersion, settings: &Settings) -> (r: Result<String, String>)
    ensures
        trimmed(configured_path(version, *settings)).len() == 0 ==> (r matches Err(m) && m@ == no_path_text(version)),
        trimmed(configured_path(version, *settings)).len() > 0 && trimmed(settings.game_executable@).len() == 0
            ==> (r matches Err(m) && m@ == no_executable_text()),
        trimmed(configured_path(version, *settings)).len() > 0 && trimmed(settings.game_executable@).len() > 0
            ==> (r matches Ok(p) && p@ == trimmed(configured_path(version, *settings))),
{
    let raw = match version {
        GameVersion::Il2cpp => trim_chars(settings.game_il2cpp_path.as_str()),
        GameVersion::Mono => trim_chars(settings.game_mono_path.as_str()),
    };
    if raw.len() == 0 {
        let mut m: Vec<char> = Vec::new();
        push_str(&mut m, "Error: No game path configured for ");
        push_str(&mut m, version.as_display());
        push_str(&mut m, " version.\nPlease set 'game_");
        match version {
            GameVersion::Il2cpp => push_str(&mut m, "il2cpp"),
            GameVersion::Mono => push_str(&mut m, "mono"),
        }
        push_str(&mut m, "_path' in your config.json file.\nExample: game_config.json.example");
        assert(m@ =~= no_path_text(version));
        return Err(string_from_chars(&m));
    }
    let exe = trim_chars(settings.game_executable.as_str());
    if exe.len() == 0 {
        return Err(String::from_str("Error: game_executable is not configured. Please set it in S1MCPClientRust/config.json."));
    }
    Ok(string_from_chars(&raw))
}

/// The build an install looks like: none when the directory does not exist,
/// IL2CPP when it holds `MelonLoader/Il2CppAssemblies`, Mono otherwise.
pub fn detect_game_version(path_exists: bool, il2cpp_marker_is_dir: bool) -> (r: Option<GameVersion>)
    ensures
        r == (if !path_exists { None } else if il2cpp_marker_is_dir { Some(GameVersion::Il2cpp) } else { Some(GameVersion::Mono) }),
{
    if !path_exists {
        None
    } else if il2cpp_marker_is_dir {
        Some(GameVersion::Il2cpp)
    } else {
        Some(GameVersion::Mono)
    }
}

/// `s` with each single quote doubled, for a single-quoted PowerShell string.
pub open spec fn ps_escape(s: Seq<char>) -> Seq<char>
    decreases s.len(),
{
    if s.len() == 0 {
        Seq::empty()
    } else {
        ps_escape(s.drop_last()) + (if s.last() == '\'' { seq!['\'', '\''] } else { seq![s.last()] })
    }
}

fn push_ps_escaped(out: &mut Vec<char>, input: &str)
    ensures
        final(out)@ == old(out)@ + ps_escape(input@),
{
    let cs = crate::text::chars_of(input);
    let mut i: usize = 0;
    while i < cs.len()
        invariant
            cs@ == input@,
            i <= cs.len(),
            out@ == old(out)@ + ps_escape(input@.subrange(0, i as int)),
        decreases cs.len() - i,
    {
        let c = cs[i];
        out.push(c);
        if c == '\'' {
            out.push('\'');
        }
        proof {
            let s1 = input@.subrange(0, i + 1);
            assert(s1.drop_last() =~= input@.subrange(0, i as int));
            assert(s1.last() == c);
        }
        assert(out@ =~= old(out)@ + ps_escape(input@.subrange(0, i + 1)));
        i += 1;
    }
    assert(input@.subrange(0, cs.len() as int) =~= input@);
}

/// Doubles single quotes so that `input` can stand inside a single-quoted PowerShell string.
pub fn escape_for_single_quoted_powershell(input: &str) -> (r: String)
    ensures
        r@ == ps_escape(input@),
{
    let mut m: Vec<char> = Vec::new();
    push_ps_escaped(&mut m, input);
    assert(m@ =~= ps_escape(input@));
    string_from_chars(&m)
}

/// The PowerShell command that starts the game, with the MelonLoader debugger
/// flags when asked.
pub open spec fn launch_command_text(exe: Seq<char>, enable_debugger: bool) -> Seq<char> {
    "Start-Process -FilePath '"@ + ps_escape(exe) + (if enable_debugger {
        "' -ArgumentList '--melonloader.launchdebugger','--melonloader.debug'"@
    } else {
        "'"@
    })
}

/// Builds the PowerShell command that starts the game executable.
pub fn launch_command(game_executable_path: &str, enable_debugger: bool) -> (r: String)
    ensures
        r@ == launch_command_text(game_executable_path@, enable_debugger),
{
    let mut m: Vec<char> = Vec::new();
    push_str(&mut m, "Start-Process -FilePath '");
    push_ps_escaped(&mut m, game_executable_path);
    if enable_debugger {
        push_str(&mut m, "' -ArgumentList '--melonloader.launchdebugger','--melonloader.debug'");
    } else {
        push_str(&mut m, "'");
    }
    assert(m@ =~= launch_command_text(game_executable_path@, enable_debugger));
    string_from_chars(&m)
}

/// `s` without a trailing `.exe`.
pub open spec fn strip_exe(s: Seq<char>) -> Seq<char> {
    if s.len() >= 4 && s.subrange(s.len() - 4, s.len() as int) == ".exe"@ {
        s.subrange(0, s.len() - 4)
    } else {
        s
    }
}

/// The process name PowerShell knows the game by: the executable name, trimmed,
/// without a trailing `.exe`.
pub fn process_name_for_powershell(game_executable: &str) -> (r: String)
    ensures
        r@ == strip_exe(trimmed(game_executable@)),
{
    let t = trim_chars(game_executable);
    let n = t.len();
    let mut end = n;
    if n >= 4 && t[n - 4] == '.' && t[n - 3] == 'e' && t[n - 2] == 'x' && t[n - 1] == 'e' {
        proof {
            reveal_strlit(".exe");
            assert(t@.subrange(n - 4, n as int) =~= ".exe"@);
        }
        end = n - 4;
    } else {
        proof {
            reveal_strlit(".exe");
            if n >= 4 {
                assert(t@.subrange(n - 4, n as int)[0] == t@[n - 4]);
                assert(t@.subrange(n - 4, n as int)[1] == t@[n - 3]);
                assert(t@.subrange(n - 4, n as int)[2] == t@[n - 2]);
                assert(t@.subrange(n - 4, n as int)[3] == t@[n - 1]);
            }
        }
    }
    let mut m: Vec<char> = Vec::new();
    let mut i: usize = 0;
    while i < end
        invariant
            end <= n,
            n == t@.len(),
            i <= end,
            m@ == t@.subrange(0, i as int),
        decreases end - i,
    {
        m.push(t[i]);
        i += 1;
    }
    assert(m@ == strip_exe(t@)) by {
        if end == n {
            assert(t@.subrange(0, n as int) =~= t@);
        }
    }
    string_from_chars(&m)
}

/// The PowerShell command that lists the game's processes as JSON.
pub open spec fn process_info_command_text(game_executable: Seq<char>) -> Seq<char> {
    "Get-Process -Name \""@ + strip_exe(trimmed(game_executable))
        + "\" -ErrorAction SilentlyContinue | Select-Object Id, CPU, WorkingSet, StartTime | ConvertTo-Json"@
}

/// Builds the PowerShell command that lists the game's processes as JSON.
pub fn process_info_command(game_executable: &str) -> (r: String)
    ensures
        r@ == process_info_command_text(game_executable@),
{
    let name = process_name_for_powershell(game_executable);
    let mut m: Vec<char> = Vec::new();
    push_str(&mut m, "Get-Process -Name \"");
    push_str(&mut m, name.as_str());
    push_str(&mut m, "\" -ErrorAction SilentlyContinue | Select-Object Id, CPU, WorkingSet, StartTime | ConvertTo-Json");
    assert(m@ =~= process_info_command_text(game_executable@));
    string_from_chars(&m)
}

/// The image name the task list is searched for: the configured executable,
/// trimmed, or `Schedule I.exe` when none is configured.
pub open spec fn tasklist_image(game_executable: Seq<char>) -> Seq<char> {
    if trimmed(game_executable).len() == 0 { "Schedule I.exe"@ } else { trimmed(game_executable) }
}

/// The image name the task list is searched for (see `tasklist_image`).
pub fn tasklist_executable(game_executable: &str) -> (r: String)
    ensures
        r@ == tasklist_image(game_executable@),
{
    let t = trim_chars(game_executable);
    if t.len() == 0 {
        String::from_str("Schedule I.exe")
    } else {
        string_from_chars(&t)
    }
}

/// The task-list filter that selects the game's processes.
pub fn tasklist_filter(executable: &str) -> (r: String)
    ensures
        r@ == "IMAGENAME eq "@ + executable@,
{
    let mut m: Vec<char> = Vec::new();
    push_str(&mut m, "IMAGENAME eq ");
    push_str(&mut m, executable);
    string_from_chars(&m)
}

/// Whether `needle` occurs in `hay` at position `i`.
pub open spec fn occurs_at(hay: Seq<char>, needle: Seq<char>, i: int) -> bool {
    0 <= i && i + needle.len() <= hay.len() && hay.subrange(i, i + needle.len()) == needle
}

/// Whether `needle` occurs anywhere in `hay`.
pub open spec fn contains_text(hay: Seq<char>, needle: Seq<char>) -> bool {
    exists|i: int| occurs_at(hay, needle, i)
}

fn occurs_at_index(h: &Vec<char>, n: &Vec<char>, i: usize) -> (r: bool)
    requires
        i + n@.len() <= h@.len(),
    ensures
        r == occurs_at(h@, n@, i as int),
{
    let hl = h.len();
    let mut j: usize = 0;
    while j < n.len()
        invariant
            hl == h@.len(),
            i + n@.len() <= h@.len(),
            j <= n@.len(),
            forall|k: int| 0 <= k < j ==> h@[i + k] == n@[k],
        decreases n.len() - j,
    {
        if h[i + j] != n[j] {
            assert(h@.subrange(i as int, i + n@.len())[j as int] != n@[j as int]);
            return false;
        }
        j += 1;
    }
    assert(h@.subrange(i as int, i + n@.len()) =~= n@);
    true
}

/// Whether the task-list output names the game executable, i.e. the game runs.
pub fn tasklist_shows_running(stdout: &str, executable: &str) -> (r: bool)
    ensures
        r == contains_text(stdout@, executable@),
{
    let h = crate::text::chars_of(stdout);
    let n = crate::text::chars_of(executable);
    if n.len() > h.len() {
        assert forall|i: int| !occurs_at(stdout@, executable@, i) by {}
        return false;
    }
    let last = h.len() - n.len();
    let mut i: usize = 0;
    while i <= last
        invariant
            h@ == stdout@,
            n@ == executable@,
            n@.len() <= h@.len(),
            last == h@.len() - n@.len(),
            i <= last + 1,
            forall|k: int| 0 <= k < i ==> !occurs_at(stdout@, executable@, k),
        decreases last + 1 - i,
    {
        if occurs_at_index(&h, &n, i) {
            return true;
        }
        if i == last {
            assert forall|k: int| !occurs_at(stdout@, executable@, k) by {
                if k > i {
                    assert(k + executable@.len() > stdout@.len());
                }
            }
            return false;
        }
        i += 1;
    }
    assert forall|k: int| !occurs_at(stdout@, executable@, k) by {
        if k >= i {
            assert(k + executable@.len() > stdout@.len());
        }
    }
    false
}

/// How polling for the mod's server after a launch ended. The elapsed time is
/// the text it is shown with (seconds, rounded to hundredths).
#[derive(Debug)]
pub struct ConnectionSummary {
    pub connected: bool,
    pub attempts: u32,
    pub elapsed_text: String,
    pub server_info: Option<JsonValue>,
    pub error: Option<String>,
}

/// The string held in `v`, or `default` when `v` is not a string.
pub open spec fn string_or(v: Option<JsonValue>, default: Seq<char>) -> Seq<char> {
    match v {
        Some(JsonValue::String(s)) => s@,
        _ => default,
    }
}

/// The part of the launch report that tells how connecting went.
pub open spec fn connection_text(c: ConnectionSummary) -> Seq<char> {
    if c.connected {
        "Connected to game server after "@ + c.elapsed_text@ + "s ("@ + decimal(c.attempts as nat) + " attempts)\n"@
            + match c.server_info {
                Some(JsonValue::Object(es)) => "  Server: "@ + string_or(obj_get(es@, "server_name"@), "Unknown"@)
                    + " v"@ + string_or(obj_get(es@, "version"@), "Unknown"@) + "\n"@,
                _ => Seq::empty(),
            }
    } else {
        "Failed to connect to game server\n"@ + "  Attempts: "@ + decimal(c.attempts as nat) + "\n"@ + "  Error: "@
            + match c.error { Some(e) => e@, None => "Unknown error"@ } + "\n"@
            + "\nThe game may still be loading. You can:\n"@ + "  - Wait and try connecting manually\n"@
            + "  - Check MelonLoader logs for errors\n"@ + "  - Verify the mod is installed correctly\n"@
    }
}

/// The report of a successful launch: version, path, debugger, and when the
/// launch waited for the mod, how long it was willing to wait and how
/// connecting went.
pub open spec fn launch_report_text(options: LaunchGameOptions, game_path: Seq<char>, startup_timeout: u64,
    connection: Option<ConnectionSummary>) -> Seq<char> {
    "Game launched successfully ("@ + display_text(options.version) + ")\n  Path: "@ + game_path + "\n"@
        + (if options.enable_debugger { "  Debugger: Enabled\n"@ } else { Seq::empty() })
        + (if options.wait_for_connection {
            "\nWaiting for game to load and connect (up to "@ + decimal((startup_timeout + 20) as nat) + "s)...\n"@
                + "  - Game needs ~20s to load Menu scene before accepting commands\n"@
                + match connection { Some(c) => connection_text(c), None => Seq::empty() }
        } else {
            Seq::empty()
        })
}

fn push_string_or(out: &mut Vec<char>, v: Option<&JsonValue>, default: &str)
    ensures
        final(out)@ == old(out)@ + string_or(match v { Some(x) => Some(*x), None => None }, default@),
{
    match v {
        Some(JsonValue::String(s)) => push_str(out, s.as_str()),
        _ => push_str(out, default),
    }
}

fn push_server_line(out: &mut Vec<char>, info: &Option<JsonValue>)
    ensures
        final(out)@ == old(out)@ + match *info {
            Some(JsonValue::Object(es)) => "  Server: "@ + string_or(obj_get(es@, "server_name"@), "Unknown"@)
                + " v"@ + string_or(obj_get(es@, "version"@), "Unknown"@) + "\n"@,
            _ => Seq::empty(),
        },
{
    match info {
        Some(JsonValue::Object(es)) => {
            push_str(out, "  Server: ");
            push_string_or(out, object_get(es, "server_name"), "Unknown");
            push_str(out, " v");
            push_string_or(out, object_get(es, "version"), "Unknown");
            push_str(out, "\n");
            assert(final(out)@ =~= old(out)@ + "  Server: "@ + string_or(obj_get(es@, "server_name"@), "Unknown"@)
                + " v"@ + string_or(obj_get(es@, "version"@), "Unknown"@) + "\n"@);
        },
        _ => {
            assert(final(out)@ =~= old(out)@);
        },
    }
}

fn push_connection_text(out: &mut Vec<char>, c: &ConnectionSummary)
    ensures
        final(out)@ == old(out)@ + connection_text(*c),
{
    if c.connected {
        push_str(out, "Connected to game server after ");
        push_str(out, c.elapsed_text.as_str());
        push_str(out, "s (");
        push_decimal(out, c.attempts as u64);
        push_str(out, " attempts)\n");
        push_server_line(out, &c.server_info);
    } else {
        push_str(out, "Failed to connect to game server\n");
        push_str(out, "  Attempts: ");
        push_decimal(out, c.attempts as u64);
        push_str(out, "\n");
        push_str(out, "  Error: ");
        match &c.error {
            Some(e) => push_str(out, e.as_str()),
            None => push_str(out, "Unknown error"),
        }
        push_str(out, "\n");
        push_str(out, "\nThe game may still be loading. You can:\n");
        push_str(out, "  - Wait and try connecting manually\n");
        push_str(out, "  - Check MelonLoader logs for errors\n");
        push_str(out, "  - Verify the mod is installed correctly\n");
    }
    assert(final(out)@ =~= old(out)@ + connection_text(*c));
}

/// Builds the report of a successful launch (see `launch_report_text`).
pub fn launch_report(options: &LaunchGameOptions, game_path: &str, startup_timeout: u64,
    connection: Option<ConnectionSummary>) -> (r: String)
    requires
        options.wait_for_connection ==> startup_timeout + 20 <= u64::MAX,
    ensures
        r@ == launch_report_text(*options, game_path@, startup_timeout, connection),
{
    let ghost gc = connection;
    let mut m: Vec<char> = Vec::new();
    push_str(&mut m, "Game launched successfully (");
    push_str(&mut m, options.version.as_display());
    push_str(&mut m, ")\n  Path: ");
    push_str(&mut m, game_path);
    push_str(&mut m, "\n");
    if options.enable_debugger {
        push_str(&mut m, "  Debugger: Enabled\n");
    }
    let ghost head = m@;
    if options.wait_for_connection {
        push_str(&mut m, "\nWaiting for game to load and connect (up to ");
        push_decimal(&mut m, startup_timeout + 20);
        push_str(&mut m, "s)...\n");
        push_str(&mut m, "  - Game needs ~20s to load Menu scene before accepting commands\n");
        match connection {
            Some(c) => push_connection_text(&mut m, &c),
            None => {},
        }
    }
    assert(m@ =~= launch_report_text(*options, game_path@, startup_timeout, gc));
    string_from_chars(&m)
}

/// The detail of a failed command: its trimmed error output, or `fallback` when blank.
pub open spec fn failure_detail(stderr: Seq<char>, fallback: Seq<char>) -> Seq<char> {
    if trimmed(stderr).len() == 0 { fallback } else { trimmed(stderr) }
}

fn push_failure_detail(out: &mut Vec<char>, stderr: &str, fallback: &str)
    ensures
        final(out)@ == old(out)@ + failure_detail(stderr@, fallback@),
{
    let t = trim_chars(stderr);
    if t.len() == 0 {
        push_str(out, fallback);
    } else {
        push_chars(out, &t);
    }
}

/// The error when the PowerShell launch command fails.
pub fn launch_failure_message(stderr: &str) -> (r: String)
    ensures
        r@ == "Error launching game:\n"@ + failure_detail(stderr@, "Unknown PowerShell error"@),
{
    let mut m: Vec<char> = Vec::new();
    push_str(&mut m, "Error launching game:\n");
    push_failure_detail(&mut m, stderr, "Unknown PowerShell error");
    string_from_chars(&m)
}

/// The error when `taskkill` fails to close the game.
pub fn close_failure_message(stderr: &str) -> (r: String)
    ensures
        r@ == "Error closing game: "@ + failure_detail(stderr@, "Unknown taskkill error"@),
{
    let mut m: Vec<char> = Vec::new();
    push_str(&mut m, "Error closing game: ");
    push_failure_detail(&mut m, stderr, "Unknown taskkill error");
    string_from_chars(&m)
}

/// The error when polling for the mod's server ran out of time.
pub fn poll_timeout_message(timeout_secs: u64, attempts: u32) -> (r: String)
    ensures
        r@ == "Connection timeout after "@ + decimal(timeout_secs as nat) + " seconds ("@ + decimal(attempts as nat)
            + " attempts)"@,
{
    let mut m: Vec<char> = Vec::new();
    push_str(&mut m, "Connection timeout after ");
    push_decimal(&mut m, timeout_secs);
    push_str(&mut m, " seconds (");
    push_decimal(&mut m, attempts as u64);
    push_str(&mut m, " attempts)");
    string_from_chars(&m)
}


/// What the launch steps need once the install directory is known.
#[derive(Debug)]
pub struct LaunchPlan {
    pub options: LaunchGameOptions,
    pub game_path: String,
    pub startup_timeout: u64,
    pub poll_interval: u64,
}

/// Starts a launch: resolves the install directory (see `resolve_game_path`)
/// and keeps the timeouts the later steps use.
pub fn plan_launch(options: &LaunchGameOptions, settings: &Settings) -> (r: Result<LaunchPlan, String>)
    ensures
        trimmed(configured_path(options.version, *settings)).len() == 0
            ==> (r matches Err(m) && m@ == no_path_text(options.version)),
        trimmed(configured_path(options.version, *settings)).len() > 0 && trimmed(settings.game_executable@).len() == 0
            ==> (r matches Err(m) && m@ == no_executable_text()),
        trimmed(configured_path(options.version, *settings)).len() > 0 && trimmed(settings.game_executable@).len() > 0
            ==> (r matches Ok(p) && p.options == *options && p.game_path@ == trimmed(configured_path(options.version, *settings))
                && p.startup_timeout == settings.game_startup_timeout
                && p.poll_interval == settings.game_connection_poll_interval),
{
    match resolve_game_path(options.version, settings) {
        Ok(path) => Ok(LaunchPlan {
            options: *options,
            game_path: path,
            startup_timeout: settings.game_startup_timeout,
            poll_interval: settings.game_connection_poll_interval,
        }),
        Err(e) => Err(e),
    }
}

/// How a command the launcher ran ended: whether it exited successfully, and
/// what it wrote to standard error.
#[derive(Debug)]
pub struct CommandOutcome {
    pub success: bool,
    pub stderr: String,
}

/// What the launcher learned from the work it was last asked to do.
#[derive(Debug)]
pub enum LaunchEvent {
    /// Whether the install directory exists.
    PathChecked(bool),
    /// Whether the game already runs.
    RunningChecked(bool),
    /// The executable's path inside the install directory, and whether it exists.
    ExecutableChecked { exe_path: String, exists: bool },
    /// How the launch command ended, or why it could not run.
    LaunchRan(Result<CommandOutcome, String>),
    /// Whether the game process showed up in time.
    ProcessAwaited(bool),
    /// How polling for the mod's server ended.
    ConnectionPolled(ConnectionSummary),
}

/// What the launcher is to do next.
#[derive(Debug)]
pub enum LaunchAction {
    /// Find out whether the game already runs.
    CheckRunning,
    /// Find out whether the game executable exists in the install directory.
    CheckExecutable,
    /// Run this PowerShell command.
    RunLaunch(String),
    /// Wait for the game process to show up.
    AwaitProcess,
    /// Poll for the mod's server for `timeout_secs`, pausing `interval_secs` between attempts.
    PollConnection { timeout_secs: u64, interval_secs: u64 },
    /// Stop with this result.
    Finish(Result<String, String>),
}

/// The error when the game already runs.
pub open spec fn already_running_text() -> Seq<char> {
    "Error: Game is already running.\nPlease close the game first using s1_close_game, or kill it manually."@
}

/// The warning when the launched process does not show up.
pub open spec fn not_detected_text() -> Seq<char> {
    "Warning: Game process not detected after 10 seconds.\nThe game may be starting slowly or failed to launch."@
}

/// Whether `r` is the step that follows `event` in a launch under `plan`.
pub open spec fn launch_step_is(plan: LaunchPlan, event: LaunchEvent, r: LaunchAction) -> bool {
    match event {
        LaunchEvent::PathChecked(exists) => if exists {
            r is CheckRunning
        } else {
            r matches LaunchAction::Finish(Err(m)) && m@ == "Error: Game path does not exist: "@ + plan.game_path@
        },
        LaunchEvent::RunningChecked(running) => if running {
            r matches LaunchAction::Finish(Err(m)) && m@ == already_running_text()
        } else {
            r is CheckExecutable
        },
        LaunchEvent::ExecutableChecked { exe_path, exists } => if exists {
            r matches LaunchAction::RunLaunch(c) && c@ == launch_command_text(exe_path@, plan.options.enable_debugger)
        } else {
            r matches LaunchAction::Finish(Err(m)) && m@ == "Error: Game executable not found: "@ + exe_path@
        },
        LaunchEvent::LaunchRan(Err(e)) => r matches LaunchAction::Finish(Err(m)) && m@ == e@,
        LaunchEvent::LaunchRan(Ok(o)) => if o.success {
            r is AwaitProcess
        } else {
            r matches LaunchAction::Finish(Err(m))
                && m@ == "Error launching game:\n"@ + failure_detail(o.stderr@, "Unknown PowerShell error"@)
        },
        LaunchEvent::ProcessAwaited(detected) => if !detected {
            r matches LaunchAction::Finish(Ok(m)) && m@ == not_detected_text()
        } else if plan.options.wait_for_connection {
            r matches LaunchAction::PollConnection { timeout_secs, interval_secs }
                && timeout_secs == plan.startup_timeout
                && interval_secs == (if plan.poll_interval >= 1 { plan.poll_interval } else { 1 })
        } else {
            r matches LaunchAction::Finish(Ok(m))
                && m@ == launch_report_text(plan.options, plan.game_path@, plan.startup_timeout, None)
        },
        LaunchEvent::ConnectionPolled(c) => r matches LaunchAction::Finish(Ok(m))
            && m@ == launch_report_text(plan.options, plan.game_path@, plan.startup_timeout, Some(c)),
    }
}

/// Decides the next step of a launch from what the last step found: refuse a
/// missing directory, a running game or a missing executable; run the launch
/// command; report its failure; wait for the process; poll for the mod when
/// asked; and report.
pub fn launch_step(plan: &LaunchPlan, event: LaunchEvent) -> (r: LaunchAction)
    requires
        event is ConnectionPolled && plan.options.wait_for_connection ==> plan.startup_timeout + 20 <= u64::MAX,
    ensures
        launch_step_is(*plan, event, r),
{
    let ghost ev = event;
    match event {
        LaunchEvent::PathChecked(exists) => {
            if exists {
                LaunchAction::CheckRunning
            } else {
                let mut m: Vec<char> = Vec::new();
                push_str(&mut m, "Error: Game path does not exist: ");
                push_str(&mut m, plan.game_path.as_str());
                LaunchAction::Finish(Err(string_from_chars(&m)))
            }
        },
        LaunchEvent::RunningChecked(running) => {
            if running {
                LaunchAction::Finish(Err(String::from_str(
                    "Error: Game is already running.\nPlease close the game first using s1_close_game, or kill it manually.",
                )))
            } else {
                LaunchAction::CheckExecutable
            }
        },
        LaunchEvent::ExecutableChecked { exe_path, exists } => {
            if exists {
                LaunchAction::RunLaunch(launch_command(exe_path.as_str(), plan.options.enable_debugger))
            } else {
                let mut m: Vec<char> = Vec::new();
                push_str(&mut m, "Error: Game executable not found: ");
                push_str(&mut m, exe_path.as_str());
                LaunchAction::Finish(Err(string_from_chars(&m)))
            }
        },
        LaunchEvent::LaunchRan(Err(e)) => LaunchAction::Finish(Err(e)),
        LaunchEvent::LaunchRan(Ok(o)) => {
            if o.success {
                LaunchAction::AwaitProcess
            } else {
                LaunchAction::Finish(Err(launch_failure_message(o.stderr.as_str())))
            }
        },
        LaunchEvent::ProcessAwaited(detected) => {
            if !detected {
                LaunchAction::Finish(Ok(String::from_str(
                    "Warning: Game process not detected after 10 seconds.\nThe game may be starting slowly or failed to launch.",
                )))
            } else if plan.options.wait_for_connection {
                let interval = if plan.poll_interval >= 1 { plan.poll_interval } else { 1 };
                LaunchAction::PollConnection { timeout_secs: plan.startup_timeout, interval_secs: interval }
            } else {
                LaunchAction::Finish(Ok(launch_report(&plan.options, plan.game_path.as_str(), plan.startup_timeout, None)))
            }
        },
        LaunchEvent::ConnectionPolled(c) => {
            LaunchAction::Finish(Ok(launch_report(&plan.options, plan.game_path.as_str(), plan.startup_timeout, Some(c))))
        },
    }
}

/// What closing the game learned from the work it was last asked to do.
#[derive(Debug)]
pub enum CloseEvent {
    /// Whether the game runs before anything is done.
    RunningChecked(bool),
    /// How `taskkill` ended, or why it could not run.
    KillRan(Result<CommandOutcome, String>),
    /// Whether the game still runs, and whether this was the last look (the
    /// wait for it to exit is over).
    ExitChecked { running: bool, last_check: bool },
}

/// What closing the game is to do next.
#[derive(Debug)]
pub enum CloseAction {
    /// Drop the connection to the mod and kill the game's processes.
    Kill,
    /// Look whether the game still runs.
    CheckExit,
    /// Pause briefly, then look again.
    PauseThenCheckExit,
    /// Stop with this result.
    Finish(Result<String, String>),
}

/// Whether `r` is the step that follows `event` when closing the game.
pub open spec fn close_step_is(event: CloseEvent, r: CloseAction) -> bool {
    match event {
        CloseEvent::RunningChecked(running) => if running {
            r is Kill
        } else {
            r matches CloseAction::Finish(Ok(m)) && m@ == "Game is not currently running."@
        },
        CloseEvent::KillRan(Err(e)) => r matches CloseAction::Finish(Err(m)) && m@ == e@,
        CloseEvent::KillRan(Ok(o)) => if o.success {
            r is CheckExit
        } else {
            r matches CloseAction::Finish(Err(m))
                && m@ == "Error closing game: "@ + failure_detail(o.stderr@, "Unknown taskkill error"@)
        },
        CloseEvent::ExitChecked { running, last_check } => if !running {
            r matches CloseAction::Finish(Ok(m)) && m@ == "Game closed successfully"@
        } else if last_check {
            r matches CloseAction::Finish(Ok(m)) && m@ == "Warning: Game process may still be running"@
        } else {
            r is PauseThenCheckExit
        },
    }
}

/// Decides the next step of closing the game: nothing to do when it does not
/// run; otherwise kill it, report a failed kill, and watch it exit.
pub fn close_step(event: CloseEvent) -> (r: CloseAction)
    ensures
        close_step_is(event, r),
{
    match event {
        CloseEvent::RunningChecked(running) => {
            if running {
                CloseAction::Kill
            } else {
                CloseAction::Finish(Ok(String::from_str("Game is not currently running.")))
            }
        },
        CloseEvent::KillRan(Err(e)) => CloseAction::Finish(Err(e)),
        CloseEvent::KillRan(Ok(o)) => {
            if o.success {
                CloseAction::CheckExit
            } else {
                CloseAction::Finish(Err(close_failure_message(o.stderr.as_str())))
            }
        },
        CloseEvent::ExitChecked { running, last_check } => {
            if !running {
                CloseAction::Finish(Ok(String::from_str("Game closed successfully")))
            } else if last_check {
                CloseAction::Finish(Ok(String::from_str("Warning: Game process may still be running")))
            } else {
                CloseAction::PauseThenCheckExit
            }
        },
    }
}

/// One game process as PowerShell listed it: its id, its CPU seconds and
/// working set when they are numbers, and its start time (empty when absent).
#[derive(Debug)]
pub struct ProcessRow {
    pub pid: i64,
    pub cpu: Option<JsonNumber>,
    pub working_set: Option<JsonNumber>,
    pub start_time: String,
}

/// The process id in a listing entry: an integer `Id` that fits in an `i64`.
pub open spec fn row_pid(entry: JsonValue) -> Option<i64> {
    match value_get(entry, "Id"@) {
        Some(JsonValue::Number(JsonNumber::PosInt(u))) => if u <= 0x7fff_ffff_ffff_ffffu64 { Some(u as i64) } else { None },
        Some(JsonValue::Number(JsonNumber::NegInt(i))) => Some(i),
        _ => None,
    }
}

/// The number under `key` in a listing entry, if it is a number.
pub open spec fn number_field(entry: JsonValue, key: Seq<char>) -> Option<JsonNumber> {
    match value_get(entry, key) {
        Some(JsonValue::Number(n)) => Some(n),
        _ => None,
    }
}

/// Whether `row` is what the listing entry `entry` says of its process.
pub open spec fn row_matches(row: ProcessRow, entry: JsonValue) -> bool {
    &&& row_pid(entry) == Some(row.pid)
    &&& row.cpu == number_field(entry, "CPU"@)
    &&& row.working_set == number_field(entry, "WorkingSet"@)
    &&& row.start_time@ == string_or(value_get(entry, "StartTime"@), Seq::empty())
}

/// The entries of a listing: the items of an array, or the one value otherwise.
pub open spec fn process_entries(v: JsonValue) -> Seq<JsonValue> {
    match v {
        JsonValue::Array(items) => items@,
        other => seq![other],
    }
}

/// The entries that describe a process: those with a process id, in order.
pub open spec fn kept_entries(es: Seq<JsonValue>) -> Seq<JsonValue>
    decreases es.len(),
{
    if es.len() == 0 {
        Seq::empty()
    } else if row_pid(es.last()) is Some {
        kept_entries(es.drop_last()).push(es.last())
    } else {
        kept_entries(es.drop_last())
    }
}

/// Whether `rows` describe the entries `es`, one for one.
pub open spec fn rows_match(rows: Seq<ProcessRow>, es: Seq<JsonValue>) -> bool {
    rows.len() == es.len() && forall|i: int| 0 <= i < rows.len() ==> row_matches(#[trigger] rows[i], es[i])
}

fn copy_number(n: &JsonNumber) -> (r: JsonNumber)
    ensures
        r == *n,
{
    match n {
        JsonNumber::PosInt(u) => JsonNumber::PosInt(*u),
        JsonNumber::NegInt(i) => JsonNumber::NegInt(*i),
        JsonNumber::Float(t) => JsonNumber::Float(t.clone()),
    }
}

fn number_at(entry: &JsonValue, key: &str) -> (r: Option<JsonNumber>)
    ensures
        r == number_field(*entry, key@),
{
    match crate::json::value_get_field(entry, key) {
        Some(JsonValue::Number(n)) => Some(copy_number(n)),
        _ => None,
    }
}

fn row_of(entry: &JsonValue) -> (r: Option<ProcessRow>)
    ensures
        r is None <==> row_pid(*entry) is None,
        r matches Some(row) ==> row_matches(row, *entry),
{
    let pid: i64 = match crate::json::value_get_field(entry, "Id") {
        Some(JsonValue::Number(JsonNumber::PosInt(u))) => {
            if *u <= 0x7fff_ffff_ffff_ffffu64 {
                *u as i64
            } else {
                return None;
            }
        },
        Some(JsonValue::Number(JsonNumber::NegInt(i))) => *i,
        _ => return None,
    };
    let cpu = number_at(entry, "CPU");
    let working_set = number_at(entry, "WorkingSet");
    let start_time = match crate::json::value_get_field(entry, "StartTime") {
        Some(JsonValue::String(t)) => t.clone(),
        _ => String::new(),
    };
    Some(ProcessRow { pid, cpu, working_set, start_time })
}

/// The processes a parsed listing describes (see `kept_entries`, `row_matches`).
pub fn process_rows_of(listing: &JsonValue) -> (r: Vec<ProcessRow>)
    ensures
        rows_match(r@, kept_entries(process_entries(*listing))),
{
    let mut rows: Vec<ProcessRow> = Vec::new();
    match listing {
        JsonValue::Array(items) => {
            let mut i: usize = 0;
            while i < items.len()
                invariant
                    i <= items@.len(),
                    rows_match(rows@, kept_entries(items@.subrange(0, i as int))),
                decreases items.len() - i,
            {
                let ghost before = rows@;
                proof {
                    let s1 = items@.subrange(0, i + 1);
                    assert(s1.drop_last() =~= items@.subrange(0, i as int));
                    assert(s1.last() == items@[i as int]);
                }
                match row_of(&items[i]) {
                    Some(row) => {
                        rows.push(row);
                        assert(rows_match(rows@, kept_entries(items@.subrange(0, i + 1)))) by {
                            let k = kept_entries(items@.subrange(0, i as int));
                            assert(kept_entries(items@.subrange(0, i + 1)) == k.push(items@[i as int]));
                            assert forall|j: int| 0 <= j < rows@.len() implies row_matches(#[trigger] rows@[j], k.push(items@[i as int])[j]) by {
                                if j < before.len() {
                                    assert(rows@[j] == before[j]);
                                }
                            }
                        }
                    },
                    None => {},
                }
                i += 1;
            }
            assert(items@.subrange(0, items@.len() as int) =~= items@);
            assert(process_entries(*listing) == items@);
        },
        _ => {
            proof {
                let es = seq![*listing];
                assert(es.drop_last() =~= Seq::<JsonValue>::empty());
                assert(es.last() == *listing);
            }
            let ghost es = seq![*listing];
            assert(kept_entries(Seq::<JsonValue>::empty()) =~= Seq::<JsonValue>::empty());
            assert(process_entries(*listing) == es);
            match row_of(listing) {
                Some(row) => {
                    rows.push(row);
                    assert(kept_entries(es) =~= seq![*listing]);
                },
                None => {
                    assert(kept_entries(es) =~= Seq::<JsonValue>::empty());
                },
            }
        },
    }
    rows
}

/// Whether `r` is what PowerShell's listing gives (see `process_rows`).
pub open spec fn process_rows_are(command_succeeded: bool, stdout: Seq<char>, stderr: Seq<char>,
    r: Result<Vec<ProcessRow>, String>) -> bool {
    if !command_succeeded {
        r matches Err(m) && m@ == trimmed(stderr)
    } else if trimmed(stdout).len() == 0 {
        r matches Ok(rows) && rows@.len() == 0
    } else {
        match parsed_json(trimmed(stdout)) {
            Err(e) => r matches Err(m) && m@ == "Failed to parse process info JSON: "@ + e,
            Ok(v) => r matches Ok(rows) && rows_match(rows@, kept_entries(process_entries(v))),
        }
    }
}

/// The processes in PowerShell's listing. A failed command gives its error
/// output, trimmed; blank output means no process; otherwise the output,
/// trimmed, is read as JSON, and failing that gives the reader's error.
pub fn process_rows(command_succeeded: bool, stdout: &str, stderr: &str) -> (r: Result<Vec<ProcessRow>, String>)
    ensures
        process_rows_are(command_succeeded, stdout@, stderr@, r),
{
    if !command_succeeded {
        let t = trim_chars(stderr);
        return Err(string_from_chars(&t));
    }
    let t = trim_chars(stdout);
    if t.len() == 0 {
        return Ok(Vec::new());
    }
    let text = string_from_chars(&t);
    match parse_json_text(text.as_str()) {
        Err(e) => {
            let mut m: Vec<char> = Vec::new();
            push_str(&mut m, "Failed to parse process info JSON: ");
            push_str(&mut m, e.as_str());
            Err(string_from_chars(&m))
        },
        Ok(v) => Ok(process_rows_of(&v)),
    }
}

/// Where polling for the mod's server stands: the attempts made so far, and
/// the time allowed, in seconds.
#[derive(Debug, Clone, Copy, PartialEq, Eq, Structural)]
pub struct PollState {
    pub attempts: u32,
    pub timeout_secs: u64,
}

/// What polling learned from the work it was last asked to do.
#[derive(Debug)]
pub enum PollEvent {
    /// At the top of the loop: whether time is left, and whether the client
    /// still shows as connected.
    Tick { within_timeout: bool, client_connected: bool },
    /// The reply to the handshake, or why the call failed.
    Handshake(Result<Response, TcpClientError>),
    /// The client was dropped after a failed attempt; whether time is left.
    Disconnected { within_timeout: bool },
}

/// What polling is to do next.
#[derive(Debug)]
pub enum PollAction {
    /// Call the handshake, first dropping the connection (and pausing briefly)
    /// when asked.
    CallHandshake { disconnect_first: bool },
    /// Drop the connection after a failed attempt.
    Disconnect,
    /// Pause for the poll interval, then look at the time again.
    SleepInterval,
    /// Stop: whether the mod answered, after how many attempts, the server
    /// information it sent, and the error when it did not answer in time.
    Finish { connected: bool, attempts: u32, server_info: Option<JsonValue>, error: Option<String> },
}

/// The error when polling ran out of time.
pub open spec fn poll_timeout_text(timeout_secs: u64, attempts: u32) -> Seq<char> {
    "Connection timeout after "@ + decimal(timeout_secs as nat) + " seconds ("@ + decimal(attempts as nat) + " attempts)"@
}

/// Whether `a` ends polling without a connection after `attempts` attempts.
pub open spec fn timed_out(a: PollAction, timeout_secs: u64, attempts: u32) -> bool {
    a matches PollAction::Finish { connected, attempts: n, server_info, error } && !connected && n == attempts
        && server_info is None && (error matches Some(m) && m@ == poll_timeout_text(timeout_secs, attempts))
}

/// Whether `r` (the new state and the next action) follows `event` when polling
/// stands at `state`.
pub open spec fn poll_step_is(state: PollState, event: PollEvent, r: (PollState, PollAction)) -> bool {
    match event {
        PollEvent::Tick { within_timeout, client_connected } => if within_timeout {
            &&& r.0 == PollState { attempts: (state.attempts + 1) as u32, timeout_secs: state.timeout_secs }
            &&& r.1 matches PollAction::CallHandshake { disconnect_first } && disconnect_first == client_connected
        } else {
            r.0 == state && timed_out(r.1, state.timeout_secs, state.attempts)
        },
        PollEvent::Handshake(Ok(response)) => if response.error is None {
            &&& r.0 == state
            &&& r.1 matches PollAction::Finish { connected, attempts, server_info, error } && connected
                && attempts == state.attempts && server_info == response.result && error is None
        } else {
            r.0 == state && r.1 is Disconnect
        },
        PollEvent::Handshake(Err(_)) => r.0 == state && r.1 is Disconnect,
        PollEvent::Disconnected { within_timeout } => if within_timeout {
            r.0 == state && r.1 is SleepInterval
        } else {
            r.0 == state && timed_out(r.1, state.timeout_secs, state.attempts)
        },
    }
}

/// Decides the next step of polling for the mod's server: each tick within the
/// time allowed counts an attempt and calls the handshake (dropping a stale
/// connection first); a reply without error ends it connected, with the reply's
/// result; a failed attempt drops the connection and pauses while time is left;
/// once time is up, it ends with the timeout error.
pub fn poll_step(state: &PollState, event: PollEvent) -> (r: (PollState, PollAction))
    requires
        event matches PollEvent::Tick { within_timeout, .. } && within_timeout ==> state.attempts < u32::MAX,
    ensures
        poll_step_is(*state, event, r),
{
    match event {
        PollEvent::Tick { within_timeout, client_connected } => {
            if within_timeout {
                (PollState { attempts: state.attempts + 1, timeout_secs: state.timeout_secs },
                    PollAction::CallHandshake { disconnect_first: client_connected })
            } else {
                (*state, poll_timed_out(state))
            }
        },
        PollEvent::Handshake(Ok(response)) => {
            match response.error {
                None => (*state, PollAction::Finish {
                    connected: true,
                    attempts: state.attempts,
                    server_info: response.result,
                    error: None,
                }),
                Some(_) => (*state, PollAction::Disconnect),
            }
        },
        PollEvent::Handshake(Err(_)) => (*state, PollAction::Disconnect),
        PollEvent::Disconnected { within_timeout } => {
            if within_timeout {
                (*state, PollAction::SleepInterval)
            } else {
                (*state, poll_timed_out(state))
            }
        },
    }
}

/// Whether `event` is what the work `action` asked for reports: a tick after a
/// pause, a handshake reply after a handshake call, the time after a disconnect.
pub open spec fn event_answers(action: PollAction, event: PollEvent) -> bool {
    match event {
        PollEvent::Tick { .. } => action is SleepInterval,
        PollEvent::Handshake(_) => action is CallHandshake,
        PollEvent::Disconnected { .. } => action is Disconnect,
    }
}

/// The state polling stands at before step `i` of a run that began at `start`.
pub open spec fn state_before(start: PollState, steps: Seq<(PollState, PollAction)>, i: int) -> PollState {
    if i == 0 { start } else { steps[i - 1].0 }
}

/// Whether `steps` are the steps `poll_step` takes on `events` from `start`: the
/// run begins with a tick, each later event answers the action before it, and
/// each step is taken within `poll_step`'s `requires`.
pub open spec fn is_poll_run(start: PollState, events: Seq<PollEvent>, steps: Seq<(PollState, PollAction)>) -> bool {
    &&& events.len() == steps.len()
    &&& events.len() > 0 ==> events[0] is Tick
    &&& forall|i: int| 0 < i < events.len() ==> event_answers(#[trigger] steps[i - 1].1, events[i])
    &&& forall|i: int| 0 <= i < events.len() ==> {
        &&& (events[i] matches PollEvent::Tick { within_timeout, .. } && within_timeout
            ==> state_before(start, steps, i).attempts < u32::MAX)
        &&& poll_step_is(state_before(start, steps, i), #[trigger] events[i], steps[i])
    }
}

proof fn lemma_poll_run_attempts(start: PollState, events: Seq<PollEvent>, steps: Seq<(PollState, PollAction)>, k: int)
    requires
        is_poll_run(start, events, steps),
        0 <= k < events.len(),
    ensures
        steps[k].0.attempts >= start.attempts,
        steps[k].0.timeout_secs == start.timeout_secs,
        steps[k].1 is CallHandshake ==> steps[k].0.attempts >= start.attempts + 1,
    decreases k,
{
    if k > 0 {
        lemma_poll_run_attempts(start, events, steps, k - 1);
    }
    assert(poll_step_is(state_before(start, steps, k), events[k], steps[k]));
}

/// Polling never reports a connection before it has made an attempt: in any
/// run of steps from `start`, a step that ends connected reports at least one
/// attempt more than `start` had.
pub proof fn lemma_poll_connects_after_an_attempt(start: PollState, events: Seq<PollEvent>,
    steps: Seq<(PollState, PollAction)>, k: int)
    requires
        is_poll_run(start, events, steps),
        0 <= k < events.len(),
        steps[k].1 matches PollAction::Finish { connected, .. } && connected,
    ensures
        steps[k].1 matches PollAction::Finish { attempts, .. } && attempts >= start.attempts + 1 && attempts >= 1,
{
    assert(poll_step_is(state_before(start, steps, k), events[k], steps[k]));
    if k == 0 {
        assert(events[0] is Tick);
    } else {
        assert(event_answers(steps[k - 1].1, events[k]));
        lemma_poll_run_attempts(start, events, steps, k - 1);
    }
}

fn poll_timed_out(state: &PollState) -> (r: PollAction)
    ensures
        timed_out(r, state.timeout_secs, state.attempts),
{
    PollAction::Finish {
        connected: false,
        attempts: state.attempts,
        server_info: None,
        error: Some(poll_timeout_message(state.timeout_secs, state.attempts)),
    }
}

/// How the listing command ran: whether it exited successfully, and what it
/// wrote to standard output and standard error.
#[derive(Debug)]
pub struct ListingOutput {
    pub success: bool,
    pub stdout: String,
    pub stderr: String,
}

/// What is known of the game's processes: whether any runs, how many, which,
/// and why the listing failed when it did.
#[derive(Debug)]
pub struct ProcessReport {
    pub running: bool,
    pub process_count: usize,
    pub rows: Vec<ProcessRow>,
    pub error: Option<String>,
}

/// Reports on the game's processes from the listing command's run (or the
/// reason it could not run): the game runs exactly when some process is
/// listed, the count is the number listed, and any failure (the command not
/// running, failing, or printing what is not JSON) lists none and says why.
pub fn process_report(ran: Result<ListingOutput, String>) -> (r: ProcessReport)
    ensures
        r.running == (r.rows@.len() > 0),
        r.process_count == r.rows@.len(),
        r.error is Some ==> r.rows@.len() == 0,
        match ran {
            Err(e) => r.rows@.len() == 0 && (r.error matches Some(m) && m@ == e@),
            Ok(o) => match (r.error, r.rows) {
                (Some(m), _) => process_rows_are(o.success, o.stdout@, o.stderr@, Err(m)),
                (None, rows) => process_rows_are(o.success, o.stdout@, o.stderr@, Ok(rows)),
            },
        },
{
    match ran {
        Err(e) => ProcessReport { running: false, process_count: 0, rows: Vec::new(), error: Some(e) },
        Ok(o) => match process_rows(o.success, o.stdout.as_str(), o.stderr.as_str()) {
            Err(m) => ProcessReport { running: false, process_count: 0, rows: Vec::new(), error: Some(m) },
            Ok(rows) => {
                let n = rows.len();
                ProcessReport { running: n > 0, process_count: n, rows, error: None }
            },
        },
    }
}

} // verus!
