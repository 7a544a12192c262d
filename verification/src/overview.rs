//! The host overview: Windows, CPU, memory, GPU and storage facts.
use vstd::prelude::*;

use crate::text::{chars_of, signed_decimal, signed_decimal_chars, string_from, string_of, sub_chars, trim, trimmed_chars};

verus! {

/// How much of the overview to collect.
#[derive(Debug, Clone, Copy, PartialEq, Eq, Structural)]
pub enum SystemOverviewScope {
    Full,
    Storage,
}

/// The wire name of a scope.
pub open spec fn scope_name(scope: SystemOverviewScope) -> Seq<char> {
    match scope {
        SystemOverviewScope::Full => "full"@,
        SystemOverviewScope::Storage => "storage"@,
    }
}

impl SystemOverviewScope {
    /// The wire name of the scope.
    pub fn as_str(self) -> (s: &'static str)
        ensures
            s@ == scope_name(self),
    {
        match self {
            SystemOverviewScope::Full => "full",
            SystemOverviewScope::Storage => "storage",
        }
    }
}

/// The scope asked for, or the full overview when none is given.
pub fn effective_scope(scope: Option<SystemOverviewScope>) -> (r: SystemOverviewScope)
    ensures
        r == match scope {
            Some(s) => s,
            None => SystemOverviewScope::Full,
        },
{
    match scope {
        Some(s) => s,
        None => SystemOverviewScope::Full,
    }
}

/// The host overview.
#[derive(Debug, Clone, PartialEq)]
pub struct SystemOverview {
    pub windows: WindowsOverview,
    pub cpu: CpuOverview,
    pub memory: MemoryOverview,
    pub gpu: Option<GpuOverview>,
    pub storage: StorageOverview,
}

#[derive(Debug, Clone, PartialEq)]
pub struct WindowsOverview {
    pub product_name: Option<String>,
    pub display_version: Option<String>,
    pub build_number: Option<String>,
}

#[derive(Debug, Clone, PartialEq)]
pub struct CpuOverview {
    pub model: Option<String>,
    pub max_clock_mhz: Option<u32>,
    pub core_count: Option<u32>,
    pub logical_processor_count: Option<u32>,
}

#[derive(Debug, Clone, PartialEq)]
pub struct MemoryOverview {
    pub total_bytes: Option<u64>,
    pub speed_mts: Option<u32>,
    pub used_slots: Option<u32>,
    pub total_slots: Option<u32>,
}

#[derive(Debug, Clone, PartialEq)]
pub struct GpuOverview {
    pub name: Option<String>,
    pub memory_bytes: Option<u64>,
    pub driver_version: Option<String>,
}

#[derive(Debug, Clone, PartialEq)]
pub struct StorageOverview {
    pub total_bytes: Option<u64>,
    pub used_bytes: Option<u64>,
    pub free_bytes: Option<u64>,
    pub volume_count: Option<u32>,
}

/// How long the host query may run, in milliseconds.
pub const HOST_QUERY_TIMEOUT_MS: u64 = 4_000;

/// Reading the overview failed; causes are rendered text.
#[derive(Debug, Clone, PartialEq, Eq)]
pub enum SystemOverviewQueryError {
    Spawn(String),
    Io(String),
    TimedOut { timeout_ms: u64 },
    CommandFailed { status: Option<i32>, stderr: String },
    Json(String),
}

pub open spec fn overview_error_message() -> Seq<char> {
    "Failed to read system overview information."@
}

pub open spec fn host_timeout_message() -> Seq<char> {
    "The host command timed out before a stable result was available."@
}

/// `{:?}` of an optional exit status.
pub open spec fn status_debug(status: Option<i32>) -> Seq<char> {
    match status {
        Some(code) => "Some("@ + signed_decimal(code as int) + ")"@,
        None => "None"@,
    }
}

impl SystemOverviewQueryError {
    /// The stable user-facing message: a timeout has its own.
    pub fn to_user_message(&self) -> (s: String)
        ensures
            s@ == if self is TimedOut {
                host_timeout_message()
            } else {
                overview_error_message()
            },
    {
        match self {
            SystemOverviewQueryError::TimedOut { .. } => string_from(
                "The host command timed out before a stable result was available.",
            ),
            _ => string_from("Failed to read system overview information."),
        }
    }

    /// The diagnostic rendering of the error.
    pub fn to_display_string(&self) -> (s: String)
        ensures
            s@ == match self {
                SystemOverviewQueryError::Spawn(e) => "failed to spawn PowerShell: "@ + e@,
                SystemOverviewQueryError::Io(e) => "failed to read PowerShell output: "@ + e@,
                SystemOverviewQueryError::TimedOut { timeout_ms } => "host command timed out in system_overview after "@
                    + crate::text::decimal(*timeout_ms as nat) + " ms"@,
                SystemOverviewQueryError::CommandFailed { status, stderr } => "PowerShell command failed with status "@
                    + status_debug(*status) + ": "@ + stderr@,
                SystemOverviewQueryError::Json(e) => "failed to parse system overview JSON: "@ + e@,
            },
    {
        match self {
            SystemOverviewQueryError::Spawn(e) => crate::text::join2("failed to spawn PowerShell: ", e.as_str()),
            SystemOverviewQueryError::Io(e) => crate::text::join2("failed to read PowerShell output: ", e.as_str()),
            SystemOverviewQueryError::TimedOut { timeout_ms } => {
                let mut s = string_from("host command timed out in system_overview after ");
                s.append(string_of(&crate::text::decimal_chars(*timeout_ms)).as_str());
                s.append(" ms");
                s
            },
            SystemOverviewQueryError::CommandFailed { status, stderr } => {
                let mut s = string_from("PowerShell command failed with status ");
                match status {
                    Some(code) => {
                        s.append("Some(");
                        s.append(string_of(&signed_decimal_chars(*code as i64)).as_str());
                        s.append(")");
                    },
                    None => {
                        s.append("None");
                    },
                }
                s.append(": ");
                s.append(stderr.as_str());
                s
            },
            SystemOverviewQueryError::Json(e) => crate::text::join2("failed to parse system overview JSON: ", e.as_str()),
        }
    }
}

/// The environment variable that passes the scope to the overview script.
pub open spec fn scope_variable_name() -> Seq<char> {
    "EAWSL_SYSTEM_OVERVIEW_SCOPE"@
}

/// The environment variable that passes the scope to the overview script.
pub fn scope_variable() -> (s: &'static str)
    ensures
        s@ == scope_variable_name(),
{
    "EAWSL_SYSTEM_OVERVIEW_SCOPE"
}

/// The PowerShell options that precede the overview script: no profile, no
/// prompts, no execution policy, then the command text.
pub fn overview_script_options() -> (v: Vec<String>)
    ensures
        v@.map_values(|a: String| a@) == seq![
            "-NoProfile"@,
            "-NonInteractive"@,
            "-ExecutionPolicy"@,
            "Bypass"@,
            "-Command"@,
        ],
{
    let mut v: Vec<String> = Vec::new();
    v.push(string_from("-NoProfile"));
    v.push(string_from("-NonInteractive"));
    v.push(string_from("-ExecutionPolicy"));
    v.push(string_from("Bypass"));
    v.push(string_from("-Command"));
    assert(v@.map_values(|a: String| a@) =~= seq![
        "-NoProfile"@,
        "-NonInteractive"@,
        "-ExecutionPolicy"@,
        "Bypass"@,
        "-Command"@,
    ]);
    v
}

/// The error of a host query that did not finish in time.
pub fn overview_timeout_error() -> (e: SystemOverviewQueryError)
    ensures
        e == (SystemOverviewQueryError::TimedOut { timeout_ms: HOST_QUERY_TIMEOUT_MS }),
{
    SystemOverviewQueryError::TimedOut { timeout_ms: HOST_QUERY_TIMEOUT_MS }
}

/// The result of a finished overview script: its output when it succeeded, else
/// its exit code and its trimmed error output.
pub fn overview_script_outcome(succeeded: bool, status: Option<i32>, stdout: Vec<u8>, stderr_text: &str) -> (r: Result<
    Vec<u8>,
    SystemOverviewQueryError,
>)
    ensures
        succeeded ==> r == Ok::<Vec<u8>, SystemOverviewQueryError>(stdout),
        !succeeded ==> (r matches Err(SystemOverviewQueryError::CommandFailed { status: code, stderr })
            && code == status && stderr@ == trim(stderr_text@)),
{
    if succeeded {
        Ok(stdout)
    } else {
        let t = trimmed_chars(stderr_text);
        Err(SystemOverviewQueryError::CommandFailed { status, stderr: string_of(&t) })
    }
}

/// The byte-order mark some hosts prepend to their output.
pub open spec fn byte_order_mark() -> char {
    '\u{feff}'
}

/// The sequence without its leading byte-order marks.
pub open spec fn strip_leading_marks(s: Seq<char>) -> Seq<char>
    decreases s.len(),
{
    if s.len() > 0 && s[0] == byte_order_mark() {
        strip_leading_marks(s.drop_first())
    } else {
        s
    }
}

/// The JSON text of the host output: trimmed, then without leading byte-order marks.
pub open spec fn overview_payload_text(text: Seq<char>) -> Seq<char> {
    strip_leading_marks(trim(text))
}

/// The JSON text of the host output: trimmed, then without leading byte-order marks.
pub fn overview_payload(text: &str) -> (r: String)
    ensures
        r@ == overview_payload_text(text@),
{
    let t = trimmed_chars(text);
    let mut i: usize = 0;
    assert(t@.skip(0) =~= t@);
    while i < t.len() && t[i] == '\u{feff}'
        invariant
            i <= t.len(),
            strip_leading_marks(t@) == strip_leading_marks(t@.skip(i as int)),
        decreases t.len() - i,
    {
        assert(t@.skip(i as int).drop_first() =~= t@.skip(i + 1));
        i += 1;
    }
    let rest = sub_chars(&t, i, t.len());
    assert(rest@ =~= t@.skip(i as int));
    string_of(&rest)
}

} // verus!
