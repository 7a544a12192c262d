//! The WSL error model: command contexts, error variants, their stable user
//! messages, their diagnostic rendering, and the mapping of `Wsl/<CODE>` codes.
use vstd::prelude::*;

use crate::text::{chars_of, concat_chars, join2, join3, string_from, string_of, str_eq, sub_chars, trim, trimmed_chars};

verus! {

/// Command context for mapping `Wsl/<CODE>` to domain errors.
#[derive(Debug, Clone, Copy, PartialEq, Eq, Structural)]
pub enum WslCommandContext {
    Version,
    ListVerbose,
    ListOnline,
    Unregister,
    Terminate,
    Shutdown,
    SetDefault,
    MoveDistro,
    ResizeDistro,
    ImportInPlace,
    Install,
    Import,
    Export,
}

/// The error model of WSL operations.
#[derive(Debug, Clone)]
pub enum WslError {
    InvalidArgument { context: WslCommandContext, raw_output: String },
    FileNotFound,
    DistroNotFound,
    DiskResizeFailed,
    OperationNotPermitted { distro: String },
    UnknownWslError { context: WslCommandContext, code: String, raw_output: String },
    RegistryReadFailed { key: Option<String>, detail: String },
    OutputParseFailed { context: WslCommandContext, detail: String, raw_output: String },
    WslCommandTimedOut { context: WslCommandContext },
    /// The process could not be started; holds the rendered I/O error.
    ProcessFailed(String),
    ProcessKilled,
    Cancelled,
}

/// `WslError` with its text as character sequences.
pub enum WslErrorView {
    InvalidArgument { context: WslCommandContext, raw_output: Seq<char> },
    FileNotFound,
    DistroNotFound,
    DiskResizeFailed,
    OperationNotPermitted { distro: Seq<char> },
    UnknownWslError { context: WslCommandContext, code: Seq<char>, raw_output: Seq<char> },
    RegistryReadFailed { key: Option<Seq<char>>, detail: Seq<char> },
    OutputParseFailed { context: WslCommandContext, detail: Seq<char>, raw_output: Seq<char> },
    WslCommandTimedOut { context: WslCommandContext },
    ProcessFailed(Seq<char>),
    ProcessKilled,
    Cancelled,
}

pub open spec fn option_view(o: Option<String>) -> Option<Seq<char>> {
    match o {
        Some(s) => Some(s@),
        None => None,
    }
}

impl View for WslError {
    type V = WslErrorView;

    open spec fn view(&self) -> WslErrorView {
        match self {
            WslError::InvalidArgument { context, raw_output } => WslErrorView::InvalidArgument {
                context: *context,
                raw_output: raw_output@,
            },
            WslError::FileNotFound => WslErrorView::FileNotFound,
            WslError::DistroNotFound => WslErrorView::DistroNotFound,
            WslError::DiskResizeFailed => WslErrorView::DiskResizeFailed,
            WslError::OperationNotPermitted { distro } => WslErrorView::OperationNotPermitted {
                distro: distro@,
            },
            WslError::UnknownWslError { context, code, raw_output } =>
                WslErrorView::UnknownWslError {
                context: *context,
                code: code@,
                raw_output: raw_output@,
            },
            WslError::RegistryReadFailed { key, detail } => WslErrorView::RegistryReadFailed {
                key: option_view(*key),
                detail: detail@,
            },
            WslError::OutputParseFailed { context, detail, raw_output } =>
                WslErrorView::OutputParseFailed {
                context: *context,
                detail: detail@,
                raw_output: raw_output@,
            },
            WslError::WslCommandTimedOut { context } => WslErrorView::WslCommandTimedOut {
                context: *context,
            },
            WslError::ProcessFailed(detail) => WslErrorView::ProcessFailed(detail@),
            WslError::ProcessKilled => WslErrorView::ProcessKilled,
            WslError::Cancelled => WslErrorView::Cancelled,
        }
    }
}

/// The name of a command context in diagnostics.
pub open spec fn context_name(ctx: WslCommandContext) -> Seq<char> {
    match ctx {
        WslCommandContext::Version => "version"@,
        WslCommandContext::ListVerbose => "list_verbose"@,
        WslCommandContext::ListOnline => "list_online"@,
        WslCommandContext::Unregister => "unregister"@,
        WslCommandContext::Terminate => "terminate"@,
        WslCommandContext::Shutdown => "shutdown"@,
        WslCommandContext::SetDefault => "set_default"@,
        WslCommandContext::MoveDistro => "move_distro"@,
        WslCommandContext::ResizeDistro => "resize_distro"@,
        WslCommandContext::ImportInPlace => "import_in_place"@,
        WslCommandContext::Install => "install"@,
        WslCommandContext::Import => "import"@,
        WslCommandContext::Export => "export"@,
    }
}

impl WslCommandContext {
    /// The name of the context in diagnostics.
    pub fn as_str(self) -> (s: &'static str)
        ensures
            s@ == context_name(self),
    {
        match self {
            WslCommandContext::Version => "version",
            WslCommandContext::ListVerbose => "list_verbose",
            WslCommandContext::ListOnline => "list_online",
            WslCommandContext::Unregister => "unregister",
            WslCommandContext::Terminate => "terminate",
            WslCommandContext::Shutdown => "shutdown",
            WslCommandContext::SetDefault => "set_default",
            WslCommandContext::MoveDistro => "move_distro",
            WslCommandContext::ResizeDistro => "resize_distro",
            WslCommandContext::ImportInPlace => "import_in_place",
            WslCommandContext::Install => "install",
            WslCommandContext::Import => "import",
            WslCommandContext::Export => "export",
        }
    }
}

/// The stable user-facing message of an error.
pub open spec fn user_message(e: WslErrorView) -> Seq<char> {
    match e {
        WslErrorView::InvalidArgument { .. } => "The WSL command arguments are invalid."@,
        WslErrorView::FileNotFound => "The specified file was not found."@,
        WslErrorView::DistroNotFound => "The specified distro was not found."@,
        WslErrorView::DiskResizeFailed => "Failed to resize the distro disk."@,
        WslErrorView::OperationNotPermitted { distro } =>
            "The requested operation is not permitted for distro `"@ + distro + "`."@,
        WslErrorView::UnknownWslError { code, .. } => "The WSL command failed: "@ + code + "."@,
        WslErrorView::RegistryReadFailed { .. } => "Failed to read WSL registry information."@,
        WslErrorView::OutputParseFailed { .. } => "Failed to parse WSL command output."@,
        WslErrorView::WslCommandTimedOut { .. } =>
            "The WSL command timed out before a stable result was available."@,
        WslErrorView::ProcessFailed(_) => "Failed to start the WSL command."@,
        WslErrorView::ProcessKilled => "The WSL command exited without a status code."@,
        WslErrorView::Cancelled => "The operation was cancelled by the user."@,
    }
}

// ---------------------------------------------------------------------------
// Output summaries
// ---------------------------------------------------------------------------
/// The number of UTF-8 bytes of a character.
pub open spec fn utf8_width(c: char) -> nat {
    let u: u32 = c as u32;
    if u < 0x80 {
        1
    } else if u < 0x800 {
        2
    } else if u < 0x10000 {
        3
    } else {
        4
    }
}

/// The number of UTF-8 bytes of a character sequence (`str::len`).
pub open spec fn utf8_len(s: Seq<char>) -> nat
    decreases s.len(),
{
    if s.len() == 0 {
        0
    } else {
        utf8_len(s.drop_last()) + utf8_width(s.last())
    }
}

/// The number of leading characters that fit in `budget` bytes.
pub open spec fn chars_within_bytes(s: Seq<char>, budget: int) -> nat
    decreases s.len(),
{
    if s.len() == 0 || utf8_width(s[0]) > budget {
        0
    } else {
        1 + chars_within_bytes(s.drop_first(), budget - utf8_width(s[0]))
    }
}

/// Line breaks (`\r\n`, then any lone `\r` or `\n`) replaced by ` | `.
pub open spec fn fold_line_breaks(s: Seq<char>) -> Seq<char>
    decreases s.len(),
{
    if s.len() == 0 {
        s
    } else if s.len() >= 2 && s[0] == '\r' && s[1] == '\n' {
        " | "@ + fold_line_breaks(s.skip(2))
    } else if s[0] == '\r' || s[0] == '\n' {
        " | "@ + fold_line_breaks(s.drop_first())
    } else {
        seq![s[0]] + fold_line_breaks(s.drop_first())
    }
}

/// The longest output kept in a summary, in bytes.
pub open spec fn summary_limit() -> nat {
    160
}

/// The trimmed, single-line form of raw command output.
pub open spec fn normalized_output(raw: Seq<char>) -> Seq<char> {
    fold_line_breaks(trim(raw))
}

/// The summary is defined: a long normalized output can be cut at exactly the byte limit.
pub open spec fn summary_defined(raw: Seq<char>) -> bool {
    let n = normalized_output(raw);
    utf8_len(n) <= summary_limit() || utf8_len(n.take(chars_within_bytes(n, summary_limit() as int) as int))
        == summary_limit()
}

/// A short, single-line summary of raw command output.
pub open spec fn output_summary(raw: Seq<char>) -> Seq<char> {
    let n = normalized_output(raw);
    if n.len() == 0 {
        "<empty>"@
    } else if utf8_len(n) <= summary_limit() {
        n
    } else {
        n.take(chars_within_bytes(n, summary_limit() as int) as int) + "..."@
    }
}

/// A line break character.
pub open spec fn is_line_break(c: char) -> bool {
    c == '\r' || c == '\n'
}

/// No character of the sequence is a line break.
pub open spec fn single_line(s: Seq<char>) -> bool {
    forall|i: int| 0 <= i < s.len() ==> !is_line_break(#[trigger] s[i])
}

proof fn lemma_single_line_concat(a: Seq<char>, b: Seq<char>)
    requires
        single_line(a),
        single_line(b),
    ensures
        single_line(a + b),
{
    assert forall|i: int| 0 <= i < (a + b).len() implies !is_line_break(#[trigger] (a + b)[i]) by {
        if i < a.len() {
            assert((a + b)[i] == a[i]);
        } else {
            assert((a + b)[i] == b[i - a.len()]);
        }
    }
}

proof fn lemma_fold_single_line(s: Seq<char>)
    ensures
        single_line(fold_line_breaks(s)),
    decreases s.len(),
{
    reveal_strlit(" | ");
    if s.len() == 0 {
    } else if s.len() >= 2 && s[0] == '\r' && s[1] == '\n' {
        lemma_fold_single_line(s.skip(2));
        lemma_single_line_concat(" | "@, fold_line_breaks(s.skip(2)));
    } else if s[0] == '\r' || s[0] == '\n' {
        lemma_fold_single_line(s.drop_first());
        lemma_single_line_concat(" | "@, fold_line_breaks(s.drop_first()));
    } else {
        lemma_fold_single_line(s.drop_first());
        lemma_single_line_concat(seq![s[0]], fold_line_breaks(s.drop_first()));
    }
}

proof fn lemma_utf8_len_concat(a: Seq<char>, b: Seq<char>)
    ensures
        utf8_len(a + b) == utf8_len(a) + utf8_len(b),
    decreases b.len(),
{
    if b.len() == 0 {
        assert(a + b =~= a);
    } else {
        lemma_utf8_len_concat(a, b.drop_last());
        assert((a + b).drop_last() =~= a + b.drop_last());
        assert((a + b).last() == b.last());
    }
}

/// An output summary is a single line of at most the byte limit plus the three
/// bytes of the `...` that marks a cut.
pub proof fn lemma_summary_single_line_and_short(raw: Seq<char>)
    requires
        summary_defined(raw),
    ensures
        single_line(output_summary(raw)),
        utf8_len(output_summary(raw)) <= summary_limit() + 3,
{
    reveal_strlit("<empty>");
    reveal_strlit("...");
    let n = normalized_output(raw);
    lemma_fold_single_line(trim(raw));
    if n.len() == 0 {
        assert(utf8_len("<empty>"@) == 7) by {
            reveal_with_fuel(utf8_len, 8);
        }
    } else if utf8_len(n) <= summary_limit() {
    } else {
        let k = chars_within_bytes(n, summary_limit() as int) as int;
        lemma_chars_within_bound(n, summary_limit() as int);
        let head = n.take(k);
        assert forall|i: int| 0 <= i < head.len() implies !is_line_break(#[trigger] head[i]) by {
            assert(head[i] == n[i]);
        }
        lemma_single_line_concat(head, "..."@);
        lemma_utf8_len_concat(head, "..."@);
        assert(utf8_len("..."@) == 3) by {
            reveal_with_fuel(utf8_len, 4);
        }
    }
}

proof fn lemma_chars_within_bound(s: Seq<char>, budget: int)
    ensures
        chars_within_bytes(s, budget) <= s.len(),
    decreases s.len(),
{
    if s.len() > 0 && utf8_width(s[0]) <= budget {
        lemma_chars_within_bound(s.drop_first(), budget - utf8_width(s[0]));
    }
}

/// The diagnostic text of an error.
pub open spec fn display_text(e: WslErrorView) -> Seq<char> {
    match e {
        WslErrorView::InvalidArgument { context, raw_output } => "invalid argument while running "@
            + context_name(context) + ": "@ + output_summary(raw_output),
        WslErrorView::FileNotFound => "file not found"@,
        WslErrorView::DistroNotFound => "distro not found"@,
        WslErrorView::DiskResizeFailed => "disk resize failed"@,
        WslErrorView::OperationNotPermitted { distro } => "operation not permitted for distro "@
            + distro,
        WslErrorView::UnknownWslError { context, code, .. } => "unknown WSL error in "@
            + context_name(context) + ": "@ + code,
        WslErrorView::RegistryReadFailed { key, detail } => "failed to read registry"@ + (match key {
            Some(k) => " key "@ + k,
            None => Seq::<char>::empty(),
        }) + ": "@ + detail,
        WslErrorView::OutputParseFailed { context, detail, raw_output } => "failed to parse "@
            + context_name(context) + " output: "@ + detail + " ("@ + output_summary(raw_output)
            + ")"@,
        WslErrorView::WslCommandTimedOut { context } => "wsl command timed out in "@
            + context_name(context),
        WslErrorView::ProcessFailed(detail) => "failed to start process: "@ + detail,
        WslErrorView::ProcessKilled => "process exited without a status code"@,
        WslErrorView::Cancelled => "process was cancelled"@,
    }
}

/// Every output summary the rendering of `e` needs is defined.
pub open spec fn renderable(e: WslErrorView) -> bool {
    match e {
        WslErrorView::InvalidArgument { raw_output, .. } => summary_defined(raw_output),
        WslErrorView::OutputParseFailed { raw_output, .. } => summary_defined(raw_output),
        _ => true,
    }
}

proof fn lemma_utf8_len_push(s: Seq<char>, c: char)
    ensures
        utf8_len(s.push(c)) == utf8_len(s) + utf8_width(c),
{
    assert(s.push(c).drop_last() =~= s);
}

proof fn lemma_utf8_len_take_le(s: Seq<char>, k: int)
    requires
        0 <= k <= s.len(),
    ensures
        utf8_len(s.take(k)) <= utf8_len(s),
    decreases s.len() - k,
{
    if k < s.len() {
        lemma_utf8_len_take_le(s, k + 1);
        assert(s.take(k + 1).drop_last() =~= s.take(k));
    } else {
        assert(s.take(k) =~= s);
    }
}

proof fn lemma_chars_within_step(s: Seq<char>, i: int, budget: int)
    requires
        0 <= i < s.len(),
        utf8_width(s[i]) <= budget,
    ensures
        chars_within_bytes(s.skip(i), budget) == 1 + chars_within_bytes(
            s.skip(i + 1),
            budget - utf8_width(s[i]),
        ),
{
    assert(s.skip(i).drop_first() =~= s.skip(i + 1));
}

pub fn char_utf8_width(c: char) -> (w: u64)
    ensures
        w == utf8_width(c),
{
    let u: u32 = c as u32;
    if u < 0x80 {
        1
    } else if u < 0x800 {
        2
    } else if u < 0x10000 {
        3
    } else {
        4
    }
}

proof fn lemma_fold_skip_pair(s: Seq<char>, i: int)
    requires
        0 <= i,
        i + 2 <= s.len(),
        s[i] == '\r',
        s[i + 1] == '\n',
    ensures
        fold_line_breaks(s.skip(i)) == " | "@ + fold_line_breaks(s.skip(i + 2)),
{
    assert(s.skip(i).skip(2) =~= s.skip(i + 2));
}

proof fn lemma_fold_skip_one(s: Seq<char>, i: int)
    requires
        0 <= i < s.len(),
        !(i + 2 <= s.len() && s[i] == '\r' && s[i + 1] == '\n'),
    ensures
        fold_line_breaks(s.skip(i)) == (if s[i] == '\r' || s[i] == '\n' {
            " | "@
        } else {
            seq![s[i]]
        }) + fold_line_breaks(s.skip(i + 1)),
{
    assert(s.skip(i).drop_first() =~= s.skip(i + 1));
}

/// Line breaks of `s` replaced by ` | `.
pub fn fold_line_breaks_chars(s: &Vec<char>) -> (r: Vec<char>)
    ensures
        r@ == fold_line_breaks(s@),
{
    let sep: Vec<char> = chars_of(" | ");
    let mut r: Vec<char> = Vec::new();
    let n: usize = s.len();
    let mut i: usize = 0;
    assert(s@.skip(0) =~= s@);
    assert(r@ =~= Seq::<char>::empty());
    while i < n
        invariant
            n == s.len(),
            i <= n,
            sep@ == " | "@,
            r@ + fold_line_breaks(s@.skip(i as int)) == fold_line_breaks(s@),
        decreases n - i,
    {
        let ghost before = r@;
        if i + 1 < n && s[i] == '\r' && s[i + 1] == '\n' {
            proof {
                lemma_fold_skip_pair(s@, i as int);
            }
            r = concat_chars(&r, &sep);
            assert(r@ + fold_line_breaks(s@.skip(i + 2)) == before + fold_line_breaks(
                s@.skip(i as int),
            ));
            i += 2;
        } else {
            proof {
                lemma_fold_skip_one(s@, i as int);
            }
            if s[i] == '\r' || s[i] == '\n' {
                r = concat_chars(&r, &sep);
            } else {
                r.push(s[i]);
                assert(r@ == before + seq![s@[i as int]]);
            }
            assert(r@ + fold_line_breaks(s@.skip(i + 1)) == before + fold_line_breaks(
                s@.skip(i as int),
            ));
            i += 1;
        }
    }
    assert(s@.skip(n as int).len() == 0);
    assert(r@ + fold_line_breaks(s@.skip(n as int)) =~= r@);
    r
}

/// How many leading characters of `n` fit in the summary limit, and their byte length.
fn summary_cut(n: &Vec<char>) -> (r: (usize, u64))
    ensures
        r.0 == chars_within_bytes(n@, summary_limit() as int),
        r.1 == utf8_len(n@.take(r.0 as int)),
        r.0 <= n.len(),
        r.0 == n.len() <==> utf8_len(n@) <= summary_limit(),
{
    let len: usize = n.len();
    let mut i: usize = 0;
    let mut bytes: u64 = 0;
    assert(n@.skip(0) =~= n@);
    assert(n@.take(0) =~= Seq::<char>::empty());
    while i < len && bytes + char_utf8_width(n[i]) <= 160
        invariant
            len == n.len(),
            i <= len,
            bytes <= 160,
            bytes == utf8_len(n@.take(i as int)),
            chars_within_bytes(n@, 160) == i + chars_within_bytes(
                n@.skip(i as int),
                160 - bytes,
            ),
        decreases len - i,
    {
        proof {
            lemma_chars_within_step(n@, i as int, 160 - bytes);
            lemma_utf8_len_push(n@.take(i as int), n@[i as int]);
            assert(n@.take(i as int).push(n@[i as int]) =~= n@.take(i + 1));
        }
        bytes = bytes + char_utf8_width(n[i]);
        i += 1;
    }
    if i == len {
        assert(n@.take(len as int) =~= n@);
        assert(n@.skip(len as int).len() == 0);
    } else {
        proof {
            assert(n@.skip(i as int)[0] == n@[i as int]);
            lemma_utf8_len_push(n@.take(i as int), n@[i as int]);
            assert(n@.take(i as int).push(n@[i as int]) =~= n@.take(i + 1));
            lemma_utf8_len_take_le(n@, i + 1);
        }
    }
    (i, bytes)
}

/// Whether the summary of the output is defined: a long output can be cut at
/// exactly the byte limit, without splitting a character.
pub fn summary_is_defined(raw_output: &str) -> (b: bool)
    ensures
        b == summary_defined(raw_output@),
{
    let t = trimmed_chars(raw_output);
    let n = fold_line_breaks_chars(&t);
    let (i, bytes): (usize, u64) = summary_cut(&n);
    i == n.len() || bytes == 160
}

/// A short, single-line summary of raw command output.
pub fn summarize_output(raw_output: &str) -> (r: String)
    requires
        summary_defined(raw_output@),
    ensures
        r@ == output_summary(raw_output@),
{
    let t = trimmed_chars(raw_output);
    let n = fold_line_breaks_chars(&t);
    if n.len() == 0 {
        return string_from("<empty>");
    }
    let (i, _bytes): (usize, u64) = summary_cut(&n);
    if i == n.len() {
        assert(n@.take(n.len() as int) =~= n@);
        string_of(&n)
    } else {
        let head = sub_chars(&n, 0, i);
        assert(head@ =~= n@.take(i as int));
        let tail = chars_of("...");
        let r = concat_chars(&head, &tail);
        string_of(&r)
    }
}

impl WslError {
    /// Whether the diagnostic rendering is defined: every output summary it
    /// needs can be cut without splitting a character.
    pub fn is_renderable(&self) -> (b: bool)
        ensures
            b == renderable(self@),
    {
        match self {
            WslError::InvalidArgument { raw_output, .. } => summary_is_defined(raw_output.as_str()),
            WslError::OutputParseFailed { raw_output, .. } => summary_is_defined(raw_output.as_str()),
            _ => true,
        }
    }

    /// The stable user-facing message.
    pub fn to_user_message(&self) -> (r: String)
        ensures
            r@ == user_message(self@),
    {
        match self {
            WslError::InvalidArgument { .. } => string_from(
                "The WSL command arguments are invalid.",
            ),
            WslError::FileNotFound => string_from("The specified file was not found."),
            WslError::DistroNotFound => string_from("The specified distro was not found."),
            WslError::DiskResizeFailed => string_from("Failed to resize the distro disk."),
            WslError::OperationNotPermitted { distro } => join3(
                "The requested operation is not permitted for distro `",
                distro.as_str(),
                "`.",
            ),
            WslError::UnknownWslError { code, .. } => join3(
                "The WSL command failed: ",
                code.as_str(),
                ".",
            ),
            WslError::RegistryReadFailed { .. } => string_from(
                "Failed to read WSL registry information.",
            ),
            WslError::OutputParseFailed { .. } => string_from(
                "Failed to parse WSL command output.",
            ),
            WslError::WslCommandTimedOut { .. } => string_from(
                "The WSL command timed out before a stable result was available.",
            ),
            WslError::ProcessFailed(_) => string_from("Failed to start the WSL command."),
            WslError::ProcessKilled => string_from(
                "The WSL command exited without a status code.",
            ),
            WslError::Cancelled => string_from("The operation was cancelled by the user."),
        }
    }

    /// The diagnostic rendering of the error (its display text).
    pub fn to_display_string(&self) -> (r: String)
        requires
            renderable(self@),
        ensures
            r@ == display_text(self@),
    {
        match self {
            WslError::InvalidArgument { context, raw_output } => {
                let mut r = join3("invalid argument while running ", context.as_str(), ": ");
                let summary = summarize_output(raw_output.as_str());
                r.append(summary.as_str());
                r
            },
            WslError::FileNotFound => string_from("file not found"),
            WslError::DistroNotFound => string_from("distro not found"),
            WslError::DiskResizeFailed => string_from("disk resize failed"),
            WslError::OperationNotPermitted { distro } => join2(
                "operation not permitted for distro ",
                distro.as_str(),
            ),
            WslError::UnknownWslError { context, code, .. } => {
                let mut r = join3("unknown WSL error in ", context.as_str(), ": ");
                r.append(code.as_str());
                r
            },
            WslError::RegistryReadFailed { key, detail } => {
                let mut r = string_from("failed to read registry");
                match key {
                    Some(k) => {
                        r.append(" key ");
                        r.append(k.as_str());
                    },
                    None => {},
                }
                r.append(": ");
                r.append(detail.as_str());
                r
            },
            WslError::OutputParseFailed { context, detail, raw_output } => {
                let mut r = join3("failed to parse ", context.as_str(), " output: ");
                r.append(detail.as_str());
                r.append(" (");
                let summary = summarize_output(raw_output.as_str());
                r.append(summary.as_str());
                r.append(")");
                r
            },
            WslError::WslCommandTimedOut { context } => join2(
                "wsl command timed out in ",
                context.as_str(),
            ),
            WslError::ProcessFailed(detail) => join2(
                "failed to start process: ",
                detail.as_str(),
            ),
            WslError::ProcessKilled => string_from("process exited without a status code"),
            WslError::Cancelled => string_from("process was cancelled"),
        }
    }
}

// ---------------------------------------------------------------------------
// Mapping of `Wsl/<CODE>` codes
// ---------------------------------------------------------------------------
/// Contexts in which `Wsl/Service/WSL_E_DISTRO_NOT_FOUND` means the distro is missing.
pub open spec fn distro_not_found_context(ctx: WslCommandContext) -> bool {
    ||| ctx == WslCommandContext::SetDefault
    ||| ctx == WslCommandContext::Terminate
    ||| ctx == WslCommandContext::Unregister
    ||| ctx == WslCommandContext::MoveDistro
    ||| ctx == WslCommandContext::ResizeDistro
    ||| ctx == WslCommandContext::Export
}

/// Contexts in which `Wsl/ERROR_FILE_NOT_FOUND` means the input file is missing.
pub open spec fn file_not_found_context(ctx: WslCommandContext) -> bool {
    ctx == WslCommandContext::Import || ctx == WslCommandContext::ImportInPlace
}

/// The error a `Wsl/<CODE>` code (trimmed) means in a context.
pub open spec fn mapped_wsl_error(
    ctx: WslCommandContext,
    code: Seq<char>,
    raw_output: Seq<char>,
) -> WslErrorView {
    let normalized = trim(code);
    if normalized == "Wsl/E_INVALIDARG"@ {
        WslErrorView::InvalidArgument { context: ctx, raw_output }
    } else if normalized == "Wsl/Service/WSL_E_DISTRO_NOT_FOUND"@ && distro_not_found_context(ctx) {
        WslErrorView::DistroNotFound
    } else if normalized == "Wsl/ERROR_FILE_NOT_FOUND"@ && file_not_found_context(ctx) {
        WslErrorView::FileNotFound
    } else if normalized == "Wsl/Service/E_FAIL"@ && ctx == WslCommandContext::ResizeDistro {
        WslErrorView::DiskResizeFailed
    } else {
        WslErrorView::UnknownWslError { context: ctx, code: normalized, raw_output }
    }
}

/// How `wsl.exe` error codes (surrounding whitespace ignored) map to domain
/// errors, command by command:
/// - `Wsl/E_INVALIDARG` is an invalid argument in every command, keeping the output;
/// - `Wsl/Service/WSL_E_DISTRO_NOT_FOUND` is a missing distro when setting the
///   default, terminating, unregistering, moving, resizing or exporting, and an
///   unknown error when installing, importing, listing, shutting down or asking the version;
/// - `Wsl/ERROR_FILE_NOT_FOUND` is a missing file when importing (in place or not);
/// - `Wsl/Service/E_FAIL` is a failed disk resize when resizing;
/// - any other code is an unknown error keeping the trimmed code and the output.
pub proof fn lemma_wsl_code_meanings(ctx: WslCommandContext, code: Seq<char>, raw_output: Seq<char>)
    ensures
        trim(code) == "Wsl/E_INVALIDARG"@ ==> mapped_wsl_error(ctx, code, raw_output)
            == (WslErrorView::InvalidArgument { context: ctx, raw_output }),
        trim(code) == "Wsl/Service/WSL_E_DISTRO_NOT_FOUND"@ && (ctx == WslCommandContext::SetDefault || ctx
            == WslCommandContext::Terminate || ctx == WslCommandContext::Unregister || ctx
            == WslCommandContext::MoveDistro || ctx == WslCommandContext::ResizeDistro || ctx
            == WslCommandContext::Export) ==> mapped_wsl_error(ctx, code, raw_output) == WslErrorView::DistroNotFound,
        trim(code) == "Wsl/Service/WSL_E_DISTRO_NOT_FOUND"@ && (ctx == WslCommandContext::Install || ctx
            == WslCommandContext::Import || ctx == WslCommandContext::ImportInPlace || ctx
            == WslCommandContext::ListVerbose || ctx == WslCommandContext::ListOnline || ctx
            == WslCommandContext::Shutdown || ctx == WslCommandContext::Version) ==> mapped_wsl_error(
            ctx,
            code,
            raw_output,
        ) == (WslErrorView::UnknownWslError { context: ctx, code: trim(code), raw_output }),
        trim(code) == "Wsl/ERROR_FILE_NOT_FOUND"@ && (ctx == WslCommandContext::Import || ctx
            == WslCommandContext::ImportInPlace) ==> mapped_wsl_error(ctx, code, raw_output)
            == WslErrorView::FileNotFound,
        trim(code) == "Wsl/ERROR_FILE_NOT_FOUND"@ && ctx != WslCommandContext::Import && ctx
            != WslCommandContext::ImportInPlace ==> mapped_wsl_error(ctx, code, raw_output)
            == (WslErrorView::UnknownWslError { context: ctx, code: trim(code), raw_output }),
        trim(code) == "Wsl/Service/E_FAIL"@ && ctx == WslCommandContext::ResizeDistro ==> mapped_wsl_error(
            ctx,
            code,
            raw_output,
        ) == WslErrorView::DiskResizeFailed,
        trim(code) == "Wsl/Service/E_FAIL"@ && ctx != WslCommandContext::ResizeDistro ==> mapped_wsl_error(
            ctx,
            code,
            raw_output,
        ) == (WslErrorView::UnknownWslError { context: ctx, code: trim(code), raw_output }),
        trim(code) != "Wsl/E_INVALIDARG"@ && trim(code) != "Wsl/Service/WSL_E_DISTRO_NOT_FOUND"@ && trim(code)
            != "Wsl/ERROR_FILE_NOT_FOUND"@ && trim(code) != "Wsl/Service/E_FAIL"@ ==> mapped_wsl_error(
            ctx,
            code,
            raw_output,
        ) == (WslErrorView::UnknownWslError { context: ctx, code: trim(code), raw_output }),
{
    reveal_strlit("Wsl/E_INVALIDARG");
    reveal_strlit("Wsl/Service/WSL_E_DISTRO_NOT_FOUND");
    reveal_strlit("Wsl/ERROR_FILE_NOT_FOUND");
    reveal_strlit("Wsl/Service/E_FAIL");
    assert("Wsl/Service/WSL_E_DISTRO_NOT_FOUND"@.len() != "Wsl/E_INVALIDARG"@.len());
    assert("Wsl/ERROR_FILE_NOT_FOUND"@.len() != "Wsl/E_INVALIDARG"@.len());
    assert("Wsl/ERROR_FILE_NOT_FOUND"@.len() != "Wsl/Service/WSL_E_DISTRO_NOT_FOUND"@.len());
    assert("Wsl/Service/E_FAIL"@.len() != "Wsl/E_INVALIDARG"@.len());
    assert("Wsl/Service/E_FAIL"@.len() != "Wsl/Service/WSL_E_DISTRO_NOT_FOUND"@.len());
    assert("Wsl/Service/E_FAIL"@.len() != "Wsl/ERROR_FILE_NOT_FOUND"@.len());
}

/// Maps a `Wsl/<CODE>` code reported by a command to a domain error.
pub fn map_wsl_error_with_output(ctx: WslCommandContext, code: &str, raw_output: String) -> (r:
    WslError)
    ensures
        r@ == mapped_wsl_error(ctx, code@, raw_output@),
{
    let normalized = string_of(&trimmed_chars(code));
    let n = normalized.as_str();
    if str_eq(n, "Wsl/E_INVALIDARG") {
        WslError::InvalidArgument { context: ctx, raw_output }
    } else if str_eq(n, "Wsl/Service/WSL_E_DISTRO_NOT_FOUND") && (ctx
        == WslCommandContext::SetDefault || ctx == WslCommandContext::Terminate || ctx
        == WslCommandContext::Unregister || ctx == WslCommandContext::MoveDistro || ctx
        == WslCommandContext::ResizeDistro || ctx == WslCommandContext::Export) {
        WslError::DistroNotFound
    } else if str_eq(n, "Wsl/ERROR_FILE_NOT_FOUND") && (ctx == WslCommandContext::Import || ctx
        == WslCommandContext::ImportInPlace) {
        WslError::FileNotFound
    } else if str_eq(n, "Wsl/Service/E_FAIL") && ctx == WslCommandContext::ResizeDistro {
        WslError::DiskResizeFailed
    } else {
        WslError::UnknownWslError { context: ctx, code: normalized, raw_output }
    }
}

/// Maps a `Wsl/<CODE>` code reported without output to a domain error.
pub fn map_wsl_error(ctx: WslCommandContext, code: &str) -> (r: WslError)
    ensures
        r@ == mapped_wsl_error(ctx, code@, Seq::<char>::empty()),
{
    map_wsl_error_with_output(ctx, code, String::new())
}

} // verus!
