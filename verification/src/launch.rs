//! Programs the application starts for the user: a terminal, Explorer or VS Code
//! inside a distro, and the interactive installer of a legacy distro.
//!
//! A launch is described as plain data (program, arguments, whether it needs a
//! console of its own); starting the process is left to the caller.
use vstd::prelude::*;

use crate::text::{contains_whitespace, has_whitespace, is_blank, join2, join3, string_from, string_of, trim, trimmed_chars};

verus! {

/// A program to start, with its arguments.
#[derive(Debug, Clone)]
pub struct LaunchCommand {
    pub program: String,
    pub args: Vec<String>,
    /// Whether the program is given a console window of its own.
    pub new_console: bool,
}

/// A [`LaunchCommand`] as plain text values.
pub struct LaunchCommandView {
    pub program: Seq<char>,
    pub args: Seq<Seq<char>>,
    pub new_console: bool,
}

impl View for LaunchCommand {
    type V = LaunchCommandView;

    open spec fn view(&self) -> LaunchCommandView {
        LaunchCommandView {
            program: self.program@,
            args: self.args@.map_values(|a: String| a@),
            new_console: self.new_console,
        }
    }
}

/// The launch of `program` with `args`, in the console of the caller.
pub open spec fn launch_view(program: Seq<char>, args: Seq<Seq<char>>) -> LaunchCommandView {
    LaunchCommandView { program, args, new_console: false }
}

/// The launch of `program` with `args`, in a console window of its own.
pub open spec fn console_launch_view(program: Seq<char>, args: Seq<Seq<char>>) -> LaunchCommandView {
    LaunchCommandView { program, args, new_console: true }
}

/// The arguments that open VS Code on a distro through its remote WSL authority.
pub open spec fn vscode_remote_args(distro: Seq<char>) -> Seq<Seq<char>> {
    seq!["--remote"@, "wsl+"@ + distro]
}

fn args_of1(a: String) -> (v: Vec<String>)
    ensures
        v@.map_values(|s: String| s@) == seq![a@],
{
    let mut v: Vec<String> = Vec::new();
    v.push(a);
    assert(v@.map_values(|s: String| s@) =~= seq![a@]);
    v
}

fn args_of2(a: String, b: String) -> (v: Vec<String>)
    ensures
        v@.map_values(|s: String| s@) == seq![a@, b@],
{
    let mut v: Vec<String> = Vec::new();
    v.push(a);
    v.push(b);
    assert(v@.map_values(|s: String| s@) =~= seq![a@, b@]);
    v
}

fn args_of4(a: String, b: String, c: String, d: String) -> (v: Vec<String>)
    ensures
        v@.map_values(|s: String| s@) == seq![a@, b@, c@, d@],
{
    let mut v: Vec<String> = Vec::new();
    v.push(a);
    v.push(b);
    v.push(c);
    v.push(d);
    assert(v@.map_values(|s: String| s@) =~= seq![a@, b@, c@, d@]);
    v
}

/// The message of a launch request without a distro name.
pub open spec fn distro_required_message() -> Seq<char> {
    "Distro name is required."@
}

/// The distro name of a launch request: the given text trimmed; blank text is refused.
pub fn normalize_distro_name(distro: &str) -> (r: Result<String, String>)
    ensures
        trim(distro@).len() == 0 ==> (r matches Err(e) && e@ == distro_required_message()),
        trim(distro@).len() > 0 ==> (r matches Ok(name) && name@ == trim(distro@)),
{
    let t = trimmed_chars(distro);
    if t.len() == 0 {
        return Err(string_from("Distro name is required."));
    }
    Ok(string_of(&t))
}

/// The check on the distro name of a legacy install: it must not be blank, and
/// must hold no whitespace at all.
pub fn validate_legacy_distro_name(distro: &str) -> (r: Result<(), String>)
    ensures
        trim(distro@).len() == 0 ==> (r matches Err(e) && e@ == distro_required_message()),
        trim(distro@).len() > 0 && has_whitespace(distro@) ==> (r matches Err(e) && e@
            == "Distro name cannot contain whitespace."@),
        trim(distro@).len() > 0 && !has_whitespace(distro@) ==> r is Ok,
{
    if is_blank(distro) {
        return Err(string_from("Distro name is required."));
    }
    if contains_whitespace(distro) {
        return Err(string_from("Distro name cannot contain whitespace."));
    }
    Ok(())
}

/// `wsl.exe --install <distro>`, in a console of its own so the installer can ask questions.
pub fn build_legacy_install_command(distro: &str) -> (c: LaunchCommand)
    ensures
        c@ == console_launch_view("wsl.exe"@, seq!["--install"@, distro@]),
{
    LaunchCommand {
        program: string_from("wsl.exe"),
        args: args_of2(string_from("--install"), string_from(distro)),
        new_console: true,
    }
}

/// A new Windows Terminal tab running the distro's shell.
pub fn build_distro_terminal_command(distro: &str) -> (c: LaunchCommand)
    ensures
        c@ == launch_view("wt.exe"@, seq!["new-tab"@, "wsl.exe"@, "-d"@, distro@]),
{
    LaunchCommand {
        program: string_from("wt.exe"),
        args: args_of4(string_from("new-tab"), string_from("wsl.exe"), string_from("-d"), string_from(distro)),
        new_console: false,
    }
}

/// The distro's shell run by `wsl.exe` directly, in a console of its own.
pub fn build_distro_terminal_fallback_command(distro: &str) -> (c: LaunchCommand)
    ensures
        c@ == console_launch_view("wsl.exe"@, seq!["-d"@, distro@]),
{
    LaunchCommand {
        program: string_from("wsl.exe"),
        args: args_of2(string_from("-d"), string_from(distro)),
        new_console: true,
    }
}

/// Explorer on the home directory of the distro's share.
pub fn build_distro_explorer_command(distro: &str) -> (c: LaunchCommand)
    ensures
        c@ == launch_view("explorer.exe"@, seq!["\\\\wsl$\\"@ + distro@ + "\\home"@]),
{
    LaunchCommand {
        program: string_from("explorer.exe"),
        args: args_of1(join3("\\\\wsl$\\", distro, "\\home")),
        new_console: false,
    }
}

/// VS Code started by its `code` launcher on the distro.
pub fn build_distro_vscode_command(distro: &str) -> (c: LaunchCommand)
    ensures
        c@ == launch_view("code"@, vscode_remote_args(distro@)),
{
    build_distro_vscode_exe_command(string_from("code"), distro)
}

/// VS Code started by its `code.cmd` launcher on the distro.
pub fn build_distro_vscode_fallback_command(distro: &str) -> (c: LaunchCommand)
    ensures
        c@ == launch_view("code.cmd"@, vscode_remote_args(distro@)),
{
    build_distro_vscode_exe_command(string_from("code.cmd"), distro)
}

/// VS Code started from the given executable on the distro.
pub fn build_distro_vscode_exe_command(path: String, distro: &str) -> (c: LaunchCommand)
    ensures
        c@ == launch_view(path@, vscode_remote_args(distro@)),
{
    LaunchCommand { program: path, args: args_of2(string_from("--remote"), join2("wsl+", distro)), new_console: false }
}

/// The ways to open a terminal in the distro, in the order they are tried.
pub fn terminal_launch_commands(distro: &str) -> (v: Vec<LaunchCommand>)
    ensures
        v.len() == 2,
        v[0]@ == launch_view("wt.exe"@, seq!["new-tab"@, "wsl.exe"@, "-d"@, distro@]),
        v[1]@ == console_launch_view("wsl.exe"@, seq!["-d"@, distro@]),
{
    let mut v: Vec<LaunchCommand> = Vec::new();
    v.push(build_distro_terminal_command(distro));
    v.push(build_distro_terminal_fallback_command(distro));
    v
}

/// The ways to open VS Code on the distro, in the order they are tried: the
/// `code` and `code.cmd` launchers, then each of the given executables.
pub fn vscode_launch_commands(distro: &str, executables: Vec<String>) -> (v: Vec<LaunchCommand>)
    ensures
        v.len() == executables.len() + 2,
        v[0]@ == launch_view("code"@, vscode_remote_args(distro@)),
        v[1]@ == launch_view("code.cmd"@, vscode_remote_args(distro@)),
        forall|i: int|
            0 <= i < executables.len() ==> (#[trigger] v[i + 2])@ == launch_view(
                executables[i]@,
                vscode_remote_args(distro@),
            ),
{
    let mut v: Vec<LaunchCommand> = Vec::new();
    v.push(build_distro_vscode_command(distro));
    v.push(build_distro_vscode_fallback_command(distro));
    let ghost exes = executables@;
    let mut rest = executables;
    let mut i: usize = 0;
    let n: usize = rest.len();
    // Take the executables from the back so each is moved, not copied.
    let mut tail: Vec<LaunchCommand> = Vec::new();
    while rest.len() > 0
        invariant
            n == exes.len(),
            rest@ == exes.take(rest.len() as int),
            tail.len() + rest.len() == n,
            forall|k: int|
                0 <= k < tail.len() ==> (#[trigger] tail[k])@ == launch_view(
                    exes[n - 1 - k]@,
                    vscode_remote_args(distro@),
                ),
        decreases rest.len(),
    {
        let path = rest.pop().unwrap();
        assert(path == exes[rest.len() as int]);
        tail.push(build_distro_vscode_exe_command(path, distro));
        assert(rest@ =~= exes.take(rest.len() as int));
    }
    while i < n
        invariant
            n == exes.len(),
            tail.len() + i == n,
            i <= n,
            v.len() == i + 2,
            v[0]@ == launch_view("code"@, vscode_remote_args(distro@)),
            v[1]@ == launch_view("code.cmd"@, vscode_remote_args(distro@)),
            forall|k: int|
                0 <= k < tail.len() ==> (#[trigger] tail[k])@ == launch_view(
                    exes[n - 1 - k]@,
                    vscode_remote_args(distro@),
                ),
            forall|k: int|
                0 <= k < i ==> (#[trigger] v[k + 2])@ == launch_view(exes[k]@, vscode_remote_args(distro@)),
        decreases n - i,
    {
        let c = tail.pop().unwrap();
        v.push(c);
        i += 1;
    }
    v
}

/// What to do next while trying launch candidates in order.
#[derive(Debug, Clone, Copy, PartialEq, Eq, Structural)]
pub enum LaunchStep {
    /// Start the candidate at this index.
    Spawn(usize),
    /// A candidate started: the launch succeeded.
    Launched,
    /// Every candidate failed to start, or there was none.
    Failed,
}

/// The first step of trying `count` candidates.
pub fn first_launch_step(count: usize) -> (s: LaunchStep)
    ensures
        count > 0 ==> s == LaunchStep::Spawn(0),
        count == 0 ==> s == LaunchStep::Failed,
{
    if count > 0 {
        LaunchStep::Spawn(0)
    } else {
        LaunchStep::Failed
    }
}

/// The step after an attempt to start candidate `index` of `count`: done when it
/// started, else the next candidate, else failure.
pub fn launch_step_after(index: usize, count: usize, started: bool) -> (s: LaunchStep)
    requires
        index < count,
    ensures
        started ==> s == LaunchStep::Launched,
        !started && index + 1 < count ==> s == LaunchStep::Spawn((index + 1) as usize),
        !started && index + 1 == count ==> s == LaunchStep::Failed,
{
    if started {
        LaunchStep::Launched
    } else if index + 1 < count {
        LaunchStep::Spawn(index + 1)
    } else {
        LaunchStep::Failed
    }
}

/// The place a launch opens, which names its failure.
#[derive(Debug, Clone, Copy, PartialEq, Eq, Structural)]
pub enum LaunchTarget {
    Terminal,
    Explorer,
    VsCode,
    LegacyInstall,
}

impl LaunchTarget {
    /// The message shown when nothing could be started.
    pub open spec fn failure_text(self) -> Seq<char> {
        match self {
            LaunchTarget::Terminal => "Failed to open distro terminal."@,
            LaunchTarget::Explorer => "Failed to open distro in Explorer."@,
            LaunchTarget::VsCode => "Failed to open distro in VS Code."@,
            LaunchTarget::LegacyInstall => "Failed to open legacy install terminal."@,
        }
    }

    /// The message shown when nothing could be started.
    pub fn failure_message(&self) -> (m: String)
        ensures
            m@ == self.failure_text(),
    {
        match self {
            LaunchTarget::Terminal => string_from("Failed to open distro terminal."),
            LaunchTarget::Explorer => string_from("Failed to open distro in Explorer."),
            LaunchTarget::VsCode => string_from("Failed to open distro in VS Code."),
            LaunchTarget::LegacyInstall => string_from("Failed to open legacy install terminal."),
        }
    }
}

} // verus!
