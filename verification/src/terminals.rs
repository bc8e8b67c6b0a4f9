//! Terminal discovery: the fixed table of known terminals per family, and
//! the session that probes the machine for them one question at a time.

use crate::platform::OsFamily;
use vstd::prelude::*;

verus! {

/// One way to find a terminal on the machine.
pub enum CheckView {
    /// A file at `tail`, prefixed by the value of the environment variable
    /// `root` where one is named (an unset variable counts as empty).
    Path { root: Option<Seq<char>>, tail: Seq<char> },
    /// An executable that the command locator of the family resolves.
    Command { name: Seq<char> },
}

/// A known terminal: its slug, its display name and how to look for it.
pub struct CandidateView {
    pub id: Seq<char>,
    pub name: Seq<char>,
    pub checks: Seq<CheckView>,
}

/// One line of a detection report.
pub struct TerminalInfoView {
    pub id: Seq<char>,
    pub name: Seq<char>,
    pub available: bool,
}

/// One way to find a terminal, as the table holds it.
pub enum Check {
    Path { root: Option<String>, tail: String },
    Command { name: String },
}

impl View for Check {
    type V = CheckView;

    open spec fn view(&self) -> CheckView {
        match self {
            Check::Path { root, tail } => CheckView::Path {
                root: match root {
                    Some(var) => Some(var@),
                    None => None,
                },
                tail: tail@,
            },
            Check::Command { name } => CheckView::Command { name: name@ },
        }
    }
}

/// A known terminal, as the table holds it.
pub struct Candidate {
    pub id: String,
    pub name: String,
    pub checks: Vec<Check>,
}

/// The checks of a candidate, each as its view.
pub open spec fn check_views(checks: Seq<Check>) -> Seq<CheckView> {
    Seq::new(checks.len(), |i: int| checks[i]@)
}

impl View for Candidate {
    type V = CandidateView;

    open spec fn view(&self) -> CandidateView {
        CandidateView { id: self.id@, name: self.name@, checks: check_views(self.checks@) }
    }
}

/// The candidates of a table, each as its view.
pub open spec fn candidate_views(table: Seq<Candidate>) -> Seq<CandidateView> {
    Seq::new(table.len(), |i: int| table[i]@)
}

/// One line of a detection report: a terminal of the table, and whether
/// the machine offers it.
#[derive(Clone, Debug)]
pub struct TerminalInfo {
    pub id: String,
    pub name: String,
    pub available: bool,
}

impl View for TerminalInfo {
    type V = TerminalInfoView;

    open spec fn view(&self) -> TerminalInfoView {
        TerminalInfoView { id: self.id@, name: self.name@, available: self.available }
    }
}

/// The lines of a report, each as its view.
pub open spec fn terminal_views(report: Seq<TerminalInfo>) -> Seq<TerminalInfoView> {
    Seq::new(report.len(), |i: int| report[i]@)
}

/// A terminal that is found by resolving `command` alone.
pub open spec fn by_command(id: Seq<char>, name: Seq<char>, command: Seq<char>) -> CandidateView {
    CandidateView { id, name, checks: seq![CheckView::Command { name: command }] }
}

/// A file at a fixed place.
pub open spec fn fixed_path(tail: Seq<char>) -> CheckView {
    CheckView::Path { root: None, tail }
}

/// A file below the directory that an environment variable names.
pub open spec fn rooted_path(root: Seq<char>, tail: Seq<char>) -> CheckView {
    CheckView::Path { root: Some(root), tail }
}

/// The terminals of Windows.
pub open spec fn windows_candidates() -> Seq<CandidateView> {
    seq![
        by_command("cmd"@, "Command Prompt (cmd.exe)"@, "cmd"@),
        by_command("powershell"@, "PowerShell"@, "powershell"@),
        by_command("pwsh"@, "PowerShell Core (pwsh)"@, "pwsh"@),
        CandidateView {
            id: "git-bash"@,
            name: "Git Bash"@,
            checks: seq![
                rooted_path("ProgramFiles"@, "\\Git\\bin\\bash.exe"@),
                rooted_path("ProgramFiles(x86)"@, "\\Git\\bin\\bash.exe"@),
                fixed_path("C:\\Program Files\\Git\\bin\\bash.exe"@),
                fixed_path("C:\\Program Files (x86)\\Git\\bin\\bash.exe"@),
                CheckView::Command { name: "bash"@ },
            ],
        },
        CandidateView {
            id: "windows-terminal"@,
            name: "Windows Terminal"@,
            checks: seq![
                rooted_path("LOCALAPPDATA"@, "\\Microsoft\\WindowsApps\\wt.exe"@),
                CheckView::Command { name: "wt"@ },
            ],
        },
        CandidateView {
            id: "cmder"@,
            name: "Cmder"@,
            checks: seq![
                fixed_path("C:\\cmder\\Cmder.exe"@),
                fixed_path("C:\\tools\\cmder\\Cmder.exe"@),
            ],
        },
    ]
}

/// The terminals of macOS.
pub open spec fn macos_candidates() -> Seq<CandidateView> {
    seq![
        CandidateView {
            id: "terminal"@,
            name: "Terminal.app"@,
            checks: seq![fixed_path("/System/Applications/Utilities/Terminal.app"@)],
        },
        CandidateView {
            id: "iterm2"@,
            name: "iTerm2"@,
            checks: seq![fixed_path("/Applications/iTerm.app"@)],
        },
        by_command("zsh"@, "Zsh"@, "zsh"@),
        by_command("bash"@, "Bash"@, "bash"@),
    ]
}

/// The shells and terminal emulators of Linux.
pub open spec fn linux_candidates() -> Seq<CandidateView> {
    seq![
        by_command("bash"@, "Bash"@, "bash"@),
        by_command("zsh"@, "Zsh"@, "zsh"@),
        by_command("gnome-terminal"@, "GNOME Terminal"@, "gnome-terminal"@),
        by_command("konsole"@, "Konsole (KDE)"@, "konsole"@),
        by_command("xfce4-terminal"@, "XFCE Terminal"@, "xfce4-terminal"@),
        by_command("alacritty"@, "Alacritty"@, "alacritty"@),
        by_command("kitty"@, "Kitty"@, "kitty"@),
    ]
}

/// The one shell that is looked for on every other family.
pub open spec fn fallback_candidates() -> Seq<CandidateView> {
    seq![by_command("bash"@, "Bash"@, "bash"@)]
}

/// The fixed table of known terminals of a family, in the order in which
/// they are reported.
pub open spec fn candidates_of(family: OsFamily) -> Seq<CandidateView> {
    match family {
        OsFamily::Windows => windows_candidates(),
        OsFamily::MacOs => macos_candidates(),
        OsFamily::Linux => linux_candidates(),
        OsFamily::Other => fallback_candidates(),
    }
}

fn command_candidate(id: &str, name: &str, command: &str) -> (candidate: Candidate)
    ensures
        candidate@ == by_command(id@, name@, command@),
{
    let mut checks: Vec<Check> = Vec::new();
    checks.push(Check::Command { name: command.to_owned() });
    let candidate = Candidate { id: id.to_owned(), name: name.to_owned(), checks };
    assert(candidate@.checks =~= seq![CheckView::Command { name: command@ }]);
    candidate
}

fn fixed_path_check(tail: &str) -> (check: Check)
    ensures
        check@ == fixed_path(tail@),
{
    Check::Path { root: None, tail: tail.to_owned() }
}

fn rooted_path_check(root: &str, tail: &str) -> (check: Check)
    ensures
        check@ == rooted_path(root@, tail@),
{
    Check::Path { root: Some(root.to_owned()), tail: tail.to_owned() }
}

fn windows_table() -> (table: Vec<Candidate>)
    ensures
        candidate_views(table@) == windows_candidates(),
{
    let mut table: Vec<Candidate> = Vec::new();
    table.push(command_candidate("cmd", "Command Prompt (cmd.exe)", "cmd"));
    table.push(command_candidate("powershell", "PowerShell", "powershell"));
    table.push(command_candidate("pwsh", "PowerShell Core (pwsh)", "pwsh"));
    let mut git: Vec<Check> = Vec::new();
    git.push(rooted_path_check("ProgramFiles", "\\Git\\bin\\bash.exe"));
    git.push(rooted_path_check("ProgramFiles(x86)", "\\Git\\bin\\bash.exe"));
    git.push(fixed_path_check("C:\\Program Files\\Git\\bin\\bash.exe"));
    git.push(fixed_path_check("C:\\Program Files (x86)\\Git\\bin\\bash.exe"));
    git.push(Check::Command { name: "bash".to_owned() });
    let git_bash = Candidate { id: "git-bash".to_owned(), name: "Git Bash".to_owned(), checks: git };
    assert(git_bash@.checks =~= windows_candidates()[3].checks);
    table.push(git_bash);
    let mut wt: Vec<Check> = Vec::new();
    wt.push(rooted_path_check("LOCALAPPDATA", "\\Microsoft\\WindowsApps\\wt.exe"));
    wt.push(Check::Command { name: "wt".to_owned() });
    let windows_terminal = Candidate {
        id: "windows-terminal".to_owned(),
        name: "Windows Terminal".to_owned(),
        checks: wt,
    };
    assert(windows_terminal@.checks =~= windows_candidates()[4].checks);
    table.push(windows_terminal);
    let mut cm: Vec<Check> = Vec::new();
    cm.push(fixed_path_check("C:\\cmder\\Cmder.exe"));
    cm.push(fixed_path_check("C:\\tools\\cmder\\Cmder.exe"));
    let cmder = Candidate { id: "cmder".to_owned(), name: "Cmder".to_owned(), checks: cm };
    assert(cmder@.checks =~= windows_candidates()[5].checks);
    table.push(cmder);
    assert(candidate_views(table@) =~= windows_candidates());
    table
}

fn macos_table() -> (table: Vec<Candidate>)
    ensures
        candidate_views(table@) == macos_candidates(),
{
    let mut table: Vec<Candidate> = Vec::new();
    let mut app: Vec<Check> = Vec::new();
    app.push(fixed_path_check("/System/Applications/Utilities/Terminal.app"));
    let terminal = Candidate {
        id: "terminal".to_owned(),
        name: "Terminal.app".to_owned(),
        checks: app,
    };
    assert(terminal@.checks =~= macos_candidates()[0].checks);
    table.push(terminal);
    let mut iterm: Vec<Check> = Vec::new();
    iterm.push(fixed_path_check("/Applications/iTerm.app"));
    let iterm2 = Candidate { id: "iterm2".to_owned(), name: "iTerm2".to_owned(), checks: iterm };
    assert(iterm2@.checks =~= macos_candidates()[1].checks);
    table.push(iterm2);
    table.push(command_candidate("zsh", "Zsh", "zsh"));
    table.push(command_candidate("bash", "Bash", "bash"));
    assert(candidate_views(table@) =~= macos_candidates());
    table
}

fn linux_table() -> (table: Vec<Candidate>)
    ensures
        candidate_views(table@) == linux_candidates(),
{
    let mut table: Vec<Candidate> = Vec::new();
    table.push(command_candidate("bash", "Bash", "bash"));
    table.push(command_candidate("zsh", "Zsh", "zsh"));
    table.push(command_candidate("gnome-terminal", "GNOME Terminal", "gnome-terminal"));
    table.push(command_candidate("konsole", "Konsole (KDE)", "konsole"));
    table.push(command_candidate("xfce4-terminal", "XFCE Terminal", "xfce4-terminal"));
    table.push(command_candidate("alacritty", "Alacritty", "alacritty"));
    table.push(command_candidate("kitty", "Kitty", "kitty"));
    assert(candidate_views(table@) =~= linux_candidates());
    table
}

fn fallback_table() -> (table: Vec<Candidate>)
    ensures
        candidate_views(table@) == fallback_candidates(),
{
    let mut table: Vec<Candidate> = Vec::new();
    table.push(command_candidate("bash", "Bash", "bash"));
    assert(candidate_views(table@) =~= fallback_candidates());
    table
}

/// The table of known terminals of `family`.
pub fn terminal_candidates(family: OsFamily) -> (table: Vec<Candidate>)
    ensures
        candidate_views(table@) == candidates_of(family),
{
    match family {
        OsFamily::Windows => windows_table(),
        OsFamily::MacOs => macos_table(),
        OsFamily::Linux => linux_table(),
        OsFamily::Other => fallback_table(),
    }
}

/// Whether no two candidates of a table share a slug.
pub open spec fn distinct_ids(table: Seq<CandidateView>) -> bool {
    forall|i: int, j: int|
        0 <= i < j < table.len() ==> (#[trigger] table[i]).id != (#[trigger] table[j]).id
}

proof fn lemma_windows_ids()
    ensures
        distinct_ids(windows_candidates()),
{
    reveal_strlit("cmd");
    reveal_strlit("powershell");
    reveal_strlit("pwsh");
    reveal_strlit("git-bash");
    reveal_strlit("windows-terminal");
    reveal_strlit("cmder");
    let table = windows_candidates();
    assert(table[0].id.len() == 3);
    assert(table[1].id.len() == 10);
    assert(table[2].id.len() == 4);
    assert(table[3].id.len() == 8);
    assert(table[4].id.len() == 16);
    assert(table[5].id.len() == 5);
}

proof fn lemma_macos_ids()
    ensures
        distinct_ids(macos_candidates()),
{
    reveal_strlit("terminal");
    reveal_strlit("iterm2");
    reveal_strlit("zsh");
    reveal_strlit("bash");
    let table = macos_candidates();
    assert(table[0].id.len() == 8);
    assert(table[1].id.len() == 6);
    assert(table[2].id.len() == 3);
    assert(table[3].id.len() == 4);
}

proof fn lemma_linux_ids()
    ensures
        distinct_ids(linux_candidates()),
{
    reveal_strlit("bash");
    reveal_strlit("zsh");
    reveal_strlit("gnome-terminal");
    reveal_strlit("konsole");
    reveal_strlit("xfce4-terminal");
    reveal_strlit("alacritty");
    reveal_strlit("kitty");
    let table = linux_candidates();
    assert(table[0].id.len() == 4);
    assert(table[1].id.len() == 3);
    assert(table[2].id.len() == 14 && table[2].id[0] == 'g');
    assert(table[3].id.len() == 7);
    assert(table[4].id.len() == 14 && table[4].id[0] == 'x');
    assert(table[5].id.len() == 9);
    assert(table[6].id.len() == 5);
}

/// The table of every family names at least one terminal, and no two of its
/// terminals share a slug.
pub proof fn lemma_candidate_ids_distinct(family: OsFamily)
    ensures
        candidates_of(family).len() > 0,
        distinct_ids(candidates_of(family)),
{
    match family {
        OsFamily::Windows => lemma_windows_ids(),
        OsFamily::MacOs => lemma_macos_ids(),
        OsFamily::Linux => lemma_linux_ids(),
        OsFamily::Other => {},
    }
}

} // verus!
