//! The "open in this app" entry of the file manager: the registry keys of
//! the Windows context menu and the launcher file of the Linux desktop.
//!
//! Installing, removing and querying the entry are sessions. A session names
//! one operation on the machine at a time and is resumed with what came of
//! it; it ends with the outcome of the whole request.

use crate::platform::{same_text, OsFamily};
use vstd::prelude::*;

verus! {

/// Whether a family has a mechanism for the entry at all.
pub open spec fn supported(family: OsFamily) -> bool {
    family == OsFamily::Windows || family == OsFamily::Linux
}

/// The text of the entry in the language of `locale`: Chinese for `zh`,
/// English for every other value.
pub open spec fn menu_label_text(locale: Seq<char>) -> Seq<char> {
    if locale == "zh"@ {
        "在前端项目 & Node 管理器中打开"@
    } else {
        "Open in Project & Node Manager"@
    }
}

/// What the caller is told on a family without a mechanism.
pub open spec fn guidance_text() -> Seq<char> {
    "Not supported on this platform yet. Please use 'Open With' system configuration."@
}

/// `child` below `base`, as a Unix path is extended: an absolute `child`
/// stands alone, and a separator is added unless `base` is empty or ends
/// with one.
pub open spec fn joined_text(base: Seq<char>, child: Seq<char>) -> Seq<char> {
    if child.len() > 0 && child[0] == '/' {
        child
    } else if base.len() > 0 && base.last() != '/' {
        base + seq!['/'] + child
    } else {
        base + child
    }
}

/// The directory of the user's launcher files.
pub open spec fn applications_dir_text(home: Seq<char>) -> Seq<char> {
    joined_text(home, ".local/share/applications"@)
}

/// The launcher file of the entry.
pub open spec fn desktop_file_text(home: Seq<char>) -> Seq<char> {
    joined_text(applications_dir_text(home), "fp-node-manager-context.desktop"@)
}

/// The launcher file's content: an application that opens a directory with
/// the executable and is not listed among the applications.
pub open spec fn desktop_entry_text(label: Seq<char>, exe: Seq<char>) -> Seq<char> {
    "[Desktop Entry]\nType=Application\nName="@ + label + "\nExec=\""@ + exe
        + "\" \"%f\"\nIcon=folder-open\nNoDisplay=true\nMimeType=inode/directory;\n"@
}

/// The two registry keys of the entry, below the current user's root: the
/// menu of a directory for 0, the menu of a directory's background for
/// every other number.
pub open spec fn menu_key_text(key: u8) -> Seq<char> {
    if key == 0 {
        "Software\\Classes\\Directory\\shell\\fp-node-manager"@
    } else {
        "Software\\Classes\\Directory\\Background\\shell\\fp-node-manager"@
    }
}

/// The subkey that holds the command of a menu key.
pub open spec fn command_key_text(key: u8) -> Seq<char> {
    menu_key_text(key) + "\\command"@
}

/// The command of the entry: the executable, then the selected directory.
pub open spec fn launch_command_text(exe: Seq<char>) -> Seq<char> {
    "\""@ + exe + "\" \"%V\""@
}

/// The file mode of the launcher file.
pub const LAUNCHER_MODE: u32 = 0o755;

/// Whether `family` has a mechanism for the entry.
pub fn is_context_menu_supported(family: OsFamily) -> (yes: bool)
    ensures
        yes == supported(family),
{
    match family {
        OsFamily::Windows => true,
        OsFamily::Linux => true,
        _ => false,
    }
}

/// The text of the entry in the language of `locale`.
pub fn menu_label(locale: &str) -> (label: String)
    ensures
        label@ == menu_label_text(locale@),
{
    if same_text(locale, "zh") {
        "在前端项目 & Node 管理器中打开".to_owned()
    } else {
        "Open in Project & Node Manager".to_owned()
    }
}

/// `child` below `base`, as a Unix path is extended.
pub fn join_path(base: &str, child: &str) -> (path: String)
    ensures
        path@ == joined_text(base@, child@),
{
    let child_len = child.unicode_len();
    if child_len > 0 && child.get_char(0) == '/' {
        return child.to_owned();
    }
    let base_len = base.unicode_len();
    let mut path = base.to_owned();
    if base_len > 0 && base.get_char(base_len - 1) != '/' {
        proof {
            reveal_strlit("/");
            assert("/"@ =~= seq!['/']);
        }
        path.append("/");
    }
    path.append(child);
    path
}

/// The directory of the launcher files of the user whose home is `home`.
pub fn applications_dir(home: &str) -> (path: String)
    ensures
        path@ == applications_dir_text(home@),
{
    join_path(home, ".local/share/applications")
}

/// The path of the launcher file of the entry.
pub fn desktop_file(home: &str) -> (path: String)
    ensures
        path@ == desktop_file_text(home@),
{
    let dir = applications_dir(home);
    join_path(dir.as_str(), "fp-node-manager-context.desktop")
}

/// The content of the launcher file.
pub fn desktop_entry(label: &str, exe: &str) -> (content: String)
    ensures
        content@ == desktop_entry_text(label@, exe@),
{
    let mut content = "[Desktop Entry]\nType=Application\nName=".to_owned();
    content.append(label);
    content.append("\nExec=\"");
    content.append(exe);
    content.append("\" \"%f\"\nIcon=folder-open\nNoDisplay=true\nMimeType=inode/directory;\n");
    content
}

/// The registry key of the menu of a directory (0) or of its background.
pub fn menu_key(key: u8) -> (path: String)
    ensures
        path@ == menu_key_text(key),
{
    if key == 0 {
        "Software\\Classes\\Directory\\shell\\fp-node-manager".to_owned()
    } else {
        "Software\\Classes\\Directory\\Background\\shell\\fp-node-manager".to_owned()
    }
}

/// The registry key that holds the command of a menu key.
pub fn command_key(key: u8) -> (path: String)
    ensures
        path@ == command_key_text(key),
{
    let mut path = menu_key(key);
    path.append("\\command");
    path
}

/// The command line that opens the selected directory with `exe`.
pub fn launch_command(exe: &str) -> (command: String)
    ensures
        command@ == launch_command_text(exe@),
{
    let mut command = "\"".to_owned();
    command.append(exe);
    command.append("\" \"%V\"");
    command
}

/// Why a request for the entry failed.
pub enum MenuErrorView {
    /// An operation on the machine failed; the text is the machine's.
    Io { message: Seq<char> },
    /// The path of the running executable is not text.
    InvalidPath,
    /// The family has no mechanism for the entry.
    NotSupported,
}

/// Why a request for the entry failed, as it is handed out.
pub enum MenuError {
    Io { message: String },
    InvalidPath,
    NotSupported,
}

impl View for MenuError {
    type V = MenuErrorView;

    open spec fn view(&self) -> MenuErrorView {
        match self {
            MenuError::Io { message } => MenuErrorView::Io { message: message@ },
            MenuError::InvalidPath => MenuErrorView::InvalidPath,
            MenuError::NotSupported => MenuErrorView::NotSupported,
        }
    }
}

/// The text that describes an error to the caller.
pub open spec fn error_text(error: MenuErrorView) -> Seq<char> {
    match error {
        MenuErrorView::Io { message } => message,
        MenuErrorView::InvalidPath => "Invalid path"@,
        MenuErrorView::NotSupported => guidance_text(),
    }
}

impl MenuError {
    /// The text that describes the error to the caller.
    pub fn message(&self) -> (text: String)
        ensures
            text@ == error_text(self@),
    {
        match self {
            MenuError::Io { message } => message.clone(),
            MenuError::InvalidPath => "Invalid path".to_owned(),
            MenuError::NotSupported => {
                "Not supported on this platform yet. Please use 'Open With' system configuration.".to_owned()
            },
        }
    }
}

/// An operation on the machine.
pub enum MenuActionView {
    /// Read the environment variable `HOME`.
    ReadHome,
    /// Resolve the path of the running executable.
    ResolveExecutable,
    /// Say whether anything exists at a path.
    PathExists { path: Seq<char> },
    /// Create a directory and the directories above it.
    CreateDirAll { path: Seq<char> },
    /// Create a file, or empty the one that is there, and write its content.
    WriteFile { path: Seq<char>, content: Seq<char> },
    /// Set the permission bits of a file.
    SetMode { path: Seq<char>, mode: u32 },
    /// Delete a file.
    RemoveFile { path: Seq<char> },
    /// Run `update-desktop-database` on a directory.
    RefreshDesktopDatabase { dir: Seq<char> },
    /// Say whether a key below the current user's root can be opened.
    KeyExists { key: Seq<char> },
    /// Create a key below the current user's root, or open the one that is
    /// there.
    CreateKey { key: Seq<char> },
    /// Set a text value of a key; the empty name is the key's default value.
    SetValue { key: Seq<char>, name: Seq<char>, data: Seq<char> },
    /// Delete a key with everything below it.
    DeleteTree { key: Seq<char> },
}

/// An operation on the machine, as the session hands it out.
pub enum MenuAction {
    ReadHome,
    ResolveExecutable,
    PathExists { path: String },
    CreateDirAll { path: String },
    WriteFile { path: String, content: String },
    SetMode { path: String, mode: u32 },
    RemoveFile { path: String },
    RefreshDesktopDatabase { dir: String },
    KeyExists { key: String },
    CreateKey { key: String },
    SetValue { key: String, name: String, data: String },
    DeleteTree { key: String },
}

impl View for MenuAction {
    type V = MenuActionView;

    open spec fn view(&self) -> MenuActionView {
        match self {
            MenuAction::ReadHome => MenuActionView::ReadHome,
            MenuAction::ResolveExecutable => MenuActionView::ResolveExecutable,
            MenuAction::PathExists { path } => MenuActionView::PathExists { path: path@ },
            MenuAction::CreateDirAll { path } => MenuActionView::CreateDirAll { path: path@ },
            MenuAction::WriteFile { path, content } => MenuActionView::WriteFile {
                path: path@,
                content: content@,
            },
            MenuAction::SetMode { path, mode } => MenuActionView::SetMode {
                path: path@,
                mode: *mode,
            },
            MenuAction::RemoveFile { path } => MenuActionView::RemoveFile { path: path@ },
            MenuAction::RefreshDesktopDatabase { dir } => MenuActionView::RefreshDesktopDatabase {
                dir: dir@,
            },
            MenuAction::KeyExists { key } => MenuActionView::KeyExists { key: key@ },
            MenuAction::CreateKey { key } => MenuActionView::CreateKey { key: key@ },
            MenuAction::SetValue { key, name, data } => MenuActionView::SetValue {
                key: key@,
                name: name@,
                data: data@,
            },
            MenuAction::DeleteTree { key } => MenuActionView::DeleteTree { key: key@ },
        }
    }
}

/// What came of an operation.
pub enum MenuReplyView {
    /// It succeeded, or what was asked about exists. `text` is the value
    /// that was read, and empty for every other operation.
    Done { text: Seq<char> },
    /// It failed, or what was asked about does not exist. `message` is the
    /// machine's description, where there is one.
    Failed { message: Seq<char> },
    /// A value was there and is not text.
    NotText,
}

/// What came of an operation, as the session takes it.
pub enum MenuReply {
    Done { text: String },
    Failed { message: String },
    NotText,
}

impl View for MenuReply {
    type V = MenuReplyView;

    open spec fn view(&self) -> MenuReplyView {
        match self {
            MenuReply::Done { text } => MenuReplyView::Done { text: text@ },
            MenuReply::Failed { message } => MenuReplyView::Failed { message: message@ },
            MenuReply::NotText => MenuReplyView::NotText,
        }
    }
}

/// The reply to an operation that succeeded and read nothing.
pub open spec fn done_reply() -> MenuReplyView {
    MenuReplyView::Done { text: Seq::empty() }
}

/// The reply to an operation that failed, with the machine's description.
pub open spec fn failed_reply(message: Seq<char>) -> MenuReplyView {
    MenuReplyView::Failed { message }
}

/// The reply that says whether what was asked about exists.
pub open spec fn existence_reply(exists: bool) -> MenuReplyView {
    if exists {
        done_reply()
    } else {
        failed_reply(Seq::empty())
    }
}

impl MenuReply {
    /// The reply to a probe: `Done` where what was asked about exists.
    pub fn of_existence(exists: bool) -> (reply: MenuReply)
        ensures
            reply@ == existence_reply(exists),
    {
        if exists {
            MenuReply::Done { text: String::new() }
        } else {
            MenuReply::Failed { message: String::new() }
        }
    }

    /// The reply to an operation that reads nothing: `Done` where it
    /// succeeded, `Failed` with the machine's description where it did not.
    pub fn of_outcome(outcome: Result<(), String>) -> (reply: MenuReply)
        ensures
            outcome is Ok ==> reply@ == done_reply(),
            outcome is Err ==> reply@ == failed_reply(outcome->Err_0@),
    {
        match outcome {
            Ok(_) => MenuReply::Done { text: String::new() },
            Err(message) => MenuReply::Failed { message },
        }
    }
}

/// The operation that a session waits for.
#[derive(Clone, Copy, Debug, PartialEq, Eq, Structural)]
pub enum MenuStage {
    /// Installing the launcher file: `HOME` is being read.
    InstallHome,
    /// The launcher directory is being looked for.
    DirProbe,
    /// The launcher directory is being created.
    DirCreate,
    /// The executable is being resolved for the launcher file.
    LauncherExe,
    /// The launcher file is being written.
    LauncherWrite,
    /// The launcher file is being made executable.
    LauncherMode,
    /// The desktop database is being refreshed after a change.
    Refresh,
    /// Removing the launcher file: `HOME` is being read, to find the file.
    RemoveHome,
    /// The launcher file is being looked for, to be removed.
    RemoveProbe,
    /// The launcher file is being deleted.
    RemoveFile,
    /// Querying the launcher file: `HOME` is being read.
    QueryHome,
    /// The launcher file is being looked for.
    QueryFile,
    /// The executable is being resolved, to write the registry keys.
    RegistryExe,
    /// Step `op` of writing menu key `key`.
    RegistryWrite { key: u8, op: u8 },
    /// Menu key `key` is being looked for, to be deleted.
    RegistryProbe { key: u8 },
    /// Menu key `key`, which is there, is being deleted.
    RegistryDelete { key: u8 },
    /// A menu key is being looked for.
    QueryKey,
}

/// A session: the operation it waits for and the texts it has gathered.
pub struct MenuSessionView {
    pub stage: MenuStage,
    pub label: Seq<char>,
    pub home: Seq<char>,
    pub exe: Seq<char>,
}

/// A request in progress. It is made by `set_context_menu` or
/// `check_context_menu` and moves on by `resume` alone.
pub struct MenuSession {
    stage: MenuStage,
    label: String,
    home: String,
    exe: String,
}

impl View for MenuSession {
    type V = MenuSessionView;

    closed spec fn view(&self) -> MenuSessionView {
        MenuSessionView { stage: self.stage, label: self.label@, home: self.home@, exe: self.exe@ }
    }
}

/// What a session wants next, or how the request ended.
pub enum MenuTurnView {
    Perform { session: MenuSessionView, action: MenuActionView },
    Finished { outcome: Result<(), MenuErrorView> },
    Answered { installed: bool },
}

/// What a session wants next, or how the request ended, as it is handed
/// out.
pub enum MenuTurn {
    /// Perform `action` and resume `session` with what came of it.
    Perform { session: MenuSession, action: MenuAction },
    /// The end of a request to install or remove the entry.
    Finished { outcome: Result<(), MenuError> },
    /// The end of a query: whether the entry is installed.
    Answered { installed: bool },
}

impl View for MenuTurn {
    type V = MenuTurnView;

    open spec fn view(&self) -> MenuTurnView {
        match self {
            MenuTurn::Perform { session, action } => MenuTurnView::Perform {
                session: session@,
                action: action@,
            },
            MenuTurn::Finished { outcome } => MenuTurnView::Finished {
                outcome: match outcome {
                    Ok(_) => Ok(()),
                    Err(error) => Err(error@),
                },
            },
            MenuTurn::Answered { installed } => MenuTurnView::Answered { installed: *installed },
        }
    }
}

/// The session at `stage` with the texts of `session`.
pub open spec fn staged(session: MenuSessionView, stage: MenuStage) -> MenuSessionView {
    MenuSessionView { stage, label: session.label, home: session.home, exe: session.exe }
}

/// The turn that performs `action` and waits for it at `stage`.
pub open spec fn perform(
    session: MenuSessionView,
    stage: MenuStage,
    action: MenuActionView,
) -> MenuTurnView {
    MenuTurnView::Perform { session: staged(session, stage), action }
}

/// The error that a reply other than `Done` stands for.
pub open spec fn failure(reply: MenuReplyView) -> MenuErrorView {
    match reply {
        MenuReplyView::Failed { message } => MenuErrorView::Io { message },
        MenuReplyView::NotText => MenuErrorView::InvalidPath,
        MenuReplyView::Done { text } => MenuErrorView::Io { message: Seq::empty() },
    }
}

/// The end of a request on a failed operation.
pub open spec fn aborted(reply: MenuReplyView) -> MenuTurnView {
    MenuTurnView::Finished { outcome: Err(failure(reply)) }
}

/// The end of a request that did what it was asked.
pub open spec fn completed() -> MenuTurnView {
    MenuTurnView::Finished { outcome: Ok(()) }
}

/// Step `op` of writing menu key `key`: the key, its label, its icon, the
/// command subkey, the command.
pub open spec fn registry_write(
    key: u8,
    op: u8,
    label: Seq<char>,
    exe: Seq<char>,
) -> MenuActionView {
    if op == 0 {
        MenuActionView::CreateKey { key: menu_key_text(key) }
    } else if op == 1 {
        MenuActionView::SetValue { key: menu_key_text(key), name: Seq::empty(), data: label }
    } else if op == 2 {
        MenuActionView::SetValue { key: menu_key_text(key), name: "Icon"@, data: exe }
    } else if op == 3 {
        MenuActionView::CreateKey { key: command_key_text(key) }
    } else {
        MenuActionView::SetValue {
            key: command_key_text(key),
            name: Seq::empty(),
            data: launch_command_text(exe),
        }
    }
}

/// The turn that performs step `op` of writing menu key `key`.
pub open spec fn writing(session: MenuSessionView, key: u8, op: u8) -> MenuTurnView {
    perform(
        session,
        MenuStage::RegistryWrite { key, op },
        registry_write(key, op, session.label, session.exe),
    )
}

/// The turn that looks for menu key `key`, to delete it.
pub open spec fn probing(session: MenuSessionView, key: u8) -> MenuTurnView {
    perform(
        session,
        MenuStage::RegistryProbe { key },
        MenuActionView::KeyExists { key: menu_key_text(key) },
    )
}

/// The turn after menu key `key` has been dealt with in a removal: the
/// other key, or the end.
pub open spec fn key_removed(session: MenuSessionView, key: u8) -> MenuTurnView {
    if key == 0 {
        probing(session, 1)
    } else {
        completed()
    }
}

/// The turn that deletes menu key `key`.
pub open spec fn deleting(session: MenuSessionView, key: u8) -> MenuTurnView {
    perform(
        session,
        MenuStage::RegistryDelete { key },
        MenuActionView::DeleteTree { key: menu_key_text(key) },
    )
}

/// The turn that refreshes the desktop database.
pub open spec fn refreshing(session: MenuSessionView) -> MenuTurnView {
    perform(
        session,
        MenuStage::Refresh,
        MenuActionView::RefreshDesktopDatabase { dir: applications_dir_text(session.home) },
    )
}

/// The session with `home` as the user's home directory.
pub open spec fn at_home(session: MenuSessionView, home: Seq<char>) -> MenuSessionView {
    MenuSessionView { stage: session.stage, label: session.label, home, exe: session.exe }
}

/// The session with `exe` as the path of the executable.
pub open spec fn with_exe(session: MenuSessionView, exe: Seq<char>) -> MenuSessionView {
    MenuSessionView { stage: session.stage, label: session.label, home: session.home, exe }
}

/// The session's move on what came of the operation it asked for last.
///
/// A failed operation ends the request with its error, and no later
/// operation is asked for. Nothing is undone: what the operations before it
/// wrote or deleted stays as they left it, so a request that fails midway
/// can leave a part of the entry behind, and the caller who gets the error
/// has to count on that. Two kinds of operation cannot fail the request: a
/// probe, whose failure means absence, and the refresh of the desktop
/// database, which is advisory.
///
/// A removal deletes only what a probe has found, so it succeeds where
/// nothing is installed: without `HOME` there is no launcher file to look
/// for, and an absent registry key is passed over. A deletion of what the
/// probe did find fails the request where it fails.
pub open spec fn menu_resumed(session: MenuSessionView, reply: MenuReplyView) -> MenuTurnView {
    let done = reply is Done;
    match session.stage {
        MenuStage::InstallHome => match reply {
            MenuReplyView::Done { text } => perform(
                at_home(session, text),
                MenuStage::DirProbe,
                MenuActionView::PathExists { path: applications_dir_text(text) },
            ),
            _ => MenuTurnView::Finished {
                outcome: Err(MenuErrorView::Io { message: "HOME not set"@ }),
            },
        },
        MenuStage::DirProbe => if done {
            perform(session, MenuStage::LauncherExe, MenuActionView::ResolveExecutable)
        } else {
            perform(
                session,
                MenuStage::DirCreate,
                MenuActionView::CreateDirAll { path: applications_dir_text(session.home) },
            )
        },
        MenuStage::DirCreate => if done {
            perform(session, MenuStage::LauncherExe, MenuActionView::ResolveExecutable)
        } else {
            aborted(reply)
        },
        MenuStage::LauncherExe => match reply {
            MenuReplyView::Done { text } => perform(
                with_exe(session, text),
                MenuStage::LauncherWrite,
                MenuActionView::WriteFile {
                    path: desktop_file_text(session.home),
                    content: desktop_entry_text(session.label, text),
                },
            ),
            _ => aborted(reply),
        },
        MenuStage::LauncherWrite => if done {
            perform(
                session,
                MenuStage::LauncherMode,
                MenuActionView::SetMode {
                    path: desktop_file_text(session.home),
                    mode: LAUNCHER_MODE,
                },
            )
        } else {
            aborted(reply)
        },
        MenuStage::LauncherMode => if done {
            refreshing(session)
        } else {
            aborted(reply)
        },
        MenuStage::Refresh => completed(),
        MenuStage::RemoveHome => match reply {
            MenuReplyView::Done { text } => perform(
                at_home(session, text),
                MenuStage::RemoveProbe,
                MenuActionView::PathExists { path: desktop_file_text(text) },
            ),
            _ => completed(),
        },
        MenuStage::RemoveProbe => if done {
            perform(
                session,
                MenuStage::RemoveFile,
                MenuActionView::RemoveFile { path: desktop_file_text(session.home) },
            )
        } else {
            completed()
        },
        MenuStage::RemoveFile => if done {
            refreshing(session)
        } else {
            aborted(reply)
        },
        MenuStage::QueryHome => match reply {
            MenuReplyView::Done { text } => perform(
                at_home(session, text),
                MenuStage::QueryFile,
                MenuActionView::PathExists { path: desktop_file_text(text) },
            ),
            _ => MenuTurnView::Answered { installed: false },
        },
        MenuStage::QueryFile => MenuTurnView::Answered { installed: done },
        MenuStage::RegistryExe => match reply {
            MenuReplyView::Done { text } => writing(with_exe(session, text), 0, 0),
            _ => aborted(reply),
        },
        MenuStage::RegistryWrite { key, op } => if !done {
            aborted(reply)
        } else if op < 4 {
            writing(session, key, (op + 1) as u8)
        } else if key == 0 {
            writing(session, 1, 0)
        } else {
            completed()
        },
        MenuStage::RegistryProbe { key } => if done {
            deleting(session, key)
        } else {
            key_removed(session, key)
        },
        MenuStage::RegistryDelete { key } => if done {
            key_removed(session, key)
        } else {
            aborted(reply)
        },
        MenuStage::QueryKey => MenuTurnView::Answered { installed: done },
    }
}

/// A session at `stage` that has gathered nothing but the label.
pub open spec fn opening(stage: MenuStage, label: Seq<char>) -> MenuSessionView {
    MenuSessionView { stage, label, home: Seq::empty(), exe: Seq::empty() }
}

/// The first turn of a request to install (`enable`) or remove the entry.
/// On a family without a mechanism the request ends at once, with
/// `NotSupported`. Only an installation resolves the executable.
pub open spec fn set_started(family: OsFamily, enable: bool, locale: Seq<char>) -> MenuTurnView {
    let label = menu_label_text(locale);
    match family {
        OsFamily::Linux => MenuTurnView::Perform {
            session: opening(
                if enable {
                    MenuStage::InstallHome
                } else {
                    MenuStage::RemoveHome
                },
                label,
            ),
            action: MenuActionView::ReadHome,
        },
        OsFamily::Windows => if enable {
            MenuTurnView::Perform {
                session: opening(MenuStage::RegistryExe, label),
                action: MenuActionView::ResolveExecutable,
            }
        } else {
            probing(opening(MenuStage::RegistryProbe { key: 0 }, label), 0)
        },
        _ => MenuTurnView::Finished { outcome: Err(MenuErrorView::NotSupported) },
    }
}

/// The first turn of a query. On a family without a mechanism the answer is
/// no, at once.
pub open spec fn check_started(family: OsFamily) -> MenuTurnView {
    match family {
        OsFamily::Linux => MenuTurnView::Perform {
            session: opening(MenuStage::QueryHome, Seq::empty()),
            action: MenuActionView::ReadHome,
        },
        OsFamily::Windows => MenuTurnView::Perform {
            session: opening(MenuStage::QueryKey, Seq::empty()),
            action: MenuActionView::KeyExists { key: menu_key_text(0) },
        },
        _ => MenuTurnView::Answered { installed: false },
    }
}

fn done(reply: &MenuReply) -> (yes: bool)
    ensures
        yes == (reply@ is Done),
{
    match reply {
        MenuReply::Done { .. } => true,
        _ => false,
    }
}

fn abort(reply: MenuReply) -> (turn: MenuTurn)
    ensures
        turn@ == aborted(reply@),
{
    let error = match reply {
        MenuReply::Failed { message } => MenuError::Io { message },
        MenuReply::NotText => MenuError::InvalidPath,
        MenuReply::Done { .. } => MenuError::Io { message: String::new() },
    };
    MenuTurn::Finished { outcome: Err(error) }
}

fn home_missing() -> (turn: MenuTurn)
    ensures
        turn@ == (MenuTurnView::Finished {
            outcome: Err(MenuErrorView::Io { message: "HOME not set"@ }),
        }),
{
    MenuTurn::Finished { outcome: Err(MenuError::Io { message: "HOME not set".to_owned() }) }
}

fn complete() -> (turn: MenuTurn)
    ensures
        turn@ == completed(),
{
    MenuTurn::Finished { outcome: Ok(()) }
}

fn open_session(stage: MenuStage, label: String) -> (session: MenuSession)
    ensures
        session@ == opening(stage, label@),
{
    MenuSession { stage, label, home: String::new(), exe: String::new() }
}

impl MenuSession {
    fn ask(self, stage: MenuStage, action: MenuAction) -> (turn: MenuTurn)
        ensures
            turn@ == perform(self@, stage, action@),
    {
        let session = MenuSession { stage, label: self.label, home: self.home, exe: self.exe };
        MenuTurn::Perform { session, action }
    }

    fn settled_at(self, home: String) -> (session: MenuSession)
        ensures
            session@ == at_home(self@, home@),
    {
        MenuSession { stage: self.stage, label: self.label, home, exe: self.exe }
    }

    fn resolved(self, exe: String) -> (session: MenuSession)
        ensures
            session@ == with_exe(self@, exe@),
    {
        MenuSession { stage: self.stage, label: self.label, home: self.home, exe }
    }

    fn write(self, key: u8, op: u8) -> (turn: MenuTurn)
        ensures
            turn@ == writing(self@, key, op),
    {
        let action = if op == 0 {
            MenuAction::CreateKey { key: menu_key(key) }
        } else if op == 1 {
            MenuAction::SetValue { key: menu_key(key), name: String::new(), data: self.label.clone() }
        } else if op == 2 {
            MenuAction::SetValue { key: menu_key(key), name: "Icon".to_owned(), data: self.exe.clone() }
        } else if op == 3 {
            MenuAction::CreateKey { key: command_key(key) }
        } else {
            MenuAction::SetValue {
                key: command_key(key),
                name: String::new(),
                data: launch_command(self.exe.as_str()),
            }
        };
        self.ask(MenuStage::RegistryWrite { key, op }, action)
    }

    fn probe_key(self, key: u8) -> (turn: MenuTurn)
        ensures
            turn@ == probing(self@, key),
    {
        let action = MenuAction::KeyExists { key: menu_key(key) };
        self.ask(MenuStage::RegistryProbe { key }, action)
    }

    fn after_key(self, key: u8) -> (turn: MenuTurn)
        ensures
            turn@ == key_removed(self@, key),
    {
        if key == 0 {
            self.probe_key(1)
        } else {
            complete()
        }
    }

    fn delete(self, key: u8) -> (turn: MenuTurn)
        ensures
            turn@ == deleting(self@, key),
    {
        let action = MenuAction::DeleteTree { key: menu_key(key) };
        self.ask(MenuStage::RegistryDelete { key }, action)
    }

    fn refresh(self) -> (turn: MenuTurn)
        ensures
            turn@ == refreshing(self@),
    {
        let action = MenuAction::RefreshDesktopDatabase { dir: applications_dir(self.home.as_str()) };
        self.ask(MenuStage::Refresh, action)
    }

    /// Takes what came of the operation that the session asked for last and
    /// names the next one, or ends the request.
    pub fn resume(self, reply: MenuReply) -> (turn: MenuTurn)
        ensures
            turn@ == menu_resumed(self@, reply@),
    {
        match self.stage {
            MenuStage::InstallHome => match reply {
                MenuReply::Done { text } => {
                    let action = MenuAction::PathExists { path: applications_dir(text.as_str()) };
                    self.settled_at(text).ask(MenuStage::DirProbe, action)
                },
                _ => home_missing(),
            },
            MenuStage::DirProbe => if done(&reply) {
                self.ask(MenuStage::LauncherExe, MenuAction::ResolveExecutable)
            } else {
                let action = MenuAction::CreateDirAll { path: applications_dir(self.home.as_str()) };
                self.ask(MenuStage::DirCreate, action)
            },
            MenuStage::DirCreate => if done(&reply) {
                self.ask(MenuStage::LauncherExe, MenuAction::ResolveExecutable)
            } else {
                abort(reply)
            },
            MenuStage::LauncherExe => match reply {
                MenuReply::Done { text } => {
                    let action = MenuAction::WriteFile {
                        path: desktop_file(self.home.as_str()),
                        content: desktop_entry(self.label.as_str(), text.as_str()),
                    };
                    self.resolved(text).ask(MenuStage::LauncherWrite, action)
                },
                _ => abort(reply),
            },
            MenuStage::LauncherWrite => if done(&reply) {
                let action = MenuAction::SetMode {
                    path: desktop_file(self.home.as_str()),
                    mode: LAUNCHER_MODE,
                };
                self.ask(MenuStage::LauncherMode, action)
            } else {
                abort(reply)
            },
            MenuStage::LauncherMode => if done(&reply) {
                self.refresh()
            } else {
                abort(reply)
            },
            MenuStage::Refresh => complete(),
            MenuStage::RemoveHome => match reply {
                MenuReply::Done { text } => {
                    let action = MenuAction::PathExists { path: desktop_file(text.as_str()) };
                    self.settled_at(text).ask(MenuStage::RemoveProbe, action)
                },
                _ => complete(),
            },
            MenuStage::RemoveProbe => if done(&reply) {
                let action = MenuAction::RemoveFile { path: desktop_file(self.home.as_str()) };
                self.ask(MenuStage::RemoveFile, action)
            } else {
                complete()
            },
            MenuStage::RemoveFile => if done(&reply) {
                self.refresh()
            } else {
                abort(reply)
            },
            MenuStage::QueryHome => match reply {
                MenuReply::Done { text } => {
                    let action = MenuAction::PathExists { path: desktop_file(text.as_str()) };
                    self.settled_at(text).ask(MenuStage::QueryFile, action)
                },
                _ => MenuTurn::Answered { installed: false },
            },
            MenuStage::QueryFile => MenuTurn::Answered { installed: done(&reply) },
            MenuStage::RegistryExe => match reply {
                MenuReply::Done { text } => self.resolved(text).write(0, 0),
                _ => abort(reply),
            },
            MenuStage::RegistryWrite { key, op } => if !done(&reply) {
                abort(reply)
            } else if op < 4 {
                self.write(key, op + 1)
            } else if key == 0 {
                self.write(1, 0)
            } else {
                complete()
            },
            MenuStage::RegistryProbe { key } => if done(&reply) {
                self.delete(key)
            } else {
                self.after_key(key)
            },
            MenuStage::RegistryDelete { key } => if done(&reply) {
                self.after_key(key)
            } else {
                abort(reply)
            },
            MenuStage::QueryKey => MenuTurn::Answered { installed: done(&reply) },
        }
    }
}

/// Starts a request to install (`enable`) or remove the entry, labelled in
/// the language of `locale`.
pub fn set_context_menu(family: OsFamily, enable: bool, locale: &str) -> (turn: MenuTurn)
    ensures
        turn@ == set_started(family, enable, locale@),
{
    let label = menu_label(locale);
    match family {
        OsFamily::Linux => {
            let stage = if enable {
                MenuStage::InstallHome
            } else {
                MenuStage::RemoveHome
            };
            MenuTurn::Perform { session: open_session(stage, label), action: MenuAction::ReadHome }
        },
        OsFamily::Windows => if enable {
            MenuTurn::Perform {
                session: open_session(MenuStage::RegistryExe, label),
                action: MenuAction::ResolveExecutable,
            }
        } else {
            open_session(MenuStage::RegistryProbe { key: 0 }, label).probe_key(0)
        },
        _ => MenuTurn::Finished { outcome: Err(MenuError::NotSupported) },
    }
}

/// Starts a query for the entry.
pub fn check_context_menu(family: OsFamily) -> (turn: MenuTurn)
    ensures
        turn@ == check_started(family),
{
    match family {
        OsFamily::Linux => MenuTurn::Perform {
            session: open_session(MenuStage::QueryHome, String::new()),
            action: MenuAction::ReadHome,
        },
        OsFamily::Windows => MenuTurn::Perform {
            session: open_session(MenuStage::QueryKey, String::new()),
            action: MenuAction::KeyExists { key: menu_key(0) },
        },
        _ => MenuTurn::Answered { installed: false },
    }
}

/// Whether a session at this stage belongs to a query.
pub open spec fn querying(stage: MenuStage) -> bool {
    stage is QueryHome || stage is QueryFile || stage is QueryKey
}

/// Whether a turn is one of a query (`query`) or one of a request to install
/// or remove the entry: a query ends with an answer, a request with an
/// outcome.
pub open spec fn turn_of(turn: MenuTurnView, query: bool) -> bool {
    match turn {
        MenuTurnView::Perform { session, action } => querying(session.stage) == query,
        MenuTurnView::Finished { outcome } => !query,
        MenuTurnView::Answered { installed } => query,
    }
}

/// A request to install or remove the entry starts as one, and a query as a
/// query.
pub proof fn lemma_first_turn_kind(family: OsFamily, enable: bool, locale: Seq<char>)
    ensures
        turn_of(set_started(family, enable, locale), false),
        turn_of(check_started(family), true),
{
}

/// A session stays what it is: no request to install or remove the entry
/// ends with an answer, and no query with an outcome.
pub proof fn lemma_resumed_turn_kind(session: MenuSessionView, reply: MenuReplyView)
    ensures
        turn_of(menu_resumed(session, reply), querying(session.stage)),
{
}

/// Whether a failed operation at this stage fails the request. It does not
/// for a probe, for reading `HOME` where the entry is to be removed, and
/// for the refresh of the desktop database.
pub open spec fn binding(stage: MenuStage) -> bool {
    match stage {
        MenuStage::InstallHome
        | MenuStage::DirCreate
        | MenuStage::LauncherExe
        | MenuStage::LauncherWrite
        | MenuStage::LauncherMode
        | MenuStage::RemoveFile
        | MenuStage::RegistryExe
        | MenuStage::RegistryWrite { .. }
        | MenuStage::RegistryDelete { .. } => true,
        _ => false,
    }
}

/// A failed operation that binds ends the request with an error, and asks
/// for no further operation.
pub proof fn lemma_failure_ends_request(session: MenuSessionView, reply: MenuReplyView)
    requires
        binding(session.stage),
        !(reply is Done),
    ensures
        menu_resumed(session, reply) matches MenuTurnView::Finished { outcome: Err(_) },
{
}

/// An operation that does not bind never fails the request, whatever came
/// of it; and no success of any operation does.
pub proof fn lemma_only_failures_fail(session: MenuSessionView, reply: MenuReplyView)
    requires
        !binding(session.stage) || reply is Done,
    ensures
        !(menu_resumed(session, reply) matches MenuTurnView::Finished { outcome: Err(_) }),
{
}

/// How far a stage is from the end of its request, at most.
pub open spec fn stage_rank(stage: MenuStage) -> nat {
    match stage {
        MenuStage::InstallHome => 7,
        MenuStage::DirProbe => 6,
        MenuStage::DirCreate => 5,
        MenuStage::LauncherExe => 4,
        MenuStage::LauncherWrite => 3,
        MenuStage::LauncherMode => 2,
        MenuStage::Refresh => 1,
        MenuStage::RemoveHome => 4,
        MenuStage::RemoveProbe => 3,
        MenuStage::RemoveFile => 2,
        MenuStage::QueryHome => 2,
        MenuStage::QueryFile => 1,
        MenuStage::RegistryExe => 11,
        MenuStage::RegistryWrite { key, op } => {
            let keys: nat = if key == 0 {
                5
            } else {
                0
            };
            let steps: nat = if op < 4 {
                (5 - op) as nat
            } else {
                1
            };
            keys + steps
        },
        MenuStage::RegistryProbe { key } => if key == 0 {
            4
        } else {
            2
        },
        MenuStage::RegistryDelete { key } => if key == 0 {
            3
        } else {
            1
        },
        MenuStage::QueryKey => 1,
    }
}

/// Every request ends, whatever comes of its operations: a resumed session
/// either ends the request or asks for an operation at a stage that is
/// strictly nearer to the end. No stage is farther from it than eleven
/// operations.
pub proof fn lemma_resume_lowers_rank(session: MenuSessionView, reply: MenuReplyView)
    ensures
        stage_rank(session.stage) <= 11,
        menu_resumed(session, reply) matches MenuTurnView::Perform { session: next, .. }
            ==> stage_rank(next.stage) < stage_rank(session.stage),
{
}

} // verus!
