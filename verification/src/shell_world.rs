//! A model of the machine that holds the entry, and the laws of installing,
//! removing and querying it on that model.
//!
//! The model is a machine on which an operation fails only for what the
//! model itself holds: a file where a directory is wanted, a directory where
//! a file is wanted, a key or a file that is not there, a deletion that the
//! machine refuses. It does not tie a file to the directory it lies in.

use crate::context_menu::{
    applications_dir_text, check_started, command_key_text, completed, deleting,
    desktop_entry_text, desktop_file_text, done_reply, existence_reply, failed_reply,
    launch_command_text, menu_key_text, menu_label_text, menu_resumed, set_started, supported,
    with_exe, writing, MenuActionView, MenuErrorView, MenuReplyView, MenuSessionView,
    MenuTurnView, LAUNCHER_MODE,
};
use crate::platform::OsFamily;
use vstd::prelude::*;

verus! {

/// What a machine holds at one moment, as far as the entry is concerned.
pub struct ShellWorld {
    /// The value of `HOME`, where it is set.
    pub home: Option<Seq<char>>,
    /// The path of the running executable, where it can be resolved.
    pub exe: Option<Seq<char>>,
    /// Whether `update-desktop-database` can be run.
    pub database_tool: bool,
    /// The directories.
    pub dirs: Set<Seq<char>>,
    /// The files, with their content.
    pub files: Map<Seq<char>, Seq<char>>,
    /// The permission bits that were set on files.
    pub modes: Map<Seq<char>, u32>,
    /// The registry keys below the current user's root, with their values.
    pub keys: Map<Seq<char>, Map<Seq<char>, Seq<char>>>,
    /// The files and registry keys that the machine refuses to delete.
    pub undeletable: Set<Seq<char>>,
}

/// The reply that hands out a value, where there is one.
pub open spec fn value_of(value: Option<Seq<char>>) -> MenuReplyView {
    match value {
        Some(text) => MenuReplyView::Done { text },
        None => failed_reply(Seq::empty()),
    }
}

/// Whether `key` is `root` or lies below it.
pub open spec fn below(key: Seq<char>, root: Seq<char>) -> bool {
    key == root || (key.len() > root.len() && key.subrange(0, root.len() as int) == root
        && key[root.len() as int] == '\\')
}

/// The machine with other directories.
pub open spec fn with_dirs(world: ShellWorld, dirs: Set<Seq<char>>) -> ShellWorld {
    ShellWorld { dirs, ..world }
}

/// The machine with other files and modes.
pub open spec fn with_files(
    world: ShellWorld,
    files: Map<Seq<char>, Seq<char>>,
    modes: Map<Seq<char>, u32>,
) -> ShellWorld {
    ShellWorld { files, modes, ..world }
}

/// The machine with another registry.
pub open spec fn with_keys(
    world: ShellWorld,
    keys: Map<Seq<char>, Map<Seq<char>, Seq<char>>>,
) -> ShellWorld {
    ShellWorld { keys, ..world }
}

/// The machine after an operation, and the reply to it.
pub open spec fn performed(world: ShellWorld, action: MenuActionView) -> (ShellWorld, MenuReplyView) {
    match action {
        MenuActionView::ReadHome => (world, value_of(world.home)),
        MenuActionView::ResolveExecutable => (world, value_of(world.exe)),
        MenuActionView::PathExists { path } => (
            world,
            existence_reply(world.dirs.contains(path) || world.files.dom().contains(path)),
        ),
        MenuActionView::CreateDirAll { path } => if world.files.dom().contains(path) {
            (world, failed_reply(Seq::empty()))
        } else {
            (with_dirs(world, world.dirs.insert(path)), done_reply())
        },
        MenuActionView::WriteFile { path, content } => if world.dirs.contains(path) {
            (world, failed_reply(Seq::empty()))
        } else {
            (with_files(world, world.files.insert(path, content), world.modes), done_reply())
        },
        MenuActionView::SetMode { path, mode } => if world.files.dom().contains(path) {
            (with_files(world, world.files, world.modes.insert(path, mode)), done_reply())
        } else {
            (world, failed_reply(Seq::empty()))
        },
        MenuActionView::RemoveFile { path } => if world.files.dom().contains(path)
            && !world.undeletable.contains(path) {
            (with_files(world, world.files.remove(path), world.modes.remove(path)), done_reply())
        } else {
            (world, failed_reply(Seq::empty()))
        },
        MenuActionView::RefreshDesktopDatabase { dir } => (world, existence_reply(world.database_tool)),
        MenuActionView::KeyExists { key } => (world, existence_reply(world.keys.dom().contains(key))),
        MenuActionView::CreateKey { key } => if world.keys.dom().contains(key) {
            (world, done_reply())
        } else {
            (with_keys(world, world.keys.insert(key, Map::empty())), done_reply())
        },
        MenuActionView::SetValue { key, name, data } => if world.keys.dom().contains(key) {
            (with_keys(world, world.keys.insert(key, world.keys[key].insert(name, data))), done_reply())
        } else {
            (world, failed_reply(Seq::empty()))
        },
        MenuActionView::DeleteTree { key } => if world.keys.dom().contains(key)
            && !world.undeletable.contains(key) {
            (with_keys(world, tree_deleted(world.keys, key)), done_reply())
        } else {
            (world, failed_reply(Seq::empty()))
        },
    }
}

/// No request asks for more operations than this.
pub open spec fn operation_bound() -> nat {
    11
}

/// The end of a request: its last turn, and the machine it leaves.
pub struct MenuEnd {
    pub turn: MenuTurnView,
    pub world: ShellWorld,
}

/// How a request ends on a machine, if it ends within `fuel` operations.
pub open spec fn menu_outcome(turn: MenuTurnView, world: ShellWorld, fuel: nat) -> Option<MenuEnd>
    decreases fuel,
{
    match turn {
        MenuTurnView::Perform { session, action } => if fuel == 0 {
            None
        } else {
            let (next, reply) = performed(world, action);
            menu_outcome(menu_resumed(session, reply), next, (fuel - 1) as nat)
        },
        _ => Some(MenuEnd { turn, world }),
    }
}

/// How a request to install or remove the entry ends on a machine.
pub open spec fn set_outcome(
    family: OsFamily,
    enable: bool,
    locale: Seq<char>,
    world: ShellWorld,
) -> Option<MenuEnd> {
    menu_outcome(set_started(family, enable, locale), world, operation_bound())
}

/// How a query ends on a machine.
pub open spec fn check_outcome(family: OsFamily, world: ShellWorld) -> Option<MenuEnd> {
    menu_outcome(check_started(family), world, operation_bound())
}

/// A machine on which the entry can be installed: the executable resolves
/// and, for the launcher file, `HOME` is set, no directory stands where the
/// file belongs and no file stands where its directory belongs.
pub open spec fn cooperative(family: OsFamily, world: ShellWorld) -> bool {
    match family {
        OsFamily::Linux => {
            &&& world.home is Some
            &&& world.exe is Some
            &&& !world.dirs.contains(desktop_file_text(world.home->0))
            &&& !world.files.dom().contains(applications_dir_text(world.home->0))
        },
        OsFamily::Windows => world.exe is Some,
        _ => false,
    }
}

/// A machine on which the entry can be removed: where `HOME` is set, no
/// directory stands where the launcher file belongs and the machine does not
/// refuse to delete the file; the machine does not refuse to delete either
/// menu key. Whether the executable resolves does not matter.
pub open spec fn removable(family: OsFamily, world: ShellWorld) -> bool {
    match family {
        OsFamily::Linux => world.home is Some ==> {
            &&& !world.dirs.contains(desktop_file_text(world.home->0))
            &&& !world.undeletable.contains(desktop_file_text(world.home->0))
        },
        OsFamily::Windows => {
            &&& !world.undeletable.contains(menu_key_text(0))
            &&& !world.undeletable.contains(menu_key_text(1))
        },
        _ => false,
    }
}

/// No path of the machine is both a directory and a file.
pub open spec fn sound(world: ShellWorld) -> bool {
    forall|path: Seq<char>| !(world.dirs.contains(path) && #[trigger] world.files.dom().contains(path))
}

/// Whether anything exists at a path of the machine.
pub open spec fn exists_at(world: ShellWorld, path: Seq<char>) -> bool {
    world.dirs.contains(path) || world.files.dom().contains(path)
}

/// Whether the entry is on the machine: the launcher file, or the menu key
/// of a directory.
pub open spec fn entry_present(family: OsFamily, world: ShellWorld) -> bool {
    match family {
        OsFamily::Linux => world.home is Some && exists_at(
            world,
            desktop_file_text(world.home->0),
        ),
        OsFamily::Windows => world.keys.dom().contains(menu_key_text(0)),
        _ => false,
    }
}

/// The machine with the launcher file written: its directory made where
/// nothing stood at its place, its content, its mode.
pub open spec fn launcher_installed(world: ShellWorld, label: Seq<char>) -> ShellWorld {
    let home = world.home->0;
    let dir = applications_dir_text(home);
    let file = desktop_file_text(home);
    ShellWorld {
        dirs: if exists_at(world, dir) {
            world.dirs
        } else {
            world.dirs.insert(dir)
        },
        files: world.files.insert(file, desktop_entry_text(label, world.exe->0)),
        modes: world.modes.insert(file, LAUNCHER_MODE),
        ..world
    }
}

/// The machine without the launcher file.
pub open spec fn launcher_removed(world: ShellWorld) -> ShellWorld {
    let file = desktop_file_text(world.home->0);
    if world.home is Some && world.files.dom().contains(file) {
        with_files(world, world.files.remove(file), world.modes.remove(file))
    } else {
        world
    }
}

/// The registry with menu key `key` written: the key with its label and
/// icon beside the values it had, and its command subkey with the command.
pub open spec fn key_written(
    keys: Map<Seq<char>, Map<Seq<char>, Seq<char>>>,
    key: u8,
    label: Seq<char>,
    exe: Seq<char>,
) -> Map<Seq<char>, Map<Seq<char>, Seq<char>>> {
    let menu = menu_key_text(key);
    let command = command_key_text(key);
    let old_menu = if keys.dom().contains(menu) {
        keys[menu]
    } else {
        Map::empty()
    };
    let first = keys.insert(menu, old_menu.insert(Seq::empty(), label).insert("Icon"@, exe));
    let old_command = if first.dom().contains(command) {
        first[command]
    } else {
        Map::empty()
    };
    first.insert(command, old_command.insert(Seq::empty(), launch_command_text(exe)))
}

/// The registry without a key and what lies below it.
pub open spec fn tree_deleted(
    keys: Map<Seq<char>, Map<Seq<char>, Seq<char>>>,
    root: Seq<char>,
) -> Map<Seq<char>, Map<Seq<char>, Seq<char>>> {
    if keys.dom().contains(root) {
        keys.restrict(Set::new(|other: Seq<char>| !below(other, root)))
    } else {
        keys
    }
}

/// The machine after the entry has been installed with `label`.
pub open spec fn installed_world(family: OsFamily, world: ShellWorld, label: Seq<char>) -> ShellWorld {
    match family {
        OsFamily::Linux => launcher_installed(world, label),
        OsFamily::Windows => with_keys(
            world,
            key_written(key_written(world.keys, 0, label, world.exe->0), 1, label, world.exe->0),
        ),
        _ => world,
    }
}

/// The machine after the entry has been removed.
pub open spec fn removed_world(family: OsFamily, world: ShellWorld) -> ShellWorld {
    match family {
        OsFamily::Linux => launcher_removed(world),
        OsFamily::Windows => with_keys(
            world,
            tree_deleted(tree_deleted(world.keys, menu_key_text(0)), menu_key_text(1)),
        ),
        _ => world,
    }
}

/// The launcher file lies in the launcher directory: its path is longer.
pub proof fn lemma_launcher_file_below_dir(home: Seq<char>)
    ensures
        desktop_file_text(home).len() > applications_dir_text(home).len(),
{
    reveal_strlit(".local/share/applications");
    reveal_strlit("fp-node-manager-context.desktop");
    let child = ".local/share/applications"@;
    let dir = applications_dir_text(home);
    assert(child.len() == 25);
    assert(child[0] == '.');
    assert(child[24] == 's');
    assert(dir.len() >= 25);
    assert(dir.last() == 's');
    let name = "fp-node-manager-context.desktop"@;
    assert(name.len() == 31);
    assert(name[0] == 'f');
}

/// The four registry keys of the entry are four different keys.
pub proof fn lemma_menu_keys_differ()
    ensures
        menu_key_text(0).len() == 48,
        command_key_text(0).len() == 56,
        menu_key_text(1).len() == 59,
        command_key_text(1).len() == 67,
{
    reveal_strlit("Software\\Classes\\Directory\\shell\\fp-node-manager");
    reveal_strlit("Software\\Classes\\Directory\\Background\\shell\\fp-node-manager");
    reveal_strlit("\\command");
    assert("\\command"@.len() == 8);
}

proof fn lemma_key_written_outcome(session: MenuSessionView, key: u8, world: ShellWorld, fuel: nat)
    ensures
        menu_outcome(writing(session, key, 0), world, fuel + 5) == menu_outcome(
            if key == 0 {
                writing(session, 1, 0)
            } else {
                completed()
            },
            with_keys(world, key_written(world.keys, key, session.label, session.exe)),
            fuel,
        ),
{
    reveal_with_fuel(menu_outcome, 6);
    let first = performed(world, MenuActionView::CreateKey { key: menu_key_text(key) }).0;
    assert(first.keys.dom().contains(menu_key_text(key)));
    let written = with_keys(world, key_written(world.keys, key, session.label, session.exe));
    let t1 = writing(session, key, 1);
    assert(menu_outcome(writing(session, key, 0), world, fuel + 5) == menu_outcome(
        t1,
        first,
        (fuel + 4) as nat,
    ));
    let second = performed(first, t1->action).0;
    let t2 = writing(session, key, 2);
    assert(menu_outcome(t1, first, (fuel + 4) as nat) == menu_outcome(
        t2,
        second,
        (fuel + 3) as nat,
    ));
    let third = performed(second, t2->action).0;
    let t3 = writing(session, key, 3);
    assert(menu_outcome(t2, second, (fuel + 3) as nat) == menu_outcome(
        t3,
        third,
        (fuel + 2) as nat,
    ));
    let fourth = performed(third, t3->action).0;
    let t4 = writing(session, key, 4);
    assert(menu_outcome(t3, third, (fuel + 2) as nat) == menu_outcome(
        t4,
        fourth,
        (fuel + 1) as nat,
    ));
    let fifth = performed(fourth, t4->action).0;
    assert(fifth.keys =~~= written.keys);
    assert(fifth == written);
}

proof fn lemma_install_outcome_windows(locale: Seq<char>, world: ShellWorld)
    requires
        cooperative(OsFamily::Windows, world),
    ensures
        set_outcome(OsFamily::Windows, true, locale, world) == Some(
            MenuEnd {
                turn: completed(),
                world: installed_world(OsFamily::Windows, world, menu_label_text(locale)),
            },
        ),
{
    reveal_with_fuel(menu_outcome, 2);
    let label = menu_label_text(locale);
    let exe = world.exe->0;
    let start = set_started(OsFamily::Windows, true, locale);
    let session = with_exe(start->session, exe);
    assert(menu_outcome(start, world, 11) == menu_outcome(writing(session, 0, 0), world, 10));
    lemma_key_written_outcome(session, 0, world, 5);
    let half = with_keys(world, key_written(world.keys, 0, label, exe));
    lemma_key_written_outcome(session, 1, half, 0);
}

proof fn lemma_install_outcome_linux(locale: Seq<char>, world: ShellWorld)
    requires
        cooperative(OsFamily::Linux, world),
    ensures
        set_outcome(OsFamily::Linux, true, locale, world) == Some(
            MenuEnd {
                turn: completed(),
                world: installed_world(OsFamily::Linux, world, menu_label_text(locale)),
            },
        ),
{
    reveal_with_fuel(menu_outcome, 9);
    lemma_launcher_file_below_dir(world.home->0);
    let end = set_outcome(OsFamily::Linux, true, locale, world);
    let goal = installed_world(OsFamily::Linux, world, menu_label_text(locale));
    assert(end is Some);
    assert(end->0.world.dirs =~= goal.dirs);
    assert(end->0.world.files =~= goal.files);
    assert(end->0.world.modes =~= goal.modes);
}

/// What installing does: on a cooperative machine the request succeeds and
/// leaves the machine with the entry written, and nothing else changed.
pub proof fn lemma_install_outcome(family: OsFamily, locale: Seq<char>, world: ShellWorld)
    requires
        cooperative(family, world),
    ensures
        set_outcome(family, true, locale, world) == Some(
            MenuEnd {
                turn: completed(),
                world: installed_world(family, world, menu_label_text(locale)),
            },
        ),
{
    match family {
        OsFamily::Linux => lemma_install_outcome_linux(locale, world),
        OsFamily::Windows => lemma_install_outcome_windows(locale, world),
        _ => {},
    }
}

/// What removing does: on a machine on which the entry can be removed the
/// request succeeds, whether or not the entry was there and whether or not
/// the executable resolves, and leaves the machine without it.
pub proof fn lemma_remove_outcome(family: OsFamily, locale: Seq<char>, world: ShellWorld)
    requires
        removable(family, world),
    ensures
        set_outcome(family, false, locale, world) == Some(
            MenuEnd { turn: completed(), world: removed_world(family, world) },
        ),
{
    reveal_with_fuel(menu_outcome, 5);
}

/// What a query does: it says whether the entry is on the machine, and
/// changes nothing, on any machine and for every family.
pub proof fn lemma_query_outcome(family: OsFamily, world: ShellWorld)
    ensures
        check_outcome(family, world) == Some(
            MenuEnd {
                turn: MenuTurnView::Answered { installed: entry_present(family, world) },
                world,
            },
        ),
{
    reveal_with_fuel(menu_outcome, 3);
}

/// On a family without a mechanism, the entry is reported as unsupported
/// and as not installed, and every request to install or remove it ends
/// with `NotSupported` before any operation.
pub proof fn lemma_unsupported_family(family: OsFamily, enable: bool, locale: Seq<char>)
    requires
        !supported(family),
    ensures
        set_started(family, enable, locale) == (MenuTurnView::Finished {
            outcome: Err(MenuErrorView::NotSupported),
        }),
        check_started(family) == (MenuTurnView::Answered { installed: false }),
{
}

/// Installing leaves a machine on which the entry can be installed again,
/// and removed if it could be removed before; and the entry is on it.
pub proof fn lemma_install_keeps_cooperative(family: OsFamily, world: ShellWorld, label: Seq<char>)
    requires
        cooperative(family, world),
    ensures
        cooperative(family, installed_world(family, world, label)),
        entry_present(family, installed_world(family, world, label)),
        removable(family, world) ==> removable(family, installed_world(family, world, label)),
{
    if family == OsFamily::Linux {
        lemma_launcher_file_below_dir(world.home->0);
    }
}

/// After the entry has been installed, in whatever language, a query finds
/// it.
pub proof fn lemma_install_then_query(family: OsFamily, locale: Seq<char>, world: ShellWorld)
    requires
        cooperative(family, world),
    ensures
        ({
            let end = set_outcome(family, true, locale, world);
            &&& end is Some
            &&& end->0.turn == completed()
            &&& cooperative(family, end->0.world)
            &&& removable(family, world) ==> removable(family, end->0.world)
            &&& check_outcome(family, end->0.world) == Some(
                MenuEnd { turn: MenuTurnView::Answered { installed: true }, world: end->0.world },
            )
        }),
{
    let label = menu_label_text(locale);
    lemma_install_outcome(family, locale, world);
    lemma_install_keeps_cooperative(family, world, label);
    lemma_query_outcome(family, installed_world(family, world, label));
}

/// After the entry has been removed, a query does not find it.
pub proof fn lemma_remove_then_query(family: OsFamily, locale: Seq<char>, world: ShellWorld)
    requires
        removable(family, world),
    ensures
        ({
            let end = set_outcome(family, false, locale, world);
            &&& end is Some
            &&& end->0.turn == completed()
            &&& removable(family, end->0.world)
            &&& check_outcome(family, end->0.world) == Some(
                MenuEnd { turn: MenuTurnView::Answered { installed: false }, world: end->0.world },
            )
        }),
{
    lemma_remove_outcome(family, locale, world);
    lemma_query_outcome(family, removed_world(family, world));
}

/// A removal that reports success has removed the entry: on every machine,
/// also one that refuses deletions, a removal ends with success or with an
/// error, and after a success a query does not find the entry.
pub proof fn lemma_removal_success_means_gone(
    family: OsFamily,
    locale: Seq<char>,
    world: ShellWorld,
)
    requires
        supported(family),
        sound(world),
    ensures
        ({
            let end = set_outcome(family, false, locale, world);
            &&& end is Some
            &&& end->0.turn is Finished
            &&& end->0.turn == completed() ==> check_outcome(family, end->0.world) == Some(
                MenuEnd { turn: MenuTurnView::Answered { installed: false }, world: end->0.world },
            )
        }),
{
    reveal_with_fuel(menu_outcome, 5);
    let end = set_outcome(family, false, locale, world);
    assert(end is Some);
    lemma_query_outcome(family, end->0.world);
    if family == OsFamily::Linux && world.home is Some {
        let file = desktop_file_text(world.home->0);
        assert(!(world.dirs.contains(file) && world.files.dom().contains(file)));
    }
}

/// Removing the entry where a query does not find it succeeds, whether or
/// not `HOME` is set and whether or not the executable resolves. For the
/// launcher file it changes nothing. (Where only the menu key of the
/// background is left and the machine refuses to delete it, the refusal is
/// reported: that machine is left out.)
pub proof fn lemma_remove_absent(family: OsFamily, locale: Seq<char>, world: ShellWorld)
    requires
        supported(family),
        !entry_present(family, world),
        family == OsFamily::Windows ==> !world.undeletable.contains(menu_key_text(1)),
    ensures
        set_outcome(family, false, locale, world) is Some,
        set_outcome(family, false, locale, world)->0.turn == completed(),
        family == OsFamily::Linux ==> set_outcome(family, false, locale, world)->0.world == world,
{
    reveal_with_fuel(menu_outcome, 5);
}

/// A request that fails midway leaves what it had done: where a directory
/// stands at the place of the launcher file, installing creates the launcher
/// directory, fails on the file, and the directory stays.
pub proof fn lemma_failed_install_keeps_directory(locale: Seq<char>, world: ShellWorld)
    requires
        world.home is Some,
        world.exe is Some,
        world.dirs.contains(desktop_file_text(world.home->0)),
        !exists_at(world, applications_dir_text(world.home->0)),
    ensures
        ({
            let end = set_outcome(OsFamily::Linux, true, locale, world);
            let dir = applications_dir_text(world.home->0);
            &&& end is Some
            &&& end->0.turn matches MenuTurnView::Finished { outcome: Err(_) }
            &&& end->0.world == with_dirs(world, world.dirs.insert(dir))
            &&& end->0.world != world
        }),
{
    reveal_with_fuel(menu_outcome, 6);
    let dir = applications_dir_text(world.home->0);
    let end = set_outcome(OsFamily::Linux, true, locale, world);
    assert(end is Some);
    assert(end->0.world.dirs.contains(dir));
}

proof fn lemma_key_written_again(
    keys: Map<Seq<char>, Map<Seq<char>, Seq<char>>>,
    first: Seq<char>,
    second: Seq<char>,
    exe: Seq<char>,
)
    ensures
        key_written(
            key_written(key_written(key_written(keys, 0, first, exe), 1, first, exe), 0, second, exe),
            1,
            second,
            exe,
        ) == key_written(key_written(keys, 0, second, exe), 1, second, exe),
{
    lemma_menu_keys_differ();
    let once = key_written(key_written(keys, 0, second, exe), 1, second, exe);
    let before = key_written(key_written(keys, 0, first, exe), 1, first, exe);
    let twice = key_written(key_written(before, 0, second, exe), 1, second, exe);
    assert(twice =~~= once);
}

/// Installing twice leaves what installing once leaves: the second request
/// succeeds, and the machine is as if only it had been made.
pub proof fn lemma_install_twice(
    family: OsFamily,
    first: Seq<char>,
    second: Seq<char>,
    world: ShellWorld,
)
    requires
        cooperative(family, world),
    ensures
        ({
            let before = set_outcome(family, true, first, world);
            let twice = set_outcome(family, true, second, before->0.world);
            &&& before is Some
            &&& twice is Some
            &&& twice->0.turn == completed()
            &&& twice == set_outcome(family, true, second, world)
        }),
{
    let a = menu_label_text(first);
    let b = menu_label_text(second);
    let before = installed_world(family, world, a);
    lemma_install_outcome(family, first, world);
    lemma_install_keeps_cooperative(family, world, a);
    lemma_install_outcome(family, second, before);
    lemma_install_outcome(family, second, world);
    let twice = installed_world(family, before, b);
    let once = installed_world(family, world, b);
    match family {
        OsFamily::Linux => {
            lemma_launcher_file_below_dir(world.home->0);
            assert(twice.dirs =~= once.dirs);
            assert(twice.files =~= once.files);
            assert(twice.modes =~= once.modes);
        },
        OsFamily::Windows => {
            lemma_key_written_again(world.keys, a, b, world.exe->0);
        },
        _ => {},
    }
    assert(twice == once);
}

} // verus!
