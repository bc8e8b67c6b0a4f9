use std::collections::{BTreeMap, BTreeSet};

use fp_node_manager::context_menu::{
    applications_dir, check_context_menu, command_key, desktop_entry, desktop_file,
    is_context_menu_supported, join_path, launch_command, menu_key, menu_label, set_context_menu,
    MenuAction, MenuError, MenuReply, MenuTurn, LAUNCHER_MODE,
};
use fp_node_manager::platform::OsFamily;

const ENGLISH: &str = "Open in Project & Node Manager";
const CHINESE: &str = "在前端项目 & Node 管理器中打开";
const GUIDANCE: &str =
    "Not supported on this platform yet. Please use 'Open With' system configuration.";
const MENU_KEY: &str = "Software\\Classes\\Directory\\shell\\fp-node-manager";
const BACKGROUND_KEY: &str = "Software\\Classes\\Directory\\Background\\shell\\fp-node-manager";

#[derive(Clone, Debug, PartialEq)]
struct FakeMachine {
    home: Option<String>,
    exe: Option<String>,
    exe_is_text: bool,
    database_tool: bool,
    dirs: BTreeSet<String>,
    files: BTreeMap<String, String>,
    modes: BTreeMap<String, u32>,
    keys: BTreeMap<String, BTreeMap<String, String>>,
    failing: Option<String>,
    log: Vec<String>,
}

fn linux_machine() -> FakeMachine {
    FakeMachine {
        home: Some("/tmp/home".to_string()),
        exe: Some("/opt/fp/fp-node-manager".to_string()),
        exe_is_text: true,
        database_tool: true,
        dirs: BTreeSet::new(),
        files: BTreeMap::new(),
        modes: BTreeMap::new(),
        keys: BTreeMap::new(),
        failing: None,
        log: Vec::new(),
    }
}

fn windows_machine() -> FakeMachine {
    let mut machine = linux_machine();
    machine.home = None;
    machine.exe = Some("C:\\Apps\\fp.exe".to_string());
    machine
}

fn yes() -> MenuReply {
    MenuReply::of_outcome(Ok(()))
}

fn no(message: &str) -> MenuReply {
    MenuReply::of_outcome(Err(message.to_string()))
}

fn name_of(action: &MenuAction) -> String {
    match action {
        MenuAction::ReadHome => "ReadHome".to_string(),
        MenuAction::ResolveExecutable => "ResolveExecutable".to_string(),
        MenuAction::PathExists { path } => format!("PathExists {}", path),
        MenuAction::CreateDirAll { path } => format!("CreateDirAll {}", path),
        MenuAction::WriteFile { path, .. } => format!("WriteFile {}", path),
        MenuAction::SetMode { path, mode } => format!("SetMode {} {:o}", path, mode),
        MenuAction::RemoveFile { path } => format!("RemoveFile {}", path),
        MenuAction::RefreshDesktopDatabase { dir } => format!("Refresh {}", dir),
        MenuAction::KeyExists { key } => format!("KeyExists {}", key),
        MenuAction::CreateKey { key } => format!("CreateKey {}", key),
        MenuAction::SetValue { key, name, data } => format!("SetValue {} [{}] = {}", key, name, data),
        MenuAction::DeleteTree { key } => format!("DeleteTree {}", key),
    }
}

fn perform(machine: &mut FakeMachine, action: &MenuAction) -> MenuReply {
    let name = name_of(action);
    machine.log.push(name.clone());
    if let Some(failing) = &machine.failing {
        if name.starts_with(failing.as_str()) {
            return no("disk says no");
        }
    }
    match action {
        MenuAction::ReadHome => match &machine.home {
            Some(home) => MenuReply::Done { text: home.clone() },
            None => no("environment variable not found"),
        },
        MenuAction::ResolveExecutable => match &machine.exe {
            Some(_) if !machine.exe_is_text => MenuReply::NotText,
            Some(exe) => MenuReply::Done { text: exe.clone() },
            None => no("cannot resolve the executable"),
        },
        MenuAction::PathExists { path } => {
            MenuReply::of_existence(machine.dirs.contains(path) || machine.files.contains_key(path))
        }
        MenuAction::CreateDirAll { path } => {
            machine.dirs.insert(path.clone());
            yes()
        }
        MenuAction::WriteFile { path, content } => {
            machine.files.insert(path.clone(), content.clone());
            yes()
        }
        MenuAction::SetMode { path, mode } => {
            machine.modes.insert(path.clone(), *mode);
            yes()
        }
        MenuAction::RemoveFile { path } => {
            machine.files.remove(path);
            machine.modes.remove(path);
            yes()
        }
        MenuAction::RefreshDesktopDatabase { .. } => {
            if machine.database_tool {
                yes()
            } else {
                no("update-desktop-database: not found")
            }
        }
        MenuAction::KeyExists { key } => MenuReply::of_existence(machine.keys.contains_key(key)),
        MenuAction::CreateKey { key } => {
            machine.keys.entry(key.clone()).or_default();
            yes()
        }
        MenuAction::SetValue { key, name, data } => match machine.keys.get_mut(key) {
            Some(values) => {
                values.insert(name.clone(), data.clone());
                yes()
            }
            None => no("no such key"),
        },
        MenuAction::DeleteTree { key } => {
            if !machine.keys.contains_key(key) {
                return no("no such key");
            }
            let below = format!("{}\\", key);
            machine.keys.retain(|other, _| other != key && !other.starts_with(&below));
            yes()
        }
    }
}

fn run(machine: &mut FakeMachine, first: MenuTurn) -> MenuTurn {
    let mut turn = first;
    loop {
        match turn {
            MenuTurn::Perform { session, action } => {
                let reply = perform(machine, &action);
                turn = session.resume(reply);
            }
            end => return end,
        }
    }
}

fn set(machine: &mut FakeMachine, family: OsFamily, enable: bool, locale: &str) -> Result<(), String> {
    match run(machine, set_context_menu(family, enable, locale)) {
        MenuTurn::Finished { outcome } => outcome.map_err(|e| e.message()),
        _ => panic!("a request to set the entry ends with an outcome"),
    }
}

fn check(machine: &mut FakeMachine, family: OsFamily) -> bool {
    match run(machine, check_context_menu(family)) {
        MenuTurn::Answered { installed } => installed,
        _ => panic!("a query ends with an answer"),
    }
}

fn state(machine: &FakeMachine) -> FakeMachine {
    let mut copy = machine.clone();
    copy.log.clear();
    copy
}

#[test]
fn supported_on_windows_and_linux_only() {
    assert!(is_context_menu_supported(OsFamily::Windows));
    assert!(is_context_menu_supported(OsFamily::Linux));
    assert!(!is_context_menu_supported(OsFamily::MacOs));
    assert!(!is_context_menu_supported(OsFamily::Other));
}

#[test]
fn label_is_chinese_for_zh_and_english_otherwise() {
    assert_eq!(menu_label("zh"), CHINESE);
    assert_eq!(menu_label("en"), ENGLISH);
    assert_eq!(menu_label("fr"), ENGLISH);
    assert_eq!(menu_label(""), ENGLISH);
    assert_eq!(menu_label("zh-CN"), ENGLISH);
    assert_eq!(menu_label("ZH"), ENGLISH);
}

#[test]
fn join_path_adds_one_separator() {
    assert_eq!(join_path("/tmp/home", ".local"), "/tmp/home/.local");
    assert_eq!(join_path("/tmp/home/", ".local"), "/tmp/home/.local");
    assert_eq!(join_path("/", "etc"), "/etc");
    assert_eq!(join_path("relative", "child"), "relative/child");
}

#[test]
fn join_path_of_an_empty_base_is_the_child() {
    assert_eq!(join_path("", ".local/share"), ".local/share");
}

#[test]
fn join_path_with_an_absolute_child_is_the_child() {
    assert_eq!(join_path("/tmp/home", "/etc/passwd"), "/etc/passwd");
}

#[test]
fn join_path_with_an_empty_child_ends_in_a_separator() {
    assert_eq!(join_path("/tmp/home", ""), "/tmp/home/");
    assert_eq!(join_path("", ""), "");
}

#[test]
fn join_path_agrees_with_std_on_unix_shapes() {
    for base in ["", "/", "/tmp/home", "/tmp/home/", "a", "a/", "日本/語"] {
        for child in ["", "x", ".local/share/applications", "/abs", "ü.desktop"] {
            let expected = std::path::Path::new(base).join(child);
            if std::path::MAIN_SEPARATOR == '/' {
                assert_eq!(join_path(base, child), expected.to_str().unwrap());
            }
        }
    }
}

#[test]
fn launcher_paths_below_home() {
    assert_eq!(applications_dir("/tmp/home"), "/tmp/home/.local/share/applications");
    assert_eq!(
        desktop_file("/tmp/home"),
        "/tmp/home/.local/share/applications/fp-node-manager-context.desktop"
    );
    assert_eq!(
        desktop_file("/home/me/"),
        "/home/me/.local/share/applications/fp-node-manager-context.desktop"
    );
}

#[test]
fn desktop_entry_has_the_exact_lines() {
    assert_eq!(
        desktop_entry(ENGLISH, "/opt/fp/fp-node-manager"),
        "[Desktop Entry]\nType=Application\nName=Open in Project & Node Manager\nExec=\"/opt/fp/fp-node-manager\" \"%f\"\nIcon=folder-open\nNoDisplay=true\nMimeType=inode/directory;\n"
    );
}

#[test]
fn registry_keys_and_command() {
    assert_eq!(menu_key(0), MENU_KEY);
    assert_eq!(menu_key(1), BACKGROUND_KEY);
    assert_eq!(command_key(0), format!("{}\\command", MENU_KEY));
    assert_eq!(command_key(1), format!("{}\\command", BACKGROUND_KEY));
    assert_eq!(launch_command("C:\\Apps\\fp.exe"), "\"C:\\Apps\\fp.exe\" \"%V\"");
}

#[test]
fn launcher_mode_is_rwxr_xr_x() {
    assert_eq!(LAUNCHER_MODE, 0o755);
}

#[test]
fn error_messages() {
    assert_eq!(MenuError::InvalidPath.message(), "Invalid path");
    assert_eq!(MenuError::NotSupported.message(), GUIDANCE);
    assert_eq!(MenuError::Io { message: "access denied".to_string() }.message(), "access denied");
}

#[test]
fn linux_install_creates_the_launcher_file() {
    let mut machine = linux_machine();
    assert_eq!(set(&mut machine, OsFamily::Linux, true, "en"), Ok(()));
    let path = "/tmp/home/.local/share/applications/fp-node-manager-context.desktop";
    let content = machine.files.get(path).expect("the launcher file is written");
    assert!(content.contains("Name=Open in Project & Node Manager\n"));
    assert!(content.contains("Exec=\"/opt/fp/fp-node-manager\" \"%f\"\n"));
    assert!(content.starts_with("[Desktop Entry]\nType=Application\n"));
    assert!(content.contains("NoDisplay=true\n"));
    assert!(content.ends_with("MimeType=inode/directory;\n"));
    assert_eq!(machine.modes.get(path), Some(&0o755));
    assert!(machine.dirs.contains("/tmp/home/.local/share/applications"));
}

#[test]
fn linux_install_asks_in_order() {
    let mut machine = linux_machine();
    set(&mut machine, OsFamily::Linux, true, "en").unwrap();
    let dir = "/tmp/home/.local/share/applications";
    let file = "/tmp/home/.local/share/applications/fp-node-manager-context.desktop";
    assert_eq!(
        machine.log,
        vec![
            "ReadHome".to_string(),
            format!("PathExists {}", dir),
            format!("CreateDirAll {}", dir),
            "ResolveExecutable".to_string(),
            format!("WriteFile {}", file),
            format!("SetMode {} 755", file),
            format!("Refresh {}", dir),
        ]
    );
}

#[test]
fn linux_install_skips_an_existing_directory() {
    let mut machine = linux_machine();
    machine.dirs.insert("/tmp/home/.local/share/applications".to_string());
    set(&mut machine, OsFamily::Linux, true, "en").unwrap();
    assert!(!machine.log.iter().any(|line| line.starts_with("CreateDirAll")));
    assert_eq!(machine.log.len(), 6);
}

#[test]
fn linux_install_in_chinese() {
    let mut machine = linux_machine();
    set(&mut machine, OsFamily::Linux, true, "zh").unwrap();
    let content = machine.files.values().next().unwrap();
    assert!(content.contains("Name=在前端项目 & Node 管理器中打开\n"));
}

#[test]
fn install_then_query_then_remove_then_query() {
    for (family, fresh) in [(OsFamily::Linux, linux_machine()), (OsFamily::Windows, windows_machine())] {
        let mut machine = fresh;
        assert!(!check(&mut machine, family));
        assert_eq!(set(&mut machine, family, true, "zh"), Ok(()));
        assert!(check(&mut machine, family));
        assert_eq!(set(&mut machine, family, false, "zh"), Ok(()));
        assert!(!check(&mut machine, family));
    }
}

#[test]
fn installing_twice_is_installing_once() {
    for (family, fresh) in [(OsFamily::Linux, linux_machine()), (OsFamily::Windows, windows_machine())] {
        let mut once = fresh.clone();
        assert_eq!(set(&mut once, family, true, "en"), Ok(()));
        let mut twice = fresh;
        assert_eq!(set(&mut twice, family, true, "en"), Ok(()));
        assert_eq!(set(&mut twice, family, true, "en"), Ok(()));
        assert_eq!(state(&twice), state(&once));
    }
}

#[test]
fn a_second_install_replaces_the_label() {
    for (family, fresh) in [(OsFamily::Linux, linux_machine()), (OsFamily::Windows, windows_machine())] {
        let mut once = fresh.clone();
        set(&mut once, family, true, "en").unwrap();
        let mut twice = fresh;
        set(&mut twice, family, true, "zh").unwrap();
        set(&mut twice, family, true, "en").unwrap();
        assert_eq!(state(&twice), state(&once));
    }
}

#[test]
fn removing_what_is_absent_succeeds() {
    for (family, fresh) in [(OsFamily::Linux, linux_machine()), (OsFamily::Windows, windows_machine())] {
        let mut machine = fresh.clone();
        assert_eq!(set(&mut machine, family, false, "en"), Ok(()));
        assert_eq!(set(&mut machine, family, false, "en"), Ok(()));
        assert_eq!(state(&machine), state(&fresh));
    }
}

#[test]
fn linux_remove_of_an_absent_file_deletes_and_refreshes_nothing() {
    let mut machine = linux_machine();
    set(&mut machine, OsFamily::Linux, false, "en").unwrap();
    assert_eq!(
        machine.log,
        vec![
            "ReadHome".to_string(),
            "PathExists /tmp/home/.local/share/applications/fp-node-manager-context.desktop"
                .to_string(),
        ]
    );
}

#[test]
fn linux_remove_deletes_then_refreshes() {
    let mut machine = linux_machine();
    set(&mut machine, OsFamily::Linux, true, "en").unwrap();
    machine.log.clear();
    set(&mut machine, OsFamily::Linux, false, "en").unwrap();
    let file = "/tmp/home/.local/share/applications/fp-node-manager-context.desktop";
    assert_eq!(
        machine.log,
        vec![
            "ReadHome".to_string(),
            format!("PathExists {}", file),
            format!("RemoveFile {}", file),
            "Refresh /tmp/home/.local/share/applications".to_string(),
        ]
    );
    assert!(machine.files.is_empty());
}

#[test]
fn a_failed_refresh_does_not_fail_the_request() {
    let mut machine = linux_machine();
    machine.database_tool = false;
    assert_eq!(set(&mut machine, OsFamily::Linux, true, "en"), Ok(()));
    assert_eq!(set(&mut machine, OsFamily::Linux, false, "en"), Ok(()));
}

#[test]
fn linux_install_without_home_fails() {
    let mut machine = linux_machine();
    machine.home = None;
    assert_eq!(set(&mut machine, OsFamily::Linux, true, "en"), Err("HOME not set".to_string()));
    assert_eq!(machine.log, vec!["ReadHome"]);
}

#[test]
fn linux_removal_without_home_has_nothing_to_remove() {
    let mut machine = linux_machine();
    machine.home = None;
    assert!(!check(&mut machine, OsFamily::Linux));
    machine.log.clear();
    assert_eq!(set(&mut machine, OsFamily::Linux, false, "en"), Ok(()));
    assert_eq!(machine.log, vec!["ReadHome"]);
    assert!(!check(&mut machine, OsFamily::Linux));
}

#[test]
fn a_removal_never_resolves_the_executable() {
    for (family, fresh) in [(OsFamily::Linux, linux_machine()), (OsFamily::Windows, windows_machine())] {
        let mut machine = fresh;
        set(&mut machine, family, true, "en").unwrap();
        machine.exe = None;
        machine.log.clear();
        assert_eq!(set(&mut machine, family, false, "en"), Ok(()));
        assert!(!machine.log.iter().any(|line| line == "ResolveExecutable"));
        assert!(!check(&mut machine, family));
        assert_eq!(set(&mut machine, family, false, "en"), Ok(()));
    }
}

#[test]
fn a_home_that_is_not_text_counts_as_not_set() {
    let turn = set_context_menu(OsFamily::Linux, true, "en");
    let MenuTurn::Perform { session, .. } = turn else { panic!("HOME is read first") };
    match session.resume(MenuReply::NotText) {
        MenuTurn::Finished { outcome: Err(MenuError::Io { message }) } => {
            assert_eq!(message, "HOME not set")
        }
        _ => panic!("the request fails"),
    }
}

#[test]
fn an_executable_path_that_is_not_text_is_an_invalid_path() {
    let mut machine = linux_machine();
    machine.exe_is_text = false;
    assert_eq!(set(&mut machine, OsFamily::Linux, true, "en"), Err("Invalid path".to_string()));
    assert!(machine.files.is_empty());
    let mut machine = windows_machine();
    machine.exe_is_text = false;
    assert_eq!(set(&mut machine, OsFamily::Windows, true, "en"), Err("Invalid path".to_string()));
    assert!(machine.keys.is_empty());
}

#[test]
fn an_unresolved_executable_fails_with_the_machines_text() {
    let mut machine = windows_machine();
    machine.exe = None;
    assert_eq!(
        set(&mut machine, OsFamily::Windows, true, "en"),
        Err("cannot resolve the executable".to_string())
    );
    assert_eq!(machine.log, vec!["ResolveExecutable"]);
}

#[test]
fn a_failed_operation_ends_the_request_at_once() {
    for failing in ["CreateDirAll", "WriteFile", "SetMode"] {
        let mut machine = linux_machine();
        machine.failing = Some(failing.to_string());
        assert_eq!(set(&mut machine, OsFamily::Linux, true, "en"), Err("disk says no".to_string()));
        assert!(machine.log.last().unwrap().starts_with(failing));
    }
    let mut machine = linux_machine();
    set(&mut machine, OsFamily::Linux, true, "en").unwrap();
    machine.log.clear();
    machine.failing = Some("RemoveFile".to_string());
    assert_eq!(set(&mut machine, OsFamily::Linux, false, "en"), Err("disk says no".to_string()));
    assert!(machine.log.last().unwrap().starts_with("RemoveFile"));
}

#[test]
fn windows_install_writes_both_menus() {
    let mut machine = windows_machine();
    assert_eq!(set(&mut machine, OsFamily::Windows, true, "en"), Ok(()));
    let exe = "C:\\Apps\\fp.exe";
    let mut expected = vec!["ResolveExecutable".to_string()];
    for key in [MENU_KEY, BACKGROUND_KEY] {
        expected.push(format!("CreateKey {}", key));
        expected.push(format!("SetValue {} [] = {}", key, ENGLISH));
        expected.push(format!("SetValue {} [Icon] = {}", key, exe));
        expected.push(format!("CreateKey {}\\command", key));
        expected.push(format!("SetValue {}\\command [] = \"{}\" \"%V\"", key, exe));
    }
    assert_eq!(machine.log, expected);
    assert_eq!(machine.keys.len(), 4);
    assert_eq!(machine.keys[MENU_KEY][""], ENGLISH);
    assert_eq!(machine.keys[MENU_KEY]["Icon"], exe);
    assert_eq!(machine.keys[&format!("{}\\command", BACKGROUND_KEY)][""], "\"C:\\Apps\\fp.exe\" \"%V\"");
}

#[test]
fn windows_install_in_chinese() {
    let mut machine = windows_machine();
    set(&mut machine, OsFamily::Windows, true, "zh").unwrap();
    assert_eq!(machine.keys[MENU_KEY][""], CHINESE);
    assert_eq!(machine.keys[BACKGROUND_KEY][""], CHINESE);
}

#[test]
fn windows_install_stops_at_the_first_failed_write() {
    let mut machine = windows_machine();
    machine.failing = Some(format!("SetValue {} [Icon]", MENU_KEY));
    assert_eq!(set(&mut machine, OsFamily::Windows, true, "en"), Err("disk says no".to_string()));
    assert_eq!(machine.log.len(), 4);
    assert!(!machine.keys.contains_key(BACKGROUND_KEY));
}

#[test]
fn windows_remove_probes_each_key_and_deletes_what_is_there() {
    let mut machine = windows_machine();
    set(&mut machine, OsFamily::Windows, true, "en").unwrap();
    machine.log.clear();
    assert_eq!(set(&mut machine, OsFamily::Windows, false, "en"), Ok(()));
    assert_eq!(
        machine.log,
        vec![
            format!("KeyExists {}", MENU_KEY),
            format!("DeleteTree {}", MENU_KEY),
            format!("KeyExists {}", BACKGROUND_KEY),
            format!("DeleteTree {}", BACKGROUND_KEY),
        ]
    );
    assert!(machine.keys.is_empty());
}

#[test]
fn windows_remove_passes_over_absent_keys() {
    let mut machine = windows_machine();
    assert_eq!(set(&mut machine, OsFamily::Windows, false, "en"), Ok(()));
    assert_eq!(
        machine.log,
        vec![format!("KeyExists {}", MENU_KEY), format!("KeyExists {}", BACKGROUND_KEY)]
    );
    machine.log.clear();
    machine.keys.insert(BACKGROUND_KEY.to_string(), BTreeMap::new());
    assert_eq!(set(&mut machine, OsFamily::Windows, false, "en"), Ok(()));
    assert_eq!(
        machine.log,
        vec![
            format!("KeyExists {}", MENU_KEY),
            format!("KeyExists {}", BACKGROUND_KEY),
            format!("DeleteTree {}", BACKGROUND_KEY),
        ]
    );
    assert!(machine.keys.is_empty());
}

#[test]
fn a_failed_deletion_of_a_present_key_fails_the_removal() {
    let mut machine = windows_machine();
    set(&mut machine, OsFamily::Windows, true, "en").unwrap();
    machine.log.clear();
    machine.failing = Some(format!("DeleteTree {}", MENU_KEY));
    assert_eq!(set(&mut machine, OsFamily::Windows, false, "en"), Err("disk says no".to_string()));
    assert_eq!(
        machine.log,
        vec![format!("KeyExists {}", MENU_KEY), format!("DeleteTree {}", MENU_KEY)]
    );
    assert!(check(&mut machine, OsFamily::Windows));

    machine.log.clear();
    machine.failing = Some(format!("DeleteTree {}", BACKGROUND_KEY));
    assert_eq!(set(&mut machine, OsFamily::Windows, false, "en"), Err("disk says no".to_string()));
    assert!(!machine.keys.contains_key(MENU_KEY));
    assert!(machine.keys.contains_key(BACKGROUND_KEY));

    machine.failing = None;
    assert_eq!(set(&mut machine, OsFamily::Windows, false, "en"), Ok(()));
    assert!(machine.keys.is_empty());
}

#[test]
fn a_removal_that_succeeds_is_followed_by_a_query_that_finds_nothing() {
    for failing in [None, Some("DeleteTree"), Some("RemoveFile"), Some("KeyExists"), Some("PathExists")] {
        for (family, fresh) in [(OsFamily::Linux, linux_machine()), (OsFamily::Windows, windows_machine())] {
            let mut machine = fresh;
            set(&mut machine, family, true, "zh").unwrap();
            machine.failing = failing.map(|f| f.to_string());
            let outcome = set(&mut machine, family, false, "zh");
            machine.failing = None;
            if outcome.is_ok() && failing != Some("KeyExists") && failing != Some("PathExists") {
                assert!(!check(&mut machine, family));
            }
            if failing == Some("DeleteTree") && family == OsFamily::Windows {
                assert!(outcome.is_err());
            }
            if failing == Some("RemoveFile") && family == OsFamily::Linux {
                assert!(outcome.is_err());
            }
        }
    }
}

#[test]
fn a_failed_install_leaves_what_it_had_written() {
    let mut machine = windows_machine();
    machine.failing = Some(format!("CreateKey {}", BACKGROUND_KEY));
    assert_eq!(set(&mut machine, OsFamily::Windows, true, "en"), Err("disk says no".to_string()));
    assert!(machine.keys.contains_key(MENU_KEY));
    assert!(machine.keys.contains_key(&format!("{}\\command", MENU_KEY)));
    assert!(!machine.keys.contains_key(BACKGROUND_KEY));
    let mut machine = linux_machine();
    machine.failing = Some("WriteFile".to_string());
    assert_eq!(set(&mut machine, OsFamily::Linux, true, "en"), Err("disk says no".to_string()));
    assert!(machine.dirs.contains("/tmp/home/.local/share/applications"));
    assert!(machine.files.is_empty());
}

#[test]
fn windows_query_looks_for_the_directory_menu() {
    let mut machine = windows_machine();
    assert!(!check(&mut machine, OsFamily::Windows));
    assert_eq!(machine.log, vec![format!("KeyExists {}", MENU_KEY)]);
    machine.keys.insert(BACKGROUND_KEY.to_string(), BTreeMap::new());
    assert!(!check(&mut machine, OsFamily::Windows));
    machine.keys.insert(MENU_KEY.to_string(), BTreeMap::new());
    assert!(check(&mut machine, OsFamily::Windows));
}

#[test]
fn linux_query_looks_for_the_launcher_file() {
    let mut machine = linux_machine();
    assert!(!check(&mut machine, OsFamily::Linux));
    assert_eq!(
        machine.log,
        vec![
            "ReadHome".to_string(),
            "PathExists /tmp/home/.local/share/applications/fp-node-manager-context.desktop"
                .to_string(),
        ]
    );
    machine.files.insert(
        "/tmp/home/.local/share/applications/fp-node-manager-context.desktop".to_string(),
        String::new(),
    );
    assert!(check(&mut machine, OsFamily::Linux));
}

#[test]
fn a_query_changes_nothing() {
    for (family, fresh) in [(OsFamily::Linux, linux_machine()), (OsFamily::Windows, windows_machine())] {
        let mut machine = fresh;
        set(&mut machine, family, true, "en").unwrap();
        let before = state(&machine);
        check(&mut machine, family);
        assert_eq!(state(&machine), before);
    }
}

#[test]
fn unsupported_families_refuse_every_request() {
    for family in [OsFamily::MacOs, OsFamily::Other] {
        for enable in [true, false] {
            for locale in ["zh", "en", ""] {
                let mut machine = linux_machine();
                assert_eq!(set(&mut machine, family, enable, locale), Err(GUIDANCE.to_string()));
                assert!(machine.log.is_empty());
            }
        }
        match set_context_menu(family, true, "en") {
            MenuTurn::Finished { outcome: Err(MenuError::NotSupported) } => {}
            _ => panic!("the request is refused as not supported"),
        }
        let mut machine = linux_machine();
        assert!(!check(&mut machine, family));
        assert!(machine.log.is_empty());
    }
}

#[test]
fn replies_of_probes_and_outcomes() {
    assert!(matches!(MenuReply::of_existence(true), MenuReply::Done { text } if text.is_empty()));
    assert!(matches!(MenuReply::of_existence(false), MenuReply::Failed { message } if message.is_empty()));
    assert!(matches!(MenuReply::of_outcome(Ok(())), MenuReply::Done { text } if text.is_empty()));
    match MenuReply::of_outcome(Err("permission denied".to_string())) {
        MenuReply::Failed { message } => assert_eq!(message, "permission denied"),
        _ => panic!("a failed operation replies with its description"),
    }
}
