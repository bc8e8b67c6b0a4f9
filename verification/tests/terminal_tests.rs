use fp_node_manager::detection::{
    command_locator, detect_available_terminals, ProbeAction, ProbeReply, ScanTurn,
};
use fp_node_manager::platform::OsFamily;
use fp_node_manager::terminals::{terminal_candidates, Check, TerminalInfo};

struct Machine {
    env: Vec<(String, String)>,
    paths: Vec<String>,
    commands: Vec<String>,
}

fn machine(env: &[(&str, &str)], paths: &[&str], commands: &[&str]) -> Machine {
    Machine {
        env: env.iter().map(|(k, v)| (k.to_string(), v.to_string())).collect(),
        paths: paths.iter().map(|p| p.to_string()).collect(),
        commands: commands.iter().map(|c| c.to_string()).collect(),
    }
}

fn answer(machine: &Machine, action: &ProbeAction, log: &mut Vec<String>) -> ProbeReply {
    match action {
        ProbeAction::ReadEnv { name } => {
            log.push(format!("env {}", name));
            let value = machine.env.iter().find(|(k, _)| k == name).map(|(_, v)| v.clone());
            ProbeReply::of_variable(value)
        }
        ProbeAction::PathExists { path } => {
            log.push(format!("path {}", path));
            ProbeReply::of_existence(machine.paths.contains(path))
        }
        ProbeAction::CommandExists { name, .. } => {
            log.push(format!("command {}", name));
            ProbeReply::of_exit(Some(if machine.commands.contains(name) { 0 } else { 1 }))
        }
    }
}

fn detect(family: OsFamily, machine: &Machine) -> (Vec<TerminalInfo>, Vec<String>) {
    let mut log = Vec::new();
    let mut turn = detect_available_terminals(family);
    loop {
        match turn {
            ScanTurn::Report { terminals } => return (terminals, log),
            ScanTurn::Ask { scan, action } => {
                let reply = answer(machine, &action, &mut log);
                turn = scan.resume(reply);
            }
        }
    }
}

fn count_probes(checks: &[Check]) -> usize {
    checks.len()
}

fn ids(report: &[TerminalInfo]) -> Vec<String> {
    report.iter().map(|t| t.id.clone()).collect()
}

fn available(report: &[TerminalInfo]) -> Vec<bool> {
    report.iter().map(|t| t.available).collect()
}

#[test]
fn linux_table_in_definition_order() {
    let table = terminal_candidates(OsFamily::Linux);
    let got: Vec<(&str, &str)> = table.iter().map(|c| (c.id.as_str(), c.name.as_str())).collect();
    assert_eq!(
        got,
        vec![
            ("bash", "Bash"),
            ("zsh", "Zsh"),
            ("gnome-terminal", "GNOME Terminal"),
            ("konsole", "Konsole (KDE)"),
            ("xfce4-terminal", "XFCE Terminal"),
            ("alacritty", "Alacritty"),
            ("kitty", "Kitty"),
        ]
    );
}

#[test]
fn windows_table_in_definition_order() {
    let table = terminal_candidates(OsFamily::Windows);
    let got: Vec<(&str, &str)> = table.iter().map(|c| (c.id.as_str(), c.name.as_str())).collect();
    assert_eq!(
        got,
        vec![
            ("cmd", "Command Prompt (cmd.exe)"),
            ("powershell", "PowerShell"),
            ("pwsh", "PowerShell Core (pwsh)"),
            ("git-bash", "Git Bash"),
            ("windows-terminal", "Windows Terminal"),
            ("cmder", "Cmder"),
        ]
    );
}

#[test]
fn macos_table_in_definition_order() {
    let table = terminal_candidates(OsFamily::MacOs);
    let got: Vec<(&str, &str)> = table.iter().map(|c| (c.id.as_str(), c.name.as_str())).collect();
    assert_eq!(
        got,
        vec![("terminal", "Terminal.app"), ("iterm2", "iTerm2"), ("zsh", "Zsh"), ("bash", "Bash")]
    );
}

#[test]
fn other_families_fall_back_to_bash() {
    let table = terminal_candidates(OsFamily::Other);
    assert_eq!(table.len(), 1);
    assert_eq!(table[0].id, "bash");
    assert_eq!(table[0].name, "Bash");
    match &table[0].checks[..] {
        [Check::Command { name }] => assert_eq!(name, "bash"),
        _ => panic!("the fallback is found by its command"),
    }
}

#[test]
fn every_table_is_filled_and_names_no_id_twice() {
    for family in [OsFamily::Windows, OsFamily::MacOs, OsFamily::Linux, OsFamily::Other] {
        let table = terminal_candidates(family);
        assert!(!table.is_empty());
        for i in 0..table.len() {
            for j in (i + 1)..table.len() {
                assert_ne!(table[i].id, table[j].id);
            }
        }
    }
}

#[test]
fn git_bash_checks_paths_before_the_command() {
    let table = terminal_candidates(OsFamily::Windows);
    let checks = &table[3].checks;
    assert_eq!(checks.len(), 5);
    match &checks[0] {
        Check::Path { root: Some(root), tail } => {
            assert_eq!(root, "ProgramFiles");
            assert_eq!(tail, "\\Git\\bin\\bash.exe");
        }
        _ => panic!("a path below ProgramFiles comes first"),
    }
    match &checks[1] {
        Check::Path { root: Some(root), tail } => {
            assert_eq!(root, "ProgramFiles(x86)");
            assert_eq!(tail, "\\Git\\bin\\bash.exe");
        }
        _ => panic!("a path below ProgramFiles(x86) comes second"),
    }
    match &checks[2] {
        Check::Path { root: None, tail } => assert_eq!(tail, "C:\\Program Files\\Git\\bin\\bash.exe"),
        _ => panic!("a fixed path comes third"),
    }
    match &checks[3] {
        Check::Path { root: None, tail } => {
            assert_eq!(tail, "C:\\Program Files (x86)\\Git\\bin\\bash.exe")
        }
        _ => panic!("a fixed path comes fourth"),
    }
    match &checks[4] {
        Check::Command { name } => assert_eq!(name, "bash"),
        _ => panic!("the command comes last"),
    }
}

#[test]
fn linux_report_marks_what_resolves() {
    let (report, log) = detect(OsFamily::Linux, &machine(&[], &[], &["bash", "kitty"]));
    assert_eq!(
        ids(&report),
        vec!["bash", "zsh", "gnome-terminal", "konsole", "xfce4-terminal", "alacritty", "kitty"]
    );
    assert_eq!(available(&report), vec![true, false, false, false, false, false, true]);
    assert_eq!(
        log,
        vec![
            "command bash",
            "command zsh",
            "command gnome-terminal",
            "command konsole",
            "command xfce4-terminal",
            "command alacritty",
            "command kitty",
        ]
    );
}

#[test]
fn report_on_an_empty_machine_is_complete_and_all_unavailable() {
    let (report, _) = detect(OsFamily::Linux, &machine(&[], &[], &[]));
    assert_eq!(report.len(), 7);
    assert!(report.iter().all(|t| !t.available));
    let (report, _) = detect(OsFamily::MacOs, &machine(&[], &[], &[]));
    assert_eq!(ids(&report), vec!["terminal", "iterm2", "zsh", "bash"]);
    assert!(report.iter().all(|t| !t.available));
}

#[test]
fn windows_cmd_is_probed_like_every_other_terminal() {
    let (report, log) = detect(OsFamily::Windows, &machine(&[], &[], &[]));
    assert_eq!(
        ids(&report),
        vec!["cmd", "powershell", "pwsh", "git-bash", "windows-terminal", "cmder"]
    );
    assert_eq!(available(&report), vec![false, false, false, false, false, false]);
    assert_eq!(log[0], "command cmd");
    let (report, _) = detect(OsFamily::Windows, &machine(&[], &[], &["cmd"]));
    assert_eq!(available(&report), vec![true, false, false, false, false, false]);
}

#[test]
fn nothing_is_available_before_the_first_answer() {
    for family in [OsFamily::Windows, OsFamily::MacOs, OsFamily::Linux, OsFamily::Other] {
        match detect_available_terminals(family) {
            ScanTurn::Ask { .. } => {}
            ScanTurn::Report { .. } => panic!("every table starts with a question"),
        }
    }
}

#[test]
fn a_terminal_is_available_only_after_a_probe_of_it_succeeded() {
    for family in [OsFamily::Windows, OsFamily::MacOs, OsFamily::Linux, OsFamily::Other] {
        let table = terminal_candidates(family);
        for hit in 0..table.len() {
            let mut turn = detect_available_terminals(family);
            let mut questions = vec![0usize; table.len()];
            let mut decided = 0usize;
            let report = loop {
                match turn {
                    ScanTurn::Report { terminals } => break terminals,
                    ScanTurn::Ask { scan, action } => {
                        let asked = match &action {
                            ProbeAction::ReadEnv { .. } => false,
                            _ => true,
                        };
                        if asked {
                            questions[decided] += 1;
                        }
                        let found = asked && decided == hit;
                        let reply = match &action {
                            ProbeAction::ReadEnv { .. } => ProbeReply::of_variable(None),
                            _ => ProbeReply::of_existence(found),
                        };
                        if found || questions[decided] == count_probes(&table[decided].checks) {
                            decided += 1;
                        }
                        turn = scan.resume(reply);
                    }
                }
            };
            for (i, line) in report.iter().enumerate() {
                assert_eq!(line.available, i == hit);
                assert!(questions[i] >= 1);
            }
        }
    }
}

#[test]
fn windows_probes_every_check_when_nothing_is_found() {
    let (_, log) = detect(OsFamily::Windows, &machine(&[], &[], &[]));
    assert_eq!(
        log,
        vec![
            "command cmd",
            "command powershell",
            "command pwsh",
            "env ProgramFiles",
            "path \\Git\\bin\\bash.exe",
            "env ProgramFiles(x86)",
            "path \\Git\\bin\\bash.exe",
            "path C:\\Program Files\\Git\\bin\\bash.exe",
            "path C:\\Program Files (x86)\\Git\\bin\\bash.exe",
            "command bash",
            "env LOCALAPPDATA",
            "path \\Microsoft\\WindowsApps\\wt.exe",
            "command wt",
            "path C:\\cmder\\Cmder.exe",
            "path C:\\tools\\cmder\\Cmder.exe",
        ]
    );
}

#[test]
fn a_found_path_spares_the_command_probe() {
    let world = machine(
        &[("ProgramFiles", "D:\\Apps"), ("LOCALAPPDATA", "C:\\Users\\me\\AppData\\Local")],
        &["D:\\Apps\\Git\\bin\\bash.exe", "C:\\Users\\me\\AppData\\Local\\Microsoft\\WindowsApps\\wt.exe"],
        &["powershell"],
    );
    let (report, log) = detect(OsFamily::Windows, &world);
    assert_eq!(available(&report), vec![false, true, false, true, true, false]);
    assert_eq!(
        log,
        vec![
            "command cmd",
            "command powershell",
            "command pwsh",
            "env ProgramFiles",
            "path D:\\Apps\\Git\\bin\\bash.exe",
            "env LOCALAPPDATA",
            "path C:\\Users\\me\\AppData\\Local\\Microsoft\\WindowsApps\\wt.exe",
            "path C:\\cmder\\Cmder.exe",
            "path C:\\tools\\cmder\\Cmder.exe",
        ]
    );
}

#[test]
fn the_command_decides_where_no_path_exists() {
    let world = machine(&[("ProgramFiles", "D:\\Apps")], &[], &["bash", "wt", "cmd"]);
    let (report, _) = detect(OsFamily::Windows, &world);
    assert_eq!(available(&report), vec![true, false, false, true, true, false]);
}

#[test]
fn cmder_is_found_at_its_second_path() {
    let world = machine(&[], &["C:\\tools\\cmder\\Cmder.exe"], &[]);
    let (report, _) = detect(OsFamily::Windows, &world);
    assert_eq!(available(&report), vec![false, false, false, false, false, true]);
}

#[test]
fn macos_apps_are_found_by_path() {
    let world = machine(&[], &["/Applications/iTerm.app"], &["zsh"]);
    let (report, log) = detect(OsFamily::MacOs, &world);
    assert_eq!(available(&report), vec![false, true, true, false]);
    assert_eq!(
        log,
        vec![
            "path /System/Applications/Utilities/Terminal.app",
            "path /Applications/iTerm.app",
            "command zsh",
            "command bash",
        ]
    );
}

#[test]
fn fallback_family_reports_bash_alone() {
    let (report, log) = detect(OsFamily::Other, &machine(&[], &[], &["bash"]));
    assert_eq!(ids(&report), vec!["bash"]);
    assert_eq!(report[0].name, "Bash");
    assert!(report[0].available);
    assert_eq!(log, vec!["command bash"]);
    let (report, _) = detect(OsFamily::Other, &machine(&[], &[], &[]));
    assert_eq!(available(&report), vec![false]);
}

#[test]
fn the_text_of_a_reply_that_found_nothing_is_not_read() {
    let mut turn = detect_available_terminals(OsFamily::Windows);
    let mut asked = Vec::new();
    loop {
        match turn {
            ScanTurn::Report { .. } => break,
            ScanTurn::Ask { scan, action } => {
                if let ProbeAction::PathExists { path } = &action {
                    asked.push(path.clone());
                }
                turn = scan.resume(ProbeReply { found: false, text: "ignored".to_string() });
            }
        }
    }
    assert_eq!(asked[0], "\\Git\\bin\\bash.exe");
    assert!(!asked.iter().any(|path| path.contains("ignored")));
}

#[test]
fn each_detection_probes_afresh() {
    let (first, _) = detect(OsFamily::Linux, &machine(&[], &[], &["zsh"]));
    let (second, _) = detect(OsFamily::Linux, &machine(&[], &[], &[]));
    assert!(first[1].available);
    assert!(!second[1].available);
}

#[test]
fn the_locator_is_where_on_windows_and_which_elsewhere() {
    assert_eq!(command_locator(OsFamily::Windows), "where");
    assert_eq!(command_locator(OsFamily::MacOs), "which");
    assert_eq!(command_locator(OsFamily::Linux), "which");
    assert_eq!(command_locator(OsFamily::Other), "which");
}

#[test]
fn a_command_probe_names_the_locator_of_the_family() {
    for (family, expected) in [(OsFamily::Windows, "where"), (OsFamily::Linux, "which")] {
        match detect_available_terminals(family) {
            ScanTurn::Ask { action: ProbeAction::CommandExists { locator, .. }, .. } => {
                assert_eq!(locator, expected)
            }
            _ => panic!("the first probe resolves a command"),
        }
    }
}

#[test]
fn only_exit_status_zero_counts_as_found() {
    assert!(ProbeReply::of_exit(Some(0)).found);
    assert!(!ProbeReply::of_exit(Some(1)).found);
    assert!(!ProbeReply::of_exit(Some(-1)).found);
    assert!(!ProbeReply::of_exit(Some(127)).found);
    assert!(!ProbeReply::of_exit(None).found);
}

#[test]
fn a_locator_that_cannot_be_started_degrades_to_unavailable() {
    let mut turn = detect_available_terminals(OsFamily::Linux);
    let report = loop {
        match turn {
            ScanTurn::Report { terminals } => break terminals,
            ScanTurn::Ask { scan, .. } => turn = scan.resume(ProbeReply::of_exit(None)),
        }
    };
    assert_eq!(report.len(), 7);
    assert!(report.iter().all(|t| !t.available));
}

#[test]
fn replies_of_variables_and_paths() {
    let set = ProbeReply::of_variable(Some("C:\\Program Files".to_string()));
    assert!(set.found);
    assert_eq!(set.text, "C:\\Program Files");
    let unset = ProbeReply::of_variable(None);
    assert!(!unset.found);
    assert_eq!(unset.text, "");
    assert!(ProbeReply::of_existence(true).found);
    assert!(!ProbeReply::of_existence(false).found);
}
