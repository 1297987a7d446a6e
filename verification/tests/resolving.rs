use codecrafters_shell::builtins::Builtin;
use codecrafters_shell::resolver::{
    get_all_executables, get_executable_path, resolve, Candidate, DirEntry, Resolution,
};

fn candidate(path: &str, is_file: bool, mode: u32) -> Candidate {
    Candidate { path: path.to_string(), is_file, mode }
}

fn entry(name: Option<&str>, is_file: bool, mode: u32) -> DirEntry {
    DirEntry { name: name.map(|n| n.to_string()), is_file, mode }
}

#[test]
fn builtin_names_parse() {
    assert_eq!(Builtin::from_str("exit"), Ok(Builtin::Exit));
    assert_eq!(Builtin::from_str("echo"), Ok(Builtin::Echo));
    assert_eq!(Builtin::from_str("type"), Ok(Builtin::Type));
    assert_eq!(Builtin::from_str("pwd"), Ok(Builtin::Pwd));
    assert_eq!(Builtin::from_str("cd"), Ok(Builtin::Cd));
    assert_eq!(Builtin::from_str("history"), Ok(Builtin::History));
    assert_eq!("echo".parse::<Builtin>(), Ok(Builtin::Echo));
}

#[test]
fn other_names_are_no_builtins() {
    assert_eq!(Builtin::from_str("ls"), Err(()));
    assert_eq!(Builtin::from_str(""), Err(()));
    assert_eq!(Builtin::from_str("Echo"), Err(()));
    assert_eq!(Builtin::from_str("echo "), Err(()));
    assert_eq!("cat".parse::<Builtin>(), Err(()));
}

#[test]
fn builtins_shadow_executables() {
    let candidates = vec![candidate("/bin/echo", true, 0o755)];
    assert_eq!(resolve("echo", &candidates), Resolution::Builtin(Builtin::Echo));
}

#[test]
fn first_executable_candidate_wins() {
    let candidates = vec![
        candidate("/a/ls", false, 0o755),
        candidate("/b/ls", true, 0o644),
        candidate("/c/ls", true, 0o700),
        candidate("/d/ls", true, 0o755),
    ];
    assert_eq!(resolve("ls", &candidates), Resolution::External("/c/ls".to_string()));
    assert_eq!(get_executable_path(&candidates), Some("/c/ls".to_string()));
}

#[test]
fn any_execute_bit_is_enough() {
    for mode in [0o100, 0o010, 0o001, 0o111, 0o654] {
        let candidates = vec![candidate("/x/prog", true, mode)];
        assert_eq!(resolve("prog", &candidates), Resolution::External("/x/prog".to_string()));
    }
}

#[test]
fn unknown_names_are_not_found() {
    assert_eq!(resolve("nope", &Vec::new()), Resolution::NotFound);
    assert_eq!(get_executable_path(&Vec::new()), None);
}

#[test]
fn never_external_without_a_regular_executable_file() {
    let modes = [0o000, 0o644, 0o600, 0o666, 0o755, 0o100];
    for mode in modes {
        for is_file in [false, true] {
            let candidates = vec![candidate("/x/prog", is_file, mode)];
            let executable = is_file && mode & 0o111 != 0;
            match resolve("prog", &candidates) {
                Resolution::External(path) => {
                    assert!(executable);
                    assert_eq!(path, "/x/prog");
                },
                Resolution::NotFound => assert!(!executable),
                Resolution::Builtin(_) => panic!("prog is no builtin"),
            }
            assert_eq!(candidates[0].is_executable(), executable);
        }
    }
}

#[test]
fn executables_of_a_listing() {
    let entries = vec![
        entry(Some("ls"), true, 0o755),
        entry(Some("notes.txt"), true, 0o644),
        entry(Some("sub"), false, 0o755),
        entry(None, true, 0o755),
        entry(Some("cat"), true, 0o001),
        entry(Some("ls"), true, 0o700),
    ];
    assert_eq!(get_all_executables(&entries), vec!["ls", "cat", "ls"]);
    assert_eq!(get_all_executables(&Vec::new()), Vec::<String>::new());
}
