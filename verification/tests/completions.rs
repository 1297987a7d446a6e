use codecrafters_shell::completion::{
    chars_less, find_candidates, has_prefix, insert_name, longest_common_prefix,
};

fn chars(s: &str) -> Vec<char> {
    s.chars().collect()
}

fn strings(items: &[&str]) -> Vec<String> {
    items.iter().map(|s| s.to_string()).collect()
}

#[test]
fn the_order_of_strings_is_the_standard_one() {
    let samples = ["", "a", "ab", "abc", "b", "B", "a b", "é", "z", "✓", "😀", "\u{ffff}", "ab\u{0}"];
    for a in samples {
        for b in samples {
            assert_eq!(chars_less(&chars(a), &chars(b)), a < b, "{:?} {:?}", a, b);
        }
    }
}

#[test]
fn prefixes() {
    assert!(has_prefix(&chars("echo"), &chars("")));
    assert!(has_prefix(&chars("echo"), &chars("ec")));
    assert!(has_prefix(&chars("echo"), &chars("echo")));
    assert!(!has_prefix(&chars("echo"), &chars("echo ")));
    assert!(!has_prefix(&chars("echo"), &chars("ch")));
    assert!(!has_prefix(&chars(""), &chars("a")));
}

#[test]
fn names_are_inserted_in_order_and_once() {
    let mut names = Vec::new();
    for name in ["pwd", "cd", "type", "cd", "echo", "a", "zz", "pwd", "echo"] {
        insert_name(&mut names, name);
    }
    assert_eq!(names, strings(&["a", "cd", "echo", "pwd", "type", "zz"]));
}

#[test]
fn candidates_for_e() {
    assert_eq!(find_candidates(&chars("e"), &[]), strings(&["echo", "exit"]));
}

#[test]
fn candidates_are_sorted_and_unique() {
    let executables = strings(&["env", "echo", "ls", "expr", "env", "e", "Echo", "elf"]);
    assert_eq!(
        find_candidates(&chars("e"), &executables),
        strings(&["e", "echo", "elf", "env", "exit", "expr"])
    );
    assert_eq!(
        find_candidates(&chars(""), &strings(&["ls", "cat"])),
        strings(&["cat", "cd", "echo", "exit", "history", "ls", "pwd", "type"])
    );
    assert_eq!(find_candidates(&chars("q"), &executables), Vec::<String>::new());
}

#[test]
fn candidates_agree_with_sort_and_dedup() {
    let executables = strings(&["b", "ab", "a", "abc", "ab", "", "é", "a✓", "history", "hi"]);
    for prefix in ["", "a", "ab", "h", "hi", "é", "x"] {
        let mut expected: Vec<String> = ["echo", "exit", "type", "pwd", "cd", "history"]
            .iter()
            .map(|s| s.to_string())
            .chain(executables.iter().cloned())
            .filter(|name| name.starts_with(prefix))
            .collect();
        expected.sort();
        expected.dedup();
        assert_eq!(find_candidates(&chars(prefix), &executables), expected, "{:?}", prefix);
    }
}

#[test]
fn longest_common_prefixes() {
    assert_eq!(longest_common_prefix(&[]), "");
    assert_eq!(longest_common_prefix(&strings(&["echo"])), "echo");
    assert_eq!(longest_common_prefix(&strings(&["echo", "exit"])), "e");
    assert_eq!(longest_common_prefix(&strings(&["abc", "abd", "ab"])), "ab");
    assert_eq!(longest_common_prefix(&strings(&["ab", "abc", "abd"])), "ab");
    assert_eq!(longest_common_prefix(&strings(&["abc", "xbc"])), "");
    assert_eq!(longest_common_prefix(&strings(&["abc", ""])), "");
    assert_eq!(longest_common_prefix(&strings(&["same", "same", "same"])), "same");
    assert_eq!(longest_common_prefix(&strings(&["é✓a", "é✓b"])), "é✓");
}

#[test]
fn the_common_prefix_starts_every_name_and_is_the_longest() {
    let names = strings(&["xyz_foo_bar", "xyz_foo", "xyz_fox"]);
    let prefix = longest_common_prefix(&names);
    assert_eq!(prefix, "xyz_fo");
    for name in &names {
        assert!(name.starts_with(&prefix));
    }
    let longer = format!("{}o", prefix);
    assert!(!names.iter().all(|name| name.starts_with(&longer)));
}
