//! The alias tables and the command pipeline, with no scripts declared.

use anypm::is_install_command;
use anypm::patch_commands;
use anypm::try_autocorrect_script;

fn args(tokens: &[&str]) -> Vec<String> {
    tokens.iter().map(|s| s.to_string()).collect()
}

#[test]
fn test_patch_commands_npm_install() {
    let result = patch_commands("npm", &args(&["i", "lodash"]), &Vec::new());
    assert_eq!(result, vec!["install", "lodash"]);
}

#[test]
fn test_patch_commands_npm_run_dev() {
    let result = patch_commands("npm", &args(&["d"]), &Vec::new());
    assert_eq!(result, vec!["run", "dev"]);
}

#[test]
fn test_patch_commands_yarn_add() {
    let result = patch_commands("yarn", &args(&["a", "react"]), &Vec::new());
    assert_eq!(result, vec!["add", "react"]);
}

#[test]
fn test_patch_commands_pnpm_remove() {
    let result = patch_commands("pnpm", &args(&["r", "lodash"]), &Vec::new());
    assert_eq!(result, vec!["remove", "lodash"]);
}

#[test]
fn test_patch_commands_bun_build() {
    let result = patch_commands("bun", &args(&["b"]), &Vec::new());
    assert_eq!(result, vec!["run", "build"]);
}

#[test]
fn test_patch_commands_no_patching_needed() {
    let result = patch_commands("npm", &args(&["install", "lodash"]), &Vec::new());
    assert_eq!(result, vec!["install", "lodash"]);
}

#[test]
fn test_patch_commands_unknown_manager() {
    let result = patch_commands("unknown", &args(&["i", "lodash"]), &Vec::new());
    assert_eq!(result, vec!["i", "lodash"]);
}

#[test]
fn test_patch_commands_empty_args() {
    let result = patch_commands("npm", &Vec::new(), &Vec::new());
    assert_eq!(result, Vec::<String>::new());
}

#[test]
fn test_patch_commands_preserves_additional_args() {
    let result = patch_commands("npm", &args(&["i", "lodash", "--save-dev"]), &Vec::new());
    assert_eq!(result, vec!["install", "lodash", "--save-dev"]);
}

#[test]
fn test_patch_npm_vs_yarn_add_command() {
    // npm has no `add`: `a` expands to `install` there.
    let npm_result = patch_commands("npm", &args(&["a", "lodash"]), &Vec::new());
    assert_eq!(npm_result, vec!["install", "lodash"]);

    // yarn has `add`: `a` expands to `add`.
    let yarn_result = patch_commands("yarn", &args(&["a", "lodash"]), &Vec::new());
    assert_eq!(yarn_result, vec!["add", "lodash"]);
}

#[test]
fn test_patch_commands_yarn_dev_vs_npm_run_dev() {
    // yarn can run dev directly.
    let yarn_result = patch_commands("yarn", &args(&["d"]), &Vec::new());
    assert_eq!(yarn_result, vec!["dev"]);

    // npm needs `run dev`.
    let npm_result = patch_commands("npm", &args(&["d"]), &Vec::new());
    assert_eq!(npm_result, vec!["run", "dev"]);
}

#[test]
fn test_patch_commands_all_shortcuts() {
    let shortcuts = vec![
        ("i", vec!["install"]),
        ("r", vec!["uninstall"]),
        ("rm", vec!["uninstall"]),
        ("s", vec!["start"]),
        ("t", vec!["test"]),
        ("up", vec!["update"]),
        ("ls", vec!["list"]),
    ];

    for (shortcut, expected) in shortcuts {
        let result = patch_commands("npm", &args(&[shortcut]), &Vec::new());
        assert_eq!(result, expected);
    }
}

#[test]
fn test_install_passes_through_every_manager() {
    for manager in ["npm", "yarn", "pnpm", "bun"] {
        let result = patch_commands(manager, &args(&["install"]), &Vec::new());
        assert_eq!(result, vec!["install"]);
    }
}

#[test]
fn test_canonical_verbs_are_no_ops() {
    let canonical: Vec<(&str, Vec<&str>)> = vec![
        ("npm", vec!["install", "uninstall", "start", "test", "update", "list"]),
        ("yarn", vec![
            "install", "add", "remove", "dev", "build", "start", "test", "upgrade", "list",
        ]),
        ("pnpm", vec!["install", "add", "remove", "start", "test", "update", "list"]),
        ("bun", vec!["install", "add", "remove", "start", "test", "update", "list"]),
    ];
    for (manager, verbs) in canonical {
        for verb in verbs {
            let result = patch_commands(manager, &args(&[verb]), &Vec::new());
            assert_eq!(result, vec![verb], "{} {}", manager, verb);
        }
    }
}

#[test]
fn test_is_install_command_true_cases() {
    assert!(is_install_command(&args(&["install"])));
    assert!(is_install_command(&args(&["i"])));
    assert!(is_install_command(&args(&["add"])));
    assert!(is_install_command(&args(&["a"])));
    assert!(is_install_command(&args(&["i", "lodash"])));
    assert!(is_install_command(&args(&["add", "react", "--save-dev"])));
}

#[test]
fn test_is_install_command_false_cases() {
    assert!(!is_install_command(&Vec::new()));
    assert!(!is_install_command(&args(&["build"])));
    assert!(!is_install_command(&args(&["dev"])));
    assert!(!is_install_command(&args(&["test"])));
    assert!(!is_install_command(&args(&["start"])));
    assert!(!is_install_command(&args(&["remove", "lodash"])));
    assert!(!is_install_command(&args(&["uninstall", "react"])));
}

#[test]
fn test_is_install_command_with_shortcuts() {
    // Shortcuts that map to install commands are detected.
    assert!(is_install_command(&args(&["i"])));
    assert!(is_install_command(&args(&["a"])));

    // Other shortcuts are not install commands.
    assert!(!is_install_command(&args(&["r"])));
    assert!(!is_install_command(&args(&["d"])));
    assert!(!is_install_command(&args(&["b"])));
}

#[test]
fn test_try_autocorrect_script_known_commands() {
    // Verbs the manager already knows are never autocorrected.
    assert_eq!(try_autocorrect_script("npm", "install", &Vec::new()), "install");
    assert_eq!(try_autocorrect_script("npm", "i", &Vec::new()), "i");
    assert_eq!(try_autocorrect_script("yarn", "add", &Vec::new()), "add");
    assert_eq!(try_autocorrect_script("pnpm", "remove", &Vec::new()), "remove");
}
