//! Reading script names from manifest text handed in per ancestor level.

use anypm::patch_commands;
use anypm::read_package_json_scripts;

#[test]
fn test_read_package_json_scripts_success() {
    let package_json_content = r#"
    {
        "name": "test-project",
        "scripts": {
            "dev": "next dev",
            "build": "next build",
            "start": "next start",
            "typecheck": "tsc --noEmit",
            "test": "jest"
        }
    }
    "#;

    let manifests = vec![Some(package_json_content.to_string())];
    let scripts = read_package_json_scripts(&manifests);
    let mut expected = vec![
        "dev".to_string(),
        "build".to_string(),
        "start".to_string(),
        "typecheck".to_string(),
        "test".to_string(),
    ];
    let mut actual = scripts.clone();
    expected.sort();
    actual.sort();
    assert_eq!(actual, expected);
}

#[test]
fn test_read_package_json_scripts_no_scripts() {
    let package_json_content = r#"
    {
        "name": "test-project",
        "dependencies": {
            "react": "^18.0.0"
        }
    }
    "#;

    let manifests = vec![Some(package_json_content.to_string())];
    let scripts = read_package_json_scripts(&manifests);
    assert_eq!(scripts, Vec::<String>::new());
}

#[test]
fn test_read_package_json_scripts_no_file() {
    let manifests: Vec<Option<String>> = vec![None];
    let scripts = read_package_json_scripts(&manifests);
    assert_eq!(scripts, Vec::<String>::new());
}

#[test]
fn test_read_package_json_scripts_unparsable() {
    let manifests = vec![Some("{ not json ".to_string())];
    assert_eq!(read_package_json_scripts(&manifests), Vec::<String>::new());
}

#[test]
fn test_read_package_json_scripts_in_ancestor() {
    let content = r#"{ "scripts": { "dev": "vite" } }"#;
    let manifests = vec![None, None, Some(content.to_string())];
    assert_eq!(read_package_json_scripts(&manifests), vec!["dev"]);
}

#[test]
fn test_read_package_json_scripts_nearest_manifest_wins() {
    let near = r#"{ "scripts": { "near": "x" } }"#;
    let far = r#"{ "scripts": { "far": "y" } }"#;
    let manifests = vec![Some(near.to_string()), Some(far.to_string())];
    assert_eq!(read_package_json_scripts(&manifests), vec!["near"]);
}

#[test]
fn test_read_package_json_scripts_beyond_walk_bound() {
    let content = r#"{ "scripts": { "dev": "vite" } }"#;
    let mut manifests: Vec<Option<String>> = vec![None; 6];
    manifests.push(Some(content.to_string()));
    assert_eq!(read_package_json_scripts(&manifests), Vec::<String>::new());
}

#[test]
fn test_read_package_json_scripts_scripts_not_object() {
    let manifests = vec![Some(r#"{ "scripts": "none" }"#.to_string())];
    assert_eq!(read_package_json_scripts(&manifests), Vec::<String>::new());
}

#[test]
fn test_autocorrect_command_with_scripts() {
    let scripts = vec!["typecheck".to_string()];
    let result = anypm::autocorrect_command("typecheck", &scripts);
    assert_eq!(result, "typecheck");
}

#[test]
fn test_patch_commands_with_autocorrect() {
    // An existing script is not wrapped in npm's `run` prefix.
    let scripts = vec!["typecheck".to_string(), "dev".to_string()];
    let args = vec!["typecheck".to_string()];
    let result = patch_commands("npm", &args, &scripts);
    assert_eq!(result, vec!["typecheck"]);
}

#[test]
fn test_patch_commands_autocorrects_typo_into_script() {
    let scripts = vec!["typecheck".to_string(), "dev".to_string()];
    let args = vec!["typechek".to_string(), "--watch".to_string()];
    let result = patch_commands("npm", &args, &scripts);
    assert_eq!(result, vec!["typecheck", "--watch"]);
}
