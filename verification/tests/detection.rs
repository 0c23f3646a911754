//! Lock-file detection over synthetic directory listings: `listings[0]` is
//! the starting directory's file names, `listings[k]` the names of its
//! `k`-th ancestor.

use anypm::PackageManager;
use anypm::detect_package_manager;

fn listing(names: &[&str]) -> Vec<String> {
    names.iter().map(|s| s.to_string()).collect()
}

#[test]
fn test_detect_npm() {
    let listings = vec![listing(&["package-lock.json"])];
    let result = detect_package_manager(&listings);
    assert_eq!(result, Some(PackageManager::Npm));
    assert_eq!(result.unwrap().name(), "npm");
}

#[test]
fn test_detect_yarn() {
    let listings = vec![listing(&["yarn.lock"])];
    let result = detect_package_manager(&listings);
    assert_eq!(result, Some(PackageManager::Yarn));
    assert_eq!(result.unwrap().name(), "yarn");
}

#[test]
fn test_detect_bun() {
    let listings = vec![listing(&["bun.lockb"])];
    let result = detect_package_manager(&listings);
    assert_eq!(result, Some(PackageManager::Bun));
    assert_eq!(result.unwrap().name(), "bun");
}

#[test]
fn test_detect_bun_text_lock() {
    let listings = vec![listing(&["bun.lock"])];
    assert_eq!(detect_package_manager(&listings), Some(PackageManager::Bun));
}

#[test]
fn test_detect_pnpm() {
    let listings = vec![listing(&["pnpm-lock.yaml"])];
    let result = detect_package_manager(&listings);
    assert_eq!(result, Some(PackageManager::Pnpm));
    assert_eq!(result.unwrap().name(), "pnpm");
}

#[test]
fn test_no_package_manager() {
    let listings = vec![listing(&[])];
    let result = detect_package_manager(&listings);
    assert_eq!(result, None);
}

#[test]
fn test_unrelated_files_are_no_markers() {
    let listings = vec![listing(&["package.json", "README.md", "yarn.lock.bak"])];
    assert_eq!(detect_package_manager(&listings), None);
}

#[test]
fn test_detect_in_parent_directory() {
    let listings = vec![listing(&[]), listing(&["package-lock.json"])];
    let result = detect_package_manager(&listings);
    assert_eq!(result, Some(PackageManager::Npm));
}

#[test]
fn test_detect_in_grandparent_directory() {
    let listings = vec![listing(&[]), listing(&[]), listing(&["yarn.lock"])];
    let result = detect_package_manager(&listings);
    assert_eq!(result, Some(PackageManager::Yarn));
}

#[test]
fn test_multiple_package_managers_npm_priority() {
    let listings = vec![listing(&["package-lock.json", "yarn.lock", "bun.lockb"])];
    let result = detect_package_manager(&listings);
    // With several markers in one directory, listing order decides; any of
    // the marked managers is a valid answer.
    assert!(result.is_some());
    let manager = result.unwrap().name();
    assert!(manager == "npm" || manager == "yarn" || manager == "bun");
}

#[test]
fn test_max_directory_traversal() {
    // The marker sits eight levels up: past the starting directory plus
    // five ancestors, so it must not be found.
    let mut listings = vec![listing(&[]); 8];
    listings.push(listing(&["package-lock.json"]));
    let result = detect_package_manager(&listings);
    assert_eq!(result, None);
}

#[test]
fn test_within_traversal_limit() {
    // The marker sits four levels up, within the bound.
    let mut listings = vec![listing(&[]); 4];
    listings.push(listing(&["bun.lockb"]));
    let result = detect_package_manager(&listings);
    assert_eq!(result, Some(PackageManager::Bun));
}

#[test]
fn test_marker_at_fifth_ancestor_found() {
    let mut listings = vec![listing(&[]); 5];
    listings.push(listing(&["pnpm-lock.yaml"]));
    assert_eq!(detect_package_manager(&listings), Some(PackageManager::Pnpm));
}

#[test]
fn test_marker_at_sixth_ancestor_ignored() {
    let mut listings = vec![listing(&[]); 6];
    listings.push(listing(&["pnpm-lock.yaml"]));
    assert_eq!(detect_package_manager(&listings), None);
}

#[test]
fn test_closest_marker_wins() {
    let listings = vec![listing(&["yarn.lock"]), listing(&["package-lock.json"])];
    assert_eq!(detect_package_manager(&listings), Some(PackageManager::Yarn));
}

#[test]
fn test_from_name_round_trip() {
    for name in ["npm", "yarn", "pnpm", "bun"] {
        let manager = PackageManager::from_name(name).unwrap();
        assert_eq!(manager.name(), name);
    }
    assert_eq!(PackageManager::from_name("cargo"), None);
}
