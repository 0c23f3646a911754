//! A transparent front end for JavaScript package managers: it decides which
//! manager (npm, yarn, pnpm or bun) governs a project from the lock files in
//! the directory tree, expands per-manager shorthand verbs into the manager's
//! real subcommands, and autocorrects a mistyped script name against the
//! scripts declared in the nearest project manifest.

pub mod aliases;
pub mod fuzzy;
pub mod manager;
pub mod pipeline;
pub mod scripts;
pub mod strutil;

pub use aliases::patch_bun_command;
pub use aliases::patch_npm_command;
pub use aliases::patch_pnpm_command;
pub use aliases::patch_yarn_command;
pub use fuzzy::find_similar_command;
pub use fuzzy::levenshtein_distance;
pub use fuzzy::normalize;
pub use manager::PackageManager;
pub use manager::check_directory_for_package_manager;
pub use manager::detect_package_manager;
pub use pipeline::autocorrect_command;
pub use pipeline::is_install_command;
pub use pipeline::patch_commands;
pub use pipeline::try_autocorrect_script;
pub use scripts::read_package_json_scripts;
