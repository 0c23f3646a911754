//! The command pipeline: given a manager and an argument vector, the
//! leading token is autocorrected against the declared scripts — unless it
//! is a verb the manager already knows — and then expanded through the
//! manager's alias table; the remaining tokens pass through untouched, in
//! order.

use vstd::prelude::*;
use vstd::string::StringExecFns;

use crate::aliases::patch_bun_command;
use crate::aliases::patch_for_spec;
use crate::aliases::patch_npm_command;
use crate::aliases::patch_pnpm_command;
use crate::aliases::patch_yarn_command;
use crate::fuzzy::find_similar_command;
use crate::fuzzy::find_similar_spec;
use crate::manager::PackageManager;
use crate::manager::manager_of_name;
use crate::strutil::contains_str;
use crate::strutil::str_eq;

verus! {

/// Whether `cmd` is a native verb or native shorthand of `manager`, one
/// the manager understands by itself; such a token is never autocorrected.
pub open spec fn known_verb(manager: Option<PackageManager>, cmd: Seq<char>) -> bool {
    match manager {
        Some(PackageManager::Npm) => {
            ||| cmd == "install"@
            ||| cmd == "i"@
            ||| cmd == "uninstall"@
            ||| cmd == "r"@
            ||| cmd == "rm"@
            ||| cmd == "start"@
            ||| cmd == "s"@
            ||| cmd == "test"@
            ||| cmd == "t"@
            ||| cmd == "update"@
            ||| cmd == "up"@
            ||| cmd == "list"@
            ||| cmd == "ls"@
            ||| cmd == "init"@
            ||| cmd == "publish"@
            ||| cmd == "pack"@
            ||| cmd == "version"@
            ||| cmd == "audit"@
        },
        Some(PackageManager::Yarn) => {
            ||| cmd == "install"@
            ||| cmd == "i"@
            ||| cmd == "add"@
            ||| cmd == "a"@
            ||| cmd == "remove"@
            ||| cmd == "rm"@
            ||| cmd == "start"@
            ||| cmd == "s"@
            ||| cmd == "test"@
            ||| cmd == "t"@
            ||| cmd == "upgrade"@
            ||| cmd == "up"@
            ||| cmd == "list"@
            ||| cmd == "ls"@
            ||| cmd == "init"@
            ||| cmd == "publish"@
            ||| cmd == "pack"@
            ||| cmd == "version"@
            ||| cmd == "audit"@
        },
        Some(PackageManager::Pnpm) | Some(PackageManager::Bun) => {
            ||| cmd == "install"@
            ||| cmd == "i"@
            ||| cmd == "add"@
            ||| cmd == "a"@
            ||| cmd == "remove"@
            ||| cmd == "rm"@
            ||| cmd == "start"@
            ||| cmd == "s"@
            ||| cmd == "test"@
            ||| cmd == "t"@
            ||| cmd == "update"@
            ||| cmd == "up"@
            ||| cmd == "list"@
            ||| cmd == "ls"@
            ||| cmd == "init"@
            ||| cmd == "publish"@
            ||| cmd == "pack"@
            ||| cmd == "version"@
            ||| cmd == "audit"@
        },
        None => false,
    }
}

/// The autocorrected form of a typed token: unchanged when no scripts are
/// known or the token is already a declared script; otherwise the fuzzy
/// resolver's best candidate, if it is confident, and the token itself if
/// not.
pub open spec fn autocorrect_spec(cmd: Seq<char>, scripts: Seq<Seq<char>>) -> Seq<char> {
    if scripts.len() > 0 {
        if scripts.contains(cmd) {
            cmd
        } else {
            match find_similar_spec(cmd, scripts) {
                Some(p) => p.0,
                None => cmd,
            }
        }
    } else {
        cmd
    }
}

/// The leading token after the autocorrect stage: a verb the manager
/// already knows is kept as typed; anything else is autocorrected against
/// the declared scripts.
pub open spec fn try_autocorrect_spec(
    manager: Seq<char>,
    cmd: Seq<char>,
    scripts: Seq<Seq<char>>,
) -> Seq<char> {
    if known_verb(manager_of_name(manager), cmd) {
        cmd
    } else {
        autocorrect_spec(cmd, scripts)
    }
}

/// The whole pipeline on an argument vector: empty stays empty; otherwise
/// the leading token is autocorrected, then expanded through the manager's
/// alias table, and the remaining tokens follow unchanged, in order.
pub open spec fn patch_commands_spec(
    manager: Seq<char>,
    args: Seq<Seq<char>>,
    scripts: Seq<Seq<char>>,
) -> Seq<Seq<char>> {
    if args.len() == 0 {
        args
    } else {
        let corrected = try_autocorrect_spec(manager, args[0], scripts);
        patch_for_spec(manager_of_name(manager), corrected) + args.drop_first()
    }
}

/// Whether the argument vector invokes a package installation: its leading
/// token is `install` or `add`, or a shorthand of either.
pub open spec fn is_install_spec(args: Seq<Seq<char>>) -> bool {
    args.len() > 0 && (args[0] == "install"@ || args[0] == "i"@ || args[0] == "add"@ || args[0]
        == "a"@)
}

/// Autocorrect one typed token against the declared script names.
pub fn autocorrect_command(cmd: &str, scripts: &Vec<String>) -> (r: String)
    ensures
        r@ == autocorrect_spec(cmd@, scripts.deep_view()),
{
    if scripts.len() > 0 {
        if contains_str(scripts, cmd) {
            return String::from_str(cmd);
        }
        match find_similar_command(cmd, scripts) {
            Some(p) => p.0,
            None => String::from_str(cmd),
        }
    } else {
        String::from_str(cmd)
    }
}

/// Whether `cmd` is a native verb or native shorthand of the manager
/// called `manager`.
pub fn is_known_verb(manager: &str, cmd: &str) -> (r: bool)
    ensures
        r == known_verb(manager_of_name(manager@), cmd@),
{
    match PackageManager::from_name(manager) {
        Some(PackageManager::Npm) => str_eq(cmd, "install") || str_eq(cmd, "i") || str_eq(
            cmd,
            "uninstall",
        ) || str_eq(cmd, "r") || str_eq(cmd, "rm") || str_eq(cmd, "start") || str_eq(cmd, "s")
            || str_eq(cmd, "test") || str_eq(cmd, "t") || str_eq(cmd, "update") || str_eq(cmd, "up")
            || str_eq(cmd, "list") || str_eq(cmd, "ls") || str_eq(cmd, "init") || str_eq(
            cmd,
            "publish",
        ) || str_eq(cmd, "pack") || str_eq(cmd, "version") || str_eq(cmd, "audit"),
        Some(PackageManager::Yarn) => str_eq(cmd, "install") || str_eq(cmd, "i") || str_eq(
            cmd,
            "add",
        ) || str_eq(cmd, "a") || str_eq(cmd, "remove") || str_eq(cmd, "rm") || str_eq(cmd, "start")
            || str_eq(cmd, "s") || str_eq(cmd, "test") || str_eq(cmd, "t") || str_eq(
            cmd,
            "upgrade",
        ) || str_eq(cmd, "up") || str_eq(cmd, "list") || str_eq(cmd, "ls") || str_eq(cmd, "init")
            || str_eq(cmd, "publish") || str_eq(cmd, "pack") || str_eq(cmd, "version") || str_eq(
            cmd,
            "audit",
        ),
        Some(PackageManager::Pnpm) | Some(PackageManager::Bun) => str_eq(cmd, "install") || str_eq(
            cmd,
            "i",
        ) || str_eq(cmd, "add") || str_eq(cmd, "a") || str_eq(cmd, "remove") || str_eq(cmd, "rm")
            || str_eq(cmd, "start") || str_eq(cmd, "s") || str_eq(cmd, "test") || str_eq(cmd, "t")
            || str_eq(cmd, "update") || str_eq(cmd, "up") || str_eq(cmd, "list") || str_eq(
            cmd,
            "ls",
        ) || str_eq(cmd, "init") || str_eq(cmd, "publish") || str_eq(cmd, "pack") || str_eq(
            cmd,
            "version",
        ) || str_eq(cmd, "audit"),
        None => false,
    }
}

/// The autocorrect stage for the leading token: a verb the manager already
/// knows is kept as typed; anything else is autocorrected against the
/// declared scripts.
pub fn try_autocorrect_script(manager: &str, cmd: &str, scripts: &Vec<String>) -> (r: String)
    ensures
        r@ == try_autocorrect_spec(manager@, cmd@, scripts.deep_view()),
{
    if is_known_verb(manager, cmd) {
        String::from_str(cmd)
    } else {
        autocorrect_command(cmd, scripts)
    }
}

/// Run the whole pipeline on an argument vector: autocorrect the leading
/// token, expand it through the alias table of the manager called
/// `manager`, and copy the remaining tokens through unchanged, in order.
pub fn patch_commands(manager: &str, args: &Vec<String>, scripts: &Vec<String>) -> (r: Vec<String>)
    ensures
        r.deep_view() == patch_commands_spec(manager@, args.deep_view(), scripts.deep_view()),
{
    let ghost argv = args.deep_view();
    if args.len() == 0 {
        let r: Vec<String> = Vec::new();
        proof {
            assert(r.deep_view() =~= argv);
        }
        return r;
    }
    let corrected = try_autocorrect_script(manager, args[0].as_str(), scripts);
    let mut result: Vec<String> = match PackageManager::from_name(manager) {
        Some(PackageManager::Npm) => patch_npm_command(corrected.as_str()),
        Some(PackageManager::Yarn) => patch_yarn_command(corrected.as_str()),
        Some(PackageManager::Pnpm) => patch_pnpm_command(corrected.as_str()),
        Some(PackageManager::Bun) => patch_bun_command(corrected.as_str()),
        None => {
            let mut r: Vec<String> = Vec::new();
            r.push(corrected);
            r
        },
    };
    let ghost patched = patch_for_spec(
        manager_of_name(manager@),
        try_autocorrect_spec(manager@, argv[0], scripts.deep_view()),
    );
    proof {
        assert(result.deep_view() =~= patched);
    }
    let mut k: usize = 1;
    while k < args.len()
        invariant
            1 <= k <= args.len(),
            argv == args.deep_view(),
            argv.len() == args.len(),
            forall|j: int| 0 <= j < args.len() ==> argv[j] == args@[j]@,
            result.deep_view() == patched + argv.subrange(1, k as int),
        decreases args.len() - k,
    {
        let ghost pre = result.deep_view();
        result.push(args[k].clone());
        proof {
            assert(result.deep_view() =~= pre.push(argv[k as int]));
            assert(pre.push(argv[k as int]) =~= patched + argv.subrange(1, k as int + 1));
        }
        k = k + 1;
    }
    proof {
        assert(argv.subrange(1, argv.len() as int) =~= argv.drop_first());
    }
    result
}

/// Whether the argument vector invokes a package installation: its leading
/// token is `install` or `add`, or a shorthand of either.
pub fn is_install_command(args: &Vec<String>) -> (r: bool)
    ensures
        r == is_install_spec(args.deep_view()),
{
    if args.len() == 0 {
        return false;
    }
    proof {
        assert(args.deep_view()[0] == args@[0]@);
    }
    let first = &args[0];
    str_eq(first.as_str(), "install") || str_eq(first.as_str(), "i") || str_eq(
        first.as_str(),
        "add",
    ) || str_eq(first.as_str(), "a")
}

/// Exact membership pre-empts fuzzy resolution: a token that is already a
/// declared script name is never altered by autocorrection.
pub proof fn lemma_autocorrect_exact_member(cmd: Seq<char>, scripts: Seq<Seq<char>>)
    requires
        scripts.contains(cmd),
    ensures
        autocorrect_spec(cmd, scripts) == cmd,
{
}

/// A token the manager already knows is never altered by the autocorrect
/// stage, whatever scripts are declared.
pub proof fn lemma_known_verb_kept(manager: Seq<char>, cmd: Seq<char>, scripts: Seq<Seq<char>>)
    requires
        known_verb(manager_of_name(manager), cmd),
    ensures
        try_autocorrect_spec(manager, cmd, scripts) == cmd,
{
}

} // verus!
