//! Per-manager alias tables: each manager maps shorthand verbs to one or
//! more canonical tokens of its own vocabulary.  The four tables are
//! deliberately independent — the managers' native vocabularies differ, so
//! the same shorthand may expand differently (npm has no `dev` subcommand
//! and needs `run dev`; yarn runs `dev` directly).  A token that is not a
//! shorthand of the given manager passes through unchanged.

use vstd::prelude::*;
use vstd::string::StringExecFns;

use crate::manager::PackageManager;
use crate::strutil::str_eq;

verus! {

/// npm's alias table.
pub open spec fn patch_npm_spec(cmd: Seq<char>) -> Seq<Seq<char>> {
    if cmd == "i"@ || cmd == "a"@ {
        seq!["install"@]
    } else if cmd == "r"@ || cmd == "rm"@ {
        seq!["uninstall"@]
    } else if cmd == "d"@ || cmd == "dev"@ {
        seq!["run"@, "dev"@]
    } else if cmd == "b"@ || cmd == "build"@ {
        seq!["run"@, "build"@]
    } else if cmd == "s"@ {
        seq!["start"@]
    } else if cmd == "t"@ {
        seq!["test"@]
    } else if cmd == "up"@ {
        seq!["update"@]
    } else if cmd == "ls"@ {
        seq!["list"@]
    } else {
        seq![cmd]
    }
}

/// yarn's alias table.
pub open spec fn patch_yarn_spec(cmd: Seq<char>) -> Seq<Seq<char>> {
    if cmd == "i"@ {
        seq!["install"@]
    } else if cmd == "a"@ {
        seq!["add"@]
    } else if cmd == "r"@ || cmd == "rm"@ {
        seq!["remove"@]
    } else if cmd == "d"@ {
        seq!["dev"@]
    } else if cmd == "b"@ {
        seq!["build"@]
    } else if cmd == "s"@ {
        seq!["start"@]
    } else if cmd == "t"@ {
        seq!["test"@]
    } else if cmd == "up"@ {
        seq!["upgrade"@]
    } else if cmd == "ls"@ {
        seq!["list"@]
    } else {
        seq![cmd]
    }
}

/// pnpm's alias table.
pub open spec fn patch_pnpm_spec(cmd: Seq<char>) -> Seq<Seq<char>> {
    if cmd == "i"@ {
        seq!["install"@]
    } else if cmd == "a"@ {
        seq!["add"@]
    } else if cmd == "r"@ || cmd == "rm"@ {
        seq!["remove"@]
    } else if cmd == "d"@ || cmd == "dev"@ {
        seq!["run"@, "dev"@]
    } else if cmd == "b"@ || cmd == "build"@ {
        seq!["run"@, "build"@]
    } else if cmd == "s"@ {
        seq!["start"@]
    } else if cmd == "t"@ {
        seq!["test"@]
    } else if cmd == "up"@ {
        seq!["update"@]
    } else if cmd == "ls"@ {
        seq!["list"@]
    } else {
        seq![cmd]
    }
}

/// bun's alias table.
pub open spec fn patch_bun_spec(cmd: Seq<char>) -> Seq<Seq<char>> {
    if cmd == "i"@ {
        seq!["install"@]
    } else if cmd == "a"@ {
        seq!["add"@]
    } else if cmd == "r"@ || cmd == "rm"@ {
        seq!["remove"@]
    } else if cmd == "d"@ || cmd == "dev"@ {
        seq!["run"@, "dev"@]
    } else if cmd == "b"@ || cmd == "build"@ {
        seq!["run"@, "build"@]
    } else if cmd == "s"@ {
        seq!["start"@]
    } else if cmd == "t"@ {
        seq!["test"@]
    } else if cmd == "up"@ {
        seq!["update"@]
    } else if cmd == "ls"@ {
        seq!["list"@]
    } else {
        seq![cmd]
    }
}

/// The alias table of `manager`; with no known manager every token passes
/// through unchanged.
pub open spec fn patch_for_spec(manager: Option<PackageManager>, cmd: Seq<char>) -> Seq<
    Seq<char>,
> {
    match manager {
        Some(PackageManager::Npm) => patch_npm_spec(cmd),
        Some(PackageManager::Yarn) => patch_yarn_spec(cmd),
        Some(PackageManager::Pnpm) => patch_pnpm_spec(cmd),
        Some(PackageManager::Bun) => patch_bun_spec(cmd),
        None => seq![cmd],
    }
}

/// Whether `cmd` is a shorthand key of `manager`'s alias table, that is, a
/// token the table maps to something other than itself.
pub open spec fn is_shorthand(manager: Option<PackageManager>, cmd: Seq<char>) -> bool {
    match manager {
        Some(PackageManager::Npm) | Some(PackageManager::Pnpm) | Some(PackageManager::Bun) => {
            ||| cmd == "i"@
            ||| cmd == "a"@
            ||| cmd == "r"@
            ||| cmd == "rm"@
            ||| cmd == "d"@
            ||| cmd == "dev"@
            ||| cmd == "b"@
            ||| cmd == "build"@
            ||| cmd == "s"@
            ||| cmd == "t"@
            ||| cmd == "up"@
            ||| cmd == "ls"@
        },
        Some(PackageManager::Yarn) => {
            ||| cmd == "i"@
            ||| cmd == "a"@
            ||| cmd == "r"@
            ||| cmd == "rm"@
            ||| cmd == "d"@
            ||| cmd == "b"@
            ||| cmd == "s"@
            ||| cmd == "t"@
            ||| cmd == "up"@
            ||| cmd == "ls"@
        },
        None => false,
    }
}

/// A single-token vector holding the characters of `s`.
fn single(s: &str) -> (r: Vec<String>)
    ensures
        r.deep_view() == seq![s@],
{
    let mut r: Vec<String> = Vec::new();
    r.push(String::from_str(s));
    proof {
        assert(r.deep_view() =~= seq![s@]);
    }
    r
}

/// A two-token vector holding the characters of `s1` and `s2`.
fn pair(s1: &str, s2: &str) -> (r: Vec<String>)
    ensures
        r.deep_view() == seq![s1@, s2@],
{
    let mut r: Vec<String> = Vec::new();
    r.push(String::from_str(s1));
    r.push(String::from_str(s2));
    proof {
        assert(r.deep_view() =~= seq![s1@, s2@]);
    }
    r
}

/// Expand one command token according to npm's alias table.
pub fn patch_npm_command(cmd: &str) -> (r: Vec<String>)
    ensures
        r.deep_view() == patch_npm_spec(cmd@),
{
    if str_eq(cmd, "i") || str_eq(cmd, "a") {
        single("install")
    } else if str_eq(cmd, "r") || str_eq(cmd, "rm") {
        single("uninstall")
    } else if str_eq(cmd, "d") || str_eq(cmd, "dev") {
        pair("run", "dev")
    } else if str_eq(cmd, "b") || str_eq(cmd, "build") {
        pair("run", "build")
    } else if str_eq(cmd, "s") {
        single("start")
    } else if str_eq(cmd, "t") {
        single("test")
    } else if str_eq(cmd, "up") {
        single("update")
    } else if str_eq(cmd, "ls") {
        single("list")
    } else {
        single(cmd)
    }
}

/// Expand one command token according to yarn's alias table.
pub fn patch_yarn_command(cmd: &str) -> (r: Vec<String>)
    ensures
        r.deep_view() == patch_yarn_spec(cmd@),
{
    if str_eq(cmd, "i") {
        single("install")
    } else if str_eq(cmd, "a") {
        single("add")
    } else if str_eq(cmd, "r") || str_eq(cmd, "rm") {
        single("remove")
    } else if str_eq(cmd, "d") {
        single("dev")
    } else if str_eq(cmd, "b") {
        single("build")
    } else if str_eq(cmd, "s") {
        single("start")
    } else if str_eq(cmd, "t") {
        single("test")
    } else if str_eq(cmd, "up") {
        single("upgrade")
    } else if str_eq(cmd, "ls") {
        single("list")
    } else {
        single(cmd)
    }
}

/// Expand one command token according to pnpm's alias table.
pub fn patch_pnpm_command(cmd: &str) -> (r: Vec<String>)
    ensures
        r.deep_view() == patch_pnpm_spec(cmd@),
{
    if str_eq(cmd, "i") {
        single("install")
    } else if str_eq(cmd, "a") {
        single("add")
    } else if str_eq(cmd, "r") || str_eq(cmd, "rm") {
        single("remove")
    } else if str_eq(cmd, "d") || str_eq(cmd, "dev") {
        pair("run", "dev")
    } else if str_eq(cmd, "b") || str_eq(cmd, "build") {
        pair("run", "build")
    } else if str_eq(cmd, "s") {
        single("start")
    } else if str_eq(cmd, "t") {
        single("test")
    } else if str_eq(cmd, "up") {
        single("update")
    } else if str_eq(cmd, "ls") {
        single("list")
    } else {
        single(cmd)
    }
}

/// Expand one command token according to bun's alias table.
pub fn patch_bun_command(cmd: &str) -> (r: Vec<String>)
    ensures
        r.deep_view() == patch_bun_spec(cmd@),
{
    if str_eq(cmd, "i") {
        single("install")
    } else if str_eq(cmd, "a") {
        single("add")
    } else if str_eq(cmd, "r") || str_eq(cmd, "rm") {
        single("remove")
    } else if str_eq(cmd, "d") || str_eq(cmd, "dev") {
        pair("run", "dev")
    } else if str_eq(cmd, "b") || str_eq(cmd, "build") {
        pair("run", "build")
    } else if str_eq(cmd, "s") {
        single("start")
    } else if str_eq(cmd, "t") {
        single("test")
    } else if str_eq(cmd, "up") {
        single("update")
    } else if str_eq(cmd, "ls") {
        single("list")
    } else {
        single(cmd)
    }
}

/// A token that is not a shorthand of the given manager passes through the
/// alias table unchanged, whatever the manager.
pub proof fn lemma_patch_passthrough(manager: Option<PackageManager>, cmd: Seq<char>)
    requires
        !is_shorthand(manager, cmd),
    ensures
        patch_for_spec(manager, cmd) == seq![cmd],
{
}

/// The exact token `install` passes through every manager's alias table
/// unchanged.
pub proof fn lemma_patch_install(manager: Option<PackageManager>)
    ensures
        patch_for_spec(manager, "install"@) == seq!["install"@],
{
    lemma_shorthand_lens();
    reveal_strlit("install");
    assert("install"@.len() == 7);
    lemma_patch_passthrough(manager, "install"@);
}

/// The lengths of every shorthand key, so that longer tokens are visibly
/// not shorthands.
proof fn lemma_shorthand_lens()
    ensures
        "i"@.len() == 1,
        "a"@.len() == 1,
        "r"@.len() == 1,
        "rm"@.len() == 2,
        "d"@.len() == 1,
        "dev"@.len() == 3,
        "b"@.len() == 1,
        "build"@.len() == 5,
        "s"@.len() == 1,
        "t"@.len() == 1,
        "up"@.len() == 2,
        "ls"@.len() == 2,
        "dev"@[0] == 'd',
        "build"@[0] == 'b',
{
    reveal_strlit("i");
    reveal_strlit("a");
    reveal_strlit("r");
    reveal_strlit("rm");
    reveal_strlit("d");
    reveal_strlit("dev");
    reveal_strlit("b");
    reveal_strlit("build");
    reveal_strlit("s");
    reveal_strlit("t");
    reveal_strlit("up");
    reveal_strlit("ls");
}

/// Whether `cmd` is one of `manager`'s own canonical single-token verbs:
/// a token its alias table itself produces as a complete command.
pub open spec fn is_canonical_verb(manager: PackageManager, cmd: Seq<char>) -> bool {
    match manager {
        PackageManager::Npm => {
            ||| cmd == "install"@
            ||| cmd == "uninstall"@
            ||| cmd == "start"@
            ||| cmd == "test"@
            ||| cmd == "update"@
            ||| cmd == "list"@
        },
        PackageManager::Yarn => {
            ||| cmd == "install"@
            ||| cmd == "add"@
            ||| cmd == "remove"@
            ||| cmd == "dev"@
            ||| cmd == "build"@
            ||| cmd == "start"@
            ||| cmd == "test"@
            ||| cmd == "upgrade"@
            ||| cmd == "list"@
        },
        PackageManager::Pnpm | PackageManager::Bun => {
            ||| cmd == "install"@
            ||| cmd == "add"@
            ||| cmd == "remove"@
            ||| cmd == "start"@
            ||| cmd == "test"@
            ||| cmd == "update"@
            ||| cmd == "list"@
        },
    }
}

/// Patching an already-canonical command is a no-op: every canonical verb
/// of a manager passes through that manager's alias table unchanged.
pub proof fn lemma_patch_canonical_noop(manager: PackageManager, cmd: Seq<char>)
    requires
        is_canonical_verb(manager, cmd),
    ensures
        patch_for_spec(Some(manager), cmd) == seq![cmd],
{
    lemma_shorthand_lens();
    reveal_strlit("install");
    reveal_strlit("uninstall");
    reveal_strlit("add");
    reveal_strlit("remove");
    reveal_strlit("dev");
    reveal_strlit("build");
    reveal_strlit("start");
    reveal_strlit("test");
    reveal_strlit("update");
    reveal_strlit("upgrade");
    reveal_strlit("list");
    assert("install"@.len() == 7);
    assert("uninstall"@.len() == 9);
    assert("add"@.len() == 3);
    assert("remove"@.len() == 6);
    assert("start"@.len() == 5);
    assert("test"@.len() == 4);
    assert("update"@.len() == 6);
    assert("upgrade"@.len() == 7);
    assert("list"@.len() == 4);
    assert("add"@[0] == 'a');
    assert("start"@[0] == 's');
    assert("dev"@.len() == 3);
    assert("build"@.len() == 5);
    lemma_patch_passthrough(Some(manager), cmd);
}

} // verus!
