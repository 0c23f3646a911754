//! Manager identity and lock-file detection.
//!
//! A project is governed by exactly one of a closed set of package managers;
//! which one is decided purely by the presence of a manager-specific lock
//! file somewhere in a bounded ancestor walk of the working directory.

use vstd::prelude::*;
use vstd::string::StringExecFns;

use crate::strutil::str_eq;

verus! {

/// One of the package managers this tool knows how to drive.
#[derive(Copy, Clone, PartialEq, Eq, Structural, Debug)]
pub enum PackageManager {
    Npm,
    Yarn,
    Pnpm,
    Bun,
}

/// How many directories the ancestor walk inspects: the starting directory
/// plus five ancestors.
pub const WALK_BOUND: usize = 6;

impl PackageManager {
    /// The executable name of this manager.
    pub open spec fn name_spec(self) -> Seq<char> {
        match self {
            PackageManager::Npm => "npm"@,
            PackageManager::Yarn => "yarn"@,
            PackageManager::Pnpm => "pnpm"@,
            PackageManager::Bun => "bun"@,
        }
    }

    /// The executable name of this manager.
    pub fn name(&self) -> (r: String)
        ensures
            r@ == self.name_spec(),
    {
        match self {
            PackageManager::Npm => String::from_str("npm"),
            PackageManager::Yarn => String::from_str("yarn"),
            PackageManager::Pnpm => String::from_str("pnpm"),
            PackageManager::Bun => String::from_str("bun"),
        }
    }

    /// The manager whose executable is called `name`, if any.
    pub fn from_name(name: &str) -> (r: Option<PackageManager>)
        ensures
            r == manager_of_name(name@),
    {
        if str_eq(name, "npm") {
            Some(PackageManager::Npm)
        } else if str_eq(name, "yarn") {
            Some(PackageManager::Yarn)
        } else if str_eq(name, "pnpm") {
            Some(PackageManager::Pnpm)
        } else if str_eq(name, "bun") {
            Some(PackageManager::Bun)
        } else {
            None
        }
    }
}

/// The manager whose executable is called `name`, if any.
pub open spec fn manager_of_name(name: Seq<char>) -> Option<PackageManager> {
    if name == "npm"@ {
        Some(PackageManager::Npm)
    } else if name == "yarn"@ {
        Some(PackageManager::Yarn)
    } else if name == "pnpm"@ {
        Some(PackageManager::Pnpm)
    } else if name == "bun"@ {
        Some(PackageManager::Bun)
    } else {
        None
    }
}

/// The lock-marker table: the manager identified by a file of this name,
/// if the name is a recognized lock-file marker.
pub open spec fn marker_manager(file_name: Seq<char>) -> Option<PackageManager> {
    if file_name == "package-lock.json"@ {
        Some(PackageManager::Npm)
    } else if file_name == "yarn.lock"@ {
        Some(PackageManager::Yarn)
    } else if file_name == "bun.lockb"@ || file_name == "bun.lock"@ {
        Some(PackageManager::Bun)
    } else if file_name == "pnpm-lock.yaml"@ {
        Some(PackageManager::Pnpm)
    } else {
        None
    }
}

/// The manager identified by the first recognized lock-file marker in the
/// directory listing `files`, scanning from position `i` onward.
pub open spec fn dir_manager_from(files: Seq<Seq<char>>, i: int) -> Option<PackageManager>
    decreases files.len() - i,
{
    if i < 0 || i >= files.len() {
        None
    } else if marker_manager(files[i]) is Some {
        marker_manager(files[i])
    } else {
        dir_manager_from(files, i + 1)
    }
}

/// The manager identified by the first recognized lock-file marker in the
/// directory listing `files`, in listing order.
pub open spec fn dir_manager(files: Seq<Seq<char>>) -> Option<PackageManager> {
    dir_manager_from(files, 0)
}

/// The result of the bounded ancestor walk over `listings`, scanning from
/// level `i` onward: `listings[0]` is the listing of the starting directory
/// and `listings[k]` the listing of its `k`-th ancestor.  Only the first
/// `WALK_BOUND` levels are inspected.
pub open spec fn detect_from(listings: Seq<Seq<Seq<char>>>, i: int) -> Option<PackageManager>
    decreases listings.len() - i,
{
    if i < 0 || i >= listings.len() || i >= WALK_BOUND {
        None
    } else if dir_manager(listings[i]) is Some {
        dir_manager(listings[i])
    } else {
        detect_from(listings, i + 1)
    }
}

/// The result of the bounded ancestor walk over `listings`.
pub open spec fn detect_spec(listings: Seq<Seq<Seq<char>>>) -> Option<PackageManager> {
    detect_from(listings, 0)
}

/// The manager identified by the first recognized lock-file marker in
/// `files`, the names of the plain files of one directory, in listing order.
pub fn check_directory_for_package_manager(files: &Vec<String>) -> (r: Option<
    PackageManager,
>)
    ensures
        r == dir_manager(files.deep_view()),
{
    let ghost fs = files.deep_view();
    let mut i: usize = 0;
    while i < files.len()
        invariant
            i <= files.len(),
            fs == files.deep_view(),
            fs.len() == files.len(),
            forall|j: int| 0 <= j < files.len() ==> fs[j] == files@[j]@,
            dir_manager(fs) == dir_manager_from(fs, i as int),
        decreases files.len() - i,
    {
        let name = &files[i];
        if str_eq(name.as_str(), "package-lock.json") {
            return Some(PackageManager::Npm);
        }
        if str_eq(name.as_str(), "yarn.lock") {
            return Some(PackageManager::Yarn);
        }
        if str_eq(name.as_str(), "bun.lockb") || str_eq(name.as_str(), "bun.lock") {
            return Some(PackageManager::Bun);
        }
        if str_eq(name.as_str(), "pnpm-lock.yaml") {
            return Some(PackageManager::Pnpm);
        }
        proof {
            assert(marker_manager(fs[i as int]) is None);
        }
        i = i + 1;
    }
    None
}

/// Walk the directory listings of the starting directory and its ancestors,
/// closest first, and return the manager identified by the first recognized
/// lock-file marker within the first `WALK_BOUND` levels.  `listings[k]`
/// holds the names of the plain files of the `k`-th level; a level whose
/// directory could not be listed is represented by an empty listing.
pub fn detect_package_manager(listings: &Vec<Vec<String>>) -> (r: Option<PackageManager>)
    ensures
        r == detect_spec(listings.deep_view()),
{
    let ghost ls = listings.deep_view();
    let mut i: usize = 0;
    while i < listings.len() && i < WALK_BOUND
        invariant
            i <= listings.len(),
            ls == listings.deep_view(),
            ls.len() == listings.len(),
            forall|j: int| 0 <= j < listings.len() ==> ls[j] == listings@[j].deep_view(),
            detect_spec(ls) == detect_from(ls, i as int),
        decreases listings.len() - i,
    {
        let found = check_directory_for_package_manager(&listings[i]);
        if found.is_some() {
            return found;
        }
        i = i + 1;
    }
    None
}

/// No recognized lock-file marker appears anywhere within the bounded
/// ancestor walk: detection finds no manager.
pub proof fn lemma_detect_none(listings: Seq<Seq<Seq<char>>>)
    requires
        forall|i: int| 0 <= i < listings.len() && i < WALK_BOUND ==> dir_manager(
            #[trigger] listings[i],
        ) is None,
    ensures
        detect_spec(listings) is None,
{
    lemma_detect_from_none(listings, 0);
}

proof fn lemma_detect_from_none(listings: Seq<Seq<Seq<char>>>, i: int)
    requires
        forall|j: int| 0 <= j < listings.len() && j < WALK_BOUND ==> dir_manager(
            #[trigger] listings[j],
        ) is None,
    ensures
        detect_from(listings, i) is None,
    decreases listings.len() - i,
{
    if 0 <= i && i < listings.len() && i < WALK_BOUND {
        lemma_detect_from_none(listings, i + 1);
    }
}

/// A lock-file marker sits exactly `n` levels above the starting directory
/// and nowhere else: the walk finds its manager precisely when `n` lies
/// within the bound of the starting directory plus five ancestors, and
/// nothing at all beyond it.
pub proof fn lemma_detect_single_marker(listings: Seq<Seq<Seq<char>>>, n: int)
    requires
        0 <= n < listings.len(),
        dir_manager(listings[n]) is Some,
        forall|i: int| 0 <= i < listings.len() && i != n ==> dir_manager(
            #[trigger] listings[i],
        ) is None,
    ensures
        n < WALK_BOUND ==> detect_spec(listings) == dir_manager(listings[n]),
        n >= WALK_BOUND ==> detect_spec(listings) is None,
{
    if n < WALK_BOUND {
        lemma_detect_from_finds(listings, 0, n);
    } else {
        lemma_detect_from_none(listings, 0);
    }
}

proof fn lemma_detect_from_finds(listings: Seq<Seq<Seq<char>>>, i: int, n: int)
    requires
        0 <= i <= n < listings.len(),
        n < WALK_BOUND,
        dir_manager(listings[n]) is Some,
        forall|j: int| i <= j < n ==> dir_manager(#[trigger] listings[j]) is None,
    ensures
        detect_from(listings, i) == dir_manager(listings[n]),
    decreases n - i,
{
    if i < n {
        lemma_detect_from_finds(listings, i + 1, n);
    }
}

} // verus!
