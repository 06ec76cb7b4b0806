//! The intent vocabulary: one variant per supported operation.

use vstd::prelude::*;

pub mod gen;

verus! {

/// One validated operation, carrying only the fields relevant to it.
///
/// Exactly one variant is active per invocation; the argument-parsing
/// front end guarantees that incompatible fields of one variant are not
/// set together, except where a generation rule checks a combination
/// itself.
#[derive(Clone, Debug)]
pub enum SubCmd {
    /// Install the given packages and their required dependencies.
    Install {
        /// Packages to install.
        packages: Vec<String>,
        /// Reinstall packages that are already installed.
        reinstall: bool,
        /// Retrieve packages, but do not install them.
        download: bool,
        /// Install from the AUR in addition to official sources.
        aur: bool,
    },
    /// Remove the given packages and recursively remove orphaned
    /// dependencies.
    Remove {
        /// Packages to remove.
        packages: Vec<String>,
        /// Remove all packages that depend on the packages as well.
        cascade: bool,
        /// Keep orphaned dependencies.
        keep_orphans: bool,
        /// Remove orphaned dependencies even if they are marked as
        /// explicitly installed.
        explicit: bool,
        /// Save configuration files.
        save: bool,
        /// Do not perform AUR-specific operations when removing AUR
        /// packages.
        no_aur: bool,
    },
    /// Refresh the sync database and upgrade packages.
    Upgrade {
        /// Only upgrade packages, do not refresh the sync database.
        no_refresh: bool,
        /// Only refresh the sync database, do not perform upgrades.
        refresh: bool,
        /// Retrieve packages, but do not perform upgrades.
        download: bool,
        /// Do not upgrade AUR packages.
        no_aur: bool,
    },
    /// Clean the package caches.
    Clean {
        /// Also remove installed packages from the cache.
        all: bool,
        /// Do not perform AUR-specific cleaning.
        no_aur: bool,
    },
    /// Search for a package.
    Search {
        /// Query regexes to search for.
        queries: Vec<String>,
        /// Search in installed packages.
        installed: bool,
        /// Search the AUR along with official repositories.
        aur: bool,
    },
    /// List installed packages.
    List {
        /// Only list packages installed explicitly.
        explicit: bool,
        /// Only list packages installed as dependencies.
        deps: bool,
        /// Only list packages not required by any installed package.
        free: bool,
        /// Only list packages found in the sync database(s).
        sync: bool,
        /// Only list packages not found in the sync database(s).
        no_sync: bool,
        /// Only list packages that are out of date.
        upgrades: bool,
    },
    /// Find packages that own files.
    Which {
        /// Files to search for.
        files: Vec<String>,
        /// Search through the sync database(s).
        sync: bool,
        /// Include packages from the AUR.
        aur: bool,
        /// Use a regex for filtering.
        regex: bool,
    },
    /// Display various information about packages.
    View {
        /// Packages to display information about.
        packages: Vec<String>,
        /// Query the sync database instead of installed packages.
        sync: bool,
        /// Query package files instead of installed packages.
        package_file: bool,
        /// Print more information.
        more: bool,
        /// List the files that the packages provide.
        files: bool,
        /// Print the ChangeLog of a local package.
        changelog: bool,
    },
    /// Show the dependency tree of a package.
    Tree {
        /// The package to show a dependency tree for.
        package: String,
        /// Use ASCII characters for tree formatting.
        ascii: bool,
        /// Limit the depth of recursion.
        depth: Option<u32>,
        /// Limit recursion depth for optional dependencies.
        depth_optional: Option<u32>,
        /// Show a tree of reverse dependencies.
        reverse: bool,
    },
    /// Mark or unmark packages as explicitly installed.
    Pin {
        /// Packages to mark.
        packages: Vec<String>,
        /// Mark the packages as dependencies instead.
        remove: bool,
    },
}

} // verus!
