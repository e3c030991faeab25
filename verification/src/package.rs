//! Package commands: argument checks, search limits, prompts, the display
//! unit of a package size, and the classification of install failures.

use crate::command::{CommandContext, Config};
use crate::net::{path_debug, path_debug_text, path_exists};
use crate::text::{concat, concat3, contains_seq, contains_str, lowercase, to_lowercase};
use vstd::prelude::*;

verus! {

// ---------------------------------------------------------------------------
// Arguments
// ---------------------------------------------------------------------------

/// The package subcommands.
pub enum PackageCommand {
    Install { package: String, no_deps: bool, target: Option<String>, yes: bool, auto_update: bool },
    Remove { package: String, no_deps: bool, yes: bool, keep_config: bool },
    Search { query: String, repo: Option<String>, limit: usize, detailed: bool },
    Info { package: String, deps: bool, detailed: bool },
    List { filter: Option<String>, detailed: bool, auto_only: bool },
    Update { package: Option<String>, yes: bool, check_only: bool },
    Upgrade { yes: bool, dry_run: bool },
    Autoremove { yes: bool, dry_run: bool },
    Clean { all: bool, packages: bool, metadata: bool },
    History { package: Option<String>, limit: usize },
    Depends { package: String, reverse: bool, tree: bool },
    Check { package: Option<String>, deep: bool, fix: bool },
}

/// The arguments of the `package` command.
pub struct PackageArgs {
    pub command: PackageCommand,
}

/// The arguments of the `install` shortcut.
pub struct InstallArgs {
    pub package: String,
    pub no_deps: bool,
    pub yes: bool,
    pub auto_update: bool,
}

/// The arguments of the `remove` shortcut.
pub struct RemoveArgs {
    pub package: String,
    pub no_deps: bool,
    pub yes: bool,
}

/// The arguments of the `search` shortcut.
pub struct SearchArgs {
    pub query: String,
    pub repo: Option<String>,
    pub limit: usize,
}

/// The arguments of the `list` shortcut.
pub struct ListArgs {
    pub filter: Option<String>,
    pub detailed: bool,
}

// ---------------------------------------------------------------------------
// Decisions of the package commands
// ---------------------------------------------------------------------------

/// Why an installation failed, as its error message tells it.
#[derive(Clone, Copy, Debug, PartialEq, Eq, Structural)]
pub enum InstallFailure {
    /// The package does not exist.
    NotFound,
    /// The repository could not be reached.
    Network,
    Other,
}

/// The kind of failure an error message (already lowercased) reports.
pub open spec fn failure_kind(lower: Seq<char>) -> InstallFailure {
    if contains_seq(lower, "not found"@) {
        InstallFailure::NotFound
    } else if contains_seq(lower, "network"@) || contains_seq(lower, "connection"@) {
        InstallFailure::Network
    } else {
        InstallFailure::Other
    }
}

/// Classifies an installation error by its message, case-insensitively.
pub fn classify_install_error(message: &str) -> (r: InstallFailure)
    ensures
        r == failure_kind(lowercase(message@)),
{
    let lower = to_lowercase(message);
    let l = lower.as_str();
    if contains_str(l, "not found") {
        InstallFailure::NotFound
    } else if contains_str(l, "network") || contains_str(l, "connection") {
        InstallFailure::Network
    } else {
        InstallFailure::Other
    }
}

/// The question asked before a package is removed.
pub open spec fn remove_prompt_text(package: Seq<char>, remove_deps: bool) -> Seq<char> {
    if remove_deps {
        "Remove package '"@ + package + "' and its dependencies?"@
    } else {
        "Remove package '"@ + package + "'?"@
    }
}

/// Asks before removing `package`, and its dependencies where they go too.
pub fn remove_prompt(package: &str, remove_deps: bool) -> (r: String)
    ensures
        r@ == remove_prompt_text(package@, remove_deps),
{
    if remove_deps {
        concat3("Remove package '", package, "' and its dependencies?")
    } else {
        concat3("Remove package '", package, "'?")
    }
}

/// At most `limit` search results, the first ones.
pub fn limit_results<T>(results: Vec<T>, limit: usize) -> (r: Vec<T>)
    ensures
        r@ == (if results@.len() <= limit {
            results@
        } else {
            results@.take(limit as int)
        }),
{
    let mut r = results;
    r.truncate(limit);
    r
}

/// The units in which package sizes are shown, smallest first.
pub open spec fn size_unit_label(i: nat) -> Seq<char> {
    if i == 0 {
        "B"@
    } else if i == 1 {
        "KB"@
    } else if i == 2 {
        "MB"@
    } else if i == 3 {
        "GB"@
    } else {
        "TB"@
    }
}

/// `1024` to the power `k`.
pub open spec fn pow1024(k: nat) -> nat
    decreases k,
{
    if k == 0 {
        1
    } else {
        1024 * pow1024((k - 1) as nat)
    }
}

/// The unit a size is shown in: the largest of `B` to `TB` of which the
/// size holds at least one.
pub open spec fn size_unit_of(bytes: nat) -> nat {
    if bytes >= pow1024(4) {
        4
    } else if bytes >= pow1024(3) {
        3
    } else if bytes >= pow1024(2) {
        2
    } else if bytes >= pow1024(1) {
        1
    } else {
        0
    }
}

/// The index of the unit in which `bytes` is shown.
pub fn size_unit(bytes: u64) -> (r: usize)
    ensures
        r == size_unit_of(bytes as nat),
        r <= 4,
{
    proof {
        reveal_with_fuel(pow1024, 5);
    }
    let mut rest = bytes;
    let mut unit: usize = 0;
    assert(bytes as nat / pow1024(0) == bytes as nat) by {
        assert(pow1024(0) == 1);
        vstd::arithmetic::div_mod::lemma_div_basics(bytes as int);
    }
    while rest >= 1024 && unit < 4
        invariant
            unit <= 4,
            rest == bytes as nat / pow1024(unit as nat),
            unit > 0 ==> bytes >= pow1024(unit as nat),
            pow1024(1) == 1024,
            pow1024(2) == 1024 * 1024,
            pow1024(3) == 1024 * 1024 * 1024,
            pow1024(4) == 1024 * 1024 * 1024 * 1024,
        decreases 4 - unit,
    {
        proof {
            lemma_div_step(bytes as nat, unit as nat);
        }
        rest = rest / 1024;
        unit = unit + 1;
    }
    proof {
        lemma_unit_exact(bytes as nat, unit as nat, rest as nat);
    }
    unit
}

/// Dividing by `1024^k` and then by 1024 divides by `1024^(k+1)`, and a
/// quotient of at least 1024 means the next power is reached.
proof fn lemma_div_step(b: nat, k: nat)
    ensures
        b / pow1024(k) / 1024 == b / pow1024(k + 1),
        b / pow1024(k) >= 1024 ==> b >= pow1024(k + 1),
{
    lemma_pow1024_pos(k);
    assert(pow1024(k + 1) == 1024 * pow1024(k));
    let p = pow1024(k);
    assert(b / p / 1024 == b / (p * 1024)) by {
        vstd::arithmetic::div_mod::lemma_div_denominator(b as int, p as int, 1024);
    }
    assert(p * 1024 == 1024 * p) by (nonlinear_arith);
    if b / p >= 1024 {
        assert(b >= p * (b / p)) by {
            vstd::arithmetic::div_mod::lemma_fundamental_div_mod(b as int, p as int);
            vstd::arithmetic::div_mod::lemma_mod_pos_bound(b as int, p as int);
        }
        assert(p * (b / p) >= p * 1024) by (nonlinear_arith)
            requires
                b / p >= 1024,
        ;
    }
}

proof fn lemma_pow1024_pos(k: nat)
    ensures
        pow1024(k) > 0,
    decreases k,
{
    if k > 0 {
        lemma_pow1024_pos((k - 1) as nat);
    }
}

/// When the loop of `size_unit` stops, it has found the unit.
proof fn lemma_unit_exact(b: nat, unit: nat, rest: nat)
    requires
        unit <= 4,
        rest == b / pow1024(unit),
        unit > 0 ==> b >= pow1024(unit),
        rest < 1024 || unit == 4,
        pow1024(1) == 1024,
        pow1024(2) == 1024 * 1024,
        pow1024(3) == 1024 * 1024 * 1024,
        pow1024(4) == 1024 * 1024 * 1024 * 1024,
    ensures
        unit == size_unit_of(b),
{
    if unit < 4 {
        lemma_pow1024_pos(unit);
        assert(b < pow1024(unit + 1)) by {
            let p = pow1024(unit);
            assert(pow1024(unit + 1) == 1024 * p);
            vstd::arithmetic::div_mod::lemma_fundamental_div_mod(b as int, p as int);
            vstd::arithmetic::div_mod::lemma_mod_pos_bound(b as int, p as int);
            assert(b == p * (b / p) + b % p);
            assert(p * (b / p) <= p * 1023) by (nonlinear_arith)
                requires
                    b / p <= 1023,
            ;
        }
    }
}

/// The name of the `i`-th size unit.
pub fn size_unit_name(i: usize) -> (r: String)
    requires
        i <= 4,
    ensures
        r@ == size_unit_label(i as nat),
{
    if i == 0 {
        "B".to_owned()
    } else if i == 1 {
        "KB".to_owned()
    } else if i == 2 {
        "MB".to_owned()
    } else if i == 3 {
        "GB".to_owned()
    } else {
        "TB".to_owned()
    }
}

/// What a package clean removes.
#[derive(Clone, Copy, Debug, PartialEq, Eq, Structural)]
pub enum PackageCleanScope {
    All,
    Packages,
    Metadata,
    /// Temporary files only.
    Temporary,
}

/// The scope of a clean for its flags: `all` wins over `packages`, which
/// wins over `metadata`.
pub open spec fn package_clean_scope_of(all: bool, packages: bool, metadata: bool) -> PackageCleanScope {
    if all {
        PackageCleanScope::All
    } else if packages {
        PackageCleanScope::Packages
    } else if metadata {
        PackageCleanScope::Metadata
    } else {
        PackageCleanScope::Temporary
    }
}

/// Decides what a package clean removes.
pub fn package_clean_scope(all: bool, packages: bool, metadata: bool) -> (r: PackageCleanScope)
    ensures
        r == package_clean_scope_of(all, packages, metadata),
{
    if all {
        PackageCleanScope::All
    } else if packages {
        PackageCleanScope::Packages
    } else if metadata {
        PackageCleanScope::Metadata
    } else {
        PackageCleanScope::Temporary
    }
}

/// Which dependencies `depends` shows.
#[derive(Clone, Copy, Debug, PartialEq, Eq, Structural)]
pub enum DependencyView {
    /// The packages that depend on this one.
    Reverse,
    /// The whole dependency tree.
    Tree,
    /// The direct dependencies.
    Direct,
}

/// Decides which dependencies `depends` shows; `reverse` wins over `tree`.
pub fn dependency_view(reverse: bool, tree: bool) -> (r: DependencyView)
    ensures
        reverse ==> r == DependencyView::Reverse,
        !reverse && tree ==> r == DependencyView::Tree,
        !reverse && !tree ==> r == DependencyView::Direct,
{
    if reverse {
        DependencyView::Reverse
    } else if tree {
        DependencyView::Tree
    } else {
        DependencyView::Direct
    }
}

// ---------------------------------------------------------------------------
// Commands
// ---------------------------------------------------------------------------

/// The complaint about an install target directory that does not exist.
pub open spec fn target_error(target: Option<Seq<char>>, exists: bool) -> Option<Seq<char>> {
    match target {
        Some(t) => if !exists {
            Some("Target directory does not exist: "@ + path_debug_text(t))
        } else {
            None
        },
        None => None,
    }
}

/// Install a model package.
pub struct PackageInstall {
    pub config: Config,
    pub package: String,
    pub no_deps: bool,
    pub target: Option<String>,
    pub yes: bool,
    pub auto_update: bool,
}

impl PackageInstall {
    /// The name the command is known by.
    pub fn name(&self) -> (r: &'static str)
        ensures
            r@ == "package-install"@,
    {
        "package-install"
    }

    /// What the command does, in one line.
    pub fn description(&self) -> (r: &'static str)
        ensures
            r@ == "Install a model package from repository"@,
    {
        "Install a model package from repository"
    }

    pub fn new(
        config: Config,
        package: String,
        no_deps: bool,
        target: Option<String>,
        yes: bool,
        auto_update: bool,
    ) -> (r: Self)
        ensures
            r.config == config,
            r.package == package,
            r.no_deps == no_deps,
            r.target == target,
            r.yes == yes,
            r.auto_update == auto_update,
    {
        PackageInstall { config, package, no_deps, target, yes, auto_update }
    }

    /// The target directory as characters, if one was given.
    pub open spec fn target_text(&self) -> Option<Seq<char>> {
        match self.target {
            Some(t) => Some(t@),
            None => None,
        }
    }

    /// Checks the arguments, given whether the target directory exists.
    pub fn check(&self, target_exists: bool) -> (r: Result<(), String>)
        ensures
            self.package@.len() == 0 ==> (r matches Err(m) && m@ == "Package name cannot be empty"@),
            self.package@.len() > 0 ==> (r is Ok <==> target_error(
                self.target_text(),
                target_exists,
            ) is None),
            self.package@.len() > 0 ==> (r matches Err(m) ==> target_error(
                self.target_text(),
                target_exists,
            ) == Some(m@)),
    {
        if self.package.as_str().is_empty() {
            return Err("Package name cannot be empty".to_owned());
        }
        match &self.target {
            Some(t) => {
                if !target_exists {
                    let shown = path_debug(t.as_str());
                    return Err(concat("Target directory does not exist: ", shown.as_str()));
                }
                Ok(())
            },
            None => Ok(()),
        }
    }

    /// Checks the arguments; whether a given target directory exists rests
    /// on the file system.
    pub fn validate(&self, ctx: &CommandContext) -> (r: Result<(), String>)
        ensures
            self.package@.len() == 0 ==> (r matches Err(m) && m@ == "Package name cannot be empty"@),
            self.package@.len() > 0 && self.target is None ==> r is Ok,
            self.package@.len() > 0 ==> (r matches Err(m) ==> (self.target matches Some(t) && m@
                == "Target directory does not exist: "@ + path_debug_text(t@))),
    {
        let exists = match &self.target {
            Some(t) => path_exists(t.as_str()),
            None => true,
        };
        self.check(exists)
    }
}

/// Remove an installed package.
pub struct PackageRemove {
    pub config: Config,
    pub package: String,
    pub no_deps: bool,
    pub yes: bool,
    pub keep_config: bool,
}

impl PackageRemove {
    /// The name the command is known by.
    pub fn name(&self) -> (r: &'static str)
        ensures
            r@ == "package-remove"@,
    {
        "package-remove"
    }

    /// What the command does, in one line.
    pub fn description(&self) -> (r: &'static str)
        ensures
            r@ == "Remove an installed model package"@,
    {
        "Remove an installed model package"
    }

    pub fn new(config: Config, package: String, no_deps: bool, yes: bool, keep_config: bool) -> (r:
        Self)
        ensures
            r.config == config,
            r.package == package,
            r.no_deps == no_deps,
            r.yes == yes,
            r.keep_config == keep_config,
    {
        PackageRemove { config, package, no_deps, yes, keep_config }
    }

    pub fn validate(&self, ctx: &CommandContext) -> (r: Result<(), String>)
        ensures
            r is Ok <==> self.package@.len() > 0,
            r matches Err(m) ==> m@ == "Package name cannot be empty"@,
    {
        if self.package.as_str().is_empty() {
            return Err("Package name cannot be empty".to_owned());
        }
        Ok(())
    }
}

/// The largest number of results a search may ask for.
pub const MAX_SEARCH_LIMIT: usize = 100;

/// Search the repositories for packages.
pub struct PackageSearch {
    pub config: Config,
    pub query: String,
    pub repo: Option<String>,
    pub limit: usize,
    pub detailed: bool,
}

impl PackageSearch {
    /// The name the command is known by.
    pub fn name(&self) -> (r: &'static str)
        ensures
            r@ == "package-search"@,
    {
        "package-search"
    }

    /// What the command does, in one line.
    pub fn description(&self) -> (r: &'static str)
        ensures
            r@ == "Search for model packages in repositories"@,
    {
        "Search for model packages in repositories"
    }

    pub fn new(config: Config, query: String, repo: Option<String>, limit: usize, detailed: bool) -> (r:
        Self)
        ensures
            r.config == config,
            r.query == query,
            r.repo == repo,
            r.limit == limit,
            r.detailed == detailed,
    {
        PackageSearch { config, query, repo, limit, detailed }
    }

    /// The message of the first check that the arguments fail, if any.
    pub open spec fn validation_error(&self) -> Option<Seq<char>> {
        if self.query@.len() == 0 {
            Some("Search query cannot be empty"@)
        } else if self.limit == 0 || self.limit > MAX_SEARCH_LIMIT {
            Some("Limit must be between 1 and 100"@)
        } else {
            None
        }
    }

    pub fn validate(&self, ctx: &CommandContext) -> (r: Result<(), String>)
        ensures
            r is Ok <==> self.validation_error() is None,
            r matches Err(m) ==> self.validation_error() == Some(m@),
    {
        if self.query.as_str().is_empty() {
            return Err("Search query cannot be empty".to_owned());
        }
        if self.limit == 0 || self.limit > MAX_SEARCH_LIMIT {
            return Err("Limit must be between 1 and 100".to_owned());
        }
        Ok(())
    }
}

/// Show one package.
pub struct PackageInfo {
    pub config: Config,
    pub package: String,
    pub show_deps: bool,
    pub detailed: bool,
}

impl PackageInfo {
    /// The name the command is known by.
    pub fn name(&self) -> (r: &'static str)
        ensures
            r@ == "package-info"@,
    {
        "package-info"
    }

    /// What the command does, in one line.
    pub fn description(&self) -> (r: &'static str)
        ensures
            r@ == "Show detailed information about a package"@,
    {
        "Show detailed information about a package"
    }

    pub fn new(config: Config, package: String, show_deps: bool, detailed: bool) -> (r: Self)
        ensures
            r.config == config,
            r.package == package,
            r.show_deps == show_deps,
            r.detailed == detailed,
    {
        PackageInfo { config, package, show_deps, detailed }
    }

    pub fn validate(&self, ctx: &CommandContext) -> (r: Result<(), String>)
        ensures
            r is Ok <==> self.package@.len() > 0,
            r matches Err(m) ==> m@ == "Package name cannot be empty"@,
    {
        if self.package.as_str().is_empty() {
            return Err("Package name cannot be empty".to_owned());
        }
        Ok(())
    }
}

/// List the installed packages.
pub struct PackageList {
    pub config: Config,
    pub filter: Option<String>,
    pub detailed: bool,
    pub auto_only: bool,
}

impl PackageList {
    /// The name the command is known by.
    pub fn name(&self) -> (r: &'static str)
        ensures
            r@ == "package-list"@,
    {
        "package-list"
    }

    /// What the command does, in one line.
    pub fn description(&self) -> (r: &'static str)
        ensures
            r@ == "List installed model packages"@,
    {
        "List installed model packages"
    }

    pub fn new(config: Config, filter: Option<String>, detailed: bool, auto_only: bool) -> (r: Self)
        ensures
            r.config == config,
            r.filter == filter,
            r.detailed == detailed,
            r.auto_only == auto_only,
    {
        PackageList { config, filter, detailed, auto_only }
    }

    /// Listing takes no arguments to check.
    pub fn validate(&self, ctx: &CommandContext) -> (r: Result<(), String>)
        ensures
            r is Ok,
    {
        Ok(())
    }
}

/// Update one package or all of them.
pub struct PackageUpdate {
    pub config: Config,
    pub package: Option<String>,
    pub yes: bool,
    pub check_only: bool,
}

impl PackageUpdate {
    /// The name the command is known by.
    pub fn name(&self) -> (r: &'static str)
        ensures
            r@ == "package-update"@,
    {
        "package-update"
    }

    /// What the command does, in one line.
    pub fn description(&self) -> (r: &'static str)
        ensures
            r@ == "Update installed packages to latest versions"@,
    {
        "Update installed packages to latest versions"
    }

    pub fn new(config: Config, package: Option<String>, yes: bool, check_only: bool) -> (r: Self)
        ensures
            r.config == config,
            r.package == package,
            r.yes == yes,
            r.check_only == check_only,
    {
        PackageUpdate { config, package, yes, check_only }
    }

    /// Updating takes no arguments to check.
    pub fn validate(&self, ctx: &CommandContext) -> (r: Result<(), String>)
        ensures
            r is Ok,
    {
        Ok(())
    }

    /// The summary the update reports.
    pub fn result_message(&self) -> (r: String)
        ensures
            self.check_only ==> r@ == "Update check completed"@,
            !self.check_only ==> r@ == "Packages updated successfully"@,
    {
        if self.check_only {
            "Update check completed".to_owned()
        } else {
            "Packages updated successfully".to_owned()
        }
    }
}

/// Clean the package cache.
pub struct PackageClean {
    pub config: Config,
    pub all: bool,
    pub dry_run: bool,
}

impl PackageClean {
    /// The name the command is known by.
    pub fn name(&self) -> (r: &'static str)
        ensures
            r@ == "package-clean"@,
    {
        "package-clean"
    }

    /// What the command does, in one line.
    pub fn description(&self) -> (r: &'static str)
        ensures
            r@ == "Clean package cache and temporary files"@,
    {
        "Clean package cache and temporary files"
    }

    pub fn new(config: Config, all: bool, dry_run: bool) -> (r: Self)
        ensures
            r.config == config,
            r.all == all,
            r.dry_run == dry_run,
    {
        PackageClean { config, all, dry_run }
    }

    /// Cleaning takes no arguments to check.
    pub fn validate(&self, ctx: &CommandContext) -> (r: Result<(), String>)
        ensures
            r is Ok,
    {
        Ok(())
    }

    /// The space a clean frees, as reported: old versions go too in a full
    /// clean.
    pub fn space_freed(&self) -> (r: String)
        ensures
            self.all ==> r@ == "10.8 GB"@,
            !self.all ==> r@ == "2.6 GB"@,
    {
        if self.all {
            "10.8 GB".to_owned()
        } else {
            "2.6 GB".to_owned()
        }
    }
}


// ---------------------------------------------------------------------------
// Laws of size display
// ---------------------------------------------------------------------------

/// A size is shown in bytes when below a kilobyte, and otherwise in a unit
/// it fills at least once and, below `TB`, less than 1024 times.
pub proof fn lemma_size_unit_range(bytes: nat)
    ensures
        size_unit_of(bytes) == 0 <==> bytes < 1024,
        size_unit_of(bytes) > 0 ==> bytes >= pow1024(size_unit_of(bytes)),
        size_unit_of(bytes) < 4 ==> bytes < pow1024(size_unit_of(bytes) + 1),
{
    reveal_with_fuel(pow1024, 5);
}

/// A larger size is never shown in a smaller unit.
pub proof fn lemma_size_unit_monotone(a: nat, b: nat)
    requires
        a <= b,
    ensures
        size_unit_of(a) <= size_unit_of(b),
{
}


/// An installation error is classified by what its message mentions, in
/// any case and anywhere in it: a missing package first, then a network or
/// connection problem; anything else is another failure.
pub proof fn lemma_install_failure_kinds(message: Seq<char>)
    ensures
        contains_seq(lowercase(message), "not found"@) ==> failure_kind(lowercase(message))
            == InstallFailure::NotFound,
        !contains_seq(lowercase(message), "not found"@) && (contains_seq(
            lowercase(message),
            "network"@,
        ) || contains_seq(lowercase(message), "connection"@)) ==> failure_kind(lowercase(message))
            == InstallFailure::Network,
        !contains_seq(lowercase(message), "not found"@) && !contains_seq(
            lowercase(message),
            "network"@,
        ) && !contains_seq(lowercase(message), "connection"@) ==> failure_kind(lowercase(message))
            == InstallFailure::Other,
{
}

/// A lowercased message that mentions a connection anywhere, and no
/// missing package, reports a network failure.
pub proof fn lemma_connection_anywhere_is_network(before: Seq<char>, after: Seq<char>)
    requires
        !contains_seq(before + "connection"@ + after, "not found"@),
    ensures
        failure_kind(before + "connection"@ + after) == InstallFailure::Network,
{
    let l = before + "connection"@ + after;
    let n = "connection"@;
    assert(l.subrange(before.len() as int, (before.len() + n.len()) as int) =~= n);
    assert(contains_seq(l, n));
}

} // verus!
