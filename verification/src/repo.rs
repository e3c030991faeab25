//! Repository commands: argument checks, the selection and lookup of
//! repositories, and the decisions of the toggle and clean subcommands.

use crate::command::{CommandContext, Config};
use crate::text::{concat, concat3, has_prefix, starts_with, str_eq};
use vstd::prelude::*;

verus! {

/// The repository subcommands.
pub enum RepoCommand {
    Add { name: String, url: String, priority: u32, verify: bool, disabled: bool },
    Remove { name: String, force: bool },
    List { detailed: bool, enabled_only: bool },
    Toggle { name: String, enable: bool, disable: bool },
    Update { name: Option<String>, force: bool },
    Info { name: String, models: bool },
    Test { name: String },
    Priority { name: String, priority: u32 },
    Clean { name: Option<String>, metadata: bool, models: bool },
}

/// The arguments of the `repo` command.
pub struct RepoArgs {
    pub command: RepoCommand,
}

/// How a repository authenticates, as far as its listing tells: which
/// credentials are configured (their values are never shown).
#[derive(Clone, Copy, Debug, PartialEq, Eq, Structural)]
pub struct RepositoryAuth {
    pub has_api_key: bool,
    pub has_username: bool,
    pub oauth_enabled: bool,
}

/// A configured model repository, as the marketplace lists it.
pub struct RepositoryEntry {
    pub name: String,
    pub url: String,
    pub priority: u32,
    pub enabled: bool,
    pub verification_required: bool,
    /// When the metadata was last refreshed, in RFC 3339 form.
    pub last_updated: Option<String>,
    pub metadata_url: Option<String>,
    pub authentication: Option<RepositoryAuth>,
}

/// True when a listing keeps `repo`: every repository, or only the enabled
/// ones.
pub open spec fn listed(repo: RepositoryEntry, enabled_only: bool) -> bool {
    !enabled_only || repo.enabled
}

/// The repositories a listing of `repos` shows, in order.
pub open spec fn listing(repos: Seq<RepositoryEntry>, enabled_only: bool) -> Seq<RepositoryEntry> {
    repos.filter(|e: RepositoryEntry| listed(e, enabled_only))
}

/// The repositories a listing shows, in the order the marketplace gave
/// them.
pub fn select_repositories(repos: Vec<RepositoryEntry>, enabled_only: bool) -> (r: Vec<
    RepositoryEntry,
>)
    ensures
        r@ == listing(repos@, enabled_only),
{
    let ghost all = repos@;
    let ghost keep = |e: RepositoryEntry| listed(e, enabled_only);
    let mut kept: Vec<RepositoryEntry> = Vec::new();
    let mut rest = repos;
    let ghost mut taken: Seq<RepositoryEntry> = Seq::empty();
    while rest.len() > 0
        invariant
            keep == (|e: RepositoryEntry| listed(e, enabled_only)),
            taken + rest@ == all,
            kept@ == taken.filter(keep),
        decreases rest.len(),
    {
        let e = rest.remove(0);
        proof {
            taken.lemma_filter_push(e, keep);
            assert(taken.push(e) + rest@ =~= all);
            taken = taken.push(e);
        }
        if !enabled_only || e.enabled {
            kept.push(e);
        }
    }
    assert(taken =~= all);
    kept
}

/// Finds the repository named `name`: the first such in the list.
pub fn find_repository(repos: &Vec<RepositoryEntry>, name: &str) -> (r: Result<usize, String>)
    ensures
        r matches Ok(i) ==> i < repos@.len() && repos@[i as int].name@ == name@ && forall|j: int|
            0 <= j < i ==> repos@[j].name@ != name@,
        r is Err <==> forall|j: int| 0 <= j < repos@.len() ==> repos@[j].name@ != name@,
        r matches Err(m) ==> m@ == "Repository not found: "@ + name@,
{
    let mut i: usize = 0;
    while i < repos.len()
        invariant
            i <= repos@.len(),
            forall|j: int| 0 <= j < i ==> repos@[j].name@ != name@,
        decreases repos.len() - i,
    {
        if str_eq(repos[i].name.as_str(), name) {
            return Ok(i);
        }
        i = i + 1;
    }
    Err(concat("Repository not found: ", name))
}

/// The complaint about a toggle that asks for both states or for neither.
pub open spec fn toggle_error(enable: bool, disable: bool) -> Option<Seq<char>> {
    if enable && disable {
        Some("Cannot both enable and disable at the same time"@)
    } else if !enable && !disable {
        Some("Must specify either --enable or --disable"@)
    } else {
        None
    }
}

/// Decides a toggle: `Ok(true)` enables the repository, `Ok(false)`
/// disables it.
pub fn toggle_target(enable: bool, disable: bool) -> (r: Result<bool, String>)
    ensures
        r is Ok <==> toggle_error(enable, disable) is None,
        r matches Ok(on) ==> on == enable,
        r matches Err(m) ==> toggle_error(enable, disable) == Some(m@),
{
    if enable && disable {
        return Err("Cannot both enable and disable at the same time".to_owned());
    }
    if !enable && !disable {
        return Err("Must specify either --enable or --disable".to_owned());
    }
    Ok(enable)
}

/// What a clean removes.
#[derive(Clone, Copy, Debug, PartialEq, Eq, Structural)]
pub enum CleanScope {
    /// Metadata and models.
    All,
    Metadata,
    Models,
    /// Temporary files only.
    Temporary,
}

/// The scope of a clean for the two flags.
pub open spec fn clean_scope_of(metadata: bool, models: bool) -> CleanScope {
    if metadata && models {
        CleanScope::All
    } else if metadata {
        CleanScope::Metadata
    } else if models {
        CleanScope::Models
    } else {
        CleanScope::Temporary
    }
}

/// Decides what a clean removes.
pub fn clean_scope(metadata: bool, models: bool) -> (r: CleanScope)
    ensures
        r == clean_scope_of(metadata, models),
{
    if metadata && models {
        CleanScope::All
    } else if metadata {
        CleanScope::Metadata
    } else if models {
        CleanScope::Models
    } else {
        CleanScope::Temporary
    }
}

/// The description of the repositories a clean applies to.
pub open spec fn clean_target_text(name: Option<Seq<char>>) -> Seq<char> {
    match name {
        Some(n) => "repository '"@ + n + "'"@,
        None => "all repositories"@,
    }
}

/// Names the repositories a clean applies to.
pub fn clean_target(name: &Option<String>) -> (r: String)
    ensures
        r@ == clean_target_text(
            match name {
                Some(n) => Some(n@),
                None => None,
            },
        ),
{
    match name {
        Some(n) => concat3("repository '", n.as_str(), "'"),
        None => "all repositories".to_owned(),
    }
}

/// List the configured repositories.
pub struct RepoList {
    pub config: Config,
    pub detailed: bool,
    pub enabled_only: bool,
}

impl RepoList {
    /// The name the command is known by.
    pub fn name(&self) -> (r: &'static str)
        ensures
            r@ == "repo list"@,
    {
        "repo list"
    }

    /// What the command does, in one line.
    pub fn description(&self) -> (r: &'static str)
        ensures
            r@ == "List all repositories"@,
    {
        "List all repositories"
    }

    pub fn new(config: Config, detailed: bool, enabled_only: bool) -> (r: Self)
        ensures
            r.config == config,
            r.detailed == detailed,
            r.enabled_only == enabled_only,
    {
        RepoList { config, detailed, enabled_only }
    }

    /// Listing takes no arguments to check.
    pub fn validate(&self, ctx: &CommandContext) -> (r: Result<(), String>)
        ensures
            r is Ok,
    {
        Ok(())
    }
}

/// Show one repository.
pub struct RepoInfo {
    pub config: Config,
    pub name: String,
    pub show_models: bool,
}

impl RepoInfo {
    /// The name the command is known by.
    pub fn name(&self) -> (r: &'static str)
        ensures
            r@ == "repo info"@,
    {
        "repo info"
    }

    /// What the command does, in one line.
    pub fn description(&self) -> (r: &'static str)
        ensures
            r@ == "Show repository information"@,
    {
        "Show repository information"
    }

    pub fn new(config: Config, name: String, show_models: bool) -> (r: Self)
        ensures
            r.config == config,
            r.name == name,
            r.show_models == show_models,
    {
        RepoInfo { config, name, show_models }
    }

    pub fn validate(&self, ctx: &CommandContext) -> (r: Result<(), String>)
        ensures
            r is Ok <==> self.name@.len() > 0,
            r matches Err(m) ==> m@ == "Repository name cannot be empty"@,
    {
        if self.name.as_str().is_empty() {
            return Err("Repository name cannot be empty".to_owned());
        }
        Ok(())
    }
}

/// Add a repository.
pub struct RepoAdd {
    pub config: Config,
    pub name: String,
    pub url: String,
    pub priority: u32,
    pub verify: bool,
    pub disabled: bool,
}

/// The highest priority number a repository may have.
pub const MAX_REPO_PRIORITY: u32 = 1000;

impl RepoAdd {
    /// The name the command is known by.
    pub fn name(&self) -> (r: &'static str)
        ensures
            r@ == "repo add"@,
    {
        "repo add"
    }

    /// What the command does, in one line.
    pub fn description(&self) -> (r: &'static str)
        ensures
            r@ == "Add a new repository"@,
    {
        "Add a new repository"
    }

    pub fn new(config: Config, name: String, url: String, priority: u32, verify: bool, disabled: bool)
        -> (r: Self)
        ensures
            r.config == config,
            r.name == name,
            r.url == url,
            r.priority == priority,
            r.verify == verify,
            r.disabled == disabled,
    {
        RepoAdd { config, name, url, priority, verify, disabled }
    }

    /// The message of the first check that the arguments fail, if any.
    pub open spec fn validation_error(&self) -> Option<Seq<char>> {
        if self.name@.len() == 0 {
            Some("Repository name cannot be empty"@)
        } else if self.url@.len() == 0 {
            Some("Repository URL cannot be empty"@)
        } else if !has_prefix(self.url@, "http://"@) && !has_prefix(self.url@, "https://"@) {
            Some("Repository URL must start with http:// or https://"@)
        } else if self.priority > MAX_REPO_PRIORITY {
            Some("Priority cannot exceed 1000"@)
        } else {
            None
        }
    }

    pub fn validate(&self, ctx: &CommandContext) -> (r: Result<(), String>)
        ensures
            r is Ok <==> self.validation_error() is None,
            r matches Err(m) ==> self.validation_error() == Some(m@),
    {
        if self.name.as_str().is_empty() {
            return Err("Repository name cannot be empty".to_owned());
        }
        if self.url.as_str().is_empty() {
            return Err("Repository URL cannot be empty".to_owned());
        }
        let url = self.url.as_str();
        if !starts_with(url, "http://") && !starts_with(url, "https://") {
            return Err("Repository URL must start with http:// or https://".to_owned());
        }
        if self.priority > MAX_REPO_PRIORITY {
            return Err("Priority cannot exceed 1000".to_owned());
        }
        Ok(())
    }
}

/// Remove a repository.
pub struct RepoRemove {
    pub config: Config,
    pub name: String,
    pub force: bool,
}

impl RepoRemove {
    /// The name the command is known by.
    pub fn name(&self) -> (r: &'static str)
        ensures
            r@ == "repo remove"@,
    {
        "repo remove"
    }

    /// What the command does, in one line.
    pub fn description(&self) -> (r: &'static str)
        ensures
            r@ == "Remove a repository"@,
    {
        "Remove a repository"
    }

    pub fn new(config: Config, name: String, force: bool) -> (r: Self)
        ensures
            r.config == config,
            r.name == name,
            r.force == force,
    {
        RepoRemove { config, name, force }
    }

    pub fn validate(&self, ctx: &CommandContext) -> (r: Result<(), String>)
        ensures
            r is Ok <==> self.name@.len() > 0,
            r matches Err(m) ==> m@ == "Repository name cannot be empty"@,
    {
        if self.name.as_str().is_empty() {
            return Err("Repository name cannot be empty".to_owned());
        }
        Ok(())
    }

    /// Removal asks for confirmation unless forced or producing
    /// machine-readable output.
    pub fn needs_confirmation(&self, ctx: &CommandContext) -> (r: bool)
        ensures
            r == (!self.force && !ctx.json_output),
    {
        !self.force && !ctx.json_output
    }
}

/// Refresh repository metadata.
pub struct RepoUpdate {
    pub config: Config,
    pub name: Option<String>,
    pub force: bool,
}

impl RepoUpdate {
    /// The name the command is known by.
    pub fn name(&self) -> (r: &'static str)
        ensures
            r@ == "repo update"@,
    {
        "repo update"
    }

    /// What the command does, in one line.
    pub fn description(&self) -> (r: &'static str)
        ensures
            r@ == "Update repository metadata"@,
    {
        "Update repository metadata"
    }

    pub fn new(config: Config, name: Option<String>, force: bool) -> (r: Self)
        ensures
            r.config == config,
            r.name == name,
            r.force == force,
    {
        RepoUpdate { config, name, force }
    }

    /// Updating takes no arguments to check.
    pub fn validate(&self, ctx: &CommandContext) -> (r: Result<(), String>)
        ensures
            r is Ok,
    {
        Ok(())
    }
}


/// A listing of enabled repositories shows every enabled repository and
/// nothing else; a full listing shows them all.
pub proof fn lemma_listing_shows_enabled(repos: Seq<RepositoryEntry>, enabled_only: bool)
    ensures
        forall|i: int|
            0 <= i < listing(repos, enabled_only).len() ==> listed(
                #[trigger] listing(repos, enabled_only)[i],
                enabled_only,
            ),
        forall|i: int|
            0 <= i < repos.len() && listed(repos[i], enabled_only) ==> listing(
                repos,
                enabled_only,
            ).contains(#[trigger] repos[i]),
        !enabled_only ==> listing(repos, enabled_only) == repos,
{
    let keep = |e: RepositoryEntry| listed(e, enabled_only);
    let f = repos.filter(keep);
    assert(listing(repos, enabled_only) == f);
    assert forall|i: int| 0 <= i < f.len() implies listed(#[trigger] f[i], enabled_only) by {
        repos.lemma_filter_pred(keep, i);
    }
    assert forall|i: int| 0 <= i < repos.len() && listed(repos[i], enabled_only) implies f.contains(
        #[trigger] repos[i],
    ) by {
        repos.lemma_filter_contains(keep, i);
    }
    if !enabled_only {
        lemma_filter_all(repos, keep);
    }
}

/// Filtering by a predicate that holds everywhere keeps everything.
proof fn lemma_filter_all(s: Seq<RepositoryEntry>, keep: spec_fn(RepositoryEntry) -> bool)
    requires
        forall|e: RepositoryEntry| #[trigger] keep(e),
    ensures
        s.filter(keep) == s,
    decreases s.len(),
{
    reveal(Seq::filter);
    if s.len() > 0 {
        lemma_filter_all(s.drop_last(), keep);
        assert(s.drop_last().push(s.last()) == s);
    }
}


/// At most this many models of a repository are shown.
pub const MODELS_SHOWN: usize = 10;

/// How many of a repository's models are left unshown.
pub fn models_not_shown(count: usize) -> (r: usize)
    ensures
        r == (if count > MODELS_SHOWN {
            count - MODELS_SHOWN
        } else {
            0
        }),
{
    if count > MODELS_SHOWN {
        count - MODELS_SHOWN
    } else {
        0
    }
}


/// A model that a repository offers, as a search lists it.
pub struct ModelSummary {
    pub name: String,
    pub version: String,
    pub publisher: String,
}

/// The models a repository report shows: how many the repository offers,
/// and the first of them, at most `MODELS_SHOWN`.
pub struct ModelsShown {
    pub total: usize,
    pub list: Vec<ModelSummary>,
}

/// The report on one repository.
pub struct RepositoryInfo {
    pub name: String,
    pub url: String,
    pub priority: u32,
    pub enabled: bool,
    pub verification_required: bool,
    pub last_updated: Option<String>,
    pub metadata_url: Option<String>,
    /// Present exactly when the repository has authentication configured.
    pub authentication: Option<RepositoryAuth>,
    /// Present when models were asked for and the search succeeded.
    pub models: Option<ModelsShown>,
}

fn copy_text(s: &Option<String>) -> (r: Option<String>)
    ensures
        r == *s,
{
    match s {
        Some(v) => Some(v.clone()),
        None => None,
    }
}

/// The models shown of those a search found: all of them counted, the
/// first `MODELS_SHOWN` listed in the order found.
pub fn models_shown(models: Vec<ModelSummary>) -> (r: ModelsShown)
    ensures
        r.total == models@.len(),
        r.list@ == models@.take(if models@.len() > MODELS_SHOWN {
            MODELS_SHOWN as int
        } else {
            models@.len() as int
        }),
{
    let total = models.len();
    let mut list = models;
    list.truncate(MODELS_SHOWN);
    ModelsShown { total, list }
}

impl RepoInfo {
    /// The report on the repository this command names, from the
    /// repositories the marketplace lists and, when models were asked for,
    /// what the model search found (`None` where it failed). The report
    /// describes the first repository of that name; without one it fails.
    pub fn report(&self, repos: &Vec<RepositoryEntry>, models: Option<Vec<ModelSummary>>) -> (r:
        Result<RepositoryInfo, String>)
        ensures
            r is Err <==> forall|j: int| 0 <= j < repos@.len() ==> repos@[j].name@ != self.name@,
            r matches Err(m) ==> m@ == "Repository not found: "@ + self.name@,
            r matches Ok(info) ==> exists|i: int|
                0 <= i < repos@.len() && repos@[i].name@ == self.name@ && (forall|j: int|
                    0 <= j < i ==> repos@[j].name@ != self.name@) && info.name == repos@[i].name
                    && info.url == repos@[i].url && info.priority == repos@[i].priority
                    && info.enabled == repos@[i].enabled && info.verification_required
                    == repos@[i].verification_required && info.last_updated
                    == repos@[i].last_updated && info.metadata_url == repos@[i].metadata_url
                    && info.authentication == repos@[i].authentication,
            r matches Ok(info) ==> (info.models is Some <==> (self.show_models && models is Some)),
            r matches Ok(info) ==> (info.models matches Some(shown) ==> (models matches Some(
                found) && shown.total == found@.len() && shown.list@ == found@.take(
                if found@.len() > MODELS_SHOWN {
                    MODELS_SHOWN as int
                } else {
                    found@.len() as int
                },
            ))),
    {
        let i = match find_repository(repos, self.name.as_str()) {
            Ok(i) => i,
            Err(e) => return Err(e),
        };
        let repo = &repos[i];
        let shown = if self.show_models {
            match models {
                Some(found) => Some(models_shown(found)),
                None => None,
            }
        } else {
            None
        };
        Ok(RepositoryInfo {
            name: repo.name.clone(),
            url: repo.url.clone(),
            priority: repo.priority,
            enabled: repo.enabled,
            verification_required: repo.verification_required,
            last_updated: copy_text(&repo.last_updated),
            metadata_url: copy_text(&repo.metadata_url),
            authentication: repo.authentication,
            models: shown,
        })
    }
}

} // verus!
