//! Application upgrade commands: argument validation, version-string
//! checks, status descriptions and changelog formatting.

use crate::command::{CommandContext, Config};
use crate::text::{
    chars_of, concat, concat3, concat5, decimal, decimal_string, is_u32_text, join, join_chars,
    lines, lines_of, lowercase, parses_as_u32, split_chars, split_on, str_eq, string_of,
    to_lowercase, lemma_decimal_digits, lemma_split_without_sep, lemma_split_after_sep,
    lemma_split_first_piece, is_ascii_digit, unsigned_digits,
};
use vstd::prelude::*;

verus! {

// ---------------------------------------------------------------------------
// Validation rules
// ---------------------------------------------------------------------------

/// The error for an output format other than `text` or `json`.
pub open spec fn format_error(format: Seq<char>) -> Option<Seq<char>> {
    if format == "text"@ || format == "json"@ {
        None
    } else {
        Some("Invalid output format '"@ + format + "'. Valid formats are: text, json"@)
    }
}

/// Validate an output format argument.
pub fn validate_format(format: &str) -> (r: Result<(), String>)
    ensures
        r is Ok <==> format_error(format@) is None,
        r matches Err(m) ==> format_error(format@) == Some(m@),
{
    if str_eq(format, "text") || str_eq(format, "json") {
        Ok(())
    } else {
        Err(concat3("Invalid output format '", format, "'. Valid formats are: text, json"))
    }
}

/// A version string without one leading `v`.
pub open spec fn version_body(version: Seq<char>) -> Seq<char> {
    if version.len() > 0 && version[0] == 'v' {
        version.drop_first()
    } else {
        version
    }
}

/// The dot-separated components of a version body, taken before the first
/// `-` (the pre-release suffix).
pub open spec fn version_components(body: Seq<char>) -> Seq<Seq<char>> {
    split_on(split_on(body, '-')[0], '.')
}

/// The index of the first component that is not a `u32`, or the number of
/// components when all are.
pub open spec fn first_non_numeric(parts: Seq<Seq<char>>) -> int
    decreases parts.len(),
{
    if parts.len() == 0 {
        0
    } else {
        let f = first_non_numeric(parts.drop_last());
        if f < parts.len() - 1 {
            f
        } else if parses_as_u32(parts.last()) {
            parts.len() as int
        } else {
            parts.len() - 1
        }
    }
}

/// The error for a version string, if it is not of the form
/// `[v]MAJOR.MINOR[.PATCH][-SUFFIX]` with numeric components.
pub open spec fn version_error(version: Seq<char>) -> Option<Seq<char>> {
    let body = version_body(version);
    let parts = version_components(body);
    let bad = first_non_numeric(parts);
    if parts.len() < 2 || parts.len() > 3 {
        Some(
            "Invalid version format '"@ + body
                + "'. Expected format: MAJOR.MINOR.PATCH (e.g., 0.5.0)"@,
        )
    } else if bad < parts.len() {
        Some(
            "Invalid version component '"@ + parts[bad] + "' in version '"@ + body
                + "'. Version components must be numeric."@,
        )
    } else {
        None
    }
}

proof fn lemma_first_non_numeric(parts: Seq<Seq<char>>)
    ensures
        0 <= first_non_numeric(parts) <= parts.len(),
        forall|i: int| 0 <= i < first_non_numeric(parts) ==> parses_as_u32(#[trigger] parts[i]),
        first_non_numeric(parts) < parts.len() ==> !parses_as_u32(
            parts[first_non_numeric(parts)],
        ),
    decreases parts.len(),
{
    if parts.len() > 0 {
        let init = parts.drop_last();
        lemma_first_non_numeric(init);
        assert forall|i: int| 0 <= i < first_non_numeric(parts) implies parses_as_u32(
            #[trigger] parts[i],
        ) by {
            if i < init.len() {
                assert(init[i] == parts[i]);
            }
        }
        if first_non_numeric(parts) < parts.len() {
            let f = first_non_numeric(parts);
            if f < init.len() {
                assert(init[f] == parts[f]);
            }
        }
    }
}

/// Validate a version string (`0.5.0`, `v0.5.0`, `1.0`, `1.0.0-beta.1`).
pub fn validate_version_format(version: &str) -> (r: Result<(), String>)
    ensures
        r is Ok <==> version_error(version@) is None,
        r matches Err(m) ==> version_error(version@) == Some(m@),
{
    let all = chars_of(version);
    let mut body: Vec<char> = Vec::new();
    let start: usize = if all.len() > 0 && all[0] == 'v' { 1 } else { 0 };
    let mut i = start;
    while i < all.len()
        invariant
            start <= i <= all.len(),
            body@ == all@.subrange(start as int, i as int),
        decreases all.len() - i,
    {
        body.push(all[i]);
        i = i + 1;
        assert(body@ =~= all@.subrange(start as int, i as int));
    }
    assert(body@ =~= version_body(version@));
    let pieces = split_chars(body.as_slice(), '-');
    let parts = split_chars(pieces[0].as_slice(), '.');
    let ghost spec_parts = version_components(body@);
    assert(parts@.len() == spec_parts.len());
    if parts.len() < 2 || parts.len() > 3 {
        let b = string_of(body.as_slice());
        return Err(
            concat3(
                "Invalid version format '",
                b.as_str(),
                "'. Expected format: MAJOR.MINOR.PATCH (e.g., 0.5.0)",
            ),
        );
    }
    proof {
        lemma_first_non_numeric(spec_parts);
    }
    let mut k: usize = 0;
    while k < parts.len()
        invariant
            k <= parts@.len(),
            body@ == version_body(version@),
            spec_parts == version_components(body@),
            2 <= parts@.len() <= 3,
            parts@.len() == spec_parts.len(),
            forall|j: int| 0 <= j < parts@.len() ==> #[trigger] parts@[j]@ == spec_parts[j],
            forall|j: int| 0 <= j < k ==> parses_as_u32(#[trigger] spec_parts[j]),
            0 <= first_non_numeric(spec_parts) <= spec_parts.len(),
            forall|j: int|
                0 <= j < first_non_numeric(spec_parts) ==> parses_as_u32(#[trigger] spec_parts[j]),
            first_non_numeric(spec_parts) < spec_parts.len() ==> !parses_as_u32(
                spec_parts[first_non_numeric(spec_parts)],
            ),
        decreases parts.len() - k,
    {
        if !is_u32_text(parts[k].as_slice()) {
            assert(first_non_numeric(spec_parts) == k);
            let p = string_of(parts[k].as_slice());
            let b = string_of(body.as_slice());
            return Err(
                concat5(
                    "Invalid version component '",
                    p.as_str(),
                    "' in version '",
                    b.as_str(),
                    "'. Version components must be numeric.",
                ),
            );
        }
        k = k + 1;
    }
    assert(first_non_numeric(spec_parts) == spec_parts.len());
    Ok(())
}

/// The update channels, compared after lowercasing.
pub open spec fn is_channel(lower: Seq<char>) -> bool {
    lower == "stable"@ || lower == "beta"@ || lower == "nightly"@ || lower == "alpha"@
}

/// The error for an update channel argument.
pub open spec fn channel_error(channel: Seq<char>) -> Option<Seq<char>> {
    if is_channel(lowercase(channel)) {
        None
    } else {
        Some(
            "Invalid update channel '"@ + channel
                + "'. Valid channels are: stable, beta, nightly, alpha"@,
        )
    }
}

/// Validate an update channel (`stable`, `beta`, `nightly`, `alpha`, in any
/// case).
pub fn validate_channel(channel: &str) -> (r: Result<(), String>)
    ensures
        r is Ok <==> channel_error(channel@) is None,
        r matches Err(m) ==> channel_error(channel@) == Some(m@),
{
    let lower = to_lowercase(channel);
    let l = lower.as_str();
    if str_eq(l, "stable") || str_eq(l, "beta") || str_eq(l, "nightly") || str_eq(l, "alpha") {
        Ok(())
    } else {
        Err(
            concat3(
                "Invalid update channel '",
                channel,
                "'. Valid channels are: stable, beta, nightly, alpha",
            ),
        )
    }
}

/// The error for an update check interval in hours (1 to 8760).
pub open spec fn interval_error(hours: u64) -> Option<Seq<char>> {
    if hours == 0 {
        Some("Check interval must be at least 1 hour"@)
    } else if hours > 8760 {
        Some("Check interval cannot exceed 8760 hours (1 year)"@)
    } else {
        None
    }
}

/// Validate an update check interval.
pub fn validate_interval_hours(hours: u64) -> (r: Result<(), String>)
    ensures
        r is Ok <==> interval_error(hours) is None,
        r matches Err(m) ==> interval_error(hours) == Some(m@),
{
    if hours == 0 {
        return Err("Check interval must be at least 1 hour".to_owned());
    }
    if hours > 8760 {
        return Err("Check interval cannot exceed 8760 hours (1 year)".to_owned());
    }
    Ok(())
}

/// The error for a listing limit that must lie in `1..=max`.
pub open spec fn limit_error(limit: usize, max: usize) -> Option<Seq<char>> {
    if limit == 0 {
        Some("Limit must be at least 1"@)
    } else if limit > max {
        Some("Limit cannot exceed "@ + decimal(max as nat))
    } else {
        None
    }
}

/// Validate a listing limit against its maximum.
pub fn validate_limit(limit: usize, max: usize) -> (r: Result<(), String>)
    ensures
        r is Ok <==> limit_error(limit, max) is None,
        r matches Err(m) ==> limit_error(limit, max) == Some(m@),
{
    if limit == 0 {
        return Err("Limit must be at least 1".to_owned());
    }
    if limit > max {
        let n = decimal_string(max as u64);
        return Err(concat("Limit cannot exceed ", n.as_str()));
    }
    Ok(())
}

// ---------------------------------------------------------------------------
// Status and changelog presentation
// ---------------------------------------------------------------------------

/// The state of the upgrade process, with progress as a whole percentage.
pub enum UpgradeStatus {
    UpToDate,
    Available,
    Checking,
    Downloading { progress_percent: u32 },
    Installing { stage: String, progress_percent: u32 },
    Completed,
    Failed,
    RollingBack { progress_percent: u32 },
}

/// The one-line description of an upgrade status.
pub open spec fn status_text(status: UpgradeStatus) -> Seq<char> {
    match status {
        UpgradeStatus::UpToDate => "Up to date"@,
        UpgradeStatus::Available => "Update available"@,
        UpgradeStatus::Checking => "Checking for updates"@,
        UpgradeStatus::Downloading { progress_percent } => "Downloading ("@ + decimal(
            progress_percent as nat,
        ) + "%)"@,
        UpgradeStatus::Installing { stage, progress_percent } => "Installing: "@ + stage@ + " ("@
            + decimal(progress_percent as nat) + "%)"@,
        UpgradeStatus::Completed => "Installation completed"@,
        UpgradeStatus::Failed => "Installation failed"@,
        UpgradeStatus::RollingBack { progress_percent } => "Rolling back ("@ + decimal(
            progress_percent as nat,
        ) + "%)"@,
    }
}

/// Describe an upgrade status in one line.
pub fn status_to_string(status: &UpgradeStatus) -> (r: String)
    ensures
        r@ == status_text(*status),
{
    match status {
        UpgradeStatus::UpToDate => "Up to date".to_owned(),
        UpgradeStatus::Available => "Update available".to_owned(),
        UpgradeStatus::Checking => "Checking for updates".to_owned(),
        UpgradeStatus::Downloading { progress_percent } => {
            let n = decimal_string(*progress_percent as u64);
            concat3("Downloading (", n.as_str(), "%)")
        },
        UpgradeStatus::Installing { stage, progress_percent } => {
            let n = decimal_string(*progress_percent as u64);
            concat5("Installing: ", stage.as_str(), " (", n.as_str(), "%)")
        },
        UpgradeStatus::Completed => "Installation completed".to_owned(),
        UpgradeStatus::Failed => "Installation failed".to_owned(),
        UpgradeStatus::RollingBack { progress_percent } => {
            let n = decimal_string(*progress_percent as u64);
            concat3("Rolling back (", n.as_str(), "%)")
        },
    }
}

/// The changelog as shown to the user: its first ten lines, indented, and a
/// truncation marker when it has more.
pub open spec fn changelog_text(changelog: Seq<char>) -> Seq<char> {
    let all = lines_of(changelog);
    let shown = join(all.take(if all.len() < 10 { all.len() as int } else { 10 }), "\n   "@);
    if all.len() > 10 {
        "   "@ + shown + "\n   ... (truncated)"@
    } else {
        "   "@ + shown
    }
}

/// Format a changelog for display.
pub fn format_changelog(changelog: &str) -> (r: String)
    ensures
        r@ == changelog_text(changelog@),
{
    let cs = chars_of(changelog);
    let mut shown = lines(cs.as_slice());
    let ghost all_spec = lines_of(changelog@);
    let total = shown.len();
    let n = if total < 10 { total } else { 10 };
    shown.truncate(n);
    assert(shown@.map_values(|p: Vec<char>| p@) =~= all_spec.take(n as int));
    let sep = chars_of("\n   ");
    let joined = join_chars(&shown, sep.as_slice());
    let body = string_of(joined.as_slice());
    if total > 10 {
        concat3("   ", body.as_str(), "\n   ... (truncated)")
    } else {
        concat("   ", body.as_str())
    }
}

// ---------------------------------------------------------------------------
// Upgrade commands
// ---------------------------------------------------------------------------

/// Check for available updates.
pub struct UpgradeCheck {
    pub config: Config,
    pub force: bool,
    pub include_prerelease: bool,
}

impl UpgradeCheck {
    /// The name the command is known by.
    pub fn name(&self) -> (r: &'static str)
        ensures
            r@ == "upgrade check"@,
    {
        "upgrade check"
    }

    /// What the command does, in one line.
    pub fn description(&self) -> (r: &'static str)
        ensures
            r@ == "Check for available updates"@,
    {
        "Check for available updates"
    }

    pub fn new(config: Config, force: bool, include_prerelease: bool) -> (r: Self)
        ensures
            r.config == config,
            r.force == force,
            r.include_prerelease == include_prerelease,
    {
        UpgradeCheck { config, force, include_prerelease }
    }

    /// Every combination of flags is accepted.
    pub fn validate(&self, ctx: &CommandContext) -> (r: Result<(), String>)
        ensures
            r is Ok,
    {
        Ok(())
    }
}

/// Install an available update.
pub struct UpgradeInstall {
    pub config: Config,
    pub version: Option<String>,
    pub yes: bool,
    pub backup: bool,
    pub dry_run: bool,
}

impl UpgradeInstall {
    /// The name the command is known by.
    pub fn name(&self) -> (r: &'static str)
        ensures
            r@ == "upgrade install"@,
    {
        "upgrade install"
    }

    /// What the command does, in one line.
    pub fn description(&self) -> (r: &'static str)
        ensures
            r@ == "Install an available update"@,
    {
        "Install an available update"
    }

    pub fn new(config: Config, version: Option<String>, yes: bool, backup: bool, dry_run: bool) -> (r:
        Self)
        ensures
            r.config == config,
            r.version == version,
            r.yes == yes,
            r.backup == backup,
            r.dry_run == dry_run,
    {
        UpgradeInstall { config, version, yes, backup, dry_run }
    }

    /// Every combination of arguments is accepted.
    pub fn validate(&self, ctx: &CommandContext) -> (r: Result<(), String>)
        ensures
            r is Ok,
    {
        Ok(())
    }

    /// The summary that the command reports.
    pub fn result_message(&self) -> (r: String)
        ensures
            r@ == if self.dry_run {
                "Upgrade dry run completed"@
            } else {
                "Upgrade installation requested"@
            },
    {
        if self.dry_run {
            "Upgrade dry run completed".to_owned()
        } else {
            "Upgrade installation requested".to_owned()
        }
    }
}

/// Show the current upgrade status.
pub struct UpgradeStatusCmd {
    pub config: Config,
    pub detailed: bool,
}

impl UpgradeStatusCmd {
    /// The name the command is known by.
    pub fn name(&self) -> (r: &'static str)
        ensures
            r@ == "upgrade status"@,
    {
        "upgrade status"
    }

    /// What the command does, in one line.
    pub fn description(&self) -> (r: &'static str)
        ensures
            r@ == "Show current upgrade status"@,
    {
        "Show current upgrade status"
    }

    pub fn new(config: Config, detailed: bool) -> (r: Self)
        ensures
            r.config == config,
            r.detailed == detailed,
    {
        UpgradeStatusCmd { config, detailed }
    }

    /// Every combination of flags is accepted.
    pub fn validate(&self, ctx: &CommandContext) -> (r: Result<(), String>)
        ensures
            r is Ok,
    {
        Ok(())
    }
}

/// Roll back to a previous version.
pub struct UpgradeRollback {
    pub config: Config,
    pub yes: bool,
    pub backup_id: Option<String>,
}

impl UpgradeRollback {
    /// The name the command is known by.
    pub fn name(&self) -> (r: &'static str)
        ensures
            r@ == "upgrade rollback"@,
    {
        "upgrade rollback"
    }

    /// What the command does, in one line.
    pub fn description(&self) -> (r: &'static str)
        ensures
            r@ == "Rollback to previous version"@,
    {
        "Rollback to previous version"
    }

    pub fn new(config: Config, yes: bool, backup_id: Option<String>) -> (r: Self)
        ensures
            r.config == config,
            r.yes == yes,
            r.backup_id == backup_id,
    {
        UpgradeRollback { config, yes, backup_id }
    }

    /// Every combination of arguments is accepted.
    pub fn validate(&self, ctx: &CommandContext) -> (r: Result<(), String>)
        ensures
            r is Ok,
    {
        Ok(())
    }
}


// ---------------------------------------------------------------------------
// Subcommands and their checks
// ---------------------------------------------------------------------------

/// The arguments of the `upgrade` command.
pub struct UpgradeArgs {
    pub command: UpgradeCommands,
}

/// The upgrade subcommands.
pub enum UpgradeCommands {
    Check { force: bool, format: String, include_prerelease: bool },
    Install { version: Option<String>, yes: bool, backup: bool, dry_run: bool },
    Status { format: String, detailed: bool },
    Rollback { yes: bool, backup_id: Option<String> },
    Service { action: ServiceCommands },
    List { limit: usize, include_prerelease: bool, format: String },
    History { limit: usize, format: String },
    Config { action: ConfigCommands },
}

/// The subcommands of the background update service.
pub enum ServiceCommands {
    Start,
    Stop,
    Status { format: String },
    Stats { format: String },
}

/// The subcommands of the upgrade configuration.
pub enum ConfigCommands {
    Show { format: String },
    EnableAutoCheck,
    DisableAutoCheck,
    SetInterval { hours: u64 },
    SetChannel { channel: String },
}

/// The largest number of versions `list` shows.
pub const MAX_LIST_LIMIT: usize = 100;

/// The largest number of entries `history` shows.
pub const MAX_HISTORY_LIMIT: usize = 1000;

/// The first complaint of two checks made in turn.
pub open spec fn first_error(a: Option<Seq<char>>, b: Option<Seq<char>>) -> Option<Seq<char>> {
    if a is Some {
        a
    } else {
        b
    }
}

/// The complaint about a service subcommand's arguments, if any.
pub open spec fn service_command_error(action: ServiceCommands) -> Option<Seq<char>> {
    match action {
        ServiceCommands::Status { format } => format_error(format@),
        ServiceCommands::Stats { format } => format_error(format@),
        _ => None,
    }
}

/// The complaint about a configuration subcommand's arguments, if any.
pub open spec fn config_command_error(action: ConfigCommands) -> Option<Seq<char>> {
    match action {
        ConfigCommands::Show { format } => format_error(format@),
        ConfigCommands::SetInterval { hours } => interval_error(hours),
        ConfigCommands::SetChannel { channel } => channel_error(channel@),
        _ => None,
    }
}

/// The complaint that an upgrade subcommand raises about its arguments
/// before it does any work, if any.
pub open spec fn upgrade_command_error(command: UpgradeCommands) -> Option<Seq<char>> {
    match command {
        UpgradeCommands::Check { format, .. } => format_error(format@),
        UpgradeCommands::Install { version, .. } => match version {
            Some(v) => version_error(v@),
            None => None,
        },
        UpgradeCommands::Status { format, .. } => format_error(format@),
        UpgradeCommands::Rollback { .. } => None,
        UpgradeCommands::Service { action } => service_command_error(action),
        UpgradeCommands::List { limit, format, .. } => first_error(
            format_error(format@),
            limit_error(limit, MAX_LIST_LIMIT),
        ),
        UpgradeCommands::History { limit, format } => first_error(
            format_error(format@),
            limit_error(limit, MAX_HISTORY_LIMIT),
        ),
        UpgradeCommands::Config { action } => config_command_error(action),
    }
}

/// Checks the arguments of an upgrade subcommand as it does before any
/// work.
pub fn validate_upgrade_command(command: &UpgradeCommands) -> (r: Result<(), String>)
    ensures
        r is Ok <==> upgrade_command_error(*command) is None,
        r matches Err(m) ==> upgrade_command_error(*command) == Some(m@),
{
    match command {
        UpgradeCommands::Check { format, .. } => validate_format(format.as_str()),
        UpgradeCommands::Install { version, .. } => match version {
            Some(v) => validate_version_format(v.as_str()),
            None => Ok(()),
        },
        UpgradeCommands::Status { format, .. } => validate_format(format.as_str()),
        UpgradeCommands::Rollback { .. } => Ok(()),
        UpgradeCommands::Service { action } => match action {
            ServiceCommands::Status { format } => validate_format(format.as_str()),
            ServiceCommands::Stats { format } => validate_format(format.as_str()),
            _ => Ok(()),
        },
        UpgradeCommands::List { limit, format, .. } => {
            validate_format(format.as_str())?;
            validate_limit(*limit, MAX_LIST_LIMIT)
        },
        UpgradeCommands::History { limit, format } => {
            validate_format(format.as_str())?;
            validate_limit(*limit, MAX_HISTORY_LIMIT)
        },
        UpgradeCommands::Config { action } => match action {
            ConfigCommands::Show { format } => validate_format(format.as_str()),
            ConfigCommands::SetInterval { hours } => validate_interval_hours(*hours),
            ConfigCommands::SetChannel { channel } => validate_channel(channel.as_str()),
            _ => Ok(()),
        },
    }
}

/// An installation asks for confirmation unless told yes or only
/// rehearsing.
pub fn install_needs_confirmation(yes: bool, dry_run: bool) -> (r: bool)
    ensures
        r == (!yes && !dry_run),
{
    !yes && !dry_run
}

/// True when the available update is the version asked for, if one was.
pub fn requested_version_available(available: &str, requested: &Option<String>) -> (r: bool)
    ensures
        requested is None ==> r,
        requested matches Some(v) ==> r == (available@ == v@),
{
    match requested {
        None => true,
        Some(v) => str_eq(available, v.as_str()),
    }
}

/// Whole hours in an interval given in seconds.
pub fn interval_in_hours(seconds: u64) -> (r: u64)
    ensures
        r == seconds / 3600,
{
    seconds / 3600
}


// ---------------------------------------------------------------------------
// Laws of version validation
// ---------------------------------------------------------------------------

/// A leading `v` is optional: a version with one added in front is judged,
/// and reported, exactly as the version without it.
pub proof fn lemma_version_prefix_optional(version: Seq<char>)
    requires
        !(version.len() > 0 && version[0] == 'v'),
    ensures
        version_error(seq!['v'] + version) == version_error(version),
{
    assert((seq!['v'] + version).drop_first() =~= version);
}

/// The decimal rendering of a `u32` is a version component that parses,
/// and holds neither a dot nor a dash.
proof fn lemma_decimal_component(n: nat)
    requires
        n <= u32::MAX,
    ensures
        parses_as_u32(decimal(n)),
        forall|i: int| 0 <= i < decimal(n).len() ==> #[trigger] decimal(n)[i] != '.'
            && decimal(n)[i] != '-' && decimal(n)[i] != 'v',
        decimal(n).len() >= 1,
        decimal(n)[0] != 'v',
{
    lemma_decimal_digits(n);
    let d = decimal(n);
    assert(is_ascii_digit(d[0]));
    assert(unsigned_digits(d) == d);
    assert forall|i: int| 0 <= i < d.len() implies #[trigger] d[i] != '.' && d[i] != '-' && d[i]
        != 'v' by {
        assert(is_ascii_digit(d[i]));
    }
}

/// Numeric versions are accepted: `MAJOR.MINOR`, `MAJOR.MINOR.PATCH`, and
/// the latter followed by a dash and any pre-release suffix, for
/// components that fit in a `u32`.
pub proof fn lemma_numeric_versions_accepted(major: nat, minor: nat, patch: nat, suffix: Seq<char>)
    requires
        major <= u32::MAX,
        minor <= u32::MAX,
        patch <= u32::MAX,
    ensures
        version_error(decimal(major) + "."@ + decimal(minor)) is None,
        version_error(decimal(major) + "."@ + decimal(minor) + "."@ + decimal(patch)) is None,
        version_error(
            decimal(major) + "."@ + decimal(minor) + "."@ + decimal(patch) + "-"@ + suffix,
        ) is None,
{
    reveal_strlit(".");
    reveal_strlit("-");
    lemma_decimal_component(major);
    lemma_decimal_component(minor);
    lemma_decimal_component(patch);
    let a = decimal(major);
    let b = decimal(minor);
    let c = decimal(patch);
    let two = a.push('.') + b;
    let three = two.push('.') + c;
    let full = three.push('-') + suffix;
    assert(a + "."@ + b =~= two);
    assert(a + "."@ + b + "."@ + c =~= three);
    assert(a + "."@ + b + "."@ + c + "-"@ + suffix =~= full);
    assert forall|i: int| 0 <= i < a.len() implies #[trigger] a[i] != '.' && a[i] != '-' by {}
    assert forall|i: int| 0 <= i < two.len() implies #[trigger] two[i] != '-' by {
        if i < a.len() {
            assert(two[i] == a[i]);
        } else if i > a.len() {
            assert(two[i] == b[i - a.len() - 1]);
        }
    }
    assert forall|i: int| 0 <= i < three.len() implies #[trigger] three[i] != '-' by {
        if i < two.len() {
            assert(three[i] == two[i]);
        } else if i > two.len() {
            assert(three[i] == c[i - two.len() - 1]);
        }
    }
    lemma_split_without_sep(a, '.');
    lemma_split_after_sep(a, b, '.');
    lemma_split_after_sep(two, c, '.');
    lemma_split_without_sep(two, '-');
    lemma_split_without_sep(three, '-');
    lemma_split_first_piece(three, suffix, '-');
    assert(two[0] == a[0]);
    assert(three[0] == a[0]);
    assert(full[0] == a[0]);
    let p2 = seq![a, b];
    let p3 = seq![a, b, c];
    assert(version_components(two) =~= p2);
    assert(version_components(three) =~= p3);
    assert(version_components(full) =~= p3);
    lemma_first_non_numeric(p2);
    lemma_first_non_numeric(p3);
    assert(p2[0] == a && p2[1] == b);
    assert(p3[0] == a && p3[1] == b && p3[2] == c);
}


/// A changelog of at most ten lines is shown whole, each line indented;
/// a longer one shows its first ten lines and a truncation marker.
pub proof fn lemma_changelog_truncation(changelog: Seq<char>)
    ensures
        lines_of(changelog).len() <= 10 ==> changelog_text(changelog) == "   "@ + join(
            lines_of(changelog),
            "\n   "@,
        ),
        lines_of(changelog).len() > 10 ==> changelog_text(changelog) == "   "@ + join(
            lines_of(changelog).take(10),
            "\n   "@,
        ) + "\n   ... (truncated)"@,
{
    let all = lines_of(changelog);
    if all.len() <= 10 {
        assert(all.take(all.len() as int) == all);
    }
}


/// A version is accepted exactly when it has two or three dot-separated
/// components before any pre-release suffix, each of which parses as a
/// `u32`.
pub proof fn lemma_accepted_versions_are_numeric(version: Seq<char>)
    ensures
        version_error(version) is None <==> {
            let parts = version_components(version_body(version));
            &&& 2 <= parts.len() <= 3
            &&& forall|i: int| 0 <= i < parts.len() ==> parses_as_u32(#[trigger] parts[i])
        },
{
    let parts = version_components(version_body(version));
    lemma_first_non_numeric(parts);
    let bad = first_non_numeric(parts);
    if bad < parts.len() {
        assert(!parses_as_u32(parts[bad]));
    }
}

} // verus!
