//! Security commands: validation of user, API key, token, rate-limit and
//! IP-control operations, permission parsing, and the security commands.

use crate::command::{CommandContext, Config};
use crate::net::IpAddress;
use crate::text::{
    is_ascii_char, lemma_split_concat, lemma_split_without_sep,
    chars_of, concat3, lowercase, split_chars, split_on, str_eq, string_of, to_lowercase, trim,
    trimmed,
};
use vstd::prelude::*;

verus! {

// ---------------------------------------------------------------------------
// Roles and permissions
// ---------------------------------------------------------------------------

/// The role named on the command line.
#[derive(Clone, Copy, Debug, PartialEq, Eq, Structural)]
pub enum UserRoleArg {
    Admin,
    User,
    Guest,
    Service,
}

/// The role of a user in the security system.
#[derive(Clone, Copy, Debug, PartialEq, Eq, Structural)]
pub enum UserRole {
    Admin,
    User,
    Guest,
    Service,
}

impl From<UserRoleArg> for UserRole {
    fn from(arg: UserRoleArg) -> (r: Self) {
        match arg {
            UserRoleArg::Admin => UserRole::Admin,
            UserRoleArg::User => UserRole::User,
            UserRoleArg::Guest => UserRole::Guest,
            UserRoleArg::Service => UserRole::Service,
        }
    }
}

impl vstd::std_specs::convert::FromSpecImpl<UserRoleArg> for UserRole {
    open spec fn obeys_from_spec() -> bool {
        true
    }

    open spec fn from_spec(v: UserRoleArg) -> Self {
        match v {
            UserRoleArg::Admin => UserRole::Admin,
            UserRoleArg::User => UserRole::User,
            UserRoleArg::Guest => UserRole::Guest,
            UserRoleArg::Service => UserRole::Service,
        }
    }
}

/// A permission that can be granted to a user or an API key.
#[derive(Clone, Copy, Debug, PartialEq, Eq, Structural, Hash)]
pub enum Permission {
    ReadModels,
    WriteModels,
    DeleteModels,
    RunInference,
    ManageCache,
    ReadMetrics,
    WriteConfig,
    ManageUsers,
    ViewAuditLogs,
    UseStreaming,
    UseDistributed,
    ManageQueue,
}

/// The permission a (trimmed, lowercased) name stands for.
pub open spec fn permission_named(name: Seq<char>) -> Option<Permission> {
    if name == "read_models"@ {
        Some(Permission::ReadModels)
    } else if name == "write_models"@ {
        Some(Permission::WriteModels)
    } else if name == "delete_models"@ {
        Some(Permission::DeleteModels)
    } else if name == "run_inference"@ {
        Some(Permission::RunInference)
    } else if name == "manage_cache"@ {
        Some(Permission::ManageCache)
    } else if name == "read_metrics"@ {
        Some(Permission::ReadMetrics)
    } else if name == "write_config"@ {
        Some(Permission::WriteConfig)
    } else if name == "manage_users"@ {
        Some(Permission::ManageUsers)
    } else if name == "view_audit_logs"@ {
        Some(Permission::ViewAuditLogs)
    } else if name == "use_streaming"@ {
        Some(Permission::UseStreaming)
    } else if name == "use_distributed"@ {
        Some(Permission::UseDistributed)
    } else if name == "manage_queue"@ {
        Some(Permission::ManageQueue)
    } else {
        None
    }
}

/// The permission named by one comma-separated item of a permission list.
pub open spec fn item_permission(item: Seq<char>) -> Option<Permission> {
    permission_named(lowercase(trim(item)))
}

/// True when `p` is named by some item of the comma-separated `list`.
pub open spec fn list_grants(list: Seq<char>, p: Permission) -> bool {
    exists|i: int|
        0 <= i < split_on(list, ',').len() && item_permission(#[trigger] split_on(list, ',')[i])
            == Some(p)
}

fn permission_of(name: &str) -> (r: Option<Permission>)
    ensures
        r == permission_named(name@),
{
    if str_eq(name, "read_models") {
        Some(Permission::ReadModels)
    } else if str_eq(name, "write_models") {
        Some(Permission::WriteModels)
    } else if str_eq(name, "delete_models") {
        Some(Permission::DeleteModels)
    } else if str_eq(name, "run_inference") {
        Some(Permission::RunInference)
    } else if str_eq(name, "manage_cache") {
        Some(Permission::ManageCache)
    } else if str_eq(name, "read_metrics") {
        Some(Permission::ReadMetrics)
    } else if str_eq(name, "write_config") {
        Some(Permission::WriteConfig)
    } else if str_eq(name, "manage_users") {
        Some(Permission::ManageUsers)
    } else if str_eq(name, "view_audit_logs") {
        Some(Permission::ViewAuditLogs)
    } else if str_eq(name, "use_streaming") {
        Some(Permission::UseStreaming)
    } else if str_eq(name, "use_distributed") {
        Some(Permission::UseDistributed)
    } else if str_eq(name, "manage_queue") {
        Some(Permission::ManageQueue)
    } else {
        None
    }
}

/// The permissions named in a comma-separated list; items are trimmed and
/// compared case-insensitively, and unknown names are skipped. Each
/// permission appears once, in the order of its first mention.
pub fn parse_permissions(permissions: Option<String>) -> (r: Vec<Permission>)
    ensures
        r@.no_duplicates(),
        permissions is None ==> r@.len() == 0,
        permissions matches Some(list) ==> forall|p: Permission|
            r@.contains(p) <==> list_grants(list@, p),
{
    let mut perms: Vec<Permission> = Vec::new();
    match permissions {
        None => perms,
        Some(list) => {
            let cs = chars_of(list.as_str());
            let items = split_chars(cs.as_slice(), ',');
            let ghost spec_items = split_on(list@, ',');
            let mut k: usize = 0;
            while k < items.len()
                invariant
                    k <= items@.len(),
                    items@.len() == spec_items.len(),
                    spec_items == split_on(list@, ','),
                    forall|i: int| 0 <= i < items@.len() ==> #[trigger] items@[i]@ == spec_items[i],
                    perms@.no_duplicates(),
                    forall|p: Permission|
                        perms@.contains(p) <==> exists|i: int|
                            0 <= i < k && item_permission(#[trigger] spec_items[i]) == Some(p),
                decreases items@.len() - k,
            {
                let t = trimmed(items[k].as_slice());
                let ts = string_of(t.as_slice());
                let lower = to_lowercase(ts.as_str());
                let found = permission_of(lower.as_str());
                assert(found == item_permission(spec_items[k as int]));
                let ghost before = perms@;
                match found {
                    Some(p) => {
                        let mut seen = false;
                        let mut j: usize = 0;
                        while j < perms.len()
                            invariant
                                j <= perms@.len(),
                                perms@ == before,
                                seen == (exists|m: int| 0 <= m < j && perms@[m] == p),
                            decreases perms@.len() - j,
                        {
                            if perms[j] == p {
                                seen = true;
                            }
                            j = j + 1;
                        }
                        if !seen {
                            assert(!before.contains(p));
                            perms.push(p);
                            assert forall|a: int, b: int|
                                0 <= a < b < perms@.len() implies perms@[a] != perms@[b] by {
                                if b == perms@.len() - 1 {
                                    assert(before[a] == perms@[a]);
                                }
                            }
                            assert(perms@[perms@.len() - 1] == p);
                            assert forall|q: Permission| before.contains(q) implies perms@.contains(
                                q,
                            ) by {
                                let i = choose|i: int| 0 <= i < before.len() && before[i] == q;
                                assert(perms@[i] == q);
                            }
                            assert forall|q: Permission| perms@.contains(q) implies before.contains(q)
                                || q == p by {
                                let i = choose|i: int| 0 <= i < perms@.len() && perms@[i] == q;
                                if i < before.len() {
                                    assert(before[i] == q);
                                }
                            }
                        } else {
                            assert(before.contains(p));
                        }
                        assert(perms@.contains(p));
                    },
                    None => {},
                }
                proof {
                    assert(found is None ==> perms@ == before);
                    assert(found matches Some(p) ==> perms@.contains(p));
                    assert(forall|q: Permission| before.contains(q) ==> perms@.contains(q));
                    assert(forall|q: Permission| perms@.contains(q) ==> before.contains(q) || found == Some(q));
                    assert forall|q: Permission|
                        perms@.contains(q) <==> exists|i: int|
                            0 <= i < k + 1 && item_permission(#[trigger] spec_items[i])
                                == Some(q) by {
                        if perms@.contains(q) {
                            if before.contains(q) {
                                let i = choose|i: int|
                                    0 <= i < k && item_permission(#[trigger] spec_items[i])
                                        == Some(q);
                                assert(0 <= i < k + 1);
                            } else {
                                assert(item_permission(spec_items[k as int]) == Some(q));
                            }
                        }
                        if exists|i: int|
                            0 <= i < k + 1 && item_permission(#[trigger] spec_items[i])
                                == Some(q) {
                            let i = choose|i: int|
                                0 <= i < k + 1 && item_permission(#[trigger] spec_items[i])
                                    == Some(q);
                            if i < k {
                                assert(before.contains(q));
                            } else {
                                assert(found == Some(q));
                            }
                        }
                    }
                }
                k = k + 1;
            }
            perms
        },
    }
}

// ---------------------------------------------------------------------------
// Operation validation
// ---------------------------------------------------------------------------

/// The error for a user-management operation, by which arguments are given.
pub open spec fn user_operation_error(
    operation: Seq<char>,
    has_user_id: bool,
    has_username: bool,
    has_role: bool,
) -> Option<Seq<char>> {
    if !(operation == "create"@ || operation == "list"@ || operation == "delete"@ || operation
        == "modify"@) {
        Some("Operation must be one of: create, list, delete, modify"@)
    } else if operation == "create"@ && !has_user_id {
        Some("User ID is required for create operation"@)
    } else if operation == "create"@ && !has_username {
        Some("Username is required for create operation"@)
    } else if operation == "create"@ && !has_role {
        Some("Role is required for create operation"@)
    } else if (operation == "delete"@ || operation == "modify"@) && !has_user_id {
        Some("User ID is required for "@ + operation + " operation"@)
    } else {
        None
    }
}

/// Check that a user-management operation has the arguments it needs.
pub fn validate_user_operation(
    operation: &str,
    user_id: &Option<String>,
    username: &Option<String>,
    role: &Option<UserRoleArg>,
) -> (r: Result<(), String>)
    ensures
        r is Ok <==> user_operation_error(
            operation@,
            user_id is Some,
            username is Some,
            role is Some,
        ) is None,
        r matches Err(m) ==> user_operation_error(
            operation@,
            user_id is Some,
            username is Some,
            role is Some,
        ) == Some(m@),
{
    let create = str_eq(operation, "create");
    let delete = str_eq(operation, "delete");
    let modify = str_eq(operation, "modify");
    if !(create || str_eq(operation, "list") || delete || modify) {
        return Err("Operation must be one of: create, list, delete, modify".to_owned());
    }
    if create {
        if user_id.is_none() {
            return Err("User ID is required for create operation".to_owned());
        }
        if username.is_none() {
            return Err("Username is required for create operation".to_owned());
        }
        if role.is_none() {
            return Err("Role is required for create operation".to_owned());
        }
    }
    if (delete || modify) && user_id.is_none() {
        return Err(concat3("User ID is required for ", operation, " operation"));
    }
    Ok(())
}

/// The error for an API-key operation, by which arguments are given.
pub open spec fn api_key_operation_error(
    operation: Seq<char>,
    has_user_id: bool,
    has_key_name: bool,
    has_key_id: bool,
    has_key_value: bool,
    expires_in: Option<i64>,
) -> Option<Seq<char>> {
    if !(operation == "generate"@ || operation == "list"@ || operation == "revoke"@ || operation
        == "test"@) {
        Some("Operation must be one of: generate, list, revoke, test"@)
    } else if operation == "generate"@ && !has_user_id {
        Some("User ID is required for generate operation"@)
    } else if operation == "generate"@ && !has_key_name {
        Some("Key name is required for generate operation"@)
    } else if operation == "list"@ && !has_user_id {
        Some("User ID is required for list operation"@)
    } else if operation == "revoke"@ && !has_key_id {
        Some("Key ID is required for revoke operation"@)
    } else if operation == "revoke"@ && !has_user_id {
        Some("User ID is required for revoke operation"@)
    } else if operation == "test"@ && !has_key_value {
        Some("Key value is required for test operation"@)
    } else if expires_in matches Some(days) && (days <= 0 || days > 365) {
        Some("Expiration must be between 1 and 365 days"@)
    } else {
        None
    }
}

/// Check that an API-key operation has the arguments it needs and that an
/// expiration, if given, lies between 1 and 365 days.
pub fn validate_api_key_operation(
    operation: &str,
    user_id: &Option<String>,
    key_name: &Option<String>,
    key_id: &Option<String>,
    key_value: &Option<String>,
    expires_in: Option<i64>,
) -> (r: Result<(), String>)
    ensures
        r is Ok <==> api_key_operation_error(
            operation@,
            user_id is Some,
            key_name is Some,
            key_id is Some,
            key_value is Some,
            expires_in,
        ) is None,
        r matches Err(m) ==> api_key_operation_error(
            operation@,
            user_id is Some,
            key_name is Some,
            key_id is Some,
            key_value is Some,
            expires_in,
        ) == Some(m@),
{
    let generate = str_eq(operation, "generate");
    let list = str_eq(operation, "list");
    let revoke = str_eq(operation, "revoke");
    let test = str_eq(operation, "test");
    if !(generate || list || revoke || test) {
        return Err("Operation must be one of: generate, list, revoke, test".to_owned());
    }
    if generate {
        if user_id.is_none() {
            return Err("User ID is required for generate operation".to_owned());
        }
        if key_name.is_none() {
            return Err("Key name is required for generate operation".to_owned());
        }
    }
    if list && user_id.is_none() {
        return Err("User ID is required for list operation".to_owned());
    }
    if revoke {
        if key_id.is_none() {
            return Err("Key ID is required for revoke operation".to_owned());
        }
        if user_id.is_none() {
            return Err("User ID is required for revoke operation".to_owned());
        }
    }
    if test && key_value.is_none() {
        return Err("Key value is required for test operation".to_owned());
    }
    if let Some(days) = expires_in {
        if days <= 0 || days > 365 {
            return Err("Expiration must be between 1 and 365 days".to_owned());
        }
    }
    Ok(())
}

/// The error for a token operation, by which arguments are given.
pub open spec fn token_operation_error(
    operation: Seq<char>,
    has_user_id: bool,
    has_token: bool,
    has_jti: bool,
) -> Option<Seq<char>> {
    if !(operation == "generate"@ || operation == "verify"@ || operation == "revoke"@ || operation
        == "list-revoked"@) {
        Some("Operation must be one of: generate, verify, revoke, list-revoked"@)
    } else if operation == "generate"@ && !has_user_id {
        Some("User ID is required for generate operation"@)
    } else if operation == "verify"@ && !has_token {
        Some("Token is required for verify operation"@)
    } else if operation == "revoke"@ && !has_jti {
        Some("JTI (token ID) is required for revoke operation"@)
    } else {
        None
    }
}

/// Check that a token operation has the arguments it needs.
pub fn validate_token_operation(
    operation: &str,
    user_id: &Option<String>,
    token: &Option<String>,
    jti: &Option<String>,
) -> (r: Result<(), String>)
    ensures
        r is Ok <==> token_operation_error(
            operation@,
            user_id is Some,
            token is Some,
            jti is Some,
        ) is None,
        r matches Err(m) ==> token_operation_error(
            operation@,
            user_id is Some,
            token is Some,
            jti is Some,
        ) == Some(m@),
{
    let generate = str_eq(operation, "generate");
    let verify = str_eq(operation, "verify");
    let revoke = str_eq(operation, "revoke");
    if !(generate || verify || revoke || str_eq(operation, "list-revoked")) {
        return Err("Operation must be one of: generate, verify, revoke, list-revoked".to_owned());
    }
    if generate && user_id.is_none() {
        return Err("User ID is required for generate operation".to_owned());
    }
    if verify && token.is_none() {
        return Err("Token is required for verify operation".to_owned());
    }
    if revoke && jti.is_none() {
        return Err("JTI (token ID) is required for revoke operation".to_owned());
    }
    Ok(())
}

/// Settings for a rate-limit operation, built step by step.
#[derive(Debug, Clone)]
pub struct RateLimitSettings {
    pub identifier: Option<String>,
    pub ip: Option<IpAddress>,
    pub per_minute: Option<u32>,
    pub per_hour: Option<u32>,
    pub per_day: Option<u32>,
    pub reset_all: bool,
    pub test_requests: Option<u32>,
}

impl Default for RateLimitSettings {
    fn default() -> (r: Self)
        ensures
            r.identifier is None,
            r.ip is None,
            r.per_minute is None,
            r.per_hour is None,
            r.per_day is None,
            !r.reset_all,
            r.test_requests is None,
    {
        RateLimitSettings {
            identifier: None,
            ip: None,
            per_minute: None,
            per_hour: None,
            per_day: None,
            reset_all: false,
            test_requests: None,
        }
    }
}

impl RateLimitSettings {
    /// Settings with nothing set.
    pub fn new() -> (r: Self)
        ensures
            r.identifier is None,
            r.ip is None,
            r.per_minute is None,
            r.per_hour is None,
            r.per_day is None,
            !r.reset_all,
            r.test_requests is None,
    {
        Self::default()
    }

    /// These settings with the identifier set.
    pub fn identifier(self, id: &str) -> (r: Self)
        ensures
            r.identifier matches Some(s) && s@ == id@,
            r.ip == self.ip,
            r.per_minute == self.per_minute,
            r.per_hour == self.per_hour,
            r.per_day == self.per_day,
            r.reset_all == self.reset_all,
            r.test_requests == self.test_requests,
    {
        RateLimitSettings { identifier: Some(id.to_owned()), ..self }
    }

    /// These settings with the IP address set.
    pub fn ip(self, ip: IpAddress) -> (r: Self)
        ensures
            r == (RateLimitSettings { ip: Some(ip), ..self }),
    {
        RateLimitSettings { ip: Some(ip), ..self }
    }

    /// These settings with the per-minute limit set.
    pub fn per_minute(self, limit: u32) -> (r: Self)
        ensures
            r == (RateLimitSettings { per_minute: Some(limit), ..self }),
    {
        RateLimitSettings { per_minute: Some(limit), ..self }
    }

    /// These settings with the per-hour limit set.
    pub fn per_hour(self, limit: u32) -> (r: Self)
        ensures
            r == (RateLimitSettings { per_hour: Some(limit), ..self }),
    {
        RateLimitSettings { per_hour: Some(limit), ..self }
    }

    /// These settings with the per-day limit set.
    pub fn per_day(self, limit: u32) -> (r: Self)
        ensures
            r == (RateLimitSettings { per_day: Some(limit), ..self }),
    {
        RateLimitSettings { per_day: Some(limit), ..self }
    }

    /// These settings with the reset-all flag set as given.
    pub fn reset_all(self, reset: bool) -> (r: Self)
        ensures
            r == (RateLimitSettings { reset_all: reset, ..self }),
    {
        RateLimitSettings { reset_all: reset, ..self }
    }

    /// These settings with the number of test requests set.
    pub fn test_requests(self, requests: u32) -> (r: Self)
        ensures
            r == (RateLimitSettings { test_requests: Some(requests), ..self }),
    {
        RateLimitSettings { test_requests: Some(requests), ..self }
    }
}

/// The error for a rate-limit operation with the given settings.
pub open spec fn rate_limit_operation_error(
    operation: Seq<char>,
    settings: RateLimitSettings,
) -> Option<Seq<char>> {
    if !(operation == "status"@ || operation == "set"@ || operation == "reset"@ || operation
        == "test"@) {
        Some("Operation must be one of: status, set, reset, test"@)
    } else if operation == "status"@ && settings.identifier is None {
        Some("Identifier is required for status operation"@)
    } else if operation == "set"@ && settings.identifier is None {
        Some("Identifier is required for set operation"@)
    } else if operation == "set"@ && settings.per_minute is None && settings.per_hour is None
        && settings.per_day is None {
        Some("At least one rate limit (per_minute, per_hour, per_day) must be specified"@)
    } else if operation == "test"@ && settings.test_requests is None {
        Some("Number of test requests is required for test operation"@)
    } else if operation == "test"@ && (settings.test_requests matches Some(n) && (n == 0 || n
        > 10000)) {
        Some("Test requests must be between 1 and 10000"@)
    } else {
        None
    }
}

/// Check that a rate-limit operation has the settings it needs.
pub fn validate_rate_limit_operation(operation: &str, settings: &RateLimitSettings) -> (r: Result<
    (),
    String,
>)
    ensures
        r is Ok <==> rate_limit_operation_error(operation@, *settings) is None,
        r matches Err(m) ==> rate_limit_operation_error(operation@, *settings) == Some(m@),
{
    let status = str_eq(operation, "status");
    let set = str_eq(operation, "set");
    let test = str_eq(operation, "test");
    if !(status || set || str_eq(operation, "reset") || test) {
        return Err("Operation must be one of: status, set, reset, test".to_owned());
    }
    if status && settings.identifier.is_none() {
        return Err("Identifier is required for status operation".to_owned());
    }
    if set {
        if settings.identifier.is_none() {
            return Err("Identifier is required for set operation".to_owned());
        }
        if settings.per_minute.is_none() && settings.per_hour.is_none()
            && settings.per_day.is_none() {
            return Err(
                "At least one rate limit (per_minute, per_hour, per_day) must be specified".to_owned(),
            );
        }
    }
    if test {
        if settings.test_requests.is_none() {
            return Err("Number of test requests is required for test operation".to_owned());
        }
        if let Some(requests) = settings.test_requests {
            if requests == 0 || requests > 10000 {
                return Err("Test requests must be between 1 and 10000".to_owned());
            }
        }
    }
    Ok(())
}

/// The error for an IP-control operation, by whether an address is given.
pub open spec fn ip_control_operation_error(operation: Seq<char>, has_ip: bool) -> Option<
    Seq<char>,
> {
    if !(operation == "allow"@ || operation == "block"@ || operation == "remove"@ || operation
        == "list"@ || operation == "test"@) {
        Some("Operation must be one of: allow, block, remove, list, test"@)
    } else if operation != "list"@ && !has_ip {
        Some("IP address is required for "@ + operation + " operation"@)
    } else {
        None
    }
}

/// Check that an IP-control operation has an address unless it lists.
pub fn validate_ip_control_operation(operation: &str, ip: &Option<IpAddress>) -> (r: Result<
    (),
    String,
>)
    ensures
        r is Ok <==> ip_control_operation_error(operation@, ip is Some) is None,
        r matches Err(m) ==> ip_control_operation_error(operation@, ip is Some) == Some(m@),
{
    let list = str_eq(operation, "list");
    if !(str_eq(operation, "allow") || str_eq(operation, "block") || str_eq(operation, "remove")
        || list || str_eq(operation, "test")) {
        return Err("Operation must be one of: allow, block, remove, list, test".to_owned());
    }
    if !list && ip.is_none() {
        return Err(concat3("IP address is required for ", operation, " operation"));
    }
    Ok(())
}

/// The error for an audit-log listing limit (1 to 1000).
pub open spec fn audit_limit_error(limit: usize) -> Option<Seq<char>> {
    if limit == 0 || limit > 1000 {
        Some("Limit must be between 1 and 1000"@)
    } else {
        None
    }
}

/// Check the audit-log listing limit.
pub fn validate_audit_params(limit: usize) -> (r: Result<(), String>)
    ensures
        r is Ok <==> audit_limit_error(limit) is None,
        r matches Err(m) ==> audit_limit_error(limit) == Some(m@),
{
    if limit == 0 || limit > 1000 {
        return Err("Limit must be between 1 and 1000".to_owned());
    }
    Ok(())
}

/// The error when no security test is selected.
pub open spec fn security_test_error(auth: bool, rate_limit: bool, validation: bool, all: bool) -> Option<
    Seq<char>,
> {
    if !auth && !rate_limit && !validation && !all {
        Some(
            "At least one test type must be enabled (--auth, --rate-limit, --validation, or --all)"@,
        )
    } else {
        None
    }
}

/// Check that at least one security test is selected.
pub fn validate_security_test(auth: bool, rate_limit: bool, validation: bool, all: bool) -> (r:
    Result<(), String>)
    ensures
        r is Ok <==> security_test_error(auth, rate_limit, validation, all) is None,
        r matches Err(m) ==> security_test_error(auth, rate_limit, validation, all) == Some(m@),
{
    if !auth && !rate_limit && !validation && !all {
        return Err(
            "At least one test type must be enabled (--auth, --rate-limit, --validation, or --all)".to_owned(),
        );
    }
    Ok(())
}

// ---------------------------------------------------------------------------
// Command-line subcommands and their validation
// ---------------------------------------------------------------------------

/// User management subcommands.
pub enum UserCommand {
    Create {
        id: String,
        username: String,
        email: Option<String>,
        role: UserRoleArg,
        permissions: Option<String>,
    },
    List { detailed: bool },
    Delete { id: String },
    Modify {
        id: String,
        role: Option<UserRoleArg>,
        active: Option<bool>,
        permissions: Option<String>,
    },
}

/// API key management subcommands.
pub enum ApiKeyCommand {
    Generate {
        user: String,
        name: String,
        permissions: Option<String>,
        expires_in: Option<i64>,
    },
    List { user: String },
    Revoke { key_id: String, user: String },
    Test { key: String },
}

/// Token management subcommands.
pub enum TokenCommand {
    Generate { user: String },
    Verify { token: String },
    Revoke { jti: String },
    ListRevoked { limit: usize },
}

/// Rate-limit management subcommands.
pub enum RateLimitCommand {
    Status { identifier: String, ip: Option<IpAddress> },
    SetLimits {
        user: String,
        per_minute: Option<u32>,
        per_hour: Option<u32>,
        per_day: Option<u32>,
    },
    Reset { identifier: Option<String>, all: bool },
    Test { requests: u32, identifier: String },
}

/// IP access-control subcommands.
pub enum IpControlCommand {
    Allow { ip: IpAddress },
    Block { ip: IpAddress, reason: Option<String> },
    Remove { ip: IpAddress },
    List { blocked_only: bool, allowed_only: bool },
    Test { ip: IpAddress },
}

/// The security subcommands.
pub enum SecurityCommand {
    Init,
    User { command: UserCommand },
    ApiKey { command: ApiKeyCommand },
    Token { command: TokenCommand },
    RateLimit { command: RateLimitCommand },
    IpControl { command: IpControlCommand },
    Audit {
        limit: usize,
        user: Option<String>,
        action: Option<String>,
        failures_only: bool,
    },
    Test { auth: bool, rate_limit: bool, validation: bool, all: bool },
    Export { output: Option<String>, include_sensitive: bool },
}

/// The error for a user subcommand.
pub open spec fn user_command_error(command: UserCommand) -> Option<Seq<char>> {
    match command {
        UserCommand::Create { .. } => user_operation_error("create"@, true, true, true),
        UserCommand::List { .. } => user_operation_error("list"@, false, false, false),
        UserCommand::Delete { .. } => user_operation_error("delete"@, true, false, false),
        UserCommand::Modify { role, .. } => user_operation_error(
            "modify"@,
            true,
            false,
            role is Some,
        ),
    }
}

/// Validate a user subcommand.
pub fn validate_user_command(command: &UserCommand) -> (r: Result<(), String>)
    ensures
        r is Ok <==> user_command_error(*command) is None,
        r matches Err(m) ==> user_command_error(*command) == Some(m@),
{
    proof {
        reveal_strlit("create");
        assert("create"@.len() == 6 && "create"@[0] == 'c');
        reveal_strlit("list");
        assert("list"@.len() == 4 && "list"@[0] == 'l');
        reveal_strlit("delete");
        assert("delete"@.len() == 6 && "delete"@[0] == 'd');
        reveal_strlit("modify");
        assert("modify"@.len() == 6 && "modify"@[0] == 'm');
    }
    match command {
        UserCommand::Create { id, username, role, .. } => validate_user_operation(
            "create",
            &Some(id.clone()),
            &Some(username.clone()),
            &Some(*role),
        ),
        UserCommand::List { .. } => validate_user_operation("list", &None, &None, &None),
        UserCommand::Delete { id } => validate_user_operation(
            "delete",
            &Some(id.clone()),
            &None,
            &None,
        ),
        UserCommand::Modify { id, role, .. } => validate_user_operation(
            "modify",
            &Some(id.clone()),
            &None,
            role,
        ),
    }
}

/// The error for an API key subcommand.
pub open spec fn api_key_command_error(command: ApiKeyCommand) -> Option<Seq<char>> {
    match command {
        ApiKeyCommand::Generate { expires_in, .. } => api_key_operation_error(
            "generate"@,
            true,
            true,
            false,
            false,
            expires_in,
        ),
        ApiKeyCommand::List { .. } => api_key_operation_error(
            "list"@,
            true,
            false,
            false,
            false,
            None,
        ),
        ApiKeyCommand::Revoke { .. } => api_key_operation_error(
            "revoke"@,
            true,
            false,
            true,
            false,
            None,
        ),
        ApiKeyCommand::Test { .. } => api_key_operation_error(
            "test"@,
            false,
            false,
            false,
            true,
            None,
        ),
    }
}

/// Validate an API key subcommand.
pub fn validate_api_key_command(command: &ApiKeyCommand) -> (r: Result<(), String>)
    ensures
        r is Ok <==> api_key_command_error(*command) is None,
        r matches Err(m) ==> api_key_command_error(*command) == Some(m@),
{
    proof {
        reveal_strlit("generate");
        assert("generate"@.len() == 8 && "generate"@[0] == 'g');
        reveal_strlit("list");
        assert("list"@.len() == 4 && "list"@[0] == 'l');
        reveal_strlit("revoke");
        assert("revoke"@.len() == 6 && "revoke"@[0] == 'r');
        reveal_strlit("test");
        assert("test"@.len() == 4 && "test"@[0] == 't');
    }
    match command {
        ApiKeyCommand::Generate { user, name, expires_in, .. } => validate_api_key_operation(
            "generate",
            &Some(user.clone()),
            &Some(name.clone()),
            &None,
            &None,
            *expires_in,
        ),
        ApiKeyCommand::List { user } => validate_api_key_operation(
            "list",
            &Some(user.clone()),
            &None,
            &None,
            &None,
            None,
        ),
        ApiKeyCommand::Revoke { key_id, user } => validate_api_key_operation(
            "revoke",
            &Some(user.clone()),
            &None,
            &Some(key_id.clone()),
            &None,
            None,
        ),
        ApiKeyCommand::Test { key } => validate_api_key_operation(
            "test",
            &None,
            &None,
            &None,
            &Some(key.clone()),
            None,
        ),
    }
}

/// The error for a token subcommand.
pub open spec fn token_command_error(command: TokenCommand) -> Option<Seq<char>> {
    match command {
        TokenCommand::Generate { .. } => token_operation_error("generate"@, true, false, false),
        TokenCommand::Verify { .. } => token_operation_error("verify"@, false, true, false),
        TokenCommand::Revoke { .. } => token_operation_error("revoke"@, false, false, true),
        TokenCommand::ListRevoked { .. } => token_operation_error(
            "list-revoked"@,
            false,
            false,
            false,
        ),
    }
}

/// Validate a token subcommand.
pub fn validate_token_command(command: &TokenCommand) -> (r: Result<(), String>)
    ensures
        r is Ok <==> token_command_error(*command) is None,
        r matches Err(m) ==> token_command_error(*command) == Some(m@),
{
    proof {
        reveal_strlit("generate");
        assert("generate"@.len() == 8 && "generate"@[0] == 'g');
        reveal_strlit("verify");
        assert("verify"@.len() == 6 && "verify"@[0] == 'v');
        reveal_strlit("revoke");
        assert("revoke"@.len() == 6 && "revoke"@[0] == 'r');
        reveal_strlit("list-revoked");
        assert("list-revoked"@.len() == 12 && "list-revoked"@[0] == 'l');
    }
    match command {
        TokenCommand::Generate { user } => validate_token_operation(
            "generate",
            &Some(user.clone()),
            &None,
            &None,
        ),
        TokenCommand::Verify { token } => validate_token_operation(
            "verify",
            &None,
            &Some(token.clone()),
            &None,
        ),
        TokenCommand::Revoke { jti } => validate_token_operation(
            "revoke",
            &None,
            &None,
            &Some(jti.clone()),
        ),
        TokenCommand::ListRevoked { .. } => validate_token_operation(
            "list-revoked",
            &None,
            &None,
            &None,
        ),
    }
}

/// The error for a rate-limit subcommand.
pub open spec fn rate_limit_command_error(command: RateLimitCommand) -> Option<Seq<char>> {
    match command {
        RateLimitCommand::Status { .. } => None,
        RateLimitCommand::SetLimits { per_minute, per_hour, per_day, .. } => if per_minute is None
            && per_hour is None && per_day is None {
            Some("At least one rate limit (per_minute, per_hour, per_day) must be specified"@)
        } else {
            None
        },
        RateLimitCommand::Reset { .. } => None,
        RateLimitCommand::Test { requests, .. } => if requests == 0 || requests > 10000 {
            Some("Test requests must be between 1 and 10000"@)
        } else {
            None
        },
    }
}

/// Validate a rate-limit subcommand.
pub fn validate_rate_limit_cmd(command: &RateLimitCommand) -> (r: Result<(), String>)
    ensures
        r is Ok <==> rate_limit_command_error(*command) is None,
        r matches Err(m) ==> rate_limit_command_error(*command) == Some(m@),
{
    proof {
        reveal_strlit("status");
        assert("status"@.len() == 6 && "status"@[0] == 's');
        reveal_strlit("set");
        assert("set"@.len() == 3 && "set"@[0] == 's');
        reveal_strlit("reset");
        assert("reset"@.len() == 5 && "reset"@[0] == 'r');
        reveal_strlit("test");
        assert("test"@.len() == 4 && "test"@[0] == 't');
    }
    match command {
        RateLimitCommand::Status { identifier, ip } => {
            let settings = RateLimitSettings {
                identifier: Some(identifier.clone()),
                ip: *ip,
                ..RateLimitSettings::default()
            };
            assert(settings.identifier is Some);
            validate_rate_limit_operation("status", &settings)
        },
        RateLimitCommand::SetLimits { user, per_minute, per_hour, per_day } => {
            let settings = RateLimitSettings {
                identifier: Some(user.clone()),
                per_minute: *per_minute,
                per_hour: *per_hour,
                per_day: *per_day,
                ..RateLimitSettings::default()
            };
            assert(settings.identifier is Some);
            assert(settings.per_minute == *per_minute);
            validate_rate_limit_operation("set", &settings)
        },
        RateLimitCommand::Reset { identifier, all } => {
            let settings = RateLimitSettings {
                identifier: identifier.clone(),
                reset_all: *all,
                ..RateLimitSettings::default()
            };
            validate_rate_limit_operation("reset", &settings)
        },
        RateLimitCommand::Test { requests, identifier } => {
            let settings = RateLimitSettings {
                identifier: Some(identifier.clone()),
                test_requests: Some(*requests),
                ..RateLimitSettings::default()
            };
            assert(settings.test_requests == Some(*requests));
            validate_rate_limit_operation("test", &settings)
        },
    }
}

/// Every IP-control subcommand carries the address it needs.
pub fn validate_ip_control_cmd(command: &IpControlCommand) -> (r: Result<(), String>)
    ensures
        r is Ok,
{
    proof {
        reveal_strlit("allow");
        assert("allow"@.len() == 5 && "allow"@[0] == 'a');
        reveal_strlit("block");
        assert("block"@.len() == 5 && "block"@[0] == 'b');
        reveal_strlit("remove");
        assert("remove"@.len() == 6 && "remove"@[0] == 'r');
        reveal_strlit("list");
        assert("list"@.len() == 4 && "list"@[0] == 'l');
        reveal_strlit("test");
        assert("test"@.len() == 4 && "test"@[0] == 't');
    }
    match command {
        IpControlCommand::Allow { ip } => validate_ip_control_operation("allow", &Some(*ip)),
        IpControlCommand::Block { ip, .. } => validate_ip_control_operation("block", &Some(*ip)),
        IpControlCommand::Remove { ip } => validate_ip_control_operation("remove", &Some(*ip)),
        IpControlCommand::List { .. } => validate_ip_control_operation("list", &None),
        IpControlCommand::Test { ip } => validate_ip_control_operation("test", &Some(*ip)),
    }
}

/// The error for a security subcommand.
pub open spec fn security_command_error(command: SecurityCommand) -> Option<Seq<char>> {
    match command {
        SecurityCommand::Init => None,
        SecurityCommand::User { command } => user_command_error(command),
        SecurityCommand::ApiKey { command } => api_key_command_error(command),
        SecurityCommand::Token { command } => token_command_error(command),
        SecurityCommand::RateLimit { command } => rate_limit_command_error(command),
        SecurityCommand::IpControl { .. } => None,
        SecurityCommand::Audit { limit, .. } => audit_limit_error(limit),
        SecurityCommand::Test { auth, rate_limit, validation, all } => security_test_error(
            auth,
            rate_limit,
            validation,
            all,
        ),
        SecurityCommand::Export { .. } => None,
    }
}

/// Validate a security subcommand before it runs.
pub fn validate_command(command: &SecurityCommand) -> (r: Result<(), String>)
    ensures
        r is Ok <==> security_command_error(*command) is None,
        r matches Err(m) ==> security_command_error(*command) == Some(m@),
{
    match command {
        SecurityCommand::Init => Ok(()),
        SecurityCommand::User { command } => validate_user_command(command),
        SecurityCommand::ApiKey { command } => validate_api_key_command(command),
        SecurityCommand::Token { command } => validate_token_command(command),
        SecurityCommand::RateLimit { command } => validate_rate_limit_cmd(command),
        SecurityCommand::IpControl { command } => validate_ip_control_cmd(command),
        SecurityCommand::Audit { limit, .. } => validate_audit_params(*limit),
        SecurityCommand::Test { auth, rate_limit, validation, all } => validate_security_test(
            *auth,
            *rate_limit,
            *validation,
            *all,
        ),
        SecurityCommand::Export { .. } => Ok(()),
    }
}

// ---------------------------------------------------------------------------
// Security commands
// ---------------------------------------------------------------------------

/// Show the security system status.
pub struct SecurityStatus {
    pub config: Config,
}

impl SecurityStatus {
    /// The name the command is known by.
    pub fn name(&self) -> (r: &'static str)
        ensures
            r@ == "security status"@,
    {
        "security status"
    }

    /// What the command does, in one line.
    pub fn description(&self) -> (r: &'static str)
        ensures
            r@ == "Show security system status and statistics"@,
    {
        "Show security system status and statistics"
    }

    pub fn new(config: Config) -> (r: Self)
        ensures
            r.config == config,
    {
        SecurityStatus { config }
    }

    /// There is nothing to check.
    pub fn validate(&self, ctx: &CommandContext) -> (r: Result<(), String>)
        ensures
            r is Ok,
    {
        Ok(())
    }
}

/// The roles that user management accepts, compared after lowercasing.
pub open spec fn is_role_name(lower: Seq<char>) -> bool {
    lower == "admin"@ || lower == "user"@ || lower == "guest"@ || lower == "service"@
}

/// Manage users: create, list, delete or modify.
pub struct SecurityUserManage {
    pub config: Config,
    pub operation: String,
    pub user_id: Option<String>,
    pub username: Option<String>,
    pub email: Option<String>,
    pub role: Option<String>,
    pub active: Option<bool>,
}

impl SecurityUserManage {
    /// The name the command is known by.
    pub fn name(&self) -> (r: &'static str)
        ensures
            r@ == "security user"@,
    {
        "security user"
    }

    /// What the command does, in one line.
    pub fn description(&self) -> (r: &'static str)
        ensures
            r@ == "Manage users (create, list, delete, modify)"@,
    {
        "Manage users (create, list, delete, modify)"
    }

    pub fn new(
        config: Config,
        operation: String,
        user_id: Option<String>,
        username: Option<String>,
        email: Option<String>,
        role: Option<String>,
        active: Option<bool>,
    ) -> (r: Self)
        ensures
            r.config == config,
            r.operation == operation,
            r.user_id == user_id,
            r.username == username,
            r.email == email,
            r.role == role,
            r.active == active,
    {
        SecurityUserManage { config, operation, user_id, username, email, role, active }
    }

    /// The operation checks of user management, then the role name.
    pub open spec fn validation_error(&self) -> Option<Seq<char>> {
        let first = user_operation_error(
            self.operation@,
            self.user_id is Some,
            self.username is Some,
            self.role is Some,
        );
        if first is Some {
            first
        } else if self.role matches Some(role) && !is_role_name(lowercase(role@)) {
            Some("Role must be one of: admin, user, guest, service"@)
        } else {
            None
        }
    }

    pub fn validate(&self, ctx: &CommandContext) -> (r: Result<(), String>)
        ensures
            r is Ok <==> self.validation_error() is None,
            r matches Err(m) ==> self.validation_error() == Some(m@),
    {
        let op = self.operation.as_str();
        let create = str_eq(op, "create");
        let delete = str_eq(op, "delete");
        let modify = str_eq(op, "modify");
        if !(create || str_eq(op, "list") || delete || modify) {
            return Err("Operation must be one of: create, list, delete, modify".to_owned());
        }
        if create {
            if self.user_id.is_none() {
                return Err("User ID is required for create operation".to_owned());
            }
            if self.username.is_none() {
                return Err("Username is required for create operation".to_owned());
            }
            if self.role.is_none() {
                return Err("Role is required for create operation".to_owned());
            }
        }
        if (delete || modify) && self.user_id.is_none() {
            return Err(concat3("User ID is required for ", op, " operation"));
        }
        if let Some(role) = &self.role {
            let lower = to_lowercase(role.as_str());
            let l = lower.as_str();
            if !(str_eq(l, "admin") || str_eq(l, "user") || str_eq(l, "guest") || str_eq(
                l,
                "service",
            )) {
                return Err("Role must be one of: admin, user, guest, service".to_owned());
            }
        }
        Ok(())
    }
}

/// Manage API keys: generate, list, revoke or test.
pub struct SecurityApiKey {
    pub config: Config,
    pub operation: String,
    pub user_id: Option<String>,
    pub key_name: Option<String>,
    pub key_id: Option<String>,
    pub key_value: Option<String>,
    pub expires_days: Option<i64>,
}

impl SecurityApiKey {
    /// The name the command is known by.
    pub fn name(&self) -> (r: &'static str)
        ensures
            r@ == "security apikey"@,
    {
        "security apikey"
    }

    /// What the command does, in one line.
    pub fn description(&self) -> (r: &'static str)
        ensures
            r@ == "Manage API keys (generate, list, revoke, test)"@,
    {
        "Manage API keys (generate, list, revoke, test)"
    }

    pub fn new(
        config: Config,
        operation: String,
        user_id: Option<String>,
        key_name: Option<String>,
        key_id: Option<String>,
        key_value: Option<String>,
        expires_days: Option<i64>,
    ) -> (r: Self)
        ensures
            r.config == config,
            r.operation == operation,
            r.user_id == user_id,
            r.key_name == key_name,
            r.key_id == key_id,
            r.key_value == key_value,
            r.expires_days == expires_days,
    {
        SecurityApiKey { config, operation, user_id, key_name, key_id, key_value, expires_days }
    }

    pub open spec fn validation_error(&self) -> Option<Seq<char>> {
        api_key_operation_error(
            self.operation@,
            self.user_id is Some,
            self.key_name is Some,
            self.key_id is Some,
            self.key_value is Some,
            self.expires_days,
        )
    }

    pub fn validate(&self, ctx: &CommandContext) -> (r: Result<(), String>)
        ensures
            r is Ok <==> self.validation_error() is None,
            r matches Err(m) ==> self.validation_error() == Some(m@),
    {
        validate_api_key_operation(
            self.operation.as_str(),
            &self.user_id,
            &self.key_name,
            &self.key_id,
            &self.key_value,
            self.expires_days,
        )
    }
}

/// Manage tokens: generate, verify, revoke or list revoked ones.
pub struct SecurityToken {
    pub config: Config,
    pub operation: String,
    pub user_id: Option<String>,
    pub token: Option<String>,
    pub jti: Option<String>,
}

impl SecurityToken {
    /// The name the command is known by.
    pub fn name(&self) -> (r: &'static str)
        ensures
            r@ == "security token"@,
    {
        "security token"
    }

    /// What the command does, in one line.
    pub fn description(&self) -> (r: &'static str)
        ensures
            r@ == "Manage JWT tokens (generate, verify, revoke)"@,
    {
        "Manage JWT tokens (generate, verify, revoke)"
    }

    pub fn new(
        config: Config,
        operation: String,
        user_id: Option<String>,
        token: Option<String>,
        jti: Option<String>,
    ) -> (r: Self)
        ensures
            r.config == config,
            r.operation == operation,
            r.user_id == user_id,
            r.token == token,
            r.jti == jti,
    {
        SecurityToken { config, operation, user_id, token, jti }
    }

    pub open spec fn validation_error(&self) -> Option<Seq<char>> {
        token_operation_error(
            self.operation@,
            self.user_id is Some,
            self.token is Some,
            self.jti is Some,
        )
    }

    pub fn validate(&self, ctx: &CommandContext) -> (r: Result<(), String>)
        ensures
            r is Ok <==> self.validation_error() is None,
            r matches Err(m) ==> self.validation_error() == Some(m@),
    {
        validate_token_operation(self.operation.as_str(), &self.user_id, &self.token, &self.jti)
    }
}

/// Manage rate limits: status, set, reset or test.
pub struct SecurityRateLimit {
    pub config: Config,
    pub operation: String,
    pub identifier: Option<String>,
    pub ip: Option<IpAddress>,
    pub per_minute: Option<u32>,
    pub per_hour: Option<u32>,
    pub per_day: Option<u32>,
    pub test_requests: Option<u32>,
}

impl SecurityRateLimit {
    /// The name the command is known by.
    pub fn name(&self) -> (r: &'static str)
        ensures
            r@ == "security ratelimit"@,
    {
        "security ratelimit"
    }

    /// What the command does, in one line.
    pub fn description(&self) -> (r: &'static str)
        ensures
            r@ == "Manage rate limits (status, set, reset, test)"@,
    {
        "Manage rate limits (status, set, reset, test)"
    }

    pub fn new(
        config: Config,
        operation: String,
        identifier: Option<String>,
        ip: Option<IpAddress>,
        per_minute: Option<u32>,
        per_hour: Option<u32>,
        per_day: Option<u32>,
        test_requests: Option<u32>,
    ) -> (r: Self)
        ensures
            r.config == config,
            r.operation == operation,
            r.identifier == identifier,
            r.ip == ip,
            r.per_minute == per_minute,
            r.per_hour == per_hour,
            r.per_day == per_day,
            r.test_requests == test_requests,
    {
        SecurityRateLimit {
            config,
            operation,
            identifier,
            ip,
            per_minute,
            per_hour,
            per_day,
            test_requests,
        }
    }

    /// The rate-limit operation rules applied to this command's settings.
    pub open spec fn validation_error(&self) -> Option<Seq<char>> {
        rate_limit_operation_error(
            self.operation@,
            RateLimitSettings {
                identifier: self.identifier,
                ip: self.ip,
                per_minute: self.per_minute,
                per_hour: self.per_hour,
                per_day: self.per_day,
                reset_all: false,
                test_requests: self.test_requests,
            },
        )
    }

    pub fn validate(&self, ctx: &CommandContext) -> (r: Result<(), String>)
        ensures
            r is Ok <==> self.validation_error() is None,
            r matches Err(m) ==> self.validation_error() == Some(m@),
    {
        let settings = RateLimitSettings {
            identifier: self.identifier.clone(),
            ip: self.ip,
            per_minute: self.per_minute,
            per_hour: self.per_hour,
            per_day: self.per_day,
            reset_all: false,
            test_requests: self.test_requests,
        };
        validate_rate_limit_operation(self.operation.as_str(), &settings)
    }
}

/// Manage IP access control: allow, block, remove, list or test.
pub struct SecurityIpControl {
    pub config: Config,
    pub operation: String,
    pub ip: Option<IpAddress>,
    pub reason: Option<String>,
    pub show_blocked: bool,
    pub show_allowed: bool,
}

impl SecurityIpControl {
    /// The name the command is known by.
    pub fn name(&self) -> (r: &'static str)
        ensures
            r@ == "security ipcontrol"@,
    {
        "security ipcontrol"
    }

    /// What the command does, in one line.
    pub fn description(&self) -> (r: &'static str)
        ensures
            r@ == "Manage IP access control (allow, block, remove, list, test)"@,
    {
        "Manage IP access control (allow, block, remove, list, test)"
    }

    pub fn new(
        config: Config,
        operation: String,
        ip: Option<IpAddress>,
        reason: Option<String>,
        show_blocked: bool,
        show_allowed: bool,
    ) -> (r: Self)
        ensures
            r.config == config,
            r.operation == operation,
            r.ip == ip,
            r.reason == reason,
            r.show_blocked == show_blocked,
            r.show_allowed == show_allowed,
    {
        SecurityIpControl { config, operation, ip, reason, show_blocked, show_allowed }
    }

    pub open spec fn validation_error(&self) -> Option<Seq<char>> {
        ip_control_operation_error(self.operation@, self.ip is Some)
    }

    pub fn validate(&self, ctx: &CommandContext) -> (r: Result<(), String>)
        ensures
            r is Ok <==> self.validation_error() is None,
            r matches Err(m) ==> self.validation_error() == Some(m@),
    {
        validate_ip_control_operation(self.operation.as_str(), &self.ip)
    }
}

/// View the security audit log.
pub struct SecurityAudit {
    pub config: Config,
    pub limit: usize,
    pub user_filter: Option<String>,
    pub action_filter: Option<String>,
    pub failures_only: bool,
}

impl SecurityAudit {
    /// The name the command is known by.
    pub fn name(&self) -> (r: &'static str)
        ensures
            r@ == "security audit"@,
    {
        "security audit"
    }

    /// What the command does, in one line.
    pub fn description(&self) -> (r: &'static str)
        ensures
            r@ == "View security audit logs"@,
    {
        "View security audit logs"
    }

    pub fn new(
        config: Config,
        limit: usize,
        user_filter: Option<String>,
        action_filter: Option<String>,
        failures_only: bool,
    ) -> (r: Self)
        ensures
            r.config == config,
            r.limit == limit,
            r.user_filter == user_filter,
            r.action_filter == action_filter,
            r.failures_only == failures_only,
    {
        SecurityAudit { config, limit, user_filter, action_filter, failures_only }
    }

    pub open spec fn validation_error(&self) -> Option<Seq<char>> {
        audit_limit_error(self.limit)
    }

    pub fn validate(&self, ctx: &CommandContext) -> (r: Result<(), String>)
        ensures
            r is Ok <==> self.validation_error() is None,
            r matches Err(m) ==> self.validation_error() == Some(m@),
    {
        validate_audit_params(self.limit)
    }
}

/// A security feature that `SecurityTest` exercises.
#[derive(Clone, Copy, Debug, PartialEq, Eq, Structural)]
pub enum SecurityTestKind {
    Auth,
    RateLimit,
    Validation,
}

/// Test security features: authentication, rate limiting, input validation.
pub struct SecurityTest {
    pub config: Config,
    pub test_auth: bool,
    pub test_rate_limit: bool,
    pub test_validation: bool,
}

impl SecurityTest {
    /// The name the command is known by.
    pub fn name(&self) -> (r: &'static str)
        ensures
            r@ == "security test"@,
    {
        "security test"
    }

    /// What the command does, in one line.
    pub fn description(&self) -> (r: &'static str)
        ensures
            r@ == "Test security features (auth, rate limiting, validation)"@,
    {
        "Test security features (auth, rate limiting, validation)"
    }

    pub fn new(config: Config, test_auth: bool, test_rate_limit: bool, test_validation: bool) -> (r:
        Self)
        ensures
            r.config == config,
            r.test_auth == test_auth,
            r.test_rate_limit == test_rate_limit,
            r.test_validation == test_validation,
    {
        SecurityTest { config, test_auth, test_rate_limit, test_validation }
    }

    pub open spec fn validation_error(&self) -> Option<Seq<char>> {
        if !self.test_auth && !self.test_rate_limit && !self.test_validation {
            Some("At least one test type must be enabled"@)
        } else {
            None
        }
    }

    pub fn validate(&self, ctx: &CommandContext) -> (r: Result<(), String>)
        ensures
            r is Ok <==> self.validation_error() is None,
            r matches Err(m) ==> self.validation_error() == Some(m@),
    {
        if !self.test_auth && !self.test_rate_limit && !self.test_validation {
            return Err("At least one test type must be enabled".to_owned());
        }
        Ok(())
    }

    /// The tests whose results the command records: the selected ones, in
    /// the order auth, rate limit, validation, and only in human-readable
    /// mode.
    pub open spec fn recorded_tests(&self, json_output: bool) -> Seq<SecurityTestKind> {
        if json_output {
            Seq::empty()
        } else {
            (if self.test_auth { seq![SecurityTestKind::Auth] } else { Seq::empty() }) + (
            if self.test_rate_limit {
                seq![SecurityTestKind::RateLimit]
            } else {
                Seq::empty()
            }) + (if self.test_validation {
                seq![SecurityTestKind::Validation]
            } else {
                Seq::empty()
            })
        }
    }

    /// The tests whose results the command reports as passed.
    pub fn test_results(&self, ctx: &CommandContext) -> (r: Vec<SecurityTestKind>)
        ensures
            r@ == self.recorded_tests(ctx.json_output),
    {
        let mut results: Vec<SecurityTestKind> = Vec::new();
        if !ctx.json_output {
            if self.test_auth {
                results.push(SecurityTestKind::Auth);
            }
            if self.test_rate_limit {
                results.push(SecurityTestKind::RateLimit);
            }
            if self.test_validation {
                results.push(SecurityTestKind::Validation);
            }
        }
        assert(results@ =~= self.recorded_tests(ctx.json_output));
        results
    }
}


/// Joining two permission lists with a comma grants exactly what either
/// list grants.
pub proof fn lemma_permission_lists_join(first: Seq<char>, second: Seq<char>, p: Permission)
    ensures
        list_grants(first.push(',') + second, p) == (list_grants(first, p) || list_grants(second, p)),
{
    lemma_split_concat(first, second, ',');
    let a = split_on(first, ',');
    let b = split_on(second, ',');
    let ab = split_on(first.push(',') + second, ',');
    assert(ab == a + b);
    if list_grants(first.push(',') + second, p) {
        let i = choose|i: int| 0 <= i < ab.len() && item_permission(#[trigger] ab[i]) == Some(p);
        if i < a.len() {
            assert(ab[i] == a[i]);
        } else {
            assert(ab[i] == b[i - a.len()]);
        }
    }
    if list_grants(first, p) {
        let i = choose|i: int| 0 <= i < a.len() && item_permission(#[trigger] a[i]) == Some(p);
        assert(ab[i] == a[i]);
    }
    if list_grants(second, p) {
        let i = choose|i: int| 0 <= i < b.len() && item_permission(#[trigger] b[i]) == Some(p);
        assert(ab[a.len() + i] == b[i]);
    }
}


/// An empty permission list grants nothing.
pub proof fn lemma_empty_list_grants_nothing(p: Permission)
    ensures
        !list_grants(Seq::<char>::empty(), p),
{
    let e = Seq::<char>::empty();
    lemma_split_without_sep(e, ',');
    assert(trim(e) =~= e);
    assert(lowercase(e) =~= e);
    reveal_strlit("read_models");
    reveal_strlit("write_models");
    reveal_strlit("delete_models");
    reveal_strlit("run_inference");
    reveal_strlit("manage_cache");
    reveal_strlit("read_metrics");
    reveal_strlit("write_config");
    reveal_strlit("manage_users");
    reveal_strlit("view_audit_logs");
    reveal_strlit("use_streaming");
    reveal_strlit("use_distributed");
    reveal_strlit("manage_queue");
    assert(item_permission(e) is None);
    assert(split_on(e, ',')[0] == e);
}


/// The documented name of each permission.
pub open spec fn permission_name(p: Permission) -> Seq<char> {
    match p {
        Permission::ReadModels => "read_models"@,
        Permission::WriteModels => "write_models"@,
        Permission::DeleteModels => "delete_models"@,
        Permission::RunInference => "run_inference"@,
        Permission::ManageCache => "manage_cache"@,
        Permission::ReadMetrics => "read_metrics"@,
        Permission::WriteConfig => "write_config"@,
        Permission::ManageUsers => "manage_users"@,
        Permission::ViewAuditLogs => "view_audit_logs"@,
        Permission::UseStreaming => "use_streaming"@,
        Permission::UseDistributed => "use_distributed"@,
        Permission::ManageQueue => "manage_queue"@,
    }
}

/// Each of the twelve documented names stands for its own permission, and
/// no other text stands for any.
pub proof fn lemma_permission_names(n: Seq<char>, p: Permission)
    ensures
        permission_named(n) == Some(p) <==> n == permission_name(p),
{
    reveal_strlit("read_models");
    reveal_strlit("write_models");
    reveal_strlit("delete_models");
    reveal_strlit("run_inference");
    reveal_strlit("manage_cache");
    reveal_strlit("read_metrics");
    reveal_strlit("write_config");
    reveal_strlit("manage_users");
    reveal_strlit("view_audit_logs");
    reveal_strlit("use_streaming");
    reveal_strlit("use_distributed");
    reveal_strlit("manage_queue");
    assert("read_models"@[0] == 'r' && "read_models"@[6] == 'o' && "read_models"@[7] == 'd');
    assert("write_models"@[0] == 'w' && "write_models"@[6] == 'm' && "write_models"@[7] == 'o');
    assert("delete_models"@[0] == 'd' && "delete_models"@[6] == '_' && "delete_models"@[7] == 'm');
    assert("run_inference"@[0] == 'r' && "run_inference"@[6] == 'f' && "run_inference"@[7] == 'e');
    assert("manage_cache"@[0] == 'm' && "manage_cache"@[6] == '_' && "manage_cache"@[7] == 'c');
    assert("read_metrics"@[0] == 'r' && "read_metrics"@[6] == 'e' && "read_metrics"@[7] == 't');
    assert("write_config"@[0] == 'w' && "write_config"@[6] == 'c' && "write_config"@[7] == 'o');
    assert("manage_users"@[0] == 'm' && "manage_users"@[6] == '_' && "manage_users"@[7] == 'u');
    assert("view_audit_logs"@[0] == 'v' && "view_audit_logs"@[6] == 'u' && "view_audit_logs"@[7] == 'd');
    assert("use_streaming"@[0] == 'u' && "use_streaming"@[6] == 'r' && "use_streaming"@[7] == 'e');
    assert("use_distributed"@[0] == 'u' && "use_distributed"@[6] == 's' && "use_distributed"@[7] == 't');
    assert("manage_queue"@[0] == 'm' && "manage_queue"@[6] == '_' && "manage_queue"@[7] == 'q');
}

/// A permission list grants a permission exactly when one of its
/// comma-separated items, trimmed and lowercased, is that permission's
/// documented name.
pub proof fn lemma_list_grants_named(list: Seq<char>, p: Permission)
    ensures
        list_grants(list, p) <==> exists|i: int|
            0 <= i < split_on(list, ',').len() && lowercase(trim(#[trigger] split_on(list, ',')[i]))
                == permission_name(p),
{
    let items = split_on(list, ',');
    if list_grants(list, p) {
        let i = choose|i: int| 0 <= i < items.len() && item_permission(#[trigger] items[i]) == Some(p);
        lemma_permission_names(lowercase(trim(items[i])), p);
    }
    if exists|i: int| 0 <= i < items.len() && lowercase(trim(#[trigger] items[i])) == permission_name(p) {
        let i = choose|i: int| 0 <= i < items.len() && lowercase(trim(#[trigger] items[i])) == permission_name(p);
        lemma_permission_names(lowercase(trim(items[i])), p);
        assert(item_permission(items[i]) == Some(p));
    }
}

/// Each documented name, alone, grants its permission.
pub proof fn lemma_documented_names_grant(p: Permission)
    ensures
        list_grants(permission_name(p), p),
{
    let n = permission_name(p);
    lemma_permission_names(n, p);
    reveal_strlit("read_models");
    reveal_strlit("write_models");
    reveal_strlit("delete_models");
    reveal_strlit("run_inference");
    reveal_strlit("manage_cache");
    reveal_strlit("read_metrics");
    reveal_strlit("write_config");
    reveal_strlit("manage_users");
    reveal_strlit("view_audit_logs");
    reveal_strlit("use_streaming");
    reveal_strlit("use_distributed");
    reveal_strlit("manage_queue");
    assert forall|i: int| 0 <= i < n.len() implies #[trigger] n[i] != ',' && is_ascii_char(n[i])
        && !(65 <= (n[i] as u32) <= 90) by {
        assert(n.len() <= 15);
        assert(i == 0 || i == 1 || i == 2 || i == 3 || i == 4 || i == 5 || i == 6 || i == 7 || i
            == 8 || i == 9 || i == 10 || i == 11 || i == 12 || i == 13 || i == 14);
    }
    lemma_split_without_sep(n, ',');
    assert(trim(n) =~= n);
    assert(lowercase(n) =~= n);
    assert(split_on(n, ',')[0] == n);
    lemma_list_grants_named(n, p);
}

/// Deleting or modifying a user needs the user's id: without one the
/// operation is refused, naming the operation.
pub proof fn lemma_user_id_required(operation: Seq<char>, has_username: bool, has_role: bool)
    requires
        operation == "delete"@ || operation == "modify"@,
    ensures
        user_operation_error(operation, false, has_username, has_role) == Some(
            "User ID is required for "@ + operation + " operation"@,
        ),
{
    reveal_strlit("delete");
    reveal_strlit("modify");
    reveal_strlit("create");
    reveal_strlit("list");
    assert("delete"@[0] == 'd' && "modify"@[0] == 'm' && "create"@[0] == 'c' && "list"@[0] == 'l');
}

/// User management without a user id refuses to delete or modify.
pub proof fn lemma_user_manage_needs_id(cmd: SecurityUserManage)
    requires
        cmd.operation@ == "delete"@ || cmd.operation@ == "modify"@,
        cmd.user_id is None,
    ensures
        cmd.validation_error() == Some("User ID is required for "@ + cmd.operation@ + " operation"@),
{
    lemma_user_id_required(cmd.operation@, cmd.username is Some, cmd.role is Some);
}

} // verus!
