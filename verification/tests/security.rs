use inferno_cli::command::{CommandContext, Config};
use inferno_cli::security::{
    parse_permissions, validate_api_key_operation, validate_audit_params,
    validate_ip_control_operation, validate_rate_limit_operation, validate_security_test,
    validate_token_operation, validate_user_operation, Permission, RateLimitSettings,
    SecurityApiKey, SecurityAudit, SecurityRateLimit, SecurityStatus, SecurityTest,
    SecurityUserManage, UserRole, UserRoleArg,
};

#[test]
fn test_validate_user_operation_invalid_operation() {
    let result = validate_user_operation("invalid", &None, &None, &None);
    assert!(result.is_err());
    assert!(result.unwrap_err().to_string().contains("Operation must be"));
}

#[test]
fn test_validate_user_operation_create_missing_user_id() {
    let result = validate_user_operation("create", &None, &Some("user".to_string()), &None);
    assert!(result.is_err());
    assert!(result.unwrap_err().to_string().contains("User ID is required"));
}

#[test]
fn test_validate_user_operation_create_missing_username() {
    let result = validate_user_operation(
        "create",
        &Some("id".to_string()),
        &None,
        &Some(UserRoleArg::User),
    );
    assert!(result.is_err());
    assert!(result.unwrap_err().to_string().contains("Username is required"));
}

#[test]
fn test_validate_user_operation_create_missing_role() {
    let result = validate_user_operation(
        "create",
        &Some("id".to_string()),
        &Some("user".to_string()),
        &None,
    );
    assert!(result.is_err());
    assert!(result.unwrap_err().to_string().contains("Role is required"));
}

#[test]
fn test_validate_user_operation_create_valid() {
    let result = validate_user_operation(
        "create",
        &Some("id".to_string()),
        &Some("user".to_string()),
        &Some(UserRoleArg::User),
    );
    assert!(result.is_ok());
}

#[test]
fn test_validate_user_operation_delete_missing_id() {
    let result = validate_user_operation("delete", &None, &None, &None);
    assert!(result.is_err());
    assert!(result.unwrap_err().to_string().contains("User ID is required"));
}

#[test]
fn test_validate_user_operation_list_valid() {
    let result = validate_user_operation("list", &None, &None, &None);
    assert!(result.is_ok());
}

#[test]
fn test_validate_api_key_operation_invalid_operation() {
    let result = validate_api_key_operation("invalid", &None, &None, &None, &None, None);
    assert!(result.is_err());
    assert!(result.unwrap_err().to_string().contains("Operation must be"));
}

#[test]
fn test_validate_api_key_operation_generate_missing_user() {
    let result = validate_api_key_operation(
        "generate",
        &None,
        &Some("key".to_string()),
        &None,
        &None,
        None,
    );
    assert!(result.is_err());
    assert!(result.unwrap_err().to_string().contains("User ID is required"));
}

#[test]
fn test_validate_api_key_operation_generate_missing_name() {
    let result = validate_api_key_operation(
        "generate",
        &Some("user".to_string()),
        &None,
        &None,
        &None,
        None,
    );
    assert!(result.is_err());
    assert!(result.unwrap_err().to_string().contains("Key name is required"));
}

#[test]
fn test_validate_api_key_operation_generate_valid() {
    let result = validate_api_key_operation(
        "generate",
        &Some("user".to_string()),
        &Some("key".to_string()),
        &None,
        &None,
        Some(30),
    );
    assert!(result.is_ok());
}

#[test]
fn test_validate_api_key_operation_invalid_expiration() {
    let result = validate_api_key_operation(
        "generate",
        &Some("user".to_string()),
        &Some("key".to_string()),
        &None,
        &None,
        Some(400),
    );
    assert!(result.is_err());
    assert!(result.unwrap_err().to_string().contains("Expiration must be"));
}

#[test]
fn test_validate_api_key_operation_test_missing_key() {
    let result = validate_api_key_operation("test", &None, &None, &None, &None, None);
    assert!(result.is_err());
    assert!(result.unwrap_err().to_string().contains("Key value is required"));
}

#[test]
fn test_validate_token_operation_invalid_operation() {
    let result = validate_token_operation("invalid", &None, &None, &None);
    assert!(result.is_err());
    assert!(result.unwrap_err().to_string().contains("Operation must be"));
}

#[test]
fn test_validate_token_operation_generate_missing_user() {
    let result = validate_token_operation("generate", &None, &None, &None);
    assert!(result.is_err());
    assert!(result.unwrap_err().to_string().contains("User ID is required"));
}

#[test]
fn test_validate_token_operation_verify_missing_token() {
    let result = validate_token_operation("verify", &None, &None, &None);
    assert!(result.is_err());
    assert!(result.unwrap_err().to_string().contains("Token is required"));
}

#[test]
fn test_validate_token_operation_revoke_missing_jti() {
    let result = validate_token_operation("revoke", &None, &None, &None);
    assert!(result.is_err());
    assert!(result.unwrap_err().to_string().contains("JTI"));
}

#[test]
fn test_validate_token_operation_list_revoked_valid() {
    let result = validate_token_operation("list-revoked", &None, &None, &None);
    assert!(result.is_ok());
}

#[test]
fn test_validate_rate_limit_operation_invalid_operation() {
    let settings = RateLimitSettings::default();
    let result = validate_rate_limit_operation("invalid", &settings);
    assert!(result.is_err());
    assert!(result.unwrap_err().to_string().contains("Operation must be"));
}

#[test]
fn test_validate_rate_limit_operation_status_missing_identifier() {
    let settings = RateLimitSettings::default();
    let result = validate_rate_limit_operation("status", &settings);
    assert!(result.is_err());
    assert!(result.unwrap_err().to_string().contains("Identifier is required"));
}

#[test]
fn test_validate_rate_limit_operation_set_missing_limits() {
    let settings = RateLimitSettings {
        identifier: Some("user".to_string()),
        ..Default::default()
    };
    let result = validate_rate_limit_operation("set", &settings);
    assert!(result.is_err());
    assert!(result.unwrap_err().to_string().contains("At least one rate limit"));
}

#[test]
fn test_validate_rate_limit_operation_set_valid() {
    let settings = RateLimitSettings {
        identifier: Some("user".to_string()),
        per_minute: Some(60),
        ..Default::default()
    };
    let result = validate_rate_limit_operation("set", &settings);
    assert!(result.is_ok());
}

#[test]
fn test_validate_rate_limit_operation_test_missing_requests() {
    let settings = RateLimitSettings {
        identifier: Some("user".to_string()),
        ..Default::default()
    };
    let result = validate_rate_limit_operation("test", &settings);
    assert!(result.is_err());
    assert!(result.unwrap_err().to_string().contains("Number of test requests"));
}

#[test]
fn test_validate_rate_limit_operation_test_invalid_requests() {
    let settings = RateLimitSettings {
        identifier: Some("user".to_string()),
        test_requests: Some(0),
        ..Default::default()
    };
    let result = validate_rate_limit_operation("test", &settings);
    assert!(result.is_err());
    assert!(result.unwrap_err().to_string().contains("Test requests must be"));
}

#[test]
fn test_validate_ip_control_operation_invalid_operation() {
    let result = validate_ip_control_operation("invalid", &None);
    assert!(result.is_err());
    assert!(result.unwrap_err().to_string().contains("Operation must be"));
}

#[test]
fn test_validate_ip_control_operation_allow_missing_ip() {
    let result = validate_ip_control_operation("allow", &None);
    assert!(result.is_err());
    assert!(result.unwrap_err().to_string().contains("IP address is required"));
}

#[test]
fn test_validate_ip_control_operation_list_valid() {
    let result = validate_ip_control_operation("list", &None);
    assert!(result.is_ok());
}

#[test]
fn test_validate_audit_params_zero_limit() {
    let result = validate_audit_params(0);
    assert!(result.is_err());
    assert!(result.unwrap_err().to_string().contains("Limit must be"));
}

#[test]
fn test_validate_audit_params_over_limit() {
    let result = validate_audit_params(1001);
    assert!(result.is_err());
    assert!(result.unwrap_err().to_string().contains("Limit must be"));
}

#[test]
fn test_validate_audit_params_valid() {
    let result = validate_audit_params(50);
    assert!(result.is_ok());
}

#[test]
fn test_validate_security_test_no_tests() {
    let result = validate_security_test(false, false, false, false);
    assert!(result.is_err());
    assert!(result.unwrap_err().to_string().contains("At least one test type"));
}

#[test]
fn test_validate_security_test_auth_only() {
    let result = validate_security_test(true, false, false, false);
    assert!(result.is_ok());
}

#[test]
fn test_validate_security_test_all() {
    let result = validate_security_test(false, false, false, true);
    assert!(result.is_ok());
}

#[test]
fn test_rate_limit_settings_builder() {
    let settings = RateLimitSettings::new()
        .identifier("user-123")
        .per_minute(60)
        .per_hour(1000)
        .per_day(10000)
        .reset_all(false)
        .test_requests(100);

    assert_eq!(settings.identifier, Some("user-123".to_string()));
    assert_eq!(settings.per_minute, Some(60));
    assert_eq!(settings.per_hour, Some(1000));
    assert_eq!(settings.per_day, Some(10000));
    assert!(!settings.reset_all);
    assert_eq!(settings.test_requests, Some(100));
}

#[test]
fn test_rate_limit_settings_default() {
    let settings = RateLimitSettings::default();
    assert!(settings.identifier.is_none());
    assert!(settings.ip.is_none());
    assert!(settings.per_minute.is_none());
    assert!(settings.per_hour.is_none());
    assert!(settings.per_day.is_none());
    assert!(!settings.reset_all);
    assert!(settings.test_requests.is_none());
}

#[test]
fn test_parse_permissions_empty() {
    let perms = parse_permissions(None);
    assert!(perms.is_empty());
}

#[test]
fn test_parse_permissions_single() {
    let perms = parse_permissions(Some("read_models".to_string()));
    assert_eq!(perms.len(), 1);
    assert!(perms.contains(&Permission::ReadModels));
}

#[test]
fn test_parse_permissions_multiple() {
    let perms = parse_permissions(Some("read_models, write_models, run_inference".to_string()));
    assert_eq!(perms.len(), 3);
    assert!(perms.contains(&Permission::ReadModels));
    assert!(perms.contains(&Permission::WriteModels));
    assert!(perms.contains(&Permission::RunInference));
}

#[test]
fn test_parse_permissions_unknown() {
    let perms = parse_permissions(Some("read_models, unknown_perm".to_string()));
    assert_eq!(perms.len(), 1);
    assert!(perms.contains(&Permission::ReadModels));
}

#[test]
fn parse_permissions_ignores_case_and_repeats() {
    let perms = parse_permissions(Some("READ_MODELS,read_models , Manage_Users".to_string()));
    assert_eq!(perms, vec![Permission::ReadModels, Permission::ManageUsers]);
}

#[test]
fn user_role_from_argument() {
    assert_eq!(UserRole::from(UserRoleArg::Service), UserRole::Service);
    assert_eq!(UserRole::from(UserRoleArg::Admin), UserRole::Admin);
}

#[test]
fn test_security_status_validation() {
    let config = Config::default();
    let cmd = SecurityStatus::new(config.clone());
    let ctx = CommandContext::new(config);
    let result = cmd.validate(&ctx);
    assert!(result.is_ok());
}

#[test]
fn test_security_user_validation_invalid_operation() {
    let config = Config::default();
    let cmd = SecurityUserManage::new(
        config.clone(),
        "invalid".to_string(),
        None,
        None,
        None,
        None,
        None,
    );
    let ctx = CommandContext::new(config);
    let result = cmd.validate(&ctx);
    assert!(result.is_err());
    assert!(result.unwrap_err().to_string().contains("Operation must be"));
}

#[test]
fn test_security_user_validation_create_missing_fields() {
    let config = Config::default();
    let cmd = SecurityUserManage::new(
        config.clone(),
        "create".to_string(),
        None,
        None,
        None,
        None,
        None,
    );
    let ctx = CommandContext::new(config);
    let result = cmd.validate(&ctx);
    assert!(result.is_err());
    assert!(result.unwrap_err().to_string().contains("User ID is required"));
}

#[test]
fn test_security_apikey_validation() {
    let config = Config::default();
    let cmd = SecurityApiKey::new(
        config.clone(),
        "generate".to_string(),
        Some("user-123".to_string()),
        Some("production-key".to_string()),
        None,
        None,
        Some(30),
    );
    let ctx = CommandContext::new(config);
    let result = cmd.validate(&ctx);
    assert!(result.is_ok());
}

#[test]
fn test_security_ratelimit_validation_invalid_operation() {
    let config = Config::default();
    let cmd = SecurityRateLimit::new(
        config.clone(),
        "invalid".to_string(),
        None,
        None,
        None,
        None,
        None,
        None,
    );
    let ctx = CommandContext::new(config);
    let result = cmd.validate(&ctx);
    assert!(result.is_err());
}

#[test]
fn test_security_audit_validation_limit() {
    let config = Config::default();
    let cmd = SecurityAudit::new(config.clone(), 0, None, None, false);
    let ctx = CommandContext::new(config);
    let result = cmd.validate(&ctx);
    assert!(result.is_err());
    assert!(result.unwrap_err().to_string().contains("Limit must be"));
}

#[test]
fn test_security_test_validation_no_tests() {
    let config = Config::default();
    let cmd = SecurityTest::new(config.clone(), false, false, false);
    let ctx = CommandContext::new(config);
    let result = cmd.validate(&ctx);
    assert!(result.is_err());
    assert!(result.unwrap_err().to_string().contains("At least one test type"));
}

#[test]
fn empty_permission_list_grants_nothing() {
    assert!(parse_permissions(Some(String::new())).is_empty());
    assert_eq!(
        parse_permissions(Some("READ_MODELS, Read_Models".to_string())),
        vec![Permission::ReadModels]
    );
}

#[test]
fn security_command_names() {
    let status = SecurityStatus::new(Config::default());
    assert_eq!(status.name(), "security status");
    assert_eq!(status.description(), "Show security system status and statistics");
}
