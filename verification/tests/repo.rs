use inferno_cli::repo::models_not_shown;
use inferno_cli::command::{CommandContext, Config};
use inferno_cli::repo::{
    clean_scope, clean_target, find_repository, select_repositories, toggle_target, CleanScope,
    RepoAdd, RepoInfo, RepoList, RepoRemove, RepoUpdate, RepositoryEntry,
};
use inferno_cli::repo::{models_shown, ModelSummary, RepositoryAuth};

fn repo(name: &str, enabled: bool) -> RepositoryEntry {
    RepositoryEntry {
        name: name.to_string(),
        url: format!("https://{}.example.com", name),
        priority: 100,
        enabled,
        verification_required: false,
        last_updated: None,
        metadata_url: None,
        authentication: None,
    }
}

fn model(i: usize) -> ModelSummary {
    ModelSummary {
        name: format!("model-{}", i),
        version: "1.0.0".to_string(),
        publisher: "acme".to_string(),
    }
}

#[test]
fn test_repo_list_validation() {
    let config = Config::default();
    let cmd = RepoList::new(config.clone(), false, false);
    let ctx = CommandContext::new(config);
    assert!(cmd.validate(&ctx).is_ok());
}

#[test]
fn test_repo_info_validation_empty_name() {
    let config = Config::default();
    let cmd = RepoInfo::new(config.clone(), String::new(), false);
    let ctx = CommandContext::new(config);
    let result = cmd.validate(&ctx);
    assert!(result.is_err());
    assert!(result.unwrap_err().to_string().contains("Repository name cannot be empty"));
}

#[test]
fn test_repo_add_validation_empty_name() {
    let config = Config::default();
    let cmd = RepoAdd::new(config.clone(), String::new(), "https://example.com".to_string(), 100, false, false);
    let ctx = CommandContext::new(config);
    assert!(cmd.validate(&ctx).is_err());
}

#[test]
fn test_repo_add_validation_invalid_url() {
    let config = Config::default();
    let cmd = RepoAdd::new(config.clone(), "test".to_string(), "ftp://example.com".to_string(), 100, false, false);
    let ctx = CommandContext::new(config);
    let result = cmd.validate(&ctx);
    assert!(result.is_err());
    assert!(result.unwrap_err().to_string().contains("must start with http://"));
}

#[test]
fn test_repo_add_validation_excessive_priority() {
    let config = Config::default();
    let cmd = RepoAdd::new(config.clone(), "test".to_string(), "https://example.com".to_string(), 1001, false, false);
    let ctx = CommandContext::new(config);
    let result = cmd.validate(&ctx);
    assert!(result.is_err());
    assert!(result.unwrap_err().to_string().contains("Priority cannot exceed 1000"));
}

#[test]
fn test_repo_remove_validation_empty_name() {
    let config = Config::default();
    let cmd = RepoRemove::new(config.clone(), String::new(), false);
    let ctx = CommandContext::new(config);
    assert!(cmd.validate(&ctx).is_err());
}

#[test]
fn repo_add_accepts_plain_http_and_priority_1000() {
    let config = Config::default();
    let ctx = CommandContext::new(config);
    let cmd = RepoAdd::new(config, "a".to_string(), "http://mirror".to_string(), 1000, true, true);
    assert!(cmd.validate(&ctx).is_ok());
    let cmd = RepoAdd::new(config, "a".to_string(), String::new(), 1, true, true);
    assert_eq!(cmd.validate(&ctx), Err("Repository URL cannot be empty".to_string()));
}

#[test]
fn removal_confirmation() {
    let config = Config::default();
    let mut ctx = CommandContext::new(config);
    assert!(RepoRemove::new(config, "a".to_string(), false).needs_confirmation(&ctx));
    assert!(!RepoRemove::new(config, "a".to_string(), true).needs_confirmation(&ctx));
    ctx.json_output = true;
    assert!(!RepoRemove::new(config, "a".to_string(), false).needs_confirmation(&ctx));
    assert!(RepoUpdate::new(config, None, false).validate(&ctx).is_ok());
}

#[test]
fn listing_keeps_order_and_filters_disabled() {
    let all = vec![repo("a", true), repo("b", false), repo("c", true)];
    let names = |v: &Vec<RepositoryEntry>| v.iter().map(|r| r.name.clone()).collect::<Vec<_>>();
    let enabled = select_repositories(all, true);
    assert_eq!(names(&enabled), vec!["a".to_string(), "c".to_string()]);
    let every = select_repositories(vec![repo("a", true), repo("b", false)], false);
    assert_eq!(names(&every), vec!["a".to_string(), "b".to_string()]);
}

#[test]
fn repository_lookup() {
    let all = vec![repo("hub", true), repo("local", false), repo("hub", false)];
    assert_eq!(find_repository(&all, "hub"), Ok(0));
    assert_eq!(find_repository(&all, "local"), Ok(1));
    assert_eq!(find_repository(&all, "none"), Err("Repository not found: none".to_string()));
}

#[test]
fn toggle_and_clean_decisions() {
    assert_eq!(toggle_target(true, false), Ok(true));
    assert_eq!(toggle_target(false, true), Ok(false));
    assert_eq!(
        toggle_target(true, true),
        Err("Cannot both enable and disable at the same time".to_string())
    );
    assert_eq!(toggle_target(false, false), Err("Must specify either --enable or --disable".to_string()));
    assert_eq!(clean_scope(true, true), CleanScope::All);
    assert_eq!(clean_scope(true, false), CleanScope::Metadata);
    assert_eq!(clean_scope(false, true), CleanScope::Models);
    assert_eq!(clean_scope(false, false), CleanScope::Temporary);
    assert_eq!(clean_target(&Some("main".to_string())), "repository 'main'");
    assert_eq!(clean_target(&None), "all repositories");
}

#[test]
fn models_beyond_ten_are_counted() {
    assert_eq!(models_not_shown(3), 0);
    assert_eq!(models_not_shown(10), 0);
    assert_eq!(models_not_shown(14), 4);
}

#[test]
fn repository_report_fields_and_authentication() {
    let mut secured = repo("secure", true);
    secured.authentication =
        Some(RepositoryAuth { has_api_key: true, has_username: false, oauth_enabled: true });
    secured.metadata_url = Some("https://secure.example.com/meta".to_string());
    secured.last_updated = Some("2024-01-02T03:04:05+00:00".to_string());
    let repos = vec![repo("public", true), secured, repo("secure", false)];
    let cmd = RepoInfo::new(Config::default(), "secure".to_string(), false);
    let info = cmd.report(&repos, Some(vec![model(1)])).unwrap();
    assert_eq!(info.name, "secure");
    assert_eq!(info.url, "https://secure.example.com");
    assert!(info.enabled);
    assert_eq!(info.metadata_url.as_deref(), Some("https://secure.example.com/meta"));
    assert_eq!(info.last_updated.as_deref(), Some("2024-01-02T03:04:05+00:00"));
    assert_eq!(
        info.authentication,
        Some(RepositoryAuth { has_api_key: true, has_username: false, oauth_enabled: true })
    );
    assert!(info.models.is_none());

    let plain = RepoInfo::new(Config::default(), "public".to_string(), false);
    assert!(plain.report(&repos, None).unwrap().authentication.is_none());

    let missing = RepoInfo::new(Config::default(), "absent".to_string(), true);
    assert_eq!(missing.report(&repos, None).err().unwrap(), "Repository not found: absent");
}

#[test]
fn repository_report_lists_at_most_ten_models() {
    let repos = vec![repo("main", true)];
    let cmd = RepoInfo::new(Config::default(), "main".to_string(), true);
    let found: Vec<ModelSummary> = (0..13).map(model).collect();
    let info = cmd.report(&repos, Some(found)).unwrap();
    let shown = info.models.unwrap();
    assert_eq!(shown.total, 13);
    assert_eq!(shown.list.len(), 10);
    assert_eq!(shown.list[9].name, "model-9");
    assert!(cmd.report(&repos, None).unwrap().models.is_none());

    let few = models_shown(vec![model(0), model(1)]);
    assert_eq!(few.total, 2);
    assert_eq!(few.list.len(), 2);
}
