use rafn::config::repo::{find_rafn_toml, project_root};
use rafn::config::user::ConfigError;
use rafn::config::{
    BackendType, BenchConfig, CloudConfig, Config, EffectiveConfig, ProjectConfig, RepoConfig,
    RepositoryRef, UserCloudConfig,
};
use rafn::floatbits::FloatBits;

fn repository_ref(owner: &str, repository: &str) -> RepositoryRef {
    RepositoryRef {
        forge: "github.com".to_string(),
        owner: owner.to_string(),
        repository: repository.to_string(),
    }
}

#[test]
fn test_default_config() {
    let config = Config::default();
    assert_eq!(config.cloud.api_url, "https://api.rqfn.dev");
}

#[test]
fn test_get_set() {
    let mut config = Config::default();
    config
        .set("cloud.api_url", "http://grpc.example.com:50051")
        .unwrap();
    assert_eq!(
        config.get("cloud.api_url").unwrap(),
        "http://grpc.example.com:50051"
    );
}

#[test]
fn test_unknown_key() {
    let mut config = Config::default();
    assert!(config.set("unknown_key", "value").is_err());
    assert!(config.get("unknown_key").is_none());
}

#[test]
fn unknown_key_error_names_the_key_and_keeps_config() {
    let mut config = Config::default();
    match config.set("nope", "x") {
        Err(ConfigError::UnknownKey(k)) => assert_eq!(k, "nope"),
        other => panic!("unexpected: {other:?}"),
    }
    assert_eq!(config, Config::default());
}

#[test]
fn load_prefers_environment_over_file_over_default() {
    let both = Config::load(Some("https://file".to_string()), Some("https://env".to_string()));
    assert_eq!(both.cloud.api_url, "https://env");
    let file = Config::load(Some("https://file".to_string()), None);
    assert_eq!(file.cloud.api_url, "https://file");
    let none = Config::load(None, None);
    assert_eq!(none, Config::default());
}

#[test]
fn init_at_refuses_existing_file() {
    match Config::init_at("/tmp/x/config.toml", true) {
        Err(ConfigError::AlreadyExists(p)) => assert_eq!(p, "/tmp/x/config.toml"),
        other => panic!("unexpected: {other:?}"),
    }
    assert_eq!(Config::init_at("/tmp/x/config.toml", false).unwrap(), Config::default());
}

#[test]
fn display_formats_forge_owner_repository() {
    let r = RepositoryRef {
        forge: "github.com".to_string(),
        owner: "acme".to_string(),
        repository: "perf-suite".to_string(),
    };
    assert_eq!(r.to_display_string(), "github.com/acme/perf-suite");
}

#[test]
fn to_proto_maps_fields() {
    let r = RepositoryRef {
        forge: "gitlab.com".to_string(),
        owner: "acme".to_string(),
        repository: "perf-suite".to_string(),
    };
    let proto = r.to_proto();
    assert_eq!(proto.forge, "gitlab.com");
    assert_eq!(proto.owner, "acme");
    assert_eq!(proto.repository, "perf-suite");
}

#[test]
fn default_forge_is_github() {
    assert_eq!(rafn::config::repository::default_forge(), "github.com");
}

#[test]
fn repo_cloud_api_url_overrides_user() {
    let mut repo = RepoConfig::default();
    repo.backend.cloud = Some(CloudConfig {
        api_url: Some("https://repo.example.com".to_string()),
    });
    let user = Config {
        cloud: UserCloudConfig {
            api_url: "https://user.example.com".to_string(),
        },
    };
    let effective = EffectiveConfig::resolve_with_git_repository(&repo, &user, None);
    assert_eq!(effective.endpoint, "https://repo.example.com");
}

#[test]
fn falls_back_to_compiled_default_when_both_absent() {
    let repo = RepoConfig::default();
    let user = Config::default();
    let effective = EffectiveConfig::resolve_with_git_repository(&repo, &user, None);
    assert_eq!(effective.endpoint, "http://localhost:50051");
}

#[test]
fn falls_back_to_user_level_when_repo_absent() {
    let repo = RepoConfig::default();
    let user = Config {
        cloud: UserCloudConfig {
            api_url: "https://user.example.com".to_string(),
        },
    };
    let effective = EffectiveConfig::resolve_with_git_repository(&repo, &user, None);
    assert_eq!(effective.endpoint, "https://user.example.com");
}

#[test]
fn backend_type_comes_from_repo_config() {
    let mut repo = RepoConfig::default();
    repo.backend.backend_type = BackendType::Local;
    let user = Config::default();
    let effective = EffectiveConfig::resolve_with_git_repository(&repo, &user, None);
    assert_eq!(effective.backend_type, BackendType::Local);
}

#[test]
fn bench_threshold_comes_from_repo_config() {
    let repo = RepoConfig {
        bench: Some(BenchConfig {
            threshold: Some(FloatBits::from_bits(12.5f64.to_bits())),
            ..Default::default()
        }),
        ..Default::default()
    };
    let user = Config::default();
    let effective = EffectiveConfig::resolve_with_git_repository(&repo, &user, None);
    assert_eq!(f64::from_bits(effective.bench_threshold.bits), 12.5);
}

#[test]
fn repository_comes_from_project_config_when_set() {
    let repo = RepoConfig {
        project: Some(ProjectConfig {
            repository: Some(repository_ref("acme", "from-config")),
        }),
        ..Default::default()
    };
    let user = Config::default();
    let effective = EffectiveConfig::resolve_with_git_repository(
        &repo,
        &user,
        Some(repository_ref("acme", "from-git")),
    );
    assert_eq!(
        effective.repository,
        Some(repository_ref("acme", "from-config"))
    );
}

#[test]
fn repository_falls_back_to_git_detection_when_project_config_absent() {
    let repo = RepoConfig::default();
    let user = Config::default();
    let effective = EffectiveConfig::resolve_with_git_repository(
        &repo,
        &user,
        Some(repository_ref("acme", "from-git")),
    );
    assert_eq!(
        effective.repository,
        Some(repository_ref("acme", "from-git"))
    );
}

#[test]
fn repository_is_none_when_project_config_and_git_both_absent() {
    let repo = RepoConfig::default();
    let user = Config::default();
    let effective = EffectiveConfig::resolve_with_git_repository(&repo, &user, None);
    assert_eq!(effective.repository, None);
}

#[test]
fn test_default_is_cloud() {
    let cfg = RepoConfig::default();
    assert_eq!(cfg.backend.backend_type, BackendType::Cloud);
    assert!(cfg.cloud_api_url().is_none());
}

#[test]
fn test_default_bench_threshold() {
    let cfg = RepoConfig::default();
    assert_eq!(f64::from_bits(cfg.bench_threshold().bits), 5.0);
}

#[test]
fn test_default_bench_lock() {
    let cfg = RepoConfig::default();
    assert!(!cfg.lock_enabled());
    assert_eq!(cfg.lock_timeout_secs(), 600);
}

#[test]
fn lock_settings_come_from_bench_section() {
    let cfg = RepoConfig {
        bench: Some(BenchConfig {
            enable_lock: Some(true),
            lock_timeout: Some(120),
            ..Default::default()
        }),
        ..Default::default()
    };
    assert!(cfg.lock_enabled());
    assert_eq!(cfg.lock_timeout_secs(), 120);
}

#[test]
fn project_root_prefers_toml_directory_then_git_root_then_cwd() {
    assert_eq!(
        project_root(Some("/work/proj/rafn.toml"), Some("/work".to_string()), "/cwd".to_string()),
        "/work/proj"
    );
    assert_eq!(project_root(None, Some("/work".to_string()), "/cwd".to_string()), "/work");
    assert_eq!(project_root(None, None, "/cwd".to_string()), "/cwd");
}

#[test]
fn find_rafn_toml_takes_the_nearest_directory_holding_it() {
    let dirs = vec![
        ("/work/proj/sub".to_string(), false),
        ("/work/proj".to_string(), true),
        ("/work".to_string(), true),
        ("/".to_string(), false),
    ];
    assert_eq!(find_rafn_toml(&dirs), Some("/work/proj/rafn.toml".to_string()));
    let root_only = vec![("/a".to_string(), false), ("/".to_string(), true)];
    assert_eq!(find_rafn_toml(&root_only), Some("/rafn.toml".to_string()));
    let none = vec![("/a".to_string(), false), ("/".to_string(), false)];
    assert_eq!(find_rafn_toml(&none), None);
}
