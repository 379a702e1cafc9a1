use r_auth_api::config::{init_config, Environment};

#[test]
fn init_config_parses_numeric_settings() {
    let cfg = init_config(
        "4096",
        "3",
        "4",
        "32",
        "super-secret",
        "postgres://localhost/app",
        "production",
    )
    .expect("all settings are well formed");
    assert_eq!(cfg.password.mem_cost, 4096);
    assert_eq!(cfg.password.time_cost, 3);
    assert_eq!(cfg.password.lanes, 4);
    assert_eq!(cfg.password.hash_length, 32);
    assert_eq!(cfg.auth.secret, "super-secret");
    assert_eq!(cfg.db.database_url, "postgres://localhost/app");
    assert!(matches!(cfg.environment, Environment::Production));
}

#[test]
fn init_config_defaults_to_development() {
    let cfg = init_config("1024", "1", "1", "16", "s", "db", "local").expect("well formed");
    assert!(matches!(cfg.environment, Environment::Development));
    let cfg = init_config("1024", "1", "1", "16", "s", "db", "").expect("well formed");
    assert!(matches!(cfg.environment, Environment::Development));
}

#[test]
fn init_config_rejects_malformed_numbers() {
    assert!(init_config("abc", "3", "4", "32", "s", "db", "production").is_none());
    assert!(init_config("4096", "", "4", "32", "s", "db", "production").is_none());
    assert!(init_config("4096", "3", "-1", "32", "s", "db", "production").is_none());
    assert!(init_config("4096", "3", "4", "4294967296", "s", "db", "production").is_none());
}
