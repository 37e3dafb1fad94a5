use zero2prod::config::{app_environment, config_sources, Database, Environment};

#[test]
fn environment_names() {
    assert_eq!(Environment::Local.as_str(), "local");
    assert_eq!(Environment::Prod.as_str(), "prod");
}

#[test]
fn environment_from_exact_names() {
    assert_eq!(Environment::try_from("local".to_string()), Ok(Environment::Local));
    assert_eq!(Environment::try_from("prod".to_string()), Ok(Environment::Prod));
}

#[test]
fn environment_name_ignores_case() {
    assert_eq!(Environment::try_from("LOCAL".to_string()), Ok(Environment::Local));
    assert_eq!(Environment::try_from("Local".to_string()), Ok(Environment::Local));
    assert_eq!(Environment::try_from("pRoD".to_string()), Ok(Environment::Prod));
}

#[test]
fn environment_unknown_name_is_refused() {
    assert_eq!(
        Environment::try_from("staging".to_string()),
        Err("staging is not supported environment".to_string())
    );
    assert_eq!(
        Environment::try_from("STAGING".to_string()),
        Err("staging is not supported environment".to_string())
    );
    assert_eq!(
        Environment::try_from(String::new()),
        Err(" is not supported environment".to_string())
    );
    assert_eq!(
        Environment::try_from(" local".to_string()),
        Err(" local is not supported environment".to_string())
    );
}

#[test]
fn environment_name_roundtrip() {
    for e in [Environment::Local, Environment::Prod] {
        assert_eq!(Environment::try_from(e.as_str().to_string()), Ok(e));
    }
}

#[test]
fn environment_from_lowercase_does_not_lowercase() {
    assert_eq!(Environment::from_lowercase("prod".to_string()), Ok(Environment::Prod));
    assert_eq!(
        Environment::from_lowercase("PROD".to_string()),
        Err("PROD is not supported environment".to_string())
    );
}

#[test]
fn app_environment_defaults_to_local() {
    assert_eq!(app_environment(None), Ok(Environment::Local));
    assert_eq!(app_environment(Some("Prod".to_string())), Ok(Environment::Prod));
    assert_eq!(
        app_environment(Some("test".to_string())),
        Err("test is not supported environment".to_string())
    );
}

#[test]
fn config_sources_base_then_environment() {
    assert_eq!(config_sources(Environment::Local), vec!["base.toml".to_string(), "local.toml".to_string()]);
    assert_eq!(config_sources(Environment::Prod), vec!["base.toml".to_string(), "prod.toml".to_string()]);
}

fn sample_database() -> Database {
    Database {
        username: "app".to_string(),
        password: "secret".to_string(),
        host: "db.internal".to_string(),
        port: 6543,
        database_name: "newsletter".to_string(),
    }
}

#[test]
fn database_options_without_db() {
    let options = sample_database().without_db();
    assert_eq!(options.username, "app");
    assert_eq!(options.password, "secret");
    assert_eq!(options.host, "db.internal");
    assert_eq!(options.port, 6543);
    assert_eq!(options.database, None);
}

#[test]
fn database_options_with_db() {
    let options = sample_database().with_db();
    assert_eq!(options.username, "app");
    assert_eq!(options.password, "secret");
    assert_eq!(options.host, "db.internal");
    assert_eq!(options.port, 6543);
    assert_eq!(options.database, Some("newsletter".to_string()));
}

#[test]
fn environment_through_try_into() {
    let e: Result<Environment, String> = "PROD".to_string().try_into();
    assert_eq!(e, Ok(Environment::Prod));
    let e: Result<Environment, String> = "dev".to_string().try_into();
    assert_eq!(e, Err("dev is not supported environment".to_string()));
}

#[test]
fn environment_name_non_ascii() {
    assert_eq!(
        Environment::try_from("PRÖD".to_string()),
        Err("pröd is not supported environment".to_string())
    );
    assert_eq!(
        Environment::try_from("ΣΑ".to_string()),
        Err("σα is not supported environment".to_string())
    );
}

#[test]
fn environment_ascii_case_images_read_alike() {
    for s in ["local", "LOCAL", "Prod", "pROD", "staging", "StAgInG", ""] {
        let s = s.to_string();
        assert_eq!(Environment::try_from(s.clone()), Environment::try_from(s.to_ascii_uppercase()));
        assert_eq!(Environment::try_from(s.clone()), Environment::try_from(s.to_ascii_lowercase()));
    }
}
