use wrangler::config::{global_config, validate_credentials, write_global_config};
use wrangler::global_user::{ConfigFields, ConfigError, GlobalConfig, GlobalUser};

fn fields(
    api_token: Option<&str>,
    email: Option<&str>,
    api_key: Option<&str>,
    next_default_project: Option<&str>,
) -> ConfigFields {
    ConfigFields {
        api_token: api_token.map(|s| s.to_string()),
        email: email.map(|s| s.to_string()),
        api_key: api_key.map(|s| s.to_string()),
        next_default_project: next_default_project.map(|s| s.to_string()),
    }
}

fn empty() -> ConfigFields {
    ConfigFields::empty()
}

#[test]
fn it_can_prioritize_token_input() {
    // With CF_API_TOKEN, CF_EMAIL and CF_API_KEY all provided by the
    // environment, the token must win over the email + key pair.
    let env = fields(Some("foo"), Some("test@cloudflare.com"), Some("bar"), None);
    let user = GlobalUser::new(None, &env).unwrap();
    assert_eq!(
        user,
        GlobalUser::TokenAuth {
            api_token: "foo".to_string()
        }
    );
}

#[test]
fn token_in_file_beats_key_pair_in_file() {
    let text = "api_token = \"tok\"\nemail = \"a@b.c\"\napi_key = \"k\"\n";
    let user = GlobalUser::new(Some(text), &empty()).unwrap();
    assert_eq!(
        user,
        GlobalUser::TokenAuth {
            api_token: "tok".to_string()
        }
    );
}

#[test]
fn environment_wins_over_file() {
    let text = "api_token = \"file-tok\"\n";
    let env = fields(Some("env-tok"), None, None, None);
    let user = GlobalUser::new(Some(text), &env).unwrap();
    assert_eq!(
        user,
        GlobalUser::TokenAuth {
            api_token: "env-tok".to_string()
        }
    );
}

#[test]
fn key_pair_resolves_when_no_token() {
    let env = fields(None, Some("test@cloudflare.com"), Some("bar"), None);
    let user = GlobalUser::new(None, &env).unwrap();
    assert_eq!(
        user,
        GlobalUser::GlobalKeyAuth {
            email: "test@cloudflare.com".to_string(),
            api_key: "bar".to_string()
        }
    );
}

#[test]
fn empty_token_falls_through_to_key_pair() {
    let env = fields(Some(""), Some("test@cloudflare.com"), Some("bar"), None);
    let user = GlobalUser::new(None, &env).unwrap();
    assert_eq!(
        user,
        GlobalUser::GlobalKeyAuth {
            email: "test@cloudflare.com".to_string(),
            api_key: "bar".to_string()
        }
    );
}

#[test]
fn missing_credentials_error_with_nothing_set() {
    let r = GlobalConfig::new(None, &empty());
    assert!(matches!(r, Err(ConfigError::MissingCredentials)));
}

#[test]
fn missing_credentials_error_with_email_but_no_key() {
    let env = fields(None, Some("test@cloudflare.com"), None, None);
    let r = GlobalConfig::new(None, &env);
    assert!(matches!(r, Err(ConfigError::MissingCredentials)));
}

#[test]
fn invalid_config_text_is_reported() {
    let r = GlobalConfig::new(Some("not = = toml"), &empty());
    assert!(matches!(r, Err(ConfigError::InvalidConfig)));
}

#[test]
fn default_project_name_sentinel_applies() {
    let env = fields(Some("tok"), None, None, None);
    let config = GlobalConfig::new(None, &env).unwrap();
    assert_eq!(config.next_default_project, "worker".to_string());
}

#[test]
fn empty_project_name_gets_sentinel() {
    let env = fields(Some("tok"), None, None, Some(""));
    let config = GlobalConfig::new(None, &env).unwrap();
    assert_eq!(config.next_default_project, "worker".to_string());
}

#[test]
fn config_write_round_trips_token_auth() {
    let config = GlobalConfig {
        global_user: GlobalUser::TokenAuth {
            api_token: "secret-token".to_string(),
        },
        next_default_project: "worker-7".to_string(),
    };
    let text = write_global_config(&config);
    let reread = GlobalConfig::new(Some(&text), &empty()).unwrap();
    assert_eq!(reread, config);
}

#[test]
fn config_write_round_trips_key_auth() {
    let config = global_config("test@cloudflare.com", "bar");
    assert_eq!(config.next_default_project, "worker".to_string());
    let text = write_global_config(&config);
    let reread = GlobalConfig::new(Some(&text), &empty()).unwrap();
    assert_eq!(reread, config);
}

#[test]
fn written_text_is_real_toml() {
    let config = GlobalConfig {
        global_user: GlobalUser::TokenAuth {
            api_token: "abc".to_string(),
        },
        next_default_project: "worker".to_string(),
    };
    let text = write_global_config(&config);
    let table: toml::Table = text.parse().unwrap();
    assert_eq!(
        table.get("api_token").and_then(|v| v.as_str()),
        Some("abc")
    );
    assert_eq!(
        table.get("next_default_project").and_then(|v| v.as_str()),
        Some("worker")
    );
}

#[test]
fn token_check_active_passes() {
    let user = GlobalUser::TokenAuth {
        api_token: "tok".to_string(),
    };
    assert!(validate_credentials(&user, true, "active").is_ok());
}

#[test]
fn token_check_inactive_fails_with_status() {
    let user = GlobalUser::TokenAuth {
        api_token: "tok".to_string(),
    };
    let m = validate_credentials(&user, true, "expired").unwrap_err();
    let expected = "Authentication check failed. Your token has status \"expired\", not \"active\". Try rolling your token on the Cloudflare dashboard.";
    assert_eq!(m, expected);
}

#[test]
fn key_check_failure_names_the_pair() {
    let user = GlobalUser::GlobalKeyAuth {
        email: "a@b.c".to_string(),
        api_key: "k".to_string(),
    };
    let m = validate_credentials(&user, false, "http 403").unwrap_err();
    assert!(m.contains("email and global API key pair"));
    assert!(m.contains("http 403"));
}
