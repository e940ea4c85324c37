use gateway::cli::{App, Cmd, CmdRun, ConfigSource, Launch};
use gateway::config::{ApiSecrets, JwtConfig, MissingSecret, OAuthConfig, PgConfig, RedisConfig};
use gateway::redirect::authorization_url;
use gateway::time::{now_sec, timestamp, truncate_seconds};

#[test]
fn defaults_are_a_day_five_minutes_and_localhost() {
    assert_eq!(JwtConfig::default().expires_in, 86_400);
    assert_eq!(RedisConfig::default().oauth_state_ttl, 300);
    assert_eq!(PgConfig::default().db_pool_size, 5);
    let oauth = OAuthConfig::default();
    assert_eq!(oauth.jwt, JwtConfig { expires_in: 86_400 });
    assert_eq!(oauth.base_url, "http://localhost:8000");
}

#[test]
fn the_redirect_uri_is_the_callback_under_the_base_url() {
    assert_eq!(OAuthConfig::default().redirect_uri(), "http://localhost:8000/auth/callback");
    let oauth = OAuthConfig { jwt: JwtConfig::default(), base_url: "https://api.example.org".to_string() };
    assert_eq!(oauth.redirect_uri(), "https://api.example.org/auth/callback");
}

#[test]
fn wiping_leaves_the_secrets_empty() {
    let mut secrets = ApiSecrets {
        jwt_secret: "signing".to_string(),
        client_id: "client".to_string(),
        client_secret: "hush".to_string(),
    };
    let copy = secrets.duplicate();
    secrets.wipe();
    assert_eq!(secrets.jwt_secret, "");
    assert_eq!(secrets.client_id, "");
    assert_eq!(secrets.client_secret, "");
    assert_eq!(copy.jwt_secret, "signing");
    assert_eq!(copy.client_id, "client");
    assert_eq!(copy.client_secret, "hush");
}

#[test]
fn the_authorization_address_carries_the_request() {
    let url = authorization_url("my client", "http://localhost:8000/auth/callback", "S1").unwrap();
    assert_eq!(
        url,
        "https://accounts.google.com/o/oauth2/v2/auth?client_id=my+client\
         &redirect_uri=http%3A%2F%2Flocalhost%3A8000%2Fauth%2Fcallback\
         &response_type=code&scope=openid+email+profile&state=S1"
    );
}

#[test]
fn the_authorization_address_escapes_the_state() {
    let url = authorization_url("c", "r", "a&b=c d#e").unwrap();
    assert!(url.ends_with("&state=a%26b%3Dc+d%23e"));
    let parsed = url::Url::parse(&url).unwrap();
    let pairs: Vec<(String, String)> = parsed.query_pairs().into_owned().collect();
    assert_eq!(
        pairs,
        vec![
            ("client_id".to_string(), "c".to_string()),
            ("redirect_uri".to_string(), "r".to_string()),
            ("response_type".to_string(), "code".to_string()),
            ("scope".to_string(), "openid email profile".to_string()),
            ("state".to_string(), "a&b=c d#e".to_string()),
        ]
    );
}

#[test]
fn seconds_are_reduced_to_32_bits() {
    assert_eq!(truncate_seconds(0), 0);
    assert_eq!(truncate_seconds(1_700_000_000), 1_700_000_000);
    assert_eq!(truncate_seconds(u32::MAX as u64), u32::MAX);
    assert_eq!(truncate_seconds(u32::MAX as u64 + 1), 0);
    assert_eq!(truncate_seconds(u64::MAX), u32::MAX);
}

#[test]
fn the_clock_reads_a_time_after_2020() {
    let now = now_sec();
    assert!(now > 1_577_836_800);
    assert!(now_sec() >= now);
}

#[test]
fn run_without_a_config_starts_from_the_defaults() {
    let app = App { cmd: Cmd::Run(CmdRun { config: None, logger_config: None }) };
    assert_eq!(app.run(), Launch { config: ConfigSource::Defaults, logger_config: None });
}

#[test]
fn run_with_a_config_loads_the_file() {
    let cmd = CmdRun { config: Some("/etc/gateway.json".to_string()), logger_config: Some("log.json".to_string()) };
    let expected = Launch {
        config: ConfigSource::File("/etc/gateway.json".to_string()),
        logger_config: Some("log.json".to_string()),
    };
    assert_eq!(cmd.clone().run(), expected);
    assert_eq!(Cmd::Run(cmd.clone()).run(), expected);
    assert_eq!(App { cmd: Cmd::Run(cmd) }.run(), expected);
}

#[test]
fn secrets_need_all_three_variables() {
    let set = |v: &str| Some(v.to_string());
    let secrets = ApiSecrets::from_env(set("k"), set("id"), set("hush")).ok().unwrap();
    assert_eq!(secrets.jwt_secret, "k");
    assert_eq!(secrets.client_id, "id");
    assert_eq!(secrets.client_secret, "hush");
    let missing = |a, b, c| ApiSecrets::from_env(a, b, c).err();
    assert_eq!(missing(None, set("id"), set("hush")), Some(MissingSecret::JwtSecret));
    assert_eq!(missing(set("k"), None, set("hush")), Some(MissingSecret::ClientId));
    assert_eq!(missing(set("k"), set("id"), None), Some(MissingSecret::ClientSecret));
    assert_eq!(missing(None, None, None), Some(MissingSecret::JwtSecret));
    assert_eq!(missing(set("k"), None, None), Some(MissingSecret::ClientId));
    assert_eq!(missing(None, set("id"), None), Some(MissingSecret::JwtSecret));
}

#[test]
fn a_missing_secret_names_its_variable() {
    assert_eq!(MissingSecret::JwtSecret.variable(), "JWT_SECRET");
    assert_eq!(MissingSecret::ClientId.variable(), "CLIENT_ID");
    assert_eq!(MissingSecret::ClientSecret.variable(), "CLIENT_SECRET");
}

#[test]
fn a_reading_before_the_epoch_counts_as_zero() {
    assert_eq!(timestamp(None), 0);
    assert_eq!(timestamp(Some(0)), 0);
    assert_eq!(timestamp(Some(1_700_000_000)), 1_700_000_000);
    assert_eq!(timestamp(Some(u32::MAX as u64)), u32::MAX);
    assert_eq!(timestamp(Some(u32::MAX as u64 + 1)), 0);
    assert_eq!(timestamp(Some((1u64 << 32) + 7)), 7);
}
