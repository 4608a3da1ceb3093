use cf_ddns::cache::ZoneNames;
use cf_ddns::config::{
    config_home, get_toml_config_or_default, Args, Cloudflare, Config, ConfigError, ConfigFile,
    Credentials, NewCredentials, SubdomainsConfig, TomlCloudflare, TomlConfig,
};

fn no_args() -> Args {
    Args {
        ttl: None,
        config_path: None,
        api_token: None,
        api_key: None,
        account_email: None,
        zone_id: None,
        proxied: None,
        a: None,
        aaaa: None,
        subdomain: None,
    }
}

fn some(text: &str) -> Option<String> {
    Some(String::from(text))
}

fn entry(name: &str, zone_id: Option<&str>) -> (String, SubdomainsConfig) {
    (
        String::from(name),
        SubdomainsConfig { zone_id: zone_id.map(String::from), ..SubdomainsConfig::default() },
    )
}

#[test]
fn token_decides_alone() {
    assert_eq!(
        Credentials::new(some("t"), some("k"), some("e"), None),
        Ok(Credentials::UserAuthToken { token: String::from("t") })
    );
    let file = TomlCloudflare { api_token: some("ft"), api_key: None, account_email: None };
    assert_eq!(
        Credentials::new(None, some("k"), some("e"), Some(file)),
        Ok(Credentials::UserAuthToken { token: String::from("ft") })
    );
}

#[test]
fn command_line_goes_before_the_file() {
    let file = TomlCloudflare { api_token: some("ft"), api_key: some("fk"), account_email: some("fe") };
    assert_eq!(
        Credentials::new(some("t"), None, None, Some(file)),
        Ok(Credentials::UserAuthToken { token: String::from("t") })
    );
    let file = TomlCloudflare { api_token: None, api_key: some("fk"), account_email: some("fe") };
    assert_eq!(
        Credentials::new(None, some("k"), None, Some(file)),
        Ok(Credentials::UserAuthKey { email: String::from("fe"), key: String::from("k") })
    );
}

#[test]
fn credentials_that_are_missing() {
    assert_eq!(Credentials::new(None, None, None, None), Err(ConfigError::NoCredentials));
    assert_eq!(Credentials::new(None, None, some("e"), None), Err(ConfigError::NoCredentials));
    assert_eq!(
        Credentials::new(None, some("k"), None, Some(TomlCloudflare::default())),
        Err(ConfigError::MissingAccountEmail)
    );
}

#[test]
fn configuration_is_layered() {
    let args = Args { api_token: some("t"), ttl: Some(300), a: Some(false), ..no_args() };
    let toml = TomlConfig {
        subdomains_config: SubdomainsConfig {
            zone_id: some("z1"),
            ttl: Some(120),
            proxied: Some(false),
            a: Some(true),
            aaaa: None,
        },
        subdomains: vec![entry("www", None), entry("home", Some("z2"))],
        cloudflare: None,
    };
    assert_eq!(
        Config::new(args, toml),
        Ok(Config {
            cloudflare: Cloudflare { auth: Credentials::UserAuthToken { token: String::from("t") } },
            subdomains_config: SubdomainsConfig {
                zone_id: some("z1"),
                ttl: Some(300),
                proxied: Some(false),
                a: Some(false),
                aaaa: None,
            },
            subdomains: vec![entry("www", None), entry("home", Some("z2"))],
        })
    );
}

#[test]
fn hostname_of_the_command_line_replaces_those_of_the_file() {
    let args = Args { api_token: some("t"), zone_id: some("z9"), subdomain: some("only"), ..no_args() };
    let toml = TomlConfig {
        subdomains_config: SubdomainsConfig { zone_id: some("z1"), ..SubdomainsConfig::default() },
        subdomains: vec![entry("www", None)],
        cloudflare: None,
    };
    let config = Config::new(args, toml).unwrap();
    assert_eq!(config.subdomains_config.zone_id, some("z9"));
    assert_eq!(config.subdomains, vec![entry("only", None)]);
}

#[test]
fn hostnames_without_a_zone_are_named() {
    let args = Args { api_token: some("t"), ..no_args() };
    let toml = TomlConfig {
        subdomains_config: SubdomainsConfig::default(),
        subdomains: vec![entry("a", None), entry("b", Some("z2")), entry("c", None)],
        cloudflare: None,
    };
    assert_eq!(
        Config::new(args, toml),
        Err(ConfigError::MissingZoneId { subdomains: vec![String::from("a"), String::from("c")] })
    );
    let args = Args { api_token: some("t"), subdomain: some("only"), ..no_args() };
    let toml = TomlConfig {
        subdomains_config: SubdomainsConfig::default(),
        subdomains: vec![entry("b", Some("z2"))],
        cloudflare: None,
    };
    assert_eq!(
        Config::new(args, toml),
        Err(ConfigError::MissingZoneId { subdomains: vec![String::from("only")] })
    );
}

#[test]
fn zone_of_each_hostname_is_enough() {
    let args = Args { api_token: some("t"), ..no_args() };
    let toml = TomlConfig {
        subdomains_config: SubdomainsConfig::default(),
        subdomains: vec![entry("a", Some("z1")), entry("b", Some("z2"))],
        cloudflare: None,
    };
    let config = Config::new(args, toml).unwrap();
    assert_eq!(config.subdomains_config.zone_id, None);
    assert_eq!(config.subdomains.len(), 2);
}

#[test]
fn credentials_are_looked_at_before_zones() {
    let toml = TomlConfig {
        subdomains_config: SubdomainsConfig::default(),
        subdomains: vec![entry("a", None)],
        cloudflare: Some(TomlCloudflare { api_token: None, api_key: some("k"), account_email: None }),
    };
    assert_eq!(Config::new(no_args(), toml), Err(ConfigError::MissingAccountEmail));
}

#[test]
fn file_that_is_not_there() {
    assert_eq!(get_toml_config_or_default(&no_args(), ConfigFile::NotOpened), Ok(TomlConfig::default()));
    let named = Args { config_path: some("/etc/ddns.toml"), ..no_args() };
    assert_eq!(get_toml_config_or_default(&named, ConfigFile::NotOpened), Err(ConfigError::CannotOpen));
}

#[test]
fn file_that_is_there() {
    let toml = TomlConfig {
        subdomains_config: SubdomainsConfig::default(),
        subdomains: vec![entry("a", Some("z1"))],
        cloudflare: None,
    };
    let same = TomlConfig {
        subdomains_config: SubdomainsConfig::default(),
        subdomains: vec![entry("a", Some("z1"))],
        cloudflare: None,
    };
    assert_eq!(get_toml_config_or_default(&no_args(), ConfigFile::Parsed(toml)), Ok(same));
    assert_eq!(get_toml_config_or_default(&no_args(), ConfigFile::Unreadable), Err(ConfigError::Unreadable));
    assert_eq!(get_toml_config_or_default(&no_args(), ConfigFile::Malformed), Err(ConfigError::Malformed));
}

#[test]
fn home_of_the_configuration() {
    assert_eq!(config_home(None), "~/.config/");
    assert_eq!(config_home(some("/home/u/.cfg")), "/home/u/.cfg");
}

#[test]
fn zone_names_are_remembered() {
    let mut names = ZoneNames::new();
    assert_eq!(names.get("z1"), None);
    names.insert(String::from("z1"), String::from("example.com"));
    names.insert(String::from("z2"), String::from("example.org"));
    assert_eq!(names.get("z1"), Some(String::from("example.com")));
    assert_eq!(names.get("z2"), Some(String::from("example.org")));
    assert_eq!(names.get("z3"), None);
    names.insert(String::from("z1"), String::from("example.net"));
    assert_eq!(names.get("z1"), Some(String::from("example.net")));
}
