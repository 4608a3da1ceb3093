//! The configuration: what the command line and the configuration file give,
//! and how the two are layered.

use vstd::prelude::*;
use crate::text::{clone_opt, first_of, opt_view};

verus! {

/// What the command line gives. Every setting is optional.
#[derive(Debug, PartialEq, Eq)]
pub struct Args {
    /// Time to live in seconds; 1 means automatic.
    pub ttl: Option<u32>,
    /// Where the configuration file is, if not at its default place.
    pub config_path: Option<String>,
    /// The provider's API token.
    pub api_token: Option<String>,
    /// The provider's API key, used together with the account's email.
    pub api_key: Option<String>,
    /// The account's email, used together with the API key.
    pub account_email: Option<String>,
    /// The zone that hostnames belong to unless they name their own.
    pub zone_id: Option<String>,
    /// Whether records are proxied.
    pub proxied: Option<bool>,
    /// Whether IPv4 records are kept.
    pub a: Option<bool>,
    /// Whether IPv6 records are kept.
    pub aaaa: Option<bool>,
    /// One hostname to use in place of those of the configuration file.
    pub subdomain: Option<String>,
}

/// The settings of one hostname, or the global defaults. A setting left
/// unset falls back to the next tier.
#[derive(Debug, PartialEq, Eq)]
pub struct SubdomainsConfig {
    pub zone_id: Option<String>,
    pub ttl: Option<u32>,
    pub proxied: Option<bool>,
    pub a: Option<bool>,
    pub aaaa: Option<bool>,
}

/// The mathematical value of a [`SubdomainsConfig`].
pub ghost struct SubdomainsView {
    pub zone_id: Option<Seq<char>>,
    pub ttl: Option<u32>,
    pub proxied: Option<bool>,
    pub a: Option<bool>,
    pub aaaa: Option<bool>,
}

impl SubdomainsView {
    /// The settings with nothing set.
    pub open spec fn unset() -> SubdomainsView {
        SubdomainsView { zone_id: None, ttl: None, proxied: None, a: None, aaaa: None }
    }
}

impl View for SubdomainsConfig {
    type V = SubdomainsView;

    open spec fn view(&self) -> SubdomainsView {
        SubdomainsView {
            zone_id: opt_view(self.zone_id),
            ttl: self.ttl,
            proxied: self.proxied,
            a: self.a,
            aaaa: self.aaaa,
        }
    }
}

impl Default for SubdomainsConfig {
    fn default() -> (config: SubdomainsConfig)
        ensures
            config@ == SubdomainsView::unset(),
    {
        SubdomainsConfig { zone_id: None, ttl: None, proxied: None, a: None, aaaa: None }
    }
}

impl Clone for SubdomainsConfig {
    fn clone(&self) -> (copy: SubdomainsConfig)
        ensures
            copy@ == self@,
    {
        SubdomainsConfig {
            zone_id: clone_opt(&self.zone_id),
            ttl: self.ttl,
            proxied: self.proxied,
            a: self.a,
            aaaa: self.aaaa,
        }
    }
}

/// The credentials section of the configuration file.
#[derive(Debug, PartialEq, Eq)]
pub struct TomlCloudflare {
    pub api_token: Option<String>,
    pub api_key: Option<String>,
    pub account_email: Option<String>,
}

impl Default for TomlCloudflare {
    fn default() -> (section: TomlCloudflare)
        ensures
            section.api_token is None,
            section.api_key is None,
            section.account_email is None,
    {
        TomlCloudflare { api_token: None, api_key: None, account_email: None }
    }
}

/// The hostnames with their settings, as a sequence of pairs of values.
pub open spec fn entries_view(entries: Seq<(String, SubdomainsConfig)>) -> Seq<
    (Seq<char>, SubdomainsView),
> {
    Seq::new(entries.len(), |i: int| (entries[i].0@, entries[i].1@))
}

/// Whether no hostname occurs twice.
pub open spec fn distinct_names(entries: Seq<(Seq<char>, SubdomainsView)>) -> bool {
    forall|i: int, j: int|
        0 <= i < j < entries.len() ==> (#[trigger] entries[i]).0 != (#[trigger] entries[j]).0
}

/// The configuration file.
#[derive(Debug, PartialEq, Eq)]
pub struct TomlConfig {
    /// The global defaults.
    pub subdomains_config: SubdomainsConfig,
    /// The hostnames, each with its own settings.
    pub subdomains: Vec<(String, SubdomainsConfig)>,
    /// The credentials.
    pub cloudflare: Option<TomlCloudflare>,
}

impl Default for TomlConfig {
    fn default() -> (file: TomlConfig)
        ensures
            file.subdomains_config@ == SubdomainsView::unset(),
            file.subdomains@.len() == 0,
            file.cloudflare is None,
    {
        TomlConfig {
            subdomains_config: SubdomainsConfig::default(),
            subdomains: Vec::new(),
            cloudflare: None,
        }
    }
}

/// Why no configuration could be built.
#[derive(Debug, PartialEq, Eq)]
pub enum ConfigError {
    /// Neither an API token nor an API key is given.
    NoCredentials,
    /// An API key is given without the account's email.
    MissingAccountEmail,
    /// No global zone is given, and these hostnames name none of their own.
    MissingZoneId { subdomains: Vec<String> },
    /// A configuration file was named but could not be opened.
    CannotOpen,
    /// The configuration file could not be read.
    Unreadable,
    /// The configuration file is not a valid configuration.
    Malformed,
}

/// The mathematical value of a [`ConfigError`].
pub ghost enum ConfigErrorView {
    NoCredentials,
    MissingAccountEmail,
    MissingZoneId { subdomains: Seq<Seq<char>> },
    CannotOpen,
    Unreadable,
    Malformed,
}

/// The characters of each of some strings.
pub open spec fn names_view(names: Seq<String>) -> Seq<Seq<char>> {
    Seq::new(names.len(), |i: int| names[i]@)
}

impl View for ConfigError {
    type V = ConfigErrorView;

    open spec fn view(&self) -> ConfigErrorView {
        match *self {
            ConfigError::NoCredentials => ConfigErrorView::NoCredentials,
            ConfigError::MissingAccountEmail => ConfigErrorView::MissingAccountEmail,
            ConfigError::MissingZoneId { subdomains } => ConfigErrorView::MissingZoneId {
                subdomains: names_view(subdomains@),
            },
            ConfigError::CannotOpen => ConfigErrorView::CannotOpen,
            ConfigError::Unreadable => ConfigErrorView::Unreadable,
            ConfigError::Malformed => ConfigErrorView::Malformed,
        }
    }
}

/// The credentials for the provider's API: one of two schemes.
#[derive(Debug, PartialEq, Eq)]
pub enum Credentials {
    UserAuthKey { email: String, key: String },
    UserAuthToken { token: String },
}

/// The mathematical value of [`Credentials`].
pub ghost enum CredentialsView {
    UserAuthKey { email: Seq<char>, key: Seq<char> },
    UserAuthToken { token: Seq<char> },
}

impl View for Credentials {
    type V = CredentialsView;

    open spec fn view(&self) -> CredentialsView {
        match *self {
            Credentials::UserAuthKey { email, key } => CredentialsView::UserAuthKey {
                email: email@,
                key: key@,
            },
            Credentials::UserAuthToken { token } => CredentialsView::UserAuthToken { token: token@ },
        }
    }
}

/// The provider's section of a configuration.
#[derive(Debug, PartialEq, Eq)]
pub struct Cloudflare {
    pub auth: Credentials,
}

/// The token that the file's credentials section gives.
pub open spec fn file_token(section: Option<TomlCloudflare>) -> Option<Seq<char>> {
    match section {
        Some(s) => opt_view(s.api_token),
        None => None,
    }
}

/// The key that the file's credentials section gives.
pub open spec fn file_key(section: Option<TomlCloudflare>) -> Option<Seq<char>> {
    match section {
        Some(s) => opt_view(s.api_key),
        None => None,
    }
}

/// The email that the file's credentials section gives.
pub open spec fn file_email(section: Option<TomlCloudflare>) -> Option<Seq<char>> {
    match section {
        Some(s) => opt_view(s.account_email),
        None => None,
    }
}

/// The credentials that a token, a key and an email give. A token decides
/// alone. Without one, a key and an email are both needed.
pub open spec fn credentials_of(
    token: Option<Seq<char>>,
    key: Option<Seq<char>>,
    email: Option<Seq<char>>,
) -> Result<CredentialsView, ConfigErrorView> {
    match token {
        Some(token) => Ok(CredentialsView::UserAuthToken { token }),
        None => match key {
            None => Err(ConfigErrorView::NoCredentials),
            Some(key) => match email {
                None => Err(ConfigErrorView::MissingAccountEmail),
                Some(email) => Ok(CredentialsView::UserAuthKey { email, key }),
            },
        },
    }
}

/// The credentials that the command line's settings and the file's give
/// together: each setting of the command line goes before the file's.
pub open spec fn layered_credentials(
    args_api_token: Option<Seq<char>>,
    args_api_key: Option<Seq<char>>,
    args_account_email: Option<Seq<char>>,
    section: Option<TomlCloudflare>,
) -> Result<CredentialsView, ConfigErrorView> {
    credentials_of(
        first_of(args_api_token, file_token(section)),
        first_of(args_api_key, file_key(section)),
        first_of(args_account_email, file_email(section)),
    )
}

/// Builds credentials from the command line's settings and the file's.
pub trait NewCredentials: Sized {
    /// The value of `self` as credentials.
    spec fn as_credentials(&self) -> CredentialsView;

    /// A token, from either source, gives token credentials. Without one, a
    /// key and an email give key credentials; a missing key or a missing
    /// email is an error.
    fn new(
        args_api_token: Option<String>,
        args_api_key: Option<String>,
        args_account_email: Option<String>,
        toml_cloudflare: Option<TomlCloudflare>,
    ) -> (r: Result<Self, ConfigError>)
        ensures
            match r {
                Ok(credentials) => layered_credentials(
                    opt_view(args_api_token),
                    opt_view(args_api_key),
                    opt_view(args_account_email),
                    toml_cloudflare,
                ) == Ok::<CredentialsView, ConfigErrorView>(credentials.as_credentials()),
                Err(e) => layered_credentials(
                    opt_view(args_api_token),
                    opt_view(args_api_key),
                    opt_view(args_account_email),
                    toml_cloudflare,
                ) == Err::<CredentialsView, ConfigErrorView>(e@),
            },
    ;
}

/// The first of two optional strings that is present.
fn or_else(first: Option<String>, second: Option<String>) -> (chosen: Option<String>)
    ensures
        opt_view(chosen) == first_of(opt_view(first), opt_view(second)),
{
    match first {
        Some(value) => Some(value),
        None => second,
    }
}

impl NewCredentials for Credentials {
    open spec fn as_credentials(&self) -> CredentialsView {
        self@
    }

    fn new(
        args_api_token: Option<String>,
        args_api_key: Option<String>,
        args_account_email: Option<String>,
        toml_cloudflare: Option<TomlCloudflare>,
    ) -> (r: Result<Credentials, ConfigError>) {
        let section = match toml_cloudflare {
            Some(section) => section,
            None => TomlCloudflare::default(),
        };
        if let Some(token) = or_else(args_api_token, section.api_token) {
            return Ok(Credentials::UserAuthToken { token });
        }
        let key = match or_else(args_api_key, section.api_key) {
            Some(key) => key,
            None => {
                return Err(ConfigError::NoCredentials);
            },
        };
        let email = match or_else(args_account_email, section.account_email) {
            Some(email) => email,
            None => {
                return Err(ConfigError::MissingAccountEmail);
            },
        };
        Ok(Credentials::UserAuthKey { email, key })
    }
}

/// The global defaults: each setting of the command line goes before the
/// file's.
pub open spec fn global_settings(args: Args, file: SubdomainsView) -> SubdomainsView {
    SubdomainsView {
        zone_id: first_of(opt_view(args.zone_id), file.zone_id),
        ttl: first_of(args.ttl, file.ttl),
        proxied: first_of(args.proxied, file.proxied),
        a: first_of(args.a, file.a),
        aaaa: first_of(args.aaaa, file.aaaa),
    }
}

/// The hostnames that are reconciled: the one that the command line names,
/// with nothing set, or else those of the file.
pub open spec fn effective_entries(args: Args, toml: TomlConfig) -> Seq<
    (Seq<char>, SubdomainsView),
> {
    match args.subdomain {
        Some(name) => seq![(name@, SubdomainsView::unset())],
        None => entries_view(toml.subdomains@),
    }
}

/// The hostnames, in their order, that name no zone of their own.
pub open spec fn without_zone(entries: Seq<(Seq<char>, SubdomainsView)>) -> Seq<Seq<char>> {
    entries.filter_map(name_if_no_zone())
}

/// Picks the name of a hostname that names no zone of its own.
pub open spec fn name_if_no_zone() -> spec_fn((Seq<char>, SubdomainsView)) -> Option<Seq<char>> {
    |entry: (Seq<char>, SubdomainsView)|
        if entry.1.zone_id is None {
            Some(entry.0)
        } else {
            None
        }
}

/// The mathematical value of a [`Config`].
pub ghost struct ConfigView {
    pub auth: CredentialsView,
    pub defaults: SubdomainsView,
    pub subdomains: Seq<(Seq<char>, SubdomainsView)>,
}

impl ConfigView {
    /// Every hostname has a zone: its own or the global one.
    pub open spec fn wf(self) -> bool {
        self.defaults.zone_id is Some || forall|i: int|
            0 <= i < self.subdomains.len() ==> (#[trigger] self.subdomains[i]).1.zone_id is Some
    }
}

/// The configuration of a run.
#[derive(Debug, PartialEq, Eq)]
pub struct Config {
    pub cloudflare: Cloudflare,
    /// The global defaults.
    pub subdomains_config: SubdomainsConfig,
    /// The hostnames, each with its own settings.
    pub subdomains: Vec<(String, SubdomainsConfig)>,
}

impl View for Config {
    type V = ConfigView;

    open spec fn view(&self) -> ConfigView {
        ConfigView {
            auth: self.cloudflare.auth@,
            defaults: self.subdomains_config@,
            subdomains: entries_view(self.subdomains@),
        }
    }
}

/// The configuration that a command line and a configuration file give, or
/// the reason why they give none. Credentials are looked at first. Then every
/// hostname must have a zone.
pub open spec fn config_of(args: Args, toml: TomlConfig) -> Result<ConfigView, ConfigErrorView> {
    match layered_credentials(
        opt_view(args.api_token),
        opt_view(args.api_key),
        opt_view(args.account_email),
        toml.cloudflare,
    ) {
        Err(e) => Err(e),
        Ok(auth) => {
            let defaults = global_settings(args, toml.subdomains_config@);
            let subdomains = effective_entries(args, toml);
            if defaults.zone_id is None && without_zone(subdomains).len() > 0 {
                Err(ConfigErrorView::MissingZoneId { subdomains: without_zone(subdomains) })
            } else {
                Ok(ConfigView { auth, defaults, subdomains })
            }
        },
    }
}

/// The first of two optional settings that is present.
fn or_setting<T: Copy>(first: Option<T>, second: Option<T>) -> (chosen: Option<T>)
    ensures
        chosen == first_of(first, second),
{
    match first {
        Some(_) => first,
        None => second,
    }
}

/// The names, in their order, of the hostnames that name no zone of their own.
fn names_without_zone(entries: &Vec<(String, SubdomainsConfig)>) -> (names: Vec<String>)
    ensures
        names_view(names@) == without_zone(entries_view(entries@)),
        names@.len() == 0 ==> forall|i: int|
            0 <= i < entries@.len() ==> (#[trigger] entries_view(entries@)[i]).1.zone_id is Some,
{
    let ghost all = entries_view(entries@);
    let mut names: Vec<String> = Vec::new();
    let mut i: usize = 0;
    assert(without_zone(all.take(0)) =~= Seq::<Seq<char>>::empty());
    while i < entries.len()
        invariant
            i <= entries.len(),
            all == entries_view(entries@),
            all.len() == entries.len(),
            names_view(names@) =~= without_zone(all.take(i as int)),
            names@.len() == 0 ==> forall|j: int| 0 <= j < i ==> (#[trigger] all[j]).1.zone_id is Some,
        decreases entries.len() - i,
    {
        proof {
            all.lemma_filter_map_take_succ(name_if_no_zone(), i as int);
        }
        let ghost before = names_view(names@);
        if entries[i].1.zone_id.is_none() {
            let name = entries[i].0.clone();
            names.push(name);
            assert(names_view(names@) =~= before + seq![all[i as int].0]);
        }
        i += 1;
    }
    assert(all.take(i as int) =~= all);
    names
}

impl Config {
    /// Layers the command line over the configuration file. Fails where no
    /// credentials can be built, or where some hostname has no zone.
    pub fn new(args: Args, toml: TomlConfig) -> (r: Result<Config, ConfigError>)
        ensures
            match r {
                Ok(config) => config_of(args, toml) == Ok::<ConfigView, ConfigErrorView>(config@)
                    && config@.wf(),
                Err(e) => config_of(args, toml) == Err::<ConfigView, ConfigErrorView>(e@),
            },
            r is Ok && distinct_names(entries_view(toml.subdomains@)) ==> distinct_names(
                r->Ok_0@.subdomains,
            ),
    {
        let auth = match Credentials::new(
            args.api_token,
            args.api_key,
            args.account_email,
            toml.cloudflare,
        ) {
            Ok(auth) => auth,
            Err(e) => {
                return Err(e);
            },
        };
        let file = toml.subdomains_config;
        let zone_id = match args.zone_id {
            Some(zone_id) => Some(zone_id),
            None => file.zone_id,
        };
        let subdomains = match args.subdomain {
            Some(name) => {
                let mut single: Vec<(String, SubdomainsConfig)> = Vec::new();
                single.push((name, SubdomainsConfig::default()));
                assert(entries_view(single@) =~= seq![(name@, SubdomainsView::unset())]);
                single
            },
            None => toml.subdomains,
        };
        assert(entries_view(subdomains@) == effective_entries(args, toml));
        if zone_id.is_none() {
            let missing = names_without_zone(&subdomains);
            if missing.len() > 0 {
                return Err(ConfigError::MissingZoneId { subdomains: missing });
            }
        }
        Ok(
            Config {
                cloudflare: Cloudflare { auth },
                subdomains_config: SubdomainsConfig {
                    zone_id,
                    ttl: or_setting(args.ttl, file.ttl),
                    proxied: or_setting(args.proxied, file.proxied),
                    a: or_setting(args.a, file.a),
                    aaaa: or_setting(args.aaaa, file.aaaa),
                },
                subdomains,
            },
        )
    }
}

/// What came of looking for the configuration file.
#[derive(Debug, PartialEq, Eq)]
pub enum ConfigFile {
    /// The file could not be opened.
    NotOpened,
    /// The file was opened and could not be read.
    Unreadable,
    /// The file was read and is not a valid configuration.
    Malformed,
    /// The file holds this configuration.
    Parsed(TomlConfig),
}

/// The directory that holds the configuration directory: the one that the
/// variable `XDG_CONFIG_HOME` names, else `~/.config/`.
pub fn config_home(from_environment: Option<String>) -> (home: String)
    ensures
        home@ == match from_environment {
            Some(dir) => dir@,
            None => "~/.config/"@,
        },
{
    match from_environment {
        Some(dir) => dir,
        None => "~/.config/".to_owned(),
    }
}

/// The configuration that the file gives. A file that cannot be opened is an
/// error only where the command line named it; else the empty configuration
/// stands in. A file that was opened must be readable and valid.
pub fn get_toml_config_or_default(args: &Args, file: ConfigFile) -> (r: Result<
    TomlConfig,
    ConfigError,
>)
    ensures
        match file {
            ConfigFile::Parsed(toml) => r == Ok::<TomlConfig, ConfigError>(toml),
            ConfigFile::Unreadable => r is Err && r->Err_0@ == ConfigErrorView::Unreadable,
            ConfigFile::Malformed => r is Err && r->Err_0@ == ConfigErrorView::Malformed,
            ConfigFile::NotOpened => if args.config_path is Some {
                r is Err && r->Err_0@ == ConfigErrorView::CannotOpen
            } else {
                &&& r is Ok
                &&& r->Ok_0.subdomains_config@ == SubdomainsView::unset()
                &&& r->Ok_0.subdomains@.len() == 0
                &&& r->Ok_0.cloudflare is None
            },
        },
{
    match file {
        ConfigFile::Parsed(toml) => Ok(toml),
        ConfigFile::Unreadable => Err(ConfigError::Unreadable),
        ConfigFile::Malformed => Err(ConfigError::Malformed),
        ConfigFile::NotOpened => {
            if args.config_path.is_some() {
                Err(ConfigError::CannotOpen)
            } else {
                Ok(TomlConfig::default())
            }
        },
    }
}

} // verus!
