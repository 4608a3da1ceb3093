use cf_ddns::client::Client;
use cf_ddns::config::{Cloudflare, Config, Credentials, SubdomainsConfig};
use cf_ddns::error::{Error, Failure};
use cf_ddns::record::{DnsRecord, Outcome, Outcomes, Progress, RecordType, Reply, Request};
use cf_ddns::util::{Fetched, HttpResponse, IP};

fn settings(zone_id: Option<&str>, a: Option<bool>, aaaa: Option<bool>) -> SubdomainsConfig {
    SubdomainsConfig { zone_id: zone_id.map(String::from), ttl: None, proxied: None, a, aaaa }
}

fn client_with(global: SubdomainsConfig) -> Client {
    Client::new(Config {
        cloudflare: Cloudflare { auth: Credentials::UserAuthToken { token: String::from("t") } },
        subdomains_config: global,
        subdomains: Vec::new(),
    })
}

fn trace(address: &str) -> Reply {
    Reply::Trace(Fetched::Answered(HttpResponse {
        url: String::from("https://1.1.1.1/cdn-cgi/trace"),
        status: 200,
        body: Some(format!("fl=29f4\nh=1.1.1.1\nip={address}\nts=1700000000.123\nvisit_scheme=https\n")),
    }))
}

fn record(id: &str, kind: RecordType, content: &str, proxied: bool, ttl: u32) -> DnsRecord {
    DnsRecord { id: String::from(id), kind, content: String::from(content), proxied, ttl }
}

fn list(zone_id: &str, name: &str) -> Progress {
    Progress::Ask(Request::ListRecords {
        zone_id: String::from(zone_id),
        name: String::from(name),
        per_page: 100,
    })
}

fn create(zone_id: &str, name: &str, version: IP, content: &str, proxied: bool, ttl: u32) -> Progress {
    Progress::Ask(Request::CreateRecord {
        zone_id: String::from(zone_id),
        name: String::from(name),
        version,
        content: String::from(content),
        proxied,
        ttl,
    })
}

fn update(
    zone_id: &str,
    record_id: &str,
    name: &str,
    version: IP,
    content: &str,
    proxied: bool,
    ttl: u32,
) -> Progress {
    Progress::Ask(Request::UpdateRecord {
        zone_id: String::from(zone_id),
        record_id: String::from(record_id),
        name: String::from(name),
        version,
        content: String::from(content),
        proxied,
        ttl,
    })
}

fn done(a: Outcome, aaaa: Outcome) -> Progress {
    Progress::Done(Outcomes { a, aaaa })
}

#[test]
fn missing_record_is_created_with_defaults() {
    let mut client = client_with(SubdomainsConfig::default());
    let entry = settings(Some("z1"), Some(true), Some(false));
    assert_eq!(
        client.commit_record("Home", &entry),
        Progress::Ask(Request::ZoneDetails { zone_id: String::from("z1") })
    );
    assert_eq!(
        client.resume(Reply::ZoneName(String::from("example.com"))),
        list("z1", "home.example.com")
    );
    assert_eq!(
        client.resume(Reply::Records(Vec::new())),
        Progress::Ask(Request::PublicIp { version: IP::V4 })
    );
    assert_eq!(
        client.resume(trace("203.0.113.7")),
        create("z1", "home.example.com", IP::V4, "203.0.113.7", true, 1)
    );
    assert_eq!(client.resume(Reply::Written), done(Outcome::Created, Outcome::Skipped));
}

#[test]
fn matching_record_is_left_alone() {
    let mut client = client_with(SubdomainsConfig::default());
    let entry = settings(Some("z1"), Some(true), Some(false));
    client.commit_record("Home", &entry);
    client.resume(Reply::ZoneName(String::from("example.com")));
    assert_eq!(
        client.resume(Reply::Records(vec![record("r1", RecordType::A, "203.0.113.7", true, 1)])),
        Progress::Ask(Request::PublicIp { version: IP::V4 })
    );
    assert_eq!(client.resume(trace("203.0.113.7")), done(Outcome::Unchanged, Outcome::Skipped));
}

#[test]
fn record_with_another_address_is_updated() {
    let mut client = client_with(SubdomainsConfig::default());
    let entry = settings(Some("z1"), None, None);
    client.commit_record("www", &entry);
    client.resume(Reply::ZoneName(String::from("example.com")));
    client.resume(Reply::Records(vec![record("r1", RecordType::A, "198.51.100.1", true, 1)]));
    assert_eq!(
        client.resume(trace("203.0.113.7")),
        update("z1", "r1", "www.example.com", IP::V4, "203.0.113.7", true, 1)
    );
    assert_eq!(client.resume(Reply::Written), done(Outcome::Updated, Outcome::Skipped));
}

#[test]
fn record_with_another_ttl_or_proxy_flag_is_updated() {
    let mut client = client_with(SubdomainsConfig::default());
    let mut entry = settings(Some("z1"), None, None);
    entry.ttl = Some(300);
    entry.proxied = Some(false);
    client.commit_record("www", &entry);
    client.resume(Reply::ZoneName(String::from("example.com")));
    client.resume(Reply::Records(vec![record("r1", RecordType::A, "203.0.113.7", false, 1)]));
    assert_eq!(
        client.resume(trace("203.0.113.7")),
        update("z1", "r1", "www.example.com", IP::V4, "203.0.113.7", false, 300)
    );
    assert_eq!(client.resume(Reply::Written), done(Outcome::Updated, Outcome::Skipped));

    assert_eq!(client.commit_record("www", &entry), list("z1", "www.example.com"));
    assert_eq!(
        client.resume(Reply::Records(vec![record("r1", RecordType::A, "203.0.113.7", true, 300)])),
        update("z1", "r1", "www.example.com", IP::V4, "203.0.113.7", false, 300)
    );
    assert_eq!(client.resume(Reply::Written), done(Outcome::Updated, Outcome::Skipped));
}

#[test]
fn hostname_without_families_is_skipped() {
    let mut client = client_with(SubdomainsConfig::default());
    let entry = settings(Some("z1"), Some(false), Some(false));
    assert_eq!(
        client.commit_record("home", &entry),
        Progress::Ask(Request::ZoneDetails { zone_id: String::from("z1") })
    );
    assert_eq!(
        client.resume(Reply::ZoneName(String::from("example.com"))),
        done(Outcome::Skipped, Outcome::Skipped)
    );
    assert_eq!(client.commit_record("other", &entry), done(Outcome::Skipped, Outcome::Skipped));
    assert_eq!(client.get_ip(IP::V4), None);
    assert_eq!(client.get_ip(IP::V6), None);
}

#[test]
fn zone_and_address_are_looked_up_once() {
    let mut client = client_with(settings(Some("z1"), None, None));
    let entry = SubdomainsConfig::default();
    assert_eq!(client.get_zone_details("z1"), None);
    client.commit_record("a", &entry);
    client.resume(Reply::ZoneName(String::from("example.com")));
    client.resume(Reply::Records(Vec::new()));
    client.resume(trace("203.0.113.7"));
    assert_eq!(client.resume(Reply::Written), done(Outcome::Created, Outcome::Skipped));
    assert_eq!(client.get_zone_details("z1"), Some(String::from("example.com")));
    assert_eq!(client.get_ip(IP::V4), Some(String::from("203.0.113.7")));
    assert_eq!(client.get_ip(IP::V6), None);

    assert_eq!(client.commit_record("b", &entry), list("z1", "b.example.com"));
    assert_eq!(
        client.resume(Reply::Records(Vec::new())),
        create("z1", "b.example.com", IP::V4, "203.0.113.7", true, 1)
    );
    assert_eq!(client.resume(Reply::Written), done(Outcome::Created, Outcome::Skipped));

    assert_eq!(client.commit_record("c", &entry), list("z1", "c.example.com"));
    assert_eq!(
        client.resume(Reply::Records(vec![record("r9", RecordType::A, "203.0.113.7", true, 1)])),
        done(Outcome::Unchanged, Outcome::Skipped)
    );
}

#[test]
fn another_zone_is_looked_up_of_its_own() {
    let mut client = client_with(settings(Some("z1"), None, None));
    client.commit_record("a", &SubdomainsConfig::default());
    client.resume(Reply::ZoneName(String::from("example.com")));
    assert_eq!(
        client.commit_record("a", &settings(Some("z2"), None, None)),
        Progress::Ask(Request::ZoneDetails { zone_id: String::from("z2") })
    );
    assert_eq!(client.resume(Reply::ZoneName(String::from("example.org"))), list("z2", "a.example.org"));
    assert_eq!(client.get_zone_details("z1"), Some(String::from("example.com")));
    assert_eq!(client.get_zone_details("z2"), Some(String::from("example.org")));
}

#[test]
fn both_families_in_order() {
    let mut client = client_with(settings(Some("z1"), Some(true), Some(true)));
    client.commit_record("@", &SubdomainsConfig::default());
    assert_eq!(client.resume(Reply::ZoneName(String::from("example.com"))), list("z1", "example.com"));
    let records = vec![
        record("t1", RecordType::Other, "v=spf1 -all", false, 1),
        record("r6", RecordType::AAAA, "2001:db8::1", true, 1),
        record("r4", RecordType::A, "198.51.100.1", true, 1),
    ];
    assert_eq!(
        client.resume(Reply::Records(records)),
        Progress::Ask(Request::PublicIp { version: IP::V4 })
    );
    assert_eq!(
        client.resume(trace("203.0.113.7")),
        update("z1", "r4", "example.com", IP::V4, "203.0.113.7", true, 1)
    );
    assert_eq!(
        client.resume(Reply::Written),
        Progress::Ask(Request::PublicIp { version: IP::V6 })
    );
    assert_eq!(client.resume(trace("2001:db8::1")), done(Outcome::Updated, Outcome::Unchanged));
}

#[test]
fn first_record_of_a_type_counts() {
    let mut client = client_with(settings(Some("z1"), None, None));
    client.commit_record("www", &SubdomainsConfig::default());
    client.resume(Reply::ZoneName(String::from("example.com")));
    let records = vec![
        record("first", RecordType::A, "198.51.100.1", true, 1),
        record("second", RecordType::A, "203.0.113.7", true, 1),
    ];
    client.resume(Reply::Records(records));
    assert_eq!(
        client.resume(trace("203.0.113.7")),
        update("z1", "first", "www.example.com", IP::V4, "203.0.113.7", true, 1)
    );
}

#[test]
fn entry_settings_go_before_global_ones() {
    let mut global = settings(Some("z1"), Some(false), Some(true));
    global.ttl = Some(120);
    global.proxied = Some(false);
    let mut client = client_with(global);
    let mut entry = settings(Some("z2"), None, None);
    entry.ttl = Some(600);
    assert_eq!(
        client.commit_record("v6", &entry),
        Progress::Ask(Request::ZoneDetails { zone_id: String::from("z2") })
    );
    client.resume(Reply::ZoneName(String::from("example.net")));
    assert_eq!(
        client.resume(Reply::Records(Vec::new())),
        Progress::Ask(Request::PublicIp { version: IP::V6 })
    );
    assert_eq!(
        client.resume(trace("2001:db8::7")),
        create("z2", "v6.example.net", IP::V6, "2001:db8::7", false, 600)
    );
    assert_eq!(client.resume(Reply::Written), done(Outcome::Skipped, Outcome::Created));
}

#[test]
fn failures_end_the_hostname() {
    let mut client = client_with(settings(Some("z1"), None, None));
    let entry = SubdomainsConfig::default();
    client.commit_record("www", &entry);
    assert_eq!(
        client.resume(Reply::Failed(Failure::Api)),
        Progress::Failed(Error::ZoneDetails { zone_id: String::from("z1"), failure: Failure::Api })
    );
    assert_eq!(client.get_zone_details("z1"), None);
    assert_eq!(
        client.commit_record("www", &entry),
        Progress::Ask(Request::ZoneDetails { zone_id: String::from("z1") })
    );
    client.resume(Reply::ZoneName(String::from("example.com")));
    assert_eq!(
        client.resume(Reply::Failed(Failure::Network)),
        Progress::Failed(Error::ListRecords {
            zone_id: String::from("z1"),
            name: String::from("www.example.com"),
            failure: Failure::Network,
        })
    );
    client.commit_record("www", &entry);
    client.resume(Reply::Records(Vec::new()));
    assert_eq!(
        client.resume(Reply::Trace(Fetched::ConnectFailed)),
        Progress::Failed(Error::Connect { version: IP::V4 })
    );
    assert_eq!(client.get_ip(IP::V4), None);
    client.commit_record("www", &entry);
    assert_eq!(
        client.resume(Reply::Records(Vec::new())),
        Progress::Ask(Request::PublicIp { version: IP::V4 })
    );
    client.resume(trace("203.0.113.7"));
    assert_eq!(
        client.resume(Reply::Failed(Failure::Api)),
        Progress::Failed(Error::CreateRecord {
            version: IP::V4,
            name: String::from("www.example.com"),
            failure: Failure::Api,
        })
    );
    client.commit_record("www", &entry);
    client.resume(Reply::Records(vec![record("r1", RecordType::A, "198.51.100.1", true, 1)]));
    assert_eq!(
        client.resume(Reply::Failed(Failure::Network)),
        Progress::Failed(Error::UpdateRecord {
            version: IP::V4,
            name: String::from("www.example.com"),
            failure: Failure::Network,
        })
    );
}

#[test]
fn answer_that_does_not_fit_is_refused() {
    let mut client = client_with(settings(Some("z1"), None, None));
    assert_eq!(client.resume(Reply::Written), Progress::Failed(Error::UnexpectedReply));
    client.commit_record("www", &SubdomainsConfig::default());
    assert_eq!(
        client.resume(Reply::Records(Vec::new())),
        Progress::Failed(Error::UnexpectedReply)
    );
    assert_eq!(
        client.resume(Reply::ZoneName(String::from("example.com"))),
        Progress::Failed(Error::UnexpectedReply)
    );
}

#[test]
fn list_request_asks_for_a_hundred_records() {
    assert_eq!(
        Client::get_dns_records("z1", "home.example.com"),
        Request::ListRecords {
            zone_id: String::from("z1"),
            name: String::from("home.example.com"),
            per_page: 100,
        }
    );
}

#[test]
fn failure_of_the_second_family_comes_after_the_first_is_written() {
    let mut client = client_with(settings(Some("z1"), Some(true), Some(true)));
    client.commit_record("home", &SubdomainsConfig::default());
    client.resume(Reply::ZoneName(String::from("example.com")));
    client.resume(Reply::Records(Vec::new()));
    assert_eq!(
        client.resume(trace("203.0.113.7")),
        create("z1", "home.example.com", IP::V4, "203.0.113.7", true, 1)
    );
    assert_eq!(
        client.resume(Reply::Written),
        Progress::Ask(Request::PublicIp { version: IP::V6 })
    );
    assert_eq!(
        client.resume(Reply::Trace(Fetched::ConnectFailed)),
        Progress::Failed(Error::Connect { version: IP::V6 })
    );
    assert_eq!(client.get_ip(IP::V4), Some(String::from("203.0.113.7")));
    assert_eq!(client.get_ip(IP::V6), None);
    assert_eq!(client.resume(Reply::Written), Progress::Failed(Error::UnexpectedReply));
}

#[test]
fn zone_of_the_entry_goes_before_the_global_one() {
    let mut client = client_with(settings(Some("global"), Some(false), Some(false)));
    assert_eq!(
        client.commit_record("a", &settings(Some("own"), None, None)),
        Progress::Ask(Request::ZoneDetails { zone_id: String::from("own") })
    );
    assert_eq!(
        client.commit_record("a", &SubdomainsConfig::default()),
        Progress::Ask(Request::ZoneDetails { zone_id: String::from("global") })
    );
}
