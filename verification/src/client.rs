//! The reconciler: for one hostname at a time it decides which requests are
//! to be made, and what their answers mean. The caller makes the requests.

use vstd::prelude::*;
use crate::cache::ZoneNames;
use crate::config::{Config, ConfigView, SubdomainsConfig, SubdomainsView};
use crate::error::{Error, ErrorView, Failure};
use crate::record::{
    record_type, records_view, DnsRecord, Outcome, Outcomes, Progress, ProgressView, RecordType,
    RecordView, Reply, ReplyView, Request, RequestView,
};
use crate::text::{clone_opt, first_of, fqdn, fqdn_of, opt_view, resolve, resolved};
use crate::util::{get_ip, ip_of, IP};

verus! {

/// The effective settings of a hostname, but for its zone.
#[derive(Debug, Clone, Copy, PartialEq, Eq, Structural)]
pub struct Settings {
    /// Whether an IPv4 record is kept.
    pub use_a: bool,
    /// Whether an IPv6 record is kept.
    pub use_aaaa: bool,
    /// Whether records are proxied.
    pub proxied: bool,
    /// Time to live in seconds; 1 means automatic.
    pub ttl: u32,
}

impl Settings {
    /// Whether a record of this family is kept.
    pub open spec fn wants(self, version: IP) -> bool {
        match version {
            IP::V4 => self.use_a,
            IP::V6 => self.use_aaaa,
        }
    }
}

/// The effective settings of a hostname: its own where set, else the global
/// ones where set, else the built-in defaults, which are an IPv4 record and no
/// IPv6 record, proxied, with the automatic time to live.
pub open spec fn settings_of(entry: SubdomainsView, global: SubdomainsView) -> Settings {
    Settings {
        use_a: resolved(entry.a, global.a, true),
        use_aaaa: resolved(entry.aaaa, global.aaaa, false),
        proxied: resolved(entry.proxied, global.proxied, true),
        ttl: resolved(entry.ttl, global.ttl, 1u32),
    }
}

/// The effective zone of a hostname: its own, else the global one. It is
/// meant for settings of which one names a zone.
pub open spec fn zone_of(entry: SubdomainsView, global: SubdomainsView) -> Seq<char> {
    first_of(entry.zone_id, global.zone_id).unwrap()
}

/// A hostname whose records are known, on its way through the families.
#[derive(Debug, PartialEq, Eq)]
pub struct Job {
    pub zone_id: String,
    pub fqdn: String,
    pub settings: Settings,
    pub records: Vec<DnsRecord>,
    pub outcomes: Outcomes,
}

/// The mathematical value of a [`Job`].
pub ghost struct JobView {
    pub zone_id: Seq<char>,
    pub fqdn: Seq<char>,
    pub settings: Settings,
    pub records: Seq<RecordView>,
    pub outcomes: Outcomes,
}

impl JobView {
    /// This job with the outcome of one family set.
    pub open spec fn with(self, version: IP, outcome: Outcome) -> JobView {
        JobView { outcomes: self.outcomes.with(version, outcome), ..self }
    }
}

impl View for Job {
    type V = JobView;

    open spec fn view(&self) -> JobView {
        JobView {
            zone_id: self.zone_id@,
            fqdn: self.fqdn@,
            settings: self.settings,
            records: records_view(self.records@),
            outcomes: self.outcomes,
        }
    }
}

/// The request whose answer the reconciler waits for.
#[derive(Debug, PartialEq, Eq)]
pub enum Pending {
    /// None: no hostname is being reconciled.
    Idle,
    /// The base domain of the hostname's zone.
    Zone { zone_id: String, name: String, settings: Settings },
    /// The records under the hostname's full name.
    Records { zone_id: String, fqdn: String, settings: Settings },
    /// The public address of a family.
    Address { job: Job, version: IP },
    /// The creation or the update of the record of a family.
    Write { job: Job, version: IP, outcome: Outcome },
}

/// The mathematical value of a [`Pending`].
pub ghost enum PendingView {
    Idle,
    Zone { zone_id: Seq<char>, name: Seq<char>, settings: Settings },
    Records { zone_id: Seq<char>, fqdn: Seq<char>, settings: Settings },
    Address { job: JobView, version: IP },
    Write { job: JobView, version: IP, outcome: Outcome },
}

impl View for Pending {
    type V = PendingView;

    open spec fn view(&self) -> PendingView {
        match *self {
            Pending::Idle => PendingView::Idle,
            Pending::Zone { zone_id, name, settings } => PendingView::Zone {
                zone_id: zone_id@,
                name: name@,
                settings,
            },
            Pending::Records { zone_id, fqdn, settings } => PendingView::Records {
                zone_id: zone_id@,
                fqdn: fqdn@,
                settings,
            },
            Pending::Address { job, version } => PendingView::Address { job: job@, version },
            Pending::Write { job, version, outcome } => PendingView::Write {
                job: job@,
                version,
                outcome,
            },
        }
    }
}

/// The public addresses that were looked up during a run.
pub ghost struct Addresses {
    pub v4: Option<Seq<char>>,
    pub v6: Option<Seq<char>>,
}

impl Addresses {
    /// The address that is remembered for a family.
    pub open spec fn of(self, version: IP) -> Option<Seq<char>> {
        match version {
            IP::V4 => self.v4,
            IP::V6 => self.v6,
        }
    }

    /// These addresses with that of one family set.
    pub open spec fn with(self, version: IP, address: Seq<char>) -> Addresses {
        match version {
            IP::V4 => Addresses { v4: Some(address), v6: self.v6 },
            IP::V6 => Addresses { v4: self.v4, v6: Some(address) },
        }
    }
}

/// The mathematical value of a [`Client`].
pub ghost struct ClientView {
    /// The configuration of the run.
    pub config: ConfigView,
    /// The base domains that were looked up, by zone.
    pub zones: Map<Seq<char>, Seq<char>>,
    /// The public addresses that were looked up.
    pub addresses: Addresses,
    /// The request whose answer is waited for.
    pub pending: PendingView,
}

impl ClientView {
    /// This state with another pending request.
    pub open spec fn waiting(self, pending: PendingView) -> ClientView {
        ClientView { pending, ..self }
    }

    /// What is waited for is not remembered yet. This holds of a new
    /// reconciler, and every step keeps it.
    pub open spec fn wf(self) -> bool {
        match self.pending {
            PendingView::Zone { zone_id, .. } => !self.zones.contains_key(zone_id),
            PendingView::Address { version, .. } => self.addresses.of(version) is None,
            _ => true,
        }
    }
}

/// The index of the first record of a type at or after `from`, or the number
/// of records where none follows.
pub open spec fn first_index(records: Seq<RecordView>, kind: RecordType, from: int) -> int
    decreases records.len() - from,
{
    if from < 0 || from >= records.len() {
        records.len() as int
    } else if records[from].kind == kind {
        from
    } else {
        first_index(records, kind, from + 1)
    }
}

/// The first record of a type, in the provider's order.
pub open spec fn first_record(records: Seq<RecordView>, kind: RecordType) -> Option<RecordView> {
    let i = first_index(records, kind, 0);
    if i < records.len() {
        Some(records[i])
    } else {
        None
    }
}

/// Whether a record is as wanted already: proxy flag, address and time to
/// live all agree.
pub open spec fn matches_desired(record: RecordView, settings: Settings, address: Seq<char>) -> bool {
    record.proxied == settings.proxied && record.content == address && record.ttl == settings.ttl
}

/// The request that makes the record of a family.
pub open spec fn create_request(job: JobView, version: IP, address: Seq<char>) -> RequestView {
    RequestView::CreateRecord {
        zone_id: job.zone_id,
        name: job.fqdn,
        version,
        content: address,
        proxied: job.settings.proxied,
        ttl: job.settings.ttl,
    }
}

/// The request that brings a record of a family to the wanted state.
pub open spec fn update_request(
    job: JobView,
    version: IP,
    record: RecordView,
    address: Seq<char>,
) -> RequestView {
    RequestView::UpdateRecord {
        zone_id: job.zone_id,
        record_id: record.id,
        name: job.fqdn,
        version,
        content: address,
        proxied: job.settings.proxied,
        ttl: job.settings.ttl,
    }
}

/// How many families come after this one.
pub open spec fn families_after(version: IP) -> nat {
    match version {
        IP::V4 => 1,
        IP::V6 => 0,
    }
}

/// What follows once the public address of a family is known. Without a
/// record of the family's type, one is created. The first such record, where
/// it is as wanted, is left alone, and else updated.
pub open spec fn with_address(
    addresses: Addresses,
    job: JobView,
    version: IP,
    address: Seq<char>,
) -> (PendingView, ProgressView)
    decreases families_after(version), 1nat,
{
    match first_record(job.records, record_type(version)) {
        None => (
            PendingView::Write { job, version, outcome: Outcome::Created },
            ProgressView::Ask(create_request(job, version, address)),
        ),
        Some(record) => if matches_desired(record, job.settings, address) {
            family_done(addresses, job.with(version, Outcome::Unchanged), version)
        } else {
            (
                PendingView::Write { job, version, outcome: Outcome::Updated },
                ProgressView::Ask(update_request(job, version, record, address)),
            )
        },
    }
}

/// What follows once a family is dealt with: the IPv6 family after the IPv4
/// one, and the end after that.
pub open spec fn family_done(addresses: Addresses, job: JobView, version: IP) -> (
    PendingView,
    ProgressView,
)
    decreases families_after(version), 0nat,
{
    match version {
        IP::V4 => from_family(addresses, job, IP::V6),
        IP::V6 => (PendingView::Idle, ProgressView::Done(job.outcomes)),
    }
}

/// What follows when a family's turn comes. A family that is not asked for is
/// skipped. Else the public address is needed: the remembered one, or the
/// answer of the echo service.
pub open spec fn from_family(addresses: Addresses, job: JobView, version: IP) -> (
    PendingView,
    ProgressView,
)
    decreases families_after(version), 2nat,
{
    if !job.settings.wants(version) {
        family_done(addresses, job.with(version, Outcome::Skipped), version)
    } else {
        match addresses.of(version) {
            Some(address) => with_address(addresses, job, version, address),
            None => (
                PendingView::Address { job, version },
                ProgressView::Ask(RequestView::PublicIp { version }),
            ),
        }
    }
}

/// The outcomes of a hostname of which no family is asked for.
pub open spec fn all_skipped() -> Outcomes {
    Outcomes { a: Outcome::Skipped, aaaa: Outcome::Skipped }
}

/// How many records one listing asks for.
pub const PER_PAGE: u32 = 100;

/// What follows once the base domain of the hostname's zone is known. With
/// no family asked for, the hostname is done. Else the records under its full
/// name are asked for.
pub open spec fn zone_known(zone_id: Seq<char>, name: Seq<char>, settings: Settings, base: Seq<char>) -> (
    PendingView,
    ProgressView,
) {
    if !settings.use_a && !settings.use_aaaa {
        (PendingView::Idle, ProgressView::Done(all_skipped()))
    } else {
        (
            PendingView::Records { zone_id, fqdn: fqdn_of(name, base), settings },
            ProgressView::Ask(
                RequestView::ListRecords { zone_id, name: fqdn_of(name, base), per_page: PER_PAGE },
            ),
        )
    }
}

/// The state and the step that follow when the reconciliation of a hostname
/// begins. The base domain of its zone is needed first: the remembered one,
/// or the provider's answer.
pub open spec fn begin(client: ClientView, name: Seq<char>, entry: SubdomainsView) -> (
    ClientView,
    ProgressView,
) {
    let zone_id = zone_of(entry, client.config.defaults);
    let settings = settings_of(entry, client.config.defaults);
    if client.zones.contains_key(zone_id) {
        let (pending, progress) = zone_known(zone_id, name, settings, client.zones[zone_id]);
        (client.waiting(pending), progress)
    } else {
        (
            client.waiting(PendingView::Zone { zone_id, name, settings }),
            ProgressView::Ask(RequestView::ZoneDetails { zone_id }),
        )
    }
}

/// The error that a failed write stands for.
pub open spec fn write_error(job: JobView, version: IP, outcome: Outcome, failure: Failure) -> ErrorView {
    if outcome == Outcome::Created {
        ErrorView::CreateRecord { version, name: job.fqdn, failure }
    } else {
        ErrorView::UpdateRecord { version, name: job.fqdn, failure }
    }
}

/// The state and the step that follow an answer. A failure ends the
/// hostname's reconciliation, and so does an answer that does not fit the
/// request. Answers that succeed are remembered where they are a zone's base
/// domain or a public address.
pub open spec fn answer(client: ClientView, reply: ReplyView) -> (ClientView, ProgressView) {
    match (client.pending, reply) {
        (PendingView::Zone { zone_id, name, settings }, ReplyView::ZoneName(base)) => {
            let (pending, progress) = zone_known(zone_id, name, settings, base);
            (
                ClientView { zones: client.zones.insert(zone_id, base), pending, ..client },
                progress,
            )
        },
        (PendingView::Zone { zone_id, .. }, ReplyView::Failed(failure)) => (
            client.waiting(PendingView::Idle),
            ProgressView::Failed(ErrorView::ZoneDetails { zone_id, failure }),
        ),
        (PendingView::Records { zone_id, fqdn, settings }, ReplyView::Records(records)) => {
            let job = JobView { zone_id, fqdn, settings, records, outcomes: all_skipped() };
            let (pending, progress) = from_family(client.addresses, job, IP::V4);
            (client.waiting(pending), progress)
        },
        (PendingView::Records { zone_id, fqdn, .. }, ReplyView::Failed(failure)) => (
            client.waiting(PendingView::Idle),
            ProgressView::Failed(ErrorView::ListRecords { zone_id, name: fqdn, failure }),
        ),
        (PendingView::Address { job, version }, ReplyView::Trace(fetched)) => match ip_of(
            version,
            fetched,
        ) {
            Err(e) => (client.waiting(PendingView::Idle), ProgressView::Failed(e)),
            Ok(address) => {
                let addresses = client.addresses.with(version, address);
                let (pending, progress) = with_address(addresses, job, version, address);
                (ClientView { addresses, pending, ..client }, progress)
            },
        },
        (PendingView::Write { job, version, outcome }, ReplyView::Written) => {
            let (pending, progress) = family_done(
                client.addresses,
                job.with(version, outcome),
                version,
            );
            (client.waiting(pending), progress)
        },
        (PendingView::Write { job, version, outcome }, ReplyView::Failed(failure)) => (
            client.waiting(PendingView::Idle),
            ProgressView::Failed(write_error(job, version, outcome, failure)),
        ),
        _ => (client.waiting(PendingView::Idle), ProgressView::Failed(ErrorView::UnexpectedReply)),
    }
}

/// The reconciler of a run. It owns the memo of zone names and the memo of
/// public addresses; both last as long as it does.
#[derive(Debug, PartialEq, Eq)]
pub struct Client {
    /// The configuration of the run.
    pub config: Config,
    zone_id_cache: ZoneNames,
    ip_cache_v4: Option<String>,
    ip_cache_v6: Option<String>,
    pending: Pending,
}

impl View for Client {
    type V = ClientView;

    closed spec fn view(&self) -> ClientView {
        ClientView {
            config: self.config@,
            zones: self.zone_id_cache@,
            addresses: Addresses { v4: opt_view(self.ip_cache_v4), v6: opt_view(self.ip_cache_v6) },
            pending: self.pending@,
        }
    }
}

/// The index of the first record of a type, or the number of records where
/// there is none.
fn find_record(records: &Vec<DnsRecord>, kind: RecordType) -> (i: usize)
    ensures
        i == first_index(records_view(records@), kind, 0),
        i <= records.len(),
{
    let mut i: usize = 0;
    while i < records.len() && records[i].kind != kind
        invariant
            i <= records.len(),
            first_index(records_view(records@), kind, i as int) == first_index(
                records_view(records@),
                kind,
                0,
            ),
        decreases records.len() - i,
    {
        i += 1;
    }
    i
}

fn set_outcome(outcomes: Outcomes, version: IP, outcome: Outcome) -> (r: Outcomes)
    ensures
        r == outcomes.with(version, outcome),
{
    match version {
        IP::V4 => Outcomes { a: outcome, aaaa: outcomes.aaaa },
        IP::V6 => Outcomes { a: outcomes.a, aaaa: outcome },
    }
}

fn record_kind(version: IP) -> (kind: RecordType)
    ensures
        kind == record_type(version),
{
    match version {
        IP::V4 => RecordType::A,
        IP::V6 => RecordType::AAAA,
    }
}

/// What follows once the public address of a family is known.
fn proceed_with_address(
    v4: &Option<String>,
    v6: &Option<String>,
    job: Job,
    version: IP,
    address: &String,
) -> (next: (Pending, Progress))
    ensures
        (next.0@, next.1@) == with_address(
            Addresses { v4: opt_view(*v4), v6: opt_view(*v6) },
            job@,
            version,
            address@,
        ),
    decreases families_after(version), 1nat,
{
    let i: usize = find_record(&job.records, record_kind(version));
    if i == job.records.len() {
        let request = Request::CreateRecord {
            zone_id: job.zone_id.clone(),
            name: job.fqdn.clone(),
            version,
            content: address.clone(),
            proxied: job.settings.proxied,
            ttl: job.settings.ttl,
        };
        (Pending::Write { job, version, outcome: Outcome::Created }, Progress::Ask(request))
    } else {
        assert(records_view(job.records@)[i as int] == job.records@[i as int]@);
        let as_wanted = job.records[i].proxied == job.settings.proxied && job.records[i].content
            == *address && job.records[i].ttl == job.settings.ttl;
        if as_wanted {
            let outcomes = set_outcome(job.outcomes, version, Outcome::Unchanged);
            let job = Job { outcomes, ..job };
            proceed_after(v4, v6, job, version)
        } else {
            let request = Request::UpdateRecord {
                zone_id: job.zone_id.clone(),
                record_id: job.records[i].id.clone(),
                name: job.fqdn.clone(),
                version,
                content: address.clone(),
                proxied: job.settings.proxied,
                ttl: job.settings.ttl,
            };
            (Pending::Write { job, version, outcome: Outcome::Updated }, Progress::Ask(request))
        }
    }
}

/// What follows once a family is dealt with.
fn proceed_after(v4: &Option<String>, v6: &Option<String>, job: Job, version: IP) -> (next: (
    Pending,
    Progress,
))
    ensures
        (next.0@, next.1@) == family_done(
            Addresses { v4: opt_view(*v4), v6: opt_view(*v6) },
            job@,
            version,
        ),
    decreases families_after(version), 0nat,
{
    match version {
        IP::V4 => proceed_from(v4, v6, job, IP::V6),
        IP::V6 => (Pending::Idle, Progress::Done(job.outcomes)),
    }
}

/// What follows when a family's turn comes.
fn proceed_from(v4: &Option<String>, v6: &Option<String>, job: Job, version: IP) -> (next: (
    Pending,
    Progress,
))
    ensures
        (next.0@, next.1@) == from_family(
            Addresses { v4: opt_view(*v4), v6: opt_view(*v6) },
            job@,
            version,
        ),
    decreases families_after(version), 2nat,
{
    let wanted = match version {
        IP::V4 => job.settings.use_a,
        IP::V6 => job.settings.use_aaaa,
    };
    if !wanted {
        let outcomes = set_outcome(job.outcomes, version, Outcome::Skipped);
        let job = Job { outcomes, ..job };
        proceed_after(v4, v6, job, version)
    } else {
        let known = match version {
            IP::V4 => v4,
            IP::V6 => v6,
        };
        match known {
            Some(address) => proceed_with_address(v4, v6, job, version, address),
            None => (Pending::Address { job, version }, Progress::Ask(Request::PublicIp { version })),
        }
    }
}

/// What follows once the base domain of the hostname's zone is known.
fn proceed_in_zone(zone_id: String, name: String, settings: Settings, base: &String) -> (next: (
    Pending,
    Progress,
))
    ensures
        (next.0@, next.1@) == zone_known(zone_id@, name@, settings, base@),
{
    if !settings.use_a && !settings.use_aaaa {
        (
            Pending::Idle,
            Progress::Done(Outcomes { a: Outcome::Skipped, aaaa: Outcome::Skipped }),
        )
    } else {
        let full = fqdn(name.as_str(), base.as_str());
        let request = Client::get_dns_records(zone_id.as_str(), full.as_str());
        (Pending::Records { zone_id, fqdn: full, settings }, Progress::Ask(request))
    }
}

impl Client {
    /// A reconciler for a run under this configuration, with nothing
    /// remembered and no hostname in work.
    pub fn new(config: Config) -> (client: Client)
        ensures
            client@ == (ClientView {
                config: config@,
                zones: Map::<Seq<char>, Seq<char>>::empty(),
                addresses: Addresses { v4: None, v6: None },
                pending: PendingView::Idle,
            }),
            client@.wf(),
    {
        Client {
            config,
            zone_id_cache: ZoneNames::new(),
            ip_cache_v4: None,
            ip_cache_v6: None,
            pending: Pending::Idle,
        }
    }

    /// The public address of a family, where it was looked up before in this
    /// run.
    pub fn get_ip(&self, version: IP) -> (address: Option<String>)
        ensures
            opt_view(address) == self@.addresses.of(version),
    {
        match version {
            IP::V4 => clone_opt(&self.ip_cache_v4),
            IP::V6 => clone_opt(&self.ip_cache_v6),
        }
    }

    /// The base domain of a zone, where it was looked up before in this run.
    pub fn get_zone_details(&self, zone_id: &str) -> (base: Option<String>)
        ensures
            base is Some <==> self@.zones.contains_key(zone_id@),
            base matches Some(name) ==> self@.zones[zone_id@] == name@,
    {
        self.zone_id_cache.get(zone_id)
    }

    /// The request for the records under a full name, of every type.
    pub fn get_dns_records(zone_id: &str, fqdn: &str) -> (request: Request)
        ensures
            request@ == (RequestView::ListRecords {
                zone_id: zone_id@,
                name: fqdn@,
                per_page: PER_PAGE,
            }),
    {
        Request::ListRecords { zone_id: zone_id.to_owned(), name: fqdn.to_owned(), per_page: PER_PAGE }
    }
}

impl Client {
    /// Begins the reconciliation of a hostname, which replaces any that was
    /// in work. One of the two settings must name a zone.
    pub fn commit_record(&mut self, subdomain: &str, config: &SubdomainsConfig) -> (progress:
        Progress)
        requires
            first_of(config@.zone_id, old(self)@.config.defaults.zone_id) is Some,
        ensures
            (final(self)@, progress@) == begin(old(self)@, subdomain@, config@),
    {
        let global = &self.config.subdomains_config;
        let zone_id: String = match &config.zone_id {
            Some(zone_id) => zone_id.clone(),
            None => global.zone_id.as_ref().unwrap().clone(),
        };
        let settings = Settings {
            use_a: resolve(config.a, global.a, true),
            use_aaaa: resolve(config.aaaa, global.aaaa, false),
            proxied: resolve(config.proxied, global.proxied, true),
            ttl: resolve(config.ttl, global.ttl, 1u32),
        };
        let name: String = subdomain.to_owned();
        let (pending, progress) = match self.zone_id_cache.get(zone_id.as_str()) {
            Some(base) => proceed_in_zone(zone_id, name, settings, &base),
            None => {
                let request = Request::ZoneDetails { zone_id: zone_id.clone() };
                (Pending::Zone { zone_id, name, settings }, Progress::Ask(request))
            },
        };
        self.pending = pending;
        progress
    }

    /// Takes the answer to the request that was asked last, and says what
    /// follows.
    pub fn resume(&mut self, reply: Reply) -> (progress: Progress)
        ensures
            (final(self)@, progress@) == answer(old(self)@, reply@),
    {
        let mut pending = Pending::Idle;
        core::mem::swap(&mut self.pending, &mut pending);
        let (pending, progress) = match (pending, reply) {
            (Pending::Zone { zone_id, name, settings }, Reply::ZoneName(base)) => {
                self.zone_id_cache.insert(zone_id.clone(), base.clone());
                proceed_in_zone(zone_id, name, settings, &base)
            },
            (Pending::Zone { zone_id, .. }, Reply::Failed(failure)) => (
                Pending::Idle,
                Progress::Failed(Error::ZoneDetails { zone_id, failure }),
            ),
            (Pending::Records { zone_id, fqdn, settings }, Reply::Records(records)) => {
                let job = Job {
                    zone_id,
                    fqdn,
                    settings,
                    records,
                    outcomes: Outcomes { a: Outcome::Skipped, aaaa: Outcome::Skipped },
                };
                proceed_from(&self.ip_cache_v4, &self.ip_cache_v6, job, IP::V4)
            },
            (Pending::Records { zone_id, fqdn, .. }, Reply::Failed(failure)) => (
                Pending::Idle,
                Progress::Failed(Error::ListRecords { zone_id, name: fqdn, failure }),
            ),
            (Pending::Address { job, version }, Reply::Trace(fetched)) => match get_ip(
                version,
                fetched,
            ) {
                Err(e) => (Pending::Idle, Progress::Failed(e)),
                Ok(address) => {
                    match version {
                        IP::V4 => {
                            self.ip_cache_v4 = Some(address.clone());
                        },
                        IP::V6 => {
                            self.ip_cache_v6 = Some(address.clone());
                        },
                    }
                    proceed_with_address(
                        &self.ip_cache_v4,
                        &self.ip_cache_v6,
                        job,
                        version,
                        &address,
                    )
                },
            },
            (Pending::Write { job, version, outcome }, Reply::Written) => {
                let outcomes = set_outcome(job.outcomes, version, outcome);
                let job = Job { outcomes, ..job };
                proceed_after(&self.ip_cache_v4, &self.ip_cache_v6, job, version)
            },
            (Pending::Write { job, version, outcome }, Reply::Failed(failure)) => {
                let error = if outcome == Outcome::Created {
                    Error::CreateRecord { version, name: job.fqdn, failure }
                } else {
                    Error::UpdateRecord { version, name: job.fqdn, failure }
                };
                (Pending::Idle, Progress::Failed(error))
            },
            _ => (Pending::Idle, Progress::Failed(Error::UnexpectedReply)),
        };
        self.pending = pending;
        progress
    }
}

/// The outcome that stands for a family after a step: in the final outcomes,
/// or in the job that is still in work.
pub open spec fn recorded(next: (PendingView, ProgressView), version: IP) -> Option<Outcome> {
    match next.1 {
        ProgressView::Done(outcomes) => Some(outcomes.of(version)),
        ProgressView::Failed(_) => None,
        ProgressView::Ask(_) => match next.0 {
            PendingView::Address { job, .. } => Some(job.outcomes.of(version)),
            PendingView::Write { job, .. } => Some(job.outcomes.of(version)),
            _ => None,
        },
    }
}

/// Whether a step asks for a write to the record of a family.
pub open spec fn writes(next: (PendingView, ProgressView), version: IP) -> bool {
    next.1 matches ProgressView::Ask(request) && request.writes_family(version)
}

/// The turn of the last family leaves the outcome of the first as it is,
/// and writes nothing to the first family's record.
proof fn lemma_last_family(addresses: Addresses, job: JobView)
    ensures
        recorded(from_family(addresses, job, IP::V6), IP::V4) == Some(job.outcomes.a),
        !writes(from_family(addresses, job, IP::V6), IP::V4),
{
    reveal_with_fuel(from_family, 2);
    reveal_with_fuel(with_address, 2);
    reveal_with_fuel(family_done, 2);
}

/// Once a family is dealt with, its outcome stands, and nothing is written
/// to its record any more.
pub proof fn lemma_outcome_stands(addresses: Addresses, job: JobView, version: IP)
    ensures
        recorded(family_done(addresses, job, version), version) == Some(job.outcomes.of(version)),
        !writes(family_done(addresses, job, version), version),
{
    if version == IP::V4 {
        lemma_last_family(addresses, job);
    }
}

/// The first record of a type is of that type, and no record before it is.
pub proof fn lemma_first_index(records: Seq<RecordView>, kind: RecordType, from: int)
    requires
        0 <= from <= records.len(),
    ensures
        from <= first_index(records, kind, from) <= records.len(),
        first_index(records, kind, from) < records.len() ==> records[first_index(
            records,
            kind,
            from,
        )].kind == kind,
        forall|j: int| from <= j < first_index(records, kind, from) ==> records[j].kind != kind,
    decreases records.len() - from,
{
    if from < records.len() && records[from].kind != kind {
        lemma_first_index(records, kind, from + 1);
    }
}

/// Where several records have the wanted type, the one that the provider
/// lists first is the one that is looked at: `first_record` gives a record of
/// the type exactly where the list holds one, and none of that type stands
/// before it.
pub proof fn law_first_record_in_order(records: Seq<RecordView>, kind: RecordType)
    ensures
        first_record(records, kind) is None <==> forall|j: int|
            0 <= j < records.len() ==> records[j].kind != kind,
        first_record(records, kind) matches Some(record) ==> exists|i: int|
            0 <= i < records.len() && records[i] == record && record.kind == kind && forall|j: int|
                0 <= j < i ==> records[j].kind != kind,
{
    lemma_first_index(records, kind, 0);
    let i = first_index(records, kind, 0);
    if i < records.len() {
        assert(0 <= i < records.len() && records[i] == records[i] && records[i].kind == kind
            && forall|j: int| 0 <= j < i ==> records[j].kind != kind);
    }
}

/// A record that is as wanted already is left alone: where the first record
/// of the family's type agrees with the wanted proxy flag, address and time
/// to live, no write to this family's record is asked for, now or later, and
/// the family's outcome is `Unchanged`.
pub proof fn law_unchanged_record_is_left_alone(
    addresses: Addresses,
    job: JobView,
    version: IP,
    address: Seq<char>,
    record: RecordView,
)
    requires
        first_record(job.records, record_type(version)) == Some(record),
        matches_desired(record, job.settings, address),
    ensures
        !writes(with_address(addresses, job, version, address), version),
        recorded(with_address(addresses, job, version, address), version) == Some(
            Outcome::Unchanged,
        ),
{
    lemma_outcome_stands(addresses, job.with(version, Outcome::Unchanged), version);
}

/// Without a record of the family's type, one is created: the request names
/// the hostname's zone and full name, the current address, and the effective
/// proxy flag and time to live. Once the provider has made the record, the
/// family's outcome is `Created`.
pub proof fn law_missing_record_is_created(
    client: ClientView,
    job: JobView,
    version: IP,
    address: Seq<char>,
)
    requires
        first_record(job.records, record_type(version)) is None,
    ensures
        with_address(client.addresses, job, version, address) == (
            PendingView::Write { job, version, outcome: Outcome::Created },
            ProgressView::Ask(
                RequestView::CreateRecord {
                    zone_id: job.zone_id,
                    name: job.fqdn,
                    version,
                    content: address,
                    proxied: job.settings.proxied,
                    ttl: job.settings.ttl,
                },
            ),
        ),
        ({
            let waiting = client.waiting(
                PendingView::Write { job, version, outcome: Outcome::Created },
            );
            let after = answer(waiting, ReplyView::Written);
            recorded((after.0.pending, after.1), version) == Some(Outcome::Created)
        }),
{
    lemma_outcome_stands(client.addresses, job.with(version, Outcome::Created), version);
}

/// A record that is not as wanted is updated: where the first record of the
/// family's type differs from the wanted state in its address, its proxy flag
/// or its time to live, an update of that very record is asked for, with the
/// hostname's full name, the current address, and the effective proxy flag
/// and time to live. Once the provider has changed the record, the family's
/// outcome is `Updated`.
pub proof fn law_stale_record_is_updated(
    client: ClientView,
    job: JobView,
    version: IP,
    address: Seq<char>,
    record: RecordView,
)
    requires
        first_record(job.records, record_type(version)) == Some(record),
        !matches_desired(record, job.settings, address),
    ensures
        with_address(client.addresses, job, version, address) == (
            PendingView::Write { job, version, outcome: Outcome::Updated },
            ProgressView::Ask(
                RequestView::UpdateRecord {
                    zone_id: job.zone_id,
                    record_id: record.id,
                    name: job.fqdn,
                    version,
                    content: address,
                    proxied: job.settings.proxied,
                    ttl: job.settings.ttl,
                },
            ),
        ),
        ({
            let waiting = client.waiting(
                PendingView::Write { job, version, outcome: Outcome::Updated },
            );
            let after = answer(waiting, ReplyView::Written);
            recorded((after.0.pending, after.1), version) == Some(Outcome::Updated)
        }),
{
    lemma_outcome_stands(client.addresses, job.with(version, Outcome::Updated), version);
}

/// A hostname of which no family is asked for is skipped: beginning it
/// either ends at once with both outcomes `Skipped`, or asks for the base
/// domain of its zone and ends so on the answer. No records are listed, no
/// public address is looked up and nothing is written.
pub proof fn law_disabled_hostname_is_skipped(
    client: ClientView,
    name: Seq<char>,
    entry: SubdomainsView,
    base: Seq<char>,
)
    requires
        !settings_of(entry, client.config.defaults).use_a,
        !settings_of(entry, client.config.defaults).use_aaaa,
    ensures
        ({
            let (waiting, progress) = begin(client, name, entry);
            let zone_id = zone_of(entry, client.config.defaults);
            if client.zones.contains_key(zone_id) {
                progress == ProgressView::Done(all_skipped())
            } else {
                &&& progress == ProgressView::Ask(RequestView::ZoneDetails { zone_id })
                &&& answer(waiting, ReplyView::ZoneName(base)).1 == ProgressView::Done(
                    all_skipped(),
                )
            }
        }),
{
}

} // verus!
