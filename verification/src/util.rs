//! Address families and the public-address echo service.

use vstd::prelude::*;
use vstd::string::StrSliceExecFns;
use crate::error::{Error, ErrorView};

verus! {

/// An address family.
#[derive(Debug, Clone, Copy, PartialEq, Eq, Structural)]
pub enum IP {
    V4,
    V6,
}

/// The index of the first line feed of `s` at or after `from`, or the length
/// of `s` where no line feed follows.
pub open spec fn newline_at(s: Seq<char>, from: int) -> int
    decreases s.len() - from,
{
    if from < 0 || from >= s.len() {
        s.len() as int
    } else if s[from] == '\n' {
        from
    } else {
        newline_at(s, from + 1)
    }
}

/// Where the text of the line that starts at `from` ends: at the next line
/// feed, or one earlier where a carriage return stands directly before that
/// line feed. A carriage return at the end of an unterminated last line
/// belongs to the line.
pub open spec fn line_end(s: Seq<char>, from: int) -> int {
    let nl = newline_at(s, from);
    if nl < s.len() && from < nl && s[nl - 1] == '\r' {
        nl - 1
    } else {
        nl
    }
}

/// The line of `s` that starts at `from`, without its terminator.
pub open spec fn line_at(s: Seq<char>, from: int) -> Seq<char> {
    s.subrange(from, line_end(s, from))
}

/// Whether `line` begins with the three characters `ip=`.
pub open spec fn has_ip_prefix(line: Seq<char>) -> bool {
    line.len() >= 3 && line[0] == 'i' && line[1] == 'p' && line[2] == '='
}

/// The next line feed lies at or after the starting point, and nothing before
/// it is a line feed.
pub proof fn lemma_newline_at_bounds(s: Seq<char>, from: int)
    requires
        0 <= from <= s.len(),
    ensures
        from <= newline_at(s, from) <= s.len(),
        newline_at(s, from) < s.len() ==> s[newline_at(s, from)] == '\n',
        forall|k: int| from <= k < newline_at(s, from) ==> s[k] != '\n',
    decreases s.len() - from,
{
    if from < s.len() && s[from] != '\n' {
        lemma_newline_at_bounds(s, from + 1);
    }
}

/// What follows `ip=` on the first line, starting the search at the line that
/// begins at `from`, that carries this prefix; `None` where no line does.
pub open spec fn find_ip(s: Seq<char>, from: int) -> Option<Seq<char>>
    decreases s.len() - from,
{
    if from < 0 || from >= s.len() {
        None
    } else if has_ip_prefix(line_at(s, from)) {
        Some(line_at(s, from).skip(3))
    } else if newline_at(s, from) >= s.len() {
        None
    } else {
        proof {
            lemma_newline_at_bounds(s, from);
        }
        find_ip(s, newline_at(s, from) + 1)
    }
}

fn chars_of(text: &str) -> (v: Vec<char>)
    ensures
        v@ == text@,
{
    let mut v: Vec<char> = Vec::new();
    for c in it: text.chars()
        invariant
            it.seq() == text@,
            v@ == it.seq().take(it.index() as int),
    {
        v.push(c);
        assert(it.seq().take(it.index() + 1) =~= it.seq().take(it.index() as int).push(c));
    }
    assert(v@ =~= text@);
    v
}

fn find_newline(v: &Vec<char>, from: usize) -> (nl: usize)
    requires
        from <= v.len(),
    ensures
        nl == newline_at(v@, from as int),
        from <= nl <= v.len(),
{
    let mut i: usize = from;
    while i < v.len() && v[i] != '\n'
        invariant
            from <= i <= v.len(),
            newline_at(v@, i as int) == newline_at(v@, from as int),
        decreases v.len() - i,
    {
        i += 1;
    }
    i
}

/// Reads the address out of the echo service's answer: the rest of the first
/// line that begins with `ip=`. Lines end at a line feed, or at a carriage
/// return and a line feed.
pub fn parse_ip(body: &str) -> (ip: Option<String>)
    ensures
        ip is Some <==> find_ip(body@, 0) is Some,
        ip matches Some(t) ==> find_ip(body@, 0) == Some(t@),
{
    let v = chars_of(body);
    let n: usize = v.len();
    let mut start: usize = 0;
    while start < n
        invariant
            v@ == body@,
            n == v.len(),
            start <= n,
            find_ip(v@, start as int) == find_ip(v@, 0),
        decreases n - start,
    {
        let nl: usize = find_newline(&v, start);
        let end: usize = if nl < n && start < nl && v[nl - 1] == '\r' {
            nl - 1
        } else {
            nl
        };
        assert(end == line_end(v@, start as int));
        if end - start >= 3 && v[start] == 'i' && v[start + 1] == 'p' && v[start + 2] == '=' {
            let rest = body.substring_char(start + 3, end);
            assert(rest@ =~= line_at(v@, start as int).skip(3));
            return Some(rest.to_owned());
        }
        assert(!has_ip_prefix(line_at(v@, start as int)));
        if nl < n {
            start = nl + 1;
        } else {
            start = n;
        }
    }
    None
}

/// An HTTP answer, as far as this library reads it.
#[derive(Debug, PartialEq, Eq)]
pub struct HttpResponse {
    /// The address that answered.
    pub url: String,
    /// The status code.
    pub status: u16,
    /// The body as text; `None` where it could not be read.
    pub body: Option<String>,
}

/// The mathematical value of an [`HttpResponse`].
pub ghost struct HttpResponseView {
    pub url: Seq<char>,
    pub status: u16,
    pub body: Option<Seq<char>>,
}

impl View for HttpResponse {
    type V = HttpResponseView;

    open spec fn view(&self) -> HttpResponseView {
        HttpResponseView {
            url: self.url@,
            status: self.status,
            body: match self.body {
                Some(text) => Some(text@),
                None => None,
            },
        }
    }
}

/// Whether a status code lies in the successful range, 200 to 299.
pub open spec fn is_success(status: u16) -> bool {
    200 <= status < 300
}

/// Checks of an answer's status. Each hands the answer back unchanged where
/// the check passes.
pub trait EnsureSuccess: Sized {
    /// The status code of this answer.
    spec fn status_code(&self) -> u16;

    /// The address that gave this answer.
    spec fn origin(&self) -> Seq<char>;

    /// Passes exactly the answers with a successful status.
    fn ensure_success(self) -> (r: Result<Self, Error>)
        ensures
            is_success(self.status_code()) ==> r == Ok::<Self, Error>(self),
            !is_success(self.status_code()) ==> r is Err && r->Err_0@ == (ErrorView::Status {
                url: self.origin(),
                status: self.status_code(),
            }),
    ;

    /// Passes exactly the answers whose status is `status_code`.
    fn ensure_status_code(self, status_code: u16) -> (r: Result<Self, Error>)
        ensures
            self.status_code() == status_code ==> r == Ok::<Self, Error>(self),
            self.status_code() != status_code ==> r is Err && r->Err_0@ == (ErrorView::StatusCode {
                url: self.origin(),
                status: self.status_code(),
                expected: status_code,
            }),
    ;

    /// Passes exactly the answers with a successful status; the error carries `msg`.
    fn ensure_success_or(self, msg: String) -> (r: Result<Self, Error>)
        ensures
            is_success(self.status_code()) ==> r == Ok::<Self, Error>(self),
            !is_success(self.status_code()) ==> r is Err && r->Err_0@ == (ErrorView::StatusWith {
                msg: msg@,
                url: self.origin(),
                status: self.status_code(),
            }),
    ;
}

impl EnsureSuccess for HttpResponse {
    open spec fn status_code(&self) -> u16 {
        self.status
    }

    open spec fn origin(&self) -> Seq<char> {
        self.url@
    }

    fn ensure_success(self) -> (r: Result<Self, Error>) {
        if 200 <= self.status && self.status < 300 {
            Ok(self)
        } else {
            Err(Error::Status { url: self.url, status: self.status })
        }
    }

    fn ensure_status_code(self, status_code: u16) -> (r: Result<Self, Error>) {
        if self.status == status_code {
            Ok(self)
        } else {
            Err(Error::StatusCode { url: self.url, status: self.status, expected: status_code })
        }
    }

    fn ensure_success_or(self, msg: String) -> (r: Result<Self, Error>) {
        if 200 <= self.status && self.status < 300 {
            Ok(self)
        } else {
            Err(Error::StatusWith { msg, url: self.url, status: self.status })
        }
    }
}

/// What came of the request to the echo service.
#[derive(Debug, PartialEq, Eq)]
pub enum Fetched {
    /// No connection could be made.
    ConnectFailed,
    /// The request failed in another way.
    Failed,
    /// The service answered.
    Answered(HttpResponse),
}

/// The mathematical value of a [`Fetched`].
pub ghost enum FetchedView {
    ConnectFailed,
    Failed,
    Answered(HttpResponseView),
}

impl View for Fetched {
    type V = FetchedView;

    open spec fn view(&self) -> FetchedView {
        match *self {
            Fetched::ConnectFailed => FetchedView::ConnectFailed,
            Fetched::Failed => FetchedView::Failed,
            Fetched::Answered(response) => FetchedView::Answered(response@),
        }
    }
}

/// The address of the echo service for a family. The IPv6 one is reachable
/// over IPv6 only, so the endpoint decides which family is measured.
pub open spec fn trace_url(version: IP) -> Seq<char> {
    match version {
        IP::V4 => "https://1.1.1.1/cdn-cgi/trace"@,
        IP::V6 => "https://[2606:4700:4700::1111]/cdn-cgi/trace"@,
    }
}

/// The address of the echo service for a family.
pub fn endpoint(version: IP) -> (url: &'static str)
    ensures
        url@ == trace_url(version),
{
    match version {
        IP::V4 => "https://1.1.1.1/cdn-cgi/trace",
        IP::V6 => "https://[2606:4700:4700::1111]/cdn-cgi/trace",
    }
}

/// The public address that an outcome of the echo request gives, or the
/// error that it stands for. A failed status is reported before the body is
/// looked at.
pub open spec fn ip_of(version: IP, fetched: FetchedView) -> Result<Seq<char>, ErrorView> {
    match fetched {
        FetchedView::ConnectFailed => Err(ErrorView::Connect { version }),
        FetchedView::Failed => Err(ErrorView::Transport { version }),
        FetchedView::Answered(response) => if !is_success(response.status) {
            Err(ErrorView::Status { url: response.url, status: response.status })
        } else {
            match response.body {
                None => Err(ErrorView::Transport { version }),
                Some(text) => match find_ip(text, 0) {
                    Some(ip) => Ok(ip),
                    None => Err(ErrorView::MissingIp { url: trace_url(version), body: text }),
                },
            }
        },
    }
}

/// Turns the outcome of the request to the echo service of a family into the
/// public address, or into the error that ends the lookup.
pub fn get_ip(version: IP, fetched: Fetched) -> (r: Result<String, Error>)
    ensures
        match r {
            Ok(ip) => ip_of(version, fetched@) == Ok::<Seq<char>, ErrorView>(ip@),
            Err(e) => ip_of(version, fetched@) == Err::<Seq<char>, ErrorView>(e@),
        },
{
    match fetched {
        Fetched::ConnectFailed => Err(Error::Connect { version }),
        Fetched::Failed => Err(Error::Transport { version }),
        Fetched::Answered(response) => {
            let response = match response.ensure_success() {
                Ok(response) => response,
                Err(e) => {
                    return Err(e);
                },
            };
            match response.body {
                None => Err(Error::Transport { version }),
                Some(text) => match parse_ip(text.as_str()) {
                    Some(ip) => Ok(ip),
                    None => Err(Error::MissingIp { url: endpoint(version).to_owned(), body: text }),
                },
            }
        },
    }
}

} // verus!
