//! Bookkeeping of a streaming download: progress samples, status and
//! content-type checks, and the single fallback from a secure to an insecure
//! endpoint.

use vstd::prelude::*;

verus! {

/// Size of the chunks a response body is read in.
pub const CHUNK_SIZE: usize = 8192;

/// Why a download failed.
#[derive(Clone, Debug, PartialEq, Eq)]
pub enum DownloadError {
    /// The connection failed or timed out.
    Transport,
    /// The server answered with this unsuccessful status.
    HttpStatus(u16),
    /// An HTML page came back where a JSON document was expected; the body
    /// is kept so that it can be shown.
    UnexpectedHtmlResponse(String),
    /// The destination could not be written.
    Filesystem,
}

/// One progress sample: bytes received, bytes expected (0 where unknown),
/// average rate in bytes per second, time since the start and estimated
/// time left, both in milliseconds.
#[derive(Clone, Copy, Debug, PartialEq, Eq, Structural)]
pub struct DownloadProgress {
    pub bytes_done: u64,
    pub bytes_total: u64,
    pub rate: u64,
    pub elapsed_ms: u64,
    pub eta_ms: u64,
}

/// `x`, or `u64::MAX` where it does not fit.
pub open spec fn clamp_u64(x: nat) -> nat {
    if x <= u64::MAX {
        x
    } else {
        u64::MAX as nat
    }
}

/// Bytes per second over `elapsed_ms` milliseconds; 0 before any time passed.
pub open spec fn rate_of(done: nat, elapsed_ms: nat) -> nat {
    if elapsed_ms == 0 {
        0
    } else {
        clamp_u64(done * 1000 / elapsed_ms)
    }
}

/// Milliseconds left at `rate` bytes per second; 0 where the rate or the
/// total is unknown, or nothing is left.
pub open spec fn eta_of(done: nat, total: nat, rate: nat) -> nat {
    if rate == 0 || total == 0 || done >= total {
        0
    } else {
        clamp_u64(((total - done) as nat) * 1000 / rate)
    }
}

/// The progress sample after `bytes_done` of `bytes_total` bytes arrived in
/// `elapsed_ms` milliseconds.
pub fn progress_sample(bytes_done: u64, bytes_total: u64, elapsed_ms: u64) -> (r: DownloadProgress)
    ensures
        r.bytes_done == bytes_done,
        r.bytes_total == bytes_total,
        r.elapsed_ms == elapsed_ms,
        r.rate == rate_of(bytes_done as nat, elapsed_ms as nat),
        r.eta_ms == eta_of(bytes_done as nat, bytes_total as nat, r.rate as nat),
{
    let rate: u64 = if elapsed_ms == 0 {
        0
    } else {
        let q: u128 = (bytes_done as u128) * 1000 / (elapsed_ms as u128);
        if q <= u64::MAX as u128 {
            q as u64
        } else {
            u64::MAX
        }
    };
    let eta: u64 = if rate == 0 || bytes_total == 0 || bytes_done >= bytes_total {
        0
    } else {
        let q: u128 = ((bytes_total - bytes_done) as u128) * 1000 / (rate as u128);
        if q <= u64::MAX as u128 {
            q as u64
        } else {
            u64::MAX
        }
    };
    DownloadProgress { bytes_done, bytes_total, rate, elapsed_ms, eta_ms: eta }
}

/// Running count of the bytes of one download.
#[derive(Clone, Copy, Debug, PartialEq, Eq, Structural)]
pub struct DownloadMeter {
    pub bytes_done: u64,
    pub bytes_total: u64,
}

impl DownloadMeter {
    /// A meter for a body of `bytes_total` bytes (0 where unknown), before
    /// the first chunk.
    pub fn new(bytes_total: u64) -> (r: DownloadMeter)
        ensures
            r.bytes_done == 0,
            r.bytes_total == bytes_total,
    {
        DownloadMeter { bytes_done: 0, bytes_total }
    }

    /// Counts a chunk of `chunk_len` bytes and samples the progress at
    /// `elapsed_ms` milliseconds. The count stops at `u64::MAX`.
    pub fn record(&mut self, chunk_len: usize, elapsed_ms: u64) -> (r: DownloadProgress)
        ensures
            final(self).bytes_total == old(self).bytes_total,
            final(self).bytes_done == clamp_u64((old(self).bytes_done + chunk_len) as nat),
            r.bytes_done == final(self).bytes_done,
            r.bytes_total == final(self).bytes_total,
            r.elapsed_ms == elapsed_ms,
            r.rate == rate_of(r.bytes_done as nat, elapsed_ms as nat),
            r.eta_ms == eta_of(r.bytes_done as nat, r.bytes_total as nat, r.rate as nat),
    {
        self.bytes_done = self.bytes_done.saturating_add(chunk_len as u64);
        progress_sample(self.bytes_done, self.bytes_total, elapsed_ms)
    }
}

/// `s` begins with `prefix`.
pub open spec fn starts_with(s: Seq<char>, prefix: Seq<char>) -> bool {
    prefix.len() <= s.len() && s.subrange(0, prefix.len() as int) == prefix
}

/// The scheme of a secure endpoint.
pub open spec fn secure_scheme() -> Seq<char> {
    seq!['h', 't', 't', 'p', 's', ':', '/', '/']
}

/// The scheme of an insecure endpoint.
pub open spec fn insecure_scheme() -> Seq<char> {
    seq!['h', 't', 't', 'p', ':', '/', '/']
}

/// The insecure equivalent of a secure URL: the same URL under the other scheme.
pub open spec fn insecure_url_of(url: Seq<char>) -> Seq<char> {
    insecure_scheme() + url.subrange(secure_scheme().len() as int, url.len() as int)
}

/// Whether `s` begins with `prefix`.
pub fn has_prefix(s: &str, prefix: &str) -> (r: bool)
    ensures
        r == starts_with(s@, prefix@),
{
    let n = s.unicode_len();
    let m = prefix.unicode_len();
    if m > n {
        return false;
    }
    let mut i: usize = 0;
    while i < m
        invariant
            n == s@.len(),
            m == prefix@.len(),
            m <= n,
            i <= m,
            forall|j: int| 0 <= j < i ==> s@[j] == prefix@[j],
        decreases m - i,
    {
        if s.get_char(i) != prefix.get_char(i) {
            assert(s@.subrange(0, m as int)[i as int] != prefix@[i as int]);
            return false;
        }
        i = i + 1;
    }
    assert(s@.subrange(0, m as int) =~= prefix@);
    true
}

/// Whether `url` names a secure endpoint.
pub fn is_secure(url: &str) -> (r: bool)
    ensures
        r == starts_with(url@, secure_scheme()),
{
    proof {
        reveal_strlit("https://");
        assert("https://"@ =~= secure_scheme());
    }
    has_prefix(url, "https://")
}

/// The insecure equivalent of the secure `url`.
pub fn insecure_url(url: &str) -> (r: String)
    requires
        starts_with(url@, secure_scheme()),
    ensures
        r@ == insecure_url_of(url@),
{
    proof {
        reveal_strlit("http://");
        assert("http://"@ =~= insecure_scheme());
    }
    let n = url.unicode_len();
    let rest = url.substring_char(8, n);
    let r = String::from_str("http://");
    r.concat(rest)
}

/// Where to go after an attempt at `url` ended with `result`, `fell_back`
/// telling whether that attempt was already the fallback: the insecure
/// equivalent after the first transport failure at a secure endpoint, and
/// nowhere else.
pub open spec fn fallback_target(
    url: Seq<char>,
    fell_back: bool,
    result: Result<(), DownloadError>,
) -> Option<Seq<char>> {
    if !fell_back && result == Err::<(), DownloadError>(DownloadError::Transport) && starts_with(url, secure_scheme()) {
        Some(insecure_url_of(url))
    } else {
        None
    }
}

/// The attempts of one fetch: the URL being tried and whether it is already
/// the fallback.
#[derive(Clone, Debug)]
pub struct FetchSession {
    pub url: String,
    pub fell_back: bool,
}

impl FetchSession {
    /// A fetch whose first attempt is at `url`.
    pub fn start(url: &str) -> (r: FetchSession)
        ensures
            r.url@ == url@,
            !r.fell_back,
    {
        FetchSession { url: String::from_str(url), fell_back: false }
    }

    /// Takes the result of the current attempt. Returns the URL of the next
    /// attempt, or `None` when the fetch is over and `result` is its result.
    pub fn on_result(&mut self, result: &Result<(), DownloadError>) -> (r: Option<String>)
        ensures
            match r {
                Some(u) => {
                    &&& fallback_target(old(self).url@, old(self).fell_back, *result) == Some(u@)
                    &&& final(self).url@ == u@
                    &&& final(self).fell_back
                },
                None => {
                    &&& fallback_target(old(self).url@, old(self).fell_back, *result) is None
                    &&& final(self).url@ == old(self).url@
                    &&& final(self).fell_back == old(self).fell_back
                },
            },
    {
        let transport = match result {
            Err(DownloadError::Transport) => true,
            _ => false,
        };
        if !self.fell_back && transport && is_secure(self.url.as_str()) {
            let next = insecure_url(self.url.as_str());
            self.url = next.clone();
            self.fell_back = true;
            Some(next)
        } else {
            None
        }
    }
}

/// A fetch falls back at most once: after a transport failure at a secure
/// URL, the next attempt is its insecure equivalent; whatever that attempt
/// brings, no further attempt follows. An attempt that did not fail in
/// transport, or was not secure, is the last one.
pub proof fn lemma_single_fallback(
    url: Seq<char>,
    first: Result<(), DownloadError>,
    second: Result<(), DownloadError>,
)
    ensures
        fallback_target(url, false, first) is Some <==> (first == Err::<(), DownloadError>(
            DownloadError::Transport,
        ) && starts_with(url, secure_scheme())),
        fallback_target(url, false, first) is Some ==> fallback_target(url, false, first)
            == Some(insecure_url_of(url)),
        fallback_target(url, false, first) is Some ==> fallback_target(
            insecure_url_of(url),
            true,
            second,
        ) is None,
        !starts_with(insecure_url_of(url), secure_scheme()),
{
    let u = insecure_url_of(url);
    if starts_with(u, secure_scheme()) {
        assert(u[4] == insecure_scheme()[4]);
        assert(u.subrange(0, 8)[4] == secure_scheme()[4]);
    }
}

/// Checks a response status: any 2xx status is a success.
pub fn check_status(code: u16) -> (r: Result<(), DownloadError>)
    ensures
        200 <= code < 300 ==> r is Ok,
        !(200 <= code < 300) ==> r == Err::<(), DownloadError>(DownloadError::HttpStatus(code)),
{
    if 200 <= code && code < 300 {
        Ok(())
    } else {
        Err(DownloadError::HttpStatus(code))
    }
}

/// The media type of HTML pages, in lower case.
pub open spec fn html_media_type() -> Seq<char> {
    seq!['t', 'e', 'x', 't', '/', 'h', 't', 'm', 'l']
}

/// `c` is `p`, or `p` is a lower-case ASCII letter and `c` its upper case.
pub open spec fn same_ignoring_ascii_case(c: char, p: char) -> bool {
    c == p || ('a' <= p <= 'z' && c as u32 + 32 == p as u32)
}

/// `s` begins with the lower-case `prefix`, letters compared regardless of
/// ASCII case.
pub open spec fn starts_with_ignoring_case(s: Seq<char>, prefix: Seq<char>) -> bool {
    prefix.len() <= s.len() && forall|i: int| 0 <= i < prefix.len() ==> same_ignoring_ascii_case(
        #[trigger] s[i],
        prefix[i],
    )
}

/// Whether a declared content type is HTML. Media types are compared
/// regardless of case.
pub fn is_html(content_type: &str) -> (r: bool)
    ensures
        r == starts_with_ignoring_case(content_type@, html_media_type()),
{
    proof {
        reveal_strlit("text/html");
        assert("text/html"@ =~= html_media_type());
    }
    let prefix = "text/html";
    let n = content_type.unicode_len();
    let m = prefix.unicode_len();
    if m > n {
        return false;
    }
    let mut i: usize = 0;
    while i < m
        invariant
            n == content_type@.len(),
            m == prefix@.len(),
            prefix@ == html_media_type(),
            m <= n,
            i <= m,
            forall|j: int| 0 <= j < i ==> same_ignoring_ascii_case(#[trigger] content_type@[j], prefix@[j]),
        decreases m - i,
    {
        let c = content_type.get_char(i);
        let p = prefix.get_char(i);
        if !(c == p || ('a' <= p && p <= 'z' && (c as u32) + 32 == p as u32)) {
            return false;
        }
        i = i + 1;
    }
    true
}

/// Checks a response that should carry a JSON document: an unsuccessful
/// status, then an HTML content type, are errors; otherwise the body is
/// handed back.
pub fn expect_json_body(status: u16, content_type: &str, body: String) -> (r: Result<String, DownloadError>)
    ensures
        !(200 <= status < 300) ==> r == Err::<String, DownloadError>(DownloadError::HttpStatus(status)),
        200 <= status < 300 && starts_with_ignoring_case(content_type@, html_media_type()) ==> r
            == Err::<String, DownloadError>(DownloadError::UnexpectedHtmlResponse(body)),
        200 <= status < 300 && !starts_with_ignoring_case(content_type@, html_media_type()) ==> r
            == Ok::<String, DownloadError>(body),
{
    match check_status(status) {
        Err(e) => Err(e),
        Ok(()) => {
            if is_html(content_type) {
                Err(DownloadError::UnexpectedHtmlResponse(body))
            } else {
                Ok(body)
            }
        },
    }
}

} // verus!
