//! Pure logic of the HTTP verification client: building the device URL,
//! trimming the requested path, and projecting the server's response down to
//! the published values with their timestamps stripped.
//!
//! The HTTP requests themselves, and the JSON decoding of their bodies, are
//! the caller's: it hands the decoded response in as plain values.

use vstd::prelude::*;

verus! {

/// Errors of the verification client's own logic. HTTP and decoding
/// failures happen before this library is reached and stay with the caller;
/// in particular, a path absent from a well-formed response is reported as
/// `MissingPath`, never as a malformed-response condition.
#[derive(Clone, Copy, PartialEq, Eq, Structural, Debug)]
pub enum ApiError {
    /// The configured parts do not combine into a parsable URL.
    InvalidUrl,
    /// The requested path is absent from the server's response.
    MissingPath,
}

/// The response envelope of the verification API: every body is an object
/// with one `data` field.
#[derive(Clone, PartialEq, Eq, Debug)]
pub struct ApiResp<T> {
    pub data: T,
}

impl<T> ApiResp<T> {
    /// Unwrap the envelope.
    pub fn into_data(self) -> (r: T)
        ensures
            r == self.data,
    {
        self.data
    }
}

/// One value of a datastream, as the server reports it: the payload plus a
/// server-side timestamp (milliseconds), which the client accepts but
/// discards.
#[derive(Clone, PartialEq, Eq, Debug)]
pub struct WithTimestamp<T> {
    pub value: T,
    pub timestamp_ms: Option<i64>,
}

/// One entry of a datastream response: a path and the ordered values
/// published under it.
#[derive(Clone, PartialEq, Eq, Debug)]
pub struct DatastreamEntry<T> {
    pub path: String,
    pub values: Vec<WithTimestamp<T>>,
}

/// The verification client's identity: the normalized base URL of one
/// device (API endpoint, realm and device id combined) and the bearer
/// token sent with every request.
#[derive(Clone, PartialEq, Eq, Debug)]
pub struct Api {
    pub base_url: String,
    pub token: String,
}

/// The string handed to the URL parser: endpoint, API version, realm and
/// device id, in the layout the server routes on.
pub open spec fn device_url_input(api_url: Seq<char>, realm: Seq<char>, device_id: Seq<char>) -> Seq<
    char,
> {
    api_url + "/v1/"@ + realm + "/devices/"@ + device_id
}

/// What the URL parser makes of a string: `None` when it is rejected,
/// otherwise the normalized rendering. A function of the string alone.
pub uninterp spec fn url_normal(s: Seq<char>) -> Option<Seq<char>>;

/// Relies on `reqwest::Url::parse` (the `url` crate's parser): whether a
/// string parses, and the normalized URL it parses to, depend on the string
/// alone.
#[verifier::external_body]
fn parse_url(s: &str) -> (r: Option<String>)
    ensures
        r is Some <==> url_normal(s@) is Some,
        r is Some ==> r->0@ == url_normal(s@)->0,
{
    match reqwest::Url::parse(s) {
        Ok(u) => Some(u.to_string()),
        Err(_) => None,
    }
}

impl Api {
    /// Pack an already-normalized base URL with its token.
    pub fn new(base_url: String, token: String) -> (a: Self)
        ensures
            a.base_url == base_url,
            a.token == token,
    {
        Api { base_url, token }
    }

    /// Combine endpoint, realm and device id into the device's base URL,
    /// rejecting combinations that do not parse as a URL.
    pub fn try_from_parts(api_url: &str, realm: &str, device_id: &str, token: String) -> (r: Result<
        Self,
        ApiError,
    >)
        ensures
            r is Ok <==> url_normal(device_url_input(api_url@, realm@, device_id@)) is Some,
            r matches Ok(a) ==> a.base_url@ == url_normal(
                device_url_input(api_url@, realm@, device_id@),
            )->0 && a.token == token,
            r matches Err(e) ==> e is InvalidUrl,
    {
        let mut input = String::new();
        input.append(api_url);
        input.append("/v1/");
        input.append(realm);
        input.append("/devices/");
        input.append(device_id);
        proof {
            assert(input@ =~= device_url_input(api_url@, realm@, device_id@));
        }
        match parse_url(input.as_str()) {
            Some(base_url) => Ok(Api { base_url, token }),
            None => Err(ApiError::InvalidUrl),
        }
    }

    /// The URL that lists the interfaces published by the device.
    pub fn interfaces_url(&self) -> (r: String)
        ensures
            r@ == self.base_url@ + "/interfaces"@,
    {
        let mut url = self.base_url.clone();
        url.append("/interfaces");
        url
    }

    /// The URL that returns the datastream values of one interface.
    pub fn datastream_url(&self, interface: &str) -> (r: String)
        ensures
            r@ == self.base_url@ + "/interfaces/"@ + interface@,
    {
        let mut url = self.base_url.clone();
        url.append("/interfaces/");
        url.append(interface);
        proof {
            assert(url@ =~= self.base_url@ + "/interfaces/"@ + interface@);
        }
        url
    }
}

/// The sequence with every leading `/` removed.
pub open spec fn trim_leading(s: Seq<char>) -> Seq<char>
    decreases s.len(),
{
    if s.len() > 0 && s[0] == '/' {
        trim_leading(s.drop_first())
    } else {
        s
    }
}

/// The sequence with every trailing `/` removed.
pub open spec fn trim_trailing(s: Seq<char>) -> Seq<char>
    decreases s.len(),
{
    if s.len() > 0 && s.last() == '/' {
        trim_trailing(s.drop_last())
    } else {
        s
    }
}

/// A path as the server keys its response: stripped of leading and trailing
/// slashes.
pub open spec fn trim_slashes(s: Seq<char>) -> Seq<char> {
    trim_trailing(trim_leading(s))
}

/// Dropping a prefix of slashes is what `trim_leading` does.
proof fn lemma_trim_leading_prefix(s: Seq<char>, i: int)
    requires
        0 <= i <= s.len(),
        forall|j: int| 0 <= j < i ==> s[j] == '/',
    ensures
        trim_leading(s) == trim_leading(s.subrange(i, s.len() as int)),
    decreases i,
{
    if i == 0 {
        assert(s.subrange(0, s.len() as int) =~= s);
    } else {
        let rest = s.drop_first();
        assert(rest =~= s.subrange(1, s.len() as int));
        lemma_trim_leading_prefix(rest, i - 1);
        assert(rest.subrange(i - 1, rest.len() as int) =~= s.subrange(i, s.len() as int));
    }
}

/// Dropping a suffix of slashes is what `trim_trailing` does.
proof fn lemma_trim_trailing_suffix(s: Seq<char>, h: int)
    requires
        0 <= h <= s.len(),
        forall|j: int| h <= j < s.len() ==> s[j] == '/',
    ensures
        trim_trailing(s) == trim_trailing(s.subrange(0, h)),
    decreases s.len() - h,
{
    if h == s.len() {
        assert(s.subrange(0, h) =~= s);
    } else {
        let rest = s.drop_last();
        assert(rest =~= s.subrange(0, s.len() - 1));
        lemma_trim_trailing_suffix(rest, h);
        assert(rest.subrange(0, h) =~= s.subrange(0, h));
    }
}

/// Strip the requested path the way the server keys its response map: a
/// request carries slashes around the path, the server's keys do not.
pub fn trim_slashes_str(s: &str) -> (r: &str)
    ensures
        r@ == trim_slashes(s@),
{
    let n = s.unicode_len();
    let mut lo: usize = 0;
    while lo < n && s.get_char(lo) == '/'
        invariant
            0 <= lo <= n,
            n == s@.len(),
            forall|j: int| 0 <= j < lo ==> s@[j] == '/',
        decreases n - lo,
    {
        lo = lo + 1;
    }
    let mut hi: usize = n;
    while hi > lo && s.get_char(hi - 1) == '/'
        invariant
            lo <= hi <= n,
            n == s@.len(),
            forall|j: int| hi <= j < n ==> s@[j] == '/',
        decreases hi,
    {
        hi = hi - 1;
    }
    let r = s.substring_char(lo, hi);
    proof {
        let whole = s@;
        let mid = whole.subrange(lo as int, n as int);
        lemma_trim_leading_prefix(whole, lo as int);
        assert(trim_leading(whole) == mid);
        assert(forall|j: int| hi - lo <= j < mid.len() ==> mid[j] == '/');
        lemma_trim_trailing_suffix(mid, hi - lo);
        assert(mid.subrange(0, hi - lo) =~= whole.subrange(lo as int, hi as int));
        assert(r@ =~= trim_slashes(whole));
    }
    r
}

/// The values stored under the first entry whose path equals the key, if
/// any entry does.
pub open spec fn lookup_path<T>(entries: Seq<DatastreamEntry<T>>, key: Seq<char>) -> Option<
    Seq<WithTimestamp<T>>,
>
    decreases entries.len(),
{
    if entries.len() == 0 {
        None
    } else if entries[0].path@ == key {
        Some(entries[0].values@)
    } else {
        lookup_path(entries.drop_first(), key)
    }
}

/// A sequence of reported values with the timestamps projected away, order
/// kept.
pub open spec fn strip_timestamps_spec<T>(values: Seq<WithTimestamp<T>>) -> Seq<T> {
    values.map_values(|v: WithTimestamp<T>| v.value)
}

/// Drop the timestamp of every reported value, keeping the server's order.
#[verifier::loop_isolation(false)]
pub fn strip_timestamps<T>(values: Vec<WithTimestamp<T>>) -> (r: Vec<T>)
    ensures
        r@ == strip_timestamps_spec(values@),
{
    let ghost all = values@;
    let mut rest = values;
    let mut out: Vec<T> = Vec::new();
    loop
        invariant
            out@.len() <= all.len(),
            out@ == strip_timestamps_spec(all.take(out@.len() as int)),
            rest@ == all.skip(out@.len() as int),
        decreases rest@.len(),
    {
        if rest.len() == 0 {
            proof {
                assert(all.take(out@.len() as int) =~= all);
            }
            return out;
        }
        let ghost i = out@.len() as int;
        let v = rest.remove(0);
        out.push(v.value);
        proof {
            assert(all.take(i + 1) =~= all.take(i).push(all[i]));
            assert(strip_timestamps_spec(all.take(i + 1)) =~= strip_timestamps_spec(
                all.take(i),
            ).push(all[i].value));
            assert(rest@ =~= all.skip(i + 1));
        }
    }
}

/// Look the requested path up in a decoded datastream response and return
/// its values with the timestamps stripped, in the server's order. A path
/// absent from the response is the distinct `MissingPath` error.
#[verifier::loop_isolation(false)]
pub fn datastream_values<T>(resp: ApiResp<Vec<DatastreamEntry<T>>>, path: &str) -> (r: Result<
    Vec<T>,
    ApiError,
>)
    ensures
        ({
            let found = lookup_path(resp.data@, trim_slashes(path@));
            match r {
                Ok(values) => found is Some && values@ == strip_timestamps_spec(found->0),
                Err(e) => found is None && e is MissingPath,
            }
        }),
{
    let trimmed = trim_slashes_str(path);
    let key: String = trimmed.to_owned();
    let ghost k = trim_slashes(path@);
    let ghost all = resp.data@;
    let mut entries = resp.data;
    loop
        invariant
            key@ == k,
            lookup_path(all, k) == lookup_path(entries@, k),
        decreases entries@.len(),
    {
        if entries.len() == 0 {
            return Err(ApiError::MissingPath);
        }
        let ghost before = entries@;
        let entry = entries.remove(0);
        if entry.path == key {
            return Ok(strip_timestamps(entry.values));
        }
        proof {
            assert(entries@ =~= before.drop_first());
        }
    }
}

} // verus!
