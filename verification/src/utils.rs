//! The settings of the HTTP client.

use std::time::Duration;
use vstd::prelude::*;

verus! {

/// The length of a `Duration` in nanoseconds, as `Duration::as_nanos` gives it.
pub uninterp spec fn duration_nanos(d: Duration) -> nat;

/// `Duration::from_secs`: a duration of that many whole seconds.
#[verifier::external_body]
fn duration_from_secs(secs: u64) -> (d: Duration)
    ensures
        duration_nanos(d) == secs * 1_000_000_000,
{
    Duration::from_secs(secs)
}

/// The index of the first entry with the given name, if there is one.
pub open spec fn position_of(entries: Seq<(String, String)>, key: Seq<char>) -> Option<int>
    decreases entries.len(),
{
    if entries.len() == 0 {
        None
    } else if entries[0].0@ == key {
        Some(0)
    } else {
        match position_of(entries.drop_first(), key) {
            Some(i) => Some(i + 1),
            None => None,
        }
    }
}

/// No name occurs twice.
pub open spec fn distinct_keys(entries: Seq<(String, String)>) -> bool {
    forall|i: int, j: int|
        0 <= i < j < entries.len() ==> (#[trigger] entries[i]).0@ != (#[trigger] entries[j]).0@
}

/// The entries after a header is set: its value replaces that of the entry
/// with the same name, and a new name goes to the end.
pub open spec fn with_header(entries: Seq<(String, String)>, key: String, value: String) -> Seq<
    (String, String),
> {
    match position_of(entries, key@) {
        Some(i) => entries.update(i, (key, value)),
        None => entries.push((key, value)),
    }
}

/// The entries of a configuration; none where no header was ever set.
pub open spec fn entries_of(headers: Option<Headers>) -> Seq<(String, String)> {
    match headers {
        Some(held) => held@,
        None => Seq::empty(),
    }
}

/// What the search for a name gives: the first index that holds it, and only
/// where no index holds it, nothing.
pub proof fn lemma_position_of(entries: Seq<(String, String)>, key: Seq<char>)
    ensures
        match position_of(entries, key) {
            Some(i) => 0 <= i < entries.len() && entries[i].0@ == key && forall|j: int|
                0 <= j < i ==> (#[trigger] entries[j]).0@ != key,
            None => forall|j: int| 0 <= j < entries.len() ==> (#[trigger] entries[j]).0@ != key,
        },
    decreases entries.len(),
{
    if entries.len() > 0 && entries[0].0@ != key {
        let rest = entries.drop_first();
        lemma_position_of(rest, key);
        match position_of(rest, key) {
            Some(i) => {
                assert forall|j: int| 0 <= j < i + 1 implies (#[trigger] entries[j]).0@ != key by {
                    if j > 0 {
                        assert(entries[j] == rest[j - 1]);
                    }
                }
            },
            None => {
                assert forall|j: int| 0 <= j < entries.len() implies (#[trigger] entries[j]).0@
                    != key by {
                    if j > 0 {
                        assert(entries[j] == rest[j - 1]);
                    }
                }
            },
        }
    }
}

/// Request headers by name, in the order in which the names were first set.
/// No name is held twice.
pub struct Headers {
    entries: Vec<(String, String)>,
}

impl View for Headers {
    type V = Seq<(String, String)>;

    closed spec fn view(&self) -> Seq<(String, String)> {
        self.entries@
    }
}

impl Headers {
    #[verifier::type_invariant]
    spec fn distinct(self) -> bool {
        distinct_keys(self.entries@)
    }

    /// No headers.
    pub fn new() -> (headers: Self)
        ensures
            headers@ == Seq::<(String, String)>::empty(),
    {
        Headers { entries: Vec::new() }
    }

    /// Sets a header: its value replaces that of the header with the same
    /// name, and a new name goes to the end.
    pub fn set(self, key: String, value: String) -> (headers: Self)
        ensures
            headers@ == with_header(self@, key, value),
    {
        proof {
            use_type_invariant(&self);
        }
        let mut entries = self.entries;
        let ghost before = entries@;
        let mut i: usize = 0;
        while i < entries.len()
            invariant
                i <= entries.len(),
                entries@ == before,
                before == self@,
                distinct_keys(before),
                forall|j: int| 0 <= j < i ==> (#[trigger] before[j]).0@ != key@,
            decreases entries.len() - i,
        {
            if entries[i].0 == key {
                proof {
                    lemma_position_of(before, key@);
                    assert(position_of(before, key@) == Some(i as int));
                }
                entries.set(i, (key, value));
                return Headers { entries };
            }
            i += 1;
        }
        proof {
            lemma_position_of(before, key@);
            assert(position_of(before, key@) is None);
        }
        entries.push((key, value));
        Headers { entries }
    }

    /// The headers, each name once.
    pub fn entries(&self) -> (entries: &Vec<(String, String)>)
        ensures
            entries@ == self@,
            distinct_keys(entries@),
    {
        proof {
            use_type_invariant(self);
        }
        &self.entries
    }
}

/// What an HTTP client is built from: a timeout, extra request headers and
/// a token for the `Authorization` header.
pub struct HttpClientConfig {
    pub timeout: Option<Duration>,
    pub headers: Option<Headers>,
    pub token: Option<String>,
}

impl HttpClientConfig {
    /// A configuration with the default timeout of 30 seconds, no extra
    /// headers and no token.
    pub fn builder() -> (config: Self)
        ensures
            config.timeout matches Some(d) && duration_nanos(d) == 30_000_000_000nat,
            config.headers is None,
            config.token is None,
    {
        HttpClientConfig { timeout: Some(duration_from_secs(30)), headers: None, token: None }
    }

    /// Sets the token.
    pub fn set_token(self, token: String) -> (config: Self)
        ensures
            config.token == Some(token),
            config.timeout == self.timeout,
            config.headers == self.headers,
    {
        let mut config = self;
        config.token = Some(token);
        config
    }

    /// Sets the timeout of a request.
    pub fn set_timeout(self, timeout: Duration) -> (config: Self)
        ensures
            config.timeout == Some(timeout),
            config.headers == self.headers,
            config.token == self.token,
    {
        let mut config = self;
        config.timeout = Some(timeout);
        config
    }

    /// Sets a request header. A header of the same name that was set before
    /// gets the new value; no name is ever held twice.
    pub fn add_header(self, key: String, value: String) -> (config: Self)
        ensures
            config.headers matches Some(held) && held@ == with_header(
                entries_of(self.headers),
                key,
                value,
            ),
            config.timeout == self.timeout,
            config.token == self.token,
    {
        let HttpClientConfig { timeout, headers, token } = self;
        let held = match headers {
            Some(held) => held,
            None => Headers::new(),
        };
        HttpClientConfig { timeout, headers: Some(held.set(key, value)), token }
    }

    /// The timeout of a request: the one that was set, or 10 seconds where
    /// none is held.
    pub fn request_timeout(&self) -> (timeout: Duration)
        ensures
            match self.timeout {
                Some(held) => timeout == held,
                None => duration_nanos(timeout) == 10_000_000_000nat,
            },
    {
        match self.timeout {
            Some(held) => held,
            None => duration_from_secs(10),
        }
    }
}

} // verus!
