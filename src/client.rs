//! The client handle: the socket, the negotiated API version, and the
//! request targets built from them.
use vstd::prelude::*;
use crate::container::ListContainersParameters;
use crate::endpoint::DockerEndpoint;
use crate::error::ClientError;
use crate::response::is_success_status;
use crate::text::form_pairs;

verus! {

pub open spec fn is_digit(c: char) -> bool {
    '0' <= c && c <= '9'
}

/// A non-empty run of decimal digits.
pub open spec fn is_digits(s: Seq<char>) -> bool {
    s.len() > 0 && forall|i: int| 0 <= i < s.len() ==> is_digit(#[trigger] s[i])
}

/// A version number `<digits>.<digits>`, as the daemon reports it.
pub open spec fn is_version_number(s: Seq<char>) -> bool {
    exists|k: int|
        0 <= k < s.len() && #[trigger] s[k] == '.' && is_digits(s.subrange(0, k)) && is_digits(
            s.subrange(k + 1, s.len() as int),
        )
}

/// An API version as it prefixes request paths: `v<digits>.<digits>`.
pub open spec fn is_api_version(s: Seq<char>) -> bool {
    s.len() > 0 && s[0] == 'v' && is_version_number(s.drop_first())
}

/// `path`, followed by `?` and the query where the query is not empty.
pub open spec fn with_query(path: Seq<char>, q: Seq<char>) -> Seq<char> {
    if q.len() == 0 {
        path
    } else {
        path + seq!['?'] + q
    }
}

/// Whether the text is a version number `<digits>.<digits>`.
pub fn check_version_number(s: &str) -> (r: bool)
    ensures
        r == is_version_number(s@),
{
    let n = s.unicode_len();
    let mut dot: usize = n;
    let mut i: usize = 0;
    while i < n
        invariant
            n == s@.len(),
            i <= n,
            dot <= n,
            dot == n ==> forall|j: int| 0 <= j < i ==> is_digit(#[trigger] s@[j]),
            dot < n ==> dot < i && s@[dot as int] == '.' && forall|j: int|
                0 <= j < i && j != dot ==> is_digit(#[trigger] s@[j]),
        decreases n - i,
    {
        let c = s.get_char(i);
        if c == '.' {
            if dot < n {
                proof {
                    assert forall|k: int|
                        0 <= k < s@.len() && #[trigger] s@[k] == '.' implies !(is_digits(
                        s@.subrange(0, k),
                    ) && is_digits(s@.subrange(k + 1, s@.len() as int))) by {
                        if k <= dot {
                            assert(s@.subrange(k + 1, s@.len() as int)[i - k - 1] == '.');
                        } else {
                            assert(s@.subrange(0, k)[dot as int] == '.');
                        }
                    }
                }
                return false;
            }
            dot = i;
        } else if !('0' <= c && c <= '9') {
            proof {
                assert forall|k: int|
                    0 <= k < s@.len() && #[trigger] s@[k] == '.' implies !(is_digits(
                    s@.subrange(0, k),
                ) && is_digits(s@.subrange(k + 1, s@.len() as int))) by {
                    if k < i {
                        assert(s@.subrange(k + 1, s@.len() as int)[i - k - 1] == c);
                    } else {
                        assert(s@.subrange(0, k)[i as int] == c);
                    }
                }
            }
            return false;
        }
        i = i + 1;
    }
    if dot < n && dot > 0 && dot + 1 < n {
        proof {
            let k = dot as int;
            assert(is_digits(s@.subrange(0, k))) by {
                assert forall|j: int| 0 <= j < k implies is_digit(#[trigger] s@.subrange(0, k)[j]) by {
                    assert(s@.subrange(0, k)[j] == s@[j]);
                }
            }
            assert(is_digits(s@.subrange(k + 1, s@.len() as int))) by {
                assert forall|j: int| 0 <= j < s@.len() - k - 1 implies is_digit(
                    #[trigger] s@.subrange(k + 1, s@.len() as int)[j],
                ) by {
                    assert(s@.subrange(k + 1, s@.len() as int)[j] == s@[k + 1 + j]);
                }
            }
            assert(s@[k] == '.');
        }
        true
    } else {
        proof {
            assert forall|k: int|
                0 <= k < s@.len() && #[trigger] s@[k] == '.' implies !(is_digits(
                s@.subrange(0, k),
            ) && is_digits(s@.subrange(k + 1, s@.len() as int))) by {
                if dot == n {
                    assert(is_digit(s@[k]));
                } else if k != dot {
                    assert(is_digit(s@[k]));
                }
            }
        }
        false
    }
}

/// A handle on one daemon: its socket and the API version that every
/// request path is prefixed with.
#[derive(Clone, Debug)]
pub struct UnixDockerClient {
    pub socket: String,
    pub api_version: String,
}

impl UnixDockerClient {
    /// The path of an endpoint under the negotiated version.
    pub open spec fn versioned_path_spec(&self, endpoint: Seq<char>) -> Seq<char> {
        seq!['/'] + self.api_version@ + endpoint
    }

    /// The target of a container listing, with the query of the filters.
    pub open spec fn list_containers_path_spec(
        &self,
        params: Option<ListContainersParameters>,
    ) -> Seq<char> {
        let base = self.versioned_path_spec(DockerEndpoint::ListContainers.path_spec());
        match params {
            Some(p) => with_query(base, form_pairs(p.pairs_spec())),
            None => base,
        }
    }

    /// Finishes connecting from the answer to the version request: its
    /// status, and the version number read from its body (`None` where the
    /// body could not be read or held no version). Any failure is a failure
    /// to negotiate; no client comes out of it.
    pub fn new(socket: &str, status: u16, reported: Option<String>) -> (r: Result<
        Self,
        ClientError,
    >)
        ensures
            r is Ok <==> is_success_status(status) && reported is Some && is_version_number(
                reported->Some_0@,
            ),
            r is Ok ==> r->Ok_0.socket@ == socket@ && r->Ok_0.api_version@ == seq!['v']
                + reported->Some_0@,
            r is Ok ==> is_api_version(r->Ok_0.api_version@),
            r is Err ==> r == Err::<Self, ClientError>(ClientError::VersionNegotiation),
    {
        if !(200 <= status && status < 300) {
            return Err(ClientError::VersionNegotiation);
        }
        match reported {
            Some(v) => {
                if !check_version_number(v.as_str()) {
                    return Err(ClientError::VersionNegotiation);
                }
                let mut api_version = String::from_str("v");
                proof { reveal_strlit("v"); }
                api_version.append(v.as_str());
                assert(api_version@.drop_first() =~= v@);
                Ok(UnixDockerClient { socket: String::from_str(socket), api_version })
            },
            None => Err(ClientError::VersionNegotiation),
        }
    }

    /// `/<version><endpoint>`: the path that a request for an endpoint goes to.
    pub fn versioned_path(&self, endpoint: &str) -> (r: String)
        ensures
            r@ == self.versioned_path_spec(endpoint@),
    {
        let mut r = String::from_str("/");
        proof { reveal_strlit("/"); }
        r.append(self.api_version.as_str());
        r.append(endpoint);
        assert(r@ =~= self.versioned_path_spec(endpoint@));
        r
    }

    /// The path of a ping, under the negotiated version like every call but
    /// the version request, which goes to the bare `/version` path.
    pub fn ping_path(&self) -> (r: String)
        ensures
            r@ == self.versioned_path_spec(DockerEndpoint::Ping.path_spec()),
    {
        self.versioned_path(DockerEndpoint::Ping.path())
    }

    /// The target of a container listing; filters that are all absent add
    /// no query.
    pub fn list_containers_path(&self, params: Option<ListContainersParameters>) -> (r: String)
        ensures
            r@ == self.list_containers_path_spec(params),
    {
        let mut r = self.versioned_path(DockerEndpoint::ListContainers.path());
        match &params {
            Some(p) => {
                let q = p.to_query_string();
                match q {
                    Some(q) => {
                        if q.unicode_len() > 0 {
                            r.append("?");
                            proof { reveal_strlit("?"); }
                            r.append(q.as_str());
                        }
                    },
                    None => {},
                }
            },
            None => {},
        }
        r
    }
}

} // verus!
