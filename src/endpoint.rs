//! The daemon operations that the client knows, and their path fragments.
use vstd::prelude::*;

verus! {

/// A logical operation of the daemon's API.
#[derive(Clone, Copy, Debug, PartialEq, Eq, Structural)]
pub enum DockerEndpoint {
    Ping,
    Version,
    ListContainers,
    ListImages,
}

impl DockerEndpoint {
    /// The unversioned path fragment of the operation.
    pub open spec fn path_spec(self) -> Seq<char> {
        match self {
            DockerEndpoint::Version => seq!['/', 'v', 'e', 'r', 's', 'i', 'o', 'n'],
            DockerEndpoint::Ping => seq!['/', '_', 'p', 'i', 'n', 'g'],
            DockerEndpoint::ListContainers => seq![
                '/', 'c', 'o', 'n', 't', 'a', 'i', 'n', 'e', 'r', 's', '/', 'j', 's', 'o', 'n',
            ],
            DockerEndpoint::ListImages => seq![
                '/', 'i', 'm', 'a', 'g', 'e', 's', '/', 'j', 's', 'o', 'n',
            ],
        }
    }

    pub fn path(&self) -> (r: &'static str)
        ensures
            r@ == self.path_spec(),
    {
        match self {
            DockerEndpoint::Version => {
                let r = "/version";
                proof { reveal_strlit("/version"); }
                r
            },
            DockerEndpoint::Ping => {
                let r = "/_ping";
                proof { reveal_strlit("/_ping"); }
                r
            },
            DockerEndpoint::ListContainers => {
                let r = "/containers/json";
                proof { reveal_strlit("/containers/json"); }
                r
            },
            DockerEndpoint::ListImages => {
                let r = "/images/json";
                proof { reveal_strlit("/images/json"); }
                r
            },
        }
    }
}

/// Every path fragment is non-empty and begins with a slash.
pub proof fn lemma_paths_start_with_slash(e: DockerEndpoint)
    ensures
        e.path_spec().len() > 0,
        e.path_spec()[0] == '/',
{
}

} // verus!
