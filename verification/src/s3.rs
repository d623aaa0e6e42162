//! The object-storage destination: its connection parameters as plain values,
//! and the pure mapping from a relative artifact identifier to the object key
//! under the configured root path.

use vstd::prelude::*;
use vstd::string::{StrSliceExecFns, StringExecFns};

verus! {

/// A root path with its trailing slashes removed.
pub open spec fn spec_normalize_root(s: Seq<char>) -> Seq<char>
    decreases s.len(),
{
    if s.len() > 0 && s.last() == '/' {
        spec_normalize_root(s.drop_last())
    } else {
        s
    }
}

/// A normalized root never ends in a slash.
proof fn lemma_normalize_root_no_trailing_slash(s: Seq<char>)
    ensures
        spec_normalize_root(s).len() == 0 || spec_normalize_root(s).last() != '/',
    decreases s.len(),
{
    if s.len() > 0 && s.last() == '/' {
        lemma_normalize_root_no_trailing_slash(s.drop_last());
    }
}

/// Normalization is idempotent: a normalized root is left unchanged by a
/// second normalization.
pub proof fn lemma_normalize_root_idempotent(s: Seq<char>)
    ensures
        spec_normalize_root(spec_normalize_root(s)) == spec_normalize_root(s),
{
    lemma_normalize_root_no_trailing_slash(s);
}

/// The object key for `path` under the root `root`: with an empty root the
/// key is `path` unchanged, otherwise the root, a slash, and `path`.
pub open spec fn spec_join(root: Seq<char>, path: Seq<char>) -> Seq<char> {
    if root.len() == 0 {
        path
    } else {
        root + "/"@ + path
    }
}

/// One object-storage destination, described by plain values. The host opens
/// the network connection from these parameters and checks at startup that
/// the bucket exists; the key mapping below is independent of network state.
#[derive(Clone, Debug)]
pub struct S3 {
    /// The configured root path, normalized at construction time.
    pub path: String,
    pub bucket: String,
    pub endpoint: String,
    pub access_key: String,
    pub secret_key: String,
}

fn normalize_root(path: &str) -> (r: String)
    ensures
        r@ == spec_normalize_root(path@),
{
    let mut end = path.unicode_len();
    proof {
        assert(path@.take(path@.len() as int) =~= path@);
    }
    while end > 0 && path.get_char(end - 1) == '/'
        invariant
            end <= path@.len(),
            spec_normalize_root(path@) == spec_normalize_root(path@.take(end as int)),
        decreases end,
    {
        proof {
            assert(path@.take(end as int).last() == path@[end - 1]);
            assert(path@.take(end as int).drop_last() =~= path@.take(end - 1));
        }
        end -= 1;
    }
    proof {
        assert(path@.take(path@.len() as int) =~= path@);
    }
    path.substring_char(0, end).to_owned()
}

impl S3 {
    /// The root path holds no trailing slash.
    pub open spec fn wf(&self) -> bool {
        self.path@ == spec_normalize_root(self.path@)
    }

    /// Builds the destination descriptor, stripping any trailing slash from
    /// the configured root path. Whether the named bucket exists is a
    /// startup-time check owned by the host's connection setup.
    pub fn new(
        endpoint: &str,
        bucket: &str,
        path: &str,
        access_key: &str,
        secret_key: &str,
    ) -> (r: Self)
        ensures
            r.endpoint@ == endpoint@,
            r.bucket@ == bucket@,
            r.path@ == spec_normalize_root(path@),
            r.access_key@ == access_key@,
            r.secret_key@ == secret_key@,
            r.wf(),
    {
        let root = normalize_root(path);
        proof {
            lemma_normalize_root_idempotent(path@);
        }
        Self {
            path: root,
            bucket: bucket.to_owned(),
            endpoint: endpoint.to_owned(),
            access_key: access_key.to_owned(),
            secret_key: secret_key.to_owned(),
        }
    }

    /// Maps a relative artifact identifier to the object key: the identifier
    /// unchanged for an empty root, otherwise prefixed by the root and a
    /// slash.
    pub fn join_path(&self, path: &str) -> (r: String)
        ensures
            r@ == spec_join(self.path@, path@),
    {
        if self.path.as_str().is_empty() {
            return path.to_owned();
        }
        let mut key = self.path.clone();
        key.append("/");
        key.append(path);
        key
    }
}

} // verus!
