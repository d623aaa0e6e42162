//! Startup assembly: building the ordered provider set from the validated
//! configuration, one destination at a time. Every startup error raised here
//! is fatal; in particular a configuration with zero destinations is refused.

use crate::config::{Config, ConfigError, S3Config, WebDavConfig};
use crate::provider::MultiProvider;
use crate::s3::{spec_normalize_root, S3};
use crate::webdav::{spec_webdav_auth, WebDav};
use vstd::prelude::*;

verus! {

/// One configured destination: a tagged variant of the closed set of backend
/// kinds. The host opens each destination's connection from the descriptor
/// the variant carries.
#[derive(Clone, Debug)]
pub enum ProviderKind {
    S3(S3),
    WebDav(WebDav),
}

/// The root path an object-storage block configures: the named path, or
/// empty when the block names none.
pub open spec fn spec_root_of(path: Option<String>) -> Seq<char> {
    match path {
        Some(p) => p@,
        None => Seq::empty(),
    }
}

/// The descriptor that `add`ing the object-storage block `c` produces.
pub open spec fn s3_matches(s: S3, c: S3Config) -> bool {
    &&& s.endpoint@ == c.endpoint@
    &&& s.bucket@ == c.bucket@
    &&& s.path@ == spec_normalize_root(spec_root_of(c.path))
    &&& s.access_key@ == c.access_key@
    &&& s.secret_key@ == c.secret_key@
}

/// The descriptor that `add`ing the remote-filesystem block `c` produces.
pub open spec fn webdav_matches(w: WebDav, c: WebDavConfig) -> bool {
    &&& (spec_webdav_auth(c.user, c.password) matches Ok(a) && w.auth == a)
    &&& w.endpoint == c.endpoint
}

/// The object-storage blocks of a configuration, in configured order.
pub open spec fn s3_blocks(config: &Config) -> Seq<S3Config> {
    match config.s3 {
        Some(v) => v@,
        None => Seq::empty(),
    }
}

/// The remote-filesystem blocks of a configuration, in configured order.
pub open spec fn webdav_blocks(config: &Config) -> Seq<WebDavConfig> {
    match config.webdav {
        Some(v) => v@,
        None => Seq::empty(),
    }
}

/// The first startup error among the remote-filesystem blocks, if any.
pub open spec fn spec_webdav_error(cs: Seq<WebDavConfig>) -> Option<ConfigError>
    decreases cs.len(),
{
    if cs.len() == 0 {
        None
    } else {
        match spec_webdav_auth(cs.first().user, cs.first().password) {
            Err(e) => Some(e),
            Ok(_) => spec_webdav_error(cs.drop_first()),
        }
    }
}

/// Builds the destination that an object-storage block describes and appends
/// it to the set. The block itself is always well-formed; whether the named
/// bucket is reachable is checked by the host when it opens the connection.
pub fn setup_s3(m: &mut MultiProvider<ProviderKind>, config: &S3Config)
    ensures
        final(m).providers@.len() == old(m).providers@.len() + 1,
        forall|i: int|
            0 <= i < old(m).providers@.len() ==> final(m).providers@[i] == old(m).providers@[i],
        (final(m).providers@.last() matches ProviderKind::S3(s) && s3_matches(s, *config)),
{
    let path = match &config.path {
        Some(p) => p.as_str(),
        None => "",
    };
    proof {
        reveal_strlit("");
        assert(""@ =~= Seq::<char>::empty());
    }
    let s3 = S3::new(
        config.endpoint.as_str(),
        config.bucket.as_str(),
        path,
        config.access_key.as_str(),
        config.secret_key.as_str(),
    );
    m.add(ProviderKind::S3(s3));
}

/// Builds the destination that a remote-filesystem block describes and
/// appends it to the set; an inconsistent authentication pair is a fatal
/// startup error and leaves the set unchanged.
pub fn setup_webdav(m: &mut MultiProvider<ProviderKind>, config: &WebDavConfig) -> (r: Result<
    (),
    ConfigError,
>)
    ensures
        spec_webdav_auth(config.user, config.password) matches Ok(a) ==> (r is Ok
            && final(m).providers@ == old(m).providers@.push(
            ProviderKind::WebDav((WebDav { endpoint: config.endpoint, auth: a })),
        )),
        spec_webdav_auth(config.user, config.password) matches Err(e) ==> (r == Err::<
            (),
            ConfigError,
        >(e) && *final(m) == *old(m)),
{
    let user = match &config.user {
        Some(u) => Some(u.clone()),
        None => None,
    };
    let password = match &config.password {
        Some(p) => Some(p.clone()),
        None => None,
    };
    match WebDav::new(config.endpoint.clone(), user, password) {
        Ok(w) => {
            m.add(ProviderKind::WebDav(w));
            Ok(())
        },
        Err(e) => Err(e),
    }
}

/// Builds the whole provider set from the configuration: every
/// object-storage block first, then every remote-filesystem block, in
/// configured order. An inconsistent remote-filesystem block is fatal, and so
/// is a configuration with zero destinations.
pub fn build_provider_set(config: &Config) -> (r: Result<MultiProvider<ProviderKind>, ConfigError>)
    ensures
        spec_webdav_error(webdav_blocks(config)) matches Some(e) ==> r == Err::<
            MultiProvider<ProviderKind>,
            ConfigError,
        >(e),
        spec_webdav_error(webdav_blocks(config)) is None && s3_blocks(config).len()
            + webdav_blocks(config).len() == 0 ==> r == Err::<
            MultiProvider<ProviderKind>,
            ConfigError,
        >(ConfigError::NoProvidersConfigured),
        spec_webdav_error(webdav_blocks(config)) is None && s3_blocks(config).len()
            + webdav_blocks(config).len() > 0 ==> (r matches Ok(m) && {
            &&& m.providers@.len() == s3_blocks(config).len() + webdav_blocks(config).len()
            &&& forall|i: int|
                0 <= i < s3_blocks(config).len() ==> ((#[trigger] m.providers@[i])
                    matches ProviderKind::S3(s) && s3_matches(s, s3_blocks(config)[i]))
            &&& forall|j: int|
                0 <= j < webdav_blocks(config).len() ==> ((#[trigger] m.providers@[s3_blocks(
                    config,
                ).len() + j]) matches ProviderKind::WebDav(w) && webdav_matches(
                    w,
                    webdav_blocks(config)[j],
                ))
        }),
{
    let ghost s3s = s3_blocks(config);
    let ghost wds = webdav_blocks(config);
    let mut m: MultiProvider<ProviderKind> = MultiProvider::new();

    if let Some(v) = &config.s3 {
        let mut k: usize = 0;
        while k < v.len()
            invariant
                k <= v@.len(),
                v@ == s3s,
                m.providers@.len() == k,
                forall|i: int|
                    0 <= i < k ==> ((#[trigger] m.providers@[i]) matches ProviderKind::S3(s)
                        && s3_matches(s, s3s[i])),
            decreases v@.len() - k,
        {
            setup_s3(&mut m, &v[k]);
            k += 1;
        }
    }

    if let Some(v) = &config.webdav {
        let mut k: usize = 0;
        proof {
            assert(wds.skip(0) =~= wds);
        }
        while k < v.len()
            invariant
                k <= v@.len(),
                v@ == wds,
                wds == webdav_blocks(config),
                spec_webdav_error(wds) == spec_webdav_error(wds.skip(k as int)),
                m.providers@.len() == s3s.len() + k,
                forall|i: int|
                    0 <= i < s3s.len() ==> ((#[trigger] m.providers@[i])
                        matches ProviderKind::S3(s) && s3_matches(s, s3s[i])),
                forall|j: int|
                    0 <= j < k ==> ((#[trigger] m.providers@[s3s.len() + j])
                        matches ProviderKind::WebDav(w) && webdav_matches(w, wds[j])),
            decreases v@.len() - k,
        {
            proof {
                assert(wds.skip(k as int).first() == wds[k as int]);
                assert(wds.skip(k as int).drop_first() =~= wds.skip(k as int + 1));
            }
            match setup_webdav(&mut m, &v[k]) {
                Ok(()) => {},
                Err(e) => {
                    return Err(e);
                },
            }
            k += 1;
        }
        proof {
            assert(wds.skip(wds.len() as int) =~= Seq::<WebDavConfig>::empty());
        }
    }

    if m.is_empty() {
        Err(ConfigError::NoProvidersConfigured)
    } else {
        Ok(m)
    }
}

} // verus!
