//! The backup orchestrator: obtain a snapshot from the capture collaborator,
//! derive a timestamped artifact name, compress, hand the artifact to the
//! configured provider set, and report the outcome.

use crate::compression::{Compression, CompressionError};
use crate::config::ConfigError;
use crate::naming::{artifact_name, spec_artifact_name, Timestamp};
use crate::provider::{
    all_ok, put_effects, spec_failing_ids, CompositeUploadError, MultiProvider, Provider,
};
use vstd::prelude::*;

verus! {

/// A snapshot as handed over by the capture collaborator: its canonical
/// serialized bytes, and the number of per-unit records it holds (reported
/// after a successful run).
#[derive(Clone, Debug, PartialEq, Eq)]
pub struct Snapshot {
    pub data: Vec<u8>,
    pub units: usize,
}

/// The observability record of a successful run: how many units were backed
/// up, under which artifact name, to how many destinations.
#[derive(Clone, Debug, PartialEq, Eq)]
pub struct BackupReport {
    pub name: String,
    pub units: usize,
    pub destinations: usize,
}

/// Why a run failed. No failure is swallowed: every error reaches the caller
/// tagged with the stage it came from.
#[derive(Clone, Debug, PartialEq, Eq)]
pub enum BackupError {
    /// The capture collaborator failed; its message is propagated verbatim
    /// and nothing is retried at this layer.
    Capture(String),
    /// The codec failed; the run is fatal and nothing was uploaded.
    Compression(CompressionError),
    /// One or more destinations failed; the composite error names every one
    /// of them, even though the others may already hold the artifact.
    Upload(CompositeUploadError),
}

/// The backup orchestrator: owns the compression strategy and the provider
/// set for its whole lifetime, and runs the capture, name, compress, upload
/// sequence.
#[derive(Clone, Debug)]
pub struct Backup<P, C> {
    pub provider: MultiProvider<P>,
    pub compression: C,
}

impl<P, C> Backup<P, C> {
    /// Builds the orchestrator. An empty provider set is a fatal startup
    /// error: with zero destinations the system refuses to come up rather
    /// than run silent no-op backups.
    pub fn new(provider: MultiProvider<P>, compression: C) -> (r: Result<Self, ConfigError>)
        ensures
            r is Err <==> provider.providers@.len() == 0,
            r matches Err(e) ==> e == ConfigError::NoProvidersConfigured,
            r matches Ok(b) ==> b.provider == provider && b.compression == compression,
    {
        if provider.is_empty() {
            Err(ConfigError::NoProvidersConfigured)
        } else {
            Ok(Self { provider, compression })
        }
    }
}

impl<P, C: Compression> Backup<P, C> {
    /// The name a run at instant `now` uploads its artifact under.
    pub open spec fn spec_name(&self, now: Timestamp) -> Seq<char> {
        spec_artifact_name(now, self.compression.spec_suffix())
    }
}

impl<P: Provider, C: Compression> Backup<P, C> {
    /// One orchestration run over the outcome of the capture call, at instant
    /// `now`: a capture failure is propagated verbatim; otherwise the
    /// snapshot's bytes are compressed, named, and broadcast to every
    /// destination. A compression error is reported exactly when the
    /// algorithm refuses the input — never, for the algorithms of this
    /// library. On success the report carries the artifact name, the unit
    /// count and the destination count; on a partial upload failure the
    /// artifact is nevertheless durable at every destination that accepted
    /// it, and the composite error names exactly the destinations that did
    /// not.
    pub fn backup(&mut self, capture: Result<Snapshot, String>, now: &Timestamp) -> (r: Result<
        BackupReport,
        BackupError,
    >)
        requires
            now.wf(),
        ensures
            final(self).compression == old(self).compression,
            capture matches Err(m) ==> (r matches Err(e) && e == BackupError::Capture(m)
                && final(self).provider == old(self).provider),
            r matches Err(e) ==> (e is Capture <==> capture is Err),
            capture matches Ok(s) ==> ((r is Err && r->Err_0 is Compression)
                <==> !old(self).compression.spec_compress_ok(s.data@)),
            (r matches Err(e) && e is Compression) ==> final(self).provider == old(self).provider,
            capture matches Ok(s) ==> (r matches Ok(rep) ==> {
                &&& rep.name@ == old(self).spec_name(*now)
                &&& rep.units == s.units
                &&& rep.destinations == old(self).provider.providers@.len()
                &&& exists|c: Seq<u8>|
                    {
                        &&& old(self).compression.spec_decompress(c) == s.data@
                        &&& #[trigger] put_effects(
                            old(self).provider.providers@,
                            final(self).provider.providers@,
                            old(self).spec_name(*now),
                            c,
                        )
                        &&& all_ok(old(self).provider.providers@, old(self).spec_name(*now), c)
                    }
            }),
            capture matches Ok(s) ==> (r matches Err(BackupError::Upload(ce)) ==> {
                &&& ce.failures@.len() > 0
                &&& exists|c: Seq<u8>|
                    {
                        &&& old(self).compression.spec_decompress(c) == s.data@
                        &&& #[trigger] put_effects(
                            old(self).provider.providers@,
                            final(self).provider.providers@,
                            old(self).spec_name(*now),
                            c,
                        )
                        &&& ce.spec_destinations() == spec_failing_ids(
                            old(self).provider.providers@,
                            old(self).spec_name(*now),
                            c,
                        )
                        &&& !all_ok(old(self).provider.providers@, old(self).spec_name(*now), c)
                    }
            }),
    {
        let snapshot = match capture {
            Ok(s) => s,
            Err(m) => {
                return Err(BackupError::Capture(m));
            },
        };
        let units = snapshot.units;
        let suffix = self.compression.file_suffix();
        let name = artifact_name(now, suffix);
        let data = match self.compression.compress(snapshot.data) {
            Ok(d) => d,
            Err(e) => {
                return Err(BackupError::Compression(e));
            },
        };
        let destinations = self.provider.len();
        match self.provider.put(name.as_str(), data.as_slice()) {
            Ok(()) => {
                proof {
                    assert(put_effects(
                        old(self).provider.providers@,
                        self.provider.providers@,
                        old(self).spec_name(*now),
                        data@,
                    ));
                }
                Ok(BackupReport { name, units, destinations })
            },
            Err(e) => {
                proof {
                    assert(put_effects(
                        old(self).provider.providers@,
                        self.provider.providers@,
                        old(self).spec_name(*now),
                        data@,
                    ));
                }
                Err(BackupError::Upload(e))
            },
        }
    }
}

} // verus!
