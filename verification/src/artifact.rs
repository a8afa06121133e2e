//! Planned configuration-file writes.

use vstd::prelude::*;

verus! {

/// One configuration file to be written: a path plus its full contents.
///
/// The quirk resolvers return artifacts instead of touching the filesystem
/// themselves; the unverified shell writes each artifact's `content` to its
/// `path`. Install-time artifacts carry a path relative to the target root,
/// the runtime blacklist artifact carries an absolute live-root path.
/// Writing is not transactional across artifacts: a crash can leave an
/// earlier artifact written and a later one missing.
pub struct ConfigArtifact {
    /// Where the file is written.
    pub path: &'static str,
    /// The full text written to the file.
    pub content: &'static str,
}

} // verus!
