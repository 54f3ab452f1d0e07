//! The immutable handler configuration and the dispatch decision for hosts
//! whose routing consumes path segments progressively.
//!
//! The configuration is an explicit, cheaply-clonable value handed into each
//! adapter invocation; there is no ambient state.  The helpers mirror the
//! two ready-made mounts: serving a directory tree and serving one file.

use vstd::prelude::*;
use vstd::string::StringSliceAdditionalSpecFns;

use crate::header::bytes_of;
use crate::prefix::{compute_prefix, is_suffix_of, spec_prefix};
use crate::time::UtcOffset;

verus! {

/// Which backing filesystem the protocol handler is to use.
#[derive(Clone, Debug, PartialEq, Eq)]
pub enum FsChoice {
    /// Serve files and directories under this base path.
    LocalDir(Vec<u8>),
    /// Serve this single file, ignoring the request path.
    LocalFile(Vec<u8>),
    /// An ephemeral in-memory filesystem.
    Mem,
}

/// Which lock manager the protocol handler is to use.
#[derive(Clone, Copy, Debug, PartialEq, Eq, Structural)]
pub enum LsChoice {
    Unset,
    Fake,
    Mem,
}

/// The protocol handler's configuration: filesystem, lock manager, the
/// configured path prefix, the per-call principal override, and the
/// directory-index options.  Never mutated after construction; adapters only
/// read it.
#[derive(Clone, Debug)]
pub struct DavConfig {
    pub prefix: Option<Vec<u8>>,
    pub principal: Option<String>,
    pub fs: Option<FsChoice>,
    pub ls: LsChoice,
    pub auto_index: bool,
    pub utc_offset: Option<UtcOffset>,
    pub index_file: Option<Vec<u8>>,
}

impl DavConfig {
    /// An empty configuration: no prefix, no principal, no filesystem, no
    /// lock manager, no directory index.
    pub fn new() -> (c: DavConfig)
        ensures
            c.prefix is None,
            c.principal is None,
            c.fs is None,
            c.ls == LsChoice::Unset,
            !c.auto_index,
            c.utc_offset is None,
            c.index_file is None,
    {
        DavConfig {
            prefix: None,
            principal: None,
            fs: None,
            ls: LsChoice::Unset,
            auto_index: false,
            utc_offset: None,
            index_file: None,
        }
    }

    /// The same configuration with the path prefix set.
    pub fn strip_prefix(self, prefix: Vec<u8>) -> (c: DavConfig)
        ensures
            c == (DavConfig { prefix: Some(prefix), ..self }),
    {
        DavConfig { prefix: Some(prefix), ..self }
    }

    /// The same configuration with the per-call principal set.
    pub fn with_principal(self, principal: String) -> (c: DavConfig)
        ensures
            c == (DavConfig { principal: Some(principal), ..self }),
    {
        DavConfig { principal: Some(principal), ..self }
    }

    /// The same configuration with the filesystem chosen.
    pub fn filesystem(self, fs: FsChoice) -> (c: DavConfig)
        ensures
            c == (DavConfig { fs: Some(fs), ..self }),
    {
        DavConfig { fs: Some(fs), ..self }
    }

    /// The same configuration with the lock manager chosen.
    pub fn locksystem(self, ls: LsChoice) -> (c: DavConfig)
        ensures
            c == (DavConfig { ls, ..self }),
    {
        DavConfig { ls, ..self }
    }

    /// The same configuration with directory indexing switched and the
    /// timestamp offset for index listings set.
    pub fn autoindex(self, auto_index: bool, utc_offset: Option<UtcOffset>) -> (c: DavConfig)
        ensures
            c == (DavConfig { auto_index, utc_offset, ..self }),
    {
        DavConfig { auto_index, utc_offset, ..self }
    }

    /// The same configuration with the index file name set.
    pub fn indexfile(self, index_file: Vec<u8>) -> (c: DavConfig)
        ensures
            c == (DavConfig { index_file: Some(index_file), ..self }),
    {
        DavConfig { index_file: Some(index_file), ..self }
    }
}

/// The configuration for serving files and directories at `base`: local
/// filesystem, fake lock manager, and a directory index according to the
/// flags — `index_html` serves an `index.html` found in a directory,
/// `auto_index` renders a listing.
pub fn dav_dir(
    base: Vec<u8>,
    index_html: bool,
    auto_index: bool,
    utc_offset: Option<UtcOffset>,
) -> (c: DavConfig)
    ensures
        c.fs matches Some(f) && f == FsChoice::LocalDir(base),
        c.ls == LsChoice::Fake,
        c.auto_index == auto_index,
        c.utc_offset == utc_offset,
        index_html ==> (c.index_file matches Some(n) && n@ == "index.html".spec_bytes()),
        !index_html ==> c.index_file is None,
        c.prefix is None,
        c.principal is None,
{
    let mut c = DavConfig::new()
        .filesystem(FsChoice::LocalDir(base))
        .locksystem(LsChoice::Fake)
        .autoindex(auto_index, utc_offset);
    if index_html {
        c = c.indexfile(bytes_of("index.html"));
    }
    c
}

/// The configuration for serving the single file at `file`, ignoring the
/// request path.
pub fn dav_file(file: Vec<u8>) -> (c: DavConfig)
    ensures
        c.fs matches Some(f) && f == FsChoice::LocalFile(file),
        c.ls == LsChoice::Fake,
        !c.auto_index,
        c.utc_offset is None,
        c.index_file is None,
        c.prefix is None,
        c.principal is None,
{
    DavConfig::new().filesystem(FsChoice::LocalFile(file)).locksystem(LsChoice::Fake)
}

/// How one request is to be dispatched to the protocol handler.
#[derive(Debug, PartialEq, Eq)]
pub enum DispatchPlan {
    /// The handler was configured with an explicit prefix: invoke it plainly
    /// and let the configured prefix govern.  The per-request path is not
    /// consulted at all.
    Configured,
    /// The handler has no configured prefix: invoke it with this per-request
    /// prefix override, computed from the full path and the unconsumed tail.
    PerRequest(Option<Vec<u8>>),
}

/// Decide the dispatch for a host whose router consumes path segments
/// progressively.
///
/// `path` must be the full original path, reconstructed where the host hands
/// out consumed and unconsumed portions separately, since the protocol
/// handler always reasons about the full path.  A configured prefix wins
/// outright: the per-request computation is skipped, never combined with it.
pub fn plan_dispatch(config: &DavConfig, path: &[u8], tail: &[u8]) -> (r: DispatchPlan)
    requires
        is_suffix_of(tail@, path@),
    ensures
        config.prefix is Some ==> r == DispatchPlan::Configured,
        config.prefix is None ==> (r matches DispatchPlan::PerRequest(p) && (match p {
            Some(q) => spec_prefix(path@, tail@) == Some(q@),
            None => spec_prefix(path@, tail@) is None,
        })),
{
    if config.prefix.is_some() {
        DispatchPlan::Configured
    } else {
        DispatchPlan::PerRequest(compute_prefix(path, tail))
    }
}

} // verus!
