//! What the bridge decides when the host starts an operation, and what it
//! tells the host when the operation is over.
//!
//! The bridge does not call the archive service itself. It says which call
//! is to be made, on which object; the caller makes it, on the execution
//! context where the operation is asynchronous, and hands the outcome back.

use crate::handle::Handle;
use vstd::prelude::*;

verus! {

/// The decision on an operation that the host has started.
pub enum Dispatch<Req, Done> {
    /// The archive service is to be called as `Req` says; the operation is
    /// over when the outcome of that call has been handed back.
    Submit(Req),
    /// The operation is over at once, without a call, and the host is told
    /// `Done`.
    Complete(Done),
}

impl<Req, Done> Dispatch<Req, Done> {
    /// The calls that this decision submits.
    pub open spec fn submissions(self) -> Seq<Req> {
        match self {
            Dispatch::Submit(call) => seq![call],
            Dispatch::Complete(_) => seq![],
        }
    }

    /// What the host is told over the whole operation, where `completion`
    /// is what a submitted call comes to.
    pub open spec fn callbacks(self, completion: Done) -> Seq<Done> {
        match self {
            Dispatch::Submit(_) => seq![completion],
            Dispatch::Complete(done) => seq![done],
        }
    }
}

/// A call on the archive service.
pub enum ServiceRequest {
    /// List the identifiers of the archives.
    ListArchives,
    /// Open the archive with this identifier; with this key, if there is
    /// one.
    OpenArchive { identifier: String, key: Option<String> },
    /// Download a file of a package.
    Download { package: String, file: String },
}

/// A call on the archive service, with the context to run it on.
pub struct ServiceCall<'a, R, S> {
    pub runtime: &'a R,
    pub service: &'a S,
    pub request: ServiceRequest,
}

/// A call on an opened archive that is answered at once.
pub enum ArchiveRequest {
    /// Report the mount point.
    MountPoint,
    /// List the names of the files.
    FileNames,
    /// List the identifiers of the chunks.
    ChunkIds,
    /// Compute the content hash of a file.
    FileHash { file: String },
}

/// A call on an opened archive.
pub struct ArchiveCall<'a, P> {
    pub archive: &'a P,
    pub request: ArchiveRequest,
}

/// The call that fetches the bytes of a file of an opened archive, with the
/// context to run it on.
pub struct FileDataCall<'a, R, P> {
    pub runtime: &'a R,
    pub archive: &'a P,
    pub file: String,
}

/// The two paths that the archive service is built from without a download.
pub struct ManifestRequest {
    pub app_manifest: String,
    pub chunk_manifest: String,
}

/// What the host is told when a bridge has been set up.
#[derive(Clone, Copy, Debug, PartialEq, Eq, Structural)]
pub struct StateCallback {
    pub state: Handle,
    pub err: u32,
}

/// What the host is told when an archive has been opened, or has not.
#[derive(Clone, Copy, Debug, PartialEq, Eq, Structural)]
pub struct PakCallback {
    pub pak: Handle,
    pub err: u32,
}

/// What the host is told when the bytes of a file have been fetched, or
/// have not. The length is the buffer's, as far as 32 bits hold it.
#[derive(Debug)]
pub struct FileDataCallback {
    pub data: Option<Vec<u8>>,
    pub length: u32,
    pub err: u32,
}

/// What the host gets back from the one operation that answers in place:
/// the content hash as text, or a code.
#[derive(Debug)]
pub struct FileDataReturn {
    pub content: Option<String>,
    pub err: u32,
}

/// Over one operation the host is called back once: by the decision itself
/// where it submits nothing, else by what the submitted call comes to. An
/// operation that is over at once submits no call.
pub proof fn lemma_one_callback_per_operation<Req, Done>(
    decision: Dispatch<Req, Done>,
    completion: Done,
)
    ensures
        decision.callbacks(completion).len() == 1,
        decision.submissions().len() <= 1,
        decision is Complete ==> decision.submissions().len() == 0
            && decision.callbacks(completion)[0] == decision->Complete_0,
        decision is Submit ==> decision.submissions().len() == 1 && decision.callbacks(
            completion,
        )[0] == completion,
{
}

} // verus!
