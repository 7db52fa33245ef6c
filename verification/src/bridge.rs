//! The bridge's state: the execution context and, where it could be built,
//! the archive service.

use crate::dispatch::ManifestRequest;
use crate::dispatch::StateCallback;
use crate::error::BridgeError;
use crate::error::Failure;
use crate::error::SUCCESS;
use crate::error::code_of;
use crate::error::report_of;
use crate::error_channel::ErrorChannel;
use crate::error_channel::record;
use crate::error_channel::set_last_error;
use crate::handle::Handle;
use crate::handle::HandleTable;
use crate::handle::release_handle;
use crate::strings::get_string;
use crate::strings::inbound;
use vstd::prelude::*;

verus! {

/// The number of worker threads of an execution context.
pub const WORKER_THREADS: usize = 4;

/// One bridge. `R` is the execution context, `S` the archive service. A
/// bridge without service is degraded: it can be read for its last error
/// and destroyed, and every operation that needs the service is completed
/// at once as unavailable. Nothing gives a degraded bridge a service.
pub struct DownloaderState<R, S> {
    pub runtime: R,
    pub service: Option<S>,
}

impl<R, S> DownloaderState<R, S> {
    /// Whether the archive service is there.
    pub open spec fn spec_is_ready(&self) -> bool {
        self.service is Some
    }

    /// Whether the archive service is there.
    #[verifier::when_used_as_spec(spec_is_ready)]
    pub fn is_ready(&self) -> (b: bool)
        ensures
            b == self.spec_is_ready(),
    {
        self.service.is_some()
    }
}

/// Where a bridge stands in its life, as the table of bridges shows it for
/// a handle. While the archive service is under construction the bridge has
/// no handle yet, so it counts as uninitialized until the construction is
/// over.
pub enum BridgePhase {
    /// The handle has not been given out.
    Uninitialized,
    /// The bridge has its archive service.
    Ready,
    /// The construction failed: the bridge has no archive service.
    Degraded,
    /// The bridge was destroyed.
    Destroyed,
}

/// The phase of the bridge that `ptr` names, named, or will name.
pub open spec fn phase<R, S>(bridges: &HandleTable<DownloaderState<R, S>>, ptr: Handle) -> BridgePhase {
    if bridges@.contains_key(ptr) {
        if bridges@[ptr].spec_is_ready() {
            BridgePhase::Ready
        } else {
            BridgePhase::Degraded
        }
    } else if bridges.issued().contains(ptr) {
        BridgePhase::Destroyed
    } else {
        BridgePhase::Uninitialized
    }
}

/// The state that a construction of the archive service leaves behind.
pub open spec fn state_after<R, S>(runtime: R, construction: Result<S, Failure>) -> DownloaderState<
    R,
    S,
> {
    match construction {
        Ok(service) => DownloaderState { runtime, service: Some(service) },
        Err(_) => DownloaderState { runtime, service: None },
    }
}

/// Sets a bridge up from the outcome of constructing the archive service on
/// `runtime`. The bridge gets a handle either way: with the service it is
/// ready, and the code is zero; without, it is degraded, the failure's text
/// is in the error channel and the code is the failure's.
pub fn initialize<R, S>(
    bridges: &mut HandleTable<DownloaderState<R, S>>,
    channel: &mut ErrorChannel,
    runtime: R,
    construction: Result<S, Failure>,
) -> (done: StateCallback)
    requires
        old(bridges).wf(),
        old(bridges).spec_has_room(),
    ensures
        final(bridges).wf(),
        !done.state.spec_is_null(),
        !old(bridges).issued().contains(done.state),
        final(bridges).issued() == old(bridges).issued().insert(done.state),
        final(bridges)@ == old(bridges)@.insert(done.state, state_after(runtime, construction)),
        old(bridges).precedes(final(bridges)),
        final(channel)@ == record(old(channel)@, report_of(construction)),
        done.err == code_of(construction),
        phase(old(bridges), done.state) is Uninitialized,
        phase(final(bridges), done.state) == if construction is Ok {
            BridgePhase::Ready
        } else {
            BridgePhase::Degraded
        },
        forall|other: Handle|
            other != done.state ==> #[trigger] phase(final(bridges), other) == phase(
                old(bridges),
                other,
            ),
{
    match construction {
        Ok(service) => {
            let state = bridges.insert(DownloaderState { runtime, service: Some(service) });
            StateCallback { state, err: SUCCESS }
        },
        Err(failure) => {
            let err: u32 = failure.code;
            set_last_error(channel, failure.description);
            let state = bridges.insert(DownloaderState { runtime, service: None });
            StateCallback { state, err }
        },
    }
}

/// Takes in the two manifest paths from which the archive service is built
/// in place: the application manifest first, then the chunk manifest. The
/// outcome of that construction goes to [`initialize`].
pub fn initialize_with_manifest(app_manifest: Option<&[u8]>, chunk_manifest: Option<&[u8]>) -> (r:
    Result<ManifestRequest, BridgeError>)
    ensures
        match r {
            Ok(request) => {
                &&& inbound(app_manifest) == Ok::<Seq<char>, BridgeError>(request.app_manifest@)
                &&& inbound(chunk_manifest) == Ok::<Seq<char>, BridgeError>(
                    request.chunk_manifest@,
                )
            },
            Err(e) => {
                ||| inbound(app_manifest) == Err::<Seq<char>, BridgeError>(e)
                ||| inbound(app_manifest) is Ok && inbound(chunk_manifest) == Err::<
                    Seq<char>,
                    BridgeError,
                >(e)
            },
        },
{
    let app_manifest = match get_string(app_manifest) {
        Ok(text) => text,
        Err(e) => {
            return Err(e);
        },
    };
    let chunk_manifest = match get_string(chunk_manifest) {
        Ok(text) => text,
        Err(e) => {
            return Err(e);
        },
    };
    Ok(ManifestRequest { app_manifest, chunk_manifest })
}

/// Destroys the bridge that `ptr` names: its state leaves the table and is
/// handed to the caller, who drops it and with it the bridge's hold on the
/// execution context. Destroying the null handle does nothing. A handle
/// that is neither null nor names a bridge is reported, and nothing changes.
pub fn destroy<R, S>(bridges: &mut HandleTable<DownloaderState<R, S>>, ptr: Handle) -> (r: Result<
    Option<DownloaderState<R, S>>,
    BridgeError,
>)
    requires
        old(bridges).wf(),
    ensures
        final(bridges).wf(),
        final(bridges).issued() == old(bridges).issued(),
        final(bridges)@ == old(bridges)@.remove(ptr),
        old(bridges).precedes(final(bridges)),
        old(bridges).spec_has_room() ==> final(bridges).spec_has_room(),
        ptr.spec_is_null() ==> r == Ok::<Option<DownloaderState<R, S>>, BridgeError>(None),
        r is Ok && !ptr.spec_is_null() ==> phase(final(bridges), ptr) is Destroyed,
        forall|other: Handle|
            other != ptr ==> #[trigger] phase(final(bridges), other) == phase(old(bridges), other),
        match r {
            Ok(Some(state)) => old(bridges)@.contains_key(ptr) && state == old(bridges)@[ptr],
            Ok(None) => ptr.spec_is_null() && *final(bridges) == *old(bridges),
            Err(e) => {
                &&& !ptr.spec_is_null()
                &&& !old(bridges)@.contains_key(ptr)
                &&& e == BridgeError::InvalidHandle
                &&& *final(bridges) == *old(bridges)
            },
        },
{
    proof {
        bridges.lemma_live_handles(ptr);
    }
    release_handle(bridges, ptr)
}

} // verus!
