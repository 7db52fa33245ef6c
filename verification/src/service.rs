//! The operations on the archive service: listing the archives, opening
//! one, and downloading a file of a package.
//!
//! Each checks the bridge's handle first and takes its strings in next, in
//! the order of its parameters. On a degraded bridge it is over at once,
//! with the code for an unavailable service, and nothing is submitted.

use crate::bridge::DownloaderState;
use crate::dispatch::Dispatch;
use crate::dispatch::PakCallback;
use crate::dispatch::ServiceCall;
use crate::dispatch::ServiceRequest;
use crate::error::BridgeError;
use crate::error::DOWNLOAD_FAILED;
use crate::error::Failure;
use crate::error::SERVICE_UNAVAILABLE;
use crate::error::SUCCESS;
use crate::error::code_of;
use crate::error::report_of;
use crate::error_channel::ErrorChannel;
use crate::error_channel::record;
use crate::error_channel::set_last_error;
use crate::handle::Handle;
use crate::handle::HandleTable;
use crate::handle::release_handle;
use crate::strings::get_optional_string;
use crate::strings::get_string;
use crate::strings::inbound;
use crate::strings::inbound_optional;
use crate::strings::optional_text_view;
use vstd::prelude::*;
use vstd::string::*;

verus! {

/// Whether `call` is a call on the service of the bridge `state`, on that
/// bridge's execution context.
pub open spec fn calls_service_of<R, S>(call: ServiceCall<R, S>, state: DownloaderState<R, S>) -> bool {
    &&& state.service == Some(*call.service)
    &&& *call.runtime == state.runtime
}

/// Starts the listing of the archives that the service of the bridge `ptr`
/// knows. A degraded bridge has no list: the host gets the null handle. On a
/// ready bridge the service is to be asked; the list it gives is made an
/// iterator by `open_iterator`.
pub fn get_pak_names<'a, R, S>(bridges: &'a HandleTable<DownloaderState<R, S>>, ptr: Handle) -> (r:
    Result<Dispatch<ServiceCall<'a, R, S>, Handle>, BridgeError>)
    ensures
        match r {
            Err(e) => !bridges@.contains_key(ptr) && e == BridgeError::InvalidHandle,
            Ok(Dispatch::Complete(names)) => {
                &&& bridges@.contains_key(ptr)
                &&& !bridges@[ptr].spec_is_ready()
                &&& names.spec_is_null()
            },
            Ok(Dispatch::Submit(call)) => {
                &&& bridges@.contains_key(ptr)
                &&& calls_service_of(call, bridges@[ptr])
                &&& call.request is ListArchives
            },
        },
{
    let state = match bridges.get(ptr) {
        Some(state) => state,
        None => {
            return Err(BridgeError::InvalidHandle);
        },
    };
    match &state.service {
        None => Ok(Dispatch::Complete(Handle::null())),
        Some(service) => Ok(
            Dispatch::Submit(
                ServiceCall { runtime: &state.runtime, service, request: ServiceRequest::ListArchives },
            ),
        ),
    }
}

/// Starts the opening of the archive that `rfile` identifies, on the
/// service of the bridge `ptr`, with the key `rkey` where the host gives
/// one: a null `rkey` opens without key. On a degraded bridge the host is
/// told the null handle and that the service is unavailable.
pub fn get_pak<'a, R, S>(
    bridges: &'a HandleTable<DownloaderState<R, S>>,
    ptr: Handle,
    rfile: Option<&[u8]>,
    rkey: Option<&[u8]>,
) -> (r: Result<Dispatch<ServiceCall<'a, R, S>, PakCallback>, BridgeError>)
    ensures
        match r {
            Err(e) => {
                ||| !bridges@.contains_key(ptr) && e == BridgeError::InvalidHandle
                ||| bridges@.contains_key(ptr) && inbound(rfile) == Err::<Seq<char>, BridgeError>(e)
                ||| bridges@.contains_key(ptr) && inbound(rfile) is Ok && inbound_optional(rkey)
                    == Err::<Option<Seq<char>>, BridgeError>(e)
            },
            Ok(Dispatch::Complete(done)) => {
                &&& bridges@.contains_key(ptr)
                &&& inbound(rfile) is Ok
                &&& inbound_optional(rkey) is Ok
                &&& !bridges@[ptr].spec_is_ready()
                &&& done.pak.spec_is_null()
                &&& done.err == SERVICE_UNAVAILABLE
            },
            Ok(Dispatch::Submit(call)) => {
                &&& bridges@.contains_key(ptr)
                &&& calls_service_of(call, bridges@[ptr])
                &&& call.request matches ServiceRequest::OpenArchive { identifier, key }
                &&& inbound(rfile) == Ok::<Seq<char>, BridgeError>(identifier@)
                &&& optional_text_view(Ok(key)) == inbound_optional(rkey)
            },
        },
{
    let state = match bridges.get(ptr) {
        Some(state) => state,
        None => {
            return Err(BridgeError::InvalidHandle);
        },
    };
    let identifier = match get_string(rfile) {
        Ok(text) => text,
        Err(e) => {
            return Err(e);
        },
    };
    let key = match get_optional_string(rkey) {
        Ok(text) => text,
        Err(e) => {
            return Err(e);
        },
    };
    match &state.service {
        None => Ok(Dispatch::Complete(PakCallback { pak: Handle::null(), err: SERVICE_UNAVAILABLE })),
        Some(service) => Ok(
            Dispatch::Submit(
                ServiceCall {
                    runtime: &state.runtime,
                    service,
                    request: ServiceRequest::OpenArchive { identifier, key },
                },
            ),
        ),
    }
}

/// Ends the opening of an archive. An opened archive gets a handle, and the
/// code is zero. A failure leaves its text in the error channel; the host
/// is told the null handle and the failure's code.
pub fn finish_get_pak<P>(
    paks: &mut HandleTable<P>,
    channel: &mut ErrorChannel,
    outcome: Result<P, Failure>,
) -> (done: PakCallback)
    requires
        old(paks).wf(),
        old(paks).spec_has_room(),
    ensures
        final(paks).wf(),
        old(paks).precedes(final(paks)),
        final(channel)@ == record(old(channel)@, report_of(outcome)),
        done.err == code_of(outcome),
        match outcome {
            Ok(pak) => {
                &&& !done.pak.spec_is_null()
                &&& !old(paks).issued().contains(done.pak)
                &&& final(paks).issued() == old(paks).issued().insert(done.pak)
                &&& final(paks)@ == old(paks)@.insert(done.pak, pak)
            },
            Err(_) => {
                &&& done.pak.spec_is_null()
                &&& *final(paks) == *old(paks)
            },
        },
{
    match outcome {
        Ok(pak) => {
            let handle = paks.insert(pak);
            PakCallback { pak: handle, err: SUCCESS }
        },
        Err(failure) => {
            let err: u32 = failure.code;
            set_last_error(channel, failure.description);
            PakCallback { pak: Handle::null(), err }
        },
    }
}

/// Starts the download of the file `rfile` of the package `rpak`, on the
/// service of the bridge `ptr`. On a degraded bridge the host is told that
/// the service is unavailable.
pub fn download_file<'a, R, S>(
    bridges: &'a HandleTable<DownloaderState<R, S>>,
    ptr: Handle,
    rpak: Option<&[u8]>,
    rfile: Option<&[u8]>,
) -> (r: Result<Dispatch<ServiceCall<'a, R, S>, u32>, BridgeError>)
    ensures
        match r {
            Err(e) => {
                ||| !bridges@.contains_key(ptr) && e == BridgeError::InvalidHandle
                ||| bridges@.contains_key(ptr) && inbound(rpak) == Err::<Seq<char>, BridgeError>(e)
                ||| bridges@.contains_key(ptr) && inbound(rpak) is Ok && inbound(rfile) == Err::<
                    Seq<char>,
                    BridgeError,
                >(e)
            },
            Ok(Dispatch::Complete(err)) => {
                &&& bridges@.contains_key(ptr)
                &&& inbound(rpak) is Ok
                &&& inbound(rfile) is Ok
                &&& !bridges@[ptr].spec_is_ready()
                &&& err == SERVICE_UNAVAILABLE
            },
            Ok(Dispatch::Submit(call)) => {
                &&& bridges@.contains_key(ptr)
                &&& calls_service_of(call, bridges@[ptr])
                &&& call.request matches ServiceRequest::Download { package, file }
                &&& inbound(rpak) == Ok::<Seq<char>, BridgeError>(package@)
                &&& inbound(rfile) == Ok::<Seq<char>, BridgeError>(file@)
            },
        },
{
    let state = match bridges.get(ptr) {
        Some(state) => state,
        None => {
            return Err(BridgeError::InvalidHandle);
        },
    };
    let package = match get_string(rpak) {
        Ok(text) => text,
        Err(e) => {
            return Err(e);
        },
    };
    let file = match get_string(rfile) {
        Ok(text) => text,
        Err(e) => {
            return Err(e);
        },
    };
    match &state.service {
        None => Ok(Dispatch::Complete(SERVICE_UNAVAILABLE)),
        Some(service) => Ok(
            Dispatch::Submit(
                ServiceCall {
                    runtime: &state.runtime,
                    service,
                    request: ServiceRequest::Download { package, file },
                },
            ),
        ),
    }
}

/// The text that a failed download leaves in the error channel.
pub open spec fn download_report(outcome: Result<(), String>) -> Option<Seq<char>> {
    match outcome {
        Ok(_) => None,
        Err(reason) => Some("Error: "@ + reason@),
    }
}

/// Ends a download. The host is told zero where it went through. Where it
/// did not, the reason goes to the error channel behind the word `Error: `
/// and the host is told the code for a failed download.
pub fn finish_download_file(channel: &mut ErrorChannel, outcome: Result<(), String>) -> (err: u32)
    ensures
        final(channel)@ == record(old(channel)@, download_report(outcome)),
        err == if outcome is Ok {
            SUCCESS
        } else {
            DOWNLOAD_FAILED
        },
{
    match outcome {
        Ok(_) => SUCCESS,
        Err(reason) => {
            let mut text = "Error: ".to_owned();
            text.append(reason.as_str());
            set_last_error(channel, text);
            DOWNLOAD_FAILED
        },
    }
}

/// Releases the opened archive that `ptr` names: it leaves the table and
/// is handed to the caller, who drops it. Releasing the null handle does
/// nothing. A handle that is neither null nor names an archive is reported,
/// and nothing changes.
pub fn free_pak<P>(paks: &mut HandleTable<P>, ptr: Handle) -> (r: Result<Option<P>, BridgeError>)
    requires
        old(paks).wf(),
    ensures
        final(paks).wf(),
        final(paks).issued() == old(paks).issued(),
        final(paks)@ == old(paks)@.remove(ptr),
        old(paks).precedes(final(paks)),
        old(paks).spec_has_room() ==> final(paks).spec_has_room(),
        ptr.spec_is_null() ==> r == Ok::<Option<P>, BridgeError>(None),
        match r {
            Ok(Some(archive)) => old(paks)@.contains_key(ptr) && archive == old(paks)@[ptr],
            Ok(None) => ptr.spec_is_null() && *final(paks) == *old(paks),
            Err(e) => {
                &&& !ptr.spec_is_null()
                &&& !old(paks)@.contains_key(ptr)
                &&& e == BridgeError::InvalidHandle
                &&& *final(paks) == *old(paks)
            },
        },
{
    release_handle(paks, ptr)
}

} // verus!
