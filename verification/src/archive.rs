//! The operations on an opened archive: its mount point, the names of its
//! files, the identifiers of its chunks, the bytes of a file and the
//! content hash of a file.
//!
//! An opened archive needs no archive service any more, so none of these
//! asks whether the bridge is degraded.

use crate::bridge::DownloaderState;
use crate::dispatch::ArchiveCall;
use crate::dispatch::ArchiveRequest;
use crate::dispatch::FileDataCall;
use crate::dispatch::FileDataCallback;
use crate::dispatch::FileDataReturn;
use crate::error::BridgeError;
use crate::error::Failure;
use crate::error::SUCCESS;
use crate::error::code_of;
use crate::error::report_of;
use crate::error_channel::ErrorChannel;
use crate::error_channel::record;
use crate::error_channel::set_last_error;
use crate::handle::Handle;
use crate::handle::HandleTable;
use crate::hex::HexSlice;
use crate::hex::hex_text;
use crate::strings::get_string;
use crate::strings::inbound;
use vstd::prelude::*;

verus! {

/// Asks the archive that `ptr` names for its mount point. The text that
/// the archive gives goes out through `put_string`.
pub fn get_pak_mount<'a, P>(paks: &'a HandleTable<P>, ptr: Handle) -> (r: Result<
    ArchiveCall<'a, P>,
    BridgeError,
>)
    ensures
        match r {
            Err(e) => !paks@.contains_key(ptr) && e == BridgeError::InvalidHandle,
            Ok(call) => {
                &&& paks@.contains_key(ptr)
                &&& *call.archive == paks@[ptr]
                &&& call.request is MountPoint
            },
        },
{
    match paks.get(ptr) {
        Some(archive) => Ok(ArchiveCall { archive, request: ArchiveRequest::MountPoint }),
        None => Err(BridgeError::InvalidHandle),
    }
}

/// Asks the archive that `ptr` names for the names of its files. The list
/// that the archive gives is made an iterator by `open_iterator`.
pub fn get_file_names<'a, P>(paks: &'a HandleTable<P>, ptr: Handle) -> (r: Result<
    ArchiveCall<'a, P>,
    BridgeError,
>)
    ensures
        match r {
            Err(e) => !paks@.contains_key(ptr) && e == BridgeError::InvalidHandle,
            Ok(call) => {
                &&& paks@.contains_key(ptr)
                &&& *call.archive == paks@[ptr]
                &&& call.request is FileNames
            },
        },
{
    match paks.get(ptr) {
        Some(archive) => Ok(ArchiveCall { archive, request: ArchiveRequest::FileNames }),
        None => Err(BridgeError::InvalidHandle),
    }
}

/// Asks the archive that `ptr` names for the identifiers of its chunks. The
/// list that the archive gives is made an iterator by `open_iterator`.
pub fn get_id_list<'a, P>(paks: &'a HandleTable<P>, ptr: Handle) -> (r: Result<
    ArchiveCall<'a, P>,
    BridgeError,
>)
    ensures
        match r {
            Err(e) => !paks@.contains_key(ptr) && e == BridgeError::InvalidHandle,
            Ok(call) => {
                &&& paks@.contains_key(ptr)
                &&& *call.archive == paks@[ptr]
                &&& call.request is ChunkIds
            },
        },
{
    match paks.get(ptr) {
        Some(archive) => Ok(ArchiveCall { archive, request: ArchiveRequest::ChunkIds }),
        None => Err(BridgeError::InvalidHandle),
    }
}

/// Asks the archive that `ptr` names for the content hash of the file
/// `rfile`. The archive answers in place; [`finish_get_file_hash`] turns
/// its answer into what the host gets back.
pub fn get_file_hash<'a, P>(paks: &'a HandleTable<P>, ptr: Handle, rfile: Option<&[u8]>) -> (r:
    Result<ArchiveCall<'a, P>, BridgeError>)
    ensures
        match r {
            Err(e) => {
                ||| !paks@.contains_key(ptr) && e == BridgeError::InvalidHandle
                ||| paks@.contains_key(ptr) && inbound(rfile) == Err::<Seq<char>, BridgeError>(e)
            },
            Ok(call) => {
                &&& paks@.contains_key(ptr)
                &&& *call.archive == paks@[ptr]
                &&& call.request matches ArchiveRequest::FileHash { file }
                &&& inbound(rfile) == Ok::<Seq<char>, BridgeError>(file@)
            },
        },
{
    let archive = match paks.get(ptr) {
        Some(archive) => archive,
        None => {
            return Err(BridgeError::InvalidHandle);
        },
    };
    let file = match get_string(rfile) {
        Ok(text) => text,
        Err(e) => {
            return Err(e);
        },
    };
    Ok(ArchiveCall { archive, request: ArchiveRequest::FileHash { file } })
}

/// Turns the archive's answer to a hash request into what the host gets
/// back: the hash in upper-case hexadecimal and zero, or no text and the
/// failure's code, with the failure's text in the error channel.
pub fn finish_get_file_hash(channel: &mut ErrorChannel, outcome: Result<Vec<u8>, Failure>) -> (ret:
    FileDataReturn)
    ensures
        final(channel)@ == record(old(channel)@, report_of(outcome)),
        ret.err == code_of(outcome),
        match outcome {
            Ok(hash) => ret.content matches Some(text) && text@ == hex_text(hash@),
            Err(_) => ret.content is None,
        },
{
    match outcome {
        Ok(hash) => {
            let text = HexSlice::new(hash.as_slice()).to_hex();
            FileDataReturn { content: Some(text), err: SUCCESS }
        },
        Err(failure) => {
            let err: u32 = failure.code;
            set_last_error(channel, failure.description);
            FileDataReturn { content: None, err }
        },
    }
}

/// Starts the fetching of the bytes of the file `rfile` from the archive
/// `pakptr`, on the execution context of the bridge `rtptr`. The bridge's
/// handle is checked first, the archive's next, the file's name last.
pub fn get_file_data<'a, R, S, P>(
    bridges: &'a HandleTable<DownloaderState<R, S>>,
    paks: &'a HandleTable<P>,
    rtptr: Handle,
    pakptr: Handle,
    rfile: Option<&[u8]>,
) -> (r: Result<FileDataCall<'a, R, P>, BridgeError>)
    ensures
        match r {
            Err(e) => {
                ||| !(bridges@.contains_key(rtptr) && paks@.contains_key(pakptr)) && e
                    == BridgeError::InvalidHandle
                ||| bridges@.contains_key(rtptr) && paks@.contains_key(pakptr) && inbound(rfile)
                    == Err::<Seq<char>, BridgeError>(e)
            },
            Ok(call) => {
                &&& bridges@.contains_key(rtptr)
                &&& paks@.contains_key(pakptr)
                &&& *call.runtime == bridges@[rtptr].runtime
                &&& *call.archive == paks@[pakptr]
                &&& inbound(rfile) == Ok::<Seq<char>, BridgeError>(call.file@)
            },
        },
{
    let state = match bridges.get(rtptr) {
        Some(state) => state,
        None => {
            return Err(BridgeError::InvalidHandle);
        },
    };
    let archive = match paks.get(pakptr) {
        Some(archive) => archive,
        None => {
            return Err(BridgeError::InvalidHandle);
        },
    };
    let file = match get_string(rfile) {
        Ok(text) => text,
        Err(e) => {
            return Err(e);
        },
    };
    Ok(FileDataCall { runtime: &state.runtime, archive, file })
}

/// Ends the fetching of a file's bytes. The host is told the buffer, its
/// length as far as 32 bits hold it, and zero. A failure leaves its text
/// in the error channel; the host is told no buffer, the length zero and
/// the failure's code.
pub fn finish_get_file_data(channel: &mut ErrorChannel, outcome: Result<Vec<u8>, Failure>) -> (done:
    FileDataCallback)
    ensures
        final(channel)@ == record(old(channel)@, report_of(outcome)),
        done.err == code_of(outcome),
        match outcome {
            Ok(bytes) => done.data == Some(bytes) && done.length == bytes@.len() % 0x1_0000_0000,
            Err(_) => done.data is None && done.length == 0,
        },
{
    match outcome {
        Ok(bytes) => {
            let size: u64 = bytes.len() as u64;
            let length: u32 = (size % 0x1_0000_0000) as u32;
            FileDataCallback { data: Some(bytes), length, err: SUCCESS }
        },
        Err(failure) => {
            let err: u32 = failure.code;
            set_last_error(channel, failure.description);
            FileDataCallback { data: None, length: 0, err }
        },
    }
}

} // verus!
