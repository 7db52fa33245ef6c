//! Verified core of a native bridge to an asynchronous archive service.
//!
//! A host that cannot run the archive service itself reaches it through
//! this bridge. The host holds opaque handles, passes null-terminated
//! strings, and is answered by callbacks and codes. This crate holds what
//! the bridge decides: which handle names what, which call on the service
//! an operation comes to, what the host is told at its end, and what the
//! error channel reads. It makes no call on the service and runs no task;
//! its caller does, and hands the outcomes back.

pub mod archive;
pub mod bridge;
pub mod dispatch;
pub mod error;
pub mod error_channel;
pub mod handle;
pub mod hex;
pub mod iterator;
pub mod service;
pub mod strings;

pub use archive::finish_get_file_data;
pub use archive::finish_get_file_hash;
pub use archive::get_file_data;
pub use archive::get_file_hash;
pub use archive::get_file_names;
pub use archive::get_id_list;
pub use archive::get_pak_mount;
pub use bridge::destroy;
pub use bridge::initialize;
pub use bridge::initialize_with_manifest;
pub use bridge::DownloaderState;
pub use bridge::WORKER_THREADS;
pub use dispatch::ArchiveCall;
pub use dispatch::ArchiveRequest;
pub use dispatch::Dispatch;
pub use dispatch::FileDataCall;
pub use dispatch::FileDataCallback;
pub use dispatch::FileDataReturn;
pub use dispatch::ManifestRequest;
pub use dispatch::PakCallback;
pub use dispatch::ServiceCall;
pub use dispatch::ServiceRequest;
pub use dispatch::StateCallback;
pub use error::BridgeError;
pub use error::Failure;
pub use error::DOWNLOAD_FAILED;
pub use error::SERVICE_UNAVAILABLE;
pub use error::SUCCESS;
pub use error_channel::get_last_error;
pub use error_channel::set_last_error;
pub use error_channel::ErrorChannel;
pub use handle::release_handle;
pub use handle::Handle;
pub use handle::HandleTable;
pub use hex::HexSlice;
pub use iterator::free_vec_string;
pub use iterator::open_iterator;
pub use iterator::vec_string_get_next;
pub use iterator::VecStringHead;
pub use service::download_file;
pub use service::finish_download_file;
pub use service::finish_get_pak;
pub use service::free_pak;
pub use service::get_pak;
pub use service::get_pak_names;
pub use strings::get_optional_string;
pub use strings::get_string;
pub use strings::put_string;
