use archive_bridge::finish_get_file_data;
use archive_bridge::finish_get_file_hash;
use archive_bridge::get_file_data;
use archive_bridge::get_file_hash;
use archive_bridge::get_file_names;
use archive_bridge::get_id_list;
use archive_bridge::get_last_error;
use archive_bridge::get_pak_mount;
use archive_bridge::initialize;
use archive_bridge::ArchiveRequest;
use archive_bridge::BridgeError;
use archive_bridge::DownloaderState;
use archive_bridge::ErrorChannel;
use archive_bridge::Failure;
use archive_bridge::Handle;
use archive_bridge::HandleTable;

type Bridges = HandleTable<DownloaderState<u32, &'static str>>;

fn two_archives() -> (HandleTable<&'static str>, Handle, Handle) {
    let mut paks: HandleTable<&'static str> = HandleTable::new();
    let a = paks.insert("first");
    let b = paks.insert("second");
    (paks, a, b)
}

#[test]
fn mount_point_is_asked_of_the_archive_that_is_named() {
    let (paks, a, b) = two_archives();
    let call = get_pak_mount(&paks, b).unwrap();
    assert_eq!(*call.archive, "second");
    assert!(matches!(call.request, ArchiveRequest::MountPoint));
    let call = get_pak_mount(&paks, a).unwrap();
    assert_eq!(*call.archive, "first");
}

#[test]
fn file_names_are_asked_of_the_archive_that_is_named() {
    let (paks, a, _) = two_archives();
    let call = get_file_names(&paks, a).unwrap();
    assert_eq!(*call.archive, "first");
    assert!(matches!(call.request, ArchiveRequest::FileNames));
}

#[test]
fn chunk_ids_are_asked_of_the_archive_that_is_named() {
    let (paks, _, b) = two_archives();
    let call = get_id_list(&paks, b).unwrap();
    assert_eq!(*call.archive, "second");
    assert!(matches!(call.request, ArchiveRequest::ChunkIds));
}

#[test]
fn asking_no_archive_is_reported() {
    let (mut paks, a, _) = two_archives();
    assert!(matches!(get_pak_mount(&paks, Handle::null()), Err(BridgeError::InvalidHandle)));
    assert!(matches!(get_file_names(&paks, Handle::null()), Err(BridgeError::InvalidHandle)));
    assert!(matches!(get_id_list(&paks, Handle::null()), Err(BridgeError::InvalidHandle)));
    assert!(matches!(
        get_file_hash(&paks, Handle::null(), Some(b"a.txt")),
        Err(BridgeError::InvalidHandle)
    ));
    assert_eq!(paks.release(a), Some("first"));
    assert!(matches!(get_pak_mount(&paks, a), Err(BridgeError::InvalidHandle)));
    assert!(matches!(get_file_names(&paks, a), Err(BridgeError::InvalidHandle)));
    assert!(matches!(get_id_list(&paks, a), Err(BridgeError::InvalidHandle)));
}

#[test]
fn hash_is_asked_for_the_file_that_is_named() {
    let (paks, a, _) = two_archives();
    let call = get_file_hash(&paks, a, Some(b"a.txt")).unwrap();
    assert_eq!(*call.archive, "first");
    match call.request {
        ArchiveRequest::FileHash { file } => assert_eq!(file, "a.txt"),
        _ => panic!("a hash was to be asked for"),
    }
}

#[test]
fn hash_request_judges_the_handle_before_the_string() {
    let (paks, a, _) = two_archives();
    assert!(matches!(get_file_hash(&paks, Handle::null(), None), Err(BridgeError::InvalidHandle)));
    assert!(matches!(get_file_hash(&paks, a, None), Err(BridgeError::NullString)));
    assert!(matches!(get_file_hash(&paks, a, Some(&[0xFF])), Err(BridgeError::InvalidEncoding)));
}

#[test]
fn hash_goes_back_as_hexadecimal_text_with_code_zero() {
    let mut channel = ErrorChannel::new();
    let ret = finish_get_file_hash(&mut channel, Ok(vec![0xDE, 0xAD, 0xBE, 0xEF, 0x00, 0x7F]));
    assert_eq!(ret.content, Some("DEADBEEF007F".to_string()));
    assert_eq!(ret.err, 0);
    assert_eq!(get_last_error(&channel), "No Error");
}

#[test]
fn failed_hash_goes_back_as_no_text_with_the_code() {
    let mut channel = ErrorChannel::new();
    let failure = Failure { code: 6, description: "no such file".to_string() };
    let ret = finish_get_file_hash(&mut channel, Err(failure));
    assert_eq!(ret.content, None);
    assert_eq!(ret.err, 6);
    assert_eq!(get_last_error(&channel), "no such file");
}

#[test]
fn bytes_are_fetched_on_the_bridge_from_the_archive() {
    let mut bridges: Bridges = HandleTable::new();
    let mut channel = ErrorChannel::new();
    let state = initialize(&mut bridges, &mut channel, 21, Ok("service")).state;
    let (paks, a, _) = two_archives();
    let call = get_file_data(&bridges, &paks, state, a, Some(b"a.txt")).unwrap();
    assert_eq!(*call.runtime, 21);
    assert_eq!(*call.archive, "first");
    assert_eq!(call.file, "a.txt");
}

#[test]
fn bytes_are_fetched_on_a_degraded_bridge_too() {
    let mut bridges: Bridges = HandleTable::new();
    let mut channel = ErrorChannel::new();
    let failure = Failure { code: 9, description: "down".to_string() };
    let state = initialize(&mut bridges, &mut channel, 22, Err(failure)).state;
    let (paks, _, b) = two_archives();
    let call = get_file_data(&bridges, &paks, state, b, Some(b"b.bin")).unwrap();
    assert_eq!(*call.runtime, 22);
    assert_eq!(*call.archive, "second");
    assert_eq!(call.file, "b.bin");
}

#[test]
fn fetching_judges_both_handles_before_the_string() {
    let mut bridges: Bridges = HandleTable::new();
    let mut channel = ErrorChannel::new();
    let state = initialize(&mut bridges, &mut channel, 21, Ok("service")).state;
    let (paks, a, _) = two_archives();
    assert!(matches!(
        get_file_data(&bridges, &paks, Handle::null(), a, Some(b"a.txt")),
        Err(BridgeError::InvalidHandle)
    ));
    assert!(matches!(
        get_file_data(&bridges, &paks, state, Handle::null(), Some(b"a.txt")),
        Err(BridgeError::InvalidHandle)
    ));
    assert!(matches!(
        get_file_data(&bridges, &paks, state, Handle::null(), None),
        Err(BridgeError::InvalidHandle)
    ));
    assert!(matches!(
        get_file_data(&bridges, &paks, state, a, None),
        Err(BridgeError::NullString)
    ));
    assert!(matches!(
        get_file_data(&bridges, &paks, state, a, Some(&[0xFF])),
        Err(BridgeError::InvalidEncoding)
    ));
}

#[test]
fn fetched_bytes_are_told_with_their_length_and_code_zero() {
    let mut channel = ErrorChannel::new();
    let done = finish_get_file_data(&mut channel, Ok(vec![1, 2, 3, 4, 5]));
    assert_eq!(done.data, Some(vec![1, 2, 3, 4, 5]));
    assert_eq!(done.length, 5);
    assert_eq!(done.err, 0);
    assert_eq!(get_last_error(&channel), "No Error");
}

#[test]
fn empty_file_is_told_as_a_buffer_of_length_zero() {
    let mut channel = ErrorChannel::new();
    let done = finish_get_file_data(&mut channel, Ok(Vec::new()));
    assert_eq!(done.data, Some(Vec::new()));
    assert_eq!(done.length, 0);
    assert_eq!(done.err, 0);
}

#[test]
fn failed_fetch_is_told_as_no_buffer_with_the_code() {
    let mut channel = ErrorChannel::new();
    let failure = Failure { code: 8, description: "read failed".to_string() };
    let done = finish_get_file_data(&mut channel, Err(failure));
    assert_eq!(done.data, None);
    assert_eq!(done.length, 0);
    assert_eq!(done.err, 8);
    assert_eq!(get_last_error(&channel), "read failed");
}
