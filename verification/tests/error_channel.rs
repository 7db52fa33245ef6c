use archive_bridge::get_last_error;
use archive_bridge::set_last_error;
use archive_bridge::ErrorChannel;

#[test]
fn last_error_before_any_failure_is_the_placeholder() {
    let channel = ErrorChannel::new();
    assert_eq!(get_last_error(&channel), "No Error");
    assert_eq!(get_last_error(&channel), "No Error");
}

#[test]
fn set_overwrites_the_slot() {
    let mut channel = ErrorChannel::new();
    set_last_error(&mut channel, "manifest not found".to_string());
    assert_eq!(get_last_error(&channel), "manifest not found");
}

#[test]
fn last_writer_wins() {
    let mut channel = ErrorChannel::new();
    set_last_error(&mut channel, "first".to_string());
    set_last_error(&mut channel, "second".to_string());
    assert_eq!(get_last_error(&channel), "second");
    set_last_error(&mut channel, String::new());
    assert_eq!(get_last_error(&channel), "");
}

#[test]
fn reading_leaves_the_slot_as_it_is() {
    let mut channel = ErrorChannel::new();
    set_last_error(&mut channel, "kept".to_string());
    let mut copy = get_last_error(&channel);
    copy.push_str(" and changed");
    assert_eq!(get_last_error(&channel), "kept");
}
