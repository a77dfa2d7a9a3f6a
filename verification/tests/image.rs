use flash_monitor::command::Command;
use flash_monitor::image::{request_start, FirmwareImage};
use flash_monitor::mailbox::Mailbox;

#[test]
fn select_computes_the_digest_of_the_content() {
    let image = FirmwareImage::select("fw.elf".to_string(), "/tmp/fw.elf".to_string(), b"abc");
    assert_eq!(image.name(), "fw.elf");
    assert_eq!(image.file_path(), "/tmp/fw.elf");
    assert_eq!(
        image.checksum(),
        "ba7816bf8f01cfea414140de5dae2223b00361a396177a9cb410ff61f20015ad"
    );
}

#[test]
fn select_of_an_empty_file_has_the_empty_digest() {
    let image = FirmwareImage::select("empty".to_string(), "empty".to_string(), b"");
    assert_eq!(
        image.checksum(),
        "e3b0c44298fc1c149afbf4c8996fb92427ae41e4649b934ca495991b7852b855"
    );
}

#[test]
fn select_digests_content_longer_than_one_block() {
    let content = vec![0x61u8; 1_000_000];
    let image = FirmwareImage::select("big".to_string(), "big".to_string(), &content);
    assert_eq!(
        image.checksum(),
        "cdc76e5c9914fb9281a1c7e284d73e67f1809a48a497200e046d39ccc7112cd0"
    );
}

#[test]
fn digest_depends_on_the_content_only() {
    let one = FirmwareImage::select("a".to_string(), "a.elf".to_string(), b"same");
    let other = FirmwareImage::select("b".to_string(), "b.elf".to_string(), b"same");
    let third = FirmwareImage::select("a".to_string(), "a.elf".to_string(), b"other");
    assert_eq!(one.checksum(), other.checksum());
    assert_ne!(one.checksum(), third.checksum());
}

#[test]
fn new_keeps_the_given_fields() {
    let image = FirmwareImage::new("n".to_string(), "c".to_string(), "p".to_string());
    assert_eq!(image.name(), "n");
    assert_eq!(image.checksum(), "c");
    assert_eq!(image.file_path(), "p");
}

#[test]
fn start_command_carries_the_file_path() {
    let image = FirmwareImage::new("fw".to_string(), "00".to_string(), "/x/fw.elf".to_string());
    assert_eq!(image.start_command(), Command::Start("/x/fw.elf".to_string()));
}

#[test]
fn request_start_submits_the_selected_image() {
    let image = FirmwareImage::new("fw".to_string(), "00".to_string(), "/x/fw.elf".to_string());
    let mut mailbox = Mailbox::new();
    assert!(request_start(&mut mailbox, Some(&image)));
    assert_eq!(mailbox.take(), Some(Command::Start("/x/fw.elf".to_string())));
}

#[test]
fn request_start_without_selection_does_nothing() {
    let mut mailbox = Mailbox::new();
    assert!(!request_start(&mut mailbox, None));
    assert!(mailbox.is_empty());
}

#[test]
fn request_start_without_selection_keeps_a_pending_command() {
    let mut mailbox = Mailbox::new();
    mailbox.submit(Command::Stop);
    assert!(!request_start(&mut mailbox, None));
    assert_eq!(mailbox.take(), Some(Command::Stop));
}

#[test]
fn request_start_replaces_a_pending_command() {
    let first = FirmwareImage::new("a".to_string(), "00".to_string(), "a.elf".to_string());
    let second = FirmwareImage::new("b".to_string(), "00".to_string(), "b.elf".to_string());
    let mut mailbox = Mailbox::new();
    assert!(request_start(&mut mailbox, Some(&first)));
    assert!(request_start(&mut mailbox, Some(&second)));
    assert_eq!(mailbox.take(), Some(Command::Start("b.elf".to_string())));
    assert_eq!(mailbox.take(), None);
}
