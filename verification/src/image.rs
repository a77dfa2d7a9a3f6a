use vstd::prelude::*;

use crate::command::{Command, CommandView};
use crate::mailbox::{after_submit, Mailbox};

verus! {

/// The SHA-2 256 digest of `content`, as the 64 lowercase hexadecimal digits
/// that the `chksum` crate prints for it.
pub uninterp spec fn sha2_256_hex(content: Seq<u8>) -> Seq<char>;

/// Trusted: `chksum::sha2_256::chksum` on bytes in memory, followed by the
/// digest's `Display`. The result is the digest of exactly these bytes, a
/// function of them alone. For data in memory the crate feeds the hasher and
/// returns `Ok`: its errors belong to paths, files and standard input, so
/// the contract promises a digest. Nothing here is proved about it.
#[verifier::external_body]
fn content_digest(content: &[u8]) -> (digest: Option<String>)
    ensures
        digest is Some,
        digest matches Some(hex) ==> hex@ == sha2_256_hex(content@),
{
    match chksum::sha2_256::chksum(content) {
        Ok(digest) => Some(digest.to_string()),
        Err(_) => None,
    }
}

/// A firmware image that was selected for flashing. It is made once and
/// never changed; the file behind it belongs to the filesystem.
#[derive(Debug)]
pub struct FirmwareImage {
    name: String,
    checksum: String,
    file_path: String,
}

/// The mathematical value of a [`FirmwareImage`].
pub struct FirmwareImageView {
    /// The name shown for the image.
    pub name: Seq<char>,
    /// The digest of the image's content.
    pub checksum: Seq<char>,
    /// The reference that a `Start` command carries.
    pub file_path: Seq<char>,
}

impl View for FirmwareImage {
    type V = FirmwareImageView;

    closed spec fn view(&self) -> FirmwareImageView {
        FirmwareImageView {
            name: self.name@,
            checksum: self.checksum@,
            file_path: self.file_path@,
        }
    }
}

impl FirmwareImage {
    /// An image record with a digest that was computed elsewhere.
    pub fn new(name: String, checksum: String, file_path: String) -> (image: FirmwareImage)
        ensures
            image@ == (FirmwareImageView {
                name: name@,
                checksum: checksum@,
                file_path: file_path@,
            }),
    {
        FirmwareImage { name, checksum, file_path }
    }

    /// The record of a file that was just selected: `content` is what was
    /// read from it, and its digest becomes the checksum.
    pub fn select(name: String, file_path: String, content: &[u8]) -> (image: FirmwareImage)
        ensures
            image@ == (FirmwareImageView {
                name: name@,
                checksum: sha2_256_hex(content@),
                file_path: file_path@,
            }),
    {
        let digest = content_digest(content);
        FirmwareImage::new(name, digest.unwrap(), file_path)
    }

    /// The name shown for the image.
    pub fn name(&self) -> (name: &str)
        ensures
            name@ == self@.name,
    {
        self.name.as_str()
    }

    /// The digest of the image's content.
    pub fn checksum(&self) -> (checksum: &str)
        ensures
            checksum@ == self@.checksum,
    {
        self.checksum.as_str()
    }

    /// The reference to the image's file.
    pub fn file_path(&self) -> (file_path: &str)
        ensures
            file_path@ == self@.file_path,
    {
        self.file_path.as_str()
    }

    /// The command that asks to flash this image.
    pub fn start_command(&self) -> (command: Command)
        ensures
            command@ == CommandView::Start(self@.file_path),
    {
        Command::Start(self.file_path.clone())
    }
}

/// The mailbox slot after the start trigger fired with `selected` as the
/// current selection.
pub open spec fn after_request(slot: Option<CommandView>, selected: Option<FirmwareImageView>) -> Option<
    CommandView,
> {
    match selected {
        Some(image) => after_submit(slot, CommandView::Start(image.file_path)),
        None => slot,
    }
}

/// The value of an image that may be absent.
pub open spec fn view_of_selection(selected: Option<&FirmwareImage>) -> Option<FirmwareImageView> {
    match selected {
        Some(image) => Some(image@),
        None => None,
    }
}

/// The start trigger: submits `Start` for the selected image, and does
/// nothing when no image is selected. Says whether a command was submitted.
pub fn request_start(mailbox: &mut Mailbox, selected: Option<&FirmwareImage>) -> (submitted: bool)
    ensures
        submitted == selected is Some,
        final(mailbox)@ == after_request(old(mailbox)@, view_of_selection(selected)),
{
    match selected {
        Some(image) => {
            mailbox.submit(image.start_command());
            true
        },
        None => false,
    }
}

} // verus!
