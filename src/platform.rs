//! The platform clipboard as this library sees it: the outside types it
//! carries and the calls it makes into `window_clipboard`.

use vstd::prelude::*;

use iced_core::clipboard::Kind;

verus! {

/// The selection an operation targets: `iced_core`'s clipboard kind,
/// read by its two variants.
#[verifier::external_type_specification]
pub struct ExKind(iced_core::clipboard::Kind);

/// A live connection to the platform clipboard of one window.
#[verifier::external_type_specification]
#[verifier::external_body]
pub struct ExPlatformClipboard(window_clipboard::Clipboard);

/// One write handed to the platform: the selection it targeted, the text
/// handed over, and the platform's answer (`None` where the selection is
/// unsupported).
pub type WriteAttempt = (Kind, Seq<char>, Option<Result<(), String>>);

/// A platform clipboard together with the record of every write handed to it.
pub(crate) struct Platform {
    pub(crate) clipboard: window_clipboard::Clipboard,
    pub(crate) writes: Ghost<Seq<WriteAttempt>>,
}

/// Relies on `window_clipboard::Clipboard::read`: the text of the standard
/// clipboard, or the failure's message. What comes back depends on the
/// system clipboard, so nothing more is stated.
#[verifier::external_body]
pub(crate) fn platform_read(platform: &Platform) -> (r: Result<String, String>) {
    platform.clipboard.read().map_err(|error| error.to_string())
}

/// Relies on `window_clipboard::Clipboard::read_primary`: `None` where the
/// backend has no primary selection, else the text of the primary selection
/// or the failure's message. Nothing more is stated of the system's answer.
#[verifier::external_body]
pub(crate) fn platform_read_primary(platform: &Platform) -> (r: Option<Result<String, String>>) {
    platform.clipboard.read_primary().map(|result| result.map_err(|error| error.to_string()))
}

/// Relies on `window_clipboard::Clipboard::write`: one attempt to store
/// `contents` in the standard clipboard, `Err` with the failure's message
/// where the system refused it. The attempt and its answer join the record.
#[verifier::external_body]
pub(crate) fn platform_write(platform: &mut Platform, contents: String) -> (r: Result<(), String>)
    ensures
        final(platform).writes@ == old(platform).writes@.push((Kind::Standard, contents@, Some(r))),
{
    platform.clipboard.write(contents).map_err(|error| error.to_string())
}

/// Relies on `window_clipboard::Clipboard::write_primary`: `None` where the
/// backend has no primary selection, else the outcome of one attempt to store
/// `contents` there. The attempt and its answer join the record.
#[verifier::external_body]
pub(crate) fn platform_write_primary(
    platform: &mut Platform,
    contents: String,
) -> (r: Option<Result<(), String>>)
    ensures
        final(platform).writes@ == old(platform).writes@.push((Kind::Primary, contents@, r)),
{
    platform.clipboard.write_primary(contents).map(|result| result.map_err(|error| error.to_string()))
}

} // verus!
