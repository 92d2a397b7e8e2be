//! Short texts of bounded length that are put into the channel as they are.
//!
//! A text is an `arrayvec` string of 128 bytes. It is put together from
//! pieces: a piece that fits into what is left goes in whole, and one that
//! does not fit ends the text where it stands.

use vstd::prelude::*;
use vstd::string::StringSliceAdditionalSpecFns;

verus! {

/// Bytes that a text can hold at most.
pub const TEXT_CAPACITY: usize = 128;

#[verifier::external_type_specification]
#[verifier::external_body]
pub struct ExArrayString<const CAP: usize>(arrayvec::ArrayString<CAP>);

/// The bytes of the text that the string holds.
pub uninterp spec fn text_of(text: arrayvec::ArrayString<128>) -> Seq<u8>;

/// Whether a piece fits behind a text.
pub open spec fn fits(text: Seq<u8>, piece: Seq<u8>) -> bool {
    text.len() + piece.len() <= TEXT_CAPACITY
}

/// `ArrayString::new`.
///
/// Trusted: the new string holds no text.
#[verifier::external_body]
pub(crate) fn empty_text() -> (text: arrayvec::ArrayString<128>)
    ensures
        text_of(text) == Seq::<u8>::empty(),
{
    arrayvec::ArrayString::new()
}

/// `ArrayString::try_push_str`.
///
/// Trusted: a piece is taken exactly when its bytes fit into what the string
/// has left of its capacity; it then stands whole behind the text that was
/// there. A piece that is not taken leaves the string as it was.
#[verifier::external_body]
pub(crate) fn push_piece(text: &mut arrayvec::ArrayString<128>, piece: &str) -> (taken: bool)
    ensures
        taken == fits(text_of(*old(text)), piece.spec_bytes()),
        taken ==> text_of(*final(text)) == text_of(*old(text)) + piece.spec_bytes(),
        !taken ==> text_of(*final(text)) == text_of(*old(text)),
{
    text.try_push_str(piece).is_ok()
}

/// `str::as_bytes` on the string slice that an `ArrayString` dereferences to.
///
/// Trusted: the slice is the text that the string holds, which never takes
/// more bytes than the string's capacity.
#[verifier::external_body]
pub(crate) fn text_bytes<'a>(text: &'a arrayvec::ArrayString<128>) -> (bytes: &'a [u8])
    ensures
        bytes@ == text_of(*text),
        bytes@.len() <= TEXT_CAPACITY,
{
    text.as_bytes()
}

} // verus!
