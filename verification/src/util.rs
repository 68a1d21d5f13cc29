//! Property lists as bytes and as text.

use vstd::prelude::*;

use crate::document::{plist_xml, Dictionary, Doc};
use crate::error::{Error, ErrorView};
use crate::text::string_from_utf8;

verus! {

/// The text of the error for a document that cannot be written as a
/// property list.
pub open spec fn not_writable() -> Seq<char> {
    "cannot be written as a property list"@
}

/// Writes a document as an XML property list.
pub fn plist_to_buf(value: &Dictionary) -> (res: Result<Vec<u8>, Error>)
    ensures
        res is Ok <==> plist_xml(Doc::Dictionary(value@)) is Some,
        res matches Ok(bytes) ==> bytes@ == plist_xml(Doc::Dictionary(value@))->0,
        res matches Err(e) ==> e@ == ErrorView::PlistError(not_writable()),
{
    match value.encode_xml() {
        Some(bytes) => Ok(bytes),
        None => Err(Error::PlistError("cannot be written as a property list".to_owned())),
    }
}

/// The text of a document as an XML property list, or `None` where the
/// document cannot be written as one or what is written is no UTF-8.
pub open spec fn plist_text(doc: Doc) -> Option<Seq<char>> {
    match plist_xml(doc) {
        Some(bytes) => if vstd::utf8::valid_utf8(bytes) {
            Some(vstd::utf8::decode_utf8(bytes))
        } else {
            None
        },
        None => None,
    }
}

/// Writes a document as the text of an XML property list.
pub fn plist_to_string(value: &Dictionary) -> (res: Result<String, Error>)
    ensures
        res is Ok <==> plist_text(Doc::Dictionary(value@)) is Some,
        res matches Ok(text) ==> text@ == plist_text(Doc::Dictionary(value@))->0,
        res matches Err(e) ==> e@ == ErrorView::PlistError(not_writable()),
{
    let bytes = plist_to_buf(value)?;
    match string_from_utf8(bytes) {
        Some(text) => Ok(text),
        None => Err(Error::PlistError("cannot be written as a property list".to_owned())),
    }
}

} // verus!
