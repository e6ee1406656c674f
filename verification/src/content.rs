//! Content reading for transport.
//!
//! The embedding program reads the file's raw bytes; the library
//! classifies a MIME type purely from the file's extension and encodes
//! the bytes as a single base64 data URI. Reading raw bytes (rather
//! than validated text) keeps the image and generic binary branches of
//! the classification servable: any file's bytes travel verbatim,
//! base64-encoded.

use vstd::prelude::*;
use vstd::string::StrSliceExecFns;
use vstd::string::StringExecFns;
use base64::Engine;
use crate::text::lower_of;
use crate::text::str_eq;
use crate::text::to_lower;

verus! {

/// What base64 standard encoding returns for a byte sequence; the
/// result depends on the bytes alone.
pub uninterp spec fn b64_of(bytes: Seq<u8>) -> Seq<char>;

/// Relies on base64's `Engine::encode` with the standard padded
/// alphabet: the encoding is a function of the bytes alone, and the
/// padded output holds four characters for every started group of
/// three bytes. The length bound keeps the size computation inside the
/// crate from overflowing.
#[verifier::external_body]
fn b64_encode(bytes: &Vec<u8>) -> (r: String)
    requires
        bytes@.len() <= (usize::MAX - 4) / 4 * 3,
    ensures
        r@ == b64_of(bytes@),
        r@.len() == 4 * ((bytes@.len() + 2) / 3),
{
    base64::engine::general_purpose::STANDARD.encode(bytes.as_slice())
}

/// The extension of a file name: what follows the last dot, provided
/// the dot is neither the first character nor missing. `None` for
/// dotless names and for names that only start with a dot.
pub open spec fn extension_of(name: Seq<char>) -> Option<Seq<char>> {
    if exists|i: int| 1 <= i < name.len() && name[i] == '.' {
        let i = last_dot(name);
        Some(name.subrange(i + 1, name.len() as int))
    } else {
        None
    }
}

/// The largest index of a dot past the first character.
pub open spec fn last_dot(name: Seq<char>) -> int {
    choose|i: int|
        1 <= i < name.len() && name[i] == '.' && (forall|j: int|
            i < j < name.len() ==> name[j] != '.')
}

/// Finds the extension of a file name.
pub fn find_extension(name: &str) -> (r: Option<String>)
    ensures
        match r {
            Some(e) => extension_of(name@) == Some(e@),
            None => extension_of(name@) is None,
        },
{
    let len = name.unicode_len();
    let mut i: usize = len;
    while i > 1
        invariant
            len == name@.len(),
            0 <= i <= len,
            forall|j: int| i <= j < len ==> name@[j] != '.',
        decreases i,
    {
        i -= 1;
        if name.get_char(i) == '.' {
            let ext = name.substring_char(i + 1, len);
            proof {
                assert(1 <= i < name@.len() && name@[i as int] == '.');
                assert(last_dot(name@) == i as int) by {
                    let k = last_dot(name@);
                    assert(1 <= k < name@.len() && name@[k] == '.' && (forall|j: int|
                        k < j < name@.len() ==> name@[j] != '.'));
                };
            }
            return Some(ext.to_owned());
        }
    }
    proof {
        assert(forall|j: int| 1 <= j < name@.len() ==> name@[j] != '.');
    }
    None
}

/// The MIME type of a lower-cased extension, from the fixed lookup
/// table; unknown extensions carry the generic binary type.
pub open spec fn mime_of(ext: Seq<char>) -> Seq<char> {
    if ext == "txt"@ {
        "text/plain"@
    } else if ext == "json"@ {
        "application/json"@
    } else if ext == "html"@ || ext == "htm"@ {
        "text/html"@
    } else if ext == "css"@ {
        "text/css"@
    } else if ext == "js"@ {
        "application/javascript"@
    } else if ext == "png"@ {
        "image/png"@
    } else if ext == "jpg"@ || ext == "jpeg"@ {
        "image/jpeg"@
    } else if ext == "gif"@ {
        "image/gif"@
    } else if ext == "svg"@ {
        "image/svg+xml"@
    } else if ext == "webp"@ {
        "image/webp"@
    } else if ext == "bmp"@ {
        "image/bmp"@
    } else {
        "application/octet-stream"@
    }
}

/// Looks a lower-cased extension up in the MIME table.
pub fn mime_for(ext: &str) -> (r: &'static str)
    ensures
        r@ == mime_of(ext@),
{
    if str_eq(ext, "txt") {
        "text/plain"
    } else if str_eq(ext, "json") {
        "application/json"
    } else if str_eq(ext, "html") || str_eq(ext, "htm") {
        "text/html"
    } else if str_eq(ext, "css") {
        "text/css"
    } else if str_eq(ext, "js") {
        "application/javascript"
    } else if str_eq(ext, "png") {
        "image/png"
    } else if str_eq(ext, "jpg") || str_eq(ext, "jpeg") {
        "image/jpeg"
    } else if str_eq(ext, "gif") {
        "image/gif"
    } else if str_eq(ext, "svg") {
        "image/svg+xml"
    } else if str_eq(ext, "webp") {
        "image/webp"
    } else if str_eq(ext, "bmp") {
        "image/bmp"
    } else {
        "application/octet-stream"
    }
}

/// The MIME type of a file name: its extension (or the empty string,
/// when it has none), lower-cased, looked up in the table.
pub open spec fn mime_of_name(name: Seq<char>) -> Seq<char> {
    mime_of(
        lower_of(
            match extension_of(name) {
                Some(e) => e,
                None => Seq::empty(),
            },
        ),
    )
}

/// The data URI under which a file's bytes travel:
/// `data:<mime>;base64,<payload>`.
pub open spec fn data_uri_of(name: Seq<char>, bytes: Seq<u8>) -> Seq<char> {
    "data:"@ + mime_of_name(name) + ";base64,"@ + b64_of(bytes)
}

/// Encodes a file's raw bytes for transport as a base64 data URI, the
/// MIME type classified from the file name's extension alone.
pub fn encode_content(name: &str, bytes: &Vec<u8>) -> (r: String)
    requires
        bytes@.len() <= (usize::MAX - 4) / 4 * 3,
    ensures
        r@ == data_uri_of(name@, bytes@),
{
    let ext = match find_extension(name) {
        Some(e) => e,
        None => String::new(),
    };
    let low = to_lower(ext.as_str());
    let mime = mime_for(low.as_str());
    let payload = b64_encode(bytes);
    let mut r = String::new();
    r.append("data:");
    r.append(mime);
    r.append(";base64,");
    r.append(payload.as_str());
    proof {
        assert(r@ =~= data_uri_of(name@, bytes@));
    }
    r
}

} // verus!
