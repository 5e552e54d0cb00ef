//! Image files picked in the file dialog, prepared for the renderer: contents
//! in base64, a MIME type from the file's extension, and a display name.

use vstd::prelude::*;

use crate::protocol::text_eq;

verus! {

/// A picked image as the renderer receives it.
#[derive(Clone, Debug, PartialEq, Eq)]
pub struct Attachment {
    pub data: String,
    pub mime_type: String,
    pub filename: String,
}

/// The standard-alphabet, padded base64 text of `bytes`.
pub uninterp spec fn base64_standard(bytes: Seq<u8>) -> Seq<char>;

/// The Unicode lower-case mapping of `s`.
pub uninterp spec fn lowercase_of(s: Seq<char>) -> Seq<char>;

/// Relies on base64's `STANDARD.encode` (standard alphabet, with padding),
/// which panics only when the encoded length does not fit in `usize`.
#[verifier::external_body]
fn encode_base64(bytes: &Vec<u8>) -> (r: String)
    requires
        bytes@.len() / 3 <= (usize::MAX - 4) / 4,
    ensures
        r@ == base64_standard(bytes@),
{
    base64::Engine::encode(&base64::engine::general_purpose::STANDARD, bytes)
}

/// Relies on `str::to_lowercase`: the result depends on the characters alone.
#[verifier::external_body]
fn lowercase(s: &str) -> (r: String)
    ensures
        r@ == lowercase_of(s@),
{
    s.to_lowercase()
}

/// The MIME type for a lower-cased extension: the four image formats the
/// dialog offers, and PNG for anything else or no extension.
pub open spec fn mime_type_of(lower_extension: Option<Seq<char>>) -> Seq<char> {
    match lower_extension {
        Some(e) => if e == "jpg"@ || e == "jpeg"@ {
            "image/jpeg"@
        } else if e == "gif"@ {
            "image/gif"@
        } else if e == "webp"@ {
            "image/webp"@
        } else {
            "image/png"@
        },
        None => "image/png"@,
    }
}

/// The MIME type for an already lower-cased extension.
pub fn mime_type_for(lower_extension: Option<&str>) -> (r: String)
    ensures
        r@ == mime_type_of(
            match lower_extension {
                Some(e) => Some(e@),
                None => None,
            },
        ),
{
    match lower_extension {
        Some(e) => {
            if text_eq(e, "jpg") || text_eq(e, "jpeg") {
                String::from_str("image/jpeg")
            } else if text_eq(e, "gif") {
                String::from_str("image/gif")
            } else if text_eq(e, "webp") {
                String::from_str("image/webp")
            } else {
                String::from_str("image/png")
            }
        },
        None => String::from_str("image/png"),
    }
}

/// Whether `n` bytes can be encoded without the length overflowing.
pub open spec fn encodable(n: nat) -> bool {
    n / 3 <= (usize::MAX - 4) / 4
}

/// Prepares a picked file: its contents in base64, the MIME type of its
/// extension compared without case, and its name, `image` when it has none.
/// `None` for contents too long to encode.
pub fn attachment(contents: &Vec<u8>, extension: Option<&str>, filename: Option<&str>) -> (r: Option<
    Attachment,
>)
    ensures
        r is None <==> !encodable(contents@.len()),
        r matches Some(a) ==> {
            &&& a.data@ == base64_standard(contents@)
            &&& a.mime_type@ == mime_type_of(
                match extension {
                    Some(e) => Some(lowercase_of(e@)),
                    None => None,
                },
            )
            &&& a.filename@ == match filename {
                Some(f) => f@,
                None => "image"@,
            }
        },
{
    if contents.len() / 3 > (usize::MAX - 4) / 4 {
        return None;
    }
    let data = encode_base64(contents);
    let mime_type = match extension {
        Some(e) => {
            let lower = lowercase(e);
            mime_type_for(Some(lower.as_str()))
        },
        None => mime_type_for(None),
    };
    let filename = match filename {
        Some(f) => String::from_str(f),
        None => String::from_str("image"),
    };
    Some(Attachment { data, mime_type, filename })
}

} // verus!
