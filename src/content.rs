//! Reading an attachment's content for display: the kind of content follows
//! from the file type, and binary formats that can be shown travel as base64.
use vstd::prelude::*;

use vstd::utf8::encode_utf8;

use crate::text::same_text;

verus! {

/// How a file's content is handed out.
#[derive(PartialEq, Eq, Structural, Clone, Copy, Debug)]
pub enum ContentKind {
    /// Read as text.
    Text,
    /// An image, as base64.
    Image,
    /// A PDF document, as base64.
    Pdf,
    /// Anything else: only its size.
    Binary,
}

/// The file types whose content is text.
pub open spec fn is_text_type(t: Seq<char>) -> bool {
    t == "txt"@ || t == "md"@ || t == "json"@ || t == "swift"@ || t == "rs"@ || t == "py"@ || t == "js"@
        || t == "ts"@ || t == "html"@ || t == "css"@ || t == "sql"@ || t == "yaml"@ || t == "yml"@
        || t == "toml"@ || t == "xml"@
}

/// The file types shown as images.
pub open spec fn is_image_type(t: Seq<char>) -> bool {
    t == "png"@ || t == "jpg"@ || t == "jpeg"@ || t == "gif"@ || t == "webp"@
}

/// The kind of content of a file of type `t`.
pub open spec fn kind_of(t: Seq<char>) -> ContentKind {
    if is_text_type(t) {
        ContentKind::Text
    } else if is_image_type(t) {
        ContentKind::Image
    } else if t == "pdf"@ {
        ContentKind::Pdf
    } else {
        ContentKind::Binary
    }
}

/// The kind of content of a file of type `file_type`.
pub fn content_kind(file_type: &str) -> (r: ContentKind)
    ensures
        r == kind_of(file_type@),
{
    let t = file_type;
    if same_text(t, "txt") || same_text(t, "md") || same_text(t, "json") || same_text(t, "swift")
        || same_text(t, "rs") || same_text(t, "py") || same_text(t, "js") || same_text(t, "ts")
        || same_text(t, "html") || same_text(t, "css") || same_text(t, "sql") || same_text(t, "yaml")
        || same_text(t, "yml") || same_text(t, "toml") || same_text(t, "xml") {
        ContentKind::Text
    } else if same_text(t, "png") || same_text(t, "jpg") || same_text(t, "jpeg") || same_text(t, "gif")
        || same_text(t, "webp") {
        ContentKind::Image
    } else if same_text(t, "pdf") {
        ContentKind::Pdf
    } else {
        ContentKind::Binary
    }
}

/// The standard base64 alphabet, by value.
pub open spec fn base64_alphabet() -> Seq<char> {
    seq![
        'A', 'B', 'C', 'D', 'E', 'F', 'G', 'H', 'I', 'J', 'K', 'L', 'M', 'N', 'O', 'P', 'Q', 'R', 'S', 'T', 'U',
        'V', 'W', 'X', 'Y', 'Z', 'a', 'b', 'c', 'd', 'e', 'f', 'g', 'h', 'i', 'j', 'k', 'l', 'm', 'n', 'o', 'p',
        'q', 'r', 's', 't', 'u', 'v', 'w', 'x', 'y', 'z', '0', '1', '2', '3', '4', '5', '6', '7', '8', '9', '+',
        '/',
    ]
}

/// Padded standard base64 (RFC 4648): each three bytes become four
/// characters of six bits each; a final one or two bytes are padded with `=`.
pub open spec fn base64_of(b: Seq<u8>) -> Seq<char>
    decreases b.len(),
{
    let a = base64_alphabet();
    let x0 = b[0] as int;
    let x1 = if b.len() > 1 { b[1] as int } else { 0 };
    let x2 = if b.len() > 2 { b[2] as int } else { 0 };
    if b.len() == 0 {
        Seq::empty()
    } else if b.len() == 1 {
        seq![a[x0 / 4], a[(x0 % 4) * 16], '=', '=']
    } else if b.len() == 2 {
        seq![a[x0 / 4], a[(x0 % 4) * 16 + x1 / 16], a[(x1 % 16) * 4], '=']
    } else {
        seq![a[x0 / 4], a[(x0 % 4) * 16 + x1 / 16], a[(x1 % 16) * 4 + x2 / 64], a[x2 % 64]] + base64_of(
            b.subrange(3, b.len() as int),
        )
    }
}

/// Relies on `base64::Engine::encode` with `base64::engine::general_purpose::STANDARD`
/// (standard alphabet, padded); it panics only when the encoded length overflows.
#[verifier::external_body]
fn encode_base64(b: &[u8]) -> (r: String)
    requires
        b@.len() <= usize::MAX / 2,
    ensures
        r@ == base64_of(b@),
{
    base64::Engine::encode(&base64::engine::general_purpose::STANDARD, b)
}

/// A file's content, as handed out for display.
pub enum FileContent {
    Text { content: String, size: usize },
    Image { content: String, size: usize, mime_type: String },
    Pdf { content: String, size: usize },
    Binary { size: u64, message: String },
}

/// The content of a text file; its size is in bytes.
pub fn text_content(content: String) -> (r: FileContent)
    ensures
        r == (FileContent::Text { content, size: encode_utf8(content@).len() as usize }),
{
    let size = content.as_str().len();
    FileContent::Text { content, size }
}

/// The content of an image file of type `file_type`, as base64.
pub fn image_content(file_type: &str, data: &[u8]) -> (r: FileContent)
    requires
        data@.len() <= usize::MAX / 2,
    ensures
        (r matches FileContent::Image { content, size, mime_type } && content@ == base64_of(data@) && size
            == data@.len() && mime_type@ == "image/"@ + file_type@),
{
    let content = encode_base64(data);
    let mut mime_type = String::from_str("image/");
    mime_type.append(file_type);
    FileContent::Image { content, size: data.len(), mime_type }
}

/// The content of a PDF document, as base64.
pub fn pdf_content(data: &[u8]) -> (r: FileContent)
    requires
        data@.len() <= usize::MAX / 2,
    ensures
        (r matches FileContent::Pdf { content, size } && content@ == base64_of(data@) && size == data@.len()),
{
    let content = encode_base64(data);
    FileContent::Pdf { content, size: data.len() }
}

/// What is handed out for a binary file: its size and a note.
pub fn binary_content(size: u64) -> (r: FileContent)
    ensures
        (r matches FileContent::Binary { size: n, message } && n == size && message@
            == "Binary file content not readable as text"@),
{
    FileContent::Binary { size, message: String::from_str("Binary file content not readable as text") }
}

} // verus!
