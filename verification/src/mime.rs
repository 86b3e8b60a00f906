//! Content types by file extension.

use vstd::prelude::*;
use vstd::string::StringSliceAdditionalSpecFns;
use crate::path::extension;
use crate::path::final_extension;
use crate::path::same_bytes;

verus! {

/// The content type of what the table does not know.
pub const OCTET_STREAM: &'static str = "application/octet-stream";

/// The content type of HTML documents.
pub const TEXT_HTML: &'static str = "text/html; charset=utf-8";

/// The content type of style sheets.
pub const TEXT_CSS: &'static str = "text/css; charset=utf-8";

/// The content type of scripts and modules.
pub const TEXT_JAVASCRIPT: &'static str = "text/javascript; charset=utf-8";

/// The content type of JSON documents and source maps.
pub const APPLICATION_JSON: &'static str = "application/json; charset=utf-8";

/// The content type of plain text and logs.
pub const TEXT_PLAIN: &'static str = "text/plain; charset=utf-8";

/// The content type of WebAssembly modules.
pub const APPLICATION_WASM: &'static str = "application/wasm";

/// The content type of SVG images.
pub const IMAGE_SVG: &'static str = "image/svg+xml";

/// The content type of PNG images.
pub const IMAGE_PNG: &'static str = "image/png";

/// The content type of JPEG images.
pub const IMAGE_JPEG: &'static str = "image/jpeg";

/// The content type of GIF images.
pub const IMAGE_GIF: &'static str = "image/gif";

/// The content type of WebP images.
pub const IMAGE_WEBP: &'static str = "image/webp";

/// The content type of icons.
pub const IMAGE_ICON: &'static str = "image/x-icon";

/// A byte with the letters `A` to `Z` folded to `a` to `z`.
pub open spec fn lower(byte: u8) -> u8 {
    if 65 <= byte <= 90 {
        (byte + 32) as u8
    } else {
        byte
    }
}

/// `bytes` with each byte folded to lower case.
pub open spec fn lowercase(bytes: Seq<u8>) -> Seq<u8> {
    Seq::new(bytes.len(), |i: int| lower(bytes[i]))
}

/// Whether `ext` is `name`, byte for byte.
pub open spec fn spells(ext: Seq<u8>, name: &str) -> bool {
    ext == name.spec_bytes()
}

/// The table of content types by extension. Its keys are in lower case, and
/// the empty extension stands beside `html`.
pub open spec fn table(ext: Seq<u8>) -> Option<Seq<char>> {
    if spells(ext, "html") || spells(ext, "htm") || ext.len() == 0 {
        Some(TEXT_HTML@)
    } else if spells(ext, "css") {
        Some(TEXT_CSS@)
    } else if spells(ext, "js") || spells(ext, "mjs") {
        Some(TEXT_JAVASCRIPT@)
    } else if spells(ext, "json") || spells(ext, "map") {
        Some(APPLICATION_JSON@)
    } else if spells(ext, "svg") {
        Some(IMAGE_SVG@)
    } else if spells(ext, "png") {
        Some(IMAGE_PNG@)
    } else if spells(ext, "jpg") || spells(ext, "jpeg") {
        Some(IMAGE_JPEG@)
    } else if spells(ext, "gif") {
        Some(IMAGE_GIF@)
    } else if spells(ext, "webp") {
        Some(IMAGE_WEBP@)
    } else if spells(ext, "ico") {
        Some(IMAGE_ICON@)
    } else if spells(ext, "txt") || spells(ext, "log") {
        Some(TEXT_PLAIN@)
    } else if spells(ext, "wasm") {
        Some(APPLICATION_WASM@)
    } else {
        None
    }
}

/// The content type for an extension: what the table holds for the extension
/// in lower case, and the generic binary type where it holds nothing or
/// where there is no extension.
pub open spec fn content_type_of(ext: Option<Seq<u8>>) -> Seq<char> {
    match ext {
        Some(ext) => match table(lowercase(ext)) {
            Some(content_type) => content_type,
            None => OCTET_STREAM@,
        },
        None => OCTET_STREAM@,
    }
}

/// Folds one byte to lower case.
pub fn to_lower(byte: u8) -> (folded: u8)
    ensures
        folded == lower(byte),
{
    if 65 <= byte && byte <= 90 {
        byte + 32
    } else {
        byte
    }
}

/// Folds `bytes` to lower case.
pub fn to_lowercase(bytes: &[u8]) -> (folded: Vec<u8>)
    ensures
        folded@ == lowercase(bytes@),
{
    let mut folded: Vec<u8> = Vec::new();
    let mut i: usize = 0;
    while i < bytes.len()
        invariant
            i <= bytes@.len(),
            folded@ == lowercase(bytes@.take(i as int)),
        decreases bytes@.len() - i,
    {
        folded.push(to_lower(bytes[i]));
        proof {
            assert(folded@ =~= lowercase(bytes@.take(i + 1)));
        }
        i += 1;
    }
    proof {
        assert(bytes@.take(i as int) =~= bytes@);
    }
    folded
}

/// Whether `ext` is `name`, byte for byte.
fn named(ext: &[u8], name: &str) -> (same: bool)
    ensures
        same == spells(ext@, name),
{
    same_bytes(ext, name.as_bytes())
}

/// Looks an extension up in the table, as it is written.
pub fn lookup(ext: &[u8]) -> (entry: Option<&'static str>)
    ensures
        match entry {
            Some(content_type) => table(ext@) == Some(content_type@),
            None => table(ext@) is None,
        },
{
    if named(ext, "html") || named(ext, "htm") || ext.len() == 0 {
        Some(TEXT_HTML)
    } else if named(ext, "css") {
        Some(TEXT_CSS)
    } else if named(ext, "js") || named(ext, "mjs") {
        Some(TEXT_JAVASCRIPT)
    } else if named(ext, "json") || named(ext, "map") {
        Some(APPLICATION_JSON)
    } else if named(ext, "svg") {
        Some(IMAGE_SVG)
    } else if named(ext, "png") {
        Some(IMAGE_PNG)
    } else if named(ext, "jpg") || named(ext, "jpeg") {
        Some(IMAGE_JPEG)
    } else if named(ext, "gif") {
        Some(IMAGE_GIF)
    } else if named(ext, "webp") {
        Some(IMAGE_WEBP)
    } else if named(ext, "ico") {
        Some(IMAGE_ICON)
    } else if named(ext, "txt") || named(ext, "log") {
        Some(TEXT_PLAIN)
    } else if named(ext, "wasm") {
        Some(APPLICATION_WASM)
    } else {
        None
    }
}

/// The content type for an extension, or for the lack of one.
pub fn content_type_for(ext: Option<&[u8]>) -> (content_type: &'static str)
    ensures
        content_type@ == content_type_of(
            match ext {
                Some(e) => Some(e@),
                None => None,
            },
        ),
{
    match ext {
        Some(ext) => {
            let folded = to_lowercase(ext);
            match lookup(folded.as_slice()) {
                Some(content_type) => content_type,
                None => OCTET_STREAM,
            }
        },
        None => OCTET_STREAM,
    }
}

/// The content type of the file at `path`, by the extension of its name.
pub fn content_type(path: &[u8]) -> (content_type: &'static str)
    ensures
        content_type@ == content_type_of(extension(path@)),
{
    content_type_for(final_extension(path))
}

/// Folding to lower case changes nothing in what is folded already.
pub proof fn lemma_lowercase_is_idempotent(bytes: Seq<u8>)
    ensures
        lowercase(lowercase(bytes)) == lowercase(bytes),
{
    assert(lowercase(lowercase(bytes)) =~= lowercase(bytes));
}

/// The content type depends on the extension in lower case alone: two
/// extensions that differ in the case of their letters only have the same.
pub proof fn lemma_content_type_ignores_case(a: Seq<u8>, b: Seq<u8>)
    requires
        lowercase(a) == lowercase(b),
    ensures
        content_type_of(Some(a)) == content_type_of(Some(b)),
        content_type_of(Some(a)) == content_type_of(Some(lowercase(a))),
{
    lemma_lowercase_is_idempotent(a);
}

/// An extension that the table does not hold in lower case has the generic
/// binary type, and so has a name without extension.
pub proof fn lemma_unknown_is_binary(ext: Seq<u8>)
    requires
        table(lowercase(ext)) is None,
    ensures
        content_type_of(Some(ext)) == OCTET_STREAM@,
        content_type_of(None) == OCTET_STREAM@,
{
}

/// The empty extension, as of a name that ends in a dot, has the type of
/// HTML.
pub proof fn lemma_empty_extension_is_html()
    ensures
        content_type_of(Some(Seq::empty())) == TEXT_HTML@,
{
    assert(lowercase(Seq::empty()) =~= Seq::<u8>::empty());
}

/// Whether `text` is made of visible ASCII characters and spaces alone, as
/// the value of a header must be.
pub open spec fn is_visible_ascii(text: Seq<char>) -> bool {
    forall|i: int| 0 <= i < text.len() ==> 32 <= #[trigger] text[i] as u32 <= 126
}

/// Every content type that an extension can have is fit to stand in a
/// header.
pub proof fn lemma_content_types_are_visible_ascii(ext: Option<Seq<u8>>)
    ensures
        is_visible_ascii(content_type_of(ext)),
{
    reveal_strlit("application/octet-stream");
    reveal_strlit("text/html; charset=utf-8");
    reveal_strlit("text/css; charset=utf-8");
    reveal_strlit("text/javascript; charset=utf-8");
    reveal_strlit("application/json; charset=utf-8");
    reveal_strlit("text/plain; charset=utf-8");
    reveal_strlit("application/wasm");
    reveal_strlit("image/svg+xml");
    reveal_strlit("image/png");
    reveal_strlit("image/jpeg");
    reveal_strlit("image/gif");
    reveal_strlit("image/webp");
    reveal_strlit("image/x-icon");
}

} // verus!
