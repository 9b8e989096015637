//! The decisions around image re-encoding and PDF page rendering: which
//! encoding to produce, which of the candidate encodings to keep, and which
//! page to render.

use vstd::prelude::*;

verus! {

/// The result of re-encoding an image.
#[derive(Clone, Debug, PartialEq, Eq)]
pub struct ImageCompressResponse {
    pub compressed_data: Vec<u8>,
    pub format: String,
    pub original_size: usize,
    pub compressed_size: usize,
}

/// A rendered PDF page.
#[derive(Clone, Debug, PartialEq, Eq)]
pub struct PdfToImageResponse {
    pub image_data: Vec<u8>,
    pub width: u32,
    pub height: u32,
    pub page_count: u32,
}

/// The encodings an image can be re-encoded to.
#[derive(PartialEq, Eq, Structural, Clone, Copy, Debug)]
pub enum ImageFormat {
    Jpeg,
    Png,
    Webp,
}

/// The encoding a request asks for: `webp`, `png`, and JPEG for `jpeg`,
/// `jpg`, any other name or none.
pub open spec fn format_named(requested: Option<Seq<char>>) -> ImageFormat {
    match requested {
        Some(f) => if f == "webp"@ {
            ImageFormat::Webp
        } else if f == "png"@ {
            ImageFormat::Png
        } else {
            ImageFormat::Jpeg
        },
        None => ImageFormat::Jpeg,
    }
}

/// The encoding that a request's format names.
pub fn output_format(requested: Option<&str>) -> (r: ImageFormat)
    ensures
        r == format_named(
            match requested {
                Some(f) => Some(f@),
                None => None,
            },
        ),
{
    match requested {
        Some(f) => if crate::names::same_text(f, "webp") {
            ImageFormat::Webp
        } else if crate::names::same_text(f, "png") {
            ImageFormat::Png
        } else {
            ImageFormat::Jpeg
        },
        None => ImageFormat::Jpeg,
    }
}

/// The name under which an encoding is reported.
pub open spec fn format_text(f: ImageFormat) -> Seq<char> {
    match f {
        ImageFormat::Jpeg => "jpeg"@,
        ImageFormat::Png => "png"@,
        ImageFormat::Webp => "webp"@,
    }
}

/// The name under which an encoding is reported.
pub fn format_name(f: ImageFormat) -> (r: String)
    ensures
        r@ == format_text(f),
{
    match f {
        ImageFormat::Jpeg => String::from_str("jpeg"),
        ImageFormat::Png => String::from_str("png"),
        ImageFormat::Webp => String::from_str("webp"),
    }
}

/// Whether a first encoding of `encoded_len` bytes is no smaller than the
/// original, so that a second one at lower quality is tried.
pub fn needs_smaller_encoding(encoded_len: usize, original_len: usize) -> (r: bool)
    ensures
        r == (encoded_len >= original_len),
{
    encoded_len >= original_len
}

/// Keeps the smallest of the candidates: the first encoding if it is
/// smaller than the original; else the lower-quality one if it is smaller
/// than both; else the original itself, reported as `original`. The kept
/// data is reported under the first encoding's format.
pub fn select_compression(
    original: Vec<u8>,
    first: Vec<u8>,
    format: ImageFormat,
    lower: Option<Vec<u8>>,
) -> (r: ImageCompressResponse)
    ensures
        r.original_size == original@.len(),
        r.compressed_size == r.compressed_data@.len(),
        first@.len() < original@.len() ==> r.compressed_data@ == first@ && r.format@
            == format_text(format),
        first@.len() >= original@.len() && lower is Some && lower->0@.len() < first@.len()
            && lower->0@.len() < original@.len() ==> r.compressed_data@ == lower->0@
            && r.format@ == format_text(format),
        first@.len() >= original@.len() && !(lower is Some && lower->0@.len() < first@.len()
            && lower->0@.len() < original@.len()) ==> r.compressed_data@ == original@
            && r.format@ == "original"@,
{
    let original_size = original.len();
    if first.len() < original_size {
        let compressed_size = first.len();
        return ImageCompressResponse {
            compressed_data: first,
            format: format_name(format),
            original_size,
            compressed_size,
        };
    }
    match lower {
        Some(l) => {
            if l.len() < first.len() && l.len() < original_size {
                let compressed_size = l.len();
                return ImageCompressResponse {
                    compressed_data: l,
                    format: format_name(format),
                    original_size,
                    compressed_size,
                };
            }
        },
        None => {},
    }
    ImageCompressResponse {
        compressed_data: original,
        format: String::from_str("original"),
        original_size,
        compressed_size: original_size,
    }
}

/// The decimal digits of `n`.
pub open spec fn decimal_text(n: nat) -> Seq<char>
    decreases n,
{
    if n < 10 {
        seq![digit_char(n)]
    } else {
        decimal_text(n / 10) + seq![digit_char(n % 10)]
    }
}

/// The decimal digit of value `d`.
pub open spec fn digit_char(d: nat) -> char {
    "0123456789"@[d as int]
}

/// `n` in decimal.
pub fn decimal(n: u32) -> (r: String)
    ensures
        r@ == decimal_text(n as nat),
    decreases n,
{
    let table = "0123456789";
    proof {
        reveal_strlit("0123456789");
    }
    let d = (n % 10) as usize;
    let last = table.substring_char(d, d + 1);
    assert(last@ =~= seq![digit_char(d as nat)]);
    if n < 10 {
        String::from_str(last)
    } else {
        let mut r = decimal(n / 10);
        r.append(last);
        r
    }
}

/// The page a request renders, numbered from one (the first when none is
/// named), if the document has it.
pub open spec fn page_wanted(page_number: Option<u32>) -> u32 {
    match page_number {
        Some(p) => p,
        None => 1,
    }
}

/// The zero-based index of the page to render, or the message that the
/// document does not have it.
pub fn select_page(page_number: Option<u32>, page_count: u32) -> (r: Result<u16, String>)
    ensures
        1 <= page_wanted(page_number) <= page_count ==> r == Ok::<u16, String>(
            ((page_wanted(page_number) - 1) % 0x10000) as u16,
        ),
        !(1 <= page_wanted(page_number) <= page_count) ==> r is Err && r->Err_0@ == "Page "@
            + decimal_text(page_wanted(page_number) as nat) + " not found. PDF has "@
            + decimal_text(page_count as nat) + " pages"@,
{
    let page = match page_number {
        Some(p) => p,
        None => 1,
    };
    if page < 1 || page > page_count {
        let mut m = String::from_str("Page ");
        m.append(decimal(page).as_str());
        m.append(" not found. PDF has ");
        m.append(decimal(page_count).as_str());
        m.append(" pages");
        return Err(m);
    }
    Ok(((page - 1) % 0x10000) as u16)
}

} // verus!
