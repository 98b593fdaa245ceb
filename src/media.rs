//! The content-addressed media store: file naming, canonical image
//! identity, thumbnails, and which files are orphans.

use vstd::prelude::*;
use vstd::string::*;

use crate::clipboard::ImagePayload;
use crate::error::{AppError, AppResult};
use crate::hash::{hex_of, sha256_hex_bytes, sha256_of};
use crate::text::{chars_vec, same_text};

verus! {

/// Longest side of a thumbnail, in pixels.
pub const THUMBNAIL_MAX_SIDE: u32 = 96;

/// The width, height and RGBA8 pixel bytes that `image` decodes from
/// encoded bytes, or none when it cannot decode them.
pub uninterp spec fn rgba8_image_of(bytes: Seq<u8>) -> Option<(u32, u32, Seq<u8>)>;

/// The PNG bytes of the bounded thumbnail that `image` makes of encoded
/// bytes, or none when it cannot decode or encode them.
pub uninterp spec fn png_thumbnail_of(bytes: Seq<u8>, max_side: u32) -> Option<Seq<u8>>;

/// Relies on `image::load_from_memory` and `DynamicImage::to_rgba8`: the
/// decoded image, converted to RGBA8, depends on the bytes alone; the error
/// is rendered as text.
#[verifier::external_body]
pub(crate) fn decode_rgba8(bytes: &[u8]) -> (r: Result<(u32, u32, Vec<u8>), String>)
    ensures
        match r {
            Ok((w, h, px)) => rgba8_image_of(bytes@) == Some((w, h, px@)),
            Err(_) => rgba8_image_of(bytes@) is None,
        },
{
    match image::load_from_memory(bytes) {
        Ok(decoded) => {
            let rgba = decoded.to_rgba8();
            Ok((rgba.width(), rgba.height(), rgba.into_raw()))
        },
        Err(err) => Err(err.to_string()),
    }
}

/// Relies on `image::load_from_memory`, `DynamicImage::thumbnail` and
/// `DynamicImage::write_to` with the PNG format: the result depends on the
/// bytes and the bound alone; the error is rendered as text.
#[verifier::external_body]
fn png_thumbnail(bytes: &[u8], max_side: u32) -> (r: Result<Vec<u8>, String>)
    ensures
        match r {
            Ok(png) => png_thumbnail_of(bytes@, max_side) == Some(png@),
            Err(_) => png_thumbnail_of(bytes@, max_side) is None,
        },
{
    let decoded = match image::load_from_memory(bytes) {
        Ok(decoded) => decoded,
        Err(err) => return Err(err.to_string()),
    };
    let mut output = std::io::Cursor::new(Vec::new());
    match decoded.thumbnail(max_side, max_side).write_to(&mut output, image::ImageFormat::Png) {
        Ok(()) => Ok(output.into_inner()),
        Err(err) => Err(err.to_string()),
    }
}

/// The PNG encoding that `image` makes of an RGBA8 pixel buffer of the
/// given size, or none when it cannot encode it.
pub uninterp spec fn png_of_rgba(width: u32, height: u32, pixels: Seq<u8>) -> Option<Seq<u8>>;

/// Relies on `ImageBuffer::from_raw` and `DynamicImage::write_to` with the
/// PNG format, given a buffer of exactly four bytes per pixel (`from_raw`
/// accepts a longer one, but the PNG encoder asserts the exact length): the
/// result depends on the size and pixels alone; the error is rendered as
/// text.
#[verifier::external_body]
pub(crate) fn encode_rgba_png(width: u32, height: u32, pixels: Vec<u8>) -> (r: Result<
    Vec<u8>,
    String,
>)
    requires
        4 * (width as int) * (height as int) == pixels@.len(),
    ensures
        match r {
            Ok(png) => png_of_rgba(width, height, pixels@) == Some(png@),
            Err(_) => png_of_rgba(width, height, pixels@) is None,
        },
{
    let mut output = std::io::Cursor::new(Vec::new());
    match image::RgbaImage::from_raw(width, height, pixels) {
        Some(rgba) => match image::DynamicImage::ImageRgba8(rgba).write_to(
            &mut output,
            image::ImageFormat::Png,
        ) {
            Ok(()) => Ok(output.into_inner()),
            Err(err) => Err(err.to_string()),
        },
        None => Err(String::new()),
    }
}

/// The ASCII lower-case form of a character.
pub open spec fn ascii_lower(c: char) -> char {
    if 'A' <= c && c <= 'Z' {
        (c as u32 + 32) as char
    } else {
        c
    }
}

/// The ASCII upper-case form of a character.
pub open spec fn ascii_upper(c: char) -> char {
    if 'a' <= c && c <= 'z' {
        (c as u32 - 32) as char
    } else {
        c
    }
}

/// Relies on `str::to_ascii_lowercase`: ASCII letters lowered, every other
/// character kept.
#[verifier::external_body]
pub(crate) fn ascii_lowercase(s: &str) -> (r: String)
    ensures
        r@ == s@.map_values(|c: char| ascii_lower(c)),
{
    s.to_ascii_lowercase()
}

/// Relies on `str::to_ascii_uppercase`: ASCII letters raised, every other
/// character kept.
#[verifier::external_body]
pub(crate) fn ascii_uppercase(s: &str) -> (r: String)
    ensures
        r@ == s@.map_values(|c: char| ascii_upper(c)),
{
    s.to_ascii_uppercase()
}

/// The file extension of an original, from its declared format.
pub open spec fn extension_of(format: Seq<char>) -> Seq<char> {
    let f = format.map_values(|c: char| ascii_lower(c));
    if f == "jpeg"@ || f == "jpg"@ {
        "jpg"@
    } else if f == "tiff"@ || f == "tif"@ {
        "tiff"@
    } else if f == "webp"@ {
        "webp"@
    } else {
        "png"@
    }
}

/// Picks the file extension of an original from its declared format.
pub fn extension_for_format(format: &str) -> (r: &'static str)
    ensures
        r@ == extension_of(format@),
{
    let lower = ascii_lowercase(format);
    let f = lower.as_str();
    if same_text(f, "jpeg") || same_text(f, "jpg") {
        "jpg"
    } else if same_text(f, "tiff") || same_text(f, "tif") {
        "tiff"
    } else if same_text(f, "webp") {
        "webp"
    } else {
        "png"
    }
}

/// `name` placed in directory `dir`, as `Path::join` spells it.
pub open spec fn joined(dir: Seq<char>, name: Seq<char>) -> Seq<char> {
    if dir.len() == 0 {
        name
    } else if dir.last() == '/' {
        dir + name
    } else {
        dir + "/"@ + name
    }
}

/// Places `name` in directory `dir`.
pub fn join_path(dir: &str, name: &str) -> (r: String)
    ensures
        r@ == joined(dir@, name@),
{
    let d = chars_vec(dir);
    let mut r = String::from_str(dir);
    if d.len() == 0 {
        return String::from_str(name);
    }
    if d[d.len() - 1] != '/' {
        r.append("/");
    }
    r.append(name);
    r
}

/// The canonical identity of encoded image bytes: the hex SHA-256 of the
/// decoded RGBA8 pixels, or none when they do not decode.
pub open spec fn canonical_hash_of(bytes: Seq<u8>) -> Option<Seq<char>> {
    match rgba8_image_of(bytes) {
        Some((_, _, px)) => Some(hex_of(sha256_of(px))),
        None => None,
    }
}

/// Two encodings that decode to the same RGBA8 pixels have the same
/// canonical hash, whatever their container formats.
pub proof fn lemma_canonical_hash_depends_on_pixels(a: Seq<u8>, b: Seq<u8>)
    requires
        rgba8_image_of(a) is Some,
        rgba8_image_of(b) is Some,
        rgba8_image_of(a)->Some_0.2 == rgba8_image_of(b)->Some_0.2,
    ensures
        canonical_hash_of(a) == canonical_hash_of(b),
        canonical_hash_of(a) is Some,
{
}

/// Where a stored image and its thumbnail live, with its metadata.
#[derive(Debug, Clone, PartialEq, Eq)]
pub struct StoredImage {
    pub media_path: String,
    pub thumb_path: String,
    pub mime_type: String,
    pub byte_size: i64,
    pub pixel_width: i64,
    pub pixel_height: i64,
}

/// The two directories of the media store.
pub struct MediaStore {
    originals_dir: String,
    thumbs_dir: String,
}

impl MediaStore {
    /// Directory of the originals.
    pub closed spec fn originals(&self) -> Seq<char> {
        self.originals_dir@
    }

    /// Directory of the thumbnails.
    pub closed spec fn thumbs(&self) -> Seq<char> {
        self.thumbs_dir@
    }

    /// A store rooted at `root_dir`, with `originals` and `thumbs` inside it.
    pub fn new(root_dir: &str) -> (r: Self)
        ensures
            r.originals() == joined(root_dir@, "originals"@),
            r.thumbs() == joined(root_dir@, "thumbs"@),
    {
        MediaStore {
            originals_dir: join_path(root_dir, "originals"),
            thumbs_dir: join_path(root_dir, "thumbs"),
        }
    }

    pub fn originals_dir(&self) -> (r: &str)
        ensures
            r@ == self.originals(),
    {
        self.originals_dir.as_str()
    }

    pub fn thumbs_dir(&self) -> (r: &str)
        ensures
            r@ == self.thumbs(),
    {
        self.thumbs_dir.as_str()
    }

    /// Where `store_image` puts a payload and what it records of it: the
    /// original at `<digest>.<ext>`, the thumbnail at `<digest>.png`, the
    /// digest taken over the bytes as delivered.
    pub fn stored_image_for(&self, payload: &ImagePayload) -> (r: StoredImage)
        ensures
            r.media_path@ == joined(
                self.originals(),
                hex_of(sha256_of(payload.bytes@)) + "."@ + extension_of(payload.format@),
            ),
            r.thumb_path@ == joined(self.thumbs(), hex_of(sha256_of(payload.bytes@)) + ".png"@),
            r.mime_type@ == payload.mime@,
            r.byte_size == payload.bytes@.len() as i64,
            r.pixel_width == payload.width as i64,
            r.pixel_height == payload.height as i64,
    {
        let digest = sha256_hex_bytes(payload.bytes.as_slice());
        let mut original_name = digest.clone();
        original_name.append(".");
        original_name.append(extension_for_format(payload.format.as_str()));
        let mut thumb_name = digest;
        thumb_name.append(".png");
        StoredImage {
            media_path: join_path(self.originals_dir.as_str(), original_name.as_str()),
            thumb_path: join_path(self.thumbs_dir.as_str(), thumb_name.as_str()),
            mime_type: payload.mime.clone(),
            byte_size: payload.bytes.len() as i64,
            pixel_width: payload.width as i64,
            pixel_height: payload.height as i64,
        }
    }

    /// The canonical identity of encoded image bytes; an undecodable image
    /// is an internal error.
    pub fn canonical_hash_for_image_bytes(bytes: &[u8]) -> (r: AppResult<String>)
        ensures
            match r {
                Ok(h) => canonical_hash_of(bytes@) == Some(h@),
                Err(e) => canonical_hash_of(bytes@) is None && e is Internal,
            },
    {
        match decode_rgba8(bytes) {
            Ok((_, _, pixels)) => Ok(sha256_hex_bytes(pixels.as_slice())),
            Err(msg) => {
                let mut text = String::from_str("failed to decode image: ");
                text.append(msg.as_str());
                Err(AppError::Internal(text))
            },
        }
    }

    /// The PNG thumbnail of encoded image bytes, at most
    /// `THUMBNAIL_MAX_SIDE` pixels on each side.
    pub fn thumbnail_png(bytes: &[u8]) -> (r: AppResult<Vec<u8>>)
        ensures
            match r {
                Ok(png) => png_thumbnail_of(bytes@, THUMBNAIL_MAX_SIDE) == Some(png@),
                Err(e) => png_thumbnail_of(bytes@, THUMBNAIL_MAX_SIDE) is None && e is Internal,
            },
    {
        match png_thumbnail(bytes, THUMBNAIL_MAX_SIDE) {
            Ok(png) => Ok(png),
            Err(msg) => {
                let mut text = String::from_str("failed to make thumbnail: ");
                text.append(msg.as_str());
                Err(AppError::Internal(text))
            },
        }
    }
}

/// `path` is among `paths`.
pub open spec fn listed_in(paths: Seq<String>, path: Seq<char>) -> bool {
    exists|i: int| 0 <= i < paths.len() && paths[i]@ == path
}

/// Whether `path` is among `paths`.
pub fn is_listed(paths: &[String], path: &str) -> (r: bool)
    ensures
        r == listed_in(paths@, path@),
{
    let mut i: usize = 0;
    while i < paths.len()
        invariant
            i <= paths@.len(),
            forall|k: int| 0 <= k < i ==> paths@[k]@ != path@,
        decreases paths@.len() - i,
    {
        if same_text(paths[i].as_str(), path) {
            return true;
        }
        i = i + 1;
    }
    false
}

/// The files of a directory listing that no persisted entry references,
/// in listing order.
pub fn orphaned_paths(listed: &Vec<String>, referenced: &Vec<String>) -> (r: Vec<String>)
    ensures
        forall|i: int| 0 <= i < r@.len() ==> listed_in(listed@, #[trigger] r@[i]@) && !listed_in(referenced@, r@[i]@),
        forall|i: int|
            0 <= i < listed@.len() && !listed_in(referenced@, #[trigger] listed@[i]@) ==> listed_in(r@, listed@[i]@),
{
    let mut r: Vec<String> = Vec::new();
    let mut i: usize = 0;
    while i < listed.len()
        invariant
            i <= listed@.len(),
            forall|k: int| 0 <= k < r@.len() ==> listed_in(listed@, #[trigger] r@[k]@) && !listed_in(referenced@, r@[k]@),
            forall|k: int|
                0 <= k < i && !listed_in(referenced@, #[trigger] listed@[k]@) ==> listed_in(r@, listed@[k]@),
        decreases listed@.len() - i,
    {
        let path = listed[i].as_str();
        let ghost before = r@;
        if !is_listed(referenced.as_slice(), path) {
            r.push(listed[i].clone());
            assert(r@[r@.len() - 1]@ == listed@[i as int]@);
            assert forall|p: Seq<char>| listed_in(before, p) implies listed_in(r@, p) by {
                let j = choose|j: int| 0 <= j < before.len() && before[j]@ == p;
                assert(r@[j] == before[j]);
            }
        }
        assert(listed_in(listed@, listed@[i as int]@));
        i = i + 1;
    }
    r
}

} // verus!
