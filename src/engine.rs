//! The ingestion pipeline's filters and decisions: size and emptiness,
//! self-copy suppression, the source denylist, duplicate-of-latest, and
//! classification.

use vstd::prelude::*;
use vstd::string::*;
use vstd::utf8::encode_utf8;

use crate::clipboard::{elapsed_ms, ClipboardPayload, ImagePayload};
use crate::error::{AppError, AppResult};
use crate::hash::{hex_of, sha256_hex, sha256_of};
use crate::media::{canonical_hash_of, is_listed, listed_in, MediaStore};
use crate::media::{ascii_upper, ascii_uppercase, StoredImage};
use crate::model::{Clip, LatestClip, Settings};
use crate::text::{
    chars_vec, contains_char, is_white_space, lemma_white_space_trims_to_empty, contains_chars, has_infix, has_prefix, lower_of, lowercase,
    same_text, starts_with_chars, string_from_chars, trim_of, trim_str,
};

verus! {

/// How long after an internal copy its echo on the clipboard is suppressed,
/// in milliseconds.
pub const INTERNAL_COPY_SUPPRESS_WINDOW_MS: u64 = 1500;

/// Whether a payload is filtered out before anything else: blank text, an
/// empty image, or more bytes than `max_clip_bytes`.
pub open spec fn skips_payload(payload: ClipboardPayload, max_clip_bytes: i64) -> bool {
    match payload {
        ClipboardPayload::Text(t) => trim_of(t@).len() == 0 || encode_utf8(t@).len()
            > max_clip_bytes,
        ClipboardPayload::Image(i) => i.bytes@.len() == 0 || i.bytes@.len() > max_clip_bytes,
    }
}

/// Decides the size and emptiness filter.
pub fn should_skip_payload(payload: &ClipboardPayload, max_clip_bytes: i64) -> (r: bool)
    ensures
        r == skips_payload(*payload, max_clip_bytes),
{
    match payload {
        ClipboardPayload::Text(content) => {
            let s = content.as_str();
            trim_str(s).is_empty() || s.as_bytes().len() as i128 > max_clip_bytes as i128
        },
        ClipboardPayload::Image(image) => {
            image.bytes.len() == 0 || image.bytes.len() as i128 > max_clip_bytes as i128
        },
    }
}

/// Text made of white space alone is always filtered out.
pub proof fn lemma_blank_text_is_skipped(t: String, max_clip_bytes: i64)
    requires
        forall|i: int| 0 <= i < t@.len() ==> is_white_space(#[trigger] t@[i]),
    ensures
        skips_payload(ClipboardPayload::Text(t), max_clip_bytes),
{
    lemma_white_space_trims_to_empty(t@);
}

/// Whether the foreground application is this application itself or is on
/// the denylist.
pub fn should_ignore_bundle(bundle_id: &str, app_bundle_id: &str, denylist: &[String]) -> (r:
    bool)
    ensures
        r == (bundle_id@ == app_bundle_id@ || listed_in(denylist@, bundle_id@)),
{
    same_text(bundle_id, app_bundle_id) || is_listed(denylist, bundle_id)
}

/// Whether a payload repeats the latest entry: same category and hash, and
/// for text also the same literal content.
pub open spec fn duplicates_latest(
    latest: Option<LatestClip>,
    payload: ClipboardPayload,
    hash: Seq<char>,
) -> bool {
    match latest {
        None => false,
        Some(l) => match payload {
            ClipboardPayload::Text(t) => l.content_type@ != "image"@ && l.content@ == t@
                && l.hash@ == hash,
            ClipboardPayload::Image(_) => l.content_type@ == "image"@ && l.hash@ == hash,
        },
    }
}

/// Decides the duplicate-of-latest check.
pub fn is_duplicate(latest: Option<&LatestClip>, payload: &ClipboardPayload, hash: &str) -> (r:
    bool)
    ensures
        r == duplicates_latest(
            match latest {
                Some(l) => Some(*l),
                None => None,
            },
            *payload,
            hash@,
        ),
{
    match latest {
        None => false,
        Some(entry) => match payload {
            ClipboardPayload::Text(content) => {
                !same_text(entry.content_type.as_str(), "image") && same_text(
                    entry.content.as_str(),
                    content.as_str(),
                ) && same_text(entry.hash.as_str(), hash)
            },
            ClipboardPayload::Image(_) => {
                same_text(entry.content_type.as_str(), "image") && same_text(
                    entry.hash.as_str(),
                    hash,
                )
            },
        },
    }
}

/// Substrings that mark text as code once it is lower-cased.
pub open spec fn code_signals() -> Seq<Seq<char>> {
    seq![
        "fn "@,
        "const "@,
        "let "@,
        "class "@,
        "import "@,
        "#include"@,
        "public "@,
        "private "@,
        "=>"@,
    ]
}

fn code_signal(j: usize) -> (r: &'static str)
    requires
        j < 9,
    ensures
        r@ == code_signals()[j as int],
{
    if j == 0 {
        "fn "
    } else if j == 1 {
        "const "
    } else if j == 2 {
        "let "
    } else if j == 3 {
        "class "
    } else if j == 4 {
        "import "
    } else if j == 5 {
        "#include"
    } else if j == 6 {
        "public "
    } else if j == 7 {
        "private "
    } else {
        "=>"
    }
}

/// The category of a text entry given its trimmed, lower-cased form:
/// `url` when that form starts with an http scheme; else `code` when the
/// text holds a brace or a semicolon, or the lowered form holds a code
/// signal; else `text`.
pub open spec fn category_of(content: Seq<char>, lower: Seq<char>) -> Seq<char> {
    if has_prefix(lower, "http://"@) || has_prefix(lower, "https://"@) {
        "url"@
    } else if content.contains('{') || content.contains('}') || content.contains(';') || exists|
        j: int,
    |
        0 <= j < code_signals().len() && has_infix(lower, #[trigger] code_signals()[j]) {
        "code"@
    } else {
        "text"@
    }
}

/// The category of a text entry.
pub open spec fn content_type_of(content: Seq<char>) -> Seq<char> {
    category_of(content, lower_of(trim_of(content)))
}

/// Classifies a text entry from the text and its trimmed, lower-cased form.
pub fn classify_lowered(content: &str, lowered: &str) -> (r: &'static str)
    ensures
        r@ == category_of(content@, lowered@),
{
    let lower = chars_vec(lowered);
    if starts_with_chars(&lower, &chars_vec("http://")) || starts_with_chars(
        &lower,
        &chars_vec("https://"),
    ) {
        return "url";
    }
    let chars = chars_vec(content);
    if contains_char(&chars, '{') || contains_char(&chars, '}') || contains_char(&chars, ';') {
        return "code";
    }
    let mut j: usize = 0;
    while j < 9
        invariant
            j <= 9,
            lower@ == lowered@,
            !has_prefix(lower@, "http://"@) && !has_prefix(lower@, "https://"@),
            !(content@.contains('{') || content@.contains('}') || content@.contains(';')),
            forall|k: int| 0 <= k < j ==> !has_infix(lower@, #[trigger] code_signals()[k]),
        decreases 9 - j,
    {
        if contains_chars(&lower, &chars_vec(code_signal(j))) {
            return "code";
        }
        j = j + 1;
    }
    "text"
}

/// Classifies a text entry.
pub fn classify_content_type(content: &str) -> (r: &'static str)
    ensures
        r@ == content_type_of(content@),
{
    let lowered = lowercase(trim_str(content));
    classify_lowered(content, lowered.as_str())
}

/// The content hash of a payload: the hex SHA-256 of a text's UTF-8 bytes,
/// or an image's canonical hash; none when the image does not decode.
pub open spec fn payload_hash_of(payload: ClipboardPayload) -> Option<Seq<char>> {
    match payload {
        ClipboardPayload::Text(t) => Some(hex_of(sha256_of(encode_utf8(t@)))),
        ClipboardPayload::Image(i) => canonical_hash_of(i.bytes@),
    }
}

/// Computes the content hash of a payload.
pub fn hash_for_payload(payload: &ClipboardPayload) -> (r: AppResult<String>)
    ensures
        match r {
            Ok(h) => payload_hash_of(*payload) == Some(h@),
            Err(e) => payload_hash_of(*payload) is None && e is Internal,
        },
{
    match payload {
        ClipboardPayload::Text(content) => Ok(sha256_hex(content.as_str())),
        ClipboardPayload::Image(image) => MediaStore::canonical_hash_for_image_bytes(
            image.bytes.as_slice(),
        ),
    }
}

/// What the application itself last wrote to the clipboard.
#[derive(Debug, Clone, PartialEq, Eq)]
pub enum PendingInternalPayload {
    Text(String),
    ImageHash(String),
}

/// The armed self-copy marker: what was written, and when (milliseconds).
#[derive(Debug, Clone, PartialEq, Eq)]
pub struct PendingInternalCopy {
    pub payload: PendingInternalPayload,
    pub created_at: u64,
}

/// Whether an incoming payload is the echo of a pending internal copy:
/// within the window, the same text, or an image with the same canonical hash.
pub open spec fn echoes(
    pending: PendingInternalCopy,
    incoming: ClipboardPayload,
    now: u64,
    window: u64,
) -> bool {
    elapsed_ms(pending.created_at, now) <= window && match pending.payload {
        PendingInternalPayload::Text(a) => match incoming {
            ClipboardPayload::Text(b) => a@ == b@,
            ClipboardPayload::Image(_) => false,
        },
        PendingInternalPayload::ImageHash(h) => match incoming {
            ClipboardPayload::Text(_) => false,
            ClipboardPayload::Image(i) => canonical_hash_of(i.bytes@) == Some(h@),
        },
    }
}

/// Decides whether an incoming payload echoes the pending internal copy.
pub fn should_skip_internal_copy(
    pending: Option<&PendingInternalCopy>,
    incoming_payload: &ClipboardPayload,
    now: u64,
    suppress_window: u64,
) -> (r: bool)
    ensures
        r == match pending {
            Some(p) => echoes(*p, *incoming_payload, now, suppress_window),
            None => false,
        },
{
    match pending {
        None => false,
        Some(entry) => {
            let elapsed = if now >= entry.created_at {
                now - entry.created_at
            } else {
                0
            };
            if elapsed > suppress_window {
                return false;
            }
            match (&entry.payload, incoming_payload) {
                (PendingInternalPayload::Text(existing), ClipboardPayload::Text(incoming)) => {
                    same_text(existing.as_str(), incoming.as_str())
                },
                (PendingInternalPayload::ImageHash(existing), ClipboardPayload::Image(incoming)) => {
                    match MediaStore::canonical_hash_for_image_bytes(incoming.bytes.as_slice()) {
                        Ok(h) => same_text(existing.as_str(), h.as_str()),
                        Err(_) => false,
                    }
                },
                _ => false,
            }
        },
    }
}

/// One suppression check: whether the payload is suppressed, and the
/// marker afterwards. A matching echo consumes the marker; an expired
/// marker is discarded; otherwise it stays.
pub open spec fn suppression_step(
    pending: Option<PendingInternalCopy>,
    incoming: ClipboardPayload,
    now: u64,
) -> (bool, Option<PendingInternalCopy>) {
    match pending {
        None => (false, None),
        Some(p) => if echoes(p, incoming, now, INTERNAL_COPY_SUPPRESS_WINDOW_MS) {
            (true, None)
        } else if elapsed_ms(p.created_at, now) > INTERNAL_COPY_SUPPRESS_WINDOW_MS {
            (false, None)
        } else {
            (false, pending)
        },
    }
}

/// Runs the suppression check on the marker and updates it.
pub fn should_skip_pending_internal_copy(
    pending: &mut Option<PendingInternalCopy>,
    payload: &ClipboardPayload,
    now: u64,
) -> (r: bool)
    ensures
        (r, *final(pending)) == suppression_step(*old(pending), *payload, now),
{
    let skip = should_skip_internal_copy(
        pending.as_ref(),
        payload,
        now,
        INTERNAL_COPY_SUPPRESS_WINDOW_MS,
    );
    if skip {
        *pending = None;
        return true;
    }
    let expired = match pending {
        Some(entry) => now >= entry.created_at && now - entry.created_at
            > INTERNAL_COPY_SUPPRESS_WINDOW_MS,
        None => false,
    };
    if expired {
        *pending = None;
    }
    false
}

/// Whether a payload is rejected before its hash is needed: tracking is
/// paused, the size filter drops it, it echoes the pending internal copy, or
/// the foreground application is this one or a denied one.
pub open spec fn filtered_before_hash(
    settings: Settings,
    payload: ClipboardPayload,
    pending: Option<PendingInternalCopy>,
    now: u64,
    active_bundle_id: Option<Seq<char>>,
    app_bundle_id: Seq<char>,
) -> bool {
    settings.tracking_paused || skips_payload(payload, settings.max_clip_bytes)
        || suppression_step(pending, payload, now).0 || match active_bundle_id {
        Some(b) => b == app_bundle_id || listed_in(settings.denylist_bundle_ids@, b),
        None => false,
    }
}

/// The outcome of running a payload through the pipeline's filters.
#[derive(Debug, Clone, PartialEq, Eq)]
pub enum Admission {
    /// Filtered out; no entry is created.
    Rejected,
    /// Accepted text, with its category and content hash.
    Text { content_type: String, hash: String },
    /// Accepted image, with its canonical hash.
    Image { hash: String },
}

/// Runs the pipeline's filters in order on one observed payload: pause,
/// size and emptiness, self-copy suppression (which updates the marker),
/// the source denylist (skipped when the foreground application is
/// unknown), hashing, and the duplicate-of-latest check; accepted text is
/// classified.
pub fn admit_payload(
    settings: &Settings,
    payload: &ClipboardPayload,
    pending: &mut Option<PendingInternalCopy>,
    now: u64,
    active_bundle_id: Option<&str>,
    app_bundle_id: &str,
    latest: Option<&LatestClip>,
) -> (r: AppResult<Admission>)
    ensures
        *final(pending) == (if settings.tracking_paused || skips_payload(
            *payload,
            settings.max_clip_bytes,
        ) {
            *old(pending)
        } else {
            suppression_step(*old(pending), *payload, now).1
        }),
        ({
            let filtered = filtered_before_hash(
                *settings,
                *payload,
                *old(pending),
                now,
                match active_bundle_id {
                    Some(b) => Some(b@),
                    None => None,
                },
                app_bundle_id@,
            );
            let last = match latest {
                Some(l) => Some(*l),
                None => None,
            };
            match r {
                Ok(Admission::Rejected) => filtered || match payload_hash_of(*payload) {
                    Some(h) => duplicates_latest(last, *payload, h),
                    None => false,
                },
                Ok(Admission::Text { content_type, hash }) => !filtered && payload_hash_of(*payload)
                    == Some(hash@) && !duplicates_latest(last, *payload, hash@) && match *payload {
                    ClipboardPayload::Text(t) => content_type@ == content_type_of(t@),
                    ClipboardPayload::Image(_) => false,
                },
                Ok(Admission::Image { hash }) => !filtered && payload_hash_of(*payload) == Some(
                    hash@,
                ) && !duplicates_latest(last, *payload, hash@) && payload is Image,
                Err(e) => !filtered && payload_hash_of(*payload) is None && e is Internal,
            }
        }),
{
    if settings.tracking_paused || should_skip_payload(payload, settings.max_clip_bytes) {
        return Ok(Admission::Rejected);
    }
    if should_skip_pending_internal_copy(pending, payload, now) {
        return Ok(Admission::Rejected);
    }
    match active_bundle_id {
        Some(bundle_id) => {
            if should_ignore_bundle(
                bundle_id,
                app_bundle_id,
                settings.denylist_bundle_ids.as_slice(),
            ) {
                return Ok(Admission::Rejected);
            }
        },
        None => {},
    }
    let hash = match hash_for_payload(payload) {
        Ok(h) => h,
        Err(e) => return Err(e),
    };
    if is_duplicate(latest, payload, hash.as_str()) {
        return Ok(Admission::Rejected);
    }
    match payload {
        ClipboardPayload::Text(content) => {
            let content_type = classify_content_type(content.as_str()).to_owned();
            Ok(Admission::Text { content_type, hash })
        },
        ClipboardPayload::Image(_) => Ok(Admission::Image { hash }),
    }
}

/// An echo of an internal copy observed within the window is filtered out;
/// observed after the window, the marker is dropped and the payload is
/// filtered exactly as if no internal copy had been made.
pub proof fn lemma_internal_copy_echo(
    settings: Settings,
    copied: String,
    observed: String,
    created_at: u64,
    now: u64,
    active_bundle_id: Option<Seq<char>>,
    app_bundle_id: Seq<char>,
)
    requires
        copied@ == observed@,
        created_at <= now,
    ensures
        ({
            let marker = Some(
                PendingInternalCopy {
                    payload: PendingInternalPayload::Text(copied),
                    created_at,
                },
            );
            let p = ClipboardPayload::Text(observed);
            &&& now - created_at <= INTERNAL_COPY_SUPPRESS_WINDOW_MS ==> filtered_before_hash(
                settings,
                p,
                marker,
                now,
                active_bundle_id,
                app_bundle_id,
            ) && suppression_step(marker, p, now).1 is None
            &&& now - created_at > INTERNAL_COPY_SUPPRESS_WINDOW_MS ==> suppression_step(
                marker,
                p,
                now,
            ).1 is None && filtered_before_hash(
                settings,
                p,
                marker,
                now,
                active_bundle_id,
                app_bundle_id,
            ) == filtered_before_hash(settings, p, None, now, active_bundle_id, app_bundle_id)
        }),
{
}

/// The declared format of an image with the given MIME type; PNG when the
/// type is absent or unknown.
pub open spec fn format_of_mime(mime: Option<Seq<char>>) -> Seq<char> {
    match mime {
        Some(m) => if m == "image/jpeg"@ {
            "jpeg"@
        } else if m == "image/tiff"@ {
            "tiff"@
        } else if m == "image/webp"@ {
            "webp"@
        } else {
            "png"@
        },
        None => "png"@,
    }
}

/// Maps a MIME type to a declared image format.
pub fn format_from_mime(mime: Option<&str>) -> (r: String)
    ensures
        r@ == format_of_mime(
            match mime {
                Some(m) => Some(m@),
                None => None,
            },
        ),
{
    match mime {
        Some(m) => {
            if same_text(m, "image/jpeg") {
                "jpeg".to_owned()
            } else if same_text(m, "image/tiff") {
                "tiff".to_owned()
            } else if same_text(m, "image/webp") {
                "webp".to_owned()
            } else {
                "png".to_owned()
            }
        },
        None => "png".to_owned(),
    }
}

/// The decimal digit for a value below ten.
pub open spec fn digit_char(d: int) -> char {
    "0123456789"@[d]
}

/// The decimal numeral of a natural number.
pub open spec fn decimal_of(n: nat) -> Seq<char>
    decreases n,
{
    if n < 10 {
        seq![digit_char(n as int)]
    } else {
        decimal_of(n / 10) + seq![digit_char((n % 10) as int)]
    }
}

/// The decimal numeral of an integer, with a minus sign when negative.
pub open spec fn signed_decimal_of(n: int) -> Seq<char> {
    if n < 0 {
        "-"@ + decimal_of((-n) as nat)
    } else {
        decimal_of(n as nat)
    }
}

fn decimal_chars(n: u64) -> (r: Vec<char>)
    ensures
        r@ == decimal_of(n as nat),
    decreases n,
{
    let digits = chars_vec("0123456789");
    proof {
        reveal_strlit("0123456789");
        assert(digits@.len() == 10);
    }
    if n < 10 {
        let mut r: Vec<char> = Vec::new();
        r.push(digits[n as usize]);
        r
    } else {
        let mut r = decimal_chars(n / 10);
        r.push(digits[(n % 10) as usize]);
        r
    }
}

/// Renders an integer in decimal.
pub fn decimal_string(n: i64) -> (r: String)
    ensures
        r@ == signed_decimal_of(n as int),
{
    if n < 0 {
        let magnitude: u64 = (0i128 - n as i128) as u64;
        let mut r = String::from_str("-");
        r.append(string_from_chars(&decimal_chars(magnitude)).as_str());
        r
    } else {
        string_from_chars(&decimal_chars(n as u64))
    }
}

/// Bytes in one megabyte.
pub const BYTES_PER_MB: u64 = 1_048_576;

/// A byte count in tenths of a megabyte, rounded to nearest with ties to
/// even.
pub open spec fn mb_tenths(bytes: nat) -> nat {
    let q = (bytes * 10) / (BYTES_PER_MB as nat);
    let rem = (bytes * 10) % (BYTES_PER_MB as nat);
    if rem * 2 > BYTES_PER_MB || (rem * 2 == BYTES_PER_MB && q % 2 == 1) {
        q + 1
    } else {
        q
    }
}

/// A byte count in megabytes with one decimal.
pub open spec fn mb_text(bytes: nat) -> Seq<char> {
    decimal_of(mb_tenths(bytes) / 10) + "."@ + seq![digit_char((mb_tenths(bytes) % 10) as int)]
}

/// The display line of an image entry.
pub open spec fn image_summary_of(format: Seq<char>, stored: StoredImage) -> Seq<char> {
    "Image | "@ + format.map_values(|c: char| ascii_upper(c)) + " | "@ + signed_decimal_of(
        stored.pixel_width as int,
    ) + "x"@ + signed_decimal_of(stored.pixel_height as int) + " | "@ + mb_text(
        stored.byte_size as nat,
    ) + " MB"@
}

/// Builds the display line of an image entry:
/// `Image | <FORMAT> | <W>x<H> | <size in MB, one decimal> MB`.
pub fn format_image_summary(image: &ImagePayload, stored: &StoredImage) -> (r: String)
    requires
        stored.byte_size >= 0,
    ensures
        r@ == image_summary_of(image.format@, *stored),
{
    let size = stored.byte_size as u128 * 10;
    let mb = BYTES_PER_MB as u128;
    let q = size / mb;
    let rem = size % mb;
    let tenths = if rem * 2 > mb || (rem * 2 == mb && q % 2 == 1) {
        q + 1
    } else {
        q
    };
    assert(tenths == mb_tenths(stored.byte_size as nat));
    let digits = chars_vec("0123456789");
    proof {
        reveal_strlit("0123456789");
        assert(digits@.len() == 10);
    }
    let mut r = String::from_str("Image | ");
    r.append(ascii_uppercase(image.format.as_str()).as_str());
    r.append(" | ");
    r.append(decimal_string(stored.pixel_width).as_str());
    r.append("x");
    r.append(decimal_string(stored.pixel_height).as_str());
    r.append(" | ");
    r.append(string_from_chars(&decimal_chars((tenths / 10) as u64)).as_str());
    r.append(".");
    let mut last: Vec<char> = Vec::new();
    last.push(digits[(tenths % 10) as usize]);
    r.append(string_from_chars(&last).as_str());
    r.append(" MB");
    r
}

/// An entry is an image entry.
pub open spec fn is_image_clip(clip: Clip) -> bool {
    clip.content_type@ == "image"@
}

/// Which file copying an entry must read: none for text, the original for
/// an image; an image entry without one is an internal error.
pub fn copy_source(clip: &Clip) -> (r: AppResult<Option<String>>)
    ensures
        !is_image_clip(*clip) ==> r == Ok::<Option<String>, AppError>(None),
        is_image_clip(*clip) ==> match clip.media_path {
            Some(p) => r matches Ok(Some(q)) && q@ == p@,
            None => r matches Err(AppError::Internal(_)),
        },
{
    if !same_text(clip.content_type.as_str(), "image") {
        return Ok(None);
    }
    match &clip.media_path {
        Some(p) => Ok(Some(p.clone())),
        None => Err(AppError::Internal("image clip is missing media path".to_owned())),
    }
}

/// What copying a text entry writes, and the marker it arms at `now`.
pub fn text_copy(clip: &Clip, now: u64) -> (r: (ClipboardPayload, PendingInternalCopy))
    ensures
        r.0 matches ClipboardPayload::Text(t) && t@ == clip.content@,
        r.1.payload matches PendingInternalPayload::Text(t) && t@ == clip.content@,
        r.1.created_at == now,
{
    (
        ClipboardPayload::Text(clip.content.clone()),
        PendingInternalCopy {
            payload: PendingInternalPayload::Text(clip.content.clone()),
            created_at: now,
        },
    )
}

/// What copying an image entry whose original holds `bytes` writes, and
/// the marker it arms at `now`: the canonical hash of those bytes. Bytes
/// that do not decode are an internal error.
pub fn image_copy(clip: &Clip, bytes: Vec<u8>, now: u64) -> (r: AppResult<
    (ClipboardPayload, PendingInternalCopy),
>)
    ensures
        match r {
            Ok((ClipboardPayload::Image(i), marker)) => {
                &&& i.bytes@ == bytes@
                &&& i.mime@ == match clip.mime_type {
                    Some(m) => m@,
                    None => "image/png"@,
                }
                &&& i.format@ == format_of_mime(
                    match clip.mime_type {
                        Some(m) => Some(m@),
                        None => None,
                    },
                )
                &&& i.width == (match clip.pixel_width {
                    Some(w) => w,
                    None => 0,
                }) as u32
                &&& i.height == (match clip.pixel_height {
                    Some(h) => h,
                    None => 0,
                }) as u32
                &&& marker.created_at == now
                &&& marker.payload matches PendingInternalPayload::ImageHash(h)
                    && canonical_hash_of(bytes@) == Some(h@)
            },
            Ok(_) => false,
            Err(e) => canonical_hash_of(bytes@) is None && e is Internal,
        },
{
    let hash = match MediaStore::canonical_hash_for_image_bytes(bytes.as_slice()) {
        Ok(h) => h,
        Err(e) => return Err(e),
    };
    let mime = match &clip.mime_type {
        Some(m) => m.clone(),
        None => "image/png".to_owned(),
    };
    let format = match &clip.mime_type {
        Some(m) => format_from_mime(Some(m.as_str())),
        None => format_from_mime(None),
    };
    let width = match clip.pixel_width {
        Some(w) => w,
        None => 0,
    };
    let height = match clip.pixel_height {
        Some(h) => h,
        None => 0,
    };
    Ok(
        (
            ClipboardPayload::Image(
                ImagePayload { bytes, mime, format, width: width as u32, height: height as u32 },
            ),
            PendingInternalCopy {
                payload: PendingInternalPayload::ImageHash(hash),
                created_at: now,
            },
        ),
    )
}

} // verus!
