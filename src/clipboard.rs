//! Clipboard values and the change detector's debounce rule.

use vstd::prelude::*;
use vstd::string::*;
use vstd::utf8::encode_utf8;

use crate::hash::{hex_of, sha256_hex, sha256_hex_bytes, sha256_of};
use crate::media::{decode_rgba8, encode_rgba_png, png_of_rgba, rgba8_image_of};

verus! {

/// How often the watcher polls the clipboard, in milliseconds.
pub const DEFAULT_POLL_MS: u64 = 220;

/// Minimum time between two emitted change events, in milliseconds.
pub const DEBOUNCE_MS: u64 = 120;

/// A failure while talking to the system clipboard.
#[derive(Debug, Clone, PartialEq, Eq)]
pub enum ClipboardError {
    Command(String),
    Io(String),
}

/// An image as the clipboard delivered it: encoded bytes plus metadata.
#[derive(Debug, Clone, PartialEq, Eq)]
pub struct ImagePayload {
    pub bytes: Vec<u8>,
    pub mime: String,
    pub format: String,
    pub width: u32,
    pub height: u32,
}

/// One observed clipboard value.
#[derive(Debug, Clone, PartialEq, Eq)]
pub enum ClipboardPayload {
    Text(String),
    Image(ImagePayload),
}

/// The polling clipboard watcher's configuration.
#[derive(Debug, Clone)]
pub struct MacOsClipboard {
    poll_ms: u64,
}

impl MacOsClipboard {
    /// The polling interval that this watcher was configured with.
    pub closed spec fn interval(&self) -> u64 {
        self.poll_ms
    }

    pub fn new() -> (r: Self)
        ensures
            r.interval() == DEFAULT_POLL_MS,
    {
        MacOsClipboard { poll_ms: DEFAULT_POLL_MS }
    }

    /// The polling interval in milliseconds.
    pub fn poll_ms(&self) -> (r: u64)
        ensures
            r == self.interval(),
    {
        self.poll_ms
    }
}

/// The view of an optional string.
pub open spec fn opt_view(o: Option<String>) -> Option<Seq<char>> {
    match o {
        Some(s) => Some(s@),
        None => None,
    }
}

/// Milliseconds from `since` to `now`; zero when `now` is earlier.
pub open spec fn elapsed_ms(since: u64, now: u64) -> int {
    if now >= since {
        now - since
    } else {
        0
    }
}

/// One debounce step: whether to emit, the remembered signature after it,
/// and the emission time after it.
pub open spec fn emit_step(
    prev: Option<Seq<char>>,
    next: Seq<char>,
    last: u64,
    now: u64,
    debounce: u64,
) -> (bool, Option<Seq<char>>, u64) {
    if prev == Some(next) {
        (false, prev, last)
    } else if elapsed_ms(last, now) < debounce {
        (false, Some(next), last)
    } else {
        (true, Some(next), now)
    }
}

/// Decides whether a newly observed signature is an emitted change.
/// An unchanged signature never emits; a changed one is remembered at once,
/// and emits only when at least `debounce` milliseconds have passed since
/// the last emission, which then moves to `now`.
pub fn should_emit_change(
    previous_signature: &mut Option<String>,
    next_signature: &str,
    last_emitted_at: &mut u64,
    now: u64,
    debounce: u64,
) -> (r: bool)
    ensures
        (r, opt_view(*final(previous_signature)), *final(last_emitted_at)) == emit_step(
            opt_view(*old(previous_signature)),
            next_signature@,
            *old(last_emitted_at),
            now,
            debounce,
        ),
{
    let unchanged = match previous_signature {
        Some(previous) => crate::text::same_text(previous.as_str(), next_signature),
        None => false,
    };
    if unchanged {
        return false;
    }
    let elapsed = if now >= *last_emitted_at {
        now - *last_emitted_at
    } else {
        0
    };
    *previous_signature = Some(next_signature.to_owned());
    if elapsed < debounce {
        return false;
    }
    *last_emitted_at = now;
    true
}

/// Once a signature has been emitted, observing it again emits nothing,
/// however much later that happens.
pub proof fn lemma_repeat_signature_not_emitted(
    prev: Option<Seq<char>>,
    next: Seq<char>,
    last: u64,
    now: u64,
    later: u64,
    debounce: u64,
)
    requires
        emit_step(prev, next, last, now, debounce).0,
    ensures
        !emit_step(
            emit_step(prev, next, last, now, debounce).1,
            next,
            emit_step(prev, next, last, now, debounce).2,
            later,
            debounce,
        ).0,
{
}

/// A change is emitted only when the signature differs from the remembered
/// one and at least the debounce window has passed since the last emission.
pub proof fn lemma_emit_needs_change_and_quiet_window(
    prev: Option<Seq<char>>,
    next: Seq<char>,
    last: u64,
    now: u64,
    debounce: u64,
)
    ensures
        emit_step(prev, next, last, now, debounce).0 <==> (prev != Some(next) && elapsed_ms(
            last,
            now,
        ) >= debounce),
{
}

/// The change indicator of a clipboard value: a digest of the text, or of
/// the image bytes as delivered.
pub open spec fn signature_of(payload: ClipboardPayload) -> Seq<char> {
    match payload {
        ClipboardPayload::Text(t) => "text:"@ + hex_of(sha256_of(encode_utf8(t@))),
        ClipboardPayload::Image(i) => "image:"@ + hex_of(sha256_of(i.bytes@)),
    }
}

/// Computes the change indicator of a clipboard value.
pub fn payload_signature(payload: &ClipboardPayload) -> (r: String)
    ensures
        r@ == signature_of(*payload),
{
    match payload {
        ClipboardPayload::Text(text) => {
            let mut s = String::from_str("text:");
            s.append(sha256_hex(text.as_str()).as_str());
            s
        },
        ClipboardPayload::Image(image) => {
            let mut s = String::from_str("image:");
            s.append(sha256_hex_bytes(image.bytes.as_slice()).as_str());
            s
        },
    }
}

/// Turns raw RGBA8 pixels read from the clipboard into a PNG payload. A
/// buffer of other than four bytes per pixel is malformed.
pub fn image_payload_from_rgba(width: usize, height: usize, rgba: Vec<u8>) -> (r: Result<
    ImagePayload,
    ClipboardError,
>)
    ensures
        ({
            let w = width as u32;
            let h = height as u32;
            match r {
                Ok(p) => 4 * (w as int) * (h as int) == rgba@.len() && png_of_rgba(w, h, rgba@)
                    == Some(p.bytes@) && p.mime@ == "image/png"@ && p.format@ == "png"@ && p.width
                    == w && p.height == h,
                Err(ClipboardError::Command(_)) => 4 * (w as int) * (h as int) != rgba@.len()
                    || png_of_rgba(w, h, rgba@) is None,
                Err(ClipboardError::Io(_)) => false,
            }
        }),
{
    let w = width as u32;
    let h = height as u32;
    let wide: u128 = 4 * (w as u128);
    assert(wide * (h as u128) <= 4 * 0xffff_ffff * 0xffff_ffff) by (nonlinear_arith)
        requires
            wide <= 4 * 0xffff_ffff,
            h <= 0xffff_ffff,
    ;
    let needed: u128 = wide * (h as u128);
    if needed != rgba.len() as u128 {
        return Err(ClipboardError::Command("clipboard image payload was malformed".to_owned()));
    }
    match encode_rgba_png(w, h, rgba) {
        Ok(bytes) => Ok(
            ImagePayload {
                bytes,
                mime: "image/png".to_owned(),
                format: "png".to_owned(),
                width: w,
                height: h,
            },
        ),
        Err(msg) => {
            let mut text = String::from_str("failed to encode image: ");
            text.append(msg.as_str());
            Err(ClipboardError::Command(text))
        },
    }
}

/// Decodes an image payload to its size and RGBA8 pixels, for writing it
/// back to the clipboard.
pub fn decode_image_bytes(payload: &ImagePayload) -> (r: Result<
    (usize, usize, Vec<u8>),
    ClipboardError,
>)
    ensures
        match r {
            Ok((w, h, px)) => rgba8_image_of(payload.bytes@) matches Some((iw, ih, ipx)) && w
                == iw as usize && h == ih as usize && px@ == ipx,
            Err(e) => rgba8_image_of(payload.bytes@) is None && e is Command,
        },
{
    match decode_rgba8(payload.bytes.as_slice()) {
        Ok((w, h, px)) => Ok((w as usize, h as usize, px)),
        Err(msg) => {
            let mut text = String::from_str("failed to decode image clipboard bytes: ");
            text.append(msg.as_str());
            Err(ClipboardError::Command(text))
        },
    }
}

} // verus!
