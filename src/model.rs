//! Persisted history entries, settings, and paging rules of the store.

use vstd::prelude::*;

use crate::text::{lower_of, lowercase, trim_of, trim_str};

verus! {

/// History size limit of a fresh store.
pub const DEFAULT_HISTORY_LIMIT: i64 = 200;

/// Largest accepted payload of a fresh store, in bytes.
pub const DEFAULT_MAX_CLIP_BYTES: i64 = 10_485_760;

/// One persisted clipboard capture.
#[derive(Debug, Clone, PartialEq, Eq)]
pub struct Clip {
    pub id: i64,
    pub content: String,
    pub content_type: String,
    pub pinned: bool,
    pub created_at: String,
    pub media_path: Option<String>,
    pub thumb_path: Option<String>,
    pub mime_type: Option<String>,
    pub byte_size: i64,
    pub pixel_width: Option<i64>,
    pub pixel_height: Option<i64>,
}

/// One page of a listing, with the offset of the next page if there is one.
#[derive(Debug, Clone, PartialEq, Eq)]
pub struct ClipPage {
    pub items: Vec<Clip>,
    pub total: i64,
    pub next_offset: Option<i64>,
}

/// User settings that steer ingestion.
#[derive(Debug, Clone, PartialEq, Eq)]
pub struct Settings {
    pub history_limit: i64,
    pub tracking_paused: bool,
    pub max_clip_bytes: i64,
    pub restore_clipboard_after_paste: bool,
    pub denylist_bundle_ids: Vec<String>,
}

/// What the duplicate check needs of the most recent entry.
#[derive(Debug, Clone, PartialEq, Eq)]
pub struct LatestClip {
    pub content: String,
    pub content_type: String,
    pub hash: String,
}

/// The fields of a new image entry.
pub struct ImageClipInsert<'a> {
    pub content: &'a str,
    pub hash: &'a str,
    pub media_path: &'a str,
    pub thumb_path: &'a str,
    pub mime_type: &'a str,
    pub byte_size: i64,
    pub pixel_width: i64,
    pub pixel_height: i64,
}

/// Source applications whose clipboard output a fresh store never captures.
pub open spec fn default_denylist_spec() -> Seq<Seq<char>> {
    seq![
        "com.1password.1password"@,
        "com.agilebits.onepassword7"@,
        "com.bitwarden.desktop"@,
        "com.lastpass.LastPass"@,
    ]
}

/// The password managers denied by default.
pub fn default_denylist() -> (r: Vec<String>)
    ensures
        r@.len() == default_denylist_spec().len(),
        forall|i: int| 0 <= i < r@.len() ==> #[trigger] r@[i]@ == default_denylist_spec()[i],
{
    let mut r: Vec<String> = Vec::new();
    r.push("com.1password.1password".to_owned());
    r.push("com.agilebits.onepassword7".to_owned());
    r.push("com.bitwarden.desktop".to_owned());
    r.push("com.lastpass.LastPass".to_owned());
    r
}

/// Settings of a fresh store.
pub fn default_settings() -> (r: Settings)
    ensures
        r.history_limit == DEFAULT_HISTORY_LIMIT,
        !r.tracking_paused,
        r.max_clip_bytes == DEFAULT_MAX_CLIP_BYTES,
        r.restore_clipboard_after_paste,
        r.denylist_bundle_ids@.len() == default_denylist_spec().len(),
        forall|i: int|
            0 <= i < r.denylist_bundle_ids@.len() ==> #[trigger] r.denylist_bundle_ids@[i]@
                == default_denylist_spec()[i],
{
    Settings {
        history_limit: DEFAULT_HISTORY_LIMIT,
        tracking_paused: false,
        max_clip_bytes: DEFAULT_MAX_CLIP_BYTES,
        restore_clipboard_after_paste: true,
        denylist_bundle_ids: default_denylist(),
    }
}

/// A listing's page size and start: at least one item, from offset zero on.
pub fn page_window(limit: i64, offset: i64) -> (r: (i64, i64))
    ensures
        r.0 == if limit < 1 { 1 } else { limit },
        r.1 == if offset < 0 { 0 } else { offset },
{
    let l = if limit < 1 { 1 } else { limit };
    let o = if offset < 0 { 0 } else { offset };
    (l, o)
}

/// The offset of the page after `[offset, offset + limit)` among `total`
/// items, if any item lies beyond it.
pub fn next_page_offset(offset: i64, limit: i64, total: i64) -> (r: Option<i64>)
    requires
        offset >= 0,
        limit >= 1,
    ensures
        r == (if offset + limit < total {
            Some((offset + limit) as i64)
        } else {
            None::<i64>
        }),
{
    if total > limit && offset < total - limit {
        Some(offset + limit)
    } else {
        None
    }
}

/// The search term of a listing query: the trimmed query in lower case,
/// or none when the query is absent or blank.
pub open spec fn search_term_of(query: Option<Seq<char>>) -> Option<Seq<char>> {
    match query {
        Some(q) => if trim_of(q).len() == 0 {
            None
        } else {
            Some(lower_of(trim_of(q)))
        },
        None => None,
    }
}

/// Normalises a listing query to its search term.
pub fn search_term(query: Option<&str>) -> (r: Option<String>)
    ensures
        match r {
            Some(s) => search_term_of(
                match query {
                    Some(q) => Some(q@),
                    None => None,
                },
            ) == Some(s@),
            None => search_term_of(
                match query {
                    Some(q) => Some(q@),
                    None => None,
                },
            ) is None,
        },
{
    match query {
        Some(q) => {
            let trimmed = trim_str(q);
            if trimmed.is_empty() {
                None
            } else {
                Some(lowercase(trimmed))
            }
        },
        None => None,
    }
}

} // verus!
