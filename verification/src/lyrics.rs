//! The lyrics path: the decisions and the assembly around the two
//! engine fetches (track metadata, then the lyrics payload). The
//! metadata gate refuses tracks that report no lyrics before any
//! payload fetch is attempted, with an error the host can tell apart
//! from a generic fetch failure.
use vstd::prelude::*;

use crate::errors::BridgeError;
use crate::errors::ErrorKind;
use crate::errors::no_lyrics_msg;

verus! {

/// What the lyrics path reads from a track's metadata.
#[derive(Clone, Copy, PartialEq, Eq, Structural, Debug)]
pub struct TrackMetadata {
    pub has_lyrics: bool,
}

/// What the engine's lyrics payload carries across the boundary, in
/// plain values.
#[derive(Debug)]
pub struct LyricsPayload {
    pub lines: Vec<String>,
    pub provider: String,
    pub provider_display_name: String,
    pub sync_type: String,
    pub background_color: i32,
    pub text_color: i32,
    pub highlight_text_color: i32,
}

/// The lyrics value handed to the host: line texts in order, provider
/// fields, a synced flag, and three colors.
#[derive(Debug)]
pub struct LyricsResult {
    pub lines: Vec<String>,
    pub provider: String,
    pub provider_display_name: String,
    pub synced: bool,
    pub background_color: i32,
    pub text_color: i32,
    pub highlight_text_color: i32,
}

/// The sync-type tag that marks line-synced lyrics.
pub open spec fn line_synced_tag() -> Seq<char> {
    "LINE_SYNCED"@
}

/// Decides, from a track's metadata alone, whether the lyrics payload
/// may be fetched. Refuses exactly the tracks that report no lyrics,
/// so no payload fetch is attempted for them.
pub fn lyrics_gate(meta: &TrackMetadata) -> (r: Result<(), BridgeError>)
    ensures
        (r is Ok) == meta.has_lyrics,
        r matches Err(e) ==> e.kind == ErrorKind::Metadata && e.message@ == no_lyrics_msg(),
{
    if meta.has_lyrics {
        Ok(())
    } else {
        Err(BridgeError::metadata_no_lyrics())
    }
}

/// Assembles the host-facing lyrics value from a fetched payload: the
/// lines and provider fields are taken over unchanged, and the synced
/// flag holds exactly when the payload's sync-type tag is the
/// line-synced tag.
pub fn lyrics_assemble(payload: LyricsPayload) -> (r: LyricsResult)
    ensures
        r.lines@ == payload.lines@,
        r.provider@ == payload.provider@,
        r.provider_display_name@ == payload.provider_display_name@,
        r.synced == (payload.sync_type@ == line_synced_tag()),
        r.background_color == payload.background_color,
        r.text_color == payload.text_color,
        r.highlight_text_color == payload.highlight_text_color,
{
    let tag = String::from_str("LINE_SYNCED");
    let synced = payload.sync_type == tag;
    LyricsResult {
        lines: payload.lines,
        provider: payload.provider,
        provider_display_name: payload.provider_display_name,
        synced,
        background_color: payload.background_color,
        text_color: payload.text_color,
        highlight_text_color: payload.highlight_text_color,
    }
}

} // verus!
