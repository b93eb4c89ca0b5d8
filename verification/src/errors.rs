//! Error normalization: every failure a bridge operation can surface is a
//! two-field value, a kind and a message, so the host never has to
//! understand the engine's internal failure types.
use vstd::prelude::*;

verus! {

/// The kinds of failure a bridge operation can surface to the host.
#[derive(Clone, Copy, PartialEq, Eq, Structural, Debug)]
pub enum ErrorKind {
    /// Connecting or authenticating against the engine failed.
    Authentication,
    /// An operation was attempted in an invalid lifecycle state.
    State,
    /// A track reference was malformed, or an identifier could not be
    /// rendered to the external form.
    Identifier,
    /// Track metadata reported no lyrics, or a lyrics fetch failed.
    Metadata,
}

/// The label each error kind carries across the boundary.
pub open spec fn kind_label(k: ErrorKind) -> Seq<char> {
    match k {
        ErrorKind::Authentication => "authentication"@,
        ErrorKind::State => "state"@,
        ErrorKind::Identifier => "identifier"@,
        ErrorKind::Metadata => "metadata"@,
    }
}

impl ErrorKind {
    /// The external string form of this kind.
    pub fn label(&self) -> (r: String)
        ensures
            r@ == kind_label(*self),
    {
        match self {
            ErrorKind::Authentication => String::from_str("authentication"),
            ErrorKind::State => String::from_str("state"),
            ErrorKind::Identifier => String::from_str("identifier"),
            ErrorKind::Metadata => String::from_str("metadata"),
        }
    }
}

/// The structured error that crosses the boundary.
#[derive(Debug)]
pub struct BridgeError {
    pub kind: ErrorKind,
    pub message: String,
}

/// Message for a track reference that does not parse.
pub open spec fn malformed_reference_msg() -> Seq<char> {
    "malformed track reference"@
}

/// Message for an identifier that has no external rendering.
pub open spec fn unrenderable_msg() -> Seq<char> {
    "identifier cannot be rendered in the external form"@
}

/// Message for an operation that needs an authenticated session.
pub open spec fn no_session_msg() -> Seq<char> {
    "no authenticated session"@
}

/// Message for a control call without an initialized player.
pub open spec fn no_player_msg() -> Seq<char> {
    "player is not initialized"@
}

/// Message for a track whose metadata reports no lyrics.
pub open spec fn no_lyrics_msg() -> Seq<char> {
    "track has no lyrics"@
}

/// Message for a lyrics fetch that failed at the engine.
pub open spec fn lyrics_fetch_failed_msg(detail: Seq<char>) -> Seq<char> {
    "lyrics fetch failed: "@ + detail
}

/// Message for a connect attempt that failed at the engine.
pub open spec fn connect_failed_msg(detail: Seq<char>) -> Seq<char> {
    "connect failed: "@ + detail
}

impl BridgeError {
    /// A malformed track reference.
    pub fn identifier_error() -> (e: BridgeError)
        ensures
            e.kind == ErrorKind::Identifier,
            e.message@ == malformed_reference_msg(),
    {
        BridgeError { kind: ErrorKind::Identifier, message: String::from_str("malformed track reference") }
    }

    /// An identifier that cannot be rendered to the external form.
    pub fn render_error() -> (e: BridgeError)
        ensures
            e.kind == ErrorKind::Identifier,
            e.message@ == unrenderable_msg(),
    {
        BridgeError {
            kind: ErrorKind::Identifier,
            message: String::from_str("identifier cannot be rendered in the external form"),
        }
    }

    /// An operation that requires an authenticated session, attempted without one.
    pub fn state_no_session() -> (e: BridgeError)
        ensures
            e.kind == ErrorKind::State,
            e.message@ == no_session_msg(),
    {
        BridgeError { kind: ErrorKind::State, message: String::from_str("no authenticated session") }
    }

    /// A control call made while no playback unit exists.
    pub fn state_no_player() -> (e: BridgeError)
        ensures
            e.kind == ErrorKind::State,
            e.message@ == no_player_msg(),
    {
        BridgeError { kind: ErrorKind::State, message: String::from_str("player is not initialized") }
    }

    /// A track whose metadata reports that it has no lyrics.
    pub fn metadata_no_lyrics() -> (e: BridgeError)
        ensures
            e.kind == ErrorKind::Metadata,
            e.message@ == no_lyrics_msg(),
    {
        BridgeError { kind: ErrorKind::Metadata, message: String::from_str("track has no lyrics") }
    }

    /// Normalizes an engine-side lyrics-fetch failure.
    pub fn metadata_fetch_failed(detail: &str) -> (e: BridgeError)
        ensures
            e.kind == ErrorKind::Metadata,
            e.message@ == lyrics_fetch_failed_msg(detail@),
    {
        BridgeError {
            kind: ErrorKind::Metadata,
            message: String::from_str("lyrics fetch failed: ").concat(detail),
        }
    }

    /// Normalizes an engine-side connect failure.
    pub fn authentication_failed(detail: &str) -> (e: BridgeError)
        ensures
            e.kind == ErrorKind::Authentication,
            e.message@ == connect_failed_msg(detail@),
    {
        BridgeError {
            kind: ErrorKind::Authentication,
            message: String::from_str("connect failed: ").concat(detail),
        }
    }
}

/// Law: the no-lyrics error carries a message distinct from every
/// fetch-failure message, so the host can tell the two conditions apart.
pub proof fn lemma_no_lyrics_message_distinct(detail: Seq<char>)
    ensures
        no_lyrics_msg() != lyrics_fetch_failed_msg(detail),
{
    reveal_strlit("track has no lyrics");
    reveal_strlit("lyrics fetch failed: ");
    assert(no_lyrics_msg()[0] == 't');
    assert(lyrics_fetch_failed_msg(detail)[0] == 'l');
}

} // verus!
