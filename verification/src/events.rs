//! Event translation: maps each internal engine event, one for one, to
//! the external representation that crosses the boundary, rendering
//! every embedded track identifier through the identifier codec.
//! Order is preserved, nothing is coalesced, nothing is dropped.
use vstd::prelude::*;

use crate::errors::BridgeError;
use crate::errors::ErrorKind;
use crate::errors::unrenderable_msg;
use crate::ident::IdFormat;
use crate::ident::IdentifierCodec;
use crate::ident::TrackId;
use crate::ident::renderable;
use crate::ident::rendered;

verus! {

/// The engine's internal event union, with every embedded identifier
/// still in its internal form. The decoded-audio variant carries the
/// two attributes of the audio item that cross the boundary.
#[derive(Debug)]
pub enum InternalEvent {
    Stopped { play_request_id: u64, track_id: TrackId },
    Loading { play_request_id: u64, track_id: TrackId, position_ms: u32 },
    Preloading { track_id: TrackId },
    Playing { play_request_id: u64, track_id: TrackId, position_ms: u32 },
    Paused { play_request_id: u64, track_id: TrackId, position_ms: u32 },
    TimeToPreloadNextTrack { play_request_id: u64, track_id: TrackId },
    EndOfTrack { play_request_id: u64, track_id: TrackId },
    Unavailable { play_request_id: u64, track_id: TrackId },
    VolumeChanged { volume: u16 },
    PositionCorrection { play_request_id: u64, track_id: TrackId, position_ms: u32 },
    Seeked { play_request_id: u64, track_id: TrackId, position_ms: u32 },
    TrackChanged { track_id: TrackId, duration_ms: u32 },
    SessionConnected { connection_id: String, user_name: String },
    SessionDisconnected { connection_id: String, user_name: String },
    SessionClientChanged {
        client_id: String,
        client_name: String,
        client_brand_name: String,
        client_model_name: String,
    },
    ShuffleChanged { shuffle: bool },
    RepeatChanged { repeat: bool },
    AutoPlayChanged { auto_play: bool },
    FilterExplicitContentChanged { filter: bool },
    PlayRequestIdChanged { play_request_id: u64 },
}

/// The external event union: the only event type that crosses the
/// boundary. Each variant mirrors one internal variant, with every
/// identifier rendered to its external string form.
#[derive(Debug)]
pub enum ExternalEvent {
    Stopped { play_request_id: u64, track_uri: String },
    Loading { play_request_id: u64, track_uri: String, position_ms: u32 },
    Preloading { track_uri: String },
    Playing { play_request_id: u64, track_uri: String, position_ms: u32 },
    Paused { play_request_id: u64, track_uri: String, position_ms: u32 },
    TimeToPreloadNextTrack { play_request_id: u64, track_uri: String },
    EndOfTrack { play_request_id: u64, track_uri: String },
    Unavailable { play_request_id: u64, track_uri: String },
    VolumeChanged { volume: u16 },
    PositionCorrection { play_request_id: u64, track_uri: String, position_ms: u32 },
    Seeked { play_request_id: u64, track_uri: String, position_ms: u32 },
    TrackChanged { track_uri: String, duration_ms: u32 },
    SessionConnected { connection_id: String, user_name: String },
    SessionDisconnected { connection_id: String, user_name: String },
    SessionClientChanged {
        client_id: String,
        client_name: String,
        client_brand_name: String,
        client_model_name: String,
    },
    ShuffleChanged { shuffle: bool },
    RepeatChanged { repeating: bool },
    AutoPlayChanged { auto_play: bool },
    FilterExplicitContentChanged { filter: bool },
    PlayRequestIdChanged { play_request_id: u64 },
}

/// Whether every identifier embedded in the event has a rendering in
/// the given external form.
pub open spec fn event_renderable(fmt: IdFormat, e: InternalEvent) -> bool {
    match e {
        InternalEvent::Stopped { track_id, .. } => renderable(fmt, track_id),
        InternalEvent::Loading { track_id, .. } => renderable(fmt, track_id),
        InternalEvent::Preloading { track_id } => renderable(fmt, track_id),
        InternalEvent::Playing { track_id, .. } => renderable(fmt, track_id),
        InternalEvent::Paused { track_id, .. } => renderable(fmt, track_id),
        InternalEvent::TimeToPreloadNextTrack { track_id, .. } => renderable(fmt, track_id),
        InternalEvent::EndOfTrack { track_id, .. } => renderable(fmt, track_id),
        InternalEvent::Unavailable { track_id, .. } => renderable(fmt, track_id),
        InternalEvent::PositionCorrection { track_id, .. } => renderable(fmt, track_id),
        InternalEvent::Seeked { track_id, .. } => renderable(fmt, track_id),
        InternalEvent::TrackChanged { track_id, .. } => renderable(fmt, track_id),
        _ => true,
    }
}

/// The one-for-one translation relation between an internal event and
/// its external representation: same variant, same attributes, and
/// every identifier field carries the codec's rendering of the
/// corresponding internal identifier.
pub open spec fn is_translation(fmt: IdFormat, e: InternalEvent, x: ExternalEvent) -> bool {
    match (e, x) {
        (
            InternalEvent::Stopped { play_request_id: p, track_id: t },
            ExternalEvent::Stopped { play_request_id: q, track_uri: u },
        ) => q == p && u@ == rendered(fmt, t),
        (
            InternalEvent::Loading { play_request_id: p, track_id: t, position_ms: m },
            ExternalEvent::Loading { play_request_id: q, track_uri: u, position_ms: n },
        ) => q == p && n == m && u@ == rendered(fmt, t),
        (
            InternalEvent::Preloading { track_id: t },
            ExternalEvent::Preloading { track_uri: u },
        ) => u@ == rendered(fmt, t),
        (
            InternalEvent::Playing { play_request_id: p, track_id: t, position_ms: m },
            ExternalEvent::Playing { play_request_id: q, track_uri: u, position_ms: n },
        ) => q == p && n == m && u@ == rendered(fmt, t),
        (
            InternalEvent::Paused { play_request_id: p, track_id: t, position_ms: m },
            ExternalEvent::Paused { play_request_id: q, track_uri: u, position_ms: n },
        ) => q == p && n == m && u@ == rendered(fmt, t),
        (
            InternalEvent::TimeToPreloadNextTrack { play_request_id: p, track_id: t },
            ExternalEvent::TimeToPreloadNextTrack { play_request_id: q, track_uri: u },
        ) => q == p && u@ == rendered(fmt, t),
        (
            InternalEvent::EndOfTrack { play_request_id: p, track_id: t },
            ExternalEvent::EndOfTrack { play_request_id: q, track_uri: u },
        ) => q == p && u@ == rendered(fmt, t),
        (
            InternalEvent::Unavailable { play_request_id: p, track_id: t },
            ExternalEvent::Unavailable { play_request_id: q, track_uri: u },
        ) => q == p && u@ == rendered(fmt, t),
        (
            InternalEvent::VolumeChanged { volume: v },
            ExternalEvent::VolumeChanged { volume: w },
        ) => w == v,
        (
            InternalEvent::PositionCorrection { play_request_id: p, track_id: t, position_ms: m },
            ExternalEvent::PositionCorrection { play_request_id: q, track_uri: u, position_ms: n },
        ) => q == p && n == m && u@ == rendered(fmt, t),
        (
            InternalEvent::Seeked { play_request_id: p, track_id: t, position_ms: m },
            ExternalEvent::Seeked { play_request_id: q, track_uri: u, position_ms: n },
        ) => q == p && n == m && u@ == rendered(fmt, t),
        (
            InternalEvent::TrackChanged { track_id: t, duration_ms: m },
            ExternalEvent::TrackChanged { track_uri: u, duration_ms: n },
        ) => n == m && u@ == rendered(fmt, t),
        (
            InternalEvent::SessionConnected { connection_id: c, user_name: un },
            ExternalEvent::SessionConnected { connection_id: d, user_name: vn },
        ) => d@ == c@ && vn@ == un@,
        (
            InternalEvent::SessionDisconnected { connection_id: c, user_name: un },
            ExternalEvent::SessionDisconnected { connection_id: d, user_name: vn },
        ) => d@ == c@ && vn@ == un@,
        (
            InternalEvent::SessionClientChanged {
                client_id: a,
                client_name: b,
                client_brand_name: c,
                client_model_name: d,
            },
            ExternalEvent::SessionClientChanged {
                client_id: a2,
                client_name: b2,
                client_brand_name: c2,
                client_model_name: d2,
            },
        ) => a2@ == a@ && b2@ == b@ && c2@ == c@ && d2@ == d@,
        (
            InternalEvent::ShuffleChanged { shuffle: v },
            ExternalEvent::ShuffleChanged { shuffle: w },
        ) => w == v,
        (
            InternalEvent::RepeatChanged { repeat: v },
            ExternalEvent::RepeatChanged { repeating: w },
        ) => w == v,
        (
            InternalEvent::AutoPlayChanged { auto_play: v },
            ExternalEvent::AutoPlayChanged { auto_play: w },
        ) => w == v,
        (
            InternalEvent::FilterExplicitContentChanged { filter: v },
            ExternalEvent::FilterExplicitContentChanged { filter: w },
        ) => w == v,
        (
            InternalEvent::PlayRequestIdChanged { play_request_id: p },
            ExternalEvent::PlayRequestIdChanged { play_request_id: q },
        ) => q == p,
        _ => false,
    }
}

/// Whether `xs` is exactly the in-order, one-for-one translation of
/// `es`: same count, and the event at each position translates the
/// internal event at the same position.
pub open spec fn all_translated(fmt: IdFormat, es: Seq<InternalEvent>, xs: Seq<ExternalEvent>) -> bool {
    &&& xs.len() == es.len()
    &&& forall|i: int| 0 <= i < es.len() ==> is_translation(fmt, es[i], #[trigger] xs[i])
}

/// Translates one internal event. Fails exactly when an embedded
/// identifier has no rendering in the codec's form; such a failure
/// means an internal invariant was violated, and the caller treats it
/// as unrecoverable rather than dropping the event.
pub fn translate_event(codec: &IdentifierCodec, e: &InternalEvent) -> (r: Result<
    ExternalEvent,
    BridgeError,
>)
    ensures
        (r is Ok) == event_renderable(codec.format, *e),
        r matches Ok(x) ==> is_translation(codec.format, *e, x),
        r matches Err(err) ==> err.kind == ErrorKind::Identifier && err.message@
            == unrenderable_msg(),
{
    match e {
        InternalEvent::Stopped { play_request_id, track_id } => match codec.render(track_id) {
            Ok(track_uri) => Ok(
                ExternalEvent::Stopped { play_request_id: *play_request_id, track_uri },
            ),
            Err(err) => Err(err),
        },
        InternalEvent::Loading { play_request_id, track_id, position_ms } => match codec.render(
            track_id,
        ) {
            Ok(track_uri) => Ok(
                ExternalEvent::Loading {
                    play_request_id: *play_request_id,
                    track_uri,
                    position_ms: *position_ms,
                },
            ),
            Err(err) => Err(err),
        },
        InternalEvent::Preloading { track_id } => match codec.render(track_id) {
            Ok(track_uri) => Ok(ExternalEvent::Preloading { track_uri }),
            Err(err) => Err(err),
        },
        InternalEvent::Playing { play_request_id, track_id, position_ms } => match codec.render(
            track_id,
        ) {
            Ok(track_uri) => Ok(
                ExternalEvent::Playing {
                    play_request_id: *play_request_id,
                    track_uri,
                    position_ms: *position_ms,
                },
            ),
            Err(err) => Err(err),
        },
        InternalEvent::Paused { play_request_id, track_id, position_ms } => match codec.render(
            track_id,
        ) {
            Ok(track_uri) => Ok(
                ExternalEvent::Paused {
                    play_request_id: *play_request_id,
                    track_uri,
                    position_ms: *position_ms,
                },
            ),
            Err(err) => Err(err),
        },
        InternalEvent::TimeToPreloadNextTrack { play_request_id, track_id } => match codec.render(
            track_id,
        ) {
            Ok(track_uri) => Ok(
                ExternalEvent::TimeToPreloadNextTrack {
                    play_request_id: *play_request_id,
                    track_uri,
                },
            ),
            Err(err) => Err(err),
        },
        InternalEvent::EndOfTrack { play_request_id, track_id } => match codec.render(track_id) {
            Ok(track_uri) => Ok(
                ExternalEvent::EndOfTrack { play_request_id: *play_request_id, track_uri },
            ),
            Err(err) => Err(err),
        },
        InternalEvent::Unavailable { play_request_id, track_id } => match codec.render(track_id) {
            Ok(track_uri) => Ok(
                ExternalEvent::Unavailable { play_request_id: *play_request_id, track_uri },
            ),
            Err(err) => Err(err),
        },
        InternalEvent::VolumeChanged { volume } => Ok(
            ExternalEvent::VolumeChanged { volume: *volume },
        ),
        InternalEvent::PositionCorrection { play_request_id, track_id, position_ms } => match codec
            .render(track_id) {
            Ok(track_uri) => Ok(
                ExternalEvent::PositionCorrection {
                    play_request_id: *play_request_id,
                    track_uri,
                    position_ms: *position_ms,
                },
            ),
            Err(err) => Err(err),
        },
        InternalEvent::Seeked { play_request_id, track_id, position_ms } => match codec.render(
            track_id,
        ) {
            Ok(track_uri) => Ok(
                ExternalEvent::Seeked {
                    play_request_id: *play_request_id,
                    track_uri,
                    position_ms: *position_ms,
                },
            ),
            Err(err) => Err(err),
        },
        InternalEvent::TrackChanged { track_id, duration_ms } => match codec.render(track_id) {
            Ok(track_uri) => Ok(
                ExternalEvent::TrackChanged { track_uri, duration_ms: *duration_ms },
            ),
            Err(err) => Err(err),
        },
        InternalEvent::SessionConnected { connection_id, user_name } => Ok(
            ExternalEvent::SessionConnected {
                connection_id: connection_id.clone(),
                user_name: user_name.clone(),
            },
        ),
        InternalEvent::SessionDisconnected { connection_id, user_name } => Ok(
            ExternalEvent::SessionDisconnected {
                connection_id: connection_id.clone(),
                user_name: user_name.clone(),
            },
        ),
        InternalEvent::SessionClientChanged {
            client_id,
            client_name,
            client_brand_name,
            client_model_name,
        } => Ok(
            ExternalEvent::SessionClientChanged {
                client_id: client_id.clone(),
                client_name: client_name.clone(),
                client_brand_name: client_brand_name.clone(),
                client_model_name: client_model_name.clone(),
            },
        ),
        InternalEvent::ShuffleChanged { shuffle } => Ok(
            ExternalEvent::ShuffleChanged { shuffle: *shuffle },
        ),
        InternalEvent::RepeatChanged { repeat } => Ok(
            ExternalEvent::RepeatChanged { repeating: *repeat },
        ),
        InternalEvent::AutoPlayChanged { auto_play } => Ok(
            ExternalEvent::AutoPlayChanged { auto_play: *auto_play },
        ),
        InternalEvent::FilterExplicitContentChanged { filter } => Ok(
            ExternalEvent::FilterExplicitContentChanged { filter: *filter },
        ),
        InternalEvent::PlayRequestIdChanged { play_request_id } => Ok(
            ExternalEvent::PlayRequestIdChanged { play_request_id: *play_request_id },
        ),
    }
}

/// Translates a sequence of internal events, in order. Succeeds with
/// one external event per internal event, at the same position, or
/// fails on the first event whose identifier has no rendering —
/// nothing is reordered, coalesced or dropped.
pub fn translate_events(codec: &IdentifierCodec, es: &Vec<InternalEvent>) -> (r: Result<
    Vec<ExternalEvent>,
    BridgeError,
>)
    ensures
        (r is Ok) == (forall|i: int|
            0 <= i < es@.len() ==> event_renderable(codec.format, #[trigger] es@[i])),
        r matches Ok(xs) ==> all_translated(codec.format, es@, xs@),
        r matches Err(err) ==> err.kind == ErrorKind::Identifier && err.message@
            == unrenderable_msg(),
{
    let mut xs: Vec<ExternalEvent> = Vec::new();
    let mut i: usize = 0;
    while i < es.len()
        invariant
            i <= es@.len(),
            xs@.len() == i,
            forall|j: int| 0 <= j < i ==> event_renderable(codec.format, #[trigger] es@[j]),
            forall|j: int| 0 <= j < i ==> is_translation(codec.format, es@[j], #[trigger] xs@[j]),
        decreases es@.len() - i,
    {
        match translate_event(codec, &es[i]) {
            Ok(x) => {
                xs.push(x);
            },
            Err(err) => {
                return Err(err);
            },
        }
        i = i + 1;
    }
    Ok(xs)
}

} // verus!
