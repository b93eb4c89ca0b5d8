use librespot_bridge::errors::BridgeError;
use librespot_bridge::errors::ErrorKind;
use librespot_bridge::lyrics::LyricsPayload;
use librespot_bridge::lyrics::TrackMetadata;
use librespot_bridge::lyrics::lyrics_assemble;
use librespot_bridge::lyrics::lyrics_gate;

#[test]
fn gate_refuses_tracks_without_lyrics() {
    let err = lyrics_gate(&TrackMetadata { has_lyrics: false }).unwrap_err();
    assert_eq!(err.kind, ErrorKind::Metadata);
    assert_eq!(err.message, "track has no lyrics");
    assert!(lyrics_gate(&TrackMetadata { has_lyrics: true }).is_ok());
}

#[test]
fn no_lyrics_message_differs_from_fetch_failure() {
    let gate_err = lyrics_gate(&TrackMetadata { has_lyrics: false }).unwrap_err();
    let fetch_err = BridgeError::metadata_fetch_failed("connection reset");
    assert_eq!(fetch_err.kind, ErrorKind::Metadata);
    assert_eq!(fetch_err.message, "lyrics fetch failed: connection reset");
    assert_ne!(gate_err.message, fetch_err.message);
}

#[test]
fn assemble_keeps_lines_and_derives_synced_flag() {
    let payload = LyricsPayload {
        lines: vec!["first line".to_string(), "second line".to_string()],
        provider: "provider-a".to_string(),
        provider_display_name: "Provider A".to_string(),
        sync_type: "LINE_SYNCED".to_string(),
        background_color: -16777216,
        text_color: -1,
        highlight_text_color: -256,
    };
    let out = lyrics_assemble(payload);
    assert_eq!(out.lines, vec!["first line".to_string(), "second line".to_string()]);
    assert_eq!(out.provider, "provider-a");
    assert_eq!(out.provider_display_name, "Provider A");
    assert!(out.synced);
    assert_eq!(out.background_color, -16777216);
    assert_eq!(out.text_color, -1);
    assert_eq!(out.highlight_text_color, -256);
}

#[test]
fn assemble_marks_unsynced_lyrics() {
    let payload = LyricsPayload {
        lines: vec!["only line".to_string()],
        provider: "provider-b".to_string(),
        provider_display_name: "Provider B".to_string(),
        sync_type: "UNSYNCED".to_string(),
        background_color: 0,
        text_color: 0,
        highlight_text_color: 0,
    };
    let out = lyrics_assemble(payload);
    assert!(!out.synced);
}
