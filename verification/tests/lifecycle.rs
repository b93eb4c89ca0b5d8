use librespot_bridge::bridge::LibrespotCore;
use librespot_bridge::bridge::SessionPhase;
use librespot_bridge::errors::ErrorKind;
use librespot_bridge::ident::IdFormat;
use librespot_bridge::ident::ItemType;

fn fresh_core() -> LibrespotCore {
    LibrespotCore::new(
        Some("/data/credentials.json".to_string()),
        Some("/data/audio-cache".to_string()),
        IdFormat::Uri,
    )
}

#[test]
fn construction_state() {
    let core = fresh_core();
    assert_eq!(core.phase, SessionPhase::Unauthenticated);
    assert!(core.player.is_none());
    assert!(core.store_credentials);
}

#[test]
fn player_init_twice_reports_true_then_false() {
    let mut core = fresh_core();
    assert!(core.player_init());
    let unit = core.player.unwrap();
    assert!(!core.player_init());
    // Exactly one unit exists, and it is the first one.
    assert_eq!(core.player.unwrap(), unit);
}

#[test]
fn login_success_replaces_session_and_rebinds_player() {
    let mut core = fresh_core();
    assert!(core.player_init());
    let unit_before = core.player.unwrap();
    let old_session = core.session_id;
    core.login_begin();
    assert_eq!(core.phase, SessionPhase::Authenticating);
    let r = core.login_complete(true, Ok(()));
    assert!(r.is_ok());
    assert_eq!(core.phase, SessionPhase::Authenticated);
    assert_ne!(core.session_id, old_session);
    assert!(core.store_credentials);
    let unit_after = core.player.unwrap();
    assert_eq!(unit_after.unit_id, unit_before.unit_id);
    assert_eq!(unit_after.bound_session, core.session_id);
}

#[test]
fn login_failure_surfaces_authentication_error() {
    let mut core = fresh_core();
    core.login_begin();
    let err = core.login_complete(true, Err("bad token".to_string())).unwrap_err();
    assert_eq!(err.kind, ErrorKind::Authentication);
    assert_eq!(err.message, "connect failed: bad token");
    assert_eq!(core.phase, SessionPhase::Unauthenticated);
}

#[test]
fn player_survives_logout_rebound_to_empty_session() {
    let mut core = fresh_core();
    core.login_begin();
    core.login_complete(true, Ok(())).unwrap();
    assert!(core.player_init());
    let unit_before = core.player.unwrap();
    let deleted = core.logout();
    // Persistence was on and a path is configured, so the shell is
    // told to delete the credential file.
    assert_eq!(deleted, Some("/data/credentials.json".to_string()));
    assert_eq!(core.phase, SessionPhase::Unauthenticated);
    assert!(!core.store_credentials);
    let unit_after = core.player.unwrap();
    assert_eq!(unit_after.unit_id, unit_before.unit_id);
    assert_eq!(unit_after.bound_session, core.session_id);
    // A second logout has persistence off: nothing to delete.
    assert_eq!(core.logout(), None);
}

#[test]
fn logout_without_configured_path_deletes_nothing() {
    let mut core = LibrespotCore::new(None, None, IdFormat::Uri);
    assert_eq!(core.logout(), None);
}

#[test]
fn control_calls_need_a_player() {
    let mut core = fresh_core();
    for err in [
        core.control_pause().unwrap_err(),
        core.control_play().unwrap_err(),
        core.control_stop().unwrap_err(),
        core.control_seek(1500).unwrap_err(),
        core.control_load("spotify:track:4uLU6hMCjMI75M1A2tKUQC", true, 0).unwrap_err(),
        core.control_preload("spotify:track:4uLU6hMCjMI75M1A2tKUQC").unwrap_err(),
    ] {
        assert_eq!(err.kind, ErrorKind::State);
        assert_eq!(err.message, "player is not initialized");
    }
    core.player_init();
    assert!(core.control_pause().is_ok());
    assert!(core.control_play().is_ok());
    assert!(core.control_stop().is_ok());
    assert_eq!(core.control_seek(1500).unwrap(), 1500);
}

#[test]
fn control_load_parses_before_checking_player() {
    let mut core = fresh_core();
    // Malformed reference fails fast with an identifier error even
    // though no player exists either.
    let err = core.control_load("not-a-reference", true, 250).unwrap_err();
    assert_eq!(err.kind, ErrorKind::Identifier);
    core.player_init();
    let cmd = core.control_load("spotify:track:0000000000000000000009", false, 250).unwrap();
    assert_eq!(cmd.track.id, 9);
    assert_eq!(cmd.track.item_type, ItemType::Track);
    assert!(!cmd.start_playing);
    assert_eq!(cmd.position_ms, 250);
    let id = core.control_preload("spotify:track:0000000000000000000009").unwrap();
    assert_eq!(id.id, 9);
}

#[test]
fn lyrics_request_needs_authentication_before_anything_else() {
    let core = fresh_core();
    // An unauthenticated bridge refuses even a malformed reference
    // with a state error: no engine call, no parse.
    let err = core.lyrics_request("track-ref").unwrap_err();
    assert_eq!(err.kind, ErrorKind::State);
    assert_eq!(err.message, "no authenticated session");
}

#[test]
fn lyrics_request_parses_once_authenticated() {
    let mut core = fresh_core();
    core.login_begin();
    core.login_complete(false, Ok(())).unwrap();
    let err = core.lyrics_request("track-ref").unwrap_err();
    assert_eq!(err.kind, ErrorKind::Identifier);
    let id = core.lyrics_request("spotify:track:0000000000000000000042").unwrap();
    assert_eq!(id.id, 4 * 62 + 2);
    assert_eq!(id.item_type, ItemType::Track);
}

#[test]
fn error_kind_labels() {
    assert_eq!(ErrorKind::Authentication.label(), "authentication");
    assert_eq!(ErrorKind::State.label(), "state");
    assert_eq!(ErrorKind::Identifier.label(), "identifier");
    assert_eq!(ErrorKind::Metadata.label(), "metadata");
}
