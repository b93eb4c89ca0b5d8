use librespot_bridge::bridge::LibrespotCore;
use librespot_bridge::errors::ErrorKind;
use librespot_bridge::events::ExternalEvent;
use librespot_bridge::events::InternalEvent;
use librespot_bridge::events::translate_event;
use librespot_bridge::events::translate_events;
use librespot_bridge::ident::IdFormat;
use librespot_bridge::ident::IdentifierCodec;
use librespot_bridge::ident::ItemType;
use librespot_bridge::ident::TrackId;

fn track(n: u128) -> TrackId {
    TrackId { id: n, item_type: ItemType::Track }
}

#[test]
fn translation_renders_identifiers() {
    let codec = IdentifierCodec::new(IdFormat::Uri);
    let out = translate_event(
        &codec,
        &InternalEvent::Playing { play_request_id: 7, track_id: track(9), position_ms: 1234 },
    )
    .unwrap();
    match out {
        ExternalEvent::Playing { play_request_id, track_uri, position_ms } => {
            assert_eq!(play_request_id, 7);
            assert_eq!(track_uri, "spotify:track:0000000000000000000009");
            assert_eq!(position_ms, 1234);
        },
        other => panic!("wrong variant: {:?}", other),
    }
}

#[test]
fn translation_keeps_plain_attributes() {
    let codec = IdentifierCodec::new(IdFormat::Uri);
    match translate_event(&codec, &InternalEvent::VolumeChanged { volume: 300 }).unwrap() {
        ExternalEvent::VolumeChanged { volume } => assert_eq!(volume, 300),
        other => panic!("wrong variant: {:?}", other),
    }
    match translate_event(&codec, &InternalEvent::RepeatChanged { repeat: true }).unwrap() {
        ExternalEvent::RepeatChanged { repeating } => assert!(repeating),
        other => panic!("wrong variant: {:?}", other),
    }
    match translate_event(
        &codec,
        &InternalEvent::SessionConnected {
            connection_id: "conn-1".to_string(),
            user_name: "listener".to_string(),
        },
    )
    .unwrap()
    {
        ExternalEvent::SessionConnected { connection_id, user_name } => {
            assert_eq!(connection_id, "conn-1");
            assert_eq!(user_name, "listener");
        },
        other => panic!("wrong variant: {:?}", other),
    }
    match translate_event(
        &codec,
        &InternalEvent::TrackChanged { track_id: track(61), duration_ms: 200_000 },
    )
    .unwrap()
    {
        ExternalEvent::TrackChanged { track_uri, duration_ms } => {
            assert_eq!(track_uri, "spotify:track:000000000000000000000Z");
            assert_eq!(duration_ms, 200_000);
        },
        other => panic!("wrong variant: {:?}", other),
    }
}

#[test]
fn translation_preserves_order_and_count() {
    let codec = IdentifierCodec::new(IdFormat::Uri);
    let events = vec![
        InternalEvent::Loading { play_request_id: 1, track_id: track(10), position_ms: 0 },
        InternalEvent::Playing { play_request_id: 1, track_id: track(10), position_ms: 0 },
        InternalEvent::Paused { play_request_id: 1, track_id: track(10), position_ms: 450 },
        InternalEvent::EndOfTrack { play_request_id: 1, track_id: track(10) },
        InternalEvent::Stopped { play_request_id: 1, track_id: track(10) },
    ];
    let out = translate_events(&codec, &events).unwrap();
    assert_eq!(out.len(), 5);
    assert!(matches!(out[0], ExternalEvent::Loading { .. }));
    assert!(matches!(out[1], ExternalEvent::Playing { .. }));
    assert!(matches!(out[2], ExternalEvent::Paused { position_ms: 450, .. }));
    assert!(matches!(out[3], ExternalEvent::EndOfTrack { .. }));
    assert!(matches!(out[4], ExternalEvent::Stopped { .. }));
}

#[test]
fn translation_fails_loudly_on_unrenderable_identifier() {
    let codec = IdentifierCodec::new(IdFormat::Uri);
    let bad = TrackId { id: 5, item_type: ItemType::Unknown };
    let err = translate_event(
        &codec,
        &InternalEvent::Stopped { play_request_id: 3, track_id: bad },
    )
    .unwrap_err();
    assert_eq!(err.kind, ErrorKind::Identifier);
    assert_eq!(err.message, "identifier cannot be rendered in the external form");
    let events = vec![
        InternalEvent::VolumeChanged { volume: 1 },
        InternalEvent::Preloading { track_id: bad },
    ];
    let err = translate_events(&codec, &events).unwrap_err();
    assert_eq!(err.kind, ErrorKind::Identifier);
}

#[test]
fn every_variant_maps_one_to_one() {
    let codec = IdentifierCodec::new(IdFormat::Uri);
    let uri = "spotify:track:0000000000000000000005";
    let t = track(5);
    let out = translate_event(
        &codec,
        &InternalEvent::TimeToPreloadNextTrack { play_request_id: 9, track_id: t },
    )
    .unwrap();
    match out {
        ExternalEvent::TimeToPreloadNextTrack { play_request_id, track_uri } => {
            assert_eq!(play_request_id, 9);
            assert_eq!(track_uri, uri);
        },
        other => panic!("wrong variant: {:?}", other),
    }
    match translate_event(
        &codec,
        &InternalEvent::Unavailable { play_request_id: 9, track_id: t },
    )
    .unwrap()
    {
        ExternalEvent::Unavailable { track_uri, .. } => assert_eq!(track_uri, uri),
        other => panic!("wrong variant: {:?}", other),
    }
    match translate_event(
        &codec,
        &InternalEvent::PositionCorrection { play_request_id: 9, track_id: t, position_ms: 77 },
    )
    .unwrap()
    {
        ExternalEvent::PositionCorrection { position_ms, .. } => assert_eq!(position_ms, 77),
        other => panic!("wrong variant: {:?}", other),
    }
    match translate_event(
        &codec,
        &InternalEvent::Preloading { track_id: t },
    )
    .unwrap()
    {
        ExternalEvent::Preloading { track_uri } => assert_eq!(track_uri, uri),
        other => panic!("wrong variant: {:?}", other),
    }
    match translate_event(
        &codec,
        &InternalEvent::SessionDisconnected {
            connection_id: "conn-2".to_string(),
            user_name: "listener".to_string(),
        },
    )
    .unwrap()
    {
        ExternalEvent::SessionDisconnected { connection_id, .. } => {
            assert_eq!(connection_id, "conn-2");
        },
        other => panic!("wrong variant: {:?}", other),
    }
    match translate_event(
        &codec,
        &InternalEvent::SessionClientChanged {
            client_id: "id-1".to_string(),
            client_name: "name-1".to_string(),
            client_brand_name: "brand-1".to_string(),
            client_model_name: "model-1".to_string(),
        },
    )
    .unwrap()
    {
        ExternalEvent::SessionClientChanged {
            client_id,
            client_name,
            client_brand_name,
            client_model_name,
        } => {
            assert_eq!(client_id, "id-1");
            assert_eq!(client_name, "name-1");
            assert_eq!(client_brand_name, "brand-1");
            assert_eq!(client_model_name, "model-1");
        },
        other => panic!("wrong variant: {:?}", other),
    }
    match translate_event(&codec, &InternalEvent::ShuffleChanged { shuffle: true }).unwrap() {
        ExternalEvent::ShuffleChanged { shuffle } => assert!(shuffle),
        other => panic!("wrong variant: {:?}", other),
    }
    match translate_event(&codec, &InternalEvent::AutoPlayChanged { auto_play: true }).unwrap() {
        ExternalEvent::AutoPlayChanged { auto_play } => assert!(auto_play),
        other => panic!("wrong variant: {:?}", other),
    }
    match translate_event(
        &codec,
        &InternalEvent::FilterExplicitContentChanged { filter: true },
    )
    .unwrap()
    {
        ExternalEvent::FilterExplicitContentChanged { filter } => assert!(filter),
        other => panic!("wrong variant: {:?}", other),
    }
    match translate_event(
        &codec,
        &InternalEvent::PlayRequestIdChanged { play_request_id: 31 },
    )
    .unwrap()
    {
        ExternalEvent::PlayRequestIdChanged { play_request_id } => {
            assert_eq!(play_request_id, 31);
        },
        other => panic!("wrong variant: {:?}", other),
    }
}

#[test]
fn next_player_event_translates_while_player_exists() {
    let mut core = LibrespotCore::new(None, None, IdFormat::Uri);
    core.player_init();
    let out = core
        .next_player_event(Some(InternalEvent::Seeked {
            play_request_id: 2,
            track_id: track(1),
            position_ms: 60_000,
        }))
        .unwrap();
    match out.unwrap() {
        ExternalEvent::Seeked { play_request_id, track_uri, position_ms } => {
            assert_eq!(play_request_id, 2);
            assert_eq!(track_uri, "spotify:track:0000000000000000000001");
            assert_eq!(position_ms, 60_000);
        },
        other => panic!("wrong variant: {:?}", other),
    }
    // A poll that yielded nothing is "no event", not a fault.
    assert!(core.next_player_event(None).unwrap().is_none());
}

#[test]
fn next_player_event_is_none_after_teardown() {
    let mut core = LibrespotCore::new(None, None, IdFormat::Uri);
    core.player_init();
    core.player_deinit();
    assert!(core.next_player_event(None).unwrap().is_none());
    // Even an event that raced the teardown is answered with
    // "no event" rather than a fault or a hang.
    let raced = InternalEvent::Playing { play_request_id: 1, track_id: track(2), position_ms: 5 };
    assert!(core.next_player_event(Some(raced)).unwrap().is_none());
}
